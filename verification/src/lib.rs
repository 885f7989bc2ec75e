//! Full-text indexing and search of structs: schemas, documents, filter
//! expressions, search queries and their query plans, and pages of results.
pub mod book;
pub mod derive;
pub mod document;
pub mod field_info;
pub mod field_type;
pub mod index_field;
pub mod index_type;
pub mod indexable;
pub mod paginated_result;
pub mod plan_laws;
pub mod query_plan;
pub mod schema;
pub mod search_query;
pub mod struct_info;
pub mod symbol;
pub mod template;
pub mod text;

pub use document::{Document, OwnedValue, Term};
pub use field_info::FieldInfo;
pub use field_type::FieldType;
pub use index_field::{DateTime, Float64, IndexField, IndexFieldSingle, IndexFieldVec};
pub use index_type::IndexType;
pub use indexable::Indexable;
pub use paginated_result::PaginatedResult;
pub use query_plan::{Occur, QueryPlan, SearchKind, TermBound};
pub use schema::{Field, Schema, SchemaBuilder};
pub use search_query::{FieldRef, Filter, FilterOp, FilterValue, IntoFilterValue, IntoText, SearchQuery};
pub use struct_info::StructInfo;
pub use symbol::Symbol;
