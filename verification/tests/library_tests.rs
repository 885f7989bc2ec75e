use text_search::book::Book;
use text_search::derive::field_info::{
    extract_vec_inner_type, get_field_info, get_field_type_path, is_vec_field,
    parse_attribute_words, AttributeError, PathSegment, TypePath,
};
use text_search::document::OwnedValue;
use text_search::paginated_result::{
    docs_to_t, is_valid_page_request, page_offset, paginate, total_pages,
};
use text_search::query_plan::{
    apply_filter, filter_query, filter_to_clauses, filter_to_query, new_boolean_query_filters,
    plan_search, query_fields_known, search_query,
};
use text_search::schema::{get_field_value_type, Indexing, SchemaFieldType, ValueType};
use text_search::text::{quote, split_spaces_exec};
use text_search::template::field_info::FieldInfo as TFieldInfo;
use text_search::template::field_type::FieldType as TFieldType;
use text_search::template::index_type::IndexType as TIndexType;
use text_search::template::struct_info::StructInfo as TStructInfo;
use text_search::{
    DateTime, Document, Field, FieldInfo, FieldRef, FieldType, Filter, FilterOp, FilterValue,
    Float64, IndexField, IndexFieldSingle, IndexFieldVec, IndexType, Indexable, Occur, QueryPlan,
    SchemaBuilder, SearchKind, SearchQuery, StructInfo, Symbol, TermBound,
};

const AUTHOR: FieldRef = FieldRef { name: "author" };
const NAME: FieldRef = FieldRef { name: "name" };
const PUBLISHED_ON: FieldRef = FieldRef { name: "published_on" };

fn sample_book() -> Book {
    Book {
        id: 7,
        name: "Programming Rust".to_string(),
        author: "Jim Blandy".to_string(),
        description: "Comprehensive coverage.".to_string(),
        published_on: 2018,
    }
}

fn is_parsed(plan: &QueryPlan, field: u32, text: &str) -> bool {
    match plan {
        QueryPlan::Parsed { field: f, text: t } => f.0 == field && t == text,
        _ => false,
    }
}

fn is_str_term(term: &text_search::Term, field: u32, text: &str) -> bool {
    term.field.0 == field && matches!(&term.value, FilterValue::Str(s) if s == text)
}

#[test]
fn search_query_defaults() {
    let query = SearchQuery::new(NAME, "Rust");
    assert_eq!(query.field().name(), "name");
    assert_eq!(query.query(), "Rust");
    assert!(query.filter().is_none());
    assert_eq!(query.get_page(), 1);
    assert_eq!(query.get_per_page(), 10);
    let owned = SearchQuery::new(NAME, String::from("Rusty"));
    assert_eq!(owned.query(), "Rusty");
}

#[test]
fn field_ref_comparisons() {
    for (filter, expected) in [
        (PUBLISHED_ON.ne(2020), FilterOp::Ne),
        (PUBLISHED_ON.gt(2020), FilterOp::Gt),
        (PUBLISHED_ON.ge(2020), FilterOp::Ge),
        (PUBLISHED_ON.lt(2020), FilterOp::Lt),
        (PUBLISHED_ON.le(2020), FilterOp::Le),
    ] {
        match filter {
            Filter::Condition { field_name, op, value } => {
                assert_eq!(field_name, "published_on");
                assert_eq!(op, expected);
                assert!(matches!(value, FilterValue::I64(2020)));
            }
            _ => panic!("Expected Condition filter"),
        }
    }
    assert!(matches!(
        PUBLISHED_ON.eq(7u32),
        Filter::Condition { value: FilterValue::U64(7), .. }
    ));
    assert!(matches!(
        PUBLISHED_ON.eq(true),
        Filter::Condition { value: FilterValue::Bool(true), .. }
    ));
    assert!(matches!(
        PUBLISHED_ON.eq(-3i64),
        Filter::Condition { value: FilterValue::I64(-3), .. }
    ));
    assert!(matches!(
        PUBLISHED_ON.eq(FilterValue::F64(2.5f64.to_bits())),
        Filter::Condition { value: FilterValue::F64(b), .. } if b == 2.5f64.to_bits()
    ));
}

#[test]
fn and_extends_a_conjunction() {
    let filter = AUTHOR.eq("A").and(AUTHOR.eq("B")).and(AUTHOR.eq("C"));
    match filter {
        Filter::And(v) => assert_eq!(v.len(), 3),
        _ => panic!("Expected And filter"),
    }
    // a disjunction on the left is nested, not extended
    let filter = AUTHOR.eq("A").or(AUTHOR.eq("B")).and(AUTHOR.eq("C"));
    match filter {
        Filter::And(v) => {
            assert_eq!(v.len(), 2);
            assert!(matches!(&v[0], Filter::Or(w) if w.len() == 2));
        }
        _ => panic!("Expected And filter"),
    }
}

#[test]
fn or_extends_a_disjunction() {
    let filter = AUTHOR.eq("A").or(AUTHOR.eq("B")).or(AUTHOR.eq("C"));
    match filter {
        Filter::Or(v) => assert_eq!(v.len(), 3),
        _ => panic!("Expected Or filter"),
    }
}

#[test]
fn filter_clone_is_equal() {
    let filter = AUTHOR.eq("A").and(PUBLISHED_ON.ge(2000)).or(NAME.ne("x"));
    let copy = filter.clone();
    assert_eq!(format!("{:?}", filter), format!("{:?}", copy));
}

#[test]
fn book_schema_fields() {
    let schema = Book::generate_schema();
    assert_eq!(schema.num_fields(), 5);
    assert_eq!(schema.get_field("id"), Some(Field(0)));
    assert_eq!(schema.get_field("author"), Some(Field(2)));
    assert_eq!(schema.get_field("published_on"), Some(Field(4)));
    assert_eq!(schema.get_field("isbn"), None);
    let name = schema.get_field_entry(Field(1));
    assert_eq!(name.name, "name");
    assert_eq!(name.field_type, SchemaFieldType::Str);
    assert_eq!(name.indexing, Indexing::Tokenized);
    assert!(name.stored);
    let id = schema.get_field_entry(Field(0));
    assert_eq!(id.field_type, SchemaFieldType::I64);
    assert_eq!(id.indexing, Indexing::Raw);
    let published = schema.get_field_entry(Field(4));
    assert_eq!(published.indexing, Indexing::NotIndexed);
}

#[test]
fn book_round_trip() {
    let book = sample_book();
    let doc = book.as_document();
    assert_eq!(doc.len(), 5);
    let back = Book::from_doc(doc);
    assert_eq!(back.id, 7);
    assert_eq!(back.name, "Programming Rust");
    assert_eq!(back.author, "Jim Blandy");
    assert_eq!(back.description, "Comprehensive coverage.");
    assert_eq!(back.published_on, 2018);
}

#[test]
fn book_from_empty_document_has_defaults() {
    let back = Book::from_doc(Document::new());
    assert_eq!(back.id, 0);
    assert_eq!(back.name, "");
    assert_eq!(back.published_on, 0);
}

#[test]
fn book_id_term_and_struct_info() {
    let term = sample_book().get_id_term();
    assert_eq!(term.field, Field(0));
    assert!(matches!(term.value, FilterValue::I64(7)));
    let info = Book::get_struct_info();
    assert_eq!(info.struct_name, "Book");
    assert_eq!(info.fields.len(), 5);
    assert!(info.fields[0].is_id);
    assert_eq!(info.fields[4].field_name, "published_on");
    assert_eq!(info.fields[4].index_type, IndexType::not_indexed);
}

#[test]
fn sample_books() {
    let books = Book::get_sample_books();
    assert_eq!(books.len(), 5);
    assert_eq!(books[0].author, "Bogdan");
    assert_eq!(books[2].name, "The Rust Programming Language");
    assert_eq!(books[4].published_on, 2021);
}

#[test]
fn equality_filter_queries() {
    let schema = Book::generate_schema();
    let plan = filter_to_query(&schema, &AUTHOR.eq("Bogdan"));
    assert!(is_parsed(&plan, 2, "\"Bogdan\""));
    let plan = filter_to_query(&schema, &PUBLISHED_ON.eq(2020));
    match plan {
        QueryPlan::Term { term } => {
            assert_eq!(term.field, Field(4));
            assert!(matches!(term.value, FilterValue::I64(2020)));
        }
        _ => panic!("Expected term query"),
    }
}

#[test]
fn range_filter_queries() {
    let schema = Book::generate_schema();
    let cases = [
        (PUBLISHED_ON.gt(2019), "excluded", "unbounded"),
        (PUBLISHED_ON.ge(2019), "included", "unbounded"),
        (PUBLISHED_ON.lt(2019), "unbounded", "excluded"),
        (PUBLISHED_ON.le(2019), "unbounded", "included"),
    ];
    for (filter, lower_kind, upper_kind) in cases {
        match filter_to_query(&schema, &filter) {
            QueryPlan::Range { field_name, value_type, lower, upper } => {
                assert_eq!(field_name, "published_on");
                assert_eq!(value_type, ValueType::I64);
                let kind = |b: &TermBound| match b {
                    TermBound::Included(t) => {
                        assert_eq!(t.field, Field(4));
                        assert!(matches!(t.value, FilterValue::I64(2019)));
                        "included"
                    }
                    TermBound::Excluded(t) => {
                        assert_eq!(t.field, Field(4));
                        "excluded"
                    }
                    TermBound::Unbounded => "unbounded",
                };
                assert_eq!(kind(&lower), lower_kind);
                assert_eq!(kind(&upper), upper_kind);
            }
            _ => panic!("Expected range query"),
        }
    }
}

#[test]
fn not_equal_filter_query() {
    let schema = Book::generate_schema();
    match filter_to_query(&schema, &AUTHOR.ne("Bogdan")) {
        QueryPlan::Boolean { clauses } => {
            assert_eq!(clauses.len(), 2);
            assert_eq!(clauses[0].0, Occur::MustNot);
            assert!(is_parsed(&clauses[0].1, 2, "\"Bogdan\""));
            assert_eq!(clauses[1].0, Occur::Must);
            assert!(matches!(clauses[1].1, QueryPlan::All));
        }
        _ => panic!("Expected boolean query"),
    }
}

#[test]
fn combined_filter_queries() {
    let schema = Book::generate_schema();
    let filter = AUTHOR.eq("A").and(AUTHOR.ne("B"));
    match filter_to_query(&schema, &filter) {
        QueryPlan::Boolean { clauses } => {
            assert_eq!(clauses.len(), 2);
            assert!(clauses.iter().all(|c| c.0 == Occur::Must));
            assert!(matches!(&clauses[1].1, QueryPlan::Boolean { clauses: inner } if inner.len() == 2));
        }
        _ => panic!("Expected boolean query"),
    }
    let filter = AUTHOR.eq("A").or(AUTHOR.eq("B"));
    match filter_to_query(&schema, &filter) {
        QueryPlan::Boolean { clauses } => {
            assert_eq!(clauses.len(), 2);
            assert!(clauses.iter().all(|c| c.0 == Occur::Should));
            assert!(is_parsed(&clauses[1].1, 2, "\"B\""));
        }
        _ => panic!("Expected boolean query"),
    }
}

#[test]
fn search_filter_clauses_keep_the_filter_structure() {
    let schema = Book::generate_schema();
    let clauses = filter_to_clauses(&schema, &AUTHOR.ne("B"));
    assert_eq!(clauses.len(), 2);
    assert_eq!(clauses[0].0, Occur::MustNot);
    assert_eq!(clauses[1].0, Occur::Must);
    // a conjunction lends each part, built as its own query, as a `Must` clause
    let clauses = filter_to_clauses(&schema, &AUTHOR.ne("Bogdan").and(NAME.eq("xyz")));
    assert_eq!(clauses.len(), 2);
    assert!(clauses.iter().all(|c| c.0 == Occur::Must));
    match &clauses[0].1 {
        QueryPlan::Boolean { clauses: inner } => {
            assert_eq!(inner.len(), 2);
            assert_eq!(inner[0].0, Occur::MustNot);
            assert!(is_parsed(&inner[0].1, 2, "\"Bogdan\""));
            assert_eq!(inner[1].0, Occur::Must);
            assert!(matches!(inner[1].1, QueryPlan::All));
        }
        _ => panic!("Expected boolean query"),
    }
    assert!(is_parsed(&clauses[1].1, 1, "\"xyz\""));
    // a disjunction is one `Must` clause holding the disjunction
    let clauses = filter_to_clauses(&schema, &AUTHOR.eq("A").and(NAME.eq("B")).or(PUBLISHED_ON.gt(2000)));
    assert_eq!(clauses.len(), 1);
    assert_eq!(clauses[0].0, Occur::Must);
    match &clauses[0].1 {
        QueryPlan::Boolean { clauses: inner } => {
            assert_eq!(inner.len(), 2);
            assert!(inner.iter().all(|c| c.0 == Occur::Should));
            match &inner[0].1 {
                QueryPlan::Boolean { clauses: conj } => {
                    assert_eq!(conj.len(), 2);
                    assert!(conj.iter().all(|c| c.0 == Occur::Must));
                }
                _ => panic!("Expected boolean query"),
            }
            assert!(matches!(inner[1].1, QueryPlan::Range { .. }));
        }
        _ => panic!("Expected boolean query"),
    }
}

#[test]
fn search_with_a_disjunctive_filter() {
    let schema = Book::generate_schema();
    let query = SearchQuery::new(NAME, "Rust")
        .with_filter(AUTHOR.eq("Bogdan").or(AUTHOR.eq("Tim McNamara")));
    match plan_search(&schema, SearchKind::Standard, &query) {
        QueryPlan::Boolean { clauses } => {
            assert_eq!(clauses.len(), 2);
            assert!(clauses.iter().all(|c| c.0 == Occur::Must));
            match &clauses[0].1 {
                QueryPlan::Boolean { clauses: inner } => {
                    assert_eq!(inner.len(), 2);
                    assert!(inner.iter().all(|c| c.0 == Occur::Should));
                    assert!(is_parsed(&inner[0].1, 2, "\"Bogdan\""));
                    assert!(is_parsed(&inner[1].1, 2, "\"Tim McNamara\""));
                }
                _ => panic!("Expected boolean query"),
            }
            assert!(is_parsed(&clauses[1].1, 1, "Rust"));
        }
        _ => panic!("Expected boolean query"),
    }
    // an empty conjunction restricts nothing
    match apply_filter(&schema, Some(&Filter::And(vec![])), QueryPlan::All) {
        QueryPlan::Boolean { clauses } => {
            assert_eq!(clauses.len(), 1);
            assert_eq!(clauses[0].0, Occur::Must);
        }
        _ => panic!("Expected boolean query"),
    }
}

#[test]
fn apply_filter_adds_the_query_as_must() {
    let schema = Book::generate_schema();
    let plan = apply_filter(&schema, None, QueryPlan::All);
    assert!(matches!(plan, QueryPlan::All));
    let filter = AUTHOR.eq("A");
    let plan = apply_filter(&schema, Some(&filter), QueryPlan::All);
    match plan {
        QueryPlan::Boolean { clauses } => {
            assert_eq!(clauses.len(), 2);
            assert!(is_parsed(&clauses[0].1, 2, "\"A\""));
            assert_eq!(clauses[1].0, Occur::Must);
            assert!(matches!(clauses[1].1, QueryPlan::All));
        }
        _ => panic!("Expected boolean query"),
    }
}

#[test]
fn search_kinds() {
    let schema = Book::generate_schema();
    assert!(is_parsed(&search_query(&schema, SearchKind::Standard, "name", "Rust"), 1, "Rust"));
    match search_query(&schema, SearchKind::Fuzzy, "name", "Rsut") {
        QueryPlan::Fuzzy { term, distance, transposition_cost_one } => {
            assert!(is_str_term(&term, 1, "Rsut"));
            assert_eq!(distance, 2);
            assert!(transposition_cost_one);
        }
        _ => panic!("Expected fuzzy query"),
    }
    match search_query(&schema, SearchKind::Regex, "name", "rust.*") {
        QueryPlan::Regex { pattern, field } => {
            assert_eq!(pattern, "rust.*");
            assert_eq!(field, Field(1));
        }
        _ => panic!("Expected regex query"),
    }
}

#[test]
fn hybrid_search_lowercases_and_splits() {
    let schema = Book::generate_schema();
    match search_query(&schema, SearchKind::Hybrid, "name", "Rust BOOK") {
        QueryPlan::Boolean { clauses } => {
            assert_eq!(clauses.len(), 3);
            assert!(clauses.iter().all(|c| c.0 == Occur::Should));
            match &clauses[0].1 {
                QueryPlan::PhrasePrefix { terms } => {
                    assert_eq!(terms.len(), 2);
                    assert!(is_str_term(&terms[0], 1, "rust"));
                    assert!(is_str_term(&terms[1], 1, "book"));
                }
                _ => panic!("Expected phrase prefix query"),
            }
            assert!(matches!(&clauses[1].1, QueryPlan::Fuzzy { term, .. } if is_str_term(term, 1, "rust")));
            assert!(matches!(&clauses[2].1, QueryPlan::Fuzzy { term, .. } if is_str_term(term, 1, "book")));
        }
        _ => panic!("Expected boolean query"),
    }
}

#[test]
fn plan_search_with_filter() {
    let schema = Book::generate_schema();
    let query = SearchQuery::new(NAME, "Rust").with_filter(AUTHOR.eq("Bogdan"));
    assert!(query_fields_known(&schema, &query));
    match plan_search(&schema, SearchKind::Standard, &query) {
        QueryPlan::Boolean { clauses } => {
            assert_eq!(clauses.len(), 2);
            assert!(is_parsed(&clauses[0].1, 2, "\"Bogdan\""));
            assert!(is_parsed(&clauses[1].1, 1, "Rust"));
        }
        _ => panic!("Expected boolean query"),
    }
    let unknown = SearchQuery::new(NAME, "Rust").with_filter(FieldRef::new("isbn").eq("1"));
    assert!(!query_fields_known(&schema, &unknown));
    let unknown_field = SearchQuery::new(FieldRef::new("isbn"), "1");
    assert!(!query_fields_known(&schema, &unknown_field));
}

#[test]
fn phrase_filters() {
    let schema = Book::generate_schema();
    let pairs = vec![("author".to_string(), "Bogdan".to_string())];
    let clauses = new_boolean_query_filters(&schema, &pairs);
    assert_eq!(clauses.len(), 1);
    assert_eq!(clauses[0].0, Occur::Must);
    assert!(is_parsed(&clauses[0].1, 2, "\"Bogdan\""));
    assert!(matches!(filter_query(&schema, &Vec::new(), QueryPlan::All), QueryPlan::All));
    match filter_query(&schema, &pairs, QueryPlan::All) {
        QueryPlan::Boolean { clauses } => {
            assert_eq!(clauses.len(), 2);
            assert!(matches!(clauses[1], (Occur::Must, QueryPlan::All)));
        }
        _ => panic!("Expected boolean query"),
    }
}

#[test]
fn splitting_at_spaces() {
    assert_eq!(split_spaces_exec("a  b"), vec!["a", "", "b"]);
    assert_eq!(split_spaces_exec(""), vec![""]);
    assert_eq!(split_spaces_exec("rust"), vec!["rust"]);
    assert_eq!(split_spaces_exec(" x "), vec!["", "x", ""]);
    assert_eq!(quote("Steve K"), "\"Steve K\"");
}

#[test]
fn pagination_numbers() {
    assert_eq!(total_pages(4, 3), 2);
    assert_eq!(total_pages(0, 10), 0);
    assert_eq!(total_pages(10, 10), 1);
    assert_eq!(total_pages(11, 10), 2);
    assert_eq!(page_offset(1, 3), 0);
    assert_eq!(page_offset(2, 3), 3);
    assert_eq!(page_offset(100, 10), 990);
    assert!(is_valid_page_request(1, 10));
    assert!(!is_valid_page_request(0, 10));
    assert!(!is_valid_page_request(1, 0));
    assert!(!is_valid_page_request(-1, 10));
    assert!(!is_valid_page_request(i64::MAX, 2));
}

#[test]
fn paginate_reads_documents() {
    let docs = vec![sample_book().as_document(), Document::new()];
    let page = paginate::<Book>(docs, 2, 3, 4);
    assert_eq!(page.data.len(), 2);
    assert_eq!(page.data[0].name, "Programming Rust");
    assert_eq!(page.data[1].id, 0);
    assert_eq!(page.page, 2);
    assert_eq!(page.total_items, 4);
    assert_eq!(page.total_pages, 2);
    let books: Vec<Book> = docs_to_t(vec![sample_book().as_document()]);
    assert_eq!(books[0].author, "Jim Blandy");
}

fn words(ws: &[&str]) -> Vec<String> {
    ws.iter().map(|w| w.to_string()).collect()
}

fn vec_string_path() -> TypePath {
    TypePath {
        segments: vec![PathSegment {
            ident: "Vec".to_string(),
            first_type_arg: Some(Box::new(TypePath {
                segments: vec![PathSegment { ident: "String".to_string(), first_type_arg: None }],
            })),
        }],
    }
}

fn plain_path(name: &str) -> TypePath {
    TypePath { segments: vec![PathSegment { ident: name.to_string(), first_type_arg: None }] }
}

#[test]
fn attribute_words() {
    let s = parse_attribute_words(&words(&["indexed_text", "stored"])).unwrap();
    assert!(!s.is_id);
    assert_eq!(s.index_type, Some(IndexType::indexed_text));
    assert_eq!(s.stored, Some(true));
    let s = parse_attribute_words(&words(&["indexed", "not_stored", "other"])).unwrap();
    assert_eq!(s.index_type, Some(IndexType::indexed));
    assert_eq!(s.stored, Some(false));
    assert_eq!(
        parse_attribute_words(&words(&["id", "stored"])),
        Err(AttributeError::IdWithOtherAttributes)
    );
    assert_eq!(
        parse_attribute_words(&words(&["stored", "id"])),
        Err(AttributeError::IdWithOtherAttributes)
    );
    assert_eq!(
        parse_attribute_words(&words(&["indexed_text", "indexed_string"])),
        Err(AttributeError::ConflictingIndexTypes(IndexType::indexed_text, IndexType::indexed_string))
    );
    assert_eq!(
        parse_attribute_words(&words(&["stored", "not_stored"])),
        Err(AttributeError::ConflictingStorage(true, false))
    );
}

#[test]
fn derive_field_info() {
    let info = get_field_info("tags".to_string(), &words(&["indexed_string"]), vec_string_path()).unwrap();
    assert!(!info.info.is_id);
    assert_eq!(info.info.index_type, IndexType::indexed_string);
    assert!(info.info.stored);
    assert!(is_vec_field(&info));
    assert_eq!(get_field_type_path(&info).segments[0].ident, "String");
    let id = get_field_info("id".to_string(), &words(&["id"]), plain_path("i32")).unwrap();
    assert!(id.info.is_id);
    assert_eq!(id.info.index_type, IndexType::indexed);
    assert!(!is_vec_field(&id));
    assert_eq!(get_field_type_path(&id).segments[0].ident, "i32");
    let plain = get_field_info("x".to_string(), &Vec::new(), plain_path("String")).unwrap();
    assert_eq!(plain.info.index_type, IndexType::not_indexed);
    assert!(plain.info.stored);
    assert!(extract_vec_inner_type(&plain_path("Vec")).is_none());
    assert!(extract_vec_inner_type(&TypePath { segments: vec![] }).is_none());
    assert!(get_field_info("x".to_string(), &words(&["id", "indexed"]), plain_path("i32")).is_err());
}

#[test]
fn field_types_by_name() {
    assert_eq!(FieldType::get_field_type("i32"), FieldType::I32);
    assert_eq!(FieldType::get_field_type("i64"), FieldType::I64);
    assert_eq!(FieldType::get_field_type("u32"), FieldType::U32);
    assert_eq!(FieldType::get_field_type("u64"), FieldType::U64);
    assert_eq!(FieldType::get_field_type("f64"), FieldType::F64);
    assert_eq!(FieldType::get_field_type("bool"), FieldType::Bool);
    assert_eq!(FieldType::get_field_type("DateTime"), FieldType::Date);
    assert_eq!(FieldType::get_field_type("String"), FieldType::String);
    assert_eq!(FieldType::get_field_type("Vec"), FieldType::VecString);
    assert_eq!(FieldType::get_field_type("Option"), FieldType::Unhandled);
}

#[test]
fn field_info_defaults() {
    let f = FieldInfo::new("x".to_string(), None, false);
    assert!(!f.is_id);
    assert_eq!(f.index_type, IndexType::not_indexed);
    assert!(!f.stored);
    let id = FieldInfo::new_id_field("id".to_string());
    assert!(id.is_id && id.stored);
    assert_eq!(id.index_type, IndexType::indexed);
    let s = StructInfo::new("Book".to_string());
    assert_eq!(s.struct_name, "Book");
    assert!(s.fields.is_empty());
}

#[test]
fn template_schema_and_id_field() {
    assert_eq!(TFieldType::get_field_type("i32"), TFieldType::I32);
    assert_eq!(TFieldType::get_field_type("String"), TFieldType::String);
    assert_eq!(TFieldType::get_field_type("u8"), TFieldType::Unhandled);
    let mut s = TStructInfo::new("Book".to_string());
    s.add_field(TFieldInfo::new("name".to_string(), TFieldType::String, Some(TIndexType::indexed_text), true));
    s.add_field(TFieldInfo::new_id_field("id".to_string(), TFieldType::I32));
    s.add_field(TFieldInfo::new("year".to_string(), TFieldType::I32, None, false));
    assert_eq!(s.get_id_field().field_name, "id");
    let schema = s.generate_schema();
    assert_eq!(schema.num_fields(), 3);
    assert_eq!(schema.get_field_entry(Field(0)).indexing, Indexing::Tokenized);
    assert_eq!(schema.get_field_entry(Field(1)).field_type, SchemaFieldType::I64);
    assert_eq!(schema.get_field_entry(Field(1)).indexing, Indexing::Raw);
    assert_eq!(schema.get_field_entry(Field(2)).indexing, Indexing::NotIndexed);
    assert!(!schema.get_field_entry(Field(2)).stored);
}

#[test]
fn index_field_values() {
    let mut doc = Document::new();
    (-5i32).add_to_document(&mut doc, Field(0));
    "hello".to_string().add_to_document(&mut doc, Field(1));
    vec!["a".to_string(), "b".to_string()].add_to_document(&mut doc, Field(2));
    Float64 { bits: 1.5f64.to_bits() }.add_to_document(&mut doc, Field(3));
    DateTime::from_timestamp_nanos(42).add_to_document(&mut doc, Field(4));
    true.add_to_document(&mut doc, Field(5));
    7u32.add_to_document(&mut doc, Field(6));
    assert_eq!(doc.len(), 8);
    assert_eq!(<i32 as IndexFieldSingle>::from_doc_single(&doc, Field(0)), Some(-5));
    assert_eq!(<String as IndexFieldSingle>::from_doc_single(&doc, Field(1)), Some("hello".to_string()));
    assert_eq!(<String as IndexFieldSingle>::from_doc_single(&doc, Field(2)), Some("a".to_string()));
    assert_eq!(<Vec<String> as IndexFieldVec<String>>::from_doc_all(&doc, Field(2)), vec!["a", "b"]);
    assert_eq!(<i64 as IndexFieldSingle>::from_doc_single(&doc, Field(1)), None);
    assert_eq!(<Float64 as IndexFieldSingle>::from_doc_single(&doc, Field(3)).unwrap().bits, 1.5f64.to_bits());
    assert_eq!(<DateTime as IndexFieldSingle>::from_doc_single(&doc, Field(4)).unwrap().into_timestamp_nanos(), 42);
    assert_eq!(<bool as IndexFieldSingle>::from_doc_single(&doc, Field(5)), Some(true));
    assert_eq!(<u32 as IndexFieldSingle>::from_doc_single(&doc, Field(6)), Some(7));
    assert_eq!(<u64 as IndexFieldSingle>::from_doc_single(&doc, Field(9)), None);
    assert!(matches!(doc.get_first(Field(6)), Some(OwnedValue::U64(7))));
    assert_eq!(doc.get_all(Field(2)).len(), 2);
    assert_eq!(<String as IndexField>::field_type_name(), "String");
    assert_eq!(<i32 as IndexField>::field_type_name(), "i32");
    assert_eq!(<Vec<u64> as IndexField>::field_type_name(), "Vec");
    let t = 9u64.to_term(Field(3));
    assert_eq!(t.field, Field(3));
    assert!(matches!(t.value, FilterValue::U64(9)));
}

#[test]
fn index_field_schemas() {
    let mut b = SchemaBuilder::new();
    <String as IndexField>::add_to_schema(&mut b, "s", true, IndexType::indexed);
    <u64 as IndexField>::add_to_schema(&mut b, "n", false, IndexType::indexed);
    <DateTime as IndexField>::add_to_schema(&mut b, "d", true, IndexType::not_indexed);
    <Vec<String> as IndexField>::add_to_schema(&mut b, "tags", true, IndexType::indexed_string);
    assert!(b.has_field("tags"));
    assert!(!b.has_field("other"));
    let schema = b.build();
    assert_eq!(schema.get_field_entry(Field(0)).indexing, Indexing::Raw);
    assert_eq!(schema.get_field_entry(Field(1)).field_type, SchemaFieldType::U64);
    assert!(!schema.get_field_entry(Field(1)).stored);
    assert_eq!(schema.get_field_entry(Field(2)).field_type, SchemaFieldType::Date);
    assert_eq!(schema.get_field_entry(Field(2)).indexing, Indexing::NotIndexed);
    assert_eq!(schema.get_field_entry(Field(3)).field_type, SchemaFieldType::Str);
}

#[test]
fn value_types() {
    assert_eq!(get_field_value_type(&SchemaFieldType::I64), ValueType::I64);
    assert_eq!(get_field_value_type(&SchemaFieldType::Date), ValueType::Date);
    assert_eq!(get_field_value_type(&SchemaFieldType::Facet), ValueType::Str);
    assert_eq!(get_field_value_type(&SchemaFieldType::JsonObject), ValueType::Str);
}

#[test]
fn symbols() {
    assert!(Symbol::stored().matches("stored"));
    assert!(!Symbol::stored().matches("not_stored"));
    assert_eq!(Symbol::text_search().as_str(), "text_search");
    assert_eq!(Symbol::indexed_text().to_owned_string(), "indexed_text");
}

#[test]
fn filter_value_terms() {
    let t = FilterValue::Str("x".to_string()).to_term(Field(2));
    assert!(is_str_term(&t, 2, "x"));
    let d = FilterValue::Date(5).to_term(Field(1));
    assert!(matches!(d.value, FilterValue::Date(5)));
}

#[test]
fn string_indexed_matches_indexed_string() {
    let mut a = SchemaBuilder::new();
    <String as IndexField>::add_to_schema(&mut a, "s", true, IndexType::indexed);
    <Vec<String> as IndexField>::add_to_schema(&mut a, "t", false, IndexType::indexed);
    let mut b = SchemaBuilder::new();
    <String as IndexField>::add_to_schema(&mut b, "s", true, IndexType::indexed_string);
    <Vec<String> as IndexField>::add_to_schema(&mut b, "t", false, IndexType::indexed_string);
    let (a, b) = (a.build(), b.build());
    for i in 0..2u32 {
        let (x, y) = (a.get_field_entry(Field(i)), b.get_field_entry(Field(i)));
        assert_eq!(x.field_type, y.field_type);
        assert_eq!(x.indexing, y.indexing);
        assert_eq!(x.stored, y.stored);
        assert_eq!(x.indexing, Indexing::Raw);
    }
}

#[test]
fn date_and_float_filter_values() {
    let f = PUBLISHED_ON.ge(DateTime::from_timestamp_nanos(17));
    assert!(matches!(f, Filter::Condition { op: FilterOp::Ge, value: FilterValue::Date(17), .. }));
    let g = NAME.lt(Float64 { bits: 2.5f64.to_bits() });
    match g {
        Filter::Condition { value: FilterValue::F64(bits), .. } => assert_eq!(f64::from_bits(bits), 2.5),
        _ => panic!("Expected a condition"),
    }
}

#[test]
fn search_query_clone_is_the_same_query() {
    let q = SearchQuery::new(NAME, "Rust").with_filter(AUTHOR.eq("A").or(AUTHOR.eq("B"))).page(3).per_page(7);
    let c = q.clone();
    assert_eq!(c.field().name(), "name");
    assert_eq!(c.query(), "Rust");
    assert_eq!(c.get_page(), 3);
    assert_eq!(c.get_per_page(), 7);
    match c.filter() {
        Some(Filter::Or(v)) => assert_eq!(v.len(), 2),
        _ => panic!("Expected the disjunction"),
    }
}

#[test]
fn vec_values_read_back_with_duplicates() {
    let mut doc = Document::new();
    let tags = vec!["x".to_string(), "y".to_string(), "x".to_string()];
    tags.add_to_document(&mut doc, Field(0));
    assert_eq!(<Vec<String> as IndexFieldVec<String>>::from_doc_all(&doc, Field(0)), tags);
    let years: Vec<i64> = vec![3, 1, 3];
    years.add_to_document(&mut doc, Field(1));
    assert_eq!(<Vec<i64> as IndexFieldVec<i64>>::from_doc_all(&doc, Field(1)), years);
    let flags = vec![true, false];
    flags.add_to_document(&mut doc, Field(2));
    assert_eq!(<Vec<bool> as IndexFieldVec<bool>>::from_doc_all(&doc, Field(2)), flags);
}
