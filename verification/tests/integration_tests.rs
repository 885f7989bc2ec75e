use text_search::{FieldRef, Filter, FilterOp, FilterValue, SearchQuery};

/// Test Book struct for integration tests: the typed field references of
/// its fields.
#[allow(dead_code)]
#[derive(Clone, Debug, PartialEq)]
pub struct Book {
    pub id: i32,
    pub name: String,
    pub author: String,
    pub description: String,
    pub published_on: i32,
    pub tags: Vec<String>,
}

#[allow(non_upper_case_globals, dead_code)]
impl Book {
    pub const id: FieldRef = FieldRef { name: "id" };
    pub const name: FieldRef = FieldRef { name: "name" };
    pub const author: FieldRef = FieldRef { name: "author" };
    pub const description: FieldRef = FieldRef { name: "description" };
    pub const published_on: FieldRef = FieldRef { name: "published_on" };
    pub const tags: FieldRef = FieldRef { name: "tags" };
}

#[test]
fn test_search_query_builder() {
    let field = FieldRef::new("test_field");
    let query = SearchQuery::new(field, "test query")
        .with_filter(Book::author.eq("Test Author"))
        .page(2)
        .per_page(5);

    assert_eq!(query.field().name(), "test_field");
    assert_eq!(query.query(), "test query");
    assert_eq!(query.get_page(), 2);
    assert_eq!(query.get_per_page(), 5);
    assert!(query.filter().is_some());
}

#[test]
fn test_field_ref_eq_filter() {
    let filter = Book::author.eq("Bogdan");

    match filter {
        Filter::Condition {
            field_name,
            op,
            value,
        } => {
            assert_eq!(field_name, "author");
            assert_eq!(op, FilterOp::Eq);
            match value {
                FilterValue::Str(s) => assert_eq!(s, "Bogdan"),
                _ => panic!("Expected Str filter value"),
            }
        }
        _ => panic!("Expected Condition filter"),
    }
}

#[test]
fn test_filter_and_combinator() {
    let filter = Book::author.eq("Bogdan").and(Book::tags.eq("xyz"));

    match filter {
        Filter::And(filters) => {
            assert_eq!(filters.len(), 2);
            // Check first condition
            match &filters[0] {
                Filter::Condition {
                    field_name,
                    op,
                    value,
                } => {
                    assert_eq!(field_name, "author");
                    assert_eq!(*op, FilterOp::Eq);
                    match value {
                        FilterValue::Str(s) => assert_eq!(s, "Bogdan"),
                        _ => panic!("Expected Str filter value"),
                    }
                }
                _ => panic!("Expected Condition filter"),
            }
            // Check second condition
            match &filters[1] {
                Filter::Condition {
                    field_name,
                    op,
                    value,
                } => {
                    assert_eq!(field_name, "tags");
                    assert_eq!(*op, FilterOp::Eq);
                    match value {
                        FilterValue::Str(s) => assert_eq!(s, "xyz"),
                        _ => panic!("Expected Str filter value"),
                    }
                }
                _ => panic!("Expected Condition filter"),
            }
        }
        _ => panic!("Expected And filter"),
    }
}

#[test]
fn test_filter_or_combinator() {
    let filter = Book::author
        .eq("Bogdan")
        .or(Book::author.eq("Tim McNamara"));

    match filter {
        Filter::Or(filters) => {
            assert_eq!(filters.len(), 2);
        }
        _ => panic!("Expected Or filter"),
    }
}
