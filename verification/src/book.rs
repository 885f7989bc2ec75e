//! An indexed struct: a book, with its id, name, author, description and
//! year of publication.
use vstd::prelude::*;

use crate::document::{values_of, Document, OwnedValueView, Term};
use crate::field_info::FieldInfo;
use crate::index_field::{field_entries, IndexField, IndexFieldSingle};
use crate::index_type::IndexType;
use crate::indexable::Indexable;
use crate::schema::{
    has_name, Field, FieldEntryView, Indexing, Schema, SchemaBuilder, SchemaFieldType,
};
use crate::search_query::ValueView;
use crate::struct_info::StructInfo;

verus! {

// default is #[text_search(not_indexed, stored)]
// id behaves like #[text_search(indexed, stored)]
#[derive(Clone, Debug)]
pub struct Book {
    pub id: i32,
    pub name: String,
    pub author: String,
    pub description: String,
    pub published_on: i32,
}

/// The schema of books: `id` (indexed), `name`, `author` and `description`
/// (tokenized), `published_on` (not indexed), all stored, in this order.
pub open spec fn book_schema() -> Seq<FieldEntryView> {
    seq![
        FieldEntryView { name: "id"@, field_type: SchemaFieldType::I64, indexing: Indexing::Raw, stored: true },
        FieldEntryView { name: "name"@, field_type: SchemaFieldType::Str, indexing: Indexing::Tokenized, stored: true },
        FieldEntryView { name: "author"@, field_type: SchemaFieldType::Str, indexing: Indexing::Tokenized, stored: true },
        FieldEntryView {
            name: "description"@,
            field_type: SchemaFieldType::Str,
            indexing: Indexing::Tokenized,
            stored: true,
        },
        FieldEntryView {
            name: "published_on"@,
            field_type: SchemaFieldType::I64,
            indexing: Indexing::NotIndexed,
            stored: true,
        },
    ]
}

/// The document of a book: one value per field, in schema order.
pub open spec fn book_document(b: Book) -> Seq<(Field, OwnedValueView)> {
    seq![
        (Field(0), OwnedValueView::I64(b.id as i64)),
        (Field(1), OwnedValueView::Str(b.name@)),
        (Field(2), OwnedValueView::Str(b.author@)),
        (Field(3), OwnedValueView::Str(b.description@)),
        (Field(4), OwnedValueView::I64(b.published_on as i64)),
    ]
}

/// The text that the first value of `field` holds, or no text.
pub open spec fn first_text(entries: Seq<(Field, OwnedValueView)>, field: Field) -> Seq<char> {
    let vs = values_of(entries, field);
    if vs.len() > 0 && vs[0] is Str {
        vs[0]->Str_0
    } else {
        Seq::empty()
    }
}

/// The `i32` that the first value of `field` holds, or 0.
pub open spec fn first_i32(entries: Seq<(Field, OwnedValueView)>, field: Field) -> i32 {
    let vs = values_of(entries, field);
    if vs.len() > 0 && vs[0] is I64 {
        (vs[0]->I64_0) as i32
    } else {
        0
    }
}

/// `b` is the book that a document with `entries` holds: each field its
/// first value, or the default value when it has none of the right kind.
pub open spec fn book_read_from(entries: Seq<(Field, OwnedValueView)>, b: Book) -> bool {
    &&& b.id == first_i32(entries, Field(0))
    &&& b.name@ == first_text(entries, Field(1))
    &&& b.author@ == first_text(entries, Field(2))
    &&& b.description@ == first_text(entries, Field(3))
    &&& b.published_on == first_i32(entries, Field(4))
}

fn book_field(schema: &Schema, name: &str) -> (r: Field)
    requires
        schema.entries() == book_schema(),
        has_name(book_schema(), name@),
    ensures
        r.0 < 5,
        book_schema()[r.0 as int].name == name@,
{
    match schema.get_field(name) {
        Some(f) => f,
        None => {
            assert(false);
            Field(0)
        },
    }
}

proof fn lemma_book_names()
    ensures
        book_schema()[0].name == "id"@,
        book_schema()[1].name == "name"@,
        book_schema()[2].name == "author"@,
        book_schema()[3].name == "description"@,
        book_schema()[4].name == "published_on"@,
        "id"@ != "name"@,
        "id"@ != "author"@,
        "id"@ != "description"@,
        "id"@ != "published_on"@,
        "name"@ != "author"@,
        "name"@ != "description"@,
        "name"@ != "published_on"@,
        "author"@ != "description"@,
        "author"@ != "published_on"@,
        "description"@ != "published_on"@,
{
    reveal_strlit("id");
    reveal_strlit("name");
    reveal_strlit("author");
    reveal_strlit("description");
    reveal_strlit("published_on");
    assert("id"@.len() != "name"@.len());
    assert("id"@.len() != "author"@.len());
    assert("id"@.len() != "description"@.len());
    assert("id"@.len() != "published_on"@.len());
    assert("name"@.len() != "author"@.len());
    assert("name"@.len() != "description"@.len());
    assert("name"@.len() != "published_on"@.len());
    assert("author"@.len() != "description"@.len());
    assert("author"@.len() != "published_on"@.len());
    assert("description"@.len() != "published_on"@.len());
}

fn first_i32_value(doc: &Document, field: Field) -> (r: i32)
    ensures
        r == first_i32(doc.entries(), field),
{
    match <i32 as IndexFieldSingle>::from_doc_single(doc, field) {
        Some(x) => x,
        None => 0,
    }
}

fn first_text_value(doc: &Document, field: Field) -> (r: String)
    ensures
        r@ == first_text(doc.entries(), field),
{
    match <String as IndexFieldSingle>::from_doc_single(doc, field) {
        Some(x) => x,
        None => String::new(),
    }
}

impl Indexable for Book {
    fn as_document(&self) -> (r: Document)
        ensures
            r.entries() == book_document(*self),
    {
        let schema = Self::generate_schema();
        proof {
            lemma_book_names();
        }
        let mut doc = Document::new();
        let id = book_field(&schema, "id");
        self.id.add_to_document(&mut doc, id);
        let name = book_field(&schema, "name");
        self.name.add_to_document(&mut doc, name);
        let author = book_field(&schema, "author");
        self.author.add_to_document(&mut doc, author);
        let description = book_field(&schema, "description");
        self.description.add_to_document(&mut doc, description);
        let published_on = book_field(&schema, "published_on");
        self.published_on.add_to_document(&mut doc, published_on);
        assert(doc.entries() =~= book_document(*self));
        doc
    }

    fn from_doc(doc: Document) -> (r: Self)
        ensures
            book_read_from(doc.entries(), r),
    {
        Book {
            id: first_i32_value(&doc, Field(0)),
            name: first_text_value(&doc, Field(1)),
            author: first_text_value(&doc, Field(2)),
            description: first_text_value(&doc, Field(3)),
            published_on: first_i32_value(&doc, Field(4)),
        }
    }

    fn get_id_term(&self) -> (r: Term)
        ensures
            r@ == (Field(0), ValueView::I64(self.id as i64)),
    {
        let schema = Self::generate_schema();
        proof {
            lemma_book_names();
        }
        let field = book_field(&schema, "id");
        self.id.to_term(field)
    }

    fn generate_schema() -> (r: Schema)
        ensures
            r.entries() == book_schema(),
    {
        proof {
            lemma_book_names();
        }
        let mut schema_builder = SchemaBuilder::new();
        <i32 as IndexField>::add_to_schema(&mut schema_builder, "id", true, IndexType::indexed);
        <String as IndexField>::add_to_schema(&mut schema_builder, "name", true, IndexType::indexed_text);
        <String as IndexField>::add_to_schema(&mut schema_builder, "author", true, IndexType::indexed_text);
        <String as IndexField>::add_to_schema(
            &mut schema_builder,
            "description",
            true,
            IndexType::indexed_text,
        );
        <i32 as IndexField>::add_to_schema(
            &mut schema_builder,
            "published_on",
            true,
            IndexType::not_indexed,
        );
        let schema = schema_builder.build();
        assert(schema.entries() =~= book_schema());
        schema
    }

    fn get_struct_info() -> (r: StructInfo)
        ensures
            r.struct_name@ == "Book"@,
            r.fields@.len() == 5,
            r.fields@[0].is_id && r.fields@[0].field_name@ == "id"@ && r.fields@[0].index_type
                == IndexType::indexed && r.fields@[0].stored,
            !r.fields@[1].is_id && r.fields@[1].field_name@ == "name"@ && r.fields@[1].index_type
                == IndexType::indexed_text && r.fields@[1].stored,
            !r.fields@[2].is_id && r.fields@[2].field_name@ == "author"@ && r.fields@[2].index_type
                == IndexType::indexed_text && r.fields@[2].stored,
            !r.fields@[3].is_id && r.fields@[3].field_name@ == "description"@
                && r.fields@[3].index_type == IndexType::indexed_text && r.fields@[3].stored,
            !r.fields@[4].is_id && r.fields@[4].field_name@ == "published_on"@
                && r.fields@[4].index_type == IndexType::not_indexed && r.fields@[4].stored,
    {
        let mut fields: Vec<FieldInfo> = Vec::new();
        fields.push(FieldInfo::new_id_field(String::from_str("id")));
        fields.push(FieldInfo::new(String::from_str("name"), Some(IndexType::indexed_text), true));
        fields.push(FieldInfo::new(String::from_str("author"), Some(IndexType::indexed_text), true));
        fields.push(FieldInfo::new(String::from_str("description"), Some(IndexType::indexed_text), true));
        fields.push(FieldInfo::new(String::from_str("published_on"), None, true));
        StructInfo { struct_name: String::from_str("Book"), fields }
    }
}

/// A book written to a document and read back from it is the same book.
pub proof fn lemma_book_round_trip(b: Book, read: Book)
    requires
        book_read_from(book_document(b), read),
    ensures
        read.id == b.id,
        read.name@ == b.name@,
        read.author@ == b.author@,
        read.description@ == b.description@,
        read.published_on == b.published_on,
{
    let es = book_document(b);
    assert forall|k: int| 0 <= k <= 5 implies #[trigger] es.take(k).len() == k by {}
    lemma_first_value(es, 0);
    lemma_first_value(es, 1);
    lemma_first_value(es, 2);
    lemma_first_value(es, 3);
    lemma_first_value(es, 4);
}

/// In a book's document, the first value of each field is the one written.
proof fn lemma_first_value(es: Seq<(Field, OwnedValueView)>, k: int)
    requires
        es.len() == 5,
        0 <= k < 5,
        forall|i: int| 0 <= i < 5 ==> (#[trigger] es[i]).0 == Field(i as u32),
    ensures
        values_of(es, Field(k as u32)) == seq![es[k].1],
{
    let f = Field(k as u32);
    assert(values_of(es.take(0), f) == Seq::<OwnedValueView>::empty()) by {
        assert(es.take(0) =~= Seq::<(Field, OwnedValueView)>::empty());
    }
    lemma_values_upto(es, f, k, 1);
    lemma_values_upto(es, f, k, 2);
    lemma_values_upto(es, f, k, 3);
    lemma_values_upto(es, f, k, 4);
    lemma_values_upto(es, f, k, 5);
    assert(es.take(5) =~= es);
}

proof fn lemma_values_upto(es: Seq<(Field, OwnedValueView)>, f: Field, k: int, n: int)
    requires
        es.len() == 5,
        0 <= k < 5,
        1 <= n <= 5,
        f == Field(k as u32),
        forall|i: int| 0 <= i < 5 ==> (#[trigger] es[i]).0 == Field(i as u32),
        values_of(es.take(n - 1), f) == if k < n - 1 {
            seq![es[k].1]
        } else {
            Seq::<OwnedValueView>::empty()
        },
    ensures
        values_of(es.take(n), f) == if k < n {
            seq![es[k].1]
        } else {
            Seq::<OwnedValueView>::empty()
        },
{
    let t = es.take(n);
    assert(t.drop_last() =~= es.take(n - 1));
    assert(t.last() == es[n - 1]);
    assert(es[n - 1].0 == Field((n - 1) as u32));
    if k == n - 1 {
        assert(Seq::<OwnedValueView>::empty().push(es[k].1) =~= seq![es[k].1]);
    }
}

impl Book {
    pub fn get_sample_books() -> (r: Vec<Self>)
        ensures
            r@.len() == 5,
            r@[0].id == 1 && r@[0].name@ == "Let's Get Rusty Vol 1"@ && r@[0].author@ == "Bogdan"@
                && r@[0].description@ == "An introduction to Rust programming."@ && r@[0].published_on
                == 2021,
            r@[1].id == 2 && r@[1].name@ == "Rust in Action"@ && r@[1].author@ == "Tim McNamara"@
                && r@[1].description@ == "A hands-on guide to systems programming with Rust."@
                && r@[1].published_on == 2020,
            r@[2].id == 3 && r@[2].name@ == "The Rust Programming Language"@ && r@[2].author@
                == "Steve Klabnik and Carol Nichols"@ && r@[2].description@
                == "The official book on Rust programming."@ && r@[2].published_on == 2019,
            r@[3].id == 4 && r@[3].name@ == "Programming Rust"@ && r@[3].author@
                == "Jim Blandy and Jason Orendorff"@ && r@[3].description@
                == "Comprehensive Rust programming coverage."@ && r@[3].published_on == 2018,
            r@[4].id == 5 && r@[4].name@ == "Rust for Rustaceans"@ && r@[4].author@ == "Jon Gjengset"@
                && r@[4].description@ == "Intermediate to advanced concepts in Rust."@
                && r@[4].published_on == 2021,
    {
        let mut books: Vec<Book> = Vec::new();
        books.push(
            Book {
                id: 1,
                name: String::from_str("Let's Get Rusty Vol 1"),
                author: String::from_str("Bogdan"),
                description: String::from_str("An introduction to Rust programming."),
                published_on: 2021,
            },
        );
        books.push(
            Book {
                id: 2,
                name: String::from_str("Rust in Action"),
                author: String::from_str("Tim McNamara"),
                description: String::from_str("A hands-on guide to systems programming with Rust."),
                published_on: 2020,
            },
        );
        books.push(
            Book {
                id: 3,
                name: String::from_str("The Rust Programming Language"),
                author: String::from_str("Steve Klabnik and Carol Nichols"),
                description: String::from_str("The official book on Rust programming."),
                published_on: 2019,
            },
        );
        books.push(
            Book {
                id: 4,
                name: String::from_str("Programming Rust"),
                author: String::from_str("Jim Blandy and Jason Orendorff"),
                description: String::from_str("Comprehensive Rust programming coverage."),
                published_on: 2018,
            },
        );
        books.push(
            Book {
                id: 5,
                name: String::from_str("Rust for Rustaceans"),
                author: String::from_str("Jon Gjengset"),
                description: String::from_str("Intermediate to advanced concepts in Rust."),
                published_on: 2021,
            },
        );
        books
    }
}

} // verus!
