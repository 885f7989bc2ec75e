# text_search

Full-text indexing and search of Rust structs on top of tantivy, with the
logic verified by Verus.

## Layout

- `src/` — the verified library:
  - `search_query.rs`: typed field references, filter expressions
    (`and`/`or` with their meaning as conjunction and disjunction) and the
    `SearchQuery` builder.
  - `schema.rs`, `document.rs`: schemas, documents and terms as plain values.
  - `index_field.rs`, `indexable.rs`: how each field type is declared,
    written, read back and turned into a term; the `Indexable` trait.
  - `query_plan.rs`: the queries that searches, filters and deletions run,
    described as data (`QueryPlan`), with exact contracts.
  - `plan_laws.rs`: what a query plan matches, and proofs that the plans of
    filters match exactly the documents the filters describe.
  - `paginated_result.rs`: page offsets, page counts and their laws.
  - `derive/`: reading the `text_search` field attributes and field types.
  - `template/`: the schema-template variant of field and struct info.
  - `book.rs`: an example indexed struct with its proved round trip.
- `app/` — the unverified edge: tantivy indexes on disk, conversion of plans
  into tantivy queries, the `IndexReader`/`IndexWriter`/`Indexer` front ends,
  error types and the code generator of the derive macro.
- `tests/` — tests of the library on concrete values.
