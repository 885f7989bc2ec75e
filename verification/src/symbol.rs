//! The words of the `text_search` field attribute.
use vstd::prelude::*;

verus! {

/// A word that an attribute may hold.
#[derive(Debug, Copy, Clone)]
pub struct Symbol(pub &'static str);

impl Symbol {
    /// The word `id`.
    pub fn id() -> (r: Symbol)
        ensures
            r.0@ == "id"@,
    {
        Symbol("id")
    }

    /// The word `text_search`.
    pub fn text_search() -> (r: Symbol)
        ensures
            r.0@ == "text_search"@,
    {
        Symbol("text_search")
    }

    /// The word `indexed`.
    pub fn indexed() -> (r: Symbol)
        ensures
            r.0@ == "indexed"@,
    {
        Symbol("indexed")
    }

    /// The word `indexed_text`.
    pub fn indexed_text() -> (r: Symbol)
        ensures
            r.0@ == "indexed_text"@,
    {
        Symbol("indexed_text")
    }

    /// The word `indexed_string`.
    pub fn indexed_string() -> (r: Symbol)
        ensures
            r.0@ == "indexed_string"@,
    {
        Symbol("indexed_string")
    }

    /// The word `not_indexed`.
    pub fn not_indexed() -> (r: Symbol)
        ensures
            r.0@ == "not_indexed"@,
    {
        Symbol("not_indexed")
    }

    /// The word `stored`.
    pub fn stored() -> (r: Symbol)
        ensures
            r.0@ == "stored"@,
    {
        Symbol("stored")
    }

    /// The word `not_stored`.
    pub fn not_stored() -> (r: Symbol)
        ensures
            r.0@ == "not_stored"@,
    {
        Symbol("not_stored")
    }

    /// The word itself.
    pub fn as_str(&self) -> (r: &'static str)
        ensures
            r == self.0,
    {
        self.0
    }

    /// Whether `word` is this word.
    pub fn matches(&self, word: &str) -> (r: bool)
        ensures
            r == (word@ == self.0@),
    {
        String::from_str(word) == String::from_str(self.0)
    }

    /// The word as an owned string.
    pub fn to_owned_string(&self) -> (r: String)
        ensures
            r@ == self.0@,
    {
        String::from_str(self.0)
    }
}

} // verus!
