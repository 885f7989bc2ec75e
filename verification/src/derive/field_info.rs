//! What the `text_search` attributes of a struct field say, and the type of
//! the field.
use vstd::prelude::*;
use vstd::string::*;

use crate::field_info::FieldInfo;
use crate::index_type::IndexType;
use crate::symbol::Symbol;

verus! {

/// A type path, such as `std::vec::Vec<String>`: its segments, each with
/// its name and, when its first generic argument is itself a type path,
/// that argument.
pub struct TypePath {
    pub segments: Vec<PathSegment>,
}

/// One segment of a type path.
pub struct PathSegment {
    pub ident: String,
    pub first_type_arg: Option<Box<TypePath>>,
}

/// Extended field info that includes the parsed type for code generation
pub struct DeriveFieldInfo {
    pub info: FieldInfo,
    pub type_path: TypePath,
}

/// The element type of a `Vec` type path: the first generic argument of its
/// last segment when that segment is named `Vec`.
pub open spec fn vec_inner(tp: TypePath) -> Option<TypePath> {
    if tp.segments@.len() == 0 {
        None
    } else {
        let seg = tp.segments@.last();
        if seg.ident@ == "Vec"@ {
            match seg.first_type_arg {
                Some(inner) => Some(*inner),
                None => None,
            }
        } else {
            None
        }
    }
}

/// Extract the inner type T from Vec<T>
pub fn extract_vec_inner_type(type_path: &TypePath) -> (r: Option<&TypePath>)
    ensures
        match r {
            Some(inner) => vec_inner(*type_path) == Some(*inner),
            None => vec_inner(*type_path) is None,
        },
{
    let n = type_path.segments.len();
    if n == 0 {
        return None;
    }
    let segment = &type_path.segments[n - 1];
    if segment.ident != String::from_str("Vec") {
        return None;
    }
    match &segment.first_type_arg {
        Some(inner) => Some(&**inner),
        None => None,
    }
}

/// Get the type path for a field - for Vec<T>, returns the inner T type
pub fn get_field_type_path(field: &DeriveFieldInfo) -> (r: &TypePath)
    ensures
        *r == match vec_inner(field.type_path) {
            Some(inner) => inner,
            None => field.type_path,
        },
{
    match extract_vec_inner_type(&field.type_path) {
        Some(inner) => inner,
        None => &field.type_path,
    }
}

/// Check if field is a Vec type
pub fn is_vec_field(field: &DeriveFieldInfo) -> (r: bool)
    ensures
        r == vec_inner(field.type_path) is Some,
{
    extract_vec_inner_type(&field.type_path).is_some()
}

/// What the attribute words read so far say of a field.
#[derive(Debug, Clone, Copy, PartialEq, Eq, Structural)]
pub struct AttributeState {
    pub is_id: bool,
    pub index_type: Option<IndexType>,
    pub stored: Option<bool>,
}

/// Attribute words that contradict each other.
#[derive(Debug, Clone, Copy, PartialEq, Eq, Structural)]
pub enum AttributeError {
    /// Two index types, the earlier first.
    ConflictingIndexTypes(IndexType, IndexType),
    /// Two storage words (`true` for `stored`), the earlier first.
    ConflictingStorage(bool, bool),
    /// `id` with another index type or storage word.
    IdWithOtherAttributes,
}

/// The index type that the word `w` names.
pub open spec fn word_index_type(w: Seq<char>) -> Option<IndexType> {
    if w == "indexed_string"@ {
        Some(IndexType::indexed_string)
    } else if w == "indexed_text"@ {
        Some(IndexType::indexed_text)
    } else if w == "indexed"@ {
        Some(IndexType::indexed)
    } else if w == "not_indexed"@ {
        Some(IndexType::not_indexed)
    } else {
        None
    }
}

/// The storage that the word `w` names.
pub open spec fn word_storage(w: Seq<char>) -> Option<bool> {
    if w == "stored"@ {
        Some(true)
    } else if w == "not_stored"@ {
        Some(false)
    } else {
        None
    }
}

/// Reading the word `w` after the words that gave `s`: an index type or a
/// storage word may occur once, and `id` with neither; other words say
/// nothing.
pub open spec fn read_word(s: AttributeState, w: Seq<char>) -> Result<AttributeState, AttributeError> {
    let is_id = s.is_id || w == "id"@;
    let it = word_index_type(w);
    let st = word_storage(w);
    if s.index_type is Some && it is Some {
        Err(AttributeError::ConflictingIndexTypes(s.index_type->0, it->0))
    } else {
        let index_type = if s.index_type is None {
            it
        } else {
            s.index_type
        };
        if s.stored is Some && st is Some {
            Err(AttributeError::ConflictingStorage(s.stored->0, st->0))
        } else {
            let stored = if s.stored is None {
                st
            } else {
                s.stored
            };
            if is_id && (index_type is Some || stored is Some) {
                Err(AttributeError::IdWithOtherAttributes)
            } else {
                Ok(AttributeState { is_id, index_type, stored })
            }
        }
    }
}

/// What the attribute words `ws` say, read in order; the first
/// contradiction is the error.
pub open spec fn read_words(ws: Seq<Seq<char>>) -> Result<AttributeState, AttributeError>
    decreases ws.len(),
{
    if ws.len() == 0 {
        Ok(AttributeState { is_id: false, index_type: None, stored: None })
    } else {
        match read_words(ws.drop_last()) {
            Ok(s) => read_word(s, ws.last()),
            Err(e) => Err(e),
        }
    }
}

fn read_one_word(s: AttributeState, w: &str) -> (r: Result<AttributeState, AttributeError>)
    ensures
        r == read_word(s, w@),
{
    let is_id = s.is_id || Symbol::id().matches(w);
    let it = if Symbol::indexed_string().matches(w) {
        Some(IndexType::indexed_string)
    } else if Symbol::indexed_text().matches(w) {
        Some(IndexType::indexed_text)
    } else if Symbol::indexed().matches(w) {
        Some(IndexType::indexed)
    } else if Symbol::not_indexed().matches(w) {
        Some(IndexType::not_indexed)
    } else {
        None
    };
    let st = if Symbol::stored().matches(w) {
        Some(true)
    } else if Symbol::not_stored().matches(w) {
        Some(false)
    } else {
        None
    };
    match (s.index_type, it) {
        (Some(a), Some(b)) => {
            return Err(AttributeError::ConflictingIndexTypes(a, b));
        },
        _ => {},
    }
    let index_type = match s.index_type {
        None => it,
        Some(_) => s.index_type,
    };
    match (s.stored, st) {
        (Some(a), Some(b)) => {
            return Err(AttributeError::ConflictingStorage(a, b));
        },
        _ => {},
    }
    let stored = match s.stored {
        None => st,
        Some(_) => s.stored,
    };
    if is_id && (index_type.is_some() || stored.is_some()) {
        Err(AttributeError::IdWithOtherAttributes)
    } else {
        Ok(AttributeState { is_id, index_type, stored })
    }
}

/// What the words of a field's `text_search` attributes say, read in order.
pub fn parse_attribute_words(words: &Vec<String>) -> (r: Result<AttributeState, AttributeError>)
    ensures
        r == read_words(words@.map_values(|w: String| w@)),
{
    let ghost ws = words@.map_values(|w: String| w@);
    let mut state = AttributeState { is_id: false, index_type: None, stored: None };
    let mut i: usize = 0;
    assert(ws.take(0) =~= Seq::<Seq<char>>::empty());
    while i < words.len()
        invariant
            i <= words@.len(),
            ws == words@.map_values(|w: String| w@),
            read_words(ws.take(i as int)) == Ok::<AttributeState, AttributeError>(state),
        decreases words@.len() - i,
    {
        let next = read_one_word(state, words[i].as_str());
        proof {
            let t = ws.take(i + 1);
            assert(t.drop_last() =~= ws.take(i as int));
            assert(t.last() == words@[i as int]@);
        }
        match next {
            Ok(s) => {
                state = s;
            },
            Err(e) => {
                proof {
                    lemma_read_words_error_sticks(ws, (i + 1) as int, e);
                }
                return Err(e);
            },
        }
        i += 1;
    }
    assert(ws.take(i as int) =~= ws);
    Ok(state)
}

/// Once reading words fails, reading more fails the same way.
pub proof fn lemma_read_words_error_sticks(ws: Seq<Seq<char>>, n: int, e: AttributeError)
    requires
        0 <= n <= ws.len(),
        read_words(ws.take(n)) == Err::<AttributeState, AttributeError>(e),
    ensures
        read_words(ws) == Err::<AttributeState, AttributeError>(e),
    decreases ws.len() - n,
{
    if n < ws.len() {
        let t = ws.take(n + 1);
        assert(t.drop_last() =~= ws.take(n));
        lemma_read_words_error_sticks(ws, n + 1, e);
    } else {
        assert(ws.take(n) =~= ws);
    }
}

/// The word names an index type.
pub open spec fn index_word(w: Seq<char>) -> bool {
    word_index_type(w) is Some
}

/// The word names a storage.
pub open spec fn storage_word(w: Seq<char>) -> bool {
    word_storage(w) is Some
}

/// The word is `id`.
pub open spec fn id_word(w: Seq<char>) -> bool {
    w == "id"@
}

/// The word names an index type or a storage.
pub open spec fn setting_word(w: Seq<char>) -> bool {
    index_word(w) || storage_word(w)
}

/// Among the first `n` words, two name index types, or two name storages,
/// or one is `id` and one names an index type or a storage.
pub open spec fn conflict_within(ws: Seq<Seq<char>>, n: int) -> bool {
    ||| exists|i: int, j: int|
        #![trigger index_word(ws[i]), index_word(ws[j])]
        0 <= i < j < n && index_word(ws[i]) && index_word(ws[j])
    ||| exists|i: int, j: int|
        #![trigger storage_word(ws[i]), storage_word(ws[j])]
        0 <= i < j < n && storage_word(ws[i]) && storage_word(ws[j])
    ||| exists|i: int, j: int|
        #![trigger id_word(ws[i]), setting_word(ws[j])]
        0 <= i < n && 0 <= j < n && id_word(ws[i]) && setting_word(ws[j])
}

/// The words of a field's attributes contradict each other: two index
/// types, two storages, or `id` with an index type or a storage.
pub open spec fn attribute_conflict(ws: Seq<Seq<char>>) -> bool {
    conflict_within(ws, ws.len() as int)
}

/// The attribute words have these lengths, so no two of them are equal.
proof fn lemma_word_lengths()
    ensures
        "id"@.len() == 2,
        "stored"@.len() == 6,
        "indexed"@.len() == 7,
        "not_stored"@.len() == 10,
        "not_indexed"@.len() == 11,
        "indexed_text"@.len() == 12,
        "indexed_string"@.len() == 14,
{
    reveal_strlit("id");
    reveal_strlit("indexed_string");
    reveal_strlit("indexed_text");
    reveal_strlit("indexed");
    reveal_strlit("not_indexed");
    reveal_strlit("stored");
    reveal_strlit("not_stored");
}

/// `id` names neither an index type nor a storage.
proof fn lemma_id_is_no_setting()
    ensures
        !setting_word("id"@),
{
    lemma_word_lengths();
}

/// A conflict among the first `n` words is one among the first `n + 1`.
proof fn lemma_conflict_grows(ws: Seq<Seq<char>>, n: int)
    requires
        conflict_within(ws, n),
    ensures
        conflict_within(ws, n + 1),
{
    if exists|i: int, j: int|
        #![trigger index_word(ws[i]), index_word(ws[j])]
        0 <= i < j < n && index_word(ws[i]) && index_word(ws[j]) {
        let (i, j) = choose|i: int, j: int|
            #![trigger index_word(ws[i]), index_word(ws[j])]
            0 <= i < j < n && index_word(ws[i]) && index_word(ws[j]);
        assert(0 <= i < j < n + 1 && index_word(ws[i]) && index_word(ws[j]));
    } else if exists|i: int, j: int|
        #![trigger storage_word(ws[i]), storage_word(ws[j])]
        0 <= i < j < n && storage_word(ws[i]) && storage_word(ws[j]) {
        let (i, j) = choose|i: int, j: int|
            #![trigger storage_word(ws[i]), storage_word(ws[j])]
            0 <= i < j < n && storage_word(ws[i]) && storage_word(ws[j]);
        assert(0 <= i < j < n + 1 && storage_word(ws[i]) && storage_word(ws[j]));
    } else {
        let (i, j) = choose|i: int, j: int|
            #![trigger id_word(ws[i]), setting_word(ws[j])]
            0 <= i < n && 0 <= j < n && id_word(ws[i]) && setting_word(ws[j]);
        assert(0 <= i < n + 1 && 0 <= j < n + 1 && id_word(ws[i]) && setting_word(ws[j]));
    }
}

/// What reading the first `n` words gives: an error exactly when they
/// conflict, and otherwise a state that has an index type, a storage or the
/// id mark exactly when one of those words named it.
proof fn lemma_read_prefix(ws: Seq<Seq<char>>, n: int)
    requires
        0 <= n <= ws.len(),
    ensures
        read_words(ws.take(n)) is Err <==> conflict_within(ws, n),
        read_words(ws.take(n)) matches Ok(s) ==> {
            &&& s.index_type is Some <==> exists|k: int| 0 <= k < n && #[trigger] index_word(ws[k])
            &&& s.stored is Some <==> exists|k: int| 0 <= k < n && #[trigger] storage_word(ws[k])
            &&& s.is_id <==> exists|k: int| 0 <= k < n && #[trigger] id_word(ws[k])
        },
    decreases n,
{
    if n == 0 {
        assert(ws.take(0) =~= Seq::<Seq<char>>::empty());
    } else {
        let m = n - 1;
        lemma_read_prefix(ws, m);
        lemma_id_is_no_setting();
        let t = ws.take(n);
        assert(t.drop_last() =~= ws.take(m));
        assert(t.last() == ws[m]);
        let w = ws[m];
        match read_words(ws.take(m)) {
            Err(e) => {
                lemma_conflict_grows(ws, m);
            },
            Ok(s) => {
                if s.index_type is Some && index_word(w) {
                    let k = choose|k: int| 0 <= k < m && #[trigger] index_word(ws[k]);
                    assert(0 <= k < m && index_word(ws[k]) && index_word(ws[m]));
                } else if s.stored is Some && storage_word(w) {
                    let k = choose|k: int| 0 <= k < m && #[trigger] storage_word(ws[k]);
                    assert(0 <= k < m && storage_word(ws[k]) && storage_word(ws[m]));
                } else {
                    let is_id = s.is_id || id_word(w);
                    let has_setting = s.index_type is Some || s.stored is Some || setting_word(w);
                    if is_id && has_setting {
                        let i = if id_word(w) {
                            m
                        } else {
                            choose|k: int| 0 <= k < m && #[trigger] id_word(ws[k])
                        };
                        let j = if setting_word(w) {
                            m
                        } else if s.index_type is Some {
                            choose|k: int| 0 <= k < m && #[trigger] index_word(ws[k])
                        } else {
                            choose|k: int| 0 <= k < m && #[trigger] storage_word(ws[k])
                        };
                        assert(0 <= i < n && 0 <= j < n && id_word(ws[i]) && setting_word(ws[j]));
                    } else {
                        let s2 = read_words(t)->Ok_0;
                        if conflict_within(ws, n) {
                            if exists|i: int, j: int|
                                #![trigger index_word(ws[i]), index_word(ws[j])]
                                0 <= i < j < n && index_word(ws[i]) && index_word(ws[j]) {
                                let (i, j) = choose|i: int, j: int|
                                    #![trigger index_word(ws[i]), index_word(ws[j])]
                                    0 <= i < j < n && index_word(ws[i]) && index_word(ws[j]);
                                if j < m {
                                    assert(0 <= i < j < m && index_word(ws[i]) && index_word(ws[j]));
                                } else {
                                    assert(0 <= i < m && index_word(ws[i]));
                                }
                            } else if exists|i: int, j: int|
                                #![trigger storage_word(ws[i]), storage_word(ws[j])]
                                0 <= i < j < n && storage_word(ws[i]) && storage_word(ws[j]) {
                                let (i, j) = choose|i: int, j: int|
                                    #![trigger storage_word(ws[i]), storage_word(ws[j])]
                                    0 <= i < j < n && storage_word(ws[i]) && storage_word(ws[j]);
                                if j < m {
                                    assert(0 <= i < j < m && storage_word(ws[i]) && storage_word(ws[j]));
                                } else {
                                    assert(0 <= i < m && storage_word(ws[i]));
                                }
                            } else {
                                let (i, j) = choose|i: int, j: int|
                                    #![trigger id_word(ws[i]), setting_word(ws[j])]
                                    0 <= i < n && 0 <= j < n && id_word(ws[i]) && setting_word(ws[j]);
                                if i < m && j < m {
                                    assert(0 <= i < m && 0 <= j < m && id_word(ws[i]) && setting_word(ws[j]));
                                } else {
                                    if i < m {
                                        assert(id_word(ws[i]));
                                    }
                                    if j < m {
                                        assert(index_word(ws[j]) || storage_word(ws[j]));
                                    }
                                }
                            }
                        }
                        assert(s2.index_type is Some <==> exists|k: int| 0 <= k < n && #[trigger] index_word(ws[k])) by {
                            if index_word(w) {
                                assert(0 <= m < n && index_word(ws[m]));
                            }
                            if exists|k: int| 0 <= k < n && #[trigger] index_word(ws[k]) {
                                let k = choose|k: int| 0 <= k < n && #[trigger] index_word(ws[k]);
                                if k < m {
                                    assert(0 <= k < m && index_word(ws[k]));
                                }
                            }
                        }
                        assert(s2.stored is Some <==> exists|k: int| 0 <= k < n && #[trigger] storage_word(ws[k])) by {
                            if storage_word(w) {
                                assert(0 <= m < n && storage_word(ws[m]));
                            }
                            if exists|k: int| 0 <= k < n && #[trigger] storage_word(ws[k]) {
                                let k = choose|k: int| 0 <= k < n && #[trigger] storage_word(ws[k]);
                                if k < m {
                                    assert(0 <= k < m && storage_word(ws[k]));
                                }
                            }
                        }
                        assert(s2.is_id <==> exists|k: int| 0 <= k < n && #[trigger] id_word(ws[k])) by {
                            if id_word(w) {
                                assert(0 <= m < n && id_word(ws[m]));
                            }
                            if exists|k: int| 0 <= k < n && #[trigger] id_word(ws[k]) {
                                let k = choose|k: int| 0 <= k < n && #[trigger] id_word(ws[k]);
                                if k < m {
                                    assert(0 <= k < m && id_word(ws[k]));
                                }
                            }
                        }
                    }
                }
            },
        }
    }
}

/// The attribute words of a field are refused exactly when they contradict
/// each other: two index types, two storages, or `id` together with an
/// index type or a storage.
pub proof fn lemma_attribute_conflicts(ws: Seq<Seq<char>>)
    ensures
        read_words(ws) is Err <==> attribute_conflict(ws),
{
    lemma_read_prefix(ws, ws.len() as int);
    assert(ws.take(ws.len() as int) =~= ws);
}

/// The attribute word that names an index type: the type's own name.
pub open spec fn index_type_name(t: IndexType) -> Seq<char> {
    match t {
        IndexType::indexed_string => "indexed_string"@,
        IndexType::indexed_text => "indexed_text"@,
        IndexType::indexed => "indexed"@,
        IndexType::not_indexed => "not_indexed"@,
    }
}

/// The attribute word that names a storage: `stored` or `not_stored`.
pub open spec fn storage_name(stored: bool) -> Seq<char> {
    if stored {
        "stored"@
    } else {
        "not_stored"@
    }
}

/// Each attribute word declares what it names: an index type word that
/// index type, a storage word that storage, `id` the id mark, alone or an
/// index type word with a storage word in either order.
pub proof fn lemma_attribute_words_name_settings(t: IndexType, stored: bool)
    ensures
        read_words(seq![index_type_name(t)]) == Ok::<AttributeState, AttributeError>(
            AttributeState { is_id: false, index_type: Some(t), stored: None },
        ),
        read_words(seq![storage_name(stored)]) == Ok::<AttributeState, AttributeError>(
            AttributeState { is_id: false, index_type: None, stored: Some(stored) },
        ),
        read_words(seq!["id"@]) == Ok::<AttributeState, AttributeError>(
            AttributeState { is_id: true, index_type: None, stored: None },
        ),
        read_words(seq![index_type_name(t), storage_name(stored)]) == Ok::<AttributeState, AttributeError>(
            AttributeState { is_id: false, index_type: Some(t), stored: Some(stored) },
        ),
        read_words(seq![storage_name(stored), index_type_name(t)]) == Ok::<AttributeState, AttributeError>(
            AttributeState { is_id: false, index_type: Some(t), stored: Some(stored) },
        ),
{
    lemma_word_lengths();
    lemma_id_is_no_setting();
    let a = index_type_name(t);
    let b = storage_name(stored);
    let empty = AttributeState { is_id: false, index_type: None, stored: None };
    assert(word_index_type(a) == Some(t));
    assert(word_storage(a) is None);
    assert(word_storage(b) == Some(stored));
    assert(word_index_type(b) is None);
    assert(a != "id"@);
    assert(b != "id"@);
    assert(read_words(Seq::<Seq<char>>::empty()) == Ok::<AttributeState, AttributeError>(empty));
    assert(seq![a].drop_last() =~= Seq::<Seq<char>>::empty());
    assert(seq![b].drop_last() =~= Seq::<Seq<char>>::empty());
    assert(seq!["id"@].drop_last() =~= Seq::<Seq<char>>::empty());
    assert(seq![a, b].drop_last() =~= seq![a]);
    assert(seq![b, a].drop_last() =~= seq![b]);
}

/// The field info of a field named `field_name` whose attributes hold
/// `words`: the id field, or a field with the index type and storage the
/// words give (not indexed and stored when they give none).
pub fn get_field_info(field_name: String, words: &Vec<String>, type_path: TypePath) -> (r: Result<
    DeriveFieldInfo,
    AttributeError,
>)
    ensures
        match read_words(words@.map_values(|w: String| w@)) {
            Err(e) => r == Err::<DeriveFieldInfo, AttributeError>(e),
            Ok(s) => r matches Ok(d) && d.type_path == type_path && d.info.field_name == field_name
                && d.info.is_id == s.is_id && d.info.index_type == (if s.is_id {
                IndexType::indexed
            } else {
                match s.index_type {
                    Some(t) => t,
                    None => IndexType::not_indexed,
                }
            }) && d.info.stored == (if s.is_id {
                true
            } else {
                match s.stored {
                    Some(b) => b,
                    None => true,
                }
            }),
        },
{
    match parse_attribute_words(words) {
        Err(e) => Err(e),
        Ok(s) => {
            let info = if s.is_id {
                FieldInfo::new_id_field(field_name)
            } else {
                let stored = match s.stored {
                    Some(b) => b,
                    None => true,
                };
                FieldInfo::new(field_name, s.index_type, stored)
            };
            Ok(DeriveFieldInfo { info, type_path })
        },
    }
}

} // verus!
