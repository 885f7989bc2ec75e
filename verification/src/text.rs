//! Text operations that queries are built with.
use vstd::prelude::*;
use vstd::string::*;

verus! {

/// The lowercase form of `s`, as `str::to_lowercase` computes it.
pub uninterp spec fn lowercase(s: Seq<char>) -> Seq<char>;

/// Calls `str::to_lowercase`; its result is named `lowercase` of the
/// characters of `s` (Unicode lowercase mapping, which this library does not
/// restate).
#[verifier::external_body]
pub(crate) fn to_lowercase(s: &str) -> (r: String)
    ensures
        r@ == lowercase(s@),
{
    s.to_lowercase()
}

/// The pieces of `s` between single space characters, as `str::split(' ')`
/// yields them: empty pieces included, and one piece for a text without
/// spaces.
pub open spec fn split_spaces(s: Seq<char>) -> Seq<Seq<char>>
    decreases s.len(),
{
    if s.len() == 0 {
        seq![Seq::<char>::empty()]
    } else {
        let pieces = split_spaces(s.drop_last());
        if s.last() == ' ' {
            pieces.push(Seq::<char>::empty())
        } else {
            pieces.update(pieces.len() - 1, pieces.last().push(s.last()))
        }
    }
}

/// A text split at spaces has at least one piece.
pub proof fn lemma_split_spaces_nonempty(s: Seq<char>)
    ensures
        split_spaces(s).len() >= 1,
    decreases s.len(),
{
    if s.len() > 0 {
        lemma_split_spaces_nonempty(s.drop_last());
    }
}

/// The pieces of `s` between single space characters.
pub fn split_spaces_exec(s: &str) -> (r: Vec<String>)
    ensures
        r@.map_values(|p: String| p@) == split_spaces(s@),
        r@.len() >= 1,
{
    let n = s.unicode_len();
    let mut pieces: Vec<String> = Vec::new();
    let mut start: usize = 0;
    let mut i: usize = 0;
    proof {
        assert(s@.take(0) =~= Seq::<char>::empty());
        assert(pieces@.map_values(|p: String| p@).push(s@.subrange(0, 0)) =~= seq![Seq::<char>::empty()]);
    }
    while i < n
        invariant
            n == s@.len(),
            start <= i <= n,
            pieces@.map_values(|p: String| p@).push(s@.subrange(start as int, i as int)) == split_spaces(
                s@.take(i as int),
            ),
        decreases n - i,
    {
        let c = s.get_char(i);
        proof {
            let t = s@.take(i + 1);
            assert(t.drop_last() =~= s@.take(i as int));
            assert(t.last() == c);
            lemma_split_spaces_nonempty(s@.take(i as int));
        }
        if c == ' ' {
            let piece = s.substring_char(start, i);
            let ghost before = pieces@.map_values(|p: String| p@);
            pieces.push(String::from_str(piece));
            start = i + 1;
            proof {
                assert(pieces@.map_values(|p: String| p@) =~= before.push(piece@));
                assert(s@.subrange(start as int, (i + 1) as int) =~= Seq::<char>::empty());
            }
        } else {
            proof {
                assert(s@.subrange(start as int, (i + 1) as int) =~= s@.subrange(start as int, i as int).push(c));
            }
        }
        i += 1;
    }
    let last = s.substring_char(start, n);
    let ghost before = pieces@.map_values(|p: String| p@);
    pieces.push(String::from_str(last));
    proof {
        assert(s@.take(n as int) =~= s@);
        assert(pieces@.map_values(|p: String| p@) =~= before.push(last@));
        lemma_split_spaces_nonempty(s@);
    }
    pieces
}

/// `s` between double quotes.
pub open spec fn quoted(s: Seq<char>) -> Seq<char> {
    seq!['"'] + s + seq!['"']
}

/// `s` between double quotes, as a query parser reads a phrase.
pub fn quote(s: &str) -> (r: String)
    ensures
        r@ == quoted(s@),
{
    let mut r = String::from_str("\"");
    r.append(s);
    r.append("\"");
    proof {
        reveal_strlit("\"");
        assert(r@ =~= quoted(s@));
    }
    r
}

} // verus!
