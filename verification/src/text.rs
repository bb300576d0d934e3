//! Cutting texts apart: prefixes, leading characters, separators.

use vstd::prelude::*;
use vstd::string::StrSliceExecFns;

verus! {

/// `text` without the characters `c` that it begins with.
pub open spec fn trimmed(text: Seq<char>, c: char) -> Seq<char>
    decreases text.len(),
{
    if text.len() > 0 && text[0] == c {
        trimmed(text.drop_first(), c)
    } else {
        text
    }
}

/// The number of characters of `text` that stand before its first `c`; the
/// length of `text` where it holds none.
pub open spec fn position(text: Seq<char>, c: char) -> int
    decreases text.len(),
{
    if text.len() == 0 || text[0] == c {
        0
    } else {
        1 + position(text.drop_first(), c)
    }
}

/// The pieces of `text` between its characters `c`, in order. A text
/// without `c` is its own single piece, and so is the empty text; two `c`
/// in a row have an empty piece between them.
pub open spec fn pieces(text: Seq<char>, c: char) -> Seq<Seq<char>>
    decreases text.len(),
{
    let first = position(text, c);
    if first < 0 || first >= text.len() {
        seq![text]
    } else {
        seq![text.take(first)] + pieces(text.skip(first + 1), c)
    }
}

/// Where the first `c` stands, once it is known that none stands before.
pub proof fn lemma_position(text: Seq<char>, c: char, at: int)
    requires
        0 <= at <= text.len(),
        forall|k: int| 0 <= k < at ==> text[k] != c,
        at < text.len() ==> text[at] == c,
    ensures
        position(text, c) == at,
    decreases text.len(),
{
    if at > 0 {
        let rest = text.drop_first();
        assert(text[0] != c);
        assert forall|k: int| 0 <= k < at - 1 implies rest[k] != c by {
            assert(rest[k] == text[k + 1]);
        }
        lemma_position(rest, c, at - 1);
    }
}

/// What is left of a text whose first `count` characters are all `c` and
/// whose next one is not.
pub proof fn lemma_trimmed(text: Seq<char>, c: char, count: int)
    requires
        0 <= count <= text.len(),
        forall|k: int| 0 <= k < count ==> text[k] == c,
        count < text.len() ==> text[count] != c,
    ensures
        trimmed(text, c) == text.skip(count),
    decreases text.len(),
{
    if count > 0 {
        let rest = text.drop_first();
        assert(text[0] == c);
        assert forall|k: int| 0 <= k < count - 1 implies rest[k] == c by {
            assert(rest[k] == text[k + 1]);
        }
        lemma_trimmed(rest, c, count - 1);
        assert(rest.skip(count - 1) =~= text.skip(count));
    } else {
        assert(text.skip(0) =~= text);
    }
}

/// Whether `text` begins with `prefix`.
pub fn starts_with(text: &str, prefix: &str) -> (r: bool)
    ensures
        r == prefix@.is_prefix_of(text@),
{
    let n = prefix.unicode_len();
    if text.unicode_len() < n {
        return false;
    }
    let mut i: usize = 0;
    while i < n
        invariant
            i <= n,
            n == prefix@.len(),
            n <= text@.len(),
            forall|k: int| 0 <= k < i ==> text@[k] == prefix@[k],
        decreases n - i,
    {
        if text.get_char(i) != prefix.get_char(i) {
            return false;
        }
        i += 1;
    }
    assert(prefix@ =~= text@.subrange(0, n as int));
    true
}

/// `text` without the characters `c` that it begins with.
pub fn trim_start(text: &str, c: char) -> (r: &str)
    ensures
        r@ == trimmed(text@, c),
{
    let n = text.unicode_len();
    let mut i: usize = 0;
    while i < n && text.get_char(i) == c
        invariant
            i <= n,
            n == text@.len(),
            forall|k: int| 0 <= k < i ==> text@[k] == c,
        decreases n - i,
    {
        i += 1;
    }
    proof {
        lemma_trimmed(text@, c, i as int);
        assert(text@.skip(i as int) =~= text@.subrange(i as int, n as int));
    }
    text.substring_char(i, n)
}

/// The pieces of `text` between its characters `c`, in order.
pub fn split(text: &str, c: char) -> (r: Vec<String>)
    ensures
        r.deep_view() == pieces(text@, c),
{
    let n = text.unicode_len();
    let mut parts: Vec<String> = Vec::new();
    let mut start: usize = 0;
    let mut i: usize = 0;
    assert(parts.deep_view() =~= Seq::<Seq<char>>::empty());
    assert(text@.skip(0) =~= text@);
    while i < n
        invariant
            start <= i <= n,
            n == text@.len(),
            forall|k: int| start <= k < i ==> text@[k] != c,
            pieces(text@, c) == parts.deep_view() + pieces(text@.skip(start as int), c),
        decreases n - i,
    {
        if text.get_char(i) == c {
            let ghost before = parts.deep_view();
            let ghost rest = text@.skip(start as int);
            let piece = text.substring_char(start, i).to_owned();
            proof {
                assert forall|k: int| 0 <= k < i - start implies rest[k] != c by {
                    assert(rest[k] == text@[start + k]);
                }
                lemma_position(rest, c, i - start);
                assert(rest.take(i - start) =~= piece@);
                assert(rest.skip(i - start + 1) =~= text@.skip(i + 1));
            }
            parts.push(piece);
            proof {
                assert(parts.deep_view() =~= before.push(piece@));
                assert(before + (seq![piece@] + pieces(text@.skip(i + 1), c)) =~= before.push(
                    piece@,
                ) + pieces(text@.skip(i + 1), c));
            }
            start = i + 1;
        }
        i += 1;
    }
    let ghost before = parts.deep_view();
    let ghost rest = text@.skip(start as int);
    let piece = text.substring_char(start, n).to_owned();
    proof {
        assert forall|k: int| 0 <= k < n - start implies rest[k] != c by {
            assert(rest[k] == text@[start + k]);
        }
        lemma_position(rest, c, n - start);
        assert(rest =~= piece@);
    }
    parts.push(piece);
    proof {
        assert(parts.deep_view() =~= before.push(piece@));
        assert(before + seq![piece@] =~= before.push(piece@));
    }
    parts
}

} // verus!
