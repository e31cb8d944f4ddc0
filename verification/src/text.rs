//! Character-level helpers shared by the topic and payload rules.

use vstd::prelude::*;

verus! {

/// Position of the first `sep` in `s`, or `s.len()` where `s` holds none.
pub open spec fn first_index(s: Seq<char>, sep: char) -> int
    decreases s.len(),
{
    if s.len() == 0 || s[0] == sep {
        0
    } else {
        1 + first_index(s.drop_first(), sep)
    }
}

/// The pieces of `s` between occurrences of `sep`, in order. There is always
/// one piece more than there are separators, so the empty sequence splits
/// into one empty piece.
pub open spec fn split_on(s: Seq<char>, sep: char) -> Seq<Seq<char>>
    decreases s.len(),
{
    let i = first_index(s, sep);
    if 0 <= i < s.len() {
        seq![s.take(i)] + split_on(s.skip(i + 1), sep)
    } else {
        seq![s]
    }
}

/// `first_index` is the one position that holds `sep` and has none before it.
pub proof fn lemma_first_index_is(s: Seq<char>, sep: char, i: int)
    requires
        0 <= i <= s.len(),
        forall|j: int| 0 <= j < i ==> s[j] != sep,
        i < s.len() ==> s[i] == sep,
    ensures
        first_index(s, sep) == i,
    decreases s.len(),
{
    if s.len() == 0 || s[0] == sep {
    } else {
        let t = s.drop_first();
        assert forall|j: int| 0 <= j < i - 1 implies t[j] != sep by {
            assert(t[j] == s[j + 1]);
        }
        lemma_first_index_is(t, sep, i - 1);
    }
}

/// What `first_index` returns: a position within `s` or its length, with no
/// `sep` before it and a `sep` at it if it lies within `s`.
pub proof fn lemma_first_index_bounds(s: Seq<char>, sep: char)
    ensures
        0 <= first_index(s, sep) <= s.len(),
        forall|j: int| 0 <= j < first_index(s, sep) ==> s[j] != sep,
        first_index(s, sep) < s.len() ==> s[first_index(s, sep)] == sep,
        first_index(s, sep) == s.len() <==> !s.contains(sep),
    decreases s.len(),
{
    if s.len() == 0 || s[0] == sep {
    } else {
        let t = s.drop_first();
        lemma_first_index_bounds(t, sep);
        assert forall|j: int| 0 <= j < first_index(s, sep) implies s[j] != sep by {
            if j > 0 {
                assert(s[j] == t[j - 1]);
            }
        }
        if first_index(s, sep) < s.len() {
            assert(s[first_index(s, sep)] == t[first_index(t, sep)]);
        }
    }
    let i = first_index(s, sep);
    if i < s.len() {
        assert(s.contains(sep));
    } else if s.contains(sep) {
        let k = choose|k: int| 0 <= k < s.len() && s[k] == sep;
        assert(s[k] != sep);
    }
}

/// Cutting at the first separator after `start` yields the next piece.
proof fn lemma_split_step(s: Seq<char>, sep: char, start: int, i: int)
    requires
        0 <= start <= i < s.len(),
        forall|j: int| start <= j < i ==> s[j] != sep,
        s[i] == sep,
    ensures
        split_on(s.skip(start), sep) == seq![s.subrange(start, i)] + split_on(
            s.skip(i + 1),
            sep,
        ),
{
    let t = s.skip(start);
    lemma_first_index_is(t, sep, i - start);
    assert(t.take(i - start) =~= s.subrange(start, i));
    assert(t.skip(i - start + 1) =~= s.skip(i + 1));
}

/// Without a separator after `start`, the rest is the last piece.
proof fn lemma_split_last(s: Seq<char>, sep: char, start: int)
    requires
        0 <= start <= s.len(),
        forall|j: int| start <= j < s.len() ==> s[j] != sep,
    ensures
        split_on(s.skip(start), sep) == seq![s.subrange(start, s.len() as int)],
{
    let t = s.skip(start);
    lemma_first_index_is(t, sep, s.len() - start);
    assert(t =~= s.subrange(start, s.len() as int));
}

/// Finds the first `sep` in `s`, counting characters.
pub fn find_first(s: &str, sep: char) -> (r: usize)
    ensures
        r == first_index(s@, sep),
{
    let n: usize = s.unicode_len();
    let mut i: usize = 0;
    for c in it: s.chars()
        invariant
            n == s@.len(),
            it.seq() == s@,
            i == it.index(),
            forall|j: int| 0 <= j < i ==> s@[j] != sep,
    {
        if c == sep {
            proof {
                lemma_first_index_is(s@, sep, i as int);
            }
            return i;
        }
        i = i + 1;
    }
    proof {
        lemma_first_index_is(s@, sep, i as int);
    }
    i
}

/// Splits `s` at every `sep`.
pub fn split<'a>(s: &'a str, sep: char) -> (parts: Vec<&'a str>)
    ensures
        parts.deep_view() == split_on(s@, sep),
{
    let n: usize = s.unicode_len();
    let mut parts: Vec<&'a str> = Vec::new();
    let mut start: usize = 0;
    let mut i: usize = 0;
    assert(s@.skip(0) =~= s@);
    assert(parts.deep_view() =~= Seq::<Seq<char>>::empty());
    for c in it: s.chars()
        invariant
            n == s@.len(),
            it.seq() == s@,
            i == it.index(),
            start <= i,
            forall|j: int| start <= j < i ==> s@[j] != sep,
            split_on(s@, sep) == parts.deep_view() + split_on(s@.skip(start as int), sep),
    {
        if c == sep {
            let part = s.substring_char(start, i);
            let ghost before = parts.deep_view();
            proof {
                lemma_split_step(s@, sep, start as int, i as int);
            }
            parts.push(part);
            assert(parts.deep_view() =~= before.push(part@));
            start = i + 1;
        }
        i = i + 1;
    }
    let part = s.substring_char(start, n);
    let ghost before = parts.deep_view();
    proof {
        lemma_split_last(s@, sep, start as int);
    }
    parts.push(part);
    assert(parts.deep_view() =~= before.push(part@));
    parts
}

} // verus!
