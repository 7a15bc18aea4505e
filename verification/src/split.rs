//! Splitting text on a separator character: the mathematical model and the
//! verified scanning primitives the tag-value parsers are built on.

use vstd::prelude::*;

verus! {

/// The first index of `c` in `s`, or -1 when `c` does not occur.
pub open spec fn find_char(s: Seq<char>, c: char) -> int
    decreases s.len(),
{
    if s.len() == 0 {
        -1
    } else if s[0] == c {
        0
    } else {
        let r = find_char(s.skip(1), c);
        if r < 0 {
            -1
        } else {
            r + 1
        }
    }
}

/// What `find_char` returns: the first occurrence, or -1.
pub proof fn lemma_find_char(s: Seq<char>, c: char)
    ensures
        find_char(s, c) < 0 ==> (forall|i: int| 0 <= i < s.len() ==> s[i] != c),
        find_char(s, c) >= 0 ==> {
            &&& find_char(s, c) < s.len()
            &&& s[find_char(s, c)] == c
            &&& forall|i: int| 0 <= i < find_char(s, c) ==> s[i] != c
        },
    decreases s.len(),
{
    if s.len() > 0 && s[0] != c {
        lemma_find_char(s.skip(1), c);
        let r = find_char(s.skip(1), c);
        if r >= 0 {
            assert(s[r + 1] == s.skip(1)[r]);
            assert forall|i: int| 0 <= i < r + 1 implies s[i] != c by {
                if i > 0 {
                    assert(s.skip(1)[i - 1] == s[i]);
                }
            }
        } else {
            assert forall|i: int| 0 <= i < s.len() implies s[i] != c by {
                if i > 0 {
                    assert(s.skip(1)[i - 1] == s[i]);
                }
            }
        }
    }
}

/// The pieces of `s` between occurrences of `c`: always at least one
/// piece, and an empty `s` gives one empty piece.
pub open spec fn split_on(s: Seq<char>, c: char) -> Seq<Seq<char>>
    decreases s.len(),
{
    if s.len() == 0 {
        seq![Seq::empty()]
    } else if s[0] == c {
        seq![Seq::<char>::empty()] + split_on(s.skip(1), c)
    } else {
        let rest = split_on(s.skip(1), c);
        seq![seq![s[0]] + rest[0]] + rest.skip(1)
    }
}

/// A split always has at least one piece.
pub proof fn lemma_split_on_len(s: Seq<char>, c: char)
    ensures
        split_on(s, c).len() >= 1,
    decreases s.len(),
{
    if s.len() > 0 {
        lemma_split_on_len(s.skip(1), c);
    }
}

/// A split steps over the first occurrence of the separator: the first
/// piece is everything before it, and the rest is the split of everything
/// after it. Without an occurrence the whole of `s` is the one piece.
pub proof fn lemma_split_on_step(s: Seq<char>, c: char)
    ensures
        find_char(s, c) >= 0 ==> split_on(s, c) =~~= seq![s.take(find_char(s, c))] + split_on(
            s.skip(find_char(s, c) + 1),
            c,
        ),
        find_char(s, c) < 0 ==> split_on(s, c) =~~= seq![s],
    decreases s.len(),
{
    lemma_find_char(s, c);
    lemma_split_on_len(s, c);
    if s.len() == 0 {
        assert(split_on(s, c) =~~= seq![s]);
    } else if s[0] == c {
        assert(s.take(0) =~= Seq::<char>::empty());
    } else {
        lemma_split_on_step(s.skip(1), c);
        lemma_split_on_len(s.skip(1), c);
        let i = find_char(s, c);
        if i >= 0 {
            assert(find_char(s.skip(1), c) == i - 1);
            assert(s.skip(1).take(i - 1) =~= s.take(i).skip(1));
            assert(seq![s[0]] + s.take(i).skip(1) =~= s.take(i));
            assert(s.skip(1).skip(i) =~= s.skip(i + 1));
        } else {
            assert(find_char(s.skip(1), c) < 0);
            assert(seq![s[0]] + s.skip(1) =~= s);
        }
    }
}

/// `find_char` returns `j` when `j` is an occurrence of `c` with none
/// before it.
pub proof fn lemma_find_char_is(s: Seq<char>, c: char, j: int)
    requires
        0 <= j < s.len(),
        s[j] == c,
        forall|i: int| 0 <= i < j ==> s[i] != c,
    ensures
        find_char(s, c) == j,
{
    lemma_find_char(s, c);
}

/// `find_char` returns -1 when `c` does not occur in `s`.
pub proof fn lemma_find_char_none(s: Seq<char>, c: char)
    requires
        forall|i: int| 0 <= i < s.len() ==> s[i] != c,
    ensures
        find_char(s, c) == -1,
{
    lemma_find_char(s, c);
}

/// Finds the first occurrence of `c` in `s` at or after char offset
/// `from`, if any.
pub fn find_char_from(s: &str, c: char, from: usize) -> (r: Option<usize>)
    requires
        from <= s@.len(),
    ensures
        match r {
            Some(i) => {
                &&& from <= i < s@.len()
                &&& i == from + find_char(s@.skip(from as int), c)
                &&& find_char(s@.skip(from as int), c) >= 0
            },
            None => find_char(s@.skip(from as int), c) < 0,
        },
{
    let n = s.unicode_len();
    let mut i = from;
    while i < n
        invariant
            from <= i <= n,
            n == s@.len(),
            forall|j: int| from <= j < i ==> s@[j] != c,
        decreases n - i,
    {
        if s.get_char(i) == c {
            proof {
                lemma_find_char(s@.skip(from as int), c);
                let k = find_char(s@.skip(from as int), c);
                assert(s@.skip(from as int)[i - from] == c);
                assert(k >= 0 ==> s@.skip(from as int)[k] == c);
                if k < i - from {
                    assert(s@[k + from] != c);
                    assert(s@.skip(from as int)[k] == s@[k + from]);
                }
            }
            return Some(i);
        }
        i = i + 1;
    }
    proof {
        lemma_find_char(s@.skip(from as int), c);
        let k = find_char(s@.skip(from as int), c);
        if k >= 0 {
            assert(s@.skip(from as int)[k] == s@[k + from]);
        }
    }
    None
}

} // verus!
