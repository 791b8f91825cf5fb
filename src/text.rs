//! Searching and counting characters in text.
use vstd::prelude::*;

verus! {

/// `i` is the first position at or after `from` where `s` holds `c`.
pub open spec fn is_first_index(s: Seq<char>, c: char, from: int, i: int) -> bool {
    from <= i < s.len() && s[i] == c && forall|j: int| from <= j < i ==> s[j] != c
}

/// The first position at or after `from` where `s` holds `c`, or the length of `s` when none does.
pub open spec fn first_index(s: Seq<char>, c: char, from: int) -> int {
    if exists|i: int| is_first_index(s, c, from, i) {
        choose|i: int| is_first_index(s, c, from, i)
    } else {
        s.len() as int
    }
}

/// How many times `s` holds `c`.
pub open spec fn count_char(s: Seq<char>, c: char) -> nat
    decreases s.len(),
{
    if s.len() == 0 {
        0
    } else {
        count_char(s.drop_last(), c) + if s.last() == c {
            1nat
        } else {
            0nat
        }
    }
}

/// The first position is unique.
proof fn lemma_first_index_unique(s: Seq<char>, c: char, from: int, i: int)
    requires
        is_first_index(s, c, from, i),
    ensures
        first_index(s, c, from) == i,
{
    let j = choose|j: int| is_first_index(s, c, from, j);
    assert(is_first_index(s, c, from, j));
    if j < i {
        assert(s[j] != c);
    } else if i < j {
        assert(s[i] != c);
    }
}

/// The first position at or after `from` where `s` holds `c`.
pub fn find_char(s: &str, c: char, from: usize) -> (r: Option<usize>)
    requires
        from <= s@.len(),
    ensures
        r matches Some(i) ==> is_first_index(s@, c, from as int, i as int) && first_index(
            s@,
            c,
            from as int,
        ) == i,
        r is None ==> (forall|j: int| from <= j < s@.len() ==> s@[j] != c) && first_index(
            s@,
            c,
            from as int,
        ) == s@.len(),
{
    let n = s.unicode_len();
    let mut i: usize = from;
    while i < n
        invariant
            from <= i <= n,
            n == s@.len(),
            forall|j: int| from <= j < i ==> s@[j] != c,
        decreases n - i,
    {
        if s.get_char(i) == c {
            proof {
                lemma_first_index_unique(s@, c, from as int, i as int);
            }
            return Some(i);
        }
        i = i + 1;
    }
    assert(!exists|k: int| is_first_index(s@, c, from as int, k));
    None
}

/// How many times `s` holds `c`.
pub fn count_occurrences(s: &str, c: char) -> (r: usize)
    ensures
        r == count_char(s@, c),
{
    let n = s.unicode_len();
    let mut count: usize = 0;
    let mut i: usize = 0;
    while i < n
        invariant
            i <= n,
            n == s@.len(),
            count == count_char(s@.subrange(0, i as int), c),
            count <= i,
        decreases n - i,
    {
        assert(s@.subrange(0, i + 1).drop_last() == s@.subrange(0, i as int));
        if s.get_char(i) == c {
            count = count + 1;
        }
        i = i + 1;
    }
    assert(s@.subrange(0, n as int) == s@);
    count
}

} // verus!
