//! Small text helpers over character sequences: first and last occurrence
//! of a character, substring containment, and local-name extraction.

use vstd::prelude::*;
use vstd::string::StrSliceExecFns;
use vstd::string::StringExecFns;

verus! {

/// Index of the first occurrence of `c` in `s`, or `-1` if absent.
pub open spec fn first_occ(s: Seq<char>, c: char) -> int
    decreases s.len(),
{
    if s.len() == 0 {
        -1
    } else if s[0] == c {
        0
    } else if first_occ(s.skip(1), c) == -1 {
        -1
    } else {
        1 + first_occ(s.skip(1), c)
    }
}

/// Index of the last occurrence of `c` in `s`, or `-1` if absent.
pub open spec fn last_occ(s: Seq<char>, c: char) -> int
    decreases s.len(),
{
    if s.len() == 0 {
        -1
    } else if s.last() == c {
        s.len() - 1
    } else {
        last_occ(s.drop_last(), c)
    }
}

/// Does `sub` occur contiguously inside `s`?
pub open spec fn has_substring(s: Seq<char>, sub: Seq<char>) -> bool {
    exists|i: int| 0 <= i && i + sub.len() <= s.len() && #[trigger] s.subrange(i, i + sub.len())
        == sub
}

/// The text after the last `#`, else after the last `/`, else the whole
/// text unchanged.
pub open spec fn local_name_of(s: Seq<char>) -> Seq<char> {
    if last_occ(s, '#') >= 0 {
        s.skip(last_occ(s, '#') + 1)
    } else if last_occ(s, '/') >= 0 {
        s.skip(last_occ(s, '/') + 1)
    } else {
        s
    }
}

pub proof fn lemma_first_occ_at(s: Seq<char>, c: char, i: int)
    requires
        0 <= i < s.len(),
        s[i] == c,
        forall|j: int| 0 <= j < i ==> s[j] != c,
    ensures
        first_occ(s, c) == i,
    decreases i,
{
    if i == 0 {
    } else {
        assert(forall|j: int| 0 <= j < i - 1 ==> s.skip(1)[j] == s[j + 1]);
        lemma_first_occ_at(s.skip(1), c, i - 1);
    }
}

pub proof fn lemma_first_occ_absent(s: Seq<char>, c: char)
    requires
        forall|j: int| 0 <= j < s.len() ==> s[j] != c,
    ensures
        first_occ(s, c) == -1,
    decreases s.len(),
{
    if s.len() == 0 {
    } else {
        assert(forall|j: int| 0 <= j < s.skip(1).len() ==> s.skip(1)[j] == s[j + 1]);
        lemma_first_occ_absent(s.skip(1), c);
    }
}

pub proof fn lemma_last_occ_at(s: Seq<char>, c: char, i: int)
    requires
        0 <= i < s.len(),
        s[i] == c,
        forall|j: int| i < j < s.len() ==> s[j] != c,
    ensures
        last_occ(s, c) == i,
    decreases s.len(),
{
    if i == s.len() - 1 {
    } else {
        assert(s.last() != c);
        assert(forall|j: int| 0 <= j < s.drop_last().len() ==> s.drop_last()[j] == s[j]);
        lemma_last_occ_at(s.drop_last(), c, i);
    }
}

pub proof fn lemma_last_occ_absent(s: Seq<char>, c: char)
    requires
        forall|j: int| 0 <= j < s.len() ==> s[j] != c,
    ensures
        last_occ(s, c) == -1,
    decreases s.len(),
{
    if s.len() == 0 {
    } else {
        lemma_last_occ_absent(s.drop_last(), c);
    }
}

/// Index of the first occurrence of `c` in `s`, scanning forward.
pub fn find_first(s: &str, c: char) -> (r: Option<usize>)
    ensures
        match r {
            Some(i) => i < s@.len() && first_occ(s@, c) == i as int,
            None => first_occ(s@, c) == -1,
        },
{
    let n = s.unicode_len();
    let mut i: usize = 0;
    while i < n
        invariant
            n == s@.len(),
            i <= n,
            forall|j: int| 0 <= j < i ==> s@[j] != c,
        decreases n - i,
    {
        if s.get_char(i) == c {
            proof {
                lemma_first_occ_at(s@, c, i as int);
            }
            return Some(i);
        }
        i += 1;
    }
    proof {
        lemma_first_occ_absent(s@, c);
    }
    None
}

/// Index of the last occurrence of `c` in `s`, scanning backward.
pub fn find_last(s: &str, c: char) -> (r: Option<usize>)
    ensures
        match r {
            Some(i) => i < s@.len() && last_occ(s@, c) == i as int,
            None => last_occ(s@, c) == -1,
        },
{
    let n = s.unicode_len();
    let mut i: usize = n;
    while i > 0
        invariant
            n == s@.len(),
            i <= n,
            forall|j: int| i <= j < n ==> s@[j] != c,
        decreases i,
    {
        i -= 1;
        if s.get_char(i) == c {
            proof {
                lemma_last_occ_at(s@, c, i as int);
            }
            return Some(i);
        }
    }
    proof {
        lemma_last_occ_absent(s@, c);
    }
    None
}

/// Does `sub` occur contiguously inside `s`?
pub fn contains_substring(s: &str, sub: &str) -> (r: bool)
    ensures
        r == has_substring(s@, sub@),
{
    let n = s.unicode_len();
    let m = sub.unicode_len();
    if m > n {
        proof {
            assert(!has_substring(s@, sub@));
        }
        return false;
    }
    if m == 0 {
        proof {
            assert(s@.subrange(0, 0 + sub@.len() as int) =~= sub@);
        }
        return true;
    }
    let mut i: usize = 0;
    while i <= n - m
        invariant
            n == s@.len(),
            m == sub@.len(),
            1 <= m <= n,
            i <= n - m + 1,
            forall|j: int| 0 <= j < i ==> #[trigger] s@.subrange(j, j + sub@.len()) != sub@,
        decreases n - i,
    {
        let part = s.substring_char(i, i + m);
        let a = String::from_str(part);
        let b = String::from_str(sub);
        if a == b {
            proof {
                assert(s@.subrange(i as int, i as int + sub@.len()) == sub@);
            }
            return true;
        }
        i += 1;
    }
    proof {
        assert(forall|j: int|
            0 <= j && j + sub@.len() <= s@.len() ==> #[trigger] s@.subrange(j, j + sub@.len())
                != sub@);
    }
    false
}

/// Local-name extraction: the text after the last `#`, else after the last
/// `/`, else the whole text.
pub fn extract_local_name(iri: &str) -> (r: String)
    ensures
        r@ == local_name_of(iri@),
{
    let n = iri.unicode_len();
    match find_last(iri, '#') {
        Some(i) => iri.substring_char(i + 1, n).to_owned(),
        None => match find_last(iri, '/') {
            Some(i) => iri.substring_char(i + 1, n).to_owned(),
            None => iri.to_owned(),
        },
    }
}

} // verus!
