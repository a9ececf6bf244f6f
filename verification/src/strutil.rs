//! Verified string helpers: equality, prefix tests, substring search,
//! hyphen-to-underscore normalization and joining, together with the spec
//! functions that the rest of the crate's contracts are stated over.

use vstd::prelude::*;

verus! {

/// The pattern `pat` occurs in `s` starting at position `i`.
pub open spec fn occurs_at(s: Seq<char>, pat: Seq<char>, i: int) -> bool {
    &&& 0 <= i
    &&& i + pat.len() <= s.len()
    &&& s.subrange(i, i + pat.len() as int) == pat
}

/// The pattern `pat` occurs somewhere in `s`.
pub open spec fn occurs_in(s: Seq<char>, pat: Seq<char>) -> bool {
    exists|i: int| occurs_at(s, pat, i)
}

/// A hyphen becomes an underscore; every other character is kept.
pub open spec fn under_char(c: char) -> char {
    if c == '-' {
        '_'
    } else {
        c
    }
}

/// `s` with every hyphen replaced by an underscore.
pub open spec fn underscored(s: Seq<char>) -> Seq<char>
    decreases s.len(),
{
    if s.len() == 0 {
        Seq::empty()
    } else {
        underscored(s.drop_last()).push(under_char(s.last()))
    }
}

/// The parts, in order, with the separator between neighbours.
pub open spec fn joined(parts: Seq<Seq<char>>, sep: Seq<char>) -> Seq<char>
    decreases parts.len(),
{
    if parts.len() == 0 {
        Seq::empty()
    } else if parts.len() == 1 {
        parts[0]
    } else {
        joined(parts.drop_last(), sep) + sep + parts.last()
    }
}

/// The views of a sequence of strings.
pub open spec fn seq_views(parts: Seq<String>) -> Seq<Seq<char>> {
    parts.map_values(|p: String| p@)
}

/// Character-by-character string equality.
pub fn str_eq(a: &str, b: &str) -> (r: bool)
    ensures
        r == (a@ == b@),
{
    let alen = a.unicode_len();
    let blen = b.unicode_len();
    if alen != blen {
        return false;
    }
    let mut i: usize = 0;
    while i < alen
        invariant
            i <= alen,
            alen == a@.len(),
            alen == b@.len(),
            forall|j: int| 0 <= j < i ==> a@[j] == b@[j],
        decreases alen - i,
    {
        if a.get_char(i) != b.get_char(i) {
            return false;
        }
        i = i + 1;
    }
    proof {
        assert(a@ =~= b@);
    }
    true
}

/// `s` with every trailing repetition of `pat` removed.
pub open spec fn without_suffix_reps(s: Seq<char>, pat: Seq<char>) -> Seq<char>
    decreases s.len(),
{
    if pat.len() > 0 && pat.is_suffix_of(s) {
        without_suffix_reps(s.take(s.len() - pat.len()), pat)
    } else {
        s
    }
}

/// Whether `pat` occurs in `s` at position `i`.
pub fn matches_at(s: &str, pat: &str, i: usize) -> (r: bool)
    requires
        i + pat@.len() <= s@.len(),
        s@.len() <= usize::MAX,
    ensures
        r == occurs_at(s@, pat@, i as int),
{
    let m = pat.unicode_len();
    let mut j: usize = 0;
    while j < m
        invariant
            j <= m,
            m == pat@.len(),
            i + m <= s@.len() <= usize::MAX,
            forall|k: int| 0 <= k < j ==> s@[i + k] == pat@[k],
        decreases m - j,
    {
        if s.get_char(i + j) != pat.get_char(j) {
            proof {
                assert(s@.subrange(i as int, i + m as int)[j as int] != pat@[j as int]);
            }
            return false;
        }
        j = j + 1;
    }
    proof {
        assert(s@.subrange(i as int, i + m as int) =~= pat@);
    }
    true
}

/// Whether `s` starts with `p`.
pub fn str_starts_with(s: &str, p: &str) -> (r: bool)
    ensures
        r == p@.is_prefix_of(s@),
{
    let slen = s.unicode_len();
    let plen = p.unicode_len();
    if plen > slen {
        return false;
    }
    let r = matches_at(s, p, 0);
    proof {
        assert(occurs_at(s@, p@, 0) == p@.is_prefix_of(s@));
    }
    r
}

/// The first occurrence of `pat` in `s` at or after position `from`, if any.
pub fn find_from(s: &str, pat: &str, from: usize) -> (r: Option<usize>)
    requires
        pat@.len() >= 1,
    ensures
        match r {
            Some(i) => {
                &&& from <= i
                &&& occurs_at(s@, pat@, i as int)
                &&& forall|j: int| from <= j < i ==> !occurs_at(s@, pat@, j)
            },
            None => forall|j: int| from <= j ==> !occurs_at(s@, pat@, j),
        },
{
    let slen = s.unicode_len();
    let m = pat.unicode_len();
    if m > slen || from > slen - m {
        return None;
    }
    let mut i: usize = from;
    while i <= slen - m
        invariant
            m == pat@.len(),
            slen == s@.len(),
            1 <= m <= slen,
            from <= i <= slen - m + 1,
            forall|j: int| from <= j < i ==> !occurs_at(s@, pat@, j),
        decreases slen - m + 1 - i,
    {
        if matches_at(s, pat, i) {
            return Some(i);
        }
        i = i + 1;
    }
    proof {
        assert forall|j: int| from <= j implies !occurs_at(s@, pat@, j) by {
            if j < i {
            } else {
                assert(j + pat@.len() > s@.len());
            }
        }
    }
    None
}

/// `s` with every trailing repetition of `pat` removed.
pub fn trim_end_matches_all<'a>(s: &'a str, pat: &str) -> (r: &'a str)
    requires
        pat@.len() >= 1,
    ensures
        r@ == without_suffix_reps(s@, pat@),
{
    let plen = pat.unicode_len();
    let slen = s.unicode_len();
    let mut end: usize = slen;
    proof {
        assert(s@.take(slen as int) =~= s@);
    }
    loop
        invariant_except_break
            plen == pat@.len(),
            1 <= plen,
            slen == s@.len(),
            end <= slen,
            without_suffix_reps(s@.take(end as int), pat@) == without_suffix_reps(s@, pat@),
        ensures
            end <= s@.len(),
            s@.take(end as int) == without_suffix_reps(s@, pat@),
        decreases end,
    {
        if plen <= end && matches_at(s, pat, end - plen) {
            proof {
                let cur = s@.take(end as int);
                assert(cur.subrange(end - plen, end as int) =~= s@.subrange(end - plen, end as int));
                assert(pat@.is_suffix_of(cur));
                assert(cur.take(end - plen) =~= s@.take(end - plen));
            }
            end = end - plen;
        } else {
            proof {
                let cur = s@.take(end as int);
                if plen <= end {
                    assert(cur.subrange(end - plen, end as int) =~= s@.subrange(end - plen, end as int));
                }
                assert(!pat@.is_suffix_of(cur));
            }
            break;
        }
    }
    let r = s.substring_char(0, end);
    proof {
        assert(r@ =~= s@.take(end as int));
    }
    r
}

/// `s` with every hyphen replaced by an underscore.
pub fn replace_dashes(s: &str) -> (r: String)
    ensures
        r@ == underscored(s@),
{
    let n = s.unicode_len();
    let mut r = String::new();
    let mut i: usize = 0;
    while i < n
        invariant
            i <= n,
            n == s@.len(),
            r@ == underscored(s@.subrange(0, i as int)),
        decreases n - i,
    {
        let c = s.get_char(i);
        if c == '-' {
            r.append("_");
            proof {
                reveal_strlit("_");
            }
        } else {
            let seg = s.substring_char(i, i + 1);
            r.append(seg);
        }
        proof {
            let pre = s@.subrange(0, i as int);
            let pre1 = s@.subrange(0, i + 1);
            assert(pre1.drop_last() =~= pre);
            assert(r@ =~= underscored(pre1));
        }
        i = i + 1;
    }
    proof {
        assert(s@.subrange(0, n as int) =~= s@);
    }
    r
}

/// The parts joined with the separator between neighbours.
pub fn join_with(parts: &Vec<String>, sep: &str) -> (r: String)
    ensures
        r@ == joined(seq_views(parts@), sep@),
{
    let mut r = String::new();
    let mut idx: usize = 0;
    while idx < parts.len()
        invariant
            idx <= parts@.len(),
            r@ == joined(seq_views(parts@.take(idx as int)), sep@),
        decreases parts@.len() - idx,
    {
        if idx > 0 {
            r.append(sep);
        }
        r.append(parts[idx].as_str());
        proof {
            let prev = seq_views(parts@.take(idx as int));
            let cur = seq_views(parts@.take(idx + 1));
            assert(cur.drop_last() =~= prev);
            assert(cur.last() == parts@[idx as int]@);
            assert(cur.len() == idx + 1);
            assert(r@ =~= joined(cur, sep@));
        }
        idx = idx + 1;
    }
    proof {
        assert(parts@.take(parts@.len() as int) =~= parts@);
    }
    r
}

} // verus!
