//! The path-marker rewrite the worker applies to every decodable record.
//!
//! A record's text may carry a full file path wrapped between the markers
//! `#FS#` and `#FE#`, the directory part separated from the leaf name by
//! `/`, `\` or `#`. The worker replaces the whole marked span by the leaf
//! name alone, so a caller can embed a full path while only the bare file
//! name reaches the destination. The span is found the way a leftmost,
//! greedy pattern match finds it: the earliest possible start wins; from
//! there the optional `#` after `#FS`, then the longest possible stretch of
//! non-newline bytes up to a separator, then a non-empty run of non-`#`
//! bytes that must be followed immediately by `#FE#`. Text without a full
//! marked span passes through unchanged, and at most one span is rewritten
//! per record.

use vstd::prelude::*;

verus! {

/// True of a byte that can separate a path's directory part from its leaf:
/// `/`, `\` or `#`.
pub open spec fn is_sep(b: u8) -> bool {
    b == 47 || b == 92 || b == 35
}

/// True if the start marker `#FS` sits at position `i`.
pub open spec fn fs_at(s: Seq<u8>, i: int) -> bool {
    0 <= i && i + 3 <= s.len() && s[i] == 35 && s[i + 1] == 70 && s[i + 2] == 83
}

/// True if the end marker `#FE#` sits at position `m`.
pub open spec fn fe_at(s: Seq<u8>, m: int) -> bool {
    0 <= m && m + 4 <= s.len() && s[m] == 35 && s[m + 1] == 70 && s[m + 2] == 69 && s[m + 3] == 35
}

/// True if the stretch `s[j..k)` holds no newline, so the match may cross it.
pub open spec fn middle_ok(s: Seq<u8>, j: int, k: int) -> bool {
    forall|p: int| j <= p < k ==> s[p] != 10
}

/// The position of the first `#` at or after `p` (or the end of `s`).
pub open spec fn hash_end(s: Seq<u8>, p: int) -> int
    recommends
        0 <= p <= s.len(),
    decreases s.len() - p,
{
    if p >= s.len() {
        p
    } else if s[p] == 35 {
        p
    } else {
        hash_end(s, p + 1)
    }
}

/// True if a separator at `k` is followed by a non-empty leaf name (bytes
/// other than `#`) and then immediately by the end marker.
pub open spec fn sep_match(s: Seq<u8>, k: int) -> bool {
    0 <= k < s.len() && is_sep(s[k]) && {
        let m = hash_end(s, k + 1);
        m > k + 1 && fe_at(s, m)
    }
}

/// The leaf name captured by a separator match at `k`.
pub open spec fn leaf_of(s: Seq<u8>, k: int) -> Seq<u8> {
    s.subrange(k + 1, hash_end(s, k + 1))
}

/// The largest position in `j..=k` where a separator match stands and the
/// stretch from `j` up to it holds no newline: the separator a greedy
/// pattern settles on, searching from the longest stretch down.
pub open spec fn best_k(s: Seq<u8>, j: int, k: int) -> Option<int>
    decreases k - j + 1,
{
    if k < j {
        None
    } else if sep_match(s, k) && middle_ok(s, j, k) {
        Some(k)
    } else {
        best_k(s, j, k - 1)
    }
}

/// The separator position of the match starting at `i`, if a whole marked
/// span starts there. The optional `#` directly after `#FS` is taken
/// greedily: with it if the rest still matches, without it otherwise.
pub open spec fn start_match_k(s: Seq<u8>, i: int) -> Option<int> {
    if !fs_at(s, i) {
        None
    } else if i + 3 < s.len() && s[i + 3] == 35 && best_k(s, i + 4, s.len() - 6) is Some {
        best_k(s, i + 4, s.len() - 6)
    } else {
        best_k(s, i + 3, s.len() - 6)
    }
}

/// The start of the leftmost whole marked span at or after `i0`.
pub open spec fn first_match(s: Seq<u8>, i0: int) -> Option<int>
    recommends
        0 <= i0 <= s.len(),
    decreases s.len() - i0,
{
    if i0 >= s.len() {
        None
    } else if start_match_k(s, i0) is Some {
        Some(i0)
    } else {
        first_match(s, i0 + 1)
    }
}

/// What the rewrite leaves of `s`: the leftmost whole marked span replaced
/// by its leaf name, or `s` itself if there is no such span.
pub open spec fn rewrite_spec(s: Seq<u8>) -> Seq<u8> {
    match first_match(s, 0) {
        None => s,
        Some(i) => match start_match_k(s, i) {
            None => s,
            Some(k) => {
                let m = hash_end(s, k + 1);
                s.subrange(0, i) + leaf_of(s, k) + s.subrange(m + 4, s.len() as int)
            },
        },
    }
}

/// A separator match lies between `j` and the searched bound.
proof fn lemma_best_k_some(s: Seq<u8>, j: int, k: int, r: int)
    requires
        best_k(s, j, k) == Some(r),
    ensures
        j <= r <= k,
        sep_match(s, r),
        middle_ok(s, j, r),
    decreases k - j + 1,
{
    if k < j {
    } else if sep_match(s, k) && middle_ok(s, j, k) {
    } else {
        lemma_best_k_some(s, j, k - 1, r);
    }
}

/// A leftmost match found at `i` really is a match, at or after `i0`.
proof fn lemma_first_match_some(s: Seq<u8>, i0: int, i: int)
    requires
        0 <= i0 <= s.len(),
        first_match(s, i0) == Some(i),
    ensures
        i0 <= i < s.len(),
        start_match_k(s, i) is Some,
        fs_at(s, i),
    decreases s.len() - i0,
{
    if i0 >= s.len() {
    } else if start_match_k(s, i0) is Some {
    } else {
        lemma_first_match_some(s, i0 + 1, i);
    }
}

/// Text in which the start marker `#FS` never occurs is left unchanged by
/// the rewrite, byte for byte.
pub proof fn lemma_no_marker_passthrough(s: Seq<u8>)
    requires
        forall|i: int| !fs_at(s, i),
    ensures
        rewrite_spec(s) == s,
{
    lemma_first_match_none(s, 0);
}

proof fn lemma_first_match_none(s: Seq<u8>, i0: int)
    requires
        0 <= i0 <= s.len(),
        forall|i: int| !fs_at(s, i),
    ensures
        first_match(s, i0) is None,
    decreases s.len() - i0,
{
    if i0 >= s.len() {
    } else {
        assert(!fs_at(s, i0));
        lemma_first_match_none(s, i0 + 1);
    }
}

/// The position of the first `#` at or after `p`.
fn hash_end_exec(s: &Vec<u8>, p: usize) -> (r: usize)
    requires
        p <= s.len(),
    ensures
        r == hash_end(s@, p as int),
        p <= r <= s.len(),
    decreases s.len() - p,
{
    if p >= s.len() {
        p
    } else if s[p] == 35 {
        p
    } else {
        hash_end_exec(s, p + 1)
    }
}

/// Whether a separator match stands at `k`.
fn sep_match_exec(s: &Vec<u8>, k: usize) -> (r: bool)
    requires
        k < s.len(),
    ensures
        r == sep_match(s@, k as int),
{
    let b = s[k];
    if !(b == 47 || b == 92 || b == 35) {
        return false;
    }
    let m = hash_end_exec(s, k + 1);
    m > k + 1 && s.len() - m >= 4 && s[m] == 35 && s[m + 1] == 70 && s[m + 2] == 69 && s[m + 3]
        == 35
}

/// Whether `s[j..k)` holds no newline.
fn middle_ok_exec(s: &Vec<u8>, j: usize, k: usize) -> (r: bool)
    requires
        j <= k <= s.len(),
    ensures
        r == middle_ok(s@, j as int, k as int),
{
    let mut p: usize = j;
    while p < k
        invariant
            j <= p <= k <= s.len(),
            forall|q: int| j <= q < p ==> s@[q] != 10,
        decreases k - p,
    {
        if s[p] == 10 {
            assert(!middle_ok(s@, j as int, k as int)) by {
                assert(s@[p as int] == 10);
            }
            return false;
        }
        p = p + 1;
    }
    true
}

/// The greedy separator search, from `k` down to `j`.
fn best_k_exec(s: &Vec<u8>, j: usize, k: usize) -> (r: Option<usize>)
    requires
        j <= s.len(),
        k < s.len(),
    ensures
        match r {
            Some(kr) => best_k(s@, j as int, k as int) == Some(kr as int),
            None => best_k(s@, j as int, k as int) is None,
        },
    decreases k + 1,
{
    if k < j {
        None
    } else if sep_match_exec(s, k) && middle_ok_exec(s, j, k) {
        Some(k)
    } else if k == 0 {
        proof {
            assert(best_k(s@, j as int, -1) is None);
        }
        None
    } else {
        best_k_exec(s, j, k - 1)
    }
}

/// The greedy separator search over the whole admissible range.
fn best_k_top(s: &Vec<u8>, j: usize) -> (r: Option<usize>)
    requires
        j <= s.len(),
    ensures
        match r {
            Some(kr) => best_k(s@, j as int, s@.len() - 6) == Some(kr as int),
            None => best_k(s@, j as int, s@.len() - 6) is None,
        },
{
    if s.len() < 6 {
        return None;
    }
    best_k_exec(s, j, s.len() - 6)
}

/// The separator position of the match starting at `i`, if any.
fn start_match_k_exec(s: &Vec<u8>, i: usize) -> (r: Option<usize>)
    requires
        i <= s.len(),
    ensures
        match r {
            Some(kr) => start_match_k(s@, i as int) == Some(kr as int),
            None => start_match_k(s@, i as int) is None,
        },
{
    if s.len() - i < 3 || !(s[i] == 35 && s[i + 1] == 70 && s[i + 2] == 83) {
        assert(!fs_at(s@, i as int));
        return None;
    }
    assert(fs_at(s@, i as int));
    if s.len() - i > 3 && s[i + 3] == 35 {
        let with_hash = best_k_top(s, i + 4);
        if with_hash.is_some() {
            return with_hash;
        }
    }
    best_k_top(s, i + 3)
}

/// The start of the leftmost whole marked span at or after `i0`.
fn first_match_exec(s: &Vec<u8>, i0: usize) -> (r: Option<usize>)
    requires
        i0 <= s.len(),
    ensures
        match r {
            Some(i) => first_match(s@, i0 as int) == Some(i as int),
            None => first_match(s@, i0 as int) is None,
        },
    decreases s.len() - i0,
{
    if i0 >= s.len() {
        None
    } else if start_match_k_exec(s, i0).is_some() {
        Some(i0)
    } else {
        first_match_exec(s, i0 + 1)
    }
}

/// Appends `s[from..to)` to `out`.
fn push_range(out: &mut Vec<u8>, s: &Vec<u8>, from: usize, to: usize)
    requires
        from <= to <= s.len(),
    ensures
        final(out)@ == old(out)@ + s@.subrange(from as int, to as int),
{
    let ghost start = old(out)@;
    let mut p: usize = from;
    while p < to
        invariant
            from <= p <= to <= s.len(),
            out@ == start + s@.subrange(from as int, p as int),
        decreases to - p,
    {
        out.push(s[p]);
        p = p + 1;
        proof {
            assert(start + s@.subrange(from as int, p - 1) + seq![s@[p - 1]] =~= start
                + s@.subrange(from as int, p as int));
        }
    }
}

/// Applies the path-marker rewrite to one record's bytes: the leftmost
/// whole marked span is replaced by its leaf name; text without one is
/// returned unchanged.
pub fn rewrite_path_markers(s: &Vec<u8>) -> (r: Vec<u8>)
    ensures
        r@ == rewrite_spec(s@),
{
    let found = first_match_exec(s, 0);
    match found {
        None => {
            let mut out: Vec<u8> = Vec::new();
            push_range(&mut out, s, 0, s.len());
            proof {
                assert(s@.subrange(0, s@.len() as int) =~= s@);
            }
            out
        },
        Some(i) => {
            proof {
                lemma_first_match_some(s@, 0, i as int);
            }
            let kopt = start_match_k_exec(s, i);
            match kopt {
                None => {
                    // the leftmost match always has a separator
                    let mut out: Vec<u8> = Vec::new();
                    push_range(&mut out, s, 0, s.len());
                    proof {
                        assert(s@.subrange(0, s@.len() as int) =~= s@);
                    }
                    out
                },
                Some(k) => {
                    proof {
                        if i as int + 3 < s@.len() && s@[i as int + 3] == 35 && best_k(
                            s@,
                            i as int + 4,
                            s@.len() - 6,
                        ) is Some {
                            lemma_best_k_some(s@, i as int + 4, s@.len() - 6, k as int);
                        } else {
                            lemma_best_k_some(s@, i as int + 3, s@.len() - 6, k as int);
                        }
                    }
                    let m = hash_end_exec(s, k + 1);
                    let mut out: Vec<u8> = Vec::new();
                    push_range(&mut out, s, 0, i);
                    push_range(&mut out, s, k + 1, m);
                    push_range(&mut out, s, m + 4, s.len());
                    proof {
                        assert(Seq::<u8>::empty() + s@.subrange(0, i as int) =~= s@.subrange(
                            0,
                            i as int,
                        ));
                    }
                    out
                },
            }
        },
    }
}

} // verus!
