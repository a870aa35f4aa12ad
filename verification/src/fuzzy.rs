//! A similarity score between two strings: every pair of equal substrings,
//! one from each string, contributes its length to the score.

use vstd::prelude::*;

verus! {

/// Whether the substring of `s1` at `o1` and the substring of `s2` at `o2`,
/// both of length `k`, are equal.
pub open spec fn sub_match(s1: Seq<char>, s2: Seq<char>, o1: int, o2: int, k: int) -> bool {
    s1.subrange(o1, o1 + k) == s2.subrange(o2, o2 + k)
}

/// Contributions of the length-`k` substrings of `s1` at `o1` against the
/// substrings of `s2` at every offset from `o2` on: `k` points per match.
pub open spec fn score_o2(s1: Seq<char>, s2: Seq<char>, k: int, o1: int, o2: int) -> int
    decreases s2.len() + 1 - k - o2,
{
    if o2 > s2.len() - k {
        0
    } else {
        (if sub_match(s1, s2, o1, o2, k) { k } else { 0 }) + score_o2(s1, s2, k, o1, o2 + 1)
    }
}

/// Contributions of all length-`k` substring pairs with the first offset
/// running from `o1` on.
pub open spec fn score_o1(s1: Seq<char>, s2: Seq<char>, k: int, o1: int) -> int
    decreases s1.len() + 1 - k - o1,
{
    if o1 > s1.len() - k {
        0
    } else {
        score_o2(s1, s2, k, o1, 0) + score_o1(s1, s2, k, o1 + 1)
    }
}

/// Contributions of all substring pairs of length `k` and above, up to the
/// length of the shorter string.
pub open spec fn score_k(s1: Seq<char>, s2: Seq<char>, k: int) -> int
    decreases min_len(s1, s2) + 1 - k,
{
    if k <= 0 || k > min_len(s1, s2) {
        0
    } else {
        score_o1(s1, s2, k, 0) + score_k(s1, s2, k + 1)
    }
}

/// The length of the shorter of the two strings.
pub open spec fn min_len(s1: Seq<char>, s2: Seq<char>) -> int {
    if s1.len() <= s2.len() {
        s1.len() as int
    } else {
        s2.len() as int
    }
}

/// The full score: every pair of equal substrings of equal length, one from
/// each string, counted once per pair of offsets, contributes its length.
pub open spec fn fuzzy_score_spec(s1: Seq<char>, s2: Seq<char>) -> int {
    score_k(s1, s2, 1)
}

/// A non-negative total capped at the largest `u32`.
pub open spec fn capped(total: int) -> int {
    if total <= u32::MAX {
        total
    } else {
        u32::MAX as int
    }
}

/// The characters of a string as a vector, one element per Unicode scalar
/// value.
fn chars_vec(s: &str) -> (v: Vec<char>)
    ensures
        v@ == s@,
{
    let n = crate::pos::char_len(s);
    let mut v: Vec<char> = Vec::new();
    let mut i: usize = 0;
    while i < n
        invariant
            i <= n,
            n == s@.len(),
            v@ =~= s@.subrange(0, i as int),
        decreases n - i,
    {
        v.push(s.get_char(i));
        i = i + 1;
    }
    assert(v@ =~= s@);
    v
}

/// Add a non-negative term to the running score, saturating at the largest
/// `u32`.
fn add_capped(acc: u32, term: usize) -> (r: u32)
    ensures
        r == capped(acc + term),
{
    if term >= (u32::MAX - acc) as usize {
        u32::MAX
    } else {
        acc + (term as u32)
    }
}

/// The similarity score of the two strings: the sum, over every pair of
/// equal substrings of equal length (one from each string, at each pair of
/// offsets), of that length — capped at the largest `u32`.
pub fn fuzzy_score(string1: &str, string2: &str) -> (score: u32)
    ensures
        score == capped(fuzzy_score_spec(string1@, string2@)),
{
    let v1 = chars_vec(string1);
    let v2 = chars_vec(string2);
    let ghost s1 = string1@;
    let ghost s2 = string2@;
    let n1 = v1.len();
    let n2 = v2.len();
    let m = if n1 <= n2 {
        n1
    } else {
        n2
    };
    let ghost total = fuzzy_score_spec(s1, s2);
    let mut score: u32 = 0;
    let ghost mut pre: int = 0;
    let mut done: usize = 0;
    while done < m
        invariant
            v1@ == s1,
            v2@ == s2,
            n1 == s1.len(),
            n2 == s2.len(),
            m == min_len(s1, s2),
            done <= m,
            pre >= 0,
            pre + score_k(s1, s2, done as int + 1) == total,
            score == capped(pre),
        decreases m - done,
    {
        let k = done + 1;
        let mut o1: usize = 0;
        proof {
            assert(score_k(s1, s2, k as int) == score_o1(s1, s2, k as int, 0) + score_k(
                s1,
                s2,
                k as int + 1,
            ));
        }
        while o1 <= n1 - k
            invariant
                v1@ == s1,
                v2@ == s2,
                n1 == s1.len(),
                n2 == s2.len(),
                m == min_len(s1, s2),
                1 <= k <= m,
                o1 <= n1 - k + 1,
                pre >= 0,
                pre + score_o1(s1, s2, k as int, o1 as int) + score_k(s1, s2, k as int + 1)
                    == total,
                score == capped(pre),
            decreases n1 - k + 1 - o1,
        {
            let mut o2: usize = 0;
            proof {
                assert(score_o1(s1, s2, k as int, o1 as int) == score_o2(
                    s1,
                    s2,
                    k as int,
                    o1 as int,
                    0,
                ) + score_o1(s1, s2, k as int, o1 as int + 1));
            }
            while o2 <= n2 - k
                invariant
                    v1@ == s1,
                    v2@ == s2,
                    n1 == s1.len(),
                    n2 == s2.len(),
                    m == min_len(s1, s2),
                    1 <= k <= m,
                    o1 <= n1 - k,
                    o2 <= n2 - k + 1,
                    pre >= 0,
                    pre + score_o2(s1, s2, k as int, o1 as int, o2 as int) + score_o1(
                        s1,
                        s2,
                        k as int,
                        o1 as int + 1,
                    ) + score_k(s1, s2, k as int + 1) == total,
                    score == capped(pre),
                decreases n2 - k + 1 - o2,
            {
                let mut j: usize = 0;
                let mut matches = true;
                while j < k
                    invariant
                        v1@ == s1,
                        v2@ == s2,
                        n1 == s1.len(),
                        n2 == s2.len(),
                        1 <= k,
                        o1 + k <= n1,
                        o2 + k <= n2,
                        j <= k,
                        matches <==> (forall|t: int|
                            0 <= t < j ==> (#[trigger] s1[o1 + t]) == s2[o2 + t]),
                    decreases k - j,
                {
                    if v1[o1 + j] != v2[o2 + j] {
                        matches = false;
                    }
                    j = j + 1;
                }
                proof {
                    if matches {
                        assert forall|t: int| 0 <= t < k implies (#[trigger] s1.subrange(
                            o1 as int,
                            o1 + k,
                        )[t]) == s2.subrange(o2 as int, o2 + k)[t] by {
                            assert(s1[o1 + t] == s2[o2 + t]);
                        }
                        assert(s1.subrange(o1 as int, o1 + k) =~= s2.subrange(
                            o2 as int,
                            o2 + k,
                        ));
                    } else {
                        let t = choose|t: int|
                            0 <= t < k && (#[trigger] s1[o1 + t]) != s2[o2 + t];
                        assert(s1.subrange(o1 as int, o1 + k)[t] == s1[o1 + t]);
                        assert(!sub_match(s1, s2, o1 as int, o2 as int, k as int));
                    }
                    assert(score_o2(s1, s2, k as int, o1 as int, o2 as int) == (if sub_match(
                        s1,
                        s2,
                        o1 as int,
                        o2 as int,
                        k as int,
                    ) {
                        k as int
                    } else {
                        0
                    }) + score_o2(s1, s2, k as int, o1 as int, o2 as int + 1));
                }
                if matches {
                    score = add_capped(score, k);
                    proof {
                        pre = pre + k;
                    }
                }
                o2 = o2 + 1;
            }
            o1 = o1 + 1;
        }
        done = k;
    }
    proof {
        assert(score_k(s1, s2, done as int + 1) == 0);
    }
    score
}

} // verus!
