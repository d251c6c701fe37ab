//! Release-tag comparison for the self-update flow: a published tag such as
//! `v1.2.3` names the same version as `1.2.3` once every leading `v` is
//! dropped.

use vstd::prelude::*;

verus! {

/// `s` with every leading `v` (byte 118) removed.
pub open spec fn strip_v(s: Seq<u8>) -> Seq<u8>
    decreases s.len(),
{
    if s.len() > 0 && s[0] == 118 {
        strip_v(s.drop_first())
    } else {
        s
    }
}

proof fn lemma_strip_v_at(s: Seq<u8>, k: int)
    requires
        0 <= k <= s.len(),
        forall|i: int| 0 <= i < k ==> s[i] == 118,
        k == s.len() || s[k] != 118,
    ensures
        strip_v(s) == s.subrange(k, s.len() as int),
    decreases k,
{
    if k == 0 {
        assert(s.subrange(0, s.len() as int) =~= s);
    } else {
        let t = s.drop_first();
        lemma_strip_v_at(t, k - 1);
        assert(t.subrange(k - 1, t.len() as int) =~= s.subrange(k, s.len() as int));
    }
}

/// Decides whether a release tag names the currently running version:
/// equality after the tag's leading `v` markers are stripped.
pub fn tag_matches_version(tag: &Vec<u8>, current: &Vec<u8>) -> (r: bool)
    ensures
        r == (strip_v(tag@) == current@),
{
    let n = tag.len();
    let mut k: usize = 0;
    while k < n && tag[k] == 118
        invariant
            n == tag@.len(),
            k <= n,
            forall|i: int| 0 <= i < k ==> tag@[i] == 118,
        decreases n - k,
    {
        k = k + 1;
    }
    proof {
        lemma_strip_v_at(tag@, k as int);
    }
    let m = current.len();
    if n - k != m {
        return false;
    }
    let mut i: usize = 0;
    while i < m
        invariant
            n == tag@.len(),
            m == current@.len(),
            k + m == n,
            i <= m,
            strip_v(tag@) == tag@.subrange(k as int, n as int),
            forall|j: int| 0 <= j < i ==> tag@[k + j] == current@[j],
        decreases m - i,
    {
        if tag[k + i] != current[i] {
            assert(strip_v(tag@)[i as int] != current@[i as int]);
            return false;
        }
        i = i + 1;
    }
    proof {
        assert(strip_v(tag@) =~= current@);
    }
    true
}

} // verus!
