//! Byte-level text helpers shared by the registry, the descriptor reader and
//! the reconciliation engine: ASCII trimming, interactive-answer parsing and
//! byte-sequence comparison.
//!
//! User input and persisted documents are handled as raw bytes; the driver
//! converts to and from `String` at the process boundary.

use vstd::prelude::*;

verus! {

/// The ASCII whitespace bytes that interactive input is trimmed of:
/// space, tab, line feed and carriage return.
pub open spec fn is_ascii_space(b: u8) -> bool {
    b == 32 || b == 9 || b == 10 || b == 13
}

/// `s` with every leading ASCII whitespace byte removed.
pub open spec fn trim_front_spec(s: Seq<u8>) -> Seq<u8>
    decreases s.len(),
{
    if s.len() > 0 && is_ascii_space(s[0]) {
        trim_front_spec(s.drop_first())
    } else {
        s
    }
}

/// `s` with every trailing ASCII whitespace byte removed.
pub open spec fn trim_back_spec(s: Seq<u8>) -> Seq<u8>
    decreases s.len(),
{
    if s.len() > 0 && is_ascii_space(s[s.len() - 1]) {
        trim_back_spec(s.drop_last())
    } else {
        s
    }
}

/// `s` with leading and trailing ASCII whitespace removed.
pub open spec fn trim_spec(s: Seq<u8>) -> Seq<u8> {
    trim_back_spec(trim_front_spec(s))
}

/// An interactive answer counts as assent exactly when it is `y` (byte 121)
/// or `Y` (byte 89) once surrounding whitespace is dropped; every other
/// input is a decline.
pub open spec fn affirmative_spec(s: Seq<u8>) -> bool {
    trim_spec(s) == seq![121u8] || trim_spec(s) == seq![89u8]
}

proof fn lemma_trim_front_at(s: Seq<u8>, k: int)
    requires
        0 <= k <= s.len(),
        forall|i: int| 0 <= i < k ==> is_ascii_space(s[i]),
        k == s.len() || !is_ascii_space(s[k]),
    ensures
        trim_front_spec(s) == s.subrange(k, s.len() as int),
    decreases k,
{
    if k == 0 {
        assert(s.subrange(0, s.len() as int) =~= s);
    } else {
        let t = s.drop_first();
        lemma_trim_front_at(t, k - 1);
        assert(t.subrange(k - 1, t.len() as int) =~= s.subrange(k, s.len() as int));
    }
}

proof fn lemma_trim_back_at(s: Seq<u8>, k: int)
    requires
        0 <= k <= s.len(),
        forall|i: int| k <= i < s.len() ==> is_ascii_space(s[i]),
        k == 0 || !is_ascii_space(s[k - 1]),
    ensures
        trim_back_spec(s) == s.subrange(0, k),
    decreases s.len() - k,
{
    if k == s.len() {
        assert(s.subrange(0, k) =~= s);
    } else {
        let t = s.drop_last();
        lemma_trim_back_at(t, k);
        assert(t.subrange(0, k) =~= s.subrange(0, k));
    }
}

fn is_space_byte(b: u8) -> (r: bool)
    ensures
        r == is_ascii_space(b),
{
    b == 32 || b == 9 || b == 10 || b == 13
}

/// Removes leading and trailing ASCII whitespace from a line of bytes.
pub fn trim_ascii(s: &Vec<u8>) -> (r: Vec<u8>)
    ensures
        r@ == trim_spec(s@),
{
    let n = s.len();
    let mut start: usize = 0;
    while start < n && is_space_byte(s[start])
        invariant
            n == s@.len(),
            start <= n,
            forall|i: int| 0 <= i < start ==> is_ascii_space(s@[i]),
        decreases n - start,
    {
        start = start + 1;
    }
    proof {
        lemma_trim_front_at(s@, start as int);
    }
    let ghost front = s@.subrange(start as int, s@.len() as int);
    let mut end: usize = n;
    while end > start && is_space_byte(s[end - 1])
        invariant
            n == s@.len(),
            start <= end <= n,
            forall|i: int| end <= i < n ==> is_ascii_space(s@[i]),
        decreases end,
    {
        end = end - 1;
    }
    proof {
        assert(forall|i: int| end - start <= i < front.len() ==> is_ascii_space(front[i]));
        lemma_trim_back_at(front, end - start);
        assert(front.subrange(0, end - start) =~= s@.subrange(start as int, end as int));
    }
    let mut r: Vec<u8> = Vec::new();
    let mut i: usize = start;
    while i < end
        invariant
            start <= i <= end <= n,
            n == s@.len(),
            r@ =~= s@.subrange(start as int, i as int),
        decreases end - i,
    {
        r.push(s[i]);
        i = i + 1;
        proof {
            assert(r@ =~= s@.subrange(start as int, i as int));
        }
    }
    proof {
        assert(r@ =~= s@.subrange(start as int, end as int));
    }
    r
}

/// Decides whether an interactive answer is an explicit `y`/`Y` assent;
/// anything else, including an empty line, is a decline.
pub fn is_affirmative(line: &Vec<u8>) -> (r: bool)
    ensures
        r == affirmative_spec(line@),
{
    let t = trim_ascii(line);
    let r = t.len() == 1 && (t[0] == 121 || t[0] == 89);
    proof {
        if r {
            if t@[0] == 121u8 {
                assert(t@ =~= seq![121u8]);
            } else {
                assert(t@ =~= seq![89u8]);
            }
        } else {
            assert(t@ != seq![121u8] && t@ != seq![89u8]) by {
                if t@.len() == 1 {
                    assert(t@[0] != 121u8 && t@[0] != 89u8);
                }
            }
        }
    }
    r
}

/// Compares two byte vectors for equality of their contents.
pub fn bytes_eq(a: &Vec<u8>, b: &Vec<u8>) -> (r: bool)
    ensures
        r == (a@ == b@),
{
    if a.len() != b.len() {
        return false;
    }
    let n = a.len();
    let mut i: usize = 0;
    while i < n
        invariant
            n == a@.len(),
            n == b@.len(),
            i <= n,
            forall|j: int| 0 <= j < i ==> a@[j] == b@[j],
        decreases n - i,
    {
        if a[i] != b[i] {
            return false;
        }
        i = i + 1;
    }
    proof {
        assert(a@ =~= b@);
    }
    true
}

/// Copies a byte vector; the result holds exactly the same bytes.
pub fn copy_bytes(s: &Vec<u8>) -> (r: Vec<u8>)
    ensures
        r@ == s@,
{
    let n = s.len();
    let mut r: Vec<u8> = Vec::new();
    let mut i: usize = 0;
    while i < n
        invariant
            n == s@.len(),
            i <= n,
            r@ =~= s@.subrange(0, i as int),
        decreases n - i,
    {
        r.push(s[i]);
        i = i + 1;
        proof {
            assert(r@ =~= s@.subrange(0, i as int));
        }
    }
    proof {
        assert(r@ =~= s@);
    }
    r
}

} // verus!
