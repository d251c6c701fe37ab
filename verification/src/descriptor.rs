//! The per-directory descriptor marker: a small document at the root of a
//! managed directory holding the project's name and canonical path. Its
//! presence is the sole signal that a directory is managed.
//!
//! The document reads
//!
//! ```text
//! [app]
//! name = "NAME"
//! path = "PATH"
//! ```
//!
//! Generation is exact. Extraction of the name is best-effort, as the
//! document on disk may have been edited by hand: the first LF-separated
//! line that begins `name = ` is taken, and the name is what stands between
//! the line's first quote and its second quote (or the line's end when a
//! closing quote is missing); a document without such a line or without any
//! quote on it yields nothing.

use vstd::prelude::*;

verus! {

/// `[app]`, a line feed, and `name = ` up to the opening quote.
pub open spec fn descriptor_prefix() -> Seq<u8> {
    seq![91u8, 97, 112, 112, 93, 10, 110, 97, 109, 101, 32, 61, 32, 34]
}

/// The closing quote, a line feed, and `path = ` up to the opening quote.
pub open spec fn descriptor_mid() -> Seq<u8> {
    seq![34u8, 10, 112, 97, 116, 104, 32, 61, 32, 34]
}

/// The closing quote and the final line feed.
pub open spec fn descriptor_suffix() -> Seq<u8> {
    seq![34u8, 10]
}

/// The full descriptor document for a project name and path.
pub open spec fn descriptor_bytes(name: Seq<u8>, path: Seq<u8>) -> Seq<u8> {
    descriptor_prefix() + name + descriptor_mid() + path + descriptor_suffix()
}

/// `name = `, the line prefix the reader looks for.
pub open spec fn name_key() -> Seq<u8> {
    seq![110u8, 97, 109, 101, 32, 61, 32]
}

/// Whether a `name = ` line begins at position `i`: the position opens a
/// line (the document start or the byte after a line feed) and the key
/// follows in full.
pub open spec fn name_line_at(s: Seq<u8>, i: int) -> bool {
    &&& 0 <= i
    &&& i + name_key().len() <= s.len()
    &&& (i == 0 || s[i - 1] == 10)
    &&& s.subrange(i, i + name_key().len()) == name_key()
}

/// The first position at or after `k` where a `name = ` line begins.
pub open spec fn find_name_line(s: Seq<u8>, k: int) -> Option<int>
    decreases s.len() - k,
{
    if k < 0 || k >= s.len() {
        None
    } else if name_line_at(s, k) {
        Some(k)
    } else {
        find_name_line(s, k + 1)
    }
}

/// The first position in `[k, end)` holding byte `b`.
pub open spec fn find_byte(s: Seq<u8>, b: u8, k: int, end: int) -> Option<int>
    decreases end - k,
{
    if k < 0 || k >= end || end > s.len() {
        None
    } else if s[k] == b {
        Some(k)
    } else {
        find_byte(s, b, k + 1, end)
    }
}

/// Where the line beginning at `i` ends: the next line feed, or the end of
/// the document.
pub open spec fn line_end(s: Seq<u8>, i: int) -> int {
    match find_byte(s, 10, i, s.len() as int) {
        Some(j) => j,
        None => s.len() as int,
    }
}

/// The name a descriptor document yields, if any: on the first `name = `
/// line, the bytes between the first quote and the second quote, or up to
/// the line's end when no second quote exists.
pub open spec fn read_name_spec(s: Seq<u8>) -> Option<Seq<u8>> {
    match find_name_line(s, 0) {
        None => None,
        Some(i) => {
            let end = line_end(s, i);
            match find_byte(s, 34, i, end) {
                None => None,
                Some(q1) => {
                    let stop = match find_byte(s, 34, q1 + 1, end) {
                        Some(q2) => q2,
                        None => end,
                    };
                    Some(s.subrange(q1 + 1, stop))
                },
            }
        },
    }
}

proof fn lemma_find_byte_found(s: Seq<u8>, b: u8, k: int, end: int, m: int)
    requires
        0 <= k <= m < end <= s.len(),
        forall|j: int| k <= j < m ==> s[j] != b,
        s[m] == b,
    ensures
        find_byte(s, b, k, end) == Some(m),
    decreases m - k,
{
    if k < m {
        lemma_find_byte_found(s, b, k + 1, end, m);
    }
}

proof fn lemma_find_byte_none(s: Seq<u8>, b: u8, k: int, end: int)
    requires
        end <= s.len(),
        forall|j: int| k <= j < end ==> s[j] != b,
    ensures
        find_byte(s, b, k, end) is None,
    decreases end - k,
{
    if 0 <= k && k < end {
        lemma_find_byte_none(s, b, k + 1, end);
    }
}

proof fn lemma_find_name_line_found(s: Seq<u8>, k: int, m: int)
    requires
        0 <= k <= m < s.len(),
        forall|j: int| k <= j < m ==> !name_line_at(s, j),
        name_line_at(s, m),
    ensures
        find_name_line(s, k) == Some(m),
    decreases m - k,
{
    if k < m {
        lemma_find_name_line_found(s, k + 1, m);
    }
}

proof fn lemma_find_name_line_none(s: Seq<u8>, k: int)
    requires
        forall|j: int| k <= j < s.len() ==> !name_line_at(s, j),
    ensures
        find_name_line(s, k) is None,
    decreases s.len() - k,
{
    if 0 <= k && k < s.len() {
        lemma_find_name_line_none(s, k + 1);
    }
}

fn append_bytes(dst: &mut Vec<u8>, src: &Vec<u8>)
    ensures
        final(dst)@ == old(dst)@ + src@,
{
    let n = src.len();
    let mut i: usize = 0;
    while i < n
        invariant
            n == src@.len(),
            i <= n,
            dst@ =~= old(dst)@ + src@.subrange(0, i as int),
        decreases n - i,
    {
        dst.push(src[i]);
        i = i + 1;
        proof {
            assert(dst@ =~= old(dst)@ + src@.subrange(0, i as int));
        }
    }
    proof {
        assert(dst@ =~= old(dst)@ + src@);
    }
}

fn prefix_vec() -> (r: Vec<u8>)
    ensures
        r@ == descriptor_prefix(),
{
    let mut r: Vec<u8> = Vec::new();
    r.push(91);
    r.push(97);
    r.push(112);
    r.push(112);
    r.push(93);
    r.push(10);
    r.push(110);
    r.push(97);
    r.push(109);
    r.push(101);
    r.push(32);
    r.push(61);
    r.push(32);
    r.push(34);
    proof {
        assert(r@ =~= descriptor_prefix());
    }
    r
}

fn mid_vec() -> (r: Vec<u8>)
    ensures
        r@ == descriptor_mid(),
{
    let mut r: Vec<u8> = Vec::new();
    r.push(34);
    r.push(10);
    r.push(112);
    r.push(97);
    r.push(116);
    r.push(104);
    r.push(32);
    r.push(61);
    r.push(32);
    r.push(34);
    proof {
        assert(r@ =~= descriptor_mid());
    }
    r
}

/// Serializes the descriptor document for a project name and path.
pub fn descriptor_content(name: &Vec<u8>, path: &Vec<u8>) -> (r: Vec<u8>)
    ensures
        r@ == descriptor_bytes(name@, path@),
{
    let mut r = prefix_vec();
    append_bytes(&mut r, name);
    let mid = mid_vec();
    append_bytes(&mut r, &mid);
    append_bytes(&mut r, path);
    r.push(34);
    r.push(10);
    proof {
        assert(r@ =~= descriptor_bytes(name@, path@));
    }
    r
}

fn name_line_at_exec(s: &Vec<u8>, i: usize) -> (r: bool)
    requires
        i < s@.len(),
    ensures
        r == name_line_at(s@, i as int),
{
    if s.len() < 7 || i > s.len() - 7 {
        assert(i + name_key().len() > s@.len());
        return false;
    }
    if !(i == 0 || s[i - 1] == 10) {
        return false;
    }
    let r = s[i] == 110 && s[i + 1] == 97 && s[i + 2] == 109 && s[i + 3] == 101 && s[i + 4] == 32
        && s[i + 5] == 61 && s[i + 6] == 32;
    proof {
        if r {
            assert(s@.subrange(i as int, i + name_key().len()) =~= name_key());
        } else {
            if s@.subrange(i as int, i + name_key().len()) == name_key() {
                assert(s@[i as int] == name_key()[0]);
                assert(s@[i + 1] == name_key()[1]);
                assert(s@[i + 2] == name_key()[2]);
                assert(s@[i + 3] == name_key()[3]);
                assert(s@[i + 4] == name_key()[4]);
                assert(s@[i + 5] == name_key()[5]);
                assert(s@[i + 6] == name_key()[6]);
            }
        }
    }
    r
}

fn find_name_line_exec(s: &Vec<u8>) -> (r: Option<usize>)
    ensures
        match r {
            Some(m) => find_name_line(s@, 0) == Some(m as int) && m < s@.len(),
            None => find_name_line(s@, 0) is None,
        },
{
    let n = s.len();
    let mut i: usize = 0;
    while i < n
        invariant
            i <= n,
            n == s@.len(),
            forall|j: int| 0 <= j < i ==> !name_line_at(s@, j),
        decreases n - i,
    {
        if name_line_at_exec(s, i) {
            proof {
                lemma_find_name_line_found(s@, 0, i as int);
            }
            return Some(i);
        }
        i = i + 1;
    }
    proof {
        lemma_find_name_line_none(s@, 0);
    }
    None
}

fn find_byte_exec(s: &Vec<u8>, b: u8, from: usize, end: usize) -> (r: Option<usize>)
    requires
        from <= end,
        end <= s@.len(),
    ensures
        match r {
            Some(m) => find_byte(s@, b, from as int, end as int) == Some(m as int),
            None => find_byte(s@, b, from as int, end as int) is None,
        },
{
    let mut i = from;
    while i < end
        invariant
            from <= i <= end,
            end <= s@.len(),
            forall|j: int| from <= j < i ==> s@[j] != b,
        decreases end - i,
    {
        if s[i] == b {
            proof {
                lemma_find_byte_found(s@, b, from as int, end as int, i as int);
            }
            return Some(i);
        }
        i = i + 1;
    }
    proof {
        lemma_find_byte_none(s@, b, from as int, end as int);
    }
    None
}

fn copy_range(s: &Vec<u8>, from: usize, to: usize) -> (r: Vec<u8>)
    requires
        from <= to,
        to <= s@.len(),
    ensures
        r@ == s@.subrange(from as int, to as int),
{
    let mut r: Vec<u8> = Vec::new();
    let mut i = from;
    while i < to
        invariant
            from <= i <= to,
            to <= s@.len(),
            r@ =~= s@.subrange(from as int, i as int),
        decreases to - i,
    {
        r.push(s[i]);
        i = i + 1;
        proof {
            assert(r@ =~= s@.subrange(from as int, i as int));
        }
    }
    proof {
        assert(r@ =~= s@.subrange(from as int, to as int));
    }
    r
}

/// Best-effort extraction of the project name from a descriptor document;
/// yields nothing when no `name = ` line or no quote on it is found.
pub fn read_name(content: &Vec<u8>) -> (r: Option<Vec<u8>>)
    ensures
        ({
            let sp = read_name_spec(content@);
            match r {
                Some(v) => sp == Some(v@),
                None => sp is None,
            }
        }),
{
    let n = content.len();
    match find_name_line_exec(content) {
        None => None,
        Some(start) => {
            let end = match find_byte_exec(content, 10, start, n) {
                Some(j) => j,
                None => n,
            };
            assert(end == line_end(content@, start as int));
            assert(start <= end && end <= n) by {
                if find_byte(content@, 10, start as int, n as int) is Some {
                    lemma_find_byte_in_range(content@, 10, start as int, n as int);
                }
            }
            match find_byte_exec(content, 34, start, end) {
                None => None,
                Some(q1) => {
                    proof {
                        lemma_find_byte_in_range(content@, 34, start as int, end as int);
                    }
                    let stop = match find_byte_exec(content, 34, q1 + 1, end) {
                        Some(q2) => q2,
                        None => end,
                    };
                    proof {
                        if find_byte(content@, 34, q1 + 1 as int, end as int) is Some {
                            lemma_find_byte_in_range(content@, 34, q1 + 1 as int, end as int);
                        }
                    }
                    Some(copy_range(content, q1 + 1, stop))
                },
            }
        },
    }
}

proof fn lemma_find_byte_in_range(s: Seq<u8>, b: u8, k: int, end: int)
    requires
        find_byte(s, b, k, end) is Some,
    ensures
        k <= find_byte(s, b, k, end).unwrap() < end,
        end <= s.len(),
    decreases end - k,
{
    if !(k < 0 || k >= end || end > s.len()) {
        if s[k] != b {
            lemma_find_byte_in_range(s, b, k + 1, end);
        }
    }
}

/// Law: writing a descriptor and reading it back yields the name it was
/// written with, for every name free of quotes and line feeds; the path
/// does not interfere, whatever it holds.
pub proof fn lemma_descriptor_round_trip(name: Seq<u8>, path: Seq<u8>)
    requires
        forall|i: int| 0 <= i < name.len() ==> name[i] != 34 && name[i] != 10,
    ensures
        read_name_spec(descriptor_bytes(name, path)) == Some(name),
{
    let s = descriptor_bytes(name, path);
    let pl = descriptor_prefix().len() as int;
    let nl = name.len() as int;
    assert(pl == 14);
    assert forall|j: int| 0 <= j < 14 implies s[j] == descriptor_prefix()[j] by {}
    assert forall|j: int| 0 <= j < nl implies s[14 + j] == name[j] by {}
    assert forall|j: int| 0 <= j < 10 implies s[14 + nl + j] == descriptor_mid()[j] by {}
    // the `name = ` line starts at position 6, right after `[app]` and its
    // line feed, and no earlier position qualifies
    assert(name_line_at(s, 6)) by {
        assert(s[5] == 10);
        assert(s.subrange(6, 13) =~= name_key());
    }
    assert forall|j: int| 0 <= j < 6 implies !name_line_at(s, j) by {
        if j == 0 {
            if s.subrange(0, 7) == name_key() {
                assert(s.subrange(0, 7)[0] == 91);
                assert(name_key()[0] == 110);
            }
        } else {
            assert(s[j - 1] != 10);
        }
    }
    lemma_find_name_line_found(s, 0, 6);
    // the line runs to the line feed opening the `path = ` line
    assert(s[14 + nl + 1] == 10);
    assert forall|j: int| 6 <= j < 14 + nl + 1 implies s[j] != 10 by {
        if j < 14 {
            assert(s[j] == descriptor_prefix()[j]);
        } else if j < 14 + nl {
            assert(s[j] == name[j - 14]);
        } else {
            assert(s[j] == descriptor_mid()[0]);
        }
    }
    lemma_find_byte_found(s, 10, 6, s.len() as int, 14 + nl + 1);
    let end = line_end(s, 6);
    assert(end == 14 + nl + 1);
    // the first quote is the one opening the name, the second the one
    // closing it
    assert(s[13] == 34);
    assert forall|j: int| 6 <= j < 13 implies s[j] != 34 by {
        assert(s[j] == descriptor_prefix()[j]);
    }
    lemma_find_byte_found(s, 34, 6, end, 13);
    assert(s[14 + nl] == 34);
    assert forall|j: int| 14 <= j < 14 + nl implies s[j] != 34 by {
        assert(s[j] == name[j - 14]);
    }
    lemma_find_byte_found(s, 34, 14, end, 14 + nl);
    assert(s.subrange(14, 14 + nl) =~= name);
}

} // verus!
