//! The registry of managed projects: an ordered sequence of records, one per
//! adopted or created directory, persisted as a single document under the
//! user's home directory.
//!
//! The driver owns the document itself (reading, decoding, encoding and
//! writing it); this module owns what the document means: a missing or
//! malformed document is an empty registry, appending never deduplicates,
//! and pruning removes exactly the records whose directory is gone while
//! keeping the order of the rest.

use vstd::prelude::*;
use crate::text::bytes_eq;
use crate::text::copy_bytes;

verus! {

/// One managed project: a display name and the canonical absolute path of
/// its directory, both as raw bytes. At most one record per path is the
/// intended shape, but appending does not enforce it: duplicate paths are a
/// documented limitation of the store, not silently merged.
#[derive(Debug, PartialEq, Eq)]
pub struct ProjectRecord {
    pub name: Vec<u8>,
    pub path: Vec<u8>,
}

/// The mathematical content of a record: its two byte sequences.
#[verifier::ext_equal]
pub ghost struct RecordModel {
    pub name: Seq<u8>,
    pub path: Seq<u8>,
}

impl View for ProjectRecord {
    type V = RecordModel;

    open spec fn view(&self) -> RecordModel {
        RecordModel { name: self.name@, path: self.path@ }
    }
}

/// The registry a sequence of records stands for.
pub open spec fn models(rs: Seq<ProjectRecord>) -> Seq<RecordModel> {
    rs.map_values(|r: ProjectRecord| r@)
}

/// Interprets the decoded backing document: a document that was absent,
/// unreadable or malformed arrives as `None` and yields the empty registry;
/// loading never fails.
pub fn load_or_empty(doc: Option<Vec<ProjectRecord>>) -> (r: Vec<ProjectRecord>)
    ensures
        doc is Some ==> r == doc.unwrap(),
        doc is None ==> r@ == Seq::<ProjectRecord>::empty(),
{
    match doc {
        Some(v) => v,
        None => Vec::new(),
    }
}

/// Appends a record to the registry. Nothing is deduplicated: a second
/// record with an already-present path is kept as the caller handed it in.
pub fn add_record(records: &mut Vec<ProjectRecord>, record: ProjectRecord)
    ensures
        final(records)@ == old(records)@.push(record),
{
    records.push(record);
}

/// The records that survive a prune: those whose flag says their path still
/// exists, in their original order.
pub open spec fn prune_kept(rs: Seq<RecordModel>, alive: Seq<bool>) -> Seq<RecordModel>
    decreases rs.len(),
{
    if rs.len() == 0 {
        Seq::empty()
    } else {
        let rest = prune_kept(rs.drop_first(), alive.drop_first());
        if alive.len() > 0 && alive[0] {
            seq![rs[0]] + rest
        } else {
            rest
        }
    }
}

/// The names of the records a prune removes, in their original order.
pub open spec fn prune_removed(rs: Seq<RecordModel>, alive: Seq<bool>) -> Seq<Seq<u8>>
    decreases rs.len(),
{
    if rs.len() == 0 {
        Seq::empty()
    } else {
        let rest = prune_removed(rs.drop_first(), alive.drop_first());
        if alive.len() > 0 && alive[0] {
            rest
        } else {
            seq![rs[0].name] + rest
        }
    }
}

proof fn lemma_prune_push(rs: Seq<RecordModel>, alive: Seq<bool>, r: RecordModel, b: bool)
    requires
        rs.len() == alive.len(),
    ensures
        prune_kept(rs.push(r), alive.push(b)) == prune_kept(rs, alive) + (if b {
            seq![r]
        } else {
            Seq::<RecordModel>::empty()
        }),
        prune_removed(rs.push(r), alive.push(b)) == prune_removed(rs, alive) + (if b {
            Seq::<Seq<u8>>::empty()
        } else {
            seq![r.name]
        }),
    decreases rs.len(),
{
    if rs.len() == 0 {
        assert(rs.push(r).drop_first() =~= Seq::<RecordModel>::empty());
        assert(alive.push(b).drop_first() =~= Seq::<bool>::empty());
        assert(prune_kept(Seq::<RecordModel>::empty(), Seq::<bool>::empty())
            == Seq::<RecordModel>::empty());
        assert(prune_removed(Seq::<RecordModel>::empty(), Seq::<bool>::empty())
            == Seq::<Seq<u8>>::empty());
        assert(rs.push(r)[0] == r);
        assert(alive.push(b)[0] == b);
        if b {
            assert(prune_kept(rs.push(r), alive.push(b)) == seq![r]
                + Seq::<RecordModel>::empty());
            assert(prune_kept(rs.push(r), alive.push(b)) =~= prune_kept(rs, alive) + seq![r]);
            assert(prune_removed(rs.push(r), alive.push(b)) =~= prune_removed(rs, alive)
                + Seq::<Seq<u8>>::empty());
        } else {
            assert(prune_kept(rs.push(r), alive.push(b)) =~= prune_kept(rs, alive)
                + Seq::<RecordModel>::empty());
            assert(prune_removed(rs.push(r), alive.push(b)) == seq![r.name]
                + Seq::<Seq<u8>>::empty());
            assert(prune_removed(rs.push(r), alive.push(b)) =~= prune_removed(rs, alive)
                + seq![r.name]);
        }
    } else {
        assert(rs.push(r).drop_first() =~= rs.drop_first().push(r));
        assert(alive.push(b).drop_first() =~= alive.drop_first().push(b));
        lemma_prune_push(rs.drop_first(), alive.drop_first(), r, b);
        assert(rs.push(r)[0] == rs[0]);
        assert(alive.push(b)[0] == alive[0]);
        if alive[0] {
            assert(seq![rs[0]] + (prune_kept(rs.drop_first(), alive.drop_first()) + (if b {
                seq![r]
            } else {
                Seq::<RecordModel>::empty()
            })) =~= prune_kept(rs, alive) + (if b {
                seq![r]
            } else {
                Seq::<RecordModel>::empty()
            }));
        } else {
            assert(seq![rs[0].name] + (prune_removed(rs.drop_first(), alive.drop_first()) + (if b {
                Seq::<Seq<u8>>::empty()
            } else {
                seq![r.name]
            })) =~= prune_removed(rs, alive) + (if b {
                Seq::<Seq<u8>>::empty()
            } else {
                seq![r.name]
            }));
        }
    }
}

/// When every flag is true, pruning keeps everything and removes nothing.
pub proof fn lemma_prune_all_alive(rs: Seq<RecordModel>, alive: Seq<bool>)
    requires
        rs.len() == alive.len(),
        forall|i: int| 0 <= i < alive.len() ==> alive[i],
    ensures
        prune_kept(rs, alive) == rs,
        prune_removed(rs, alive) == Seq::<Seq<u8>>::empty(),
    decreases rs.len(),
{
    if rs.len() > 0 {
        lemma_prune_all_alive(rs.drop_first(), alive.drop_first());
        assert(seq![rs[0]] + rs.drop_first() =~= rs);
    }
}

/// Law: pruning is idempotent. Every record a prune keeps was kept because
/// its path existed, so a second pass over the survivors, against the same
/// unchanged filesystem, finds every path present, keeps the sequence as it
/// is and removes nothing.
pub proof fn lemma_prune_idempotent(rs: Seq<RecordModel>, alive: Seq<bool>)
    requires
        rs.len() == alive.len(),
    ensures
        ({
            let kept = prune_kept(rs, alive);
            let again = Seq::new(kept.len(), |i: int| true);
            prune_kept(kept, again) == kept && prune_removed(kept, again) == Seq::<Seq<u8>>::empty()
        }),
{
    let kept = prune_kept(rs, alive);
    let again = Seq::new(kept.len(), |i: int| true);
    lemma_prune_all_alive(kept, again);
}

/// The positions whose flag is true, in increasing order.
pub open spec fn surviving_indices(alive: Seq<bool>) -> Seq<int>
    decreases alive.len(),
{
    if alive.len() == 0 {
        Seq::empty()
    } else {
        let rest = surviving_indices(alive.drop_first()).map_values(|i: int| i + 1);
        if alive[0] {
            seq![0] + rest
        } else {
            rest
        }
    }
}

/// Law: a prune removes exactly the records whose path no longer exists and
/// preserves the order of the rest. The kept sequence reads off the records
/// at the true-flagged positions, taken in strictly increasing order, and
/// every true-flagged position is represented.
pub proof fn lemma_prune_exact(rs: Seq<RecordModel>, alive: Seq<bool>)
    requires
        rs.len() == alive.len(),
    ensures
        ({
            let idx = surviving_indices(alive);
            let kept = prune_kept(rs, alive);
            &&& kept.len() == idx.len()
            &&& forall|k: int| 0 <= k < idx.len() ==> 0 <= #[trigger] idx[k] < alive.len()
                && alive[idx[k]]
            &&& forall|k: int, l: int| 0 <= k < l < idx.len() ==> idx[k] < idx[l]
            &&& forall|k: int| 0 <= k < idx.len() ==> #[trigger] kept[k] == rs[idx[k]]
            &&& forall|i: int| 0 <= i < alive.len() && alive[i] ==> idx.contains(i)
        }),
    decreases rs.len(),
{
    let idx = surviving_indices(alive);
    let kept = prune_kept(rs, alive);
    if rs.len() == 0 {
    } else {
        lemma_prune_exact(rs.drop_first(), alive.drop_first());
        let tidx = surviving_indices(alive.drop_first());
        let tkept = prune_kept(rs.drop_first(), alive.drop_first());
        let rest = tidx.map_values(|i: int| i + 1);
        assert(rest.len() == tidx.len());
        assert(forall|k: int| 0 <= k < rest.len() ==> #[trigger] rest[k] == tidx[k] + 1);
        assert forall|i: int| 0 <= i < alive.len() && alive[i] implies idx.contains(i) by {
            if i == 0 {
                assert(alive[0]);
                assert(idx[0] == 0);
            } else {
                assert(alive.drop_first()[i - 1]);
                assert(tidx.contains(i - 1));
                let k = choose|k: int| 0 <= k < tidx.len() && tidx[k] == i - 1;
                assert(rest[k] == i);
                if alive[0] {
                    assert(idx[k + 1] == i);
                } else {
                    assert(idx[k] == i);
                }
            }
        }
        assert forall|k: int| 0 <= k < idx.len() implies 0 <= #[trigger] idx[k] < alive.len()
            && alive[idx[k]] && kept[k] == rs[idx[k]] by {
            if alive[0] {
                if k == 0 {
                    assert(idx[0] == 0);
                    assert(kept[0] == rs[0]);
                } else {
                    assert(idx[k] == rest[k - 1]);
                    assert(kept[k] == tkept[k - 1]);
                    assert(tkept[k - 1] == rs.drop_first()[tidx[k - 1]]);
                }
            } else {
                assert(idx[k] == rest[k]);
                assert(kept[k] == tkept[k]);
                assert(tkept[k] == rs.drop_first()[tidx[k]]);
            }
        }
    }
}

fn clone_record(r: &ProjectRecord) -> (c: ProjectRecord)
    ensures
        c@ == r@,
{
    let c = ProjectRecord { name: copy_bytes(&r.name), path: copy_bytes(&r.path) };
    proof {
        assert(c@ =~= r@);
    }
    c
}

/// Removes exactly the records whose flag reports the path missing and
/// returns the kept records, in order, together with the removed names for
/// display. The flags come from the caller's directory checks, one per
/// record; pruning itself runs only after the user confirmed it.
pub fn prune_missing(records: &Vec<ProjectRecord>, alive: &Vec<bool>) -> (r: (
    Vec<ProjectRecord>,
    Vec<Vec<u8>>,
))
    requires
        records@.len() == alive@.len(),
    ensures
        models(r.0@) == prune_kept(models(records@), alive@),
        r.1@.map_values(|n: Vec<u8>| n@) == prune_removed(models(records@), alive@),
{
    let ghost all = models(records@);
    let n = records.len();
    let mut kept: Vec<ProjectRecord> = Vec::new();
    let mut removed: Vec<Vec<u8>> = Vec::new();
    let mut i: usize = 0;
    while i < n
        invariant
            n == records@.len(),
            n == alive@.len(),
            i <= n,
            all == models(records@),
            models(kept@) == prune_kept(all.take(i as int), alive@.take(i as int)),
            removed@.map_values(|nm: Vec<u8>| nm@) == prune_removed(
                all.take(i as int),
                alive@.take(i as int),
            ),
        decreases n - i,
    {
        proof {
            assert(all.take(i + 1) =~= all.take(i as int).push(all[i as int]));
            assert(alive@.take(i + 1) =~= alive@.take(i as int).push(alive@[i as int]));
            lemma_prune_push(all.take(i as int), alive@.take(i as int), all[i as int], alive@[i as int]);
        }
        if alive[i] {
            let c = clone_record(&records[i]);
            proof {
                assert(models(kept@.push(c)) =~= models(kept@).push(all[i as int]));
                assert(prune_kept(all.take(i as int), alive@.take(i as int)) + seq![all[i as int]]
                    =~= prune_kept(all.take(i as int), alive@.take(i as int)).push(all[i as int]));
                assert(prune_removed(all.take(i as int), alive@.take(i as int))
                    + Seq::<Seq<u8>>::empty() =~= prune_removed(
                    all.take(i as int),
                    alive@.take(i as int),
                ));
            }
            kept.push(c);
        } else {
            let nm = copy_bytes(&records[i].name);
            proof {
                assert(removed@.push(nm).map_values(|x: Vec<u8>| x@) =~= removed@.map_values(
                    |x: Vec<u8>| x@,
                ).push(all[i as int].name));
                assert(prune_removed(all.take(i as int), alive@.take(i as int))
                    + seq![all[i as int].name] =~= prune_removed(
                    all.take(i as int),
                    alive@.take(i as int),
                ).push(all[i as int].name));
                assert(prune_kept(all.take(i as int), alive@.take(i as int))
                    + Seq::<RecordModel>::empty() =~= prune_kept(
                    all.take(i as int),
                    alive@.take(i as int),
                ));
            }
            removed.push(nm);
        }
        i = i + 1;
    }
    proof {
        assert(all.take(n as int) =~= all);
        assert(alive@.take(n as int) =~= alive@);
    }
    (kept, removed)
}

/// Decides whether any of the given canonical paths equals the current one:
/// a managed directory must be found in the registry when the registry is
/// non-empty.
pub fn contains_path(paths: &Vec<Vec<u8>>, target: &Vec<u8>) -> (r: bool)
    ensures
        r == (exists|i: int| 0 <= i < paths@.len() && paths@[i]@ == target@),
{
    let n = paths.len();
    let mut i: usize = 0;
    while i < n
        invariant
            n == paths@.len(),
            i <= n,
            forall|j: int| 0 <= j < i ==> paths@[j]@ != target@,
        decreases n - i,
    {
        if bytes_eq(&paths[i], target) {
            return true;
        }
        i = i + 1;
    }
    false
}

} // verus!
