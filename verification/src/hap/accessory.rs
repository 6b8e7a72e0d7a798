//! Checks made while an accessory is assembled from its stored services: instance
//! ids must be unique, required characteristics must be present, and ids of the
//! stored services are numbered after those of the information service.
use vstd::prelude::*;

use crate::text::{decimal_text, push_decimal};

verus! {

/// The instance ids of one service: its own id and those of its characteristics.
#[derive(Debug, Clone)]
pub struct ServiceIds {
    pub sid: u64,
    pub cids: Vec<u64>,
}

/// An instance id that occurs twice in an accessory.
#[derive(Debug, Clone, Copy, PartialEq, Eq, Structural)]
pub enum IdConflict {
    /// A service id repeats an id seen before it.
    Service(u64),
    /// A characteristic id repeats an id seen before it.
    Characteristic(u64),
}

impl IdConflict {
    /// The message that reports this conflict in the accessory named `accessory`.
    pub fn message(&self, accessory: &str) -> (m: String)
        ensures
            m@ == match *self {
                IdConflict::Service(id) => "配件:"@ + accessory@ + ",服务id:"@ + decimal_text(
                    id as nat,
                ) + "重复"@,
                IdConflict::Characteristic(id) => "配件:"@ + accessory@ + ",特征id:"@
                    + decimal_text(id as nat) + "重复"@,
            },
    {
        let mut m = String::from_str("配件:");
        m.append(accessory);
        match self {
            IdConflict::Service(id) => {
                m.append(",服务id:");
                push_decimal(&mut m, *id);
            },
            IdConflict::Characteristic(id) => {
                m.append(",特征id:");
                push_decimal(&mut m, *id);
            },
        }
        m.append("重复");
        m
    }
}

/// The ids of one service in the order they are checked, each marked `true` for the
/// service id and `false` for a characteristic id.
pub open spec fn service_entries(s: ServiceIds) -> Seq<(u64, bool)> {
    seq![(s.sid, true)] + s.cids@.map_values(|c: u64| (c, false))
}

/// The ids of all services in the order they are checked.
pub open spec fn id_entries(services: Seq<ServiceIds>) -> Seq<(u64, bool)>
    decreases services.len(),
{
    if services.len() == 0 {
        Seq::empty()
    } else {
        id_entries(services.drop_last()) + service_entries(services.last())
    }
}

/// Entry `i` repeats the id of an entry before it.
pub open spec fn repeats_earlier(e: Seq<(u64, bool)>, i: int) -> bool {
    exists|j: int| 0 <= j < i && (#[trigger] e[j]).0 == e[i].0
}

/// The conflict that a repeated entry reports.
pub open spec fn conflict_of(entry: (u64, bool)) -> IdConflict {
    if entry.1 {
        IdConflict::Service(entry.0)
    } else {
        IdConflict::Characteristic(entry.0)
    }
}

/// `a` is a prefix of `b`.
pub open spec fn is_prefix<A>(a: Seq<A>, b: Seq<A>) -> bool {
    a.len() <= b.len() && forall|k: int| 0 <= k < a.len() ==> a[k] == b[k]
}

proof fn lemma_entries_prefix(s: Seq<ServiceIds>, i: int)
    requires
        0 <= i <= s.len(),
    ensures
        is_prefix(id_entries(s.take(i)), id_entries(s)),
    decreases s.len(),
{
    if i == s.len() {
        assert(s.take(i) =~= s);
    } else {
        lemma_entries_prefix(s.drop_last(), i);
        assert(s.drop_last().take(i) =~= s.take(i));
    }
}

proof fn lemma_entries_step(s: Seq<ServiceIds>, i: int)
    requires
        0 <= i < s.len(),
    ensures
        id_entries(s.take(i + 1)) == id_entries(s.take(i)) + service_entries(s[i]),
{
    assert(s.take(i + 1).drop_last() =~= s.take(i));
}

fn contains_id(ids: &Vec<u64>, x: u64) -> (found: bool)
    ensures
        found == ids@.contains(x),
{
    let mut i: usize = 0;
    while i < ids.len()
        invariant
            i <= ids@.len(),
            forall|j: int| 0 <= j < i ==> ids@[j] != x,
        decreases ids@.len() - i,
    {
        if ids[i] == x {
            assert(ids@[i as int] == x);
            return true;
        }
        i += 1;
    }
    false
}

/// Checks that no instance id of an accessory occurs twice. Service by service, the
/// service id and then each characteristic id is compared with every id before it;
/// the first one that repeats is reported.
pub fn check_ids(services: &Vec<ServiceIds>) -> (r: Result<(), IdConflict>)
    ensures
        r is Ok <==> forall|i: int|
            0 <= i < id_entries(services@).len() ==> !repeats_earlier(id_entries(services@), i),
        r matches Err(c) ==> exists|i: int|
            0 <= i < id_entries(services@).len() && repeats_earlier(id_entries(services@), i)
                && (forall|k: int| 0 <= k < i ==> !repeats_earlier(id_entries(services@), k))
                && c == conflict_of(id_entries(services@)[i]),
{
    let ghost all = id_entries(services@);
    let mut ids: Vec<u64> = Vec::new();
    let mut i: usize = 0;
    while i < services.len()
        invariant
            i <= services@.len(),
            all == id_entries(services@),
            ids@ == id_entries(services@.take(i as int)).map_values(|e: (u64, bool)| e.0),
            forall|k: int|
                0 <= k < id_entries(services@.take(i as int)).len() ==> !repeats_earlier(
                    id_entries(services@.take(i as int)),
                    k,
                ),
        decreases services@.len() - i,
    {
        let ghost before = id_entries(services@.take(i as int));
        proof {
            lemma_entries_step(services@, i as int);
            lemma_entries_prefix(services@, i as int + 1);
        }
        let ghost entries = service_entries(services@[i as int]);
        assert(is_prefix(before + entries, all));
        let sid = services[i].sid;
        if contains_id(&ids, sid) {
            proof {
                let p = before.len() as int;
                assert(all[p] == (sid, true));
                let j = choose|j: int| 0 <= j < ids@.len() && ids@[j] == sid;
                assert(all[j] == before[j]);
                assert(repeats_earlier(all, p));
                assert forall|k: int| 0 <= k < p implies !repeats_earlier(all, k) by {
                    assert(!repeats_earlier(before, k));
                    if repeats_earlier(all, k) {
                        let jj = choose|jj: int| 0 <= jj < k && (#[trigger] all[jj]).0 == all[k].0;
                        assert(before[jj] == all[jj]);
                        assert(before[k] == all[k]);
                    }
                }
            }
            return Err(IdConflict::Service(sid));
        }
        ids.push(sid);
        let ghost mut done = before + entries.take(1);
        proof {
            assert(ids@ =~= done.map_values(|e: (u64, bool)| e.0));
            assert forall|k: int| 0 <= k < done.len() implies !repeats_earlier(done, k) by {
                if k < before.len() {
                    assert(!repeats_earlier(before, k));
                    if repeats_earlier(done, k) {
                        let jj = choose|jj: int| 0 <= jj < k && (#[trigger] done[jj]).0 == done[k].0;
                        assert(before[jj] == done[jj]);
                    }
                } else {
                    if repeats_earlier(done, k) {
                        let jj = choose|jj: int| 0 <= jj < k && (#[trigger] done[jj]).0 == done[k].0;
                        assert(ids@[jj] == sid);
                    }
                }
            }
        }
        let cids = &services[i].cids;
        let mut j: usize = 0;
        while j < cids.len()
            invariant
                i < services@.len(),
                all == id_entries(services@),
                before == id_entries(services@.take(i as int)),
                j <= cids@.len(),
                cids@ == services@[i as int].cids@,
                entries == service_entries(services@[i as int]),
                entries.len() == cids@.len() + 1,
                is_prefix(before + entries, all),
                done == before + entries.take(1 + j),
                ids@ == done.map_values(|e: (u64, bool)| e.0),
                forall|k: int| 0 <= k < done.len() ==> !repeats_earlier(done, k),
            decreases cids@.len() - j,
        {
            let cid = cids[j];
            assert(entries[1 + j] == (cid, false));
            let ghost p = done.len() as int;
            assert(all[p] == (before + entries)[p]);
            if contains_id(&ids, cid) {
                proof {
                    assert(all[p] == (cid, false));
                    let q = choose|q: int| 0 <= q < ids@.len() && ids@[q] == cid;
                    assert(all[q] == (before + entries)[q]);
                    assert(all[q] == done[q]);
                    assert(repeats_earlier(all, p));
                    assert forall|k: int| 0 <= k < p implies !repeats_earlier(all, k) by {
                        assert(!repeats_earlier(done, k));
                        assert(all[k] == (before + entries)[k]);
                        assert(all[k] == done[k]);
                        if repeats_earlier(all, k) {
                            let jj = choose|jj: int| 0 <= jj < k && (#[trigger] all[jj]).0 == all[k].0;
                            assert(all[jj] == (before + entries)[jj]);
                            assert(all[jj] == done[jj]);
                        }
                    }
                }
                return Err(IdConflict::Characteristic(cid));
            }
            ids.push(cid);
            proof {
                let old_done = done;
                done = before + entries.take(1 + j + 1);
                assert(done =~= old_done.push((cid, false)));
                assert(ids@ =~= done.map_values(|e: (u64, bool)| e.0));
                assert forall|k: int| 0 <= k < done.len() implies !repeats_earlier(done, k) by {
                    if k < old_done.len() {
                        assert(!repeats_earlier(old_done, k));
                        if repeats_earlier(done, k) {
                            let jj = choose|jj: int| 0 <= jj < k && (#[trigger] done[jj]).0 == done[k].0;
                            assert(old_done[jj] == done[jj]);
                        }
                    } else {
                        if repeats_earlier(done, k) {
                            let jj = choose|jj: int| 0 <= jj < k && (#[trigger] done[jj]).0 == done[k].0;
                            assert(ids@[jj] == cid);
                        }
                    }
                }
            }
            j += 1;
        }
        proof {
            assert(entries.take(1 + j as int) =~= entries);
            assert(done =~= id_entries(services@.take(i as int + 1)));
        }
        i += 1;
    }
    proof {
        assert(services@.take(i as int) =~= services@);
    }
    Ok(())
}

/// Some present characteristic has type `t`.
pub open spec fn has_characteristic_type(present: Seq<String>, t: Seq<char>) -> bool {
    exists|j: int| 0 <= j < present.len() && (#[trigger] present[j])@ == t
}

/// The index of the first required characteristic type that no present
/// characteristic has, if there is one.
pub fn missing_required_characteristic(required: &Vec<String>, present: &Vec<String>) -> (r:
    Option<usize>)
    ensures
        r matches Some(i) ==> i < required@.len() && !has_characteristic_type(
            present@,
            required@[i as int]@,
        ) && (forall|k: int|
            0 <= k < i ==> has_characteristic_type(present@, (#[trigger] required@[k])@)),
        r is None ==> forall|k: int|
            0 <= k < required@.len() ==> has_characteristic_type(
                present@,
                (#[trigger] required@[k])@,
            ),
{
    let mut i: usize = 0;
    while i < required.len()
        invariant
            i <= required@.len(),
            forall|k: int|
                0 <= k < i ==> has_characteristic_type(present@, (#[trigger] required@[k])@),
        decreases required@.len() - i,
    {
        let mut found = false;
        let mut j: usize = 0;
        while j < present.len()
            invariant
                i < required@.len(),
                j <= present@.len(),
                forall|k: int|
                    0 <= k < i ==> has_characteristic_type(present@, (#[trigger] required@[k])@),
                found ==> has_characteristic_type(present@, required@[i as int]@),
                !found ==> forall|q: int| 0 <= q < j ==> (#[trigger] present@[q])@ != required@[i as int]@,
            decreases present@.len() - j,
        {
            if present[j] == required[i] {
                found = true;
            }
            j += 1;
        }
        if !found {
            return Some(i);
        }
        i += 1;
    }
    None
}

/// The id given to the first stored service of an accessory: one past the last id
/// of its information service, or 1 when that service has no ids.
pub fn first_service_id(information_ids: &Vec<u64>) -> (cid: u64)
    requires
        information_ids@.len() > 0 ==> information_ids@.last() < u64::MAX,
    ensures
        cid == (if information_ids@.len() > 0 {
            information_ids@.last() + 1
        } else {
            1
        }),
{
    if information_ids.len() > 0 {
        information_ids[information_ids.len() - 1] + 1
    } else {
        1
    }
}

/// The id given to the service after one whose base id is `cid` and which holds
/// `len` characteristics.
pub fn next_service_id(cid: u64, len: usize) -> (next: u64)
    requires
        cid + len + 1 <= u64::MAX,
    ensures
        next == cid + len + 1,
{
    cid + len as u64 + 1
}

/// An accessory whose ids are all distinct passes the id check, and one where some
/// id repeats fails it: the check rejects exactly the accessories with a repeated id.
pub proof fn lemma_check_ids_exact(e: Seq<(u64, bool)>)
    ensures
        (forall|i: int, j: int| 0 <= j < i < e.len() ==> e[j].0 != e[i].0) <==> (forall|i: int|
            0 <= i < e.len() ==> !repeats_earlier(e, i)),
{
    if forall|i: int| 0 <= i < e.len() ==> !repeats_earlier(e, i) {
        assert forall|i: int, j: int| 0 <= j < i < e.len() implies e[j].0 != e[i].0 by {
            assert(!repeats_earlier(e, i));
        }
    }
}

} // verus!
