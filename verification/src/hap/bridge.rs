//! Rules on HomeKit bridges: when one may be added or removed, and what is
//! reported of a stored bridge.
use vstd::prelude::*;
use crate::hap::setup_uri::{gen_homekit_setup_uri_default, setup_uri_spec};

verus! {

/// Decides whether a bridge may be added, given how many stored bridges already
/// have its name and how many already have its setup code: the name is checked
/// first, then the setup code.
pub fn add_check(name_count: u64, pin_code_count: u64) -> (r: Result<(), &'static str>)
    ensures
        name_count > 0 ==> (r matches Err(m) && m@ == "该名称桥接器已存在"@),
        name_count == 0 && pin_code_count > 0 ==> (r matches Err(m) && m@
            == "该pinCode桥接器已存在"@),
        name_count == 0 && pin_code_count == 0 ==> r is Ok,
{
    if name_count > 0 {
        return Err("该名称桥接器已存在");
    }
    if pin_code_count > 0 {
        return Err("该pinCode桥接器已存在");
    }
    Ok(())
}

/// Decides whether a bridge may be removed: only once no accessory is left under it.
pub fn delete_check(accessory_count: u64) -> (r: Result<(), &'static str>)
    ensures
        accessory_count > 0 ==> (r matches Err(m) && m@ == "请先删除桥接器下的配件"@),
        accessory_count == 0 ==> r is Ok,
{
    if accessory_count > 0 {
        Err("请先删除桥接器下的配件")
    } else {
        Ok(())
    }
}

/// A stored HomeKit bridge. `status_not_paired` tells whether its stored
/// pairing status is "not paired".
#[derive(Debug)]
pub struct HapBridgeModel {
    pub bridge_id: i64,
    pub name: String,
    pub pin_code: i64,
    pub category: u64,
    pub setup_id: String,
    pub status_not_paired: bool,
    pub disabled: bool,
}

/// A listed bridge: its stored row, its setup URI, the addresses of the peers
/// connected to its server, whether its server runs, how many accessories it
/// holds, and whether it is paired.
#[derive(Debug)]
pub struct HapBridgeResult {
    pub model: HapBridgeModel,
    pub setup_uri: String,
    pub peers: Vec<String>,
    pub running: bool,
    pub accessory_count: u64,
    pub is_paired: bool,
}

/// How many entries of `ids` equal `id`.
pub open spec fn count_of(ids: Seq<i64>, id: i64) -> nat
    decreases ids.len(),
{
    if ids.len() == 0 {
        0
    } else {
        count_of(ids.drop_last(), id) + (if ids.last() == id {
            1nat
        } else {
            0nat
        })
    }
}

proof fn lemma_count_le(ids: Seq<i64>, id: i64)
    ensures
        count_of(ids, id) <= ids.len(),
    decreases ids.len(),
{
    if ids.len() > 0 {
        lemma_count_le(ids.drop_last(), id);
    }
}

/// The report of a stored bridge. `running_bridges` are the ids of the bridges
/// whose server runs; `peers` the peer addresses of this bridge's server (`None`
/// when it has no server); `accessory_bridge_ids` the bridge id of every stored
/// accessory. The setup URI is that of the bridge's setup code (taken as an
/// unsigned number bit for bit), category and setup id; the bridge runs when its
/// id is among the running ones; it holds the accessories whose bridge id is its
/// own; it is paired unless its status says otherwise.
pub fn to_model_result(
    model: HapBridgeModel,
    running_bridges: &Vec<i64>,
    peers: Option<Vec<String>>,
    accessory_bridge_ids: &Vec<i64>,
) -> (r: HapBridgeResult)
    ensures
        r.model == model,
        r.setup_uri@ == setup_uri_spec(
            0,
            0,
            model.category,
            2,
            model.pin_code as u64,
            model.setup_id@,
        ),
        r.peers@ == (match peers {
            Some(p) => p@,
            None => Seq::<String>::empty(),
        }),
        r.running == running_bridges@.contains(model.bridge_id),
        r.accessory_count == count_of(accessory_bridge_ids@, model.bridge_id),
        r.is_paired == !model.status_not_paired,
{
    let bid = model.bridge_id;
    let setup_uri = gen_homekit_setup_uri_default(
        model.pin_code as u64,
        model.category,
        model.setup_id.clone(),
    );
    let mut running = false;
    let mut i: usize = 0;
    while i < running_bridges.len()
        invariant
            i <= running_bridges@.len(),
            running == (exists|k: int| 0 <= k < i && running_bridges@[k] == bid),
        decreases running_bridges@.len() - i,
    {
        if running_bridges[i] == bid {
            running = true;
        }
        i += 1;
    }
    assert(running == running_bridges@.contains(bid));
    let mut count: u64 = 0;
    let mut j: usize = 0;
    while j < accessory_bridge_ids.len()
        invariant
            j <= accessory_bridge_ids@.len(),
            count == count_of(accessory_bridge_ids@.take(j as int), bid),
        decreases accessory_bridge_ids@.len() - j,
    {
        proof {
            assert(accessory_bridge_ids@.take(j + 1).drop_last() =~= accessory_bridge_ids@.take(
                j as int,
            ));
            lemma_count_le(accessory_bridge_ids@.take(j as int), bid);
        }
        if accessory_bridge_ids[j] == bid {
            count = count + 1;
        }
        j += 1;
    }
    assert(accessory_bridge_ids@.take(j as int) =~= accessory_bridge_ids@);
    let peers = match peers {
        Some(p) => p,
        None => Vec::new(),
    };
    let is_paired = !model.status_not_paired;
    HapBridgeResult { model, setup_uri, peers, running, accessory_count: count, is_paired }
}

} // verus!
