//! Applying a Mi Home device template: the rows it writes (devices, accessories,
//! services, characteristics), each keyed by the tags on its path in the
//! template, inserted when no row with that key is stored yet and updated
//! otherwise.
use vstd::prelude::*;

use crate::device::records::MiotDeviceRecord;
use crate::hap::delegate::ServiceChars;
use crate::template::BridgeMode;
use crate::text::str_eq;

verus! {

/// An accessory of a device template: its tag, its services, how many model
/// delegates it lists, and whether the first of them names its characteristics.
#[derive(Debug)]
pub struct AccessoryShape {
    pub tag: String,
    pub services: Vec<ServiceChars>,
    pub delegate_count: u64,
    pub first_delegate_has_chars: bool,
}

/// A device of a template: its tag and its accessories.
#[derive(Debug)]
pub struct DeviceShape {
    pub tag: String,
    pub accessories: Vec<AccessoryShape>,
}

/// The source device a template is applied for.
#[derive(Debug)]
pub enum SourcePlatformModel {
    /// A stored Mi Home device.
    MiHome(MiotDeviceRecord),
}

/// The key of a row: the tags on its path (device, accessory, service,
/// characteristic type), as text.
pub open spec fn path_view(p: Vec<String>) -> Seq<Seq<char>> {
    p@.map_values(|s: String| s@)
}

pub open spec fn paths_view(v: Seq<Vec<String>>) -> Seq<Seq<Seq<char>>> {
    v.map_values(|p: Vec<String>| path_view(p))
}

/// The rows of one service: the service, then each of its characteristics.
pub open spec fn service_paths(d: Seq<char>, a: Seq<char>, s: ServiceChars) -> Seq<Seq<Seq<char>>> {
    seq![seq![d, a, s.tag@]] + s.char_types@.map_values(|c: String| seq![d, a, s.tag@, c@])
}

pub open spec fn services_paths(d: Seq<char>, a: Seq<char>, ss: Seq<ServiceChars>) -> Seq<
    Seq<Seq<char>>,
>
    decreases ss.len(),
{
    if ss.len() == 0 {
        Seq::empty()
    } else {
        services_paths(d, a, ss.drop_last()) + service_paths(d, a, ss.last())
    }
}

/// The rows of one accessory: the accessory, then those of its services.
pub open spec fn accessory_paths(d: Seq<char>, acc: AccessoryShape) -> Seq<Seq<Seq<char>>> {
    seq![seq![d, acc.tag@]] + services_paths(d, acc.tag@, acc.services@)
}

pub open spec fn accessories_paths(d: Seq<char>, accs: Seq<AccessoryShape>) -> Seq<Seq<Seq<char>>>
    decreases accs.len(),
{
    if accs.len() == 0 {
        Seq::empty()
    } else {
        accessories_paths(d, accs.drop_last()) + accessory_paths(d, accs.last())
    }
}

/// The rows of one device: the device, then those of its accessories.
pub open spec fn device_paths(dev: DeviceShape) -> Seq<Seq<Seq<char>>> {
    seq![seq![dev.tag@]] + accessories_paths(dev.tag@, dev.accessories@)
}

/// The rows that a template writes, in the order they are written.
pub open spec fn template_paths(devs: Seq<DeviceShape>) -> Seq<Seq<Seq<char>>>
    decreases devs.len(),
{
    if devs.len() == 0 {
        Seq::empty()
    } else {
        template_paths(devs.drop_last()) + device_paths(devs.last())
    }
}

/// Whether a row with key `p` is stored.
pub open spec fn path_stored(existing: Seq<Vec<String>>, p: Seq<Seq<char>>) -> bool {
    exists|j: int| 0 <= j < existing.len() && path_view(#[trigger] existing[j]) == p
}

fn clone_strings(v: &Vec<String>) -> (r: Vec<String>)
    ensures
        path_view(r) == path_view(*v),
{
    let mut r: Vec<String> = Vec::new();
    let mut i: usize = 0;
    while i < v.len()
        invariant
            i <= v@.len(),
            r@.len() == i,
            forall|k: int| 0 <= k < i ==> (#[trigger] r@[k])@ == v@[k]@,
        decreases v@.len() - i,
    {
        r.push(v[i].clone());
        i += 1;
    }
    assert(path_view(r) =~= path_view(*v));
    r
}

fn push_path(out: &mut Vec<Vec<String>>, p: Vec<String>)
    ensures
        paths_view(final(out)@) == paths_view(old(out)@).push(path_view(p)),
{
    out.push(p);
    assert(paths_view(out@) =~= paths_view(old(out)@).push(path_view(p)));
}

fn append_service(out: &mut Vec<Vec<String>>, d: &String, a: &String, s: &ServiceChars)
    ensures
        paths_view(final(out)@) == paths_view(old(out)@) + service_paths(d@, a@, *s),
{
    let ghost start = paths_view(out@);
    let head = vec![d.clone(), a.clone(), s.tag.clone()];
    assert(path_view(head) =~= seq![d@, a@, s.tag@]);
    push_path(out, head);
    let mut j: usize = 0;
    while j < s.char_types.len()
        invariant
            j <= s.char_types@.len(),
            paths_view(out@) == start + seq![seq![d@, a@, s.tag@]] + s.char_types@.take(
                j as int,
            ).map_values(|c: String| seq![d@, a@, s.tag@, c@]),
        decreases s.char_types@.len() - j,
    {
        let p = vec![d.clone(), a.clone(), s.tag.clone(), s.char_types[j].clone()];
        assert(path_view(p) =~= seq![d@, a@, s.tag@, s.char_types@[j as int]@]);
        let ghost before = paths_view(out@);
        push_path(out, p);
        assert(s.char_types@.take(j + 1).map_values(|c: String| seq![d@, a@, s.tag@, c@])
            =~= s.char_types@.take(j as int).map_values(|c: String| seq![d@, a@, s.tag@, c@]).push(
            seq![d@, a@, s.tag@, s.char_types@[j as int]@],
        ));
        j += 1;
    }
    assert(s.char_types@.take(j as int) =~= s.char_types@);
}

fn append_accessory(out: &mut Vec<Vec<String>>, d: &String, acc: &AccessoryShape)
    ensures
        paths_view(final(out)@) == paths_view(old(out)@) + accessory_paths(d@, *acc),
{
    let ghost start = paths_view(out@);
    let head = vec![d.clone(), acc.tag.clone()];
    assert(path_view(head) =~= seq![d@, acc.tag@]);
    push_path(out, head);
    let mut k: usize = 0;
    while k < acc.services.len()
        invariant
            k <= acc.services@.len(),
            paths_view(out@) == start + seq![seq![d@, acc.tag@]] + services_paths(
                d@,
                acc.tag@,
                acc.services@.take(k as int),
            ),
        decreases acc.services@.len() - k,
    {
        append_service(out, d, &acc.tag, &acc.services[k]);
        assert(acc.services@.take(k + 1).drop_last() =~= acc.services@.take(k as int));
        k += 1;
    }
    assert(acc.services@.take(k as int) =~= acc.services@);
}

fn append_device(out: &mut Vec<Vec<String>>, dev: &DeviceShape)
    ensures
        paths_view(final(out)@) == paths_view(old(out)@) + device_paths(*dev),
{
    let ghost start = paths_view(out@);
    let head = vec![dev.tag.clone()];
    assert(path_view(head) =~= seq![dev.tag@]);
    push_path(out, head);
    let mut k: usize = 0;
    while k < dev.accessories.len()
        invariant
            k <= dev.accessories@.len(),
            paths_view(out@) == start + seq![seq![dev.tag@]] + accessories_paths(
                dev.tag@,
                dev.accessories@.take(k as int),
            ),
        decreases dev.accessories@.len() - k,
    {
        append_accessory(out, &dev.tag, &dev.accessories[k]);
        assert(dev.accessories@.take(k + 1).drop_last() =~= dev.accessories@.take(k as int));
        k += 1;
    }
    assert(dev.accessories@.take(k as int) =~= dev.accessories@);
}

/// The keys of all rows a template writes, in the order they are written.
pub fn template_rows(devs: &Vec<DeviceShape>) -> (r: Vec<Vec<String>>)
    ensures
        paths_view(r@) == template_paths(devs@),
{
    let mut out: Vec<Vec<String>> = Vec::new();
    let mut i: usize = 0;
    assert(paths_view(out@) =~= Seq::<Seq<Seq<char>>>::empty());
    while i < devs.len()
        invariant
            i <= devs@.len(),
            paths_view(out@) == template_paths(devs@.take(i as int)),
        decreases devs@.len() - i,
    {
        append_device(&mut out, &devs[i]);
        assert(devs@.take(i + 1).drop_last() =~= devs@.take(i as int));
        i += 1;
    }
    assert(devs@.take(i as int) =~= devs@);
    out
}

fn same_path(a: &Vec<String>, b: &Vec<String>) -> (eq: bool)
    ensures
        eq == (path_view(*a) == path_view(*b)),
{
    if a.len() != b.len() {
        assert(path_view(*a).len() != path_view(*b).len());
        return false;
    }
    let mut i: usize = 0;
    while i < a.len()
        invariant
            a@.len() == b@.len(),
            i <= a@.len(),
            forall|k: int| 0 <= k < i ==> (#[trigger] a@[k])@ == b@[k]@,
        decreases a@.len() - i,
    {
        if !str_eq(a[i].as_str(), b[i].as_str()) {
            assert(path_view(*a)[i as int] != path_view(*b)[i as int]);
            return false;
        }
        i += 1;
    }
    assert(path_view(*a) =~= path_view(*b));
    true
}

fn is_stored(existing: &Vec<Vec<String>>, p: &Vec<String>) -> (b: bool)
    ensures
        b == path_stored(existing@, path_view(*p)),
{
    let mut j: usize = 0;
    while j < existing.len()
        invariant
            j <= existing@.len(),
            forall|k: int| 0 <= k < j ==> path_view(#[trigger] existing@[k]) != path_view(*p),
        decreases existing@.len() - j,
    {
        if same_path(&existing[j], p) {
            return true;
        }
        j += 1;
    }
    false
}

/// Whether HomeKit default information is known for a characteristic type.
pub open spec fn type_known(known: Seq<String>, t: Seq<char>) -> bool {
    exists|k: int| 0 <= k < known.len() && (#[trigger] known[k])@ == t
}

/// Whether some characteristic of the services has a type without default
/// information.
pub open spec fn services_lack_defaults(ss: Seq<ServiceChars>, known: Seq<String>) -> bool {
    exists|i: int, j: int|
        0 <= i < ss.len() && 0 <= j < ss[i].char_types@.len() && !type_known(
            known,
            (#[trigger] ss[i].char_types@[j])@,
        )
}

/// Why writing an accessory of a template fails, if it does: in `Parent` mode
/// without a bridge ("未设置桥接器"); when it lists several delegates and the first
/// names no characteristics ("hap_delegates chars is none"); when a characteristic
/// type has no default information ("未找到hap默认信息").
pub open spec fn accessory_fault(
    acc: AccessoryShape,
    mode: BridgeMode,
    bridge_id: Option<i64>,
    known: Seq<String>,
) -> Option<Seq<char>> {
    if mode == BridgeMode::Parent && bridge_id is None {
        Some("未设置桥接器"@)
    } else if acc.delegate_count > 1 && !acc.first_delegate_has_chars {
        Some("hap_delegates chars is none"@)
    } else if services_lack_defaults(acc.services@, known) {
        Some("未找到hap默认信息"@)
    } else {
        None
    }
}

/// The fault of the first accessory that has one.
pub open spec fn accessories_fault(
    accs: Seq<AccessoryShape>,
    mode: BridgeMode,
    bridge_id: Option<i64>,
    known: Seq<String>,
) -> Option<Seq<char>>
    decreases accs.len(),
{
    if accs.len() == 0 {
        None
    } else {
        match accessory_fault(accs[0], mode, bridge_id, known) {
            Some(f) => Some(f),
            None => accessories_fault(accs.drop_first(), mode, bridge_id, known),
        }
    }
}

/// Why applying a template fails, if it does: the fault of its first accessory,
/// device by device, that has one.
pub open spec fn template_fault(
    devs: Seq<DeviceShape>,
    mode: BridgeMode,
    bridge_id: Option<i64>,
    known: Seq<String>,
) -> Option<Seq<char>>
    decreases devs.len(),
{
    if devs.len() == 0 {
        None
    } else {
        match accessories_fault(devs[0].accessories@, mode, bridge_id, known) {
            Some(f) => Some(f),
            None => template_fault(devs.drop_first(), mode, bridge_id, known),
        }
    }
}

fn is_known(known: &Vec<String>, t: &String) -> (b: bool)
    ensures
        b == type_known(known@, t@),
{
    let mut k: usize = 0;
    while k < known.len()
        invariant
            k <= known@.len(),
            forall|q: int| 0 <= q < k ==> (#[trigger] known@[q])@ != t@,
        decreases known@.len() - k,
    {
        if str_eq(known[k].as_str(), t.as_str()) {
            return true;
        }
        k += 1;
    }
    false
}

fn lacks_defaults(ss: &Vec<ServiceChars>, known: &Vec<String>) -> (b: bool)
    ensures
        b == services_lack_defaults(ss@, known@),
{
    let mut i: usize = 0;
    while i < ss.len()
        invariant
            i <= ss@.len(),
            forall|p: int, q: int|
                0 <= p < i && 0 <= q < ss@[p].char_types@.len() ==> type_known(
                    known@,
                    (#[trigger] ss@[p].char_types@[q])@,
                ),
        decreases ss@.len() - i,
    {
        let types = &ss[i].char_types;
        let mut j: usize = 0;
        while j < types.len()
            invariant
                i < ss@.len(),
                *types == ss@[i as int].char_types,
                j <= types@.len(),
                forall|p: int, q: int|
                    0 <= p < i && 0 <= q < ss@[p].char_types@.len() ==> type_known(
                        known@,
                        (#[trigger] ss@[p].char_types@[q])@,
                    ),
                forall|q: int| 0 <= q < j ==> type_known(known@, (#[trigger] types@[q])@),
            decreases types@.len() - j,
        {
            if !is_known(known, &types[j]) {
                assert(!type_known(known@, ss@[i as int].char_types@[j as int]@));
                return true;
            }
            j += 1;
        }
        i += 1;
    }
    false
}

fn fault_of_template(
    devs: &Vec<DeviceShape>,
    mode: BridgeMode,
    bridge_id: Option<i64>,
    known: &Vec<String>,
) -> (r: Option<&'static str>)
    ensures
        match template_fault(devs@, mode, bridge_id, known@) {
            Some(f) => r matches Some(m) && m@ == f,
            None => r is None,
        },
{
    let mut i: usize = 0;
    assert(devs@.skip(0) =~= devs@);
    while i < devs.len()
        invariant
            i <= devs@.len(),
            template_fault(devs@, mode, bridge_id, known@) == template_fault(
                devs@.skip(i as int),
                mode,
                bridge_id,
                known@,
            ),
        decreases devs@.len() - i,
    {
        assert(devs@.skip(i as int).drop_first() =~= devs@.skip(i + 1));
        assert(devs@.skip(i as int)[0] == devs@[i as int]);
        let accs = &devs[i].accessories;
        let mut j: usize = 0;
        assert(accs@.skip(0) =~= accs@);
        while j < accs.len()
            invariant
                i < devs@.len(),
                *accs == devs@[i as int].accessories,
                j <= accs@.len(),
                template_fault(devs@, mode, bridge_id, known@) == template_fault(
                    devs@.skip(i as int),
                    mode,
                    bridge_id,
                    known@,
                ),
                accessories_fault(accs@, mode, bridge_id, known@) == accessories_fault(
                    accs@.skip(j as int),
                    mode,
                    bridge_id,
                    known@,
                ),
            decreases accs@.len() - j,
        {
            assert(accs@.skip(j as int).drop_first() =~= accs@.skip(j + 1));
            assert(accs@.skip(j as int)[0] == accs@[j as int]);
            let acc = &accs[j];
            if mode == BridgeMode::Parent && bridge_id.is_none() {
                return Some("未设置桥接器");
            }
            if acc.delegate_count > 1 && !acc.first_delegate_has_chars {
                return Some("hap_delegates chars is none");
            }
            if lacks_defaults(&acc.services, known) {
                return Some("未找到hap默认信息");
            }
            j += 1;
        }
        assert(accs@.skip(j as int) =~= Seq::<AccessoryShape>::empty());
        i += 1;
    }
    assert(devs@.skip(i as int) =~= Seq::<DeviceShape>::empty());
    None
}

/// What applying a template writes: each row's key and whether it is inserted
/// (`true`, no row with its key is stored) or updated; and how many bridges are
/// created for it.
#[derive(Debug)]
pub struct TemplatePlan {
    pub rows: Vec<(Vec<String>, bool)>,
    pub new_bridges: usize,
}

/// The number of accessory rows among the first `n` keys.
pub open spec fn accessory_rows(paths: Seq<Seq<Seq<char>>>, n: int) -> nat
    decreases n,
{
    if n <= 0 {
        0
    } else {
        accessory_rows(paths, n - 1) + (if paths[n - 1].len() == 2 {
            1nat
        } else {
            0nat
        })
    }
}

/// The number of accessories of all devices of a template.
pub open spec fn accessory_total(devs: Seq<DeviceShape>) -> nat
    decreases devs.len(),
{
    if devs.len() == 0 {
        0
    } else {
        accessory_total(devs.drop_last()) + devs.last().accessories@.len()
    }
}

/// The count of accessory rows of all rows.
pub open spec fn all_accessory_rows(paths: Seq<Seq<Seq<char>>>) -> nat {
    accessory_rows(paths, paths.len() as int)
}

proof fn lemma_rows_ext(p: Seq<Seq<Seq<char>>>, q: Seq<Seq<Seq<char>>>, n: int)
    requires
        0 <= n <= p.len(),
        n <= q.len(),
        forall|i: int| 0 <= i < n ==> p[i].len() == q[i].len(),
    ensures
        accessory_rows(p, n) == accessory_rows(q, n),
    decreases n,
{
    if n > 0 {
        lemma_rows_ext(p, q, n - 1);
    }
}

proof fn lemma_rows_concat(a: Seq<Seq<Seq<char>>>, b: Seq<Seq<Seq<char>>>)
    ensures
        all_accessory_rows(a + b) == all_accessory_rows(a) + all_accessory_rows(b),
    decreases b.len(),
{
    if b.len() == 0 {
        assert(a + b =~= a);
    } else {
        let b1 = b.drop_last();
        lemma_rows_concat(a, b1);
        assert(a + b1 == (a + b).drop_last());
        lemma_rows_ext(a + b, a + b1, (a + b1).len() as int);
        lemma_rows_ext(b, b1, b1.len() as int);
        assert((a + b)[(a + b).len() - 1] == b[b.len() - 1]);
    }
}

proof fn lemma_no_accessory_rows(p: Seq<Seq<Seq<char>>>, n: int)
    requires
        0 <= n <= p.len(),
        forall|i: int| 0 <= i < p.len() ==> (#[trigger] p[i]).len() != 2,
    ensures
        accessory_rows(p, n) == 0,
    decreases n,
{
    if n > 0 {
        lemma_no_accessory_rows(p, n - 1);
    }
}

proof fn lemma_service_rows_long(d: Seq<char>, a: Seq<char>, ss: Seq<ServiceChars>)
    ensures
        forall|i: int|
            0 <= i < services_paths(d, a, ss).len() ==> (#[trigger] services_paths(d, a, ss)[i]).len()
                >= 3,
    decreases ss.len(),
{
    if ss.len() > 0 {
        lemma_service_rows_long(d, a, ss.drop_last());
        let x = services_paths(d, a, ss.drop_last());
        let y = service_paths(d, a, ss.last());
        assert forall|i: int| 0 <= i < (x + y).len() implies (#[trigger] (x + y)[i]).len() >= 3 by {
            if i >= x.len() {
                let k = i - x.len();
                if k > 0 {
                    assert(y[k] == seq![d, a, ss.last().tag@, ss.last().char_types@[k - 1]@]);
                }
            }
        }
    }
}

proof fn lemma_accessory_paths_count(d: Seq<char>, acc: AccessoryShape)
    ensures
        all_accessory_rows(accessory_paths(d, acc)) == 1,
{
    let sv = services_paths(d, acc.tag@, acc.services@);
    lemma_service_rows_long(d, acc.tag@, acc.services@);
    lemma_no_accessory_rows(sv, sv.len() as int);
    lemma_rows_concat(seq![seq![d, acc.tag@]], sv);
    assert(all_accessory_rows(seq![seq![d, acc.tag@]]) == 1) by {
        assert(accessory_rows(seq![seq![d, acc.tag@]], 0) == 0);
    }
}

proof fn lemma_accessories_paths_count(d: Seq<char>, accs: Seq<AccessoryShape>)
    ensures
        all_accessory_rows(accessories_paths(d, accs)) == accs.len(),
    decreases accs.len(),
{
    if accs.len() > 0 {
        lemma_accessories_paths_count(d, accs.drop_last());
        lemma_accessory_paths_count(d, accs.last());
        lemma_rows_concat(accessories_paths(d, accs.drop_last()), accessory_paths(d, accs.last()));
    } else {
        assert(accessory_rows(accessories_paths(d, accs), 0) == 0);
    }
}

/// In `Singer` mode one bridge is created for each accessory: the accessory rows of
/// a template are exactly as many as the accessories of all its devices, however
/// many devices hold them.
pub proof fn lemma_accessory_rows_are_accessories(devs: Seq<DeviceShape>)
    ensures
        all_accessory_rows(template_paths(devs)) == accessory_total(devs),
    decreases devs.len(),
{
    if devs.len() > 0 {
        let dev = devs.last();
        lemma_accessory_rows_are_accessories(devs.drop_last());
        lemma_accessories_paths_count(dev.tag@, dev.accessories@);
        lemma_rows_concat(seq![seq![dev.tag@]], accessories_paths(dev.tag@, dev.accessories@));
        assert(all_accessory_rows(seq![seq![dev.tag@]]) == 0) by {
            assert(accessory_rows(seq![seq![dev.tag@]], 0) == 0);
        }
        lemma_rows_concat(template_paths(devs.drop_last()), device_paths(dev));
    } else {
        assert(accessory_rows(template_paths(devs), 0) == 0);
    }
}

/// Plans the application of a template (`None` when no template has the requested
/// id) given the keys of the rows already stored for it and the characteristic
/// types that have HomeKit default information: the template must exist
/// ("模板不存在"); applying it fails with the fault of its first faulty accessory
/// (see `accessory_fault`), and then writes nothing; otherwise every row of the
/// template is written in order, inserted exactly when its key is not stored yet,
/// and in `Singer` mode one bridge is created for each accessory.
pub fn apply_mihome_template(
    template: Option<&Vec<DeviceShape>>,
    mode: BridgeMode,
    bridge_id: Option<i64>,
    existing: &Vec<Vec<String>>,
    known_types: &Vec<String>,
) -> (r: Result<TemplatePlan, &'static str>)
    ensures
        template is None ==> (r matches Err(m) && m@ == "模板不存在"@),
        template matches Some(t) ==> match template_fault(t@, mode, bridge_id, known_types@) {
            Some(f) => r matches Err(m) && m@ == f,
            None => r matches Ok(plan) && {
                let paths = template_paths(t@);
                &&& plan.rows@.len() == paths.len()
                &&& forall|i: int|
                    0 <= i < paths.len() ==> path_view((#[trigger] plan.rows@[i]).0) == paths[i]
                        && plan.rows@[i].1 == !path_stored(existing@, paths[i])
                &&& plan.new_bridges == (if mode == BridgeMode::Singer {
                    accessory_rows(paths, paths.len() as int)
                } else {
                    0
                })
                &&& plan.new_bridges == (if mode == BridgeMode::Singer {
                    accessory_total(t@)
                } else {
                    0
                })
            },
        },
{
    let devs = match template {
        Some(t) => t,
        None => {
            return Err("模板不存在");
        },
    };
    match fault_of_template(devs, mode, bridge_id, known_types) {
        Some(f) => {
            return Err(f);
        },
        None => {},
    }
    let keys = template_rows(devs);
    let ghost paths = template_paths(devs@);
    let mut rows: Vec<(Vec<String>, bool)> = Vec::new();
    let mut accessories: usize = 0;
    let mut i: usize = 0;
    while i < keys.len()
        invariant
            paths_view(keys@) == paths,
            i <= keys@.len(),
            rows@.len() == i,
            accessories == accessory_rows(paths, i as int),
            accessories <= i,
            forall|k: int|
                0 <= k < i ==> path_view((#[trigger] rows@[k]).0) == paths[k] && rows@[k].1
                    == !path_stored(existing@, paths[k]),
        decreases keys@.len() - i,
    {
        let key = clone_strings(&keys[i]);
        assert(path_view(keys@[i as int]) == paths[i as int]);
        let insert = !is_stored(existing, &key);
        if key.len() == 2 {
            accessories = accessories + 1;
        }
        rows.push((key, insert));
        i += 1;
    }
    let new_bridges = match mode {
        BridgeMode::Singer => accessories,
        BridgeMode::Parent => 0,
    };
    proof {
        lemma_accessory_rows_are_accessories(devs@);
    }
    Ok(TemplatePlan { rows, new_bridges })
}

/// The keys stored once a plan's rows are written over `existing`.
pub open spec fn keys_after(existing: Seq<Vec<String>>, rows: Seq<(Vec<String>, bool)>) -> Seq<
    Vec<String>,
> {
    existing + rows.map_values(|r: (Vec<String>, bool)| r.0)
}

/// Applying a template a second time writes no new row: once a plan's rows are
/// stored, every row of the same template is already stored, so the second
/// application only updates.
pub proof fn lemma_second_application_inserts_nothing(
    existing: Seq<Vec<String>>,
    rows: Seq<(Vec<String>, bool)>,
    paths: Seq<Seq<Seq<char>>>,
)
    requires
        rows.len() == paths.len(),
        forall|i: int| 0 <= i < paths.len() ==> path_view((#[trigger] rows[i]).0) == paths[i],
    ensures
        forall|i: int|
            0 <= i < paths.len() ==> path_stored(keys_after(existing, rows), #[trigger] paths[i]),
{
    assert forall|i: int| 0 <= i < paths.len() implies path_stored(
        keys_after(existing, rows),
        #[trigger] paths[i],
    ) by {
        let all = keys_after(existing, rows);
        assert(all[existing.len() + i] == rows[i].0);
        assert(path_view(rows[i].0) == paths[i]);
    }
}

/// A service as text: its tag and characteristic types.
pub open spec fn service_view(s: ServiceChars) -> (Seq<char>, Seq<Seq<char>>) {
    (s.tag@, s.char_types@.map_values(|c: String| c@))
}

/// An accessory as text: its tag, its services and its delegate facts.
pub open spec fn accessory_view(a: AccessoryShape) -> (
    Seq<char>,
    Seq<(Seq<char>, Seq<Seq<char>>)>,
    u64,
    bool,
) {
    (
        a.tag@,
        a.services@.map_values(|s: ServiceChars| service_view(s)),
        a.delegate_count,
        a.first_delegate_has_chars,
    )
}

pub open spec fn accessories_view(v: Seq<AccessoryShape>) -> Seq<
    (Seq<char>, Seq<(Seq<char>, Seq<Seq<char>>)>, u64, bool),
> {
    v.map_values(|a: AccessoryShape| accessory_view(a))
}

/// The accessories of all devices, device by device, as text.
pub open spec fn all_accessories(devs: Seq<DeviceShape>) -> Seq<
    (Seq<char>, Seq<(Seq<char>, Seq<Seq<char>>)>, u64, bool),
>
    decreases devs.len(),
{
    if devs.len() == 0 {
        Seq::empty()
    } else {
        all_accessories(devs.drop_last()) + accessories_view(devs.last().accessories@)
    }
}

fn clone_service(s: &ServiceChars) -> (r: ServiceChars)
    ensures
        service_view(r) == service_view(*s),
{
    let types = clone_strings(&s.char_types);
    assert(types@.map_values(|c: String| c@) =~= s.char_types@.map_values(|c: String| c@)) by {
        assert(path_view(types) == path_view(s.char_types));
    }
    ServiceChars { tag: s.tag.clone(), char_types: types }
}

fn clone_accessory(a: &AccessoryShape) -> (r: AccessoryShape)
    ensures
        accessory_view(r) == accessory_view(*a),
{
    let mut services: Vec<ServiceChars> = Vec::new();
    let mut i: usize = 0;
    while i < a.services.len()
        invariant
            i <= a.services@.len(),
            services@.len() == i,
            forall|k: int| 0 <= k < i ==> service_view(#[trigger] services@[k]) == service_view(
                a.services@[k],
            ),
        decreases a.services@.len() - i,
    {
        services.push(clone_service(&a.services[i]));
        i += 1;
    }
    let r = AccessoryShape {
        tag: a.tag.clone(),
        services,
        delegate_count: a.delegate_count,
        first_delegate_has_chars: a.first_delegate_has_chars,
    };
    assert(r.services@.map_values(|s: ServiceChars| service_view(s)) =~= a.services@.map_values(
        |s: ServiceChars| service_view(s),
    ));
    r
}

/// What a template would add: its devices as they are, and the accessories of all
/// its devices, device by device.
pub fn check_template_add(devices: Vec<DeviceShape>) -> (r: crate::api::results::CheckTemplateResult)
    ensures
        r.new_devices@ == devices@,
        accessories_view(r.new_accessories@) == all_accessories(devices@),
{
    let mut new_accessories: Vec<AccessoryShape> = Vec::new();
    let mut i: usize = 0;
    assert(accessories_view(new_accessories@) =~= all_accessories(devices@.take(0)));
    while i < devices.len()
        invariant
            i <= devices@.len(),
            accessories_view(new_accessories@) == all_accessories(devices@.take(i as int)),
        decreases devices@.len() - i,
    {
        let accs = &devices[i].accessories;
        let ghost start = accessories_view(new_accessories@);
        let mut j: usize = 0;
        while j < accs.len()
            invariant
                j <= accs@.len(),
                accessories_view(new_accessories@) == start + accessories_view(accs@.take(
                    j as int,
                )),
            decreases accs@.len() - j,
        {
            let c = clone_accessory(&accs[j]);
            let ghost before = new_accessories@;
            new_accessories.push(c);
            assert(accessories_view(new_accessories@) =~= accessories_view(before).push(
                accessory_view(accs@[j as int]),
            ));
            assert(accessories_view(accs@.take(j + 1)) =~= accessories_view(accs@.take(j as int)).push(
                accessory_view(accs@[j as int]),
            ));
            assert(accessories_view(new_accessories@) =~= start + accessories_view(accs@.take(
                j + 1,
            )));
            j += 1;
        }
        assert(accs@.take(j as int) =~= accs@);
        assert(devices@.take(i + 1).drop_last() =~= devices@.take(i as int));
        i += 1;
    }
    assert(devices@.take(i as int) =~= devices@);
    crate::api::results::CheckTemplateResult { new_devices: devices, new_accessories }
}

} // verus!
