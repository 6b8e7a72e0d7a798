//! Model delegates of an accessory: which characteristics each delegate drives, and
//! the fields an accessory record needs when it is made from a template.
use vstd::prelude::*;

use crate::template::{AccessoryCtx, ApplyMethod};

verus! {

/// A characteristic, named by the tag of its service and its type.
#[derive(Debug)]
pub struct CharIdentifier {
    pub service_tag: String,
    pub char_type: String,
}

impl CharIdentifier {
    /// The characteristic of type `char_type` in the service tagged `service_tag`.
    pub fn new(service_tag: String, char_type: String) -> (c: CharIdentifier)
        ensures
            c.service_tag == service_tag,
            c.char_type == char_type,
    {
        CharIdentifier { service_tag, char_type }
    }
}

/// A model that takes over reads and writes of some characteristics of an accessory,
/// with its run-time parameters.
#[derive(Debug)]
pub struct ModelDelegateParam<P> {
    /// The characteristics it drives; `None` means all of them.
    pub chars: Option<Vec<CharIdentifier>>,
    pub model: String,
    pub params: P,
}

/// The characteristic types of one service of a template, with the service's tag.
#[derive(Debug)]
pub struct ServiceChars {
    pub tag: String,
    pub char_types: Vec<String>,
}

/// A characteristic identifier as text: service tag and type.
pub open spec fn char_id_view(c: CharIdentifier) -> (Seq<char>, Seq<char>) {
    (c.service_tag@, c.char_type@)
}

/// A list of characteristic identifiers as text.
pub open spec fn char_ids_view(v: Seq<CharIdentifier>) -> Seq<(Seq<char>, Seq<char>)> {
    v.map_values(|c: CharIdentifier| char_id_view(c))
}

/// Every characteristic of the services, service by service, in order.
pub open spec fn service_char_ids(services: Seq<ServiceChars>) -> Seq<(Seq<char>, Seq<char>)>
    decreases services.len(),
{
    if services.len() == 0 {
        Seq::empty()
    } else {
        service_char_ids(services.drop_last()) + services.last().char_types@.map_values(
            |t: String| (services.last().tag@, t@),
        )
    }
}

/// All characteristics of services are listed service by service, in order: those
/// of a list of services followed by another are those of the first list followed
/// by those of the second, and a single service gives its own characteristic types,
/// in order, each with its tag.
pub proof fn lemma_service_chars_in_order(a: Seq<ServiceChars>, b: Seq<ServiceChars>, s: ServiceChars)
    ensures
        service_char_ids(a + b) == service_char_ids(a) + service_char_ids(b),
        service_char_ids(seq![s]).len() == s.char_types@.len(),
        forall|i: int|
            0 <= i < s.char_types@.len() ==> #[trigger] service_char_ids(seq![s])[i] == (
                s.tag@,
                s.char_types@[i]@,
            ),
    decreases b.len(),
{
    if b.len() == 0 {
        assert(a + b =~= a);
        assert(service_char_ids(a) + Seq::<(Seq<char>, Seq<char>)>::empty() =~= service_char_ids(a));
    } else {
        lemma_service_chars_in_order(a, b.drop_last(), s);
        assert((a + b).drop_last() =~= a + b.drop_last());
        assert((a + b).last() == b.last());
        let x = service_char_ids(a);
        let y = service_char_ids(b.drop_last());
        let z = b.last().char_types@.map_values(|t: String| (b.last().tag@, t@));
        assert(x + y + z =~= x + (y + z));
    }
    let one = seq![s];
    assert(one.drop_last() =~= Seq::<ServiceChars>::empty());
    assert(one.last() == s);
    assert(service_char_ids(one.drop_last()) == Seq::<(Seq<char>, Seq<char>)>::empty());
    assert(service_char_ids(one) == service_char_ids(one.drop_last()) + s.char_types@.map_values(
        |t: String| (s.tag@, t@),
    ));
    assert(service_char_ids(one) =~= s.char_types@.map_values(|t: String| (s.tag@, t@)));
}

/// The delegates of an accessory: its list followed by its single delegate, if any.
pub open spec fn all_delegates<P>(
    delegates: Seq<ModelDelegateParam<P>>,
    delegate: Option<ModelDelegateParam<P>>,
) -> Seq<ModelDelegateParam<P>> {
    match delegate {
        Some(d) => delegates.push(d),
        None => delegates,
    }
}

/// The single delegate of an accessory comes after its list: the resolved
/// delegates are the list in order, then the single delegate last. So when the
/// list's first delegate names its characteristics, resolution cannot fail on the
/// first delegate.
pub proof fn lemma_single_delegate_is_last<P>(
    delegates: Seq<ModelDelegateParam<P>>,
    delegate: ModelDelegateParam<P>,
)
    ensures
        all_delegates(delegates, Some(delegate)).len() == delegates.len() + 1,
        forall|i: int|
            0 <= i < delegates.len() ==> #[trigger] all_delegates(delegates, Some(delegate))[i]
                == delegates[i],
        all_delegates(delegates, Some(delegate))[delegates.len() as int] == delegate,
        delegates.len() > 0 && delegates[0].chars is Some ==> all_delegates(
            delegates,
            Some(delegate),
        )[0].chars is Some,
        all_delegates(delegates, None) == delegates,
{
}

/// The characteristics a delegate drives once resolved: its own list, or all
/// characteristics of the services when it names none.
pub open spec fn resolved_chars<P>(d: ModelDelegateParam<P>, services: Seq<ServiceChars>) -> Seq<
    (Seq<char>, Seq<char>),
> {
    match d.chars {
        Some(c) => char_ids_view(c@),
        None => service_char_ids(services),
    }
}

/// Every characteristic of the services, as identifiers.
pub fn all_service_chars(services: &Vec<ServiceChars>) -> (chars: Vec<CharIdentifier>)
    ensures
        char_ids_view(chars@) == service_char_ids(services@),
{
    let mut chars: Vec<CharIdentifier> = Vec::new();
    let mut i: usize = 0;
    while i < services.len()
        invariant
            i <= services@.len(),
            char_ids_view(chars@) == service_char_ids(services@.take(i as int)),
        decreases services@.len() - i,
    {
        let s = &services[i];
        let ghost before = chars@;
        let mut j: usize = 0;
        while j < s.char_types.len()
            invariant
                i < services@.len(),
                *s == services@[i as int],
                j <= s.char_types@.len(),
                chars@.len() == before.len() + j,
                forall|k: int| 0 <= k < before.len() ==> chars@[k] == before[k],
                forall|k: int|
                    0 <= k < j ==> char_id_view(#[trigger] chars@[before.len() + k]) == (
                    s.tag@,
                    s.char_types@[k]@,
                ),
            decreases s.char_types@.len() - j,
        {
            chars.push(CharIdentifier::new(s.tag.clone(), s.char_types[j].clone()));
            j += 1;
        }
        proof {
            assert(services@.take(i as int + 1).drop_last() =~= services@.take(i as int));
            let added = s.char_types@.map_values(|t: String| (s.tag@, t@));
            assert(char_ids_view(chars@) =~= char_ids_view(before) + added) by {
                assert forall|k: int| 0 <= k < chars@.len() implies char_ids_view(chars@)[k] == (
                char_ids_view(before) + added)[k] by {
                    if k >= before.len() {
                        let q = k - before.len();
                        assert(char_id_view(chars@[before.len() + q]) == (s.tag@, s.char_types@[q]@));
                    }
                }
            }
        }
        i += 1;
    }
    assert(services@.take(i as int) =~= services@);
    chars
}

/// Resolves the delegates of an accessory: the single delegate is appended to the
/// list; when there is more than one delegate, the first must name its
/// characteristics; each delegate that names none then drives all characteristics of
/// the accessory's services.
pub fn resolve_model_delegates<P>(
    delegates: Vec<ModelDelegateParam<P>>,
    delegate: Option<ModelDelegateParam<P>>,
    services: &Vec<ServiceChars>,
) -> (r: Result<Vec<ModelDelegateParam<P>>, &'static str>)
    ensures
        ({
            let all = all_delegates(delegates@, delegate);
            &&& r is Err <==> (all.len() > 1 && all[0].chars is None)
            &&& r matches Err(m) ==> m@ == "hap_delegates chars is none"@
            &&& r matches Ok(out) ==> {
                &&& out@.len() == all.len()
                &&& forall|i: int|
                    0 <= i < all.len() ==> {
                        &&& (#[trigger] out@[i]).model == all[i].model
                        &&& out@[i].params == all[i].params
                        &&& out@[i].chars is Some
                        &&& char_ids_view(out@[i].chars.unwrap()@) == resolved_chars(
                            all[i],
                            services@,
                        )
                    }
            }
        }),
{
    let ghost all = all_delegates(delegates@, delegate);
    let mut pending = delegates;
    match delegate {
        Some(d) => pending.push(d),
        None => {},
    }
    assert(pending@ == all);
    if pending.len() > 1 && pending[0].chars.is_none() {
        return Err("hap_delegates chars is none");
    }
    let mut out: Vec<ModelDelegateParam<P>> = Vec::new();
    while pending.len() > 0
        invariant
            out@.len() + pending@.len() == all.len(),
            pending@ == all.skip(out@.len() as int),
            forall|i: int|
                0 <= i < out@.len() ==> {
                    &&& (#[trigger] out@[i]).model == all[i].model
                    &&& out@[i].params == all[i].params
                    &&& out@[i].chars is Some
                    &&& char_ids_view(out@[i].chars.unwrap()@) == resolved_chars(
                        all[i],
                        services@,
                    )
                },
        decreases pending@.len(),
    {
        let d = pending.remove(0);
        let ModelDelegateParam { chars, model, params } = d;
        let chars = match chars {
            Some(c) => c,
            None => all_service_chars(services),
        };
        let ghost k = out@.len() as int;
        out.push(ModelDelegateParam { chars: Some(chars), model, params });
        assert(pending@ =~= all.skip(out@.len() as int));
    }
    Ok(out)
}

/// The fields of an accessory record made from a template.
#[derive(Debug)]
pub struct AccessoryFields {
    pub aid: i64,
    pub name: String,
    pub device_id: i64,
    pub bridge_id: i64,
    pub disabled: bool,
}

/// Fills the fields of an accessory record from a template: an update keeps the
/// template's accessory id, which must be set; a creation takes the fresh id
/// `new_aid`. The name, device id and bridge id must be set; an accessory is
/// enabled unless the template disables it.
pub fn resolve_accessory_fields(
    method: ApplyMethod,
    new_aid: i64,
    aid: Option<i64>,
    name: Option<String>,
    device_id: Option<i64>,
    bridge_id: Option<i64>,
    disabled: Option<bool>,
) -> (r: Result<AccessoryFields, &'static str>)
    ensures
        method == ApplyMethod::Update && aid is None ==> (r matches Err(m) && m@ == "aid不能为空"@),
        !(method == ApplyMethod::Update && aid is None) && name is None ==> (r matches Err(m) && m@
            == "name不能为空"@),
        !(method == ApplyMethod::Update && aid is None) && name is Some && device_id is None ==> (
        r matches Err(m) && m@ == "device_id不能为空"@),
        !(method == ApplyMethod::Update && aid is None) && name is Some && device_id is Some
            && bridge_id is None ==> (r matches Err(m) && m@ == "bridge_id不能为空"@),
        r is Ok <==> (!(method == ApplyMethod::Update && aid is None) && name is Some && device_id is Some
            && bridge_id is Some),
        r matches Ok(f) ==> {
            &&& f.aid == (if method == ApplyMethod::Update {
                aid.unwrap()
            } else {
                new_aid
            })
            &&& f.name == name.unwrap()
            &&& f.device_id == device_id.unwrap()
            &&& f.bridge_id == bridge_id.unwrap()
            &&& f.disabled == (match disabled {
                Some(b) => b,
                None => false,
            })
        },
{
    let aid = match method {
        ApplyMethod::Update => match aid {
            Some(a) => a,
            None => {
                return Err("aid不能为空");
            },
        },
        ApplyMethod::Create => new_aid,
    };
    let name = match name {
        Some(n) => n,
        None => {
            return Err("name不能为空");
        },
    };
    let device_id = match device_id {
        Some(d) => d,
        None => {
            return Err("device_id不能为空");
        },
    };
    let bridge_id = match bridge_id {
        Some(b) => b,
        None => {
            return Err("bridge_id不能为空");
        },
    };
    let disabled = match disabled {
        Some(b) => b,
        None => false,
    };
    Ok(AccessoryFields { aid, name, device_id, bridge_id, disabled })
}

/// A stored accessory. `temp_id` and `create_at` are `None` where the record leaves
/// them unset.
#[derive(Debug)]
pub struct AccessoryRecord<P> {
    pub aid: i64,
    pub name: String,
    pub tag: Option<String>,
    pub device_id: i64,
    pub bridge_id: i64,
    pub disabled: bool,
    pub category: i32,
    pub hap_model_delegates: Vec<ModelDelegateParam<P>>,
    pub memo: Option<String>,
    pub temp_id: Option<String>,
    pub create_at: Option<i64>,
    pub update_at: i64,
}

/// The accessory record that applying a template makes, at time `now`: the id and
/// bridge of `ctx`, the template's name or else the device's name, the tag, the
/// device of `ctx`, enabled, the given category and memo, the resolved delegates
/// (see `resolve_model_delegates`, whose error it passes on), the template id of
/// `ctx`, created and updated at `now`.
pub fn to_accessory_model<P>(
    ctx: &AccessoryCtx,
    name: Option<String>,
    tag: String,
    category: i32,
    memo: Option<String>,
    delegates: Vec<ModelDelegateParam<P>>,
    delegate: Option<ModelDelegateParam<P>>,
    services: &Vec<ServiceChars>,
    now: i64,
) -> (r: Result<AccessoryRecord<P>, &'static str>)
    ensures
        ({
            let all = all_delegates(delegates@, delegate);
            &&& r is Err <==> (all.len() > 1 && all[0].chars is None)
            &&& r matches Err(m) ==> m@ == "hap_delegates chars is none"@
            &&& r matches Ok(rec) ==> {
                &&& rec.aid == ctx.aid
                &&& rec.bridge_id == ctx.bridge_id
                &&& rec.device_id == ctx.dev_ctx.device_id
                &&& rec.name@ == (match name {
                    Some(n) => n@,
                    None => ctx.dev_ctx.name@,
                })
                &&& rec.tag == Some(tag)
                &&& rec.disabled == false
                &&& rec.category == category
                &&& rec.memo == memo
                &&& rec.temp_id matches Some(t) && t@ == ctx.dev_ctx.id@
                &&& rec.create_at == Some(now)
                &&& rec.update_at == now
                &&& rec.hap_model_delegates@.len() == all.len()
                &&& forall|i: int|
                    0 <= i < all.len() ==> {
                        &&& (#[trigger] rec.hap_model_delegates@[i]).model == all[i].model
                        &&& rec.hap_model_delegates@[i].params == all[i].params
                        &&& rec.hap_model_delegates@[i].chars is Some
                        &&& char_ids_view(rec.hap_model_delegates@[i].chars.unwrap()@)
                            == resolved_chars(all[i], services@)
                    }
            }
        }),
{
    let hap_model_delegates = match resolve_model_delegates(delegates, delegate, services) {
        Ok(d) => d,
        Err(m) => {
            return Err(m);
        },
    };
    let name = match name {
        Some(n) => n,
        None => ctx.dev_ctx.name.clone(),
    };
    Ok(AccessoryRecord {
        aid: ctx.aid,
        name,
        tag: Some(tag),
        device_id: ctx.dev_ctx.device_id,
        bridge_id: ctx.bridge_id,
        disabled: false,
        category,
        hap_model_delegates,
        memo,
        temp_id: Some(ctx.dev_ctx.id.clone()),
        create_at: Some(now),
        update_at: now,
    })
}

/// Why an accessory template cannot be turned into a record, if it cannot: an
/// update needs the accessory id; the name, device id and bridge id are needed.
pub open spec fn accessory_fields_error(
    method: ApplyMethod,
    aid: Option<i64>,
    name: Option<String>,
    device_id: Option<i64>,
    bridge_id: Option<i64>,
) -> Option<Seq<char>> {
    if method == ApplyMethod::Update && aid is None {
        Some("aid不能为空"@)
    } else if name is None {
        Some("name不能为空"@)
    } else if device_id is None {
        Some("device_id不能为空"@)
    } else if bridge_id is None {
        Some("bridge_id不能为空"@)
    } else {
        None
    }
}

/// The accessory record of an accessory template applied by `method` at time `now`.
/// `delegates` is the template's delegates converted for storage; a failed
/// conversion is the error. Then the fields are taken as `resolve_accessory_fields`
/// does (a creation gets the fresh id `new_aid`); the record keeps the tag,
/// category and memo, leaves the template id unset, is updated at `now`, and is
/// created at `now` only when it is created.
pub fn into_accessory_model<P>(
    method: ApplyMethod,
    new_aid: i64,
    now: i64,
    aid: Option<i64>,
    name: Option<String>,
    tag: String,
    device_id: Option<i64>,
    bridge_id: Option<i64>,
    disabled: Option<bool>,
    category: i32,
    memo: Option<String>,
    delegates: Result<Vec<ModelDelegateParam<P>>, String>,
) -> (r: Result<AccessoryRecord<P>, String>)
    ensures
        delegates matches Err(e) ==> r == Err::<AccessoryRecord<P>, String>(e),
        delegates is Ok ==> match accessory_fields_error(method, aid, name, device_id, bridge_id) {
            Some(text) => r matches Err(m) && m@ == text,
            None => r matches Ok(rec) && rec.aid == (if method == ApplyMethod::Update {
                aid.unwrap()
            } else {
                new_aid
            }) && rec.name == name.unwrap() && rec.tag == Some(tag) && rec.device_id
                == device_id.unwrap() && rec.bridge_id == bridge_id.unwrap() && rec.disabled == (
            match disabled {
                Some(b) => b,
                None => false,
            }) && rec.category == category && rec.memo == memo && rec.hap_model_delegates
                == delegates.unwrap() && rec.temp_id is None && rec.update_at == now
                && rec.create_at == (if method == ApplyMethod::Create {
                Some(now)
            } else {
                None
            }),
        },
{
    let hap_model_delegates = match delegates {
        Ok(d) => d,
        Err(e) => {
            return Err(e);
        },
    };
    let f = match resolve_accessory_fields(method, new_aid, aid, name, device_id, bridge_id, disabled) {
        Ok(f) => f,
        Err(m) => {
            return Err(String::from_str(m));
        },
    };
    let create_at = match method {
        ApplyMethod::Create => Some(now),
        ApplyMethod::Update => None,
    };
    Ok(AccessoryRecord {
        aid: f.aid,
        name: f.name,
        tag: Some(tag),
        device_id: f.device_id,
        bridge_id: f.bridge_id,
        disabled: f.disabled,
        category,
        hap_model_delegates,
        memo,
        temp_id: None,
        create_at,
        update_at: now,
    })
}

} // verus!
