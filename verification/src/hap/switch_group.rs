//! A switch group accessory: an information service followed by two switch
//! services, numbered after the characteristics of the information service.
use vstd::prelude::*;

verus! {

/// The kind of a service of a switch group.
#[derive(Debug, Clone, Copy, PartialEq, Eq, Structural)]
pub enum ServiceKind {
    AccessoryInformation,
    Switch,
}

/// One service of an accessory: its kind, its instance id, the accessory it
/// belongs to, whether it is marked primary, and how many characteristics it has;
/// its characteristics take the instance ids right after its own.
#[derive(Debug, Clone, Copy, PartialEq, Eq, Structural)]
pub struct ServiceSlot {
    pub kind: ServiceKind,
    pub id: u64,
    pub accessory_id: u64,
    pub primary: bool,
    pub char_count: u64,
}

/// The instance ids of a service: its own, then those of its characteristics.
pub open spec fn slot_ids(s: ServiceSlot) -> Seq<int> {
    Seq::new((s.char_count + 1) as nat, |k: int| s.id + k)
}

/// Switch accessory with two switch services.
#[derive(Debug)]
pub struct SwitchGroupAccessory {
    /// ID of the accessory.
    id: u64,
    /// Accessory information service.
    pub accessory_information: ServiceSlot,
    /// Switch services.
    pub switch: Vec<ServiceSlot>,
}

/// The first service of `kind` in `services`, if any.
pub open spec fn first_of_kind(services: Seq<ServiceSlot>, kind: ServiceKind) -> Option<
    ServiceSlot,
>
    decreases services.len(),
{
    if services.len() == 0 {
        None
    } else if services[0].kind == kind {
        Some(services[0])
    } else {
        first_of_kind(services.drop_first(), kind)
    }
}

impl SwitchGroupAccessory {
    /// The accessory's id.
    pub closed spec fn accessory_id(&self) -> u64 {
        self.id
    }

    /// The information service.
    pub closed spec fn information(&self) -> ServiceSlot {
        self.accessory_information
    }

    /// The switch services.
    pub closed spec fn switches(&self) -> Seq<ServiceSlot> {
        self.switch@
    }

    /// The services of the accessory in the order they are listed.
    pub open spec fn services(&self) -> Seq<ServiceSlot> {
        seq![self.information(), self.switches()[0], self.switches()[1]]
    }

    /// The instance ids of all services and characteristics, service by service.
    pub open spec fn all_ids(&self) -> Seq<int> {
        slot_ids(self.services()[0]) + slot_ids(self.services()[1]) + slot_ids(
            self.services()[2],
        )
    }

    /// Creates the accessory `id` whose information service, at instance id 1, has
    /// `information_char_count` characteristics. The two switch services, each with
    /// `switch_char_count` characteristics, follow at ids
    /// `information_char_count + 2` and `information_char_count + 5`, both marked
    /// primary.
    pub fn new(id: u64, information_char_count: u64, switch_char_count: u64) -> (a: Self)
        requires
            information_char_count + 5 + switch_char_count <= u64::MAX,
        ensures
            a.accessory_id() == id,
            a.information() == (ServiceSlot {
                kind: ServiceKind::AccessoryInformation,
                id: 1,
                accessory_id: id,
                primary: false,
                char_count: information_char_count,
            }),
            a.switches() == seq![
                ServiceSlot {
                    kind: ServiceKind::Switch,
                    id: (information_char_count + 2) as u64,
                    accessory_id: id,
                    primary: true,
                    char_count: switch_char_count,
                },
                ServiceSlot {
                    kind: ServiceKind::Switch,
                    id: (information_char_count + 5) as u64,
                    accessory_id: id,
                    primary: true,
                    char_count: switch_char_count,
                },
            ],
    {
        let accessory_information = ServiceSlot {
            kind: ServiceKind::AccessoryInformation,
            id: 1,
            accessory_id: id,
            primary: false,
            char_count: information_char_count,
        };
        let switch_id = information_char_count;
        let mut switch1 = ServiceSlot {
            kind: ServiceKind::Switch,
            id: 1 + switch_id + 1,
            accessory_id: id,
            primary: false,
            char_count: switch_char_count,
        };
        switch1.primary = true;
        let mut switch2 = ServiceSlot {
            kind: ServiceKind::Switch,
            id: 1 + switch_id + 2 + 2,
            accessory_id: id,
            primary: false,
            char_count: switch_char_count,
        };
        switch2.primary = true;
        let switch = vec![switch1, switch2];
        assert(switch@ == seq![switch1, switch2]);
        SwitchGroupAccessory { id, accessory_information, switch }
    }

    pub fn get_id(&self) -> (r: u64)
        ensures
            r == self.accessory_id(),
    {
        self.id
    }

    pub fn set_id(&mut self, id: u64)
        ensures
            final(self).accessory_id() == id,
            final(self).information() == old(self).information(),
            final(self).switches() == old(self).switches(),
    {
        self.id = id;
    }

    /// The information service and the first two switch services.
    pub fn get_services(&self) -> (r: Vec<ServiceSlot>)
        requires
            self.switches().len() >= 2,
        ensures
            r@ == self.services(),
    {
        let r = vec![self.accessory_information, self.switch[0], self.switch[1]];
        assert(r@ == self.services());
        r
    }

    /// The first listed service of `kind`.
    pub fn get_service(&self, kind: ServiceKind) -> (r: Option<ServiceSlot>)
        requires
            self.switches().len() >= 2,
        ensures
            r == first_of_kind(self.services(), kind),
    {
        let services = self.get_services();
        let mut i: usize = 0;
        assert(services@.skip(0) =~= services@);
        while i < services.len()
            invariant
                services@ == self.services(),
                i <= services@.len(),
                first_of_kind(services@, kind) == first_of_kind(services@.skip(i as int), kind),
            decreases services@.len() - i,
        {
            let s = services[i];
            assert(services@.skip(i as int).drop_first() =~= services@.skip(i + 1));
            if s.kind == kind {
                return Some(s);
            }
            i += 1;
        }
        assert(services@.skip(i as int).len() == 0);
        None
    }

    /// A mutable borrow of the first service of `kind` among the information
    /// service and the first switch service.
    pub fn get_mut_service(&mut self, kind: ServiceKind) -> (r: Option<&mut ServiceSlot>)
        requires
            old(self).switches().len() >= 1,
        ensures
            old(self).information().kind == kind ==> (r matches Some(m) && *m == old(
                self,
            ).information() && final(self).information() == *final(m) && final(self).switches()
                == old(self).switches()),
            old(self).information().kind != kind && old(self).switches()[0].kind == kind ==> (
            r matches Some(m) && *m == old(self).switches()[0] && final(self).switches() == old(
                self,
            ).switches().update(0, *final(m)) && final(self).information() == old(
                self,
            ).information()),
            old(self).information().kind != kind && old(self).switches()[0].kind != kind ==> (r
                is None && *final(self) == *old(self)),
            final(self).accessory_id() == old(self).accessory_id(),
    {
        if self.accessory_information.kind == kind {
            Some(&mut self.accessory_information)
        } else if self.switch[0].kind == kind {
            Some(&mut self.switch[0])
        } else {
            None
        }
    }
}

/// The ids of a new switch group never repeat as long as a switch service has at
/// most two characteristics: they rise strictly, service by service. With more,
/// the first switch's characteristics reach the second switch's id.
pub proof fn lemma_switch_group_ids_distinct(a: SwitchGroupAccessory, n: u64, c: u64, id: u64)
    requires
        n + 5 + c <= u64::MAX,
        c <= 2,
        a.switches().len() == 2,
        a.accessory_id() == id,
        a.information() == (ServiceSlot {
            kind: ServiceKind::AccessoryInformation,
            id: 1,
            accessory_id: id,
            primary: false,
            char_count: n,
        }),
        a.switches()[0] == (ServiceSlot {
            kind: ServiceKind::Switch,
            id: (n + 2) as u64,
            accessory_id: id,
            primary: true,
            char_count: c,
        }),
        a.switches()[1] == (ServiceSlot {
            kind: ServiceKind::Switch,
            id: (n + 5) as u64,
            accessory_id: id,
            primary: true,
            char_count: c,
        }),
    ensures
        forall|i: int, j: int| 0 <= i < j < a.all_ids().len() ==> a.all_ids()[i] < a.all_ids()[j],
{
    let s0 = slot_ids(a.services()[0]);
    let s1 = slot_ids(a.services()[1]);
    let s2 = slot_ids(a.services()[2]);
    let all = a.all_ids();
    assert(all == s0 + s1 + s2);
    assert forall|i: int, j: int| 0 <= i < j < all.len() implies all[i] < all[j] by {
        let l0 = s0.len() as int;
        let l1 = s1.len() as int;
        if i < l0 {
            assert(all[i] == 1 + i);
        } else if i < l0 + l1 {
            assert(all[i] == n + 2 + (i - l0));
        } else {
            assert(all[i] == n + 5 + (i - l0 - l1));
        }
        if j < l0 {
            assert(all[j] == 1 + j);
        } else if j < l0 + l1 {
            assert(all[j] == n + 2 + (j - l0));
        } else {
            assert(all[j] == n + 5 + (j - l0 - l1));
        }
    }
}

} // verus!
