//! The kind of an IoT device as stored in the database, with its integer encoding
//! and an iterator over its variants from both ends.
use vstd::prelude::*;

use sea_orm::DbErr;

use crate::text::{push_signed_decimal, signed_decimal_text};

verus! {

/// Kind of an IoT device.
#[derive(Debug, Copy, Clone, PartialEq, Eq, Structural)]
pub enum DeviceType {
    Normal,
    Gateway,
    /// A device reached through a gateway.
    Child,
}

/// Name of the database enum of device kinds.
#[derive(Debug, Clone, PartialEq, Eq)]
pub struct DeviceTypeEnum;

/// The variants in declaration order.
pub open spec fn all_device_types() -> Seq<DeviceType> {
    seq![DeviceType::Normal, DeviceType::Gateway, DeviceType::Child]
}

/// The integer that stores a device kind.
pub open spec fn device_type_value(t: DeviceType) -> i32 {
    match t {
        DeviceType::Normal => 1,
        DeviceType::Gateway => 2,
        DeviceType::Child => 3,
    }
}

/// The device kind stored as `v`, if any.
pub open spec fn device_type_of_value(v: i32) -> Option<DeviceType> {
    if v == 1 {
        Some(DeviceType::Normal)
    } else if v == 2 {
        Some(DeviceType::Gateway)
    } else if v == 3 {
        Some(DeviceType::Child)
    } else {
        None
    }
}

/// The database error `DbErr::Type(msg)`.
pub uninterp spec fn db_type_error(msg: Seq<char>) -> DbErr;

/// `DbErr::Type`: a type error carrying `msg`.
#[verifier::external_body]
fn type_error(msg: String) -> (e: DbErr)
    ensures
        e == db_type_error(msg@),
{
    DbErr::Type(msg)
}

/// The message of a stored integer that names no device kind.
pub open spec fn unexpected_value_text(v: i32) -> Seq<char> {
    "unexpected value for DeviceType enum: "@ + signed_decimal_text(v as int)
}

fn unexpected_value_error(v: i32) -> (e: DbErr)
    ensures
        e == db_type_error(unexpected_value_text(v)),
{
    let mut msg = String::from_str("unexpected value for DeviceType enum: ");
    push_signed_decimal(&mut msg, v);
    type_error(msg)
}

impl DeviceType {
    /// The integer that stores this kind.
    pub fn to_value(&self) -> (v: i32)
        ensures
            v == device_type_value(*self),
    {
        match self {
            DeviceType::Normal => 1,
            DeviceType::Gateway => 2,
            DeviceType::Child => 3,
        }
    }

    /// The kind stored as `v`; a type error for any other integer.
    pub fn try_from_value(v: &i32) -> (r: Result<DeviceType, DbErr>)
        ensures
            r is Ok <==> device_type_of_value(*v) is Some,
            r matches Ok(t) ==> device_type_of_value(*v) == Some(t),
            r matches Err(e) ==> e == db_type_error(unexpected_value_text(*v)),
    {
        match *v {
            1 => Ok(DeviceType::Normal),
            2 => Ok(DeviceType::Gateway),
            3 => Ok(DeviceType::Child),
            _ => Err(unexpected_value_error(*v)),
        }
    }

    /// An iterator over all kinds, in declaration order.
    pub fn iter() -> (it: DeviceTypeIter)
        ensures
            it.remaining() == all_device_types(),
    {
        let it = DeviceTypeIter { idx: 0, back_idx: 0 };
        assert(all_device_types().subrange(0, 3) =~= all_device_types());
        it
    }
}

/// Iterator over the kinds: `idx` counts what was taken from the front, `back_idx`
/// what was taken from the back.
#[derive(Debug)]
pub struct DeviceTypeIter {
    idx: usize,
    back_idx: usize,
}

impl DeviceTypeIter {
    #[verifier::type_invariant]
    spec fn counts_in_range(self) -> bool {
        self.idx <= 3 && self.back_idx <= 3
    }

    /// How many kinds were taken from the front.
    pub closed spec fn front_taken(self) -> nat {
        self.idx as nat
    }

    /// How many kinds were taken from the back.
    pub closed spec fn back_taken(self) -> nat {
        self.back_idx as nat
    }

    /// The kinds not yet yielded, in order.
    pub open spec fn remaining(self) -> Seq<DeviceType> {
        if self.front_taken() + self.back_taken() >= 3 {
            Seq::empty()
        } else {
            all_device_types().subrange(
                self.front_taken() as int,
                3 - self.back_taken(),
            )
        }
    }

    /// The kind at position `idx` of the declaration order, if there is one.
    pub fn get(&self, idx: usize) -> (r: Option<DeviceType>)
        ensures
            r == (if idx < 3 {
                Some(all_device_types()[idx as int])
            } else {
                None
            }),
    {
        match idx {
            0usize => Some(DeviceType::Normal),
            1usize => Some(DeviceType::Gateway),
            2usize => Some(DeviceType::Child),
            _ => None,
        }
    }

    /// The number of kinds not yet yielded, as lower and upper bound.
    pub fn size_hint(&self) -> (r: (usize, Option<usize>))
        ensures
            r.0 == self.remaining().len(),
            r.1 == Some(r.0),
    {
        proof {
            use_type_invariant(self);
        }
        let t = if self.idx + self.back_idx >= 3 {
            0
        } else {
            3usize - self.idx - self.back_idx
        };
        (t, Some(t))
    }

    /// The number of kinds not yet yielded.
    pub fn len(&self) -> (n: usize)
        ensures
            n == self.remaining().len(),
    {
        self.size_hint().0
    }

    /// Skips `n` kinds from the front and yields the next one; once fewer than `n + 1`
    /// remain, yields nothing and the iterator is exhausted.
    pub fn nth(&mut self, n: usize) -> (r: Option<DeviceType>)
        requires
            old(self).front_taken() + n + 1 + old(self).back_taken() <= usize::MAX,
        ensures
            n < old(self).remaining().len() ==> r == Some(old(self).remaining()[n as int])
                && final(self).remaining() == old(self).remaining().skip(n + 1),
            n >= old(self).remaining().len() ==> r is None && final(self).remaining()
                == Seq::<DeviceType>::empty(),
    {
        proof {
            use_type_invariant(&*self);
        }
        let idx = self.idx + n + 1;
        if idx + self.back_idx > 3 {
            self.idx = 3;
            None
        } else {
            self.idx = idx;
            let r = self.get(idx - 1);
            proof {
                let old_rem = old(self).remaining();
                assert(old_rem.skip(n + 1) =~= self.remaining());
            }
            r
        }
    }

    /// Yields the next kind from the front, if any remains.
    pub fn next(&mut self) -> (r: Option<DeviceType>)
        ensures
            old(self).remaining().len() > 0 ==> r == Some(old(self).remaining()[0])
                && final(self).remaining() == old(self).remaining().drop_first(),
            old(self).remaining().len() == 0 ==> r is None && final(self).remaining()
                == old(self).remaining(),
    {
        proof {
            use_type_invariant(&*self);
        }
        let r = self.nth(0);
        proof {
            assert(old(self).remaining().skip(1) =~= old(self).remaining().drop_first());
            assert(old(self).remaining().len() == 0 ==> old(self).remaining() =~= Seq::<
                DeviceType,
            >::empty());
        }
        r
    }

    /// Yields the next kind from the back, if any remains; once none remains, the
    /// iterator stays exhausted.
    pub fn next_back(&mut self) -> (r: Option<DeviceType>)
        ensures
            old(self).remaining().len() > 0 ==> r == Some(old(self).remaining().last())
                && final(self).remaining() == old(self).remaining().drop_last(),
            old(self).remaining().len() == 0 ==> r is None && final(self).remaining()
                == old(self).remaining(),
    {
        proof {
            use_type_invariant(&*self);
        }
        let back_idx = self.back_idx + 1;
        if self.idx + back_idx > 3 {
            self.back_idx = 3;
            proof {
                assert(old(self).remaining() =~= Seq::<DeviceType>::empty());
            }
            None
        } else {
            self.back_idx = back_idx;
            let r = self.get(3usize - self.back_idx);
            proof {
                assert(old(self).remaining().drop_last() =~= self.remaining());
            }
            r
        }
    }

    /// A copy of the iterator, at the same position.
    pub fn clone(&self) -> (c: DeviceTypeIter)
        ensures
            c.remaining() == self.remaining(),
    {
        proof {
            use_type_invariant(self);
        }
        DeviceTypeIter { idx: self.idx, back_idx: self.back_idx }
    }
}

/// Storing a device kind and reading it back gives the same kind, and distinct kinds
/// are stored as distinct integers.
pub proof fn lemma_device_type_value_roundtrip(t: DeviceType, u: DeviceType)
    ensures
        device_type_of_value(device_type_value(t)) == Some(t),
        device_type_value(t) == device_type_value(u) ==> t == u,
{
}

/// An iterator never holds more than the three kinds, and what it still holds is a
/// contiguous, in-order run of the declaration order: no kind is yielded twice.
pub proof fn lemma_remaining_is_ordered_run(it: DeviceTypeIter)
    ensures
        it.remaining().len() <= 3,
        forall|i: int, j: int|
            0 <= i < j < it.remaining().len() ==> it.remaining()[i] != it.remaining()[j],
{
}

/// What one call gives on an iterator that still holds `rem`: `next` (`front`)
/// yields the first kind, `next_back` the last; on an exhausted iterator nothing.
pub open spec fn call_step(rem: Seq<DeviceType>, front: bool) -> (Option<DeviceType>, Seq<DeviceType>) {
    if rem.len() == 0 {
        (None, rem)
    } else if front {
        (Some(rem[0]), rem.drop_first())
    } else {
        (Some(rem.last()), rem.drop_last())
    }
}

/// What a series of calls gives, each `true` a `next` and each `false` a
/// `next_back`, on an iterator that holds `rem`.
pub open spec fn call_outputs(rem: Seq<DeviceType>, calls: Seq<bool>) -> Seq<Option<DeviceType>>
    decreases calls.len(),
{
    if calls.len() == 0 {
        Seq::empty()
    } else {
        let (o, rest) = call_step(rem, calls[0]);
        seq![o] + call_outputs(rest, calls.drop_first())
    }
}

proof fn lemma_calls_on_run(a: int, b: int, calls: Seq<bool>)
    requires
        0 <= a <= b <= 3,
    ensures
        ({
            let outs = call_outputs(all_device_types().subrange(a, b), calls);
            &&& outs.len() == calls.len()
            &&& forall|i: int|
                0 <= i < outs.len() ==> ((#[trigger] outs[i]) is Some <==> i < b - a)
            &&& forall|i: int|
                0 <= i < outs.len() && outs[i] is Some ==> a < device_type_value(
                    (#[trigger] outs[i]).unwrap(),
                ) <= b
            &&& forall|i: int, j: int|
                0 <= i < j < outs.len() && outs[i] is Some && outs[j] is Some ==> #[trigger] outs[i]
                    != #[trigger] outs[j]
        }),
    decreases calls.len(),
{
    let all = all_device_types();
    let rem = all.subrange(a, b);
    if calls.len() > 0 {
        let outs = call_outputs(rem, calls);
        if a == b {
            assert(rem.len() == 0);
            lemma_calls_on_run(a, b, calls.drop_first());
            assert(call_step(rem, calls[0]).1 == all.subrange(a, b));
        } else if calls[0] {
            assert(rem.drop_first() =~= all.subrange(a + 1, b));
            lemma_calls_on_run(a + 1, b, calls.drop_first());
            assert(device_type_value(rem[0]) == a + 1);
        } else {
            assert(rem.drop_last() =~= all.subrange(a, b - 1));
            lemma_calls_on_run(a, b - 1, calls.drop_first());
            assert(device_type_value(rem.last()) == b);
        }
        let rest = call_outputs(call_step(rem, calls[0]).1, calls.drop_first());
        assert(outs == seq![call_step(rem, calls[0]).0] + rest);
        assert forall|i: int| 0 <= i < outs.len() implies ((#[trigger] outs[i]) is Some <==> i < b
            - a) by {
            if i > 0 {
                assert(outs[i] == rest[i - 1]);
            }
        }
        assert forall|i: int| 0 <= i < outs.len() && outs[i] is Some implies a < device_type_value(
            (#[trigger] outs[i]).unwrap(),
        ) <= b by {
            if i > 0 {
                assert(outs[i] == rest[i - 1]);
            }
        }
        assert forall|i: int, j: int|
            0 <= i < j < outs.len() && outs[i] is Some && outs[j] is Some implies #[trigger] outs[i]
                != #[trigger] outs[j] by {
            assert(outs[j] == rest[j - 1]);
            if i > 0 {
                assert(outs[i] == rest[i - 1]);
            } else {
                assert(device_type_value(outs[j].unwrap()) != device_type_value(outs[0].unwrap()));
            }
        }
    }
}

/// Whatever `next` and `next_back` calls are made, in any order, on a fresh
/// iterator: the first three calls yield a kind and every later call yields
/// nothing, and no kind is yielded twice, so each of the three kinds is yielded
/// exactly once.
pub proof fn lemma_interleaved_calls_yield_each_kind_once(calls: Seq<bool>)
    ensures
        ({
            let outs = call_outputs(all_device_types(), calls);
            &&& outs.len() == calls.len()
            &&& forall|i: int| 0 <= i < outs.len() ==> ((#[trigger] outs[i]) is Some <==> i < 3)
            &&& forall|i: int, j: int|
                0 <= i < j < outs.len() && outs[i] is Some && outs[j] is Some ==> #[trigger] outs[i]
                    != #[trigger] outs[j]
        }),
{
    assert(all_device_types().subrange(0, 3) =~= all_device_types());
    lemma_calls_on_run(0, 3, calls);
}

} // verus!
