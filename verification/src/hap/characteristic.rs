//! Default settings of a characteristic: what a characteristic takes from the
//! default description of its type, and the value it starts with.
use vstd::prelude::*;

verus! {

/// The default description of a characteristic type: unit `U`, values `V`,
/// permissions `P`.
#[derive(Debug)]
pub struct CharacteristicDefaults<U, V, P> {
    pub unit: Option<U>,
    pub max_len: Option<u16>,
    pub max_value: Option<V>,
    pub min_value: Option<V>,
    pub step_value: Option<V>,
    pub valid_values: Option<Vec<V>>,
    pub perms: Vec<P>,
}

/// The settings of a characteristic being set up, with its current value.
#[derive(Debug)]
pub struct CharacteristicSettings<U, V, P> {
    pub unit: Option<U>,
    pub max_len: Option<u16>,
    pub max_value: Option<V>,
    pub min_value: Option<V>,
    pub step_value: Option<V>,
    pub valid_values: Option<Vec<V>>,
    pub perms: Vec<P>,
    pub value: V,
}

/// `current` unless it is unset, then `default`.
pub open spec fn or_default<T>(current: Option<T>, default: Option<T>) -> Option<T> {
    if current is Some {
        current
    } else {
        default
    }
}

/// Completes a characteristic from the default description of its type: each unset
/// bound, unit, maximum length and list of valid values is taken from the default,
/// and the permissions are those of the default. Then the characteristic starts at
/// its minimum value, or else at its first valid value; otherwise its value is kept.
pub fn set_default_for_cts<U, V: Clone, P>(
    cts: &mut CharacteristicSettings<U, V, P>,
    default: Option<CharacteristicDefaults<U, V, P>>,
)
    ensures
        ({
            let o = *old(cts);
            let f = *final(cts);
            &&& match default {
                Some(d) => {
                    &&& f.unit == or_default(o.unit, d.unit)
                    &&& f.max_len == or_default(o.max_len, d.max_len)
                    &&& f.max_value == or_default(o.max_value, d.max_value)
                    &&& f.min_value == or_default(o.min_value, d.min_value)
                    &&& f.step_value == or_default(o.step_value, d.step_value)
                    &&& f.valid_values == or_default(o.valid_values, d.valid_values)
                    &&& f.perms == d.perms
                },
                None => {
                    &&& f.unit == o.unit
                    &&& f.max_len == o.max_len
                    &&& f.max_value == o.max_value
                    &&& f.min_value == o.min_value
                    &&& f.step_value == o.step_value
                    &&& f.valid_values == o.valid_values
                    &&& f.perms == o.perms
                },
            }
            &&& if f.min_value is Some {
                cloned::<V>(f.min_value.unwrap(), f.value)
            } else if f.valid_values is Some && f.valid_values.unwrap()@.len() > 0 {
                cloned::<V>(f.valid_values.unwrap()@[0], f.value)
            } else {
                f.value == o.value
            }
        }),
{
    match default {
        Some(d) => {
            if cts.unit.is_none() {
                cts.unit = d.unit;
            }
            if cts.max_len.is_none() {
                cts.max_len = d.max_len;
            }
            if cts.max_value.is_none() {
                cts.max_value = d.max_value;
            }
            if cts.min_value.is_none() {
                cts.min_value = d.min_value;
            }
            if cts.step_value.is_none() {
                cts.step_value = d.step_value;
            }
            if cts.valid_values.is_none() {
                cts.valid_values = d.valid_values;
            }
            cts.perms = d.perms;
        },
        None => {},
    }
    let start: Option<V> = match &cts.min_value {
        Some(min_value) => Some(min_value.clone()),
        None => match &cts.valid_values {
            Some(valid_values) => {
                if valid_values.len() > 0 {
                    Some(valid_values[0].clone())
                } else {
                    None
                }
            },
            None => None,
        },
    };
    match start {
        Some(v) => {
            cts.value = v;
        },
        None => {},
    }
}

} // verus!
