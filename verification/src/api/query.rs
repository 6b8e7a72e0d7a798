//! Rules of the generic list query: sort directions and text filters.
use vstd::prelude::*;

use crate::text::str_eq;

verus! {

/// Direction of a sort key.
#[derive(Debug, Clone, Copy, PartialEq, Eq, Structural)]
pub enum SortOrder {
    Asc,
    Desc,
}

/// The direction a sort key's text names: `asc` or `ascend`, `desc` or `descend`.
pub open spec fn sort_order_of(text: Seq<char>) -> Option<SortOrder> {
    if text == "asc"@ || text == "ascend"@ {
        Some(SortOrder::Asc)
    } else if text == "desc"@ || text == "descend"@ {
        Some(SortOrder::Desc)
    } else {
        None
    }
}

/// Reads the direction of a sort key; any other text is refused.
pub fn parse_sort_order(order: &str) -> (r: Result<SortOrder, &'static str>)
    ensures
        r is Ok <==> sort_order_of(order@) is Some,
        r matches Ok(o) ==> sort_order_of(order@) == Some(o),
        r matches Err(m) ==> m@ == "order is not asc or desc"@,
{
    if str_eq(order, "asc") || str_eq(order, "ascend") {
        Ok(SortOrder::Asc)
    } else if str_eq(order, "desc") || str_eq(order, "descend") {
        Ok(SortOrder::Desc)
    } else {
        Err("order is not asc or desc")
    }
}

/// The LIKE pattern that filters a text column by `value`: `%value%`, or no filter
/// at all when the value is empty.
pub fn text_filter_pattern(value: &str) -> (p: Option<String>)
    ensures
        value@.len() == 0 ==> p is None,
        value@.len() > 0 ==> (p matches Some(s) && s@ == "%"@ + value@ + "%"@),
{
    if value.unicode_len() == 0 {
        None
    } else {
        let mut s = String::from_str("%");
        s.append(value);
        s.append("%");
        Some(s)
    }
}

} // verus!
