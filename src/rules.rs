use vstd::prelude::*;
use crate::column::fits_i32;

verus! {

pub const BRAND_IN_USE: &'static str = "该品牌下存在载具，无法删除";

pub const BRAND_MISSING: &'static str = "指定的品牌不存在";

pub const GARAGE_ID_REQUIRED: &'static str = "Garage ID is required for update";

pub const GARAGE_ORDER_OUT_OF_RANGE: &'static str = "Garage order is out of range";

/// The display order that a new garage takes when none is given: one past
/// the largest stored order, or 1 when no garage is stored.
pub open spec fn default_garage_order(max_order: Option<i32>) -> int {
    match max_order {
        Some(m) => m + 1,
        None => 1,
    }
}

/// The display order of a new garage given the largest stored one; `None`
/// when that order does not fit a 32-bit integer.
pub fn next_garage_order(max_order: Option<i32>) -> (r: Option<i32>)
    ensures
        r.is_some() <==> fits_i32(default_garage_order(max_order)),
        r.is_some() ==> r.unwrap() == default_garage_order(max_order),
{
    match max_order {
        Some(m) => if m < i32::MAX {
            Some(m + 1)
        } else {
            None
        },
        None => Some(1),
    }
}

/// Whether a brand may be deleted, given how many vehicles refer to it.
pub fn brand_deletable(referencing: i64) -> (r: bool)
    ensures
        r <==> referencing <= 0,
{
    referencing <= 0
}

/// Whether a vehicle's brand reference is valid, given how many brands carry its id.
pub fn brand_reference_valid(matching: i64) -> (r: bool)
    ensures
        r <==> matching != 0,
{
    matching != 0
}

} // verus!
