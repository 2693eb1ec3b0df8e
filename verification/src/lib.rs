//! A compact database value type, query builders and the decisions of an
//! entity-tracking layer, with their behaviour stated and proved.

pub mod bits;
pub mod outside;
pub mod value;
pub mod text;
pub mod types;
pub mod error;
pub mod builders;
pub mod lists;
pub mod queries;
pub mod entity;
pub mod transaction;
pub mod order;

use vstd::prelude::*;

verus! {

/// The sum of two counts.
pub fn add(left: u64, right: u64) -> (r: u64)
    requires
        left + right <= u64::MAX,
    ensures
        r == left + right,
{
    left + right
}

} // verus!
