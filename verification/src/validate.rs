//! The request validator: rejects an id path parameter outside the accepted
//! range before it reaches the data layer.

use vstd::prelude::*;

verus! {

/// Smallest id the validating variant accepts.
pub const MIN_CAT_ID: i32 = 1;

/// Largest id the validating variant accepts.
pub const MAX_CAT_ID: i32 = 150;

/// Whether an id lies in the accepted range.
pub open spec fn id_in_range(id: int) -> bool {
    MIN_CAT_ID <= id <= MAX_CAT_ID
}

/// Range check on a path-supplied id: accepts exactly the ids in
/// `[MIN_CAT_ID, MAX_CAT_ID]`.
pub fn validate_cat_id(id: i32) -> (r: bool)
    ensures
        r == id_in_range(id as int),
{
    MIN_CAT_ID <= id && id <= MAX_CAT_ID
}

} // verus!
