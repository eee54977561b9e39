//! Small numeric helpers shared by the geometry code.

use vstd::prelude::*;

use crate::staff_spaces::StaffSpaces;

verus! {

/// The larger of two coordinates.
pub fn max(v1: StaffSpaces, v2: StaffSpaces) -> (r: StaffSpaces)
    ensures
        r@ == if v1@ > v2@ { v1@ } else { v2@ },
{
    if v1.units > v2.units {
        v1
    } else {
        v2
    }
}

} // verus!
