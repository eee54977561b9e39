//! The staff-space coordinate type.
//!
//! All geometry in this crate is measured in staff spaces: the distance
//! between two adjacent staff lines. A coordinate is held as a signed count
//! of fixed-point units, [`StaffSpaces::SCALE`] of them to one staff space,
//! so that positions such as half a staff space, font metrics such as 0.12
//! staff spaces, and note spacings such as 8/256 of the base space are all
//! exact. Keeping the unit in the type stops staff-space values from being
//! mixed with device coordinates; the conversion in [`crate::ir`] is the one
//! place the two meet.

use vstd::prelude::*;

verus! {

/// The largest magnitude, in staff-space units, that a coordinate handed to
/// a renderer may have. It leaves a generous margin: the layout arithmetic
/// adds at most a handful of bounded metrics to such a coordinate, and the
/// result still fits comfortably in an `i64`.
pub const COORD_LIMIT: i64 = 1_000_000_000_000_000;

/// The largest magnitude, in staff-space units, that a notehead position or
/// stem-length override handed to the layout may have: a tenth of
/// [`COORD_LIMIT`], so that the layout arithmetic around such a position
/// stays within [`COORD_LIMIT`].
pub const POSITION_LIMIT: i64 = 100_000_000_000_000;

/// A vertical or horizontal distance or position on the staff, in units of
/// `1 / SCALE` staff spaces.
#[derive(Clone, Copy, Debug, PartialEq, Eq, Structural)]
pub struct StaffSpaces {
    /// Fixed-point count of `1 / SCALE` staff spaces.
    pub units: i64,
}

impl View for StaffSpaces {
    type V = int;

    open spec fn view(&self) -> int {
        self.units as int
    }
}

impl StaffSpaces {
    /// Fixed-point units in one staff space.
    pub const SCALE: i64 = 10_000_000;

    /// The coordinate with the given count of `1 / SCALE` staff-space units.
    pub fn new(units: i64) -> (r: StaffSpaces)
        ensures
            r@ == units as int,
    {
        StaffSpaces { units }
    }

    /// The zero coordinate.
    pub fn zero() -> (r: StaffSpaces)
        ensures
            r@ == 0,
    {
        StaffSpaces { units: 0 }
    }

    /// `n` whole staff spaces.
    pub fn from_whole(n: i32) -> (r: StaffSpaces)
        ensures
            r@ == n as int * 10_000_000,
    {
        StaffSpaces { units: n as i64 * 10_000_000 }
    }

    /// `n` half staff spaces: the grid that staff positions lie on.
    pub fn from_halves(n: i32) -> (r: StaffSpaces)
        ensures
            r@ == n as int * 5_000_000,
    {
        StaffSpaces { units: n as i64 * 5_000_000 }
    }
}

} // verus!
