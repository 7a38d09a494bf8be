//! Positions on the globe, in fixed point.

use vstd::prelude::*;

verus! {

/// Number of position units in one degree.
pub const UNITS_PER_DEGREE: i64 = 1_000_000_000;

/// A point given by latitude and longitude, each counted in units of
/// `1 / UNITS_PER_DEGREE` of a degree. Every pair of values is a position.
#[derive(Clone, Copy, Debug, PartialEq, Eq, Structural)]
pub struct Coordinates {
    pub latitude: i64,
    pub longitude: i64,
}

impl Default for Coordinates {
    fn default() -> (c: Coordinates)
        ensures
            c.latitude == 0,
            c.longitude == 0,
    {
        Coordinates { latitude: 0, longitude: 0 }
    }
}

} // verus!
