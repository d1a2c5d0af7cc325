//! Coordinates as the transit provider hands them out: whole metres in the
//! Gauss-Krüger grid of zone 4.

use vstd::prelude::*;
use vstd::std_specs::convert::FromSpecImpl;

verus! {

/// Coordinates of a point in the provider's grid. The provider lists the
/// northing first and the easting second; the fields keep that order under
/// the names the provider's consumers know them by.
#[derive(Debug, Clone, Copy, PartialEq, Eq, Structural)]
pub struct DVBPointCoords {
    pub latitude: i64,
    pub longitude: i64,
}

impl From<(i64, i64)> for DVBPointCoords {
    fn from(coords: (i64, i64)) -> (point: DVBPointCoords) {
        DVBPointCoords { latitude: coords.0, longitude: coords.1 }
    }
}

impl FromSpecImpl<(i64, i64)> for DVBPointCoords {
    open spec fn obeys_from_spec() -> bool {
        true
    }

    open spec fn from_spec(coords: (i64, i64)) -> DVBPointCoords {
        DVBPointCoords { latitude: coords.0, longitude: coords.1 }
    }
}

impl DVBPointCoords {
    /// The pair as the projection wants it: easting first, northing second.
    pub fn easting_northing(&self) -> (pair: (i64, i64))
        ensures
            pair == (self.longitude, self.latitude),
    {
        (self.longitude, self.latitude)
    }
}

} // verus!
