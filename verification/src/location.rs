//! The resolved geographic position.

use vstd::prelude::*;
use crate::projection::UNITS_PER_DEGREE;

verus! {

/// The address of the lookup service: a plain `GET` of it answers with the
/// caller's own position, as JSON.
pub const ENDPOINT: &'static str = "http://ip-api.com/json/";

/// A geographic position as a lookup service reports it. Latitude and
/// longitude are in micro-degrees, north and east positive.
#[derive(Clone, Debug)]
pub struct IpLocation {
    pub country: String,
    pub city: String,
    pub lat: i32,
    pub lon: i32,
}

impl IpLocation {
    /// The position lies on the globe: latitude within 90 degrees of the
    /// equator, longitude within 180 degrees of the prime meridian.
    pub open spec fn in_range(&self) -> bool {
        &&& -90 * UNITS_PER_DEGREE <= self.lat <= 90 * UNITS_PER_DEGREE
        &&& -180 * UNITS_PER_DEGREE <= self.lon <= 180 * UNITS_PER_DEGREE
    }

    /// Tests whether the position lies on the globe.
    pub fn is_in_range(&self) -> (ok: bool)
        ensures
            ok == self.in_range(),
    {
        let lat: i64 = self.lat as i64;
        let lon: i64 = self.lon as i64;
        -90 * UNITS_PER_DEGREE <= lat && lat <= 90 * UNITS_PER_DEGREE
            && -180 * UNITS_PER_DEGREE <= lon && lon <= 180 * UNITS_PER_DEGREE
    }

    /// The text that stands for the position when it is displayed: its city.
    pub fn to_string(&self) -> (text: String)
        ensures
            text@ == self.city@,
    {
        self.city.clone()
    }
}

} // verus!
