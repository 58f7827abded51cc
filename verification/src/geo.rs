//! Geospatial coordinates for position records.
//!
//! A coordinate is held in microdegrees (degrees scaled by one million), so
//! every value the library reasons about is an exact integer. The geometry
//! keeps the GeoJSON conventions: a fixed `"Point"` type tag and the
//! longitude-first axis order.

use vstd::prelude::*;

verus! {

/// Degrees are scaled by this factor to give microdegrees.
pub const MICRO_PER_DEGREE: i64 = 1_000_000;

/// Smallest admissible longitude, -180 degrees in microdegrees.
pub const MIN_LNG_MICRO: i64 = -180_000_000;

/// Largest admissible longitude, 180 degrees in microdegrees.
pub const MAX_LNG_MICRO: i64 = 180_000_000;

/// Smallest admissible latitude, -90 degrees in microdegrees.
pub const MIN_LAT_MICRO: i64 = -90_000_000;

/// Largest admissible latitude, 90 degrees in microdegrees.
pub const MAX_LAT_MICRO: i64 = 90_000_000;

/// True when `lng` lies in the admissible longitude range.
pub open spec fn lng_in_range(lng: i64) -> bool {
    MIN_LNG_MICRO <= lng <= MAX_LNG_MICRO
}

/// True when `lat` lies in the admissible latitude range.
pub open spec fn lat_in_range(lat: i64) -> bool {
    MIN_LAT_MICRO <= lat <= MAX_LAT_MICRO
}

/// A point on the sphere, stored as a structured geometry value: a type tag
/// that is always `"Point"` and a longitude-first coordinate pair in
/// microdegrees.
pub struct GeoPoint {
    /// The geometry type tag; well-formed points always carry `"Point"`.
    pub geo_type: String,
    /// Longitude in microdegrees; first axis of the stored coordinate pair.
    pub lng_micro: i64,
    /// Latitude in microdegrees; second axis of the stored coordinate pair.
    pub lat_micro: i64,
}

impl GeoPoint {
    /// The structural invariant: the tag is exactly `"Point"` and both
    /// coordinates lie in their admissible ranges.
    pub open spec fn wf(self) -> bool {
        &&& self.geo_type@ == "Point"@
        &&& lng_in_range(self.lng_micro)
        &&& lat_in_range(self.lat_micro)
    }

    /// Builds a point from in-range microdegree coordinates.
    pub fn new(lng_micro: i64, lat_micro: i64) -> (p: GeoPoint)
        requires
            lng_in_range(lng_micro),
            lat_in_range(lat_micro),
        ensures
            p.wf(),
            p.lng_micro == lng_micro,
            p.lat_micro == lat_micro,
    {
        GeoPoint { geo_type: "Point".to_owned(), lng_micro, lat_micro }
    }

    /// Validating constructor: accepts exactly the coordinates whose
    /// longitude and latitude lie in the admissible ranges.
    pub fn checked(lng_micro: i64, lat_micro: i64) -> (r: Option<GeoPoint>)
        ensures
            r is Some <==> lng_in_range(lng_micro) && lat_in_range(lat_micro),
            r matches Some(p) ==> p.wf() && p.lng_micro == lng_micro && p.lat_micro == lat_micro,
    {
        if MIN_LNG_MICRO <= lng_micro && lng_micro <= MAX_LNG_MICRO && MIN_LAT_MICRO <= lat_micro
            && lat_micro <= MAX_LAT_MICRO {
            Some(GeoPoint::new(lng_micro, lat_micro))
        } else {
            None
        }
    }

    /// The coordinate pair in stored order: longitude first, then latitude.
    pub fn coordinates(&self) -> (c: [i64; 2])
        ensures
            c@ == seq![self.lng_micro, self.lat_micro],
    {
        let c = [self.lng_micro, self.lat_micro];
        proof {
            assert(c@ =~= seq![self.lng_micro, self.lat_micro]);
        }
        c
    }
}

} // verus!
