//! Position records and creation responses.
//!
//! A position is one geolocated, timestamped event tied to an identity.
//! The record identifier is the store's twelve-byte object id, generated
//! at record-building time; responses render it as hex text.

use vstd::prelude::*;
use crate::geo::GeoPoint;
use crate::hex::hex_of;
use crate::hex::to_hex;

verus! {

/// Length in bytes of a record identifier.
pub const RECORD_ID_BYTES: usize = 12;

/// A position record as it is persisted: identifier, owning identity,
/// creation time in milliseconds since the Unix epoch (UTC), and the
/// coordinate.
pub struct StoredPosition {
    /// The twelve-byte record identifier.
    pub id: Vec<u8>,
    /// The identity that owns this position.
    pub user: String,
    /// Creation time, milliseconds since the Unix epoch, UTC.
    pub created_at_millis: i64,
    /// The geospatial coordinate.
    pub location: GeoPoint,
}

impl StoredPosition {
    /// The structural invariant: the identifier has its fixed length and
    /// the coordinate is well-formed.
    pub open spec fn wf(self) -> bool {
        &&& self.id@.len() == RECORD_ID_BYTES
        &&& self.location.wf()
    }
}

/// Relies on `mongodb::bson::oid::ObjectId::new` and `ObjectId::bytes`:
/// generates a fresh object id and returns its raw twelve-byte
/// representation. The id depends on the clock, the process and a counter,
/// so nothing beyond its length is claimed. The underlying generator
/// aborts on a system clock before 1970 or past 2106; within that window
/// it does not fail.
#[verifier::external_body]
fn new_object_id() -> (r: Vec<u8>)
    ensures
        r@.len() == RECORD_ID_BYTES,
{
    mongodb::bson::oid::ObjectId::new().bytes().to_vec()
}

/// Relies on `mongodb::bson::DateTime::now` and `DateTime::timestamp_millis`:
/// the current time as milliseconds since the Unix epoch. The result
/// depends on the clock, so nothing is claimed of it.
#[verifier::external_body]
fn now_millis() -> i64 {
    mongodb::bson::DateTime::now().timestamp_millis()
}

/// Builds the record to persist for `user` at `location`: a fresh
/// identifier and the current time are stamped on it.
pub fn new_position(user: String, location: GeoPoint) -> (p: StoredPosition)
    requires
        location.wf(),
    ensures
        p.wf(),
        p.user == user,
        p.location == location,
{
    StoredPosition { id: new_object_id(), user, created_at_millis: now_millis(), location }
}

/// The creation response: the new record's identifier as hex text, and
/// the identity the position was written under.
pub struct CreateResponse {
    /// Hex text of the record identifier.
    pub id: String,
    /// The identity the position belongs to.
    pub user: String,
}

/// Builds the response for a freshly written position.
pub fn create_response(p: &StoredPosition) -> (r: CreateResponse)
    requires
        p.wf(),
    ensures
        r.id@ == hex_of(p.id@),
        r.id@.len() == 2 * RECORD_ID_BYTES,
        r.user == p.user,
{
    CreateResponse { id: to_hex(&p.id), user: p.user.clone() }
}

} // verus!
