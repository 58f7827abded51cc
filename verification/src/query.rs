//! Proximity queries and result projection.
//!
//! The store answers a spherical nearest-neighbor search; this module
//! fixes the query's bounds and projects the returned records, in the
//! store's distance order, into the response shape: hex identifier,
//! identity, the creation time rendered at the fixed UTC+8 display
//! offset, and the longitude-first coordinate pair.

use vstd::prelude::*;
use crate::geo::GeoPoint;
use crate::hex::hex_of;
use crate::hex::to_hex;
use crate::position::StoredPosition;

verus! {

/// Bound on a proximity search: meters of great-circle distance from the
/// query point.
pub const MAX_DISTANCE_METERS: u64 = 20_000;

/// Cap on the number of results a proximity search returns.
pub const RESULT_LIMIT: u64 = 1_000;

/// Display offset applied to creation times: UTC+8, in seconds.
pub const DISPLAY_OFFSET_SECONDS: i32 = 28_800;

/// Latest creation time, in milliseconds since the Unix epoch, whose UTC+8
/// rendering still has a four-digit year (the last instant of year 9999 at
/// the display offset).
pub const MAX_RENDER_MILLIS: i64 = 253_402_271_999_999;

/// True when `millis` is a creation time the fixed-width rendering covers:
/// no earlier than the epoch and with a four-digit display year.
pub open spec fn renderable_millis(millis: i64) -> bool {
    0 <= millis <= MAX_RENDER_MILLIS
}

/// A proximity search: a center, a distance bound and a result cap.
pub struct NearQuery {
    /// The query point.
    pub center: GeoPoint,
    /// Results farther than this many meters are excluded.
    pub max_distance_meters: u64,
    /// At most this many results come back.
    pub limit: u64,
}

impl NearQuery {
    /// The search every query request runs: centered at `center`, with the
    /// compiled-in distance bound and result cap.
    pub fn standard(center: GeoPoint) -> (q: NearQuery)
        requires
            center.wf(),
        ensures
            q.center == center,
            q.max_distance_meters == MAX_DISTANCE_METERS,
            q.limit == RESULT_LIMIT,
    {
        NearQuery { center, max_distance_meters: MAX_DISTANCE_METERS, limit: RESULT_LIMIT }
    }
}

/// The text that rendering `millis` at the UTC+8 display offset in the
/// `YYYY-MM-DD HH:MM:SS` shape produces. The rendering is a function of
/// the instant alone; it is carried out by the calendar library.
pub uninterp spec fn display_time_of(millis: i64) -> Seq<char>;

/// Relies on chrono's `DateTime::from_timestamp_millis`,
/// `DateTime::with_timezone`, `FixedOffset::east_opt` and `format`:
/// renders the instant at the fixed UTC+8 offset as `%Y-%m-%d %H:%M:%S`.
/// `from_timestamp_millis` is documented to return `Some` for every
/// instant within roughly 262,000 years of the common era, which covers
/// all renderable creation times; each format specifier is zero-padded to
/// fixed width, so a rendering with a four-digit year has 19 characters.
#[verifier::external_body]
fn format_display_time(millis: i64) -> (r: Option<String>)
    ensures
        r matches Some(s) ==> s@ == display_time_of(millis),
        renderable_millis(millis) ==> r is Some,
        r matches Some(s) ==> (renderable_millis(millis) ==> s@.len() == 19),
{
    match chrono::DateTime::<chrono::Utc>::from_timestamp_millis(millis) {
        None => None,
        Some(instant) => {
            let offset = chrono::FixedOffset::east_opt(DISPLAY_OFFSET_SECONDS).unwrap();
            Some(instant.with_timezone(&offset).format("%Y-%m-%d %H:%M:%S").to_string())
        },
    }
}

/// One projected query result: hex identifier, identity, rendered
/// creation time, and the longitude-first coordinate pair in
/// microdegrees.
pub struct QueryRow {
    /// Hex text of the record identifier.
    pub id: String,
    /// The identity the position belongs to.
    pub user: String,
    /// The creation time at the UTC+8 display offset.
    pub create_time: String,
    /// The coordinate pair, longitude first.
    pub location: [i64; 2],
}

/// How a projected row reflects its record: identifier as hex text, the
/// identity unchanged, the creation time rendered at the display offset,
/// and the coordinates in stored order.
pub open spec fn row_reflects(row: QueryRow, p: StoredPosition) -> bool {
    &&& row.id@ == hex_of(p.id@)
    &&& row.user@ == p.user@
    &&& row.create_time@ == display_time_of(p.created_at_millis)
    &&& row.location@ == seq![p.location.lng_micro, p.location.lat_micro]
}

/// Projects one record into the response shape. Yields nothing exactly
/// when the record's creation time falls outside the fixed-width
/// rendering's range.
pub fn to_query_row(p: &StoredPosition) -> (r: Option<QueryRow>)
    requires
        p.id@.len() * 2 <= usize::MAX,
    ensures
        r is Some <==> renderable_millis(p.created_at_millis),
        r matches Some(row) ==> row_reflects(row, *p),
{
    if p.created_at_millis < 0 || p.created_at_millis > MAX_RENDER_MILLIS {
        return None;
    }
    match format_display_time(p.created_at_millis) {
        Some(create_time) => {
            let row = QueryRow {
                id: to_hex(&p.id),
                user: p.user.clone(),
                create_time,
                location: [p.location.lng_micro, p.location.lat_micro],
            };
            proof {
                assert(row.location@ =~= seq![p.location.lng_micro, p.location.lat_micro]);
            }
            Some(row)
        },
        None => None,
    }
}

/// Projects the records a proximity search returned, keeping the store's
/// distance order: row `i` reflects record `i`. Yields nothing exactly
/// when some record's creation time cannot be rendered.
pub fn project_positions(records: &Vec<StoredPosition>) -> (r: Option<Vec<QueryRow>>)
    requires
        forall|i: int| 0 <= i < records@.len() ==> (#[trigger] records@[i]).id@.len() * 2
            <= usize::MAX,
    ensures
        r is Some <==> forall|i: int|
            0 <= i < records@.len() ==> renderable_millis((#[trigger] records@[i]).created_at_millis),
        r matches Some(rows) ==> rows@.len() == records@.len() && forall|i: int|
            0 <= i < records@.len() ==> row_reflects(#[trigger] rows@[i], records@[i]),
{
    let mut rows: Vec<QueryRow> = Vec::new();
    let mut i: usize = 0;
    while i < records.len()
        invariant
            i <= records@.len(),
            rows@.len() == i,
            forall|j: int| 0 <= j < records@.len() ==> (#[trigger] records@[j]).id@.len() * 2
                <= usize::MAX,
            forall|j: int| 0 <= j < i ==> renderable_millis(
                (#[trigger] records@[j]).created_at_millis,
            ),
            forall|j: int| 0 <= j < i ==> row_reflects(#[trigger] rows@[j], records@[j]),
        decreases records@.len() - i,
    {
        match to_query_row(&records[i]) {
            Some(row) => {
                rows.push(row);
            },
            None => {
                return None;
            },
        }
        i = i + 1;
    }
    Some(rows)
}

} // verus!
