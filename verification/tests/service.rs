//! Scenario tests for the ingestion and identity pipeline, driven against
//! an in-memory stand-in for the persistent store.

use rwolf_server::error::ServiceError;
use rwolf_server::geo::GeoPoint;
use rwolf_server::identity::{mint_step, resolve_identity, KnownIdentities, MintStep};
use rwolf_server::position::{create_response, new_position, StoredPosition};
use rwolf_server::query::project_positions;

fn point(lng_micro: i64, lat_micro: i64) -> GeoPoint {
    GeoPoint::checked(lng_micro, lat_micro).expect("coordinates must be in range")
}

fn record(user: &str, lng_micro: i64, lat_micro: i64) -> StoredPosition {
    new_position(user.to_string(), point(lng_micro, lat_micro))
}

#[test]
fn create_without_identity_mints_fresh_user() {
    // Empty store, creation request without an identity: a fresh identity
    // is minted and the response carries a long hex record id.
    let known = KnownIdentities::from_names(vec![]);
    let user = resolve_identity(None, &known).expect("minting on an empty store must succeed");
    let rec = new_position(user.clone(), point(116_350_000, 39_950_000));
    let resp = create_response(&rec);
    assert_eq!(resp.user, user);
    assert_eq!(resp.id.len(), 24);
    assert!(resp.id.len() >= 20);
    assert!(resp.id.chars().all(|c| c.is_ascii_hexdigit()));
}

#[test]
fn create_with_known_identity_succeeds() {
    // The store knows "mike"; a creation request naming "mike" succeeds.
    let known = KnownIdentities::from_names(vec!["mike".to_string()]);
    let user = resolve_identity(Some("mike".to_string()), &known)
        .expect("a known identity must be accepted");
    assert_eq!(user, "mike");
    let rec = new_position(user, point(116_000_000, 38_100_000));
    let resp = create_response(&rec);
    assert_eq!(resp.user, "mike");
    assert_eq!(resp.id.len(), 24);
}

#[test]
fn create_with_unknown_identity_rejected() {
    // Empty store; naming an unknown identity fails as the caller's error
    // with the identity echoed in the reason string.
    let known = KnownIdentities::from_names(vec![]);
    let err = resolve_identity(Some("liuchuang".to_string()), &known)
        .expect_err("an unknown identity must be rejected");
    assert_eq!(err, ServiceError::NotFound("liuchuang".to_string()));
    let message = err.message();
    assert!(message.contains("user not found - liuchuang"));
    assert_eq!(message, "user not found - liuchuang");
    assert_eq!(err.http_status(), 400);
}

#[test]
fn validate_reflects_distinct_identity_projection() {
    // Identity existence is the distinct-identity projection of the
    // persisted positions, whatever the history looks like.
    let records = vec![
        record("mike", 116_000_000, 38_000_000),
        record("mike", 117_000_000, 38_500_000),
        record("anna", 118_000_000, 39_000_000),
    ];
    let known = KnownIdentities::from_records(&records);
    assert!(known.validate(&"mike".to_string()));
    assert!(known.validate(&"anna".to_string()));
    assert!(!known.validate(&"bob".to_string()));

    let empty = KnownIdentities::from_records(&vec![]);
    assert!(!empty.validate(&"mike".to_string()));
}

#[test]
fn sequential_mints_stay_distinct_once_persisted() {
    // Once the first minted identity is durably written, a second mint
    // reads a known set containing it and cannot accept it again.
    let before_any_write = KnownIdentities::from_names(vec![]);
    let first = match mint_step(Some("brave-fox-0001".to_string()), &before_any_write) {
        MintStep::Accepted(name) => name,
        other => panic!("fresh candidate must be accepted, got {:?}", step_name(&other)),
    };

    let after_first_write = KnownIdentities::from_names(vec![first.clone()]);
    match mint_step(Some(first.clone()), &after_first_write) {
        MintStep::Collision => {}
        other => panic!("persisted identity must collide, got {:?}", step_name(&other)),
    }
    let second = match mint_step(Some("calm-owl-0002".to_string()), &after_first_write) {
        MintStep::Accepted(name) => name,
        other => panic!("fresh candidate must be accepted, got {:?}", step_name(&other)),
    };
    assert_ne!(first, second);
}

#[test]
fn unpersisted_mint_race_can_duplicate() {
    // The documented race window: two mints whose checks both run before
    // either write persists read the same known set, and may both accept
    // the same candidate.
    let snapshot = KnownIdentities::from_names(vec![]);
    let first = match mint_step(Some("brave-fox-0001".to_string()), &snapshot) {
        MintStep::Accepted(name) => name,
        other => panic!("fresh candidate must be accepted, got {:?}", step_name(&other)),
    };
    let second = match mint_step(Some("brave-fox-0001".to_string()), &snapshot) {
        MintStep::Accepted(name) => name,
        other => panic!("fresh candidate must be accepted, got {:?}", step_name(&other)),
    };
    assert_eq!(first, second);
}

#[test]
fn exhausted_generator_ends_with_error_not_a_loop() {
    // Every candidate collides for a long stretch, then the generator
    // yields nothing: minting ends in the exhaustion error.
    let known = KnownIdentities::from_names(vec!["dup-name-0001".to_string()]);
    for _ in 0..4096 {
        match mint_step(Some("dup-name-0001".to_string()), &known) {
            MintStep::Collision => {}
            other => panic!("colliding candidate must retry, got {:?}", step_name(&other)),
        }
    }
    match mint_step(None, &known) {
        MintStep::Exhausted => {}
        other => panic!("an empty draw must exhaust, got {:?}", step_name(&other)),
    }
    let err = ServiceError::Exhausted;
    assert_eq!(err.message(), "generate name error");
    assert_eq!(err.http_status(), 500);
}

#[test]
fn round_trip_insert_then_query_finds_the_position() {
    // Inserting a position and querying at the same point with a small
    // radius must include it.
    let mut store: Vec<StoredPosition> = Vec::new();
    store.push(record("mike", 116_350_000, 39_950_000));

    let hits = simulated_near_query(&store, 116_350_000, 39_950_000, 10.0);
    let rows = project_positions(&hits).expect("fresh timestamps must render");
    assert_eq!(rows.len(), 1);
    assert_eq!(rows[0].user, "mike");
    assert_eq!(rows[0].location, [116_350_000, 39_950_000]);
}

#[test]
fn query_returns_only_the_nearby_position() {
    // Positions at (116.35, 39.95) and (120, 30); a query at the first
    // point bounded by 2000 meters sees only the first.
    let mut store: Vec<StoredPosition> = Vec::new();
    store.push(record("near-user", 116_350_000, 39_950_000));
    store.push(record("far-user", 120_000_000, 30_000_000));

    let hits = simulated_near_query(&store, 116_350_000, 39_950_000, 2000.0);
    let rows = project_positions(&hits).expect("fresh timestamps must render");
    assert_eq!(rows.len(), 1);
    assert_eq!(rows[0].user, "near-user");
    assert_eq!(rows[0].location, [116_350_000, 39_950_000]);
}

#[test]
fn projection_keeps_the_store_order() {
    // The store hands results ordered by ascending distance; projection
    // keeps that order unchanged.
    let store = vec![
        record("first", 116_350_000, 39_950_000),
        record("second", 116_360_000, 39_950_000),
        record("third", 116_400_000, 39_950_000),
    ];
    let hits = simulated_near_query(&store, 116_350_000, 39_950_000, 20_000.0);
    assert_eq!(hits.len(), 3);
    let rows = project_positions(&hits).expect("fresh timestamps must render");
    let users: Vec<&str> = rows.iter().map(|r| r.user.as_str()).collect();
    assert_eq!(users, vec!["first", "second", "third"]);
}

fn step_name(step: &MintStep) -> &'static str {
    match step {
        MintStep::Accepted(_) => "Accepted",
        MintStep::Collision => "Collision",
        MintStep::Exhausted => "Exhausted",
    }
}

/// The store collaborator's spherical search, simulated: keeps the
/// positions within `max_distance_meters` of the query point, ordered by
/// ascending great-circle distance.
fn simulated_near_query(
    store: &[StoredPosition],
    lng_micro: i64,
    lat_micro: i64,
    max_distance_meters: f64,
) -> Vec<StoredPosition> {
    let mut hits: Vec<(f64, StoredPosition)> = store
        .iter()
        .map(|p| {
            let d = great_circle_meters(
                lng_micro as f64 / 1e6,
                lat_micro as f64 / 1e6,
                p.location.lng_micro as f64 / 1e6,
                p.location.lat_micro as f64 / 1e6,
            );
            (d, clone_record(p))
        })
        .filter(|(d, _)| *d <= max_distance_meters)
        .collect();
    hits.sort_by(|a, b| a.0.partial_cmp(&b.0).unwrap());
    hits.into_iter().map(|(_, p)| p).collect()
}

fn clone_record(p: &StoredPosition) -> StoredPosition {
    StoredPosition {
        id: p.id.clone(),
        user: p.user.clone(),
        created_at_millis: p.created_at_millis,
        location: GeoPoint::checked(p.location.lng_micro, p.location.lat_micro).unwrap(),
    }
}

fn great_circle_meters(lng_a: f64, lat_a: f64, lng_b: f64, lat_b: f64) -> f64 {
    let r = 6_371_000.0_f64;
    let to_rad = std::f64::consts::PI / 180.0;
    let d_lat = (lat_b - lat_a) * to_rad;
    let d_lng = (lng_b - lng_a) * to_rad;
    let h = (d_lat / 2.0).sin().powi(2)
        + (lat_a * to_rad).cos() * (lat_b * to_rad).cos() * (d_lng / 2.0).sin().powi(2);
    2.0 * r * h.sqrt().asin()
}
