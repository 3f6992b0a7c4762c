//! The wire codec, the cleaners, the hashes, and fleet coordination.

use aspen::assign::{LeaseKv, assign_chateaus};
use aspen::cleaner::{filter_capital_corridor, gtfs_rt_cleanup, gtfs_rt_correct_route_id_string};
use aspen::feed::{
    Alert, EntitySelector, FeedEntity, FeedHeader, FeedMessage, TripDescriptor, TripUpdate,
    VehicleDescriptor, VehiclePosition,
};
use aspen::roughhash::rough_hash_of_gtfs_rt;
use aspen::strmap::StringMap;
use aspen::types::{ChateauDataNoGeometry, ChateausLeaderHashMap};

fn empty_trip() -> TripDescriptor {
    TripDescriptor {
        trip_id: None,
        route_id: None,
        direction_id: None,
        start_time: None,
        start_date: None,
        schedule_relationship: None,
    }
}

fn entity_with_route(id: &str, route: &str) -> FeedEntity {
    FeedEntity {
        id: String::from(id),
        is_deleted: false,
        trip_update: None,
        vehicle: Some(VehiclePosition {
            trip: Some(TripDescriptor {
                route_id: Some(String::from(route)),
                ..empty_trip()
            }),
            position: None,
            timestamp: Some(11),
            vehicle: None,
        }),
        alert: None,
    }
}

fn message_with(entities: Vec<FeedEntity>) -> FeedMessage {
    FeedMessage {
        header: FeedHeader {
            gtfs_realtime_version: Some(String::from("2.0")),
            incrementality: None,
            timestamp: Some(77),
        },
        entities,
    }
}

/// A varint, by hand, for wire-form tests.
fn varint(mut v: u64, out: &mut Vec<u8>) {
    while v >= 128 {
        out.push(((v % 128) + 128) as u8);
        v /= 128;
    }
    out.push(v as u8);
}

fn len_field(tag: u64, payload: &[u8], out: &mut Vec<u8>) {
    varint(tag, out);
    varint(payload.len() as u64, out);
    out.extend_from_slice(payload);
}

#[test]
fn round_trip_through_the_wire() {
    let message = message_with(vec![
        entity_with_route("e1", "84"),
        FeedEntity {
            id: String::from("alert-1"),
            is_deleted: true,
            trip_update: Some(TripUpdate {
                trip: Some(TripDescriptor {
                    trip_id: Some(String::from("t-é")),
                    start_time: Some(String::from("12:00:00")),
                    start_date: Some(String::from("20240101")),
                    direction_id: Some(1),
                    schedule_relationship: Some(0),
                    route_id: Some(String::from("A")),
                }),
                vehicle: Some(VehicleDescriptor {
                    id: Some(String::from("v-2")),
                    label: None,
                    license_plate: Some(String::from("7ABC123")),
                    wheelchair_accessible: Some(1),
                }),
                timestamp: Some(55),
                delay: Some(30),
            }),
            vehicle: None,
            alert: Some(Alert {
                informed_entity: vec![EntitySelector {
                    agency_id: Some(String::from("agency")),
                    route_id: Some(String::from("A")),
                    trip_id: Some(String::from("t-é")),
                    stop_id: Some(String::from("stop-7")),
                }],
                cause: Some(2),
                effect: Some(4),
                header_text: Some(String::from("Détour")),
                description_text: None,
            }),
        },
    ]);
    let bytes = aspen::encode::encode_feed_message(&message);
    let decoded = aspen::parse_gtfs_rt_message(bytes.as_slice()).unwrap();
    assert_eq!(message, decoded);
}

#[test]
fn malformed_bytes_are_rejected() {
    assert!(aspen::parse_gtfs_rt_message(&[0xff, 0xff, 0xff]).is_err());
    // a length prefix that runs past the buffer
    assert!(aspen::parse_gtfs_rt_message(&[0x0a, 0x7f, 0x01]).is_err());
    // a string field holding invalid UTF-8
    let mut entity = Vec::new();
    len_field(10, &[0xC3, 0x28], &mut entity);
    let mut msg = Vec::new();
    len_field(10, &[], &mut msg);
    len_field(18, &entity, &mut msg);
    assert!(aspen::parse_gtfs_rt_message(msg.as_slice()).is_err());
}

#[test]
fn decoding_ignores_wire_field_order() {
    // canonical order: header first, then the entity
    let canonical = aspen::encode::encode_feed_message(&message_with(vec![entity_with_route(
        "e1", "7",
    )]));
    let decoded_canonical = aspen::parse_gtfs_rt_message(canonical.as_slice()).unwrap();

    // the same payload with the entity emitted before the header
    let mut header = Vec::new();
    len_field(10, "2.0".as_bytes(), &mut header);
    varint(24, &mut header);
    varint(77, &mut header);

    let mut trip = Vec::new();
    len_field(42, "7".as_bytes(), &mut trip);
    let mut vehicle = Vec::new();
    len_field(10, &trip, &mut vehicle);
    varint(40, &mut vehicle);
    varint(11, &mut vehicle);
    let mut entity = Vec::new();
    len_field(10, "e1".as_bytes(), &mut entity);
    len_field(34, &vehicle, &mut entity);

    let mut reordered = Vec::new();
    len_field(18, &entity, &mut reordered);
    len_field(10, &header, &mut reordered);

    let decoded_reordered = aspen::parse_gtfs_rt_message(reordered.as_slice()).unwrap();
    assert_eq!(decoded_canonical, decoded_reordered);
    assert_eq!(
        rough_hash_of_gtfs_rt(&decoded_canonical),
        rough_hash_of_gtfs_rt(&decoded_reordered)
    );
}

#[test]
fn rough_hash_ignores_entity_order_but_sees_content() {
    let a = entity_with_route("e1", "7");
    let b = entity_with_route("e2", "8");
    let ab = message_with(vec![a.clone(), b.clone()]);
    let ba = message_with(vec![b, a]);
    assert_eq!(rough_hash_of_gtfs_rt(&ab), rough_hash_of_gtfs_rt(&ba));

    let other = message_with(vec![entity_with_route("e1", "7"), entity_with_route("e2", "9")]);
    assert_ne!(rough_hash_of_gtfs_rt(&ab), rough_hash_of_gtfs_rt(&other));
}

#[test]
fn cleanup_trims_and_drops_keyless_entities() {
    let message = message_with(vec![
        FeedEntity {
            id: String::from("  e1\t"),
            is_deleted: false,
            trip_update: None,
            vehicle: Some(VehiclePosition {
                trip: Some(TripDescriptor {
                    trip_id: Some(String::from(" t1 ")),
                    route_id: Some(String::from("   ")),
                    ..empty_trip()
                }),
                position: None,
                timestamp: None,
                vehicle: None,
            }),
            alert: None,
        },
        FeedEntity {
            id: String::from("   "),
            is_deleted: false,
            trip_update: None,
            vehicle: None,
            alert: None,
        },
    ]);
    let cleaned = gtfs_rt_cleanup(&message);
    assert_eq!(cleaned.entities.len(), 1);
    assert_eq!(cleaned.entities[0].id, "e1");
    let trip = cleaned.entities[0].vehicle.as_ref().unwrap().trip.as_ref().unwrap();
    assert_eq!(trip.trip_id.as_deref(), Some("t1"));
    assert_eq!(trip.route_id, None);
}

#[test]
fn route_ids_are_canonicalised_per_feed() {
    assert_eq!(
        aspen::route_id_transform("f-mta~nyc~rt~lirr", String::from("5")),
        "lirr5"
    );
    assert_eq!(aspen::route_id_transform("f-mta~nyc~rt~mnr", String::from("3")), "mnr3");
    assert_eq!(aspen::route_id_transform("f-bart~rt", String::from("5")), "5");

    let message = message_with(vec![entity_with_route("e1", "5")]);
    let corrected = gtfs_rt_correct_route_id_string(&message, "f-mta~nyc~rt~lirr");
    let trip = corrected.entities[0].vehicle.as_ref().unwrap().trip.as_ref().unwrap();
    assert_eq!(trip.route_id.as_deref(), Some("lirr5"));
}

#[test]
fn capital_corridor_entities_leave_the_amtrak_feed() {
    let message = message_with(vec![
        entity_with_route("cc", "84"),
        entity_with_route("zephyr", "17"),
    ]);
    let filtered = filter_capital_corridor(&message);
    assert_eq!(filtered.entities.len(), 1);
    assert_eq!(filtered.entities[0].id, "zephyr");
}

#[test]
fn fast_hash_depends_on_the_route_rows() {
    let row = |short: &str| aspen::dataset::AspenisedVehicleRouteCache {
        route_short_name: Some(String::from(short)),
        route_long_name: None,
        route_colour: None,
        route_text_colour: None,
    };
    let one = vec![row("7")];
    let other = vec![row("8")];
    assert_eq!(
        aspen::trusted::fast_hash_route_caches(&one),
        aspen::trusted::fast_hash_route_caches(&vec![row("7")])
    );
    assert_ne!(
        aspen::trusted::fast_hash_route_caches(&one),
        aspen::trusted::fast_hash_route_caches(&other)
    );
}

#[test]
fn maybe_tailscale_checks_the_interface_prefix() {
    assert!(aspen::maybe_tailscale("tailscale0"));
    assert!(aspen::maybe_tailscale("tailscale"));
    assert!(!aspen::maybe_tailscale("eth0"));
    assert!(!aspen::maybe_tailscale("tail"));
}

fn universe() -> ChateausLeaderHashMap {
    let mut chateaus: StringMap<ChateauDataNoGeometry> = StringMap::new();
    for name in ["alpha", "bravo", "charlie"] {
        chateaus.upsert(
            String::from(name),
            ChateauDataNoGeometry {
                chateau_id: String::from(name),
                static_feeds: vec![],
                realtime_feeds: vec![],
            },
        );
    }
    ChateausLeaderHashMap { chateaus }
}

#[test]
fn s3_one_leader_cycle_assigns_every_chateau_to_a_live_worker() {
    let chateaus = universe();
    let two = vec![String::from("w1"), String::from("w2")];
    let assigned = assign_chateaus(&chateaus, &two);
    assert_eq!(assigned.len(), 3);
    for name in ["alpha", "bravo", "charlie"] {
        let worker = assigned.get(name).unwrap();
        assert!(worker.as_str() == "w1" || worker.as_str() == "w2");
    }

    // the second worker's lease goes: the next cycle hands everything to
    // the survivor
    let one = vec![String::from("w1")];
    let assigned = assign_chateaus(&chateaus, &one);
    assert_eq!(assigned.len(), 3);
    for name in ["alpha", "bravo", "charlie"] {
        assert_eq!(assigned.get(name).unwrap().as_str(), "w1");
    }

    // stability: a chateau keeps its owner when the fleet does not change
    let again = assign_chateaus(&chateaus, &two);
    let once_more = assign_chateaus(&chateaus, &two);
    for name in ["alpha", "bravo", "charlie"] {
        assert_eq!(again.get(name), once_more.get(name));
    }
}

#[test]
fn leader_key_is_held_by_at_most_one_worker() {
    let mut kv = LeaseKv::new();
    assert!(kv.claim(String::from("/aspen_leader"), String::from("w1"), 7));
    // a competing campaign loses while the holder's lease is live
    assert!(!kv.claim(String::from("/aspen_leader"), String::from("w2"), 8));
    assert_eq!(kv.get("/aspen_leader").unwrap().value, "w1");

    // registrations under the expired lease vanish with the leader key
    kv.put_with_lease(String::from("/aspen_workers/w1"), String::from("w1-meta"), 7);
    kv.put_with_lease(String::from("/aspen_workers/w2"), String::from("w2-meta"), 8);
    kv.expire_lease(7);
    assert!(kv.get("/aspen_leader").is_none());
    assert!(kv.get("/aspen_workers/w1").is_none());
    assert_eq!(kv.get("/aspen_workers/w2").unwrap().value, "w2-meta");

    // now the other candidate can win
    assert!(kv.claim(String::from("/aspen_leader"), String::from("w2"), 8));
    assert_eq!(kv.get("/aspen_leader").unwrap().value, "w2");
}

#[test]
fn get_gtfs_rt_reencodes_the_stored_payload() {
    let mut server = aspen::server::AspenServer::new(
        String::from("w"),
        String::from("ip"),
        String::from("addr"),
        vec![],
        1,
    );
    let message = message_with(vec![entity_with_route("e1", "7")]);
    let bytes = aspen::encode::encode_feed_message(&message);
    assert!(server.from_alpenrose(
        String::from("c"),
        String::from("f"),
        Some(bytes.clone()),
        None,
        None,
        true,
        false,
        false,
        Some(200),
        None,
        None,
        0,
    ));
    let served = server
        .get_gtfs_rt(String::from("f"), aspen::GtfsRtType::VehiclePositions)
        .unwrap();
    // the payload was cleaned (nothing to clean here), so the re-encoded
    // bytes equal the canonical encoding
    assert_eq!(served, bytes);
}

#[test]
fn lirr_routes_are_prefixed_through_the_whole_pipeline() {
    let mut server = aspen::server::AspenServer::new(
        String::from("w"),
        String::from("ip"),
        String::from("addr"),
        vec![],
        1,
    );
    let bytes = aspen::encode::encode_feed_message(&message_with(vec![entity_with_route(
        "e1", "5",
    )]));
    assert!(server.from_alpenrose(
        String::from("c-lirr"),
        String::from("f-mta~nyc~rt~lirr"),
        Some(bytes),
        None,
        None,
        true,
        false,
        false,
        Some(200),
        None,
        None,
        0,
    ));
    let stored = server
        .get_gtfs_rt(String::from("f-mta~nyc~rt~lirr"), aspen::GtfsRtType::VehiclePositions)
        .unwrap();
    let decoded = aspen::parse_gtfs_rt_message(stored.as_slice()).unwrap();
    let trip = decoded.entities[0].vehicle.as_ref().unwrap().trip.as_ref().unwrap();
    assert_eq!(trip.route_id.as_deref(), Some("lirr5"));
}

#[test]
fn amtrak_feed_drops_capital_corridor_on_ingestion() {
    let mut server = aspen::server::AspenServer::new(
        String::from("w"),
        String::from("ip"),
        String::from("addr"),
        vec![],
        1,
    );
    let bytes = aspen::encode::encode_feed_message(&message_with(vec![
        entity_with_route("cc", "84"),
        entity_with_route("zephyr", "17"),
    ]));
    assert!(server.from_alpenrose(
        String::from("c-amtrak"),
        String::from("f-amtrak~rt"),
        Some(bytes),
        None,
        None,
        true,
        false,
        false,
        Some(200),
        None,
        None,
        0,
    ));
    let stored = server
        .get_gtfs_rt(String::from("f-amtrak~rt"), aspen::GtfsRtType::VehiclePositions)
        .unwrap();
    let decoded = aspen::parse_gtfs_rt_message(stored.as_slice()).unwrap();
    assert_eq!(decoded.entities.len(), 1);
    assert_eq!(decoded.entities[0].id, "zephyr");
}
