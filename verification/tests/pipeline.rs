//! End-to-end behaviour of the ingestion pipeline and the query plane.

use aspen::dataset::AspenisedVehicleRouteCache;
use aspen::enrich::RouteRow;
use aspen::feed::{
    FeedEntity, FeedHeader, FeedMessage, GtfsRtType, Position, TripDescriptor, TripUpdate,
    VehicleDescriptor, VehiclePosition,
};
use aspen::server::AspenServer;
use aspen::types::ChateauDataNoGeometry;

fn fresh_server() -> AspenServer {
    AspenServer::new(
        String::from("worker-1"),
        String::from("fd7a::1"),
        String::from("[fd7a::1]:40427"),
        vec![String::from("localhost:2379")],
        7,
    )
}

fn empty_trip() -> TripDescriptor {
    TripDescriptor {
        trip_id: None,
        route_id: None,
        direction_id: None,
        start_time: None,
        start_date: None,
        schedule_relationship: None,
    }
}

fn vehicle_message(ts: u64, entity_id: &str, vehicle_id: &str, route: &str) -> FeedMessage {
    FeedMessage {
        header: FeedHeader {
            gtfs_realtime_version: Some(String::from("2.0")),
            incrementality: None,
            timestamp: Some(ts),
        },
        entities: vec![FeedEntity {
            id: String::from(entity_id),
            is_deleted: false,
            trip_update: None,
            vehicle: Some(VehiclePosition {
                trip: Some(TripDescriptor {
                    trip_id: Some(String::from("t1")),
                    route_id: Some(String::from(route)),
                    ..empty_trip()
                }),
                position: Some(Position {
                    latitude_bits: 0x42061068,
                    longitude_bits: 0xc2ec5d2f,
                    bearing_bits: None,
                    odometer_bits: None,
                    speed_bits: Some(0x41200000),
                }),
                timestamp: Some(500),
                vehicle: Some(VehicleDescriptor {
                    id: Some(String::from(vehicle_id)),
                    label: Some(String::from("Car 4")),
                    license_plate: None,
                    wheelchair_accessible: None,
                }),
            }),
            alert: None,
        }],
    }
}

fn chateau_x() -> ChateauDataNoGeometry {
    ChateauDataNoGeometry {
        chateau_id: String::from("chateau-x"),
        static_feeds: vec![String::from("f-static")],
        realtime_feeds: vec![String::from("f-feed~rt")],
    }
}

fn submit(server: &mut AspenServer, bytes: Option<Vec<u8>>, code: Option<u16>) -> bool {
    server.from_alpenrose(
        String::from("chateau-x"),
        String::from("f-feed~rt"),
        bytes,
        None,
        None,
        true,
        false,
        false,
        code,
        None,
        None,
        1_700_000_000_000,
    )
}

#[test]
fn s1_submit_then_duplicate_keeps_one_pending_entry() {
    let mut server = fresh_server();
    let payload = aspen::encode::encode_feed_message(&vehicle_message(1000, "e1", "veh-1", "7"));

    assert!(submit(&mut server, Some(payload.clone()), Some(200)));
    let stored = server.get_gtfs_rt(String::from("f-feed~rt"), GtfsRtType::VehiclePositions);
    assert!(stored.is_some());
    assert_eq!(server.queued_len(), 1);

    assert!(submit(&mut server, Some(payload), Some(200)));
    assert_eq!(server.queued_len(), 1);
}

#[test]
fn s2_same_timestamp_same_entities_is_old_despite_byte_order() {
    let mut index = aspen::dedup::DedupIndex::new();
    let m1 = vehicle_message(1000, "e1", "veh-1", "7");
    // the same content decoded from a differently ordered wire form is the
    // same message, so the rough hash agrees and the verdict is Old
    let bytes = aspen::encode::encode_feed_message(&m1);
    let m2 = aspen::parse_gtfs_rt_message(bytes.as_slice()).unwrap();
    assert_eq!(m1, m2);

    let first = index.observe("f-feed~rt", GtfsRtType::VehiclePositions, &m1);
    let second = index.observe("f-feed~rt", GtfsRtType::VehiclePositions, &m2);
    assert_eq!(first, aspen::types::NewDataStatus::New);
    assert_eq!(second, aspen::types::NewDataStatus::Old);
}

#[test]
fn dedup_hash_catches_unbumped_content_change() {
    let mut index = aspen::dedup::DedupIndex::new();
    let m1 = vehicle_message(1000, "e1", "veh-1", "7");
    let m2 = vehicle_message(2000, "e1", "veh-1", "7");
    let m2b = vehicle_message(2500, "e1", "veh-1", "7");
    let m3 = vehicle_message(3000, "e2", "veh-2", "8");

    // first sighting records the timestamp alone
    assert_eq!(index.observe("f", GtfsRtType::VehiclePositions, &m1), aspen::types::NewDataStatus::New);
    // the timestamp moved and no hash was remembered yet: New, hash recorded
    assert_eq!(index.observe("f", GtfsRtType::VehiclePositions, &m2), aspen::types::NewDataStatus::New);
    // the timestamp moved again but the content did not: the hash says Old
    assert_eq!(index.observe("f", GtfsRtType::VehiclePositions, &m2b), aspen::types::NewDataStatus::Old);
    // timestamp and content moved: New
    assert_eq!(index.observe("f", GtfsRtType::VehiclePositions, &m3), aspen::types::NewDataStatus::New);
}

#[test]
fn timestampless_payloads_always_count_as_new() {
    let mut index = aspen::dedup::DedupIndex::new();
    let mut m = vehicle_message(1000, "e1", "veh-1", "7");
    m.header.timestamp = None;
    assert_eq!(index.observe("f", GtfsRtType::VehiclePositions, &m), aspen::types::NewDataStatus::New);
    assert_eq!(index.observe("f", GtfsRtType::VehiclePositions, &m), aspen::types::NewDataStatus::New);
}

#[test]
fn s4_conditional_cache_by_route_hash() {
    let mut server = fresh_server();

    // X unknown to the enriched store: none, whatever the hash
    assert!(server.get_vehicle_locations(String::from("chateau-x"), Some(42)).is_none());

    let payload = aspen::encode::encode_feed_message(&vehicle_message(1000, "e1", "veh-1", "7"));
    assert!(submit(&mut server, Some(payload), Some(200)));
    let routes = vec![RouteRow {
        route_id: String::from("7"),
        short_name: Some(String::from("7")),
        long_name: Some(String::from("Flushing Local")),
        color: Some(String::from("B933AD")),
        text_color: Some(String::from("FFFFFF")),
    }];
    server.enrich_chateau(&chateau_x(), &routes, 17_000);

    let full = server.get_vehicle_locations(String::from("chateau-x"), None).unwrap();
    let hash = full.hash_of_routes;
    assert!(full.vehicle_route_cache.is_some());
    assert_eq!(full.last_updated_time_ms, 17_000);
    assert_eq!(full.vehicle_positions.len(), 1);
    let served = full.vehicle_positions.get("veh-1").unwrap();
    assert_eq!(served.trip.as_ref().unwrap().route_id.as_deref(), Some("7"));
    let cache = full.vehicle_route_cache.as_ref().unwrap();
    assert_eq!(
        cache.get("7"),
        Some(&AspenisedVehicleRouteCache {
            route_short_name: Some(String::from("7")),
            route_long_name: Some(String::from("Flushing Local")),
            route_colour: Some(String::from("B933AD")),
            route_text_colour: Some(String::from("FFFFFF")),
        })
    );

    // matching hash: the cache is omitted, positions still sent
    let reuse = server.get_vehicle_locations(String::from("chateau-x"), Some(hash)).unwrap();
    assert!(reuse.vehicle_route_cache.is_none());
    assert_eq!(reuse.hash_of_routes, hash);
    assert_eq!(reuse.vehicle_positions.len(), 1);

    // any other hash: the cache is included
    let stale = server
        .get_vehicle_locations(String::from("chateau-x"), Some(hash.wrapping_sub(1)))
        .unwrap();
    assert!(stale.vehicle_route_cache.is_some());
}

#[test]
fn s5_failed_poll_changes_nothing_but_acknowledges() {
    let mut server = fresh_server();
    let payload = aspen::encode::encode_feed_message(&vehicle_message(1000, "e1", "veh-1", "7"));

    assert!(submit(&mut server, Some(payload), Some(500)));
    assert!(server.get_gtfs_rt(String::from("f-feed~rt"), GtfsRtType::VehiclePositions).is_none());
    assert_eq!(server.queued_len(), 0);
}

#[test]
fn s6_malformed_payload_is_treated_as_absent() {
    let mut server = fresh_server();
    let garbage = vec![0xffu8, 0x07, 0x99];

    let ok = server.from_alpenrose(
        String::from("chateau-x"),
        String::from("f-feed~rt"),
        None,
        Some(garbage),
        None,
        false,
        true,
        false,
        None,
        Some(200),
        None,
        1_700_000_000_000,
    );
    assert!(ok);
    assert!(server.get_gtfs_rt(String::from("f-feed~rt"), GtfsRtType::TripUpdates).is_none());
    assert_eq!(server.queued_len(), 0);
}

#[test]
fn coalescing_holds_until_enrichment_completes() {
    let mut server = fresh_server();
    let p1 = aspen::encode::encode_feed_message(&vehicle_message(1000, "e1", "veh-1", "7"));
    let p2 = aspen::encode::encode_feed_message(&vehicle_message(2000, "e1", "veh-1", "8"));
    let p3 = aspen::encode::encode_feed_message(&vehicle_message(3000, "e1", "veh-1", "9"));

    assert!(submit(&mut server, Some(p1), Some(200)));
    assert_eq!(server.queued_len(), 1);

    // new data for the same chateau while a job is resident: coalesced
    assert!(submit(&mut server, Some(p2), Some(200)));
    assert_eq!(server.queued_len(), 1);

    // a drainer takes the job; the chateau stays marked until released
    let taken = server.take_pending().unwrap();
    assert_eq!(taken.chateau_id, "chateau-x");
    assert_eq!(server.queued_len(), 0);
    assert!(server.is_chateau_in_flight("chateau-x"));

    assert!(submit(&mut server, Some(p3.clone()), Some(200)));
    assert_eq!(server.queued_len(), 0);

    // releasing reopens the chateau
    server.enrich_chateau(&chateau_x(), &Vec::new(), 18_000);
    assert!(!server.is_chateau_in_flight("chateau-x"));
    let p4 = aspen::encode::encode_feed_message(&vehicle_message(4000, "e1", "veh-1", "6"));
    assert!(submit(&mut server, Some(p4), Some(200)));
    assert_eq!(server.queued_len(), 1);
}

#[test]
fn vehicle_without_static_row_is_served_without_cache_entry() {
    let mut server = fresh_server();
    let payload = aspen::encode::encode_feed_message(&vehicle_message(1000, "e1", "veh-1", "99"));
    assert!(submit(&mut server, Some(payload), Some(200)));
    server.enrich_chateau(&chateau_x(), &Vec::new(), 19_000);

    let resp = server.get_vehicle_locations(String::from("chateau-x"), None).unwrap();
    assert_eq!(resp.vehicle_positions.len(), 1);
    assert_eq!(resp.vehicle_route_cache.as_ref().unwrap().len(), 0);

    let single = server
        .get_single_vehicle_location_from_gtfsid(String::from("chateau-x"), String::from("veh-1"))
        .unwrap();
    assert_eq!(single.timestamp, Some(500));
    assert!(server
        .get_single_vehicle_location_from_gtfsid(String::from("chateau-x"), String::from("veh-9"))
        .is_none());
}

#[test]
fn hello_names_caller_and_address() {
    let server = fresh_server();
    let greeting = server.hello(String::from("Alpenrose"));
    assert_eq!(greeting, "Hello, Alpenrose! You are connected from [fd7a::1]:40427");
}

#[test]
fn trip_updates_resolve_by_trip_id() {
    let mut server = fresh_server();
    let message = FeedMessage {
        header: FeedHeader {
            gtfs_realtime_version: Some(String::from("2.0")),
            incrementality: None,
            timestamp: Some(500),
        },
        entities: vec![FeedEntity {
            id: String::from("u1"),
            is_deleted: false,
            trip_update: Some(TripUpdate {
                trip: Some(TripDescriptor {
                    trip_id: Some(String::from("trip-9")),
                    route_id: Some(String::from("7")),
                    ..empty_trip()
                }),
                vehicle: None,
                timestamp: Some(500),
                delay: Some(120),
            }),
            vehicle: None,
            alert: None,
        }],
    };
    let bytes = aspen::encode::encode_feed_message(&message);
    let ok = server.from_alpenrose(
        String::from("chateau-x"),
        String::from("f-feed~rt"),
        None,
        Some(bytes),
        None,
        false,
        true,
        false,
        None,
        Some(200),
        None,
        1_700_000_000_000,
    );
    assert!(ok);
    server.enrich_chateau(&chateau_x(), &Vec::new(), 20_000);

    let updates = server
        .get_trip_updates_from_trip_id(String::from("chateau-x"), String::from("trip-9"))
        .unwrap();
    assert_eq!(updates.len(), 1);
    assert_eq!(updates[0].delay, Some(120));
    assert!(server
        .get_trip_updates_from_trip_id(String::from("chateau-x"), String::from("no-such-trip"))
        .is_none());
}

fn alert_message() -> FeedMessage {
    FeedMessage {
        header: FeedHeader {
            gtfs_realtime_version: Some(String::from("2.0")),
            incrementality: None,
            timestamp: Some(900),
        },
        entities: vec![FeedEntity {
            id: String::from("alert-1"),
            is_deleted: false,
            trip_update: None,
            vehicle: None,
            alert: Some(aspen::feed::Alert {
                informed_entity: vec![aspen::feed::EntitySelector {
                    agency_id: None,
                    route_id: Some(String::from("7")),
                    trip_id: Some(String::from("t1")),
                    stop_id: Some(String::from("stop-9")),
                }],
                cause: Some(1),
                effect: Some(8),
                header_text: Some(String::from("Planned work")),
                description_text: Some(String::from("Shuttle buses provided")),
            }),
        }],
    }
}

#[test]
fn alerts_are_indexed_by_route_stop_and_trip() {
    let mut server = fresh_server();
    let bytes = aspen::encode::encode_feed_message(&alert_message());
    let ok = server.from_alpenrose(
        String::from("chateau-x"),
        String::from("f-feed~rt"),
        None,
        None,
        Some(bytes),
        false,
        false,
        true,
        None,
        None,
        Some(200),
        1_700_000_000_000,
    );
    assert!(ok);
    server.enrich_chateau(&chateau_x(), &Vec::new(), 21_000);

    let all = server.get_all_alerts(String::from("chateau-x")).unwrap();
    assert_eq!(all.len(), 1);
    let alert = all.get("alert-1").unwrap();
    assert_eq!(alert.header_text.as_deref(), Some("Planned work"));

    let by_route = server
        .get_alerts_from_route_id(String::from("chateau-x"), String::from("7"))
        .unwrap();
    assert_eq!(by_route.len(), 1);
    assert_eq!(by_route[0].0, "alert-1");
    assert_eq!(by_route[0].1.effect, Some(8));

    let by_stop = server
        .get_alerts_from_stop_id(String::from("chateau-x"), String::from("stop-9"))
        .unwrap();
    assert_eq!(by_stop.len(), 1);

    let by_trip = server
        .get_alert_from_trip_id(String::from("chateau-x"), String::from("t1"))
        .unwrap();
    assert_eq!(by_trip.len(), 1);

    // an unindexed route resolves to an empty list, not an error
    let none = server
        .get_alerts_from_route_id(String::from("chateau-x"), String::from("99"))
        .unwrap();
    assert!(none.is_empty());

    // a stop set: hits map to their alert identifiers, misses are absent
    let many = server
        .get_alert_from_stop_ids(
            String::from("chateau-x"),
            vec![String::from("stop-9"), String::from("stop-0")],
        )
        .unwrap();
    assert_eq!(many.stop_alerts.len(), 1);
    assert_eq!(many.stop_alerts.get("stop-9").unwrap(), &vec![String::from("alert-1")]);
    assert!(many.stop_alerts.get("stop-0").is_none());
    assert!(many.alerts.get("alert-1").is_some());

    // an unknown chateau yields nothing at all
    assert!(server.get_all_alerts(String::from("nowhere")).is_none());
}

#[test]
fn a_failed_static_fetch_releases_without_publishing() {
    let mut server = fresh_server();
    let payload = aspen::encode::encode_feed_message(&vehicle_message(1000, "e1", "veh-1", "7"));
    assert!(submit(&mut server, Some(payload), Some(200)));
    let taken = server.take_pending().unwrap();
    assert!(server.is_chateau_in_flight("chateau-x"));

    // the static round-trip failed: release, publish nothing
    server.release_chateau(&taken.chateau_id);
    assert!(!server.is_chateau_in_flight("chateau-x"));
    assert!(server.get_vehicle_locations(String::from("chateau-x"), None).is_none());

    // the next submission triggers a fresh attempt
    let p2 = aspen::encode::encode_feed_message(&vehicle_message(2000, "e1", "veh-1", "8"));
    assert!(submit(&mut server, Some(p2), Some(200)));
    assert_eq!(server.queued_len(), 1);
}
