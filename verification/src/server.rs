//! The Aspen worker: ingestion of raw payloads pushed by the upstream
//! poller, and the read-side query plane over the raw and enriched stores.

use vstd::prelude::*;
use vstd::string::StringExecFns;

use crate::cleaner::{
    filter_capital_corridor, gtfs_rt_cleanup, gtfs_rt_correct_route_id_string, sp_cleanup,
    sp_correct_route_ids, sp_filter_capital_corridor,
};
use crate::dataset::{
    AlertsforManyStops, AspenisedAlert, AspenisedData, AspenisedTripUpdate,
    AspenisedVehiclePosition, GetVehicleLocationsResponse, dup_aspenised_vehicle_position,
    route_cache_values,
};
use crate::decode::{parse_gtfs_rt_message, sp_parse_feed};
use crate::dedup::{DedupIndex, sp_dedup_map_next, sp_dedup_verdict, sp_lookup};
use crate::encode::{encode_feed_message, sp_feed_bytes};
use crate::enrich::{
    FeedTriple, RouteRow, build_artifact, sp_matches_route_row, sp_matches_vehicle,
    sp_selector_route, sp_selector_stop, sp_selector_trip, sp_triple_alert_entities,
    sp_triple_trip_entities, sp_triple_vehicle_entities, sp_tu_trip_id, sp_vehicle_key,
    sp_vehicle_route,
};
use crate::feed::{FeedMessage, GtfsRtType};
use crate::queue::ChateauWorkQueue;
use crate::roughhash::sp_rough_hash;
use crate::strmap::StringMap;
use crate::strutil::str_eq;
use crate::trusted::{
    fast_hash_of_route_caches, fast_hash_route_caches, scc_artifact_contents, scc_artifact_get,
    scc_artifact_new, scc_artifact_upsert, scc_feed_contents, scc_feed_get, scc_feed_new,
    scc_feed_upsert,
};
use crate::types::{
    DedupEntry, NewDataStatus, ProcessAlpenroseData, empty_artifact_contents,
    empty_dedup_contents, empty_feed_contents, empty_queue_contents,
};

verus! {

/// The dedup store after observing one optional payload.
pub open spec fn sp_slot_next(
    d: Map<(Seq<char>, GtfsRtType), DedupEntry>,
    feed: Seq<char>,
    kind: GtfsRtType,
    slot: Option<FeedMessage>,
) -> Map<(Seq<char>, GtfsRtType), DedupEntry> {
    match slot {
        None => d,
        Some(m) => sp_dedup_map_next(d, (feed, kind), m@.header.timestamp, sp_rough_hash(m@)),
    }
}

/// Whether one optional payload draws a New verdict against the dedup
/// store.
pub open spec fn sp_slot_new(
    d: Map<(Seq<char>, GtfsRtType), DedupEntry>,
    feed: Seq<char>,
    kind: GtfsRtType,
    slot: Option<FeedMessage>,
) -> bool {
    match slot {
        None => false,
        Some(m) => sp_dedup_verdict(
            sp_lookup(d, (feed, kind)),
            m@.header.timestamp,
            sp_rough_hash(m@),
        ) == NewDataStatus::New,
    }
}

/// The raw store after installing one optional payload.
pub open spec fn sp_store_slot(
    s: Map<(Seq<char>, GtfsRtType), FeedMessage>,
    feed: Seq<char>,
    kind: GtfsRtType,
    slot: Option<FeedMessage>,
) -> Map<(Seq<char>, GtfsRtType), FeedMessage> {
    match slot {
        None => s,
        Some(m) => s.insert((feed, kind), m),
    }
}

/// What one eligible payload becomes once decoded: cleanup, then for
/// vehicle and trip payloads the route canonicalisation, then for the
/// Amtrak feed the Capital Corridor filter.
pub open spec fn sp_prepare(
    decoded: crate::feed::FeedMessageV,
    realtime_feed_id: Seq<char>,
    correct_routes: bool,
) -> crate::feed::FeedMessageV {
    if correct_routes {
        let corrected = sp_correct_route_ids(sp_cleanup(decoded), realtime_feed_id);
        if realtime_feed_id == "f-amtrak~rt"@ {
            sp_filter_capital_corridor(corrected)
        } else {
            corrected
        }
    } else {
        sp_cleanup(decoded)
    }
}

/// What one payload slot contributes, as a pure function of the call's
/// inputs: nothing unless the poll succeeded (code 200) with bytes whose
/// wire reading succeeds; otherwise that reading, cleaned.
pub open spec fn sp_slot_prepared(
    bytes: Option<Vec<u8>>,
    code: Option<u16>,
    realtime_feed_id: Seq<char>,
    correct_routes: bool,
) -> Option<crate::feed::FeedMessageV> {
    if code == Some(200u16) && bytes is Some {
        match sp_parse_feed(bytes->0@) {
            Some(d) => Some(sp_prepare(d, realtime_feed_id, correct_routes)),
            None => None,
        }
    } else {
        None
    }
}

/// The decoded entities the raw plane holds for one feed and kind, or
/// none where nothing is stored.
pub open spec fn sp_raw_entities(
    raw: Map<(Seq<char>, GtfsRtType), FeedMessage>,
    feed: Seq<char>,
    kind: GtfsRtType,
) -> Seq<crate::feed::FeedEntityV> {
    if raw.contains_key((feed, kind)) {
        raw[(feed, kind)]@.entities
    } else {
        Seq::empty()
    }
}

/// The enrichment join, stated over the raw plane: the artifact serves
/// exactly the vehicle, trip-update and alert entities the raw plane
/// holds for the given feeds, with route rows joined from `routes`.
/// Both directions are stated: everything present is served, and
/// nothing is served that no entity produced.
pub open spec fn sp_artifact_from(
    art: AspenisedData,
    raw: Map<(Seq<char>, GtfsRtType), FeedMessage>,
    feed_ids: Seq<String>,
    routes: Seq<crate::enrich::RouteRow>,
) -> bool {
    &&& forall|fi: int, j: int|
        0 <= fi < feed_ids.len() && 0 <= j < sp_raw_entities(
            raw,
            feed_ids[fi]@,
            GtfsRtType::VehiclePositions,
        ).len() && (#[trigger] sp_raw_entities(raw, feed_ids[fi]@, GtfsRtType::VehiclePositions)[j]).vehicle is Some ==> art.vehicle_positions@.contains_key(
            crate::enrich::sp_vehicle_key(
                sp_raw_entities(raw, feed_ids[fi]@, GtfsRtType::VehiclePositions)[j],
            ),
        )
    &&& forall|k: Seq<char>|
        #[trigger] art.vehicle_positions@.contains_key(k) ==> exists|fi: int, j: int|
            #![trigger sp_raw_entities(raw, feed_ids[fi]@, GtfsRtType::VehiclePositions)[j]]
            0 <= fi < feed_ids.len() && 0 <= j < sp_raw_entities(
                raw,
                feed_ids[fi]@,
                GtfsRtType::VehiclePositions,
            ).len() && sp_raw_entities(raw, feed_ids[fi]@, GtfsRtType::VehiclePositions)[j].vehicle is Some && crate::enrich::sp_vehicle_key(
                sp_raw_entities(raw, feed_ids[fi]@, GtfsRtType::VehiclePositions)[j],
            ) == k && crate::enrich::sp_matches_vehicle(
                art.vehicle_positions@[k],
                sp_raw_entities(raw, feed_ids[fi]@, GtfsRtType::VehiclePositions)[j].vehicle->Some_0,
            )
    &&& forall|fi: int, j: int|
        0 <= fi < feed_ids.len() && 0 <= j < sp_raw_entities(
            raw,
            feed_ids[fi]@,
            GtfsRtType::VehiclePositions,
        ).len() && (crate::enrich::sp_vehicle_route(
            #[trigger] sp_raw_entities(raw, feed_ids[fi]@, GtfsRtType::VehiclePositions)[j],
        )) is Some && (exists|rj: int|
            0 <= rj < routes.len() && routes[rj].route_id@ == crate::enrich::sp_vehicle_route(
                sp_raw_entities(raw, feed_ids[fi]@, GtfsRtType::VehiclePositions)[j],
            )->Some_0) ==> art.vehicle_routes_cache@.contains_key(
            crate::enrich::sp_vehicle_route(
                sp_raw_entities(raw, feed_ids[fi]@, GtfsRtType::VehiclePositions)[j],
            )->Some_0,
        )
    &&& forall|rk: Seq<char>|
        #[trigger] art.vehicle_routes_cache@.contains_key(rk) ==> exists|
            fi: int,
            j: int,
            rj: int,
        |
            #![trigger sp_raw_entities(raw, feed_ids[fi]@, GtfsRtType::VehiclePositions)[j], routes[rj]]
            0 <= fi < feed_ids.len() && 0 <= j < sp_raw_entities(
                raw,
                feed_ids[fi]@,
                GtfsRtType::VehiclePositions,
            ).len() && 0 <= rj < routes.len() && crate::enrich::sp_vehicle_route(
                sp_raw_entities(raw, feed_ids[fi]@, GtfsRtType::VehiclePositions)[j],
            ) == Some(rk) && routes[rj].route_id@ == rk && crate::enrich::sp_matches_route_row(
                art.vehicle_routes_cache@[rk],
                routes[rj],
            )
    &&& forall|fi: int, j: int|
        0 <= fi < feed_ids.len() && 0 <= j < sp_raw_entities(
            raw,
            feed_ids[fi]@,
            GtfsRtType::TripUpdates,
        ).len() && (#[trigger] sp_raw_entities(raw, feed_ids[fi]@, GtfsRtType::TripUpdates)[j]).trip_update is Some ==> art.trip_updates@.contains_key(
            sp_raw_entities(raw, feed_ids[fi]@, GtfsRtType::TripUpdates)[j].id,
        )
    &&& forall|k: Seq<char>|
        #[trigger] art.trip_updates@.contains_key(k) ==> exists|fi: int, j: int|
            #![trigger sp_raw_entities(raw, feed_ids[fi]@, GtfsRtType::TripUpdates)[j]]
            0 <= fi < feed_ids.len() && 0 <= j < sp_raw_entities(
                raw,
                feed_ids[fi]@,
                GtfsRtType::TripUpdates,
            ).len() && sp_raw_entities(raw, feed_ids[fi]@, GtfsRtType::TripUpdates)[j].trip_update is Some && sp_raw_entities(raw, feed_ids[fi]@, GtfsRtType::TripUpdates)[j].id == k && art.trip_updates@[k]@ == sp_raw_entities(
                raw,
                feed_ids[fi]@,
                GtfsRtType::TripUpdates,
            )[j].trip_update->Some_0
    &&& forall|fi: int, j: int|
        0 <= fi < feed_ids.len() && 0 <= j < sp_raw_entities(
            raw,
            feed_ids[fi]@,
            GtfsRtType::Alerts,
        ).len() && (#[trigger] sp_raw_entities(raw, feed_ids[fi]@, GtfsRtType::Alerts)[j]).alert
            is Some ==> art.aspenised_alerts@.contains_key(
            sp_raw_entities(raw, feed_ids[fi]@, GtfsRtType::Alerts)[j].id,
        )
    &&& forall|k: Seq<char>|
        #[trigger] art.aspenised_alerts@.contains_key(k) ==> exists|fi: int, j: int|
            #![trigger sp_raw_entities(raw, feed_ids[fi]@, GtfsRtType::Alerts)[j]]
            0 <= fi < feed_ids.len() && 0 <= j < sp_raw_entities(
                raw,
                feed_ids[fi]@,
                GtfsRtType::Alerts,
            ).len() && sp_raw_entities(raw, feed_ids[fi]@, GtfsRtType::Alerts)[j].alert is Some
                && sp_raw_entities(raw, feed_ids[fi]@, GtfsRtType::Alerts)[j].id == k
                && art.aspenised_alerts@[k]@ == (sp_raw_entities(
                raw,
                feed_ids[fi]@,
                GtfsRtType::Alerts,
            )[j]).alert->Some_0
    &&& forall|fi: int, j: int|
        0 <= fi < feed_ids.len() && 0 <= j < sp_raw_entities(
            raw,
            feed_ids[fi]@,
            GtfsRtType::TripUpdates,
        ).len() && (crate::enrich::sp_tu_trip_id(
            #[trigger] sp_raw_entities(raw, feed_ids[fi]@, GtfsRtType::TripUpdates)[j],
        )) is Some ==> art.trip_updates_lookup_by_trip_id_to_trip_update_ids@.contains_key(
            crate::enrich::sp_tu_trip_id(
                sp_raw_entities(raw, feed_ids[fi]@, GtfsRtType::TripUpdates)[j],
            )->Some_0,
        )
    &&& forall|fi: int, j: int, si: int|
        0 <= fi < feed_ids.len() && 0 <= j < sp_raw_entities(
            raw,
            feed_ids[fi]@,
            GtfsRtType::Alerts,
        ).len() && (#[trigger] crate::enrich::sp_selector_route(
            sp_raw_entities(raw, feed_ids[fi]@, GtfsRtType::Alerts)[j],
            si,
        )) is Some ==> art.alerts_by_route@.contains_key(
            crate::enrich::sp_selector_route(
                sp_raw_entities(raw, feed_ids[fi]@, GtfsRtType::Alerts)[j],
                si,
            )->Some_0,
        )
    &&& forall|fi: int, j: int, si: int|
        0 <= fi < feed_ids.len() && 0 <= j < sp_raw_entities(
            raw,
            feed_ids[fi]@,
            GtfsRtType::Alerts,
        ).len() && (#[trigger] crate::enrich::sp_selector_stop(
            sp_raw_entities(raw, feed_ids[fi]@, GtfsRtType::Alerts)[j],
            si,
        )) is Some ==> art.alerts_by_stop@.contains_key(
            crate::enrich::sp_selector_stop(
                sp_raw_entities(raw, feed_ids[fi]@, GtfsRtType::Alerts)[j],
                si,
            )->Some_0,
        )
    &&& forall|fi: int, j: int, si: int|
        0 <= fi < feed_ids.len() && 0 <= j < sp_raw_entities(
            raw,
            feed_ids[fi]@,
            GtfsRtType::Alerts,
        ).len() && (#[trigger] crate::enrich::sp_selector_trip(
            sp_raw_entities(raw, feed_ids[fi]@, GtfsRtType::Alerts)[j],
            si,
        )) is Some ==> art.alerts_by_trip@.contains_key(
            crate::enrich::sp_selector_trip(
                sp_raw_entities(raw, feed_ids[fi]@, GtfsRtType::Alerts)[j],
                si,
            )->Some_0,
        )
}

/// One Aspen worker's state: the dedup index, the raw and enriched
/// stores, the work queue, and its fleet identity.
pub struct AspenServer {
    pub worker_id: String,
    pub this_tailscale_ip: String,
    pub addr: String,
    pub etcd_addresses: Vec<String>,
    pub worker_etcd_lease_id: i64,
    authoritative_gtfs_rt_store: scc::HashMap<(String, GtfsRtType), FeedMessage>,
    authoritative_data_store: scc::HashMap<String, AspenisedData>,
    dedup_index: DedupIndex,
    alpenrose_to_process_queue: ChateauWorkQueue,
}

impl AspenServer {
    /// The worker's inbound address, as text.
    pub closed spec fn addr_chars(&self) -> Seq<char> {
        self.addr@
    }

    /// The dedup index's remembered entries.
    pub closed spec fn dedup_view(&self) -> Map<(Seq<char>, GtfsRtType), DedupEntry> {
        self.dedup_index@
    }

    /// The raw realtime plane.
    pub closed spec fn raw_store(&self) -> Map<(Seq<char>, GtfsRtType), FeedMessage> {
        scc_feed_contents(self.authoritative_gtfs_rt_store)
    }

    /// The enriched plane.
    pub closed spec fn enriched_store(&self) -> Map<Seq<char>, AspenisedData> {
        scc_artifact_contents(self.authoritative_data_store)
    }

    /// The queued enrichment jobs, oldest first.
    pub closed spec fn queue_fifo(&self) -> Seq<ProcessAlpenroseData> {
        self.alpenrose_to_process_queue.fifo_seq()
    }

    /// The chateaus queued or being enriched.
    pub closed spec fn queue_in_flight(&self) -> Set<Seq<char>> {
        self.alpenrose_to_process_queue.in_flight_set()
    }

    /// The queue is in step and every published artifact is well formed.
    pub closed spec fn wf(&self) -> bool {
        &&& self.alpenrose_to_process_queue.wf()
        &&& forall|c: Seq<char>|
            #[trigger] self.enriched_store().contains_key(c) ==> self.enriched_store()[c].wf()
    }

    /// A fresh worker with empty stores.
    pub fn new(
        worker_id: String,
        this_tailscale_ip: String,
        addr: String,
        etcd_addresses: Vec<String>,
        worker_etcd_lease_id: i64,
    ) -> (r: AspenServer)
        ensures
            r.wf(),
            r.dedup_view() == empty_dedup_contents(),
            r.raw_store() == empty_feed_contents(),
            r.enriched_store() == empty_artifact_contents(),
            r.queue_fifo() == empty_queue_contents(),
            r.queue_in_flight() == Set::<Seq<char>>::empty(),
    {
        AspenServer {
            worker_id,
            this_tailscale_ip,
            addr,
            etcd_addresses,
            worker_etcd_lease_id,
            authoritative_gtfs_rt_store: scc_feed_new(),
            authoritative_data_store: scc_artifact_new(),
            dedup_index: DedupIndex::new(),
            alpenrose_to_process_queue: ChateauWorkQueue::new(),
        }
    }

    /// Health check: a greeting naming the caller and this worker's
    /// address.
    pub fn hello(&self, name: String) -> (r: String)
        ensures
            r@ == "Hello, "@ + name@ + "! You are connected from "@ + self.addr_chars(),
    {
        String::from_str("Hello, ").concat(name.as_str()).concat(
            "! You are connected from ",
        ).concat(self.addr.as_str())
    }

    /// Judges one decoded payload against the dedup index (two-level
    /// timestamp / rough-hash test) and updates the index.
    pub fn is_new_data_for_feed_type(
        &mut self,
        feed_id: &str,
        gtfs_type: GtfsRtType,
        data: &FeedMessage,
    ) -> (r: NewDataStatus)
        requires
            old(self).wf(),
        ensures
            final(self).wf(),
            r == sp_dedup_verdict(
                sp_lookup(old(self).dedup_view(), (feed_id@, gtfs_type)),
                data@.header.timestamp,
                sp_rough_hash(data@),
            ),
            final(self).dedup_view() == sp_dedup_map_next(
                old(self).dedup_view(),
                (feed_id@, gtfs_type),
                data@.header.timestamp,
                sp_rough_hash(data@),
            ),
            final(self).raw_store() == old(self).raw_store(),
            final(self).enriched_store() == old(self).enriched_store(),
            final(self).queue_fifo() == old(self).queue_fifo(),
            final(self).queue_in_flight() == old(self).queue_in_flight(),
    {
        let r = self.dedup_index.observe(feed_id, gtfs_type, data);
        proof {
            assert(self.alpenrose_to_process_queue == old(self).alpenrose_to_process_queue);
            assert(self.enriched_store() == old(self).enriched_store());
        }
        r
    }

    /// The ingestion core, after decoding and cleaning: judges each
    /// payload, installs each into the raw plane irrespective of the
    /// verdict, and enqueues the chateau exactly when something was new
    /// and no job for it is already resident. Always acknowledges.
    pub fn ingest_cleaned(
        &mut self,
        chateau_id: String,
        realtime_feed_id: String,
        vehicles: Option<FeedMessage>,
        trips: Option<FeedMessage>,
        alerts: Option<FeedMessage>,
        has_vehicles: bool,
        has_trips: bool,
        has_alerts: bool,
        vehicles_response_code: Option<u16>,
        trips_response_code: Option<u16>,
        alerts_response_code: Option<u16>,
        time_of_submission_ms: u64,
    ) -> (r: bool)
        requires
            old(self).wf(),
        ensures
            final(self).wf(),
            r == true,
            final(self).enriched_store() == old(self).enriched_store(),
            // the dedup index evolves by the three observations in order
            final(self).dedup_view() == sp_slot_next(
                sp_slot_next(
                    sp_slot_next(
                        old(self).dedup_view(),
                        realtime_feed_id@,
                        GtfsRtType::VehiclePositions,
                        vehicles,
                    ),
                    realtime_feed_id@,
                    GtfsRtType::TripUpdates,
                    trips,
                ),
                realtime_feed_id@,
                GtfsRtType::Alerts,
                alerts,
            ),
            // the raw plane receives every present payload
            final(self).raw_store() == sp_store_slot(
                sp_store_slot(
                    sp_store_slot(
                        old(self).raw_store(),
                        realtime_feed_id@,
                        GtfsRtType::VehiclePositions,
                        vehicles,
                    ),
                    realtime_feed_id@,
                    GtfsRtType::TripUpdates,
                    trips,
                ),
                realtime_feed_id@,
                GtfsRtType::Alerts,
                alerts,
            ),
            // the chateau is enqueued exactly when something was new and
            // no job for it was resident
            ({
                let d0 = old(self).dedup_view();
                let d1 = sp_slot_next(
                    d0,
                    realtime_feed_id@,
                    GtfsRtType::VehiclePositions,
                    vehicles,
                );
                let d2 = sp_slot_next(d1, realtime_feed_id@, GtfsRtType::TripUpdates, trips);
                let nd = sp_slot_new(d0, realtime_feed_id@, GtfsRtType::VehiclePositions, vehicles)
                    || sp_slot_new(d1, realtime_feed_id@, GtfsRtType::TripUpdates, trips)
                    || sp_slot_new(d2, realtime_feed_id@, GtfsRtType::Alerts, alerts);
                if nd && !old(self).queue_in_flight().contains(chateau_id@) {
                    final(self).queue_fifo() == old(self).queue_fifo().push(
                        ProcessAlpenroseData {
                            chateau_id,
                            realtime_feed_id,
                            vehicles: None,
                            trips: None,
                            alerts: None,
                            has_vehicles,
                            has_trips,
                            has_alerts,
                            vehicles_response_code,
                            trips_response_code,
                            alerts_response_code,
                            time_of_submission_ms,
                        },
                    ) && final(self).queue_in_flight() == old(self).queue_in_flight().insert(
                        chateau_id@,
                    )
                } else {
                    final(self).queue_fifo() == old(self).queue_fifo() && final(self).queue_in_flight() == old(self).queue_in_flight()
                }
            }),
    {
        let mut new_data = false;
        match &vehicles {
            Some(m) => {
                let v = self.is_new_data_for_feed_type(
                    realtime_feed_id.as_str(),
                    GtfsRtType::VehiclePositions,
                    m,
                );
                if v == NewDataStatus::New {
                    new_data = true;
                }
            },
            None => {},
        }
        match &trips {
            Some(m) => {
                let v = self.is_new_data_for_feed_type(
                    realtime_feed_id.as_str(),
                    GtfsRtType::TripUpdates,
                    m,
                );
                if v == NewDataStatus::New {
                    new_data = true;
                }
            },
            None => {},
        }
        match &alerts {
            Some(m) => {
                let v = self.is_new_data_for_feed_type(
                    realtime_feed_id.as_str(),
                    GtfsRtType::Alerts,
                    m,
                );
                if v == NewDataStatus::New {
                    new_data = true;
                }
            },
            None => {},
        }
        match vehicles {
            Some(m) => {
                scc_feed_upsert(
                    &mut self.authoritative_gtfs_rt_store,
                    realtime_feed_id.as_str(),
                    GtfsRtType::VehiclePositions,
                    m,
                );
            },
            None => {},
        }
        match trips {
            Some(m) => {
                scc_feed_upsert(
                    &mut self.authoritative_gtfs_rt_store,
                    realtime_feed_id.as_str(),
                    GtfsRtType::TripUpdates,
                    m,
                );
            },
            None => {},
        }
        match alerts {
            Some(m) => {
                scc_feed_upsert(
                    &mut self.authoritative_gtfs_rt_store,
                    realtime_feed_id.as_str(),
                    GtfsRtType::Alerts,
                    m,
                );
            },
            None => {},
        }
        if new_data {
            let pending = ProcessAlpenroseData {
                chateau_id,
                realtime_feed_id,
                vehicles: None,
                trips: None,
                alerts: None,
                has_vehicles,
                has_trips,
                has_alerts,
                vehicles_response_code,
                trips_response_code,
                alerts_response_code,
                time_of_submission_ms,
            };
            let _ = self.alpenrose_to_process_queue.submit(pending);
        }
        true
    }

    /// Whether a payload slot is eligible: the poll succeeded and carried
    /// bytes.
    fn slot_eligible(code: &Option<u16>, bytes: &Option<Vec<u8>>) -> (r: bool)
        ensures
            r == (*code == Some(200u16) && bytes is Some),
    {
        match (code, bytes) {
            (Some(c), Some(_)) => *c == 200u16,
            _ => false,
        }
    }

    /// Decodes and cleans one eligible payload slot; a malformed payload
    /// is treated as absent. Vehicle and trip payloads get their route
    /// identifiers canonicalised, and the Amtrak feed loses its Capital
    /// Corridor entities; alert payloads are only cleaned.
    fn prepare_slot(
        bytes: &Option<Vec<u8>>,
        code: &Option<u16>,
        realtime_feed_id: &str,
        correct_routes: bool,
    ) -> (r: Option<FeedMessage>)
        ensures
            r is Some <==> sp_slot_prepared(
                *bytes,
                *code,
                realtime_feed_id@,
                correct_routes,
            ) is Some,
            r matches Some(m) ==> m@ == sp_slot_prepared(
                *bytes,
                *code,
                realtime_feed_id@,
                correct_routes,
            )->0,
    {
        if !Self::slot_eligible(code, bytes) {
            return None;
        }
        let raw = match bytes {
            Some(b) => b,
            None => {
                return None;
            },
        };
        match parse_gtfs_rt_message(raw.as_slice()) {
            Ok(decoded) => {
                let cleaned = gtfs_rt_cleanup(&decoded);
                if correct_routes {
                    let corrected = gtfs_rt_correct_route_id_string(&cleaned, realtime_feed_id);
                    if str_eq(realtime_feed_id, "f-amtrak~rt") {
                        let filtered = filter_capital_corridor(&corrected);
                        proof {
                            assert(filtered@ == sp_prepare(decoded@, realtime_feed_id@, true));
                        }
                        Some(filtered)
                    } else {
                        proof {
                            assert(corrected@ == sp_prepare(decoded@, realtime_feed_id@, true));
                        }
                        Some(corrected)
                    }
                } else {
                    proof {
                        assert(cleaned@ == sp_prepare(decoded@, realtime_feed_id@, false));
                    }
                    Some(cleaned)
                }
            },
            Err(_) => None,
        }
    }

    /// Ingestion entry: accepts one poll result for a chateau's feed.
    /// Per payload slot: eligible bytes are decoded and cleaned (decode
    /// failures count as absent), judged by the dedup index, and
    /// installed into the raw plane; the chateau is enqueued for
    /// enrichment when anything was new. Always returns true: the
    /// acknowledgement is a liveness signal.
    pub fn from_alpenrose(
        &mut self,
        chateau_id: String,
        realtime_feed_id: String,
        vehicles: Option<Vec<u8>>,
        trips: Option<Vec<u8>>,
        alerts: Option<Vec<u8>>,
        has_vehicles: bool,
        has_trips: bool,
        has_alerts: bool,
        vehicles_response_code: Option<u16>,
        trips_response_code: Option<u16>,
        alerts_response_code: Option<u16>,
        time_of_submission_ms: u64,
    ) -> (r: bool)
        requires
            old(self).wf(),
        ensures
            final(self).wf(),
            r == true,
            final(self).enriched_store() == old(self).enriched_store(),
            // the state moved by one ingestion step over the slot
            // contributions, each fixed by the call's inputs: present
            // exactly when its poll succeeded with bytes whose wire
            // reading succeeds, and then pinned to that reading, cleaned
            exists|v: Option<FeedMessage>, t: Option<FeedMessage>, a: Option<FeedMessage>|
                {
                    &&& (v is Some <==> sp_slot_prepared(
                        vehicles,
                        vehicles_response_code,
                        realtime_feed_id@,
                        true,
                    ) is Some)
                    &&& (t is Some <==> sp_slot_prepared(
                        trips,
                        trips_response_code,
                        realtime_feed_id@,
                        true,
                    ) is Some)
                    &&& (a is Some <==> sp_slot_prepared(
                        alerts,
                        alerts_response_code,
                        realtime_feed_id@,
                        false,
                    ) is Some)
                    &&& (v matches Some(m) ==> m@ == sp_slot_prepared(
                        vehicles,
                        vehicles_response_code,
                        realtime_feed_id@,
                        true,
                    )->0)
                    &&& (t matches Some(m) ==> m@ == sp_slot_prepared(
                        trips,
                        trips_response_code,
                        realtime_feed_id@,
                        true,
                    )->0)
                    &&& (a matches Some(m) ==> m@ == sp_slot_prepared(
                        alerts,
                        alerts_response_code,
                        realtime_feed_id@,
                        false,
                    )->0)
                    &&& #[trigger] sp_ingest_effect(
                        *old(self),
                        *final(self),
                        chateau_id,
                        realtime_feed_id,
                        v,
                        t,
                        a,
                        has_vehicles,
                        has_trips,
                        has_alerts,
                        vehicles_response_code,
                        trips_response_code,
                        alerts_response_code,
                        time_of_submission_ms,
                    )
                },
            // a call with no eligible slot changes nothing
            (vehicles_response_code != Some(200u16) || vehicles is None) && (trips_response_code
                != Some(200u16) || trips is None) && (alerts_response_code != Some(200u16)
                || alerts is None) ==> final(self).dedup_view() == old(self).dedup_view() && final(self).raw_store() == old(self).raw_store() && final(self).queue_fifo() == old(self).queue_fifo() && final(self).queue_in_flight() == old(self).queue_in_flight(),
    {
        let vehicles_m = Self::prepare_slot(
            &vehicles,
            &vehicles_response_code,
            realtime_feed_id.as_str(),
            true,
        );
        let trips_m = Self::prepare_slot(
            &trips,
            &trips_response_code,
            realtime_feed_id.as_str(),
            true,
        );
        let alerts_m = Self::prepare_slot(
            &alerts,
            &alerts_response_code,
            realtime_feed_id.as_str(),
            false,
        );
        let ghost gv = vehicles_m;
        let ghost gt = trips_m;
        let ghost ga = alerts_m;
        let r = self.ingest_cleaned(
            chateau_id,
            realtime_feed_id,
            vehicles_m,
            trips_m,
            alerts_m,
            has_vehicles,
            has_trips,
            has_alerts,
            vehicles_response_code,
            trips_response_code,
            alerts_response_code,
            time_of_submission_ms,
        );
        proof {
            assert(sp_ingest_effect(
                *old(self),
                *final(self),
                chateau_id,
                realtime_feed_id,
                gv,
                gt,
                ga,
                has_vehicles,
                has_trips,
                has_alerts,
                vehicles_response_code,
                trips_response_code,
                alerts_response_code,
                time_of_submission_ms,
            ));
        }
        r
    }

    /// Serves the raw plane: the current payload of a feed re-encoded to
    /// wire bytes, or nothing where none is stored.
    pub fn get_gtfs_rt(&self, realtime_feed_id: String, feed_type: GtfsRtType) -> (r: Option<
        Vec<u8>,
    >)
        ensures
            r is Some <==> self.raw_store().contains_key((realtime_feed_id@, feed_type)),
            r matches Some(b) ==> b@ == sp_feed_bytes(
                self.raw_store()[(realtime_feed_id@, feed_type)]@,
            ),
    {
        match scc_feed_get(&self.authoritative_gtfs_rt_store, realtime_feed_id.as_str(), feed_type) {
            Some(m) => Some(encode_feed_message(&m)),
            None => None,
        }
    }

    /// Serves the vehicle plane of a chateau under a conditional-reuse
    /// hash: the positions are always sent; the route cache is omitted
    /// exactly when the caller's hash equals the hash of the current
    /// cache rows.
    pub fn get_vehicle_locations(
        &self,
        chateau_id: String,
        existing_fasthash_of_routes: Option<u64>,
    ) -> (r: Option<GetVehicleLocationsResponse>)
        requires
            self.wf(),
        ensures
            r is Some <==> self.enriched_store().contains_key(chateau_id@),
            r matches Some(resp) ==> {
                let art = self.enriched_store()[chateau_id@];
                &&& resp.hash_of_routes == fast_hash_of_route_caches(
                    art.vehicle_routes_cache.entries().map_values(
                        |p: (String, crate::dataset::AspenisedVehicleRouteCache)| p.1,
                    ),
                )
                &&& resp.last_updated_time_ms == art.last_updated_time_ms
                &&& resp.vehicle_positions == art.vehicle_positions
                &&& (resp.vehicle_route_cache is None <==> existing_fasthash_of_routes == Some(
                    resp.hash_of_routes,
                ))
                &&& (resp.vehicle_route_cache matches Some(c) ==> c == art.vehicle_routes_cache)
            },
    {
        match scc_artifact_get(&self.authoritative_data_store, chateau_id.as_str()) {
            Some(art) => {
                proof {
                    assert(self.enriched_store().contains_key(chateau_id@));
                    assert(art == self.enriched_store()[chateau_id@]);
                    assert(art.wf());
                }
                let values = route_cache_values(&art.vehicle_routes_cache);
                let h = fast_hash_route_caches(&values);
                let send_cache = match &existing_fasthash_of_routes {
                    Some(e) => *e != h,
                    None => true,
                };
                Some(
                    GetVehicleLocationsResponse {
                        vehicle_route_cache: if send_cache {
                            Some(art.vehicle_routes_cache)
                        } else {
                            None
                        },
                        vehicle_positions: art.vehicle_positions,
                        hash_of_routes: h,
                        last_updated_time_ms: art.last_updated_time_ms,
                    },
                )
            },
            None => None,
        }
    }

    /// Serves one vehicle position by its served identifier.
    pub fn get_single_vehicle_location_from_gtfsid(
        &self,
        chateau_id: String,
        gtfs_id: String,
    ) -> (r: Option<AspenisedVehiclePosition>)
        requires
            self.wf(),
        ensures
            r is Some <==> self.enriched_store().contains_key(chateau_id@)
                && self.enriched_store()[chateau_id@].vehicle_positions@.contains_key(gtfs_id@),
            r matches Some(v) ==> v
                == self.enriched_store()[chateau_id@].vehicle_positions@[gtfs_id@],
    {
        match scc_artifact_get(&self.authoritative_data_store, chateau_id.as_str()) {
            Some(art) => {
                proof {
                    assert(self.enriched_store().contains_key(chateau_id@));
                    assert(art == self.enriched_store()[chateau_id@]);
                    assert(art.wf());
                }
                match art.vehicle_positions.get(gtfs_id.as_str()) {
                    Some(v) => Some(dup_aspenised_vehicle_position(v)),
                    None => None,
                }
            },
            None => None,
        }
    }

    /// Serves the trip updates a trip identifier resolves to, in index
    /// order; identifiers whose update is missing are skipped.
    pub fn get_trip_updates_from_trip_id(&self, chateau_id: String, trip_id: String) -> (r:
        Option<Vec<AspenisedTripUpdate>>)
        requires
            self.wf(),
        ensures
            r is Some <==> self.enriched_store().contains_key(chateau_id@)
                && self.enriched_store()[chateau_id@]
                .trip_updates_lookup_by_trip_id_to_trip_update_ids@.contains_key(trip_id@),
            r matches Some(v) ==> v@ == sp_resolve_updates(
                self.enriched_store()[chateau_id@]
                    .trip_updates_lookup_by_trip_id_to_trip_update_ids@[trip_id@]@,
                self.enriched_store()[chateau_id@].trip_updates@,
            ),
    {
        match scc_artifact_get(&self.authoritative_data_store, chateau_id.as_str()) {
            Some(art) => {
                proof {
                    assert(self.enriched_store().contains_key(chateau_id@));
                    assert(art == self.enriched_store()[chateau_id@]);
                    assert(art.wf());
                }
                match art.trip_updates_lookup_by_trip_id_to_trip_update_ids.get(trip_id.as_str()) {
                    Some(ids) => {
                        let mut out: Vec<AspenisedTripUpdate> = Vec::new();
                        let n = ids.len();
                        let mut k: usize = 0;
                        while k < n
                            invariant
                                art.wf(),
                                n == ids@.len(),
                                k <= n,
                                out@ == sp_resolve_updates(
                                    ids@.subrange(0, k as int),
                                    art.trip_updates@,
                                ),
                            decreases n - k,
                        {
                            proof {
                                assert(ids@.subrange(0, k + 1 as int).drop_last() =~= ids@.subrange(
                                    0,
                                    k as int,
                                ));
                                assert(ids@.subrange(0, k + 1 as int).last() == ids@[k as int]);
                            }
                            match art.trip_updates.get(ids[k].as_str()) {
                                Some(u) => {
                                    out.push(crate::feed::dup_trip_update(u));
                                },
                                None => {},
                            }
                            k = k + 1;
                        }
                        proof {
                            assert(ids@.subrange(0, ids@.len() as int) =~= ids@);
                        }
                        Some(out)
                    },
                    None => None,
                }
            },
            None => None,
        }
    }

    /// Serves every alert of a chateau, keyed by entity identifier.
    pub fn get_all_alerts(&self, chateau_id: String) -> (r: Option<StringMap<AspenisedAlert>>)
        requires
            self.wf(),
        ensures
            r is Some <==> self.enriched_store().contains_key(chateau_id@),
            r matches Some(m) ==> m == self.enriched_store()[chateau_id@].aspenised_alerts,
    {
        match scc_artifact_get(&self.authoritative_data_store, chateau_id.as_str()) {
            Some(art) => Some(art.aspenised_alerts),
            None => None,
        }
    }

    /// Serves the alerts indexed under a route, as identifier/alert pairs.
    pub fn get_alerts_from_route_id(&self, chateau_id: String, route_id: String) -> (r: Option<
        Vec<(String, AspenisedAlert)>,
    >)
        requires
            self.wf(),
        ensures
            r is Some <==> self.enriched_store().contains_key(chateau_id@),
            r matches Some(v) ==> sp_pairs_match(
                v@,
                sp_indexed_ids(self.enriched_store()[chateau_id@].alerts_by_route@, route_id@),
                self.enriched_store()[chateau_id@].aspenised_alerts@,
            ),
    {
        match scc_artifact_get(&self.authoritative_data_store, chateau_id.as_str()) {
            Some(art) => {
                proof {
                    assert(self.enriched_store().contains_key(chateau_id@));
                    assert(art == self.enriched_store()[chateau_id@]);
                    assert(art.wf());
                }
                Some(Self::resolve_alert_pairs(&art, art.alerts_by_route.get(route_id.as_str())))
            },
            None => None,
        }
    }

    /// Serves the alerts indexed under a stop, as identifier/alert pairs.
    pub fn get_alerts_from_stop_id(&self, chateau_id: String, stop_id: String) -> (r: Option<
        Vec<(String, AspenisedAlert)>,
    >)
        requires
            self.wf(),
        ensures
            r is Some <==> self.enriched_store().contains_key(chateau_id@),
            r matches Some(v) ==> sp_pairs_match(
                v@,
                sp_indexed_ids(self.enriched_store()[chateau_id@].alerts_by_stop@, stop_id@),
                self.enriched_store()[chateau_id@].aspenised_alerts@,
            ),
    {
        match scc_artifact_get(&self.authoritative_data_store, chateau_id.as_str()) {
            Some(art) => {
                proof {
                    assert(self.enriched_store().contains_key(chateau_id@));
                    assert(art == self.enriched_store()[chateau_id@]);
                    assert(art.wf());
                }
                Some(Self::resolve_alert_pairs(&art, art.alerts_by_stop.get(stop_id.as_str())))
            },
            None => None,
        }
    }

    /// Serves the alerts indexed under a trip, as identifier/alert pairs.
    pub fn get_alert_from_trip_id(&self, chateau_id: String, trip_id: String) -> (r: Option<
        Vec<(String, AspenisedAlert)>,
    >)
        requires
            self.wf(),
        ensures
            r is Some <==> self.enriched_store().contains_key(chateau_id@),
            r matches Some(v) ==> sp_pairs_match(
                v@,
                sp_indexed_ids(self.enriched_store()[chateau_id@].alerts_by_trip@, trip_id@),
                self.enriched_store()[chateau_id@].aspenised_alerts@,
            ),
    {
        match scc_artifact_get(&self.authoritative_data_store, chateau_id.as_str()) {
            Some(art) => {
                proof {
                    assert(self.enriched_store().contains_key(chateau_id@));
                    assert(art == self.enriched_store()[chateau_id@]);
                    assert(art.wf());
                }
                Some(Self::resolve_alert_pairs(&art, art.alerts_by_trip.get(trip_id.as_str())))
            },
            None => None,
        }
    }

    /// Resolves an index lookup into identifier/alert pairs.
    fn resolve_alert_pairs(art: &AspenisedData, ids: Option<&Vec<String>>) -> (r: Vec<
        (String, AspenisedAlert),
    >)
        requires
            art.wf(),
        ensures
            r@.len() == (match ids {
                Some(l) => sp_resolve_ids(l@, art.aspenised_alerts@).len() as int,
                None => 0int,
            }),
            ids matches Some(l) ==> sp_pairs_match_seq(
                r@,
                sp_resolve_ids(l@, art.aspenised_alerts@),
                art.aspenised_alerts@,
            ),
    {
        let mut out: Vec<(String, AspenisedAlert)> = Vec::new();
        match ids {
            Some(l) => {
                let n = l.len();
                let mut k: usize = 0;
                while k < n
                    invariant
                        art.wf(),
                        n == l@.len(),
                        k <= n,
                        out@.len() == sp_resolve_ids(
                            l@.subrange(0, k as int),
                            art.aspenised_alerts@,
                        ).len(),
                        sp_pairs_match_seq(
                            out@,
                            sp_resolve_ids(l@.subrange(0, k as int), art.aspenised_alerts@),
                            art.aspenised_alerts@,
                        ),
                    decreases n - k,
                {
                    proof {
                        assert(l@.subrange(0, k + 1 as int).drop_last() =~= l@.subrange(
                            0,
                            k as int,
                        ));
                        assert(l@.subrange(0, k + 1 as int).last() == l@[k as int]);
                    }
                    match art.aspenised_alerts.get(l[k].as_str()) {
                        Some(a) => {
                            out.push((l[k].clone(), crate::feed::dup_alert(a)));
                        },
                        None => {},
                    }
                    k = k + 1;
                }
                proof {
                    assert(l@.subrange(0, l@.len() as int) =~= l@);
                }
            },
            None => {},
        }
        out
    }

    /// Serves, for each requested stop, the identifiers of the alerts
    /// that touch it, with every named alert resolved alongside.
    pub fn get_alert_from_stop_ids(&self, chateau_id: String, stop_ids: Vec<String>) -> (r:
        Option<AlertsforManyStops>)
        requires
            self.wf(),
        ensures
            r is Some <==> self.enriched_store().contains_key(chateau_id@),
            r matches Some(resp) ==> {
                let art = self.enriched_store()[chateau_id@];
                &&& resp.stop_alerts.wf()
                &&& resp.alerts.wf()
                &&& forall|i: int|
                    0 <= i < stop_ids@.len() && art.alerts_by_stop@.contains_key(
                        (#[trigger] stop_ids@[i])@,
                    ) ==> resp.stop_alerts@.contains_key(stop_ids@[i]@)
                        && resp.stop_alerts@[stop_ids@[i]@]@
                        == art.alerts_by_stop@[stop_ids@[i]@]@
                &&& forall|k: Seq<char>|
                    #[trigger] resp.stop_alerts@.contains_key(k) ==> art.alerts_by_stop@
                        .contains_key(k)
                // every reported alert is the stored one
                &&& forall|k: Seq<char>|
                    #[trigger] resp.alerts@.contains_key(k) ==> art.aspenised_alerts@
                        .contains_key(k) && resp.alerts@[k]@ == art.aspenised_alerts@[k]@
                // every identifier listed for a requested stop is resolved
                &&& forall|i: int, li: int|
                    #![trigger art.alerts_by_stop@[stop_ids@[i]@]@[li]]
                    0 <= i < stop_ids@.len() && art.alerts_by_stop@.contains_key(stop_ids@[i]@)
                        && 0 <= li < art.alerts_by_stop@[stop_ids@[i]@]@.len()
                        && art.aspenised_alerts@.contains_key(
                        art.alerts_by_stop@[stop_ids@[i]@]@[li]@,
                    ) ==> resp.alerts@.contains_key(art.alerts_by_stop@[stop_ids@[i]@]@[li]@)
            },
    {
        match scc_artifact_get(&self.authoritative_data_store, chateau_id.as_str()) {
            Some(art) => {
                proof {
                    assert(self.enriched_store().contains_key(chateau_id@));
                    assert(art == self.enriched_store()[chateau_id@]);
                    assert(art.wf());
                }
                let mut stop_alerts: StringMap<Vec<String>> = StringMap::new();
                let mut alerts: StringMap<AspenisedAlert> = StringMap::new();
                let n = stop_ids.len();
                let mut i: usize = 0;
                while i < n
                    invariant
                        art.wf(),
                        n == stop_ids@.len(),
                        i <= n,
                        stop_alerts.wf(),
                        alerts.wf(),
                        forall|j: int|
                            0 <= j < i && art.alerts_by_stop@.contains_key(
                                (#[trigger] stop_ids@[j])@,
                            ) ==> stop_alerts@.contains_key(stop_ids@[j]@)
                                && stop_alerts@[stop_ids@[j]@]@
                                == art.alerts_by_stop@[stop_ids@[j]@]@,
                        forall|k: Seq<char>|
                            #[trigger] stop_alerts@.contains_key(k) ==> art.alerts_by_stop@
                                .contains_key(k),
                        forall|k: Seq<char>|
                            #[trigger] alerts@.contains_key(k) ==> art.aspenised_alerts@
                                .contains_key(k) && alerts@[k]@ == art.aspenised_alerts@[k]@,
                        forall|ii: int, li: int|
                            #![trigger art.alerts_by_stop@[stop_ids@[ii]@]@[li]]
                            0 <= ii < i && art.alerts_by_stop@.contains_key(stop_ids@[ii]@) && 0
                                <= li < art.alerts_by_stop@[stop_ids@[ii]@]@.len()
                                && art.aspenised_alerts@.contains_key(
                                art.alerts_by_stop@[stop_ids@[ii]@]@[li]@,
                            ) ==> alerts@.contains_key(art.alerts_by_stop@[stop_ids@[ii]@]@[li]@),
                    decreases n - i,
                {
                    let stop = &stop_ids[i];
                    match art.alerts_by_stop.get(stop.as_str()) {
                        Some(ids) => {
                            let ghost prev = stop_alerts@;
                            let copied = crate::types::dup_string_vec(ids);
                            stop_alerts.upsert(stop.clone(), copied);
                            proof {
                                assert forall|k: Seq<char>|
                                    #[trigger] stop_alerts@.contains_key(k) implies art
                                    .alerts_by_stop@.contains_key(k) by {
                                    if k != stop@ {
                                        assert(prev.contains_key(k));
                                    }
                                }
                            }
                            let m = ids.len();
                            let mut j: usize = 0;
                            while j < m
                                invariant
                                    art.wf(),
                                    m == ids@.len(),
                                    j <= m,
                                    alerts.wf(),
                                    n == stop_ids@.len(),
                                    0 <= i < n,
                                    art.alerts_by_stop@.contains_key(stop_ids@[i as int]@),
                                    ids@ == art.alerts_by_stop@[stop_ids@[i as int]@]@,
                                    forall|k: Seq<char>|
                                        #[trigger] alerts@.contains_key(k)
                                            ==> art.aspenised_alerts@.contains_key(k)
                                            && alerts@[k]@ == art.aspenised_alerts@[k]@,
                                    forall|ii: int, li: int|
                                        #![trigger art.alerts_by_stop@[stop_ids@[ii]@]@[li]]
                                        0 <= ii < i && art.alerts_by_stop@.contains_key(
                                            stop_ids@[ii]@,
                                        ) && 0 <= li < art.alerts_by_stop@[stop_ids@[ii]@]@.len()
                                            && art.aspenised_alerts@.contains_key(
                                            art.alerts_by_stop@[stop_ids@[ii]@]@[li]@,
                                        ) ==> alerts@.contains_key(
                                            art.alerts_by_stop@[stop_ids@[ii]@]@[li]@,
                                        ),
                                    forall|li: int|
                                        0 <= li < j && art.aspenised_alerts@.contains_key(
                                            (#[trigger] ids@[li])@,
                                        ) ==> alerts@.contains_key(ids@[li]@),
                                decreases m - j,
                            {
                                match art.aspenised_alerts.get(ids[j].as_str()) {
                                    Some(a) => {
                                        alerts.upsert(ids[j].clone(), crate::feed::dup_alert(a));
                                    },
                                    None => {},
                                }
                                j = j + 1;
                            }
                            proof {
                                assert forall|li: int|
                                    0 <= li < art.alerts_by_stop@[stop_ids@[i as int]@]@.len()
                                        && art.aspenised_alerts@.contains_key(
                                        (#[trigger] art.alerts_by_stop@[stop_ids@[i as int]@]@[li])@,
                                    ) implies alerts@.contains_key(
                                    art.alerts_by_stop@[stop_ids@[i as int]@]@[li]@,
                                ) by {
                                    assert(ids@[li]
                                        == art.alerts_by_stop@[stop_ids@[i as int]@]@[li]);
                                }
                            }
                        },
                        None => {},
                    }
                    i = i + 1;
                }
                Some(AlertsforManyStops { stop_alerts, alerts })
            },
            None => None,
        }
    }

    /// How many enrichment jobs are queued.
    pub fn queued_len(&self) -> (r: usize)
        ensures
            r == self.queue_fifo().len(),
    {
        self.alpenrose_to_process_queue.queued_len()
    }

    /// Whether a chateau is queued or being enriched.
    pub fn is_chateau_in_flight(&self, chateau_id: &str) -> (r: bool)
        requires
            self.wf(),
        ensures
            r == self.queue_in_flight().contains(chateau_id@),
    {
        self.alpenrose_to_process_queue.is_in_flight(chateau_id)
    }

    /// Takes the oldest pending enrichment job; its chateau stays marked
    /// until the job is released.
    pub fn take_pending(&mut self) -> (r: Option<ProcessAlpenroseData>)
        requires
            old(self).wf(),
        ensures
            final(self).wf(),
            final(self).dedup_view() == old(self).dedup_view(),
            final(self).raw_store() == old(self).raw_store(),
            final(self).enriched_store() == old(self).enriched_store(),
            final(self).queue_in_flight() == old(self).queue_in_flight(),
            match r {
                Some(x) => old(self).queue_fifo() == seq![x] + final(self).queue_fifo(),
                None => final(self).queue_fifo() == old(self).queue_fifo() && old(self).queue_fifo().len() == 0,
            },
    {
        let r = self.alpenrose_to_process_queue.take();
        proof {
            assert(self.enriched_store() == old(self).enriched_store());
        }
        r
    }

    /// Reads a chateau's current payloads from the raw plane.
    fn read_feed_triple(&self, feed_id: &String) -> (r: FeedTriple)
        ensures
            r.feed_id == *feed_id,
            r.vehicles == (if self.raw_store().contains_key(
                (feed_id@, GtfsRtType::VehiclePositions),
            ) {
                Some(self.raw_store()[(feed_id@, GtfsRtType::VehiclePositions)])
            } else {
                Option::<FeedMessage>::None
            }),
            r.trips == (if self.raw_store().contains_key((feed_id@, GtfsRtType::TripUpdates)) {
                Some(self.raw_store()[(feed_id@, GtfsRtType::TripUpdates)])
            } else {
                Option::<FeedMessage>::None
            }),
            r.alerts == (if self.raw_store().contains_key((feed_id@, GtfsRtType::Alerts)) {
                Some(self.raw_store()[(feed_id@, GtfsRtType::Alerts)])
            } else {
                Option::<FeedMessage>::None
            }),
    {
        FeedTriple {
            feed_id: feed_id.clone(),
            vehicles: scc_feed_get(
                &self.authoritative_gtfs_rt_store,
                feed_id.as_str(),
                GtfsRtType::VehiclePositions,
            ),
            trips: scc_feed_get(
                &self.authoritative_gtfs_rt_store,
                feed_id.as_str(),
                GtfsRtType::TripUpdates,
            ),
            alerts: scc_feed_get(
                &self.authoritative_gtfs_rt_store,
                feed_id.as_str(),
                GtfsRtType::Alerts,
            ),
        }
    }

    /// Releases a chateau without publishing: the static-data fetch
    /// failed, so the job is abandoned and the next submission retries
    /// (no backoff at this layer; the upstream poller sets the cadence).
    /// A chateau that is somehow still queued stays marked, so the
    /// coalescing bound cannot break.
    pub fn release_chateau(&mut self, chateau_id: &str)
        requires
            old(self).wf(),
        ensures
            final(self).wf(),
            final(self).dedup_view() == old(self).dedup_view(),
            final(self).raw_store() == old(self).raw_store(),
            final(self).enriched_store() == old(self).enriched_store(),
            final(self).queue_fifo() == old(self).queue_fifo(),
            (forall|i: int|
                0 <= i < old(self).queue_fifo().len() ==> (#[trigger] old(self).queue_fifo()[i])
                    .chateau_id@ != chateau_id@) ==> final(self).queue_in_flight() == old(self).queue_in_flight().remove(chateau_id@),
            final(self).queue_in_flight() == old(self).queue_in_flight() || final(self).queue_in_flight() == old(self).queue_in_flight().remove(chateau_id@),
    {
        let ghost qpre = self.alpenrose_to_process_queue;
        self.alpenrose_to_process_queue.complete(chateau_id);
        proof {
            assert(self.enriched_store() == old(self).enriched_store());
            if (forall|i: int|
                0 <= i < old(self).queue_fifo().len() ==> (#[trigger] old(self).queue_fifo()[i])
                    .chateau_id@ != chateau_id@) {
                assert forall|i: int| 0 <= i < qpre.fifo_seq().len() implies (
                #[trigger] qpre.fifo_seq()[i]).chateau_id@ != chateau_id@ by {
                    assert(qpre.fifo_seq()[i] == old(self).queue_fifo()[i]);
                }
            }
        }
    }

    /// One enrichment: reads the chateau's payloads from the raw plane,
    /// joins them with the static route rows, publishes the artifact, and
    /// releases the chateau for future submissions. A failed static-data
    /// fetch is the caller's concern: it simply releases without calling
    /// this.
    pub fn enrich_chateau(
        &mut self,
        chateau: &crate::types::ChateauDataNoGeometry,
        routes: &Vec<RouteRow>,
        now_ms: u64,
    )
        requires
            old(self).wf(),
        ensures
            final(self).wf(),
            final(self).dedup_view() == old(self).dedup_view(),
            final(self).raw_store() == old(self).raw_store(),
            final(self).queue_fifo() == old(self).queue_fifo(),
            // the artifact is published under the chateau, stamped now
            final(self).enriched_store().contains_key(chateau.chateau_id@),
            final(self).enriched_store()[chateau.chateau_id@].last_updated_time_ms == now_ms,
            final(self).enriched_store()[chateau.chateau_id@].wf(),
            // the published artifact is the join of the chateau's current
            // raw payloads with the given rows, both ways
            sp_artifact_from(
                final(self).enriched_store()[chateau.chateau_id@],
                old(self).raw_store(),
                chateau.realtime_feeds@,
                routes@,
            ),
            forall|c: Seq<char>|
                c != chateau.chateau_id@ ==> (#[trigger] final(self).enriched_store().contains_key(
                    c,
                ) <==> old(self).enriched_store().contains_key(c)) && (old(self).enriched_store().contains_key(c) ==> final(self).enriched_store()[c] == old(self).enriched_store()[c]),
            // the chateau is released unless a job for it is still queued
            final(self).queue_in_flight() == old(self).queue_in_flight() || final(self).queue_in_flight() == old(self).queue_in_flight().remove(chateau.chateau_id@),
            (forall|i: int|
                0 <= i < old(self).queue_fifo().len() ==> (#[trigger] old(self).queue_fifo()[i])
                    .chateau_id@ != chateau.chateau_id@) ==> final(self).queue_in_flight() == old(self).queue_in_flight().remove(chateau.chateau_id@),
    {
        let mut triples: Vec<FeedTriple> = Vec::new();
        let n = chateau.realtime_feeds.len();
        let mut k: usize = 0;
        while k < n
            invariant
                n == chateau.realtime_feeds@.len(),
                k <= n,
                self == old(self),
                triples@.len() == k as int,
                forall|fi: int|
                    0 <= fi < k ==> crate::enrich::sp_triple_vehicle_entities(
                        #[trigger] triples@[fi],
                    ) == sp_raw_entities(
                        old(self).raw_store(),
                        chateau.realtime_feeds@[fi]@,
                        GtfsRtType::VehiclePositions,
                    ),
                forall|fi: int|
                    0 <= fi < k ==> crate::enrich::sp_triple_trip_entities(
                        #[trigger] triples@[fi],
                    ) == sp_raw_entities(
                        old(self).raw_store(),
                        chateau.realtime_feeds@[fi]@,
                        GtfsRtType::TripUpdates,
                    ),
                forall|fi: int|
                    0 <= fi < k ==> crate::enrich::sp_triple_alert_entities(
                        #[trigger] triples@[fi],
                    ) == sp_raw_entities(
                        old(self).raw_store(),
                        chateau.realtime_feeds@[fi]@,
                        GtfsRtType::Alerts,
                    ),
            decreases n - k,
        {
            triples.push(self.read_feed_triple(&chateau.realtime_feeds[k]));
            k = k + 1;
        }
        let artifact = build_artifact(&triples, routes, now_ms);
        let ghost raw = old(self).raw_store();
        let ghost fids = chateau.realtime_feeds@;
        proof {
            assert forall|fi: int, j: int|
                0 <= fi < fids.len() && 0 <= j < sp_raw_entities(raw, fids[fi]@, GtfsRtType::VehiclePositions).len() && (#[trigger] sp_raw_entities(raw, fids[fi]@, GtfsRtType::VehiclePositions)[j])
                    .vehicle is Some implies artifact.vehicle_positions@.contains_key(
                sp_vehicle_key(sp_raw_entities(raw, fids[fi]@, GtfsRtType::VehiclePositions)[j]),
            ) by {
                assert(sp_triple_vehicle_entities(triples@[fi])[j] == sp_raw_entities(raw, fids[fi]@, GtfsRtType::VehiclePositions)[j]);
            }
            assert forall|k: Seq<char>| #[trigger] artifact.vehicle_positions@.contains_key(
                k,
            ) implies exists|fi: int, j: int|
                #![trigger sp_raw_entities(raw, fids[fi]@, GtfsRtType::VehiclePositions)[j]]
                0 <= fi < fids.len() && 0 <= j < sp_raw_entities(raw, fids[fi]@, GtfsRtType::VehiclePositions).len() && sp_raw_entities(raw, fids[fi]@, GtfsRtType::VehiclePositions)[j].vehicle is Some
                    && sp_vehicle_key(sp_raw_entities(raw, fids[fi]@, GtfsRtType::VehiclePositions)[j]) == k && sp_matches_vehicle(
                    artifact.vehicle_positions@[k],
                    sp_raw_entities(raw, fids[fi]@, GtfsRtType::VehiclePositions)[j].vehicle->Some_0,
                ) by {
                let (f0, j0) = choose|f0: int, j0: int|
                    #![trigger sp_triple_vehicle_entities(triples@[f0])[j0]]
                    0 <= f0 < triples@.len() && 0 <= j0 < sp_triple_vehicle_entities(triples@[f0]).len()
                        && sp_triple_vehicle_entities(triples@[f0])[j0].vehicle is Some
                        && sp_vehicle_key(sp_triple_vehicle_entities(triples@[f0])[j0]) == k
                        && sp_matches_vehicle(
                        artifact.vehicle_positions@[k],
                        sp_triple_vehicle_entities(triples@[f0])[j0].vehicle->Some_0,
                    );
                assert(sp_raw_entities(raw, fids[f0]@, GtfsRtType::VehiclePositions)[j0] == sp_triple_vehicle_entities(triples@[f0])[j0]);
            }
            assert forall|fi: int, j: int|
                0 <= fi < fids.len() && 0 <= j < sp_raw_entities(raw, fids[fi]@, GtfsRtType::VehiclePositions).len() && (sp_vehicle_route(
                    #[trigger] sp_raw_entities(raw, fids[fi]@, GtfsRtType::VehiclePositions)[j],
                )) is Some && (exists|rj: int|
                    0 <= rj < routes@.len() && routes@[rj].route_id@ == sp_vehicle_route(
                        sp_raw_entities(raw, fids[fi]@, GtfsRtType::VehiclePositions)[j],
                    )->Some_0) implies artifact.vehicle_routes_cache@.contains_key(
                sp_vehicle_route(sp_raw_entities(raw, fids[fi]@, GtfsRtType::VehiclePositions)[j])->Some_0,
            ) by {
                assert(sp_triple_vehicle_entities(triples@[fi])[j] == sp_raw_entities(raw, fids[fi]@, GtfsRtType::VehiclePositions)[j]);
            }
            assert forall|rk: Seq<char>| #[trigger] artifact.vehicle_routes_cache@.contains_key(
                rk,
            ) implies exists|fi: int, j: int, rj: int|
                #![trigger sp_raw_entities(raw, fids[fi]@, GtfsRtType::VehiclePositions)[j], routes@[rj]]
                0 <= fi < fids.len() && 0 <= j < sp_raw_entities(raw, fids[fi]@, GtfsRtType::VehiclePositions).len() && 0 <= rj < routes@.len()
                    && sp_vehicle_route(sp_raw_entities(raw, fids[fi]@, GtfsRtType::VehiclePositions)[j]) == Some(rk) && routes@[rj].route_id@ == rk
                    && sp_matches_route_row(
                    artifact.vehicle_routes_cache@[rk],
                    routes@[rj],
                ) by {
                let (f0, j0, rj0) = choose|f0: int, j0: int, rj0: int|
                    #![trigger sp_triple_vehicle_entities(triples@[f0])[j0], routes@[rj0]]
                    0 <= f0 < triples@.len() && 0 <= j0 < sp_triple_vehicle_entities(triples@[f0]).len()
                        && 0 <= rj0 < routes@.len() && sp_vehicle_route(
                        sp_triple_vehicle_entities(triples@[f0])[j0],
                    ) == Some(rk) && routes@[rj0].route_id@ == rk && sp_matches_route_row(
                        artifact.vehicle_routes_cache@[rk],
                        routes@[rj0],
                    );
                assert(sp_raw_entities(raw, fids[f0]@, GtfsRtType::VehiclePositions)[j0] == sp_triple_vehicle_entities(triples@[f0])[j0]);
            }
            assert forall|fi: int, j: int|
                0 <= fi < fids.len() && 0 <= j < sp_raw_entities(raw, fids[fi]@, GtfsRtType::TripUpdates).len() && (#[trigger] sp_raw_entities(raw, fids[fi]@, GtfsRtType::TripUpdates)[j])
                    .trip_update is Some implies artifact.trip_updates@.contains_key(
                sp_raw_entities(raw, fids[fi]@, GtfsRtType::TripUpdates)[j].id,
            ) by {
                assert(sp_triple_trip_entities(triples@[fi])[j] == sp_raw_entities(raw, fids[fi]@, GtfsRtType::TripUpdates)[j]);
            }
            assert forall|k: Seq<char>| #[trigger] artifact.trip_updates@.contains_key(
                k,
            ) implies exists|fi: int, j: int|
                #![trigger sp_raw_entities(raw, fids[fi]@, GtfsRtType::TripUpdates)[j]]
                0 <= fi < fids.len() && 0 <= j < sp_raw_entities(raw, fids[fi]@, GtfsRtType::TripUpdates).len() && sp_raw_entities(raw, fids[fi]@, GtfsRtType::TripUpdates)[j].trip_update
                    is Some && sp_raw_entities(raw, fids[fi]@, GtfsRtType::TripUpdates)[j].id == k && artifact.trip_updates@[k]@ == sp_raw_entities(raw, fids[fi]@, GtfsRtType::TripUpdates)[j].trip_update->Some_0 by {
                let (f0, j0) = choose|f0: int, j0: int|
                    #![trigger sp_triple_trip_entities(triples@[f0])[j0]]
                    0 <= f0 < triples@.len() && 0 <= j0 < sp_triple_trip_entities(triples@[f0]).len()
                        && sp_triple_trip_entities(triples@[f0])[j0].trip_update is Some
                        && sp_triple_trip_entities(triples@[f0])[j0].id == k
                        && artifact.trip_updates@[k]@ == sp_triple_trip_entities(triples@[f0])[j0].trip_update->Some_0;
                assert(sp_raw_entities(raw, fids[f0]@, GtfsRtType::TripUpdates)[j0] == sp_triple_trip_entities(triples@[f0])[j0]);
            }
            assert forall|fi: int, j: int|
                0 <= fi < fids.len() && 0 <= j < sp_raw_entities(raw, fids[fi]@, GtfsRtType::Alerts).len() && (#[trigger] sp_raw_entities(raw, fids[fi]@, GtfsRtType::Alerts)[j])
                    .alert is Some implies artifact.aspenised_alerts@.contains_key(
                sp_raw_entities(raw, fids[fi]@, GtfsRtType::Alerts)[j].id,
            ) by {
                assert(sp_triple_alert_entities(triples@[fi])[j] == sp_raw_entities(raw, fids[fi]@, GtfsRtType::Alerts)[j]);
            }
            assert forall|k: Seq<char>| #[trigger] artifact.aspenised_alerts@.contains_key(
                k,
            ) implies exists|fi: int, j: int|
                #![trigger sp_raw_entities(raw, fids[fi]@, GtfsRtType::Alerts)[j]]
                0 <= fi < fids.len() && 0 <= j < sp_raw_entities(raw, fids[fi]@, GtfsRtType::Alerts).len() && sp_raw_entities(raw, fids[fi]@, GtfsRtType::Alerts)[j].alert is Some
                    && sp_raw_entities(raw, fids[fi]@, GtfsRtType::Alerts)[j].id == k && artifact.aspenised_alerts@[k]@ == (sp_raw_entities(raw, fids[fi]@, GtfsRtType::Alerts)[j])
                    .alert->Some_0 by {
                let (f0, j0) = choose|f0: int, j0: int|
                    #![trigger sp_triple_alert_entities(triples@[f0])[j0]]
                    0 <= f0 < triples@.len() && 0 <= j0 < sp_triple_alert_entities(triples@[f0]).len()
                        && sp_triple_alert_entities(triples@[f0])[j0].alert is Some
                        && sp_triple_alert_entities(triples@[f0])[j0].id == k
                        && artifact.aspenised_alerts@[k]@ == (sp_triple_alert_entities(triples@[f0])[j0])
                        .alert->Some_0;
                assert(sp_raw_entities(raw, fids[f0]@, GtfsRtType::Alerts)[j0] == sp_triple_alert_entities(triples@[f0])[j0]);
            }
            assert forall|fi: int, j: int|
                0 <= fi < fids.len() && 0 <= j < sp_raw_entities(raw, fids[fi]@, GtfsRtType::TripUpdates).len() && (sp_tu_trip_id(
                    #[trigger] sp_raw_entities(raw, fids[fi]@, GtfsRtType::TripUpdates)[j],
                )) is Some implies artifact.trip_updates_lookup_by_trip_id_to_trip_update_ids@
                .contains_key(sp_tu_trip_id(sp_raw_entities(raw, fids[fi]@, GtfsRtType::TripUpdates)[j])->Some_0) by {
                assert(sp_triple_trip_entities(triples@[fi])[j] == sp_raw_entities(raw, fids[fi]@, GtfsRtType::TripUpdates)[j]);
            }
            assert forall|fi: int, j: int, si: int|
                0 <= fi < fids.len() && 0 <= j < sp_raw_entities(raw, fids[fi]@, GtfsRtType::Alerts).len() && (#[trigger] sp_selector_route(
                    sp_raw_entities(raw, fids[fi]@, GtfsRtType::Alerts)[j],
                    si,
                )) is Some implies artifact.alerts_by_route@.contains_key(
                sp_selector_route(sp_raw_entities(raw, fids[fi]@, GtfsRtType::Alerts)[j], si)->Some_0,
            ) by {
                assert(sp_triple_alert_entities(triples@[fi])[j] == sp_raw_entities(raw, fids[fi]@, GtfsRtType::Alerts)[j]);
                assert(sp_selector_route(sp_triple_alert_entities(triples@[fi])[j], si) == sp_selector_route(
                    sp_raw_entities(raw, fids[fi]@, GtfsRtType::Alerts)[j],
                    si,
                ));
            }
            assert forall|fi: int, j: int, si: int|
                0 <= fi < fids.len() && 0 <= j < sp_raw_entities(raw, fids[fi]@, GtfsRtType::Alerts).len() && (#[trigger] sp_selector_stop(
                    sp_raw_entities(raw, fids[fi]@, GtfsRtType::Alerts)[j],
                    si,
                )) is Some implies artifact.alerts_by_stop@.contains_key(
                sp_selector_stop(sp_raw_entities(raw, fids[fi]@, GtfsRtType::Alerts)[j], si)->Some_0,
            ) by {
                assert(sp_triple_alert_entities(triples@[fi])[j] == sp_raw_entities(raw, fids[fi]@, GtfsRtType::Alerts)[j]);
                assert(sp_selector_stop(sp_triple_alert_entities(triples@[fi])[j], si) == sp_selector_stop(
                    sp_raw_entities(raw, fids[fi]@, GtfsRtType::Alerts)[j],
                    si,
                ));
            }
            assert forall|fi: int, j: int, si: int|
                0 <= fi < fids.len() && 0 <= j < sp_raw_entities(raw, fids[fi]@, GtfsRtType::Alerts).len() && (#[trigger] sp_selector_trip(
                    sp_raw_entities(raw, fids[fi]@, GtfsRtType::Alerts)[j],
                    si,
                )) is Some implies artifact.alerts_by_trip@.contains_key(
                sp_selector_trip(sp_raw_entities(raw, fids[fi]@, GtfsRtType::Alerts)[j], si)->Some_0,
            ) by {
                assert(sp_triple_alert_entities(triples@[fi])[j] == sp_raw_entities(raw, fids[fi]@, GtfsRtType::Alerts)[j]);
                assert(sp_selector_trip(sp_triple_alert_entities(triples@[fi])[j], si) == sp_selector_trip(
                    sp_raw_entities(raw, fids[fi]@, GtfsRtType::Alerts)[j],
                    si,
                ));
            }
            assert(sp_artifact_from(artifact, raw, fids, routes@));
        }
        let ghost builtart = artifact;
        scc_artifact_upsert(&mut self.authoritative_data_store, chateau.chateau_id.as_str(), artifact);
        proof {
            assert(self.enriched_store()[chateau.chateau_id@] == builtart);
        }
        proof {
            assert(self.alpenrose_to_process_queue == old(self).alpenrose_to_process_queue);
            assert(self.dedup_view() == old(self).dedup_view());
            assert(self.raw_store() == old(self).raw_store());
        }
        let ghost qpre = self.alpenrose_to_process_queue;
        self.alpenrose_to_process_queue.complete(chateau.chateau_id.as_str());
        proof {
            if (forall|i: int|
                0 <= i < old(self).queue_fifo().len() ==> (#[trigger] old(self).queue_fifo()[i])
                    .chateau_id@ != chateau.chateau_id@) {
                assert forall|i: int| 0 <= i < qpre.fifo_seq().len() implies (
                #[trigger] qpre.fifo_seq()[i]).chateau_id@ != chateau.chateau_id@ by {
                    assert(qpre.fifo_seq()[i] == old(self).queue_fifo()[i]);
                }
                assert(self.queue_in_flight() == old(self).queue_in_flight().remove(
                    chateau.chateau_id@,
                ));
            }
            assert forall|c: Seq<char>| #[trigger] self.enriched_store().contains_key(c)
                implies self.enriched_store()[c].wf() by {
                if c != chateau.chateau_id@ {
                    assert(old(self).enriched_store().contains_key(c));
                    assert(self.enriched_store()[c] == old(self).enriched_store()[c]);
                }
            }
        }
    }
}

/// The identifiers an index map holds for a key; none where the key is
/// not indexed.
pub open spec fn sp_indexed_ids(m: Map<Seq<char>, Vec<String>>, key: Seq<char>) -> Seq<String> {
    if m.contains_key(key) {
        m[key]@
    } else {
        Seq::empty()
    }
}

/// The updates a list of identifiers resolves to, skipping the missing.
pub open spec fn sp_resolve_updates(
    ids: Seq<String>,
    m: Map<Seq<char>, AspenisedTripUpdate>,
) -> Seq<AspenisedTripUpdate>
    decreases ids.len(),
{
    if ids.len() == 0 {
        Seq::empty()
    } else {
        let rest = sp_resolve_updates(ids.drop_last(), m);
        if m.contains_key(ids.last()@) {
            rest.push(m[ids.last()@])
        } else {
            rest
        }
    }
}

/// The identifiers of a list that resolve in an alert map, in order.
pub open spec fn sp_resolve_ids(
    ids: Seq<String>,
    m: Map<Seq<char>, AspenisedAlert>,
) -> Seq<String>
    decreases ids.len(),
{
    if ids.len() == 0 {
        Seq::empty()
    } else {
        let rest = sp_resolve_ids(ids.drop_last(), m);
        if m.contains_key(ids.last()@) {
            rest.push(ids.last())
        } else {
            rest
        }
    }
}

/// Pairwise: the served pairs carry exactly the resolved identifiers and
/// their alerts, up to the alerts' views.
pub open spec fn sp_pairs_match_seq(
    pairs: Seq<(String, AspenisedAlert)>,
    ids: Seq<String>,
    m: Map<Seq<char>, AspenisedAlert>,
) -> bool {
    &&& pairs.len() == ids.len()
    &&& forall|i: int|
        0 <= i < pairs.len() ==> (#[trigger] pairs[i]).0@ == ids[i]@ && m.contains_key(ids[i]@)
            && pairs[i].1@ == m[ids[i]@]@
}

/// The served pairs of an alert index lookup.
pub open spec fn sp_pairs_match(
    pairs: Seq<(String, AspenisedAlert)>,
    ids: Seq<String>,
    m: Map<Seq<char>, AspenisedAlert>,
) -> bool {
    sp_pairs_match_seq(pairs, sp_resolve_ids(ids, m), m)
}

/// Freshness monotonicity: artifacts carry the instant they were
/// published, so successive publications of one chateau under a clock
/// that did not step back carry non-decreasing freshness stamps. A clock
/// that steps back is the one input left out.
pub proof fn lemma_freshness_monotonic(
    first: AspenisedData,
    second: AspenisedData,
    now1: u64,
    now2: u64,
)
    requires
        first.last_updated_time_ms == now1,
        second.last_updated_time_ms == now2,
        now1 <= now2,
    ensures
        first.last_updated_time_ms <= second.last_updated_time_ms,
{
}

/// Dedup idempotence across one whole ingestion step: after any call
/// has observed its three payload slots, a second call carrying the same
/// payloads (same timestamps, same content) draws no New verdict, so it
/// cannot enqueue the chateau again. Payloads without a header timestamp
/// are the inputs left out: the deduplicator lets them through on
/// purpose.
pub proof fn lemma_ingest_idempotent(
    d0: Map<(Seq<char>, GtfsRtType), DedupEntry>,
    feed: Seq<char>,
    vehicles: Option<FeedMessage>,
    trips: Option<FeedMessage>,
    alerts: Option<FeedMessage>,
)
    requires
        vehicles matches Some(m) ==> m@.header.timestamp is Some,
        trips matches Some(m) ==> m@.header.timestamp is Some,
        alerts matches Some(m) ==> m@.header.timestamp is Some,
    ensures
        ({
            let d1 = sp_slot_next(d0, feed, GtfsRtType::VehiclePositions, vehicles);
            let d2 = sp_slot_next(d1, feed, GtfsRtType::TripUpdates, trips);
            let d3 = sp_slot_next(d2, feed, GtfsRtType::Alerts, alerts);
            let e1 = sp_slot_next(d3, feed, GtfsRtType::VehiclePositions, vehicles);
            let e2 = sp_slot_next(e1, feed, GtfsRtType::TripUpdates, trips);
            &&& !sp_slot_new(d3, feed, GtfsRtType::VehiclePositions, vehicles)
            &&& !sp_slot_new(e1, feed, GtfsRtType::TripUpdates, trips)
            &&& !sp_slot_new(e2, feed, GtfsRtType::Alerts, alerts)
        }),
{
    let kv = (feed, GtfsRtType::VehiclePositions);
    let kt = (feed, GtfsRtType::TripUpdates);
    let ka = (feed, GtfsRtType::Alerts);
    let d1 = sp_slot_next(d0, feed, GtfsRtType::VehiclePositions, vehicles);
    let d2 = sp_slot_next(d1, feed, GtfsRtType::TripUpdates, trips);
    let d3 = sp_slot_next(d2, feed, GtfsRtType::Alerts, alerts);
    let e1 = sp_slot_next(d3, feed, GtfsRtType::VehiclePositions, vehicles);
    let e2 = sp_slot_next(e1, feed, GtfsRtType::TripUpdates, trips);
    if vehicles is Some {
        let m = vehicles->Some_0;
        let t = m@.header.timestamp->Some_0;
        crate::dedup::lemma_dedup_idempotent(d0, kv, t, sp_rough_hash(m@));
        assert(sp_lookup(d3, kv) == sp_lookup(d1, kv));
    }
    if trips is Some {
        let m = trips->Some_0;
        let t = m@.header.timestamp->Some_0;
        crate::dedup::lemma_dedup_idempotent(d1, kt, t, sp_rough_hash(m@));
        assert(sp_lookup(e1, kt) == sp_lookup(d2, kt));
    }
    if alerts is Some {
        let m = alerts->Some_0;
        let t = m@.header.timestamp->Some_0;
        crate::dedup::lemma_dedup_idempotent(d2, ka, t, sp_rough_hash(m@));
        assert(sp_lookup(e2, ka) == sp_lookup(d3, ka));
    }
}

/// The full state relation of one ingestion step over already-cleaned
/// payloads: exactly the postcondition of `ingest_cleaned`.
pub open spec fn sp_ingest_effect(
    pre: AspenServer,
    post: AspenServer,
    chateau_id: String,
    realtime_feed_id: String,
    vehicles: Option<FeedMessage>,
    trips: Option<FeedMessage>,
    alerts: Option<FeedMessage>,
    has_vehicles: bool,
    has_trips: bool,
    has_alerts: bool,
    vehicles_response_code: Option<u16>,
    trips_response_code: Option<u16>,
    alerts_response_code: Option<u16>,
    time_of_submission_ms: u64,
) -> bool {
    let d0 = pre.dedup_view();
    let d1 = sp_slot_next(d0, realtime_feed_id@, GtfsRtType::VehiclePositions, vehicles);
    let d2 = sp_slot_next(d1, realtime_feed_id@, GtfsRtType::TripUpdates, trips);
    let nd = sp_slot_new(d0, realtime_feed_id@, GtfsRtType::VehiclePositions, vehicles)
        || sp_slot_new(d1, realtime_feed_id@, GtfsRtType::TripUpdates, trips) || sp_slot_new(
        d2,
        realtime_feed_id@,
        GtfsRtType::Alerts,
        alerts,
    );
    &&& post.dedup_view() == sp_slot_next(d2, realtime_feed_id@, GtfsRtType::Alerts, alerts)
    &&& post.raw_store() == sp_store_slot(
        sp_store_slot(
            sp_store_slot(
                pre.raw_store(),
                realtime_feed_id@,
                GtfsRtType::VehiclePositions,
                vehicles,
            ),
            realtime_feed_id@,
            GtfsRtType::TripUpdates,
            trips,
        ),
        realtime_feed_id@,
        GtfsRtType::Alerts,
        alerts,
    )
    &&& post.enriched_store() == pre.enriched_store()
    &&& if nd && !pre.queue_in_flight().contains(chateau_id@) {
        post.queue_fifo() == pre.queue_fifo().push(
            ProcessAlpenroseData {
                chateau_id,
                realtime_feed_id,
                vehicles: None,
                trips: None,
                alerts: None,
                has_vehicles,
                has_trips,
                has_alerts,
                vehicles_response_code,
                trips_response_code,
                alerts_response_code,
                time_of_submission_ms,
            },
        ) && post.queue_in_flight() == pre.queue_in_flight().insert(chateau_id@)
    } else {
        post.queue_fifo() == pre.queue_fifo() && post.queue_in_flight() == pre.queue_in_flight()
    }
}

} // verus!
