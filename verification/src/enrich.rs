//! Enrichment: joining the raw realtime plane with static schedule rows to
//! build the per-chateau artifact that the query plane serves.
//!
//! The caller hands over the chateau's current feed messages and the
//! static route rows; everything here is pure computation.

use vstd::prelude::*;

use crate::dataset::{
    AspenisedAlert, AspenisedData, AspenisedTripUpdate, AspenisedVehicleDescriptor,
    AspenisedVehiclePosition, AspenisedVehicleRouteCache, AspenisedVehicleTripInfo,
    CatenaryRtVehiclePosition,
};
use crate::feed::{
    FeedEntityV, FeedMessage, TripUpdateV, VehiclePositionV, dup_opt_string, dup_opt_u64,
    dup_trip_update, ov,
};
use crate::strmap::StringMap;
use crate::strutil::str_eq;
use crate::types::dup_string_vec;

verus! {

/// One static schedule row: the display data of a route.
#[derive(Clone, Debug, PartialEq, Eq)]
pub struct RouteRow {
    pub route_id: String,
    pub short_name: Option<String>,
    pub long_name: Option<String>,
    pub color: Option<String>,
    pub text_color: Option<String>,
}

/// The realtime payloads of one feed of a chateau.
pub struct FeedTriple {
    pub feed_id: String,
    pub vehicles: Option<FeedMessage>,
    pub trips: Option<FeedMessage>,
    pub alerts: Option<FeedMessage>,
}

/// The key a vehicle entity is served under: the vehicle's own identifier
/// where it has one, the entity identifier otherwise.
pub open spec fn sp_vehicle_key(e: FeedEntityV) -> Seq<char> {
    match e.vehicle {
        Some(v) => match v.vehicle {
            Some(d) => match d.id {
                Some(id) => id,
                None => e.id,
            },
            None => e.id,
        },
        None => e.id,
    }
}

/// Whether a served vehicle position is the faithful image of a decoded
/// vehicle report. Headsign and short name would come from static trip
/// data, which enrichment does not model; they are absent.
pub open spec fn sp_matches_vehicle(av: AspenisedVehiclePosition, v: VehiclePositionV) -> bool {
    &&& (match v.trip {
        Some(t) => av.trip matches Some(ti) && ov(ti.trip_id) == t.trip_id && ov(ti.route_id)
            == t.route_id && ti.trip_headsign is None && ti.trip_short_name is None,
        None => av.trip is None,
    })
    &&& (match v.vehicle {
        Some(d) => av.vehicle matches Some(ad) && ov(ad.id) == d.id && ov(ad.label) == d.label
            && ov(ad.license_plate) == d.license_plate,
        None => av.vehicle is None,
    })
    &&& (match v.position {
        Some(p) => av.position matches Some(cp) && cp.latitude_bits == p.latitude_bits
            && cp.longitude_bits == p.longitude_bits && cp.bearing_bits == p.bearing_bits
            && cp.odometer_bits == p.odometer_bits && cp.speed_bits == p.speed_bits,
        None => av.position is None,
    })
    &&& av.timestamp == v.timestamp
}

/// Whether a cache row is the faithful image of a static route row.
pub open spec fn sp_matches_route_row(c: AspenisedVehicleRouteCache, row: RouteRow) -> bool {
    &&& ov(c.route_short_name) == ov(row.short_name)
    &&& ov(c.route_long_name) == ov(row.long_name)
    &&& ov(c.route_colour) == ov(row.color)
    &&& ov(c.route_text_colour) == ov(row.text_color)
}

/// The route a vehicle entity references, if any.
pub open spec fn sp_vehicle_route(e: FeedEntityV) -> Option<Seq<char>> {
    match e.vehicle {
        Some(v) => match v.trip {
            Some(t) => t.route_id,
            None => None,
        },
        None => None,
    }
}

/// The trip identifier a trip-update entity announces, if any.
pub open spec fn sp_tu_trip_id(e: FeedEntityV) -> Option<Seq<char>> {
    match e.trip_update {
        Some(u) => match u.trip {
            Some(td) => td.trip_id,
            None => None,
        },
        None => None,
    }
}

/// The route an alert's selector names, if any.
pub open spec fn sp_selector_route(e: FeedEntityV, si: int) -> Option<Seq<char>> {
    match e.alert {
        Some(a) => if 0 <= si < a.informed_entity.len() {
            a.informed_entity[si].route_id
        } else {
            None
        },
        None => None,
    }
}

/// The stop an alert's selector names, if any.
pub open spec fn sp_selector_stop(e: FeedEntityV, si: int) -> Option<Seq<char>> {
    match e.alert {
        Some(a) => if 0 <= si < a.informed_entity.len() {
            a.informed_entity[si].stop_id
        } else {
            None
        },
        None => None,
    }
}

/// The trip an alert's selector names, if any.
pub open spec fn sp_selector_trip(e: FeedEntityV, si: int) -> Option<Seq<char>> {
    match e.alert {
        Some(a) => if 0 <= si < a.informed_entity.len() {
            a.informed_entity[si].trip_id
        } else {
            None
        },
        None => None,
    }
}

/// The vehicle entities of a feed triple.
pub open spec fn sp_triple_vehicle_entities(t: FeedTriple) -> Seq<FeedEntityV> {
    match t.vehicles {
        Some(m) => m@.entities,
        None => Seq::empty(),
    }
}

/// The trip-update entities of a feed triple.
pub open spec fn sp_triple_trip_entities(t: FeedTriple) -> Seq<FeedEntityV> {
    match t.trips {
        Some(m) => m@.entities,
        None => Seq::empty(),
    }
}

/// The alert entities of a feed triple.
pub open spec fn sp_triple_alert_entities(t: FeedTriple) -> Seq<FeedEntityV> {
    match t.alerts {
        Some(m) => m@.entities,
        None => Seq::empty(),
    }
}

/// Finds the static row of a route.
fn find_route(routes: &Vec<RouteRow>, route_id: &str) -> (r: Option<usize>)
    ensures
        r matches Some(j) ==> j < routes@.len() && routes@[j as int].route_id@ == route_id@,
        r is None ==> forall|j: int|
            0 <= j < routes@.len() ==> routes@[j].route_id@ != route_id@,
    decreases routes@.len(),
{
    let n = routes.len();
    let mut j: usize = 0;
    while j < n
        invariant
            n == routes@.len(),
            j <= n,
            forall|i: int| 0 <= i < j ==> routes@[i].route_id@ != route_id@,
        decreases n - j,
    {
        if str_eq(routes[j].route_id.as_str(), route_id) {
            return Some(j);
        }
        j = j + 1;
    }
    None
}

/// Folds one vehicle-positions payload into the artifact maps.
fn add_vehicles(art: &mut AspenisedData, feed: &FeedMessage, routes: &Vec<RouteRow>)
    requires
        old(art).wf(),
    ensures
        final(art).wf(),
        final(art).trip_updates == old(art).trip_updates,
        final(art).trip_updates_lookup_by_trip_id_to_trip_update_ids == old(art).trip_updates_lookup_by_trip_id_to_trip_update_ids,
        final(art).aspenised_alerts == old(art).aspenised_alerts,
        final(art).alerts_by_route == old(art).alerts_by_route,
        final(art).alerts_by_stop == old(art).alerts_by_stop,
        final(art).alerts_by_trip == old(art).alerts_by_trip,
        final(art).last_updated_time_ms == old(art).last_updated_time_ms,
        forall|k: Seq<char>|
            old(art).vehicle_positions@.contains_key(k) ==> final(art).vehicle_positions@.contains_key(k),
        forall|k: Seq<char>|
            old(art).vehicle_routes_cache@.contains_key(k) ==> final(art).vehicle_routes_cache@.contains_key(k),
        // every vehicle entity of this payload is now served under its key
        forall|j: int|
            0 <= j < feed@.entities.len() && (#[trigger] feed@.entities[j]).vehicle is Some
                ==> final(art).vehicle_positions@.contains_key(sp_vehicle_key(feed@.entities[j])),
        // the map grew only by faithful images of this payload's entities
        forall|k: Seq<char>|
            #[trigger] final(art).vehicle_positions@.contains_key(k) ==> {
                ||| (old(art).vehicle_positions@.contains_key(k) && final(art).vehicle_positions@[k] == old(art).vehicle_positions@[k])
                ||| (exists|j: int|
                    0 <= j < feed@.entities.len() && (#[trigger] feed@.entities[j]).vehicle
                        is Some && sp_vehicle_key(feed@.entities[j]) == k && sp_matches_vehicle(
                        final(art).vehicle_positions@[k],
                        feed@.entities[j].vehicle->Some_0,
                    ))
            },
        // the route cache grew only by faithful images of static rows for
        // routes this payload references
        forall|rk: Seq<char>|
            #[trigger] final(art).vehicle_routes_cache@.contains_key(rk) ==> {
                ||| (old(art).vehicle_routes_cache@.contains_key(rk) && final(art).vehicle_routes_cache@[rk] == old(art).vehicle_routes_cache@[rk])
                ||| (exists|j: int, rj: int|
                    #![trigger feed@.entities[j], routes@[rj]]
                    0 <= j < feed@.entities.len() && 0 <= rj < routes@.len()
                        && sp_vehicle_route(feed@.entities[j]) == Some(rk)
                        && routes@[rj].route_id@ == rk && sp_matches_route_row(
                        final(art).vehicle_routes_cache@[rk],
                        routes@[rj],
                    ))
            },
        // a referenced route with a static row is cached
        forall|j: int|
            0 <= j < feed@.entities.len() && (sp_vehicle_route(#[trigger] feed@.entities[j]))
                is Some && (exists|rj: int|
                0 <= rj < routes@.len() && routes@[rj].route_id@ == sp_vehicle_route(
                    feed@.entities[j],
                )->Some_0) ==> final(art).vehicle_routes_cache@.contains_key(
                sp_vehicle_route(feed@.entities[j])->Some_0,
            ),
{
    let n = feed.entities.len();
    let mut k: usize = 0;
    while k < n
        invariant
            old(art).wf(),
            art.wf(),
            n == feed@.entities.len(),
            k <= n,
            art.trip_updates == old(art).trip_updates,
            art.trip_updates_lookup_by_trip_id_to_trip_update_ids == old(art).trip_updates_lookup_by_trip_id_to_trip_update_ids,
            art.aspenised_alerts == old(art).aspenised_alerts,
            art.alerts_by_route == old(art).alerts_by_route,
            art.alerts_by_stop == old(art).alerts_by_stop,
            art.alerts_by_trip == old(art).alerts_by_trip,
            art.last_updated_time_ms == old(art).last_updated_time_ms,
            forall|kk: Seq<char>|
                old(art).vehicle_positions@.contains_key(kk)
                    ==> art.vehicle_positions@.contains_key(kk),
            forall|kk: Seq<char>|
                old(art).vehicle_routes_cache@.contains_key(kk)
                    ==> art.vehicle_routes_cache@.contains_key(kk),
            forall|j: int|
                0 <= j < k && (#[trigger] feed@.entities[j]).vehicle is Some
                    ==> art.vehicle_positions@.contains_key(sp_vehicle_key(feed@.entities[j])),
            forall|kk: Seq<char>|
                #[trigger] art.vehicle_positions@.contains_key(kk) ==> {
                    ||| (old(art).vehicle_positions@.contains_key(kk) && art.vehicle_positions@[kk]
                        == old(art).vehicle_positions@[kk])
                    ||| (exists|j: int|
                        0 <= j < k && (#[trigger] feed@.entities[j]).vehicle is Some
                            && sp_vehicle_key(feed@.entities[j]) == kk && sp_matches_vehicle(
                            art.vehicle_positions@[kk],
                            feed@.entities[j].vehicle->Some_0,
                        ))
                },
            forall|rk: Seq<char>|
                #[trigger] art.vehicle_routes_cache@.contains_key(rk) ==> {
                    ||| (old(art).vehicle_routes_cache@.contains_key(rk)
                        && art.vehicle_routes_cache@[rk] == old(art).vehicle_routes_cache@[rk])
                    ||| (exists|j: int, rj: int|
                        #![trigger feed@.entities[j], routes@[rj]]
                        0 <= j < k && 0 <= rj < routes@.len() && sp_vehicle_route(
                            feed@.entities[j],
                        ) == Some(rk) && routes@[rj].route_id@ == rk && sp_matches_route_row(
                            art.vehicle_routes_cache@[rk],
                            routes@[rj],
                        ))
                },
            forall|j: int|
                0 <= j < k && (sp_vehicle_route(#[trigger] feed@.entities[j])) is Some && (exists|
                    rj: int,
                |
                    0 <= rj < routes@.len() && routes@[rj].route_id@ == sp_vehicle_route(
                        feed@.entities[j],
                    )->Some_0) ==> art.vehicle_routes_cache@.contains_key(
                    sp_vehicle_route(feed@.entities[j])->Some_0,
                ),
        decreases n - k,
    {
        let e = &feed.entities[k];
        proof {
            assert(feed@.entities[k as int] == e@);
        }
        match &e.vehicle {
            Some(v) => {
                let key: String = match &v.vehicle {
                    Some(d) => match &d.id {
                        Some(id) => id.clone(),
                        None => e.id.clone(),
                    },
                    None => e.id.clone(),
                };
                let av = AspenisedVehiclePosition {
                    trip: match &v.trip {
                        Some(t) => Some(
                            AspenisedVehicleTripInfo {
                                trip_id: dup_opt_string(&t.trip_id),
                                trip_headsign: None,
                                route_id: dup_opt_string(&t.route_id),
                                trip_short_name: None,
                            },
                        ),
                        None => None,
                    },
                    vehicle: match &v.vehicle {
                        Some(d) => Some(
                            AspenisedVehicleDescriptor {
                                id: dup_opt_string(&d.id),
                                label: dup_opt_string(&d.label),
                                license_plate: dup_opt_string(&d.license_plate),
                                wheelchair_accessible: match &d.wheelchair_accessible {
                                    Some(w) => Some(#[verifier::truncate] (*w as i32)),
                                    None => None,
                                },
                            },
                        ),
                        None => None,
                    },
                    position: match &v.position {
                        Some(p) => Some(
                            CatenaryRtVehiclePosition {
                                latitude_bits: p.latitude_bits,
                                longitude_bits: p.longitude_bits,
                                bearing_bits: p.bearing_bits,
                                odometer_bits: p.odometer_bits,
                                speed_bits: p.speed_bits,
                            },
                        ),
                        None => None,
                    },
                    timestamp: dup_opt_u64(&v.timestamp),
                };
                proof {
                    assert(key@ == sp_vehicle_key(feed@.entities[k as int]));
                    assert(sp_matches_vehicle(av, feed@.entities[k as int].vehicle->Some_0));
                }
                self_upsert_vehicle(art, key, av);
                match &v.trip {
                    Some(t) => match &t.route_id {
                        Some(rid) => {
                            proof {
                                assert(sp_vehicle_route(feed@.entities[k as int]) == Some(rid@));
                            }
                            match find_route(routes, rid.as_str()) {
                                Some(rj) => {
                                    let row = &routes[rj];
                                    let cache = AspenisedVehicleRouteCache {
                                        route_short_name: dup_opt_string(&row.short_name),
                                        route_long_name: dup_opt_string(&row.long_name),
                                        route_colour: dup_opt_string(&row.color),
                                        route_text_colour: dup_opt_string(&row.text_color),
                                    };
                                    proof {
                                        assert(sp_matches_route_row(cache, routes@[rj as int]));
                                    }
                                    self_upsert_route(art, rid.clone(), cache);
                                },
                                None => {},
                            }
                        },
                        None => {},
                    },
                    None => {},
                }
            },
            None => {},
        }
        k = k + 1;
    }
}

/// Appends an identifier to an index map's list for a key.
fn append_index(m: &mut StringMap<Vec<String>>, key: &String, id: &String)
    requires
        old(m).wf(),
    ensures
        final(m).wf(),
        final(m)@.contains_key(key@),
        forall|x: Seq<char>|
            #[trigger] final(m)@.contains_key(x) ==> old(m)@.contains_key(x) || x == key@,
        forall|x: Seq<char>| old(m)@.contains_key(x) ==> final(m)@.contains_key(x),
{
    let mut l: Vec<String> = match m.get(key.as_str()) {
        Some(v) => dup_string_vec(v),
        None => Vec::new(),
    };
    l.push(id.clone());
    m.upsert(key.clone(), l);
}

/// Folds one trip-updates payload into the artifact maps.
fn add_trip_updates(art: &mut AspenisedData, feed: &FeedMessage)
    requires
        old(art).wf(),
    ensures
        final(art).wf(),
        final(art).vehicle_positions == old(art).vehicle_positions,
        final(art).vehicle_routes_cache == old(art).vehicle_routes_cache,
        final(art).aspenised_alerts == old(art).aspenised_alerts,
        final(art).alerts_by_route == old(art).alerts_by_route,
        final(art).alerts_by_stop == old(art).alerts_by_stop,
        final(art).alerts_by_trip == old(art).alerts_by_trip,
        final(art).last_updated_time_ms == old(art).last_updated_time_ms,
        forall|k: Seq<char>|
            old(art).trip_updates@.contains_key(k) ==> final(art).trip_updates@.contains_key(k),
        forall|k: Seq<char>|
            old(art).trip_updates_lookup_by_trip_id_to_trip_update_ids@.contains_key(k) ==> final(art).trip_updates_lookup_by_trip_id_to_trip_update_ids@.contains_key(k),
        // every trip-update entity is now served under its entity id
        forall|j: int|
            0 <= j < feed@.entities.len() && (#[trigger] feed@.entities[j]).trip_update is Some
                ==> final(art).trip_updates@.contains_key(feed@.entities[j].id),
        // the map grew only by faithful images of this payload's entities
        forall|k: Seq<char>|
            #[trigger] final(art).trip_updates@.contains_key(k) ==> {
                ||| (old(art).trip_updates@.contains_key(k) && final(art).trip_updates@[k] == old(art).trip_updates@[k])
                ||| (exists|j: int|
                    0 <= j < feed@.entities.len() && (#[trigger] feed@.entities[j]).trip_update
                        is Some && feed@.entities[j].id == k && final(art).trip_updates@[k]@
                        == feed@.entities[j].trip_update->Some_0)
            },
        // every announced trip identifier is indexed
        forall|j: int|
            0 <= j < feed@.entities.len() && (sp_tu_trip_id(#[trigger] feed@.entities[j]))
                is Some ==> final(art).trip_updates_lookup_by_trip_id_to_trip_update_ids@.contains_key(
                sp_tu_trip_id(feed@.entities[j])->Some_0,
            ),
        // the index grew only by announced trip identifiers
        forall|x: Seq<char>|
            #[trigger] final(art).trip_updates_lookup_by_trip_id_to_trip_update_ids@.contains_key(
                x,
            ) ==> old(art).trip_updates_lookup_by_trip_id_to_trip_update_ids@.contains_key(x) || (
            exists|j: int|
                0 <= j < feed@.entities.len() && sp_tu_trip_id(#[trigger] feed@.entities[j])
                    == Some(x)),
{
    let n = feed.entities.len();
    let mut k: usize = 0;
    while k < n
        invariant
            old(art).wf(),
            art.wf(),
            n == feed@.entities.len(),
            k <= n,
            art.vehicle_positions == old(art).vehicle_positions,
            art.vehicle_routes_cache == old(art).vehicle_routes_cache,
            art.aspenised_alerts == old(art).aspenised_alerts,
            art.alerts_by_route == old(art).alerts_by_route,
            art.alerts_by_stop == old(art).alerts_by_stop,
            art.alerts_by_trip == old(art).alerts_by_trip,
            art.last_updated_time_ms == old(art).last_updated_time_ms,
            forall|kk: Seq<char>|
                old(art).trip_updates@.contains_key(kk) ==> art.trip_updates@.contains_key(kk),
            forall|kk: Seq<char>|
                old(art).trip_updates_lookup_by_trip_id_to_trip_update_ids@.contains_key(kk)
                    ==> art.trip_updates_lookup_by_trip_id_to_trip_update_ids@.contains_key(kk),
            forall|j: int|
                0 <= j < k && (#[trigger] feed@.entities[j]).trip_update is Some
                    ==> art.trip_updates@.contains_key(feed@.entities[j].id),
            forall|kk: Seq<char>|
                #[trigger] art.trip_updates@.contains_key(kk) ==> {
                    ||| (old(art).trip_updates@.contains_key(kk) && art.trip_updates@[kk] == old(art).trip_updates@[kk])
                    ||| (exists|j: int|
                        0 <= j < k && (#[trigger] feed@.entities[j]).trip_update is Some
                            && feed@.entities[j].id == kk && art.trip_updates@[kk]@
                            == feed@.entities[j].trip_update->Some_0)
                },
            forall|j: int|
                0 <= j < k && (sp_tu_trip_id(#[trigger] feed@.entities[j])) is Some
                    ==> art.trip_updates_lookup_by_trip_id_to_trip_update_ids@.contains_key(
                    sp_tu_trip_id(feed@.entities[j])->Some_0,
                ),
            forall|x: Seq<char>|
                #[trigger] art.trip_updates_lookup_by_trip_id_to_trip_update_ids@.contains_key(x)
                    ==> old(art).trip_updates_lookup_by_trip_id_to_trip_update_ids@.contains_key(x)
                    || (exists|j: int|
                    0 <= j < k && sp_tu_trip_id(#[trigger] feed@.entities[j]) == Some(x)),
        decreases n - k,
    {
        let e = &feed.entities[k];
        proof {
            assert(feed@.entities[k as int] == e@);
        }
        match &e.trip_update {
            Some(u) => {
                let copied = dup_trip_update(u);
                self_upsert_trip_update(art, e.id.clone(), copied);
                match &u.trip {
                    Some(td) => match &td.trip_id {
                        Some(tid) => {
                            self_append_tu_index(art, tid, &e.id);
                        },
                        None => {},
                    },
                    None => {},
                }
            },
            None => {},
        }
        k = k + 1;
    }
}

/// Installs one trip update.
fn self_upsert_trip_update(art: &mut AspenisedData, key: String, u: AspenisedTripUpdate)
    requires
        old(art).wf(),
    ensures
        final(art).wf(),
        final(art).trip_updates@ == old(art).trip_updates@.insert(key@, u),
        final(art).vehicle_positions == old(art).vehicle_positions,
        final(art).vehicle_routes_cache == old(art).vehicle_routes_cache,
        final(art).trip_updates_lookup_by_trip_id_to_trip_update_ids == old(art).trip_updates_lookup_by_trip_id_to_trip_update_ids,
        final(art).aspenised_alerts == old(art).aspenised_alerts,
        final(art).alerts_by_route == old(art).alerts_by_route,
        final(art).alerts_by_stop == old(art).alerts_by_stop,
        final(art).alerts_by_trip == old(art).alerts_by_trip,
        final(art).last_updated_time_ms == old(art).last_updated_time_ms,
{
    art.trip_updates.upsert(key, u);
}

/// Indexes one trip update under its trip identifier.
fn self_append_tu_index(art: &mut AspenisedData, tid: &String, id: &String)
    requires
        old(art).wf(),
    ensures
        final(art).wf(),
        final(art).trip_updates_lookup_by_trip_id_to_trip_update_ids@.contains_key(tid@),
        forall|x: Seq<char>|
            #[trigger] final(art).trip_updates_lookup_by_trip_id_to_trip_update_ids@.contains_key(
                x,
            ) ==> old(art).trip_updates_lookup_by_trip_id_to_trip_update_ids@.contains_key(x) || x
                == tid@,
        forall|x: Seq<char>|
            old(art).trip_updates_lookup_by_trip_id_to_trip_update_ids@.contains_key(x) ==> final(art).trip_updates_lookup_by_trip_id_to_trip_update_ids@.contains_key(x),
        final(art).vehicle_positions == old(art).vehicle_positions,
        final(art).vehicle_routes_cache == old(art).vehicle_routes_cache,
        final(art).trip_updates == old(art).trip_updates,
        final(art).aspenised_alerts == old(art).aspenised_alerts,
        final(art).alerts_by_route == old(art).alerts_by_route,
        final(art).alerts_by_stop == old(art).alerts_by_stop,
        final(art).alerts_by_trip == old(art).alerts_by_trip,
        final(art).last_updated_time_ms == old(art).last_updated_time_ms,
{
    append_index(&mut art.trip_updates_lookup_by_trip_id_to_trip_update_ids, tid, id);
}

/// Folds one alerts payload into the artifact maps.
fn add_alerts(art: &mut AspenisedData, feed: &FeedMessage)
    requires
        old(art).wf(),
    ensures
        final(art).wf(),
        final(art).vehicle_positions == old(art).vehicle_positions,
        final(art).vehicle_routes_cache == old(art).vehicle_routes_cache,
        final(art).trip_updates == old(art).trip_updates,
        final(art).trip_updates_lookup_by_trip_id_to_trip_update_ids == old(art).trip_updates_lookup_by_trip_id_to_trip_update_ids,
        final(art).last_updated_time_ms == old(art).last_updated_time_ms,
        forall|k: Seq<char>|
            old(art).aspenised_alerts@.contains_key(k) ==> final(art).aspenised_alerts@.contains_key(k),
        // every alert entity is now served under its entity id
        forall|j: int|
            0 <= j < feed@.entities.len() && (#[trigger] feed@.entities[j]).alert is Some
                ==> final(art).aspenised_alerts@.contains_key(feed@.entities[j].id),
        // the map grew only by faithful images of this payload's alerts
        forall|k: Seq<char>|
            #[trigger] final(art).aspenised_alerts@.contains_key(k) ==> {
                ||| (old(art).aspenised_alerts@.contains_key(k) && final(art).aspenised_alerts@[k]
                    == old(art).aspenised_alerts@[k])
                ||| (exists|j: int|
                    0 <= j < feed@.entities.len() && (#[trigger] feed@.entities[j]).alert is Some
                        && feed@.entities[j].id == k && final(art).aspenised_alerts@[k]@
                        == feed@.entities[j].alert->Some_0)
            },
        forall|x: Seq<char>|
            old(art).alerts_by_route@.contains_key(x) ==> final(art).alerts_by_route@.contains_key(
                x,
            ),
        forall|x: Seq<char>|
            old(art).alerts_by_stop@.contains_key(x) ==> final(art).alerts_by_stop@.contains_key(
                x,
            ),
        forall|x: Seq<char>|
            old(art).alerts_by_trip@.contains_key(x) ==> final(art).alerts_by_trip@.contains_key(
                x,
            ),
        // the index maps grew only by informed routes, stops and trips
        forall|x: Seq<char>|
            #[trigger] final(art).alerts_by_route@.contains_key(x) ==> old(
                art,
            ).alerts_by_route@.contains_key(x) || (exists|j: int, si: int|
                0 <= j < feed@.entities.len() && #[trigger] sp_selector_route(
                    feed@.entities[j],
                    si,
                ) == Some(x)),
        forall|x: Seq<char>|
            #[trigger] final(art).alerts_by_stop@.contains_key(x) ==> old(
                art,
            ).alerts_by_stop@.contains_key(x) || (exists|j: int, si: int|
                0 <= j < feed@.entities.len() && #[trigger] sp_selector_stop(
                    feed@.entities[j],
                    si,
                ) == Some(x)),
        forall|x: Seq<char>|
            #[trigger] final(art).alerts_by_trip@.contains_key(x) ==> old(
                art,
            ).alerts_by_trip@.contains_key(x) || (exists|j: int, si: int|
                0 <= j < feed@.entities.len() && #[trigger] sp_selector_trip(
                    feed@.entities[j],
                    si,
                ) == Some(x)),
        // every informed route, stop and trip is indexed
        forall|j: int, si: int|
            0 <= j < feed@.entities.len() && (#[trigger] sp_selector_route(feed@.entities[j], si))
                is Some ==> final(art).alerts_by_route@.contains_key(
                sp_selector_route(feed@.entities[j], si)->Some_0,
            ),
        forall|j: int, si: int|
            0 <= j < feed@.entities.len() && (#[trigger] sp_selector_stop(feed@.entities[j], si))
                is Some ==> final(art).alerts_by_stop@.contains_key(
                sp_selector_stop(feed@.entities[j], si)->Some_0,
            ),
        forall|j: int, si: int|
            0 <= j < feed@.entities.len() && (#[trigger] sp_selector_trip(feed@.entities[j], si))
                is Some ==> final(art).alerts_by_trip@.contains_key(
                sp_selector_trip(feed@.entities[j], si)->Some_0,
            ),
{
    let n = feed.entities.len();
    let mut k: usize = 0;
    while k < n
        invariant
            old(art).wf(),
            art.wf(),
            n == feed@.entities.len(),
            k <= n,
            art.vehicle_positions == old(art).vehicle_positions,
            art.vehicle_routes_cache == old(art).vehicle_routes_cache,
            art.trip_updates == old(art).trip_updates,
            art.trip_updates_lookup_by_trip_id_to_trip_update_ids == old(art).trip_updates_lookup_by_trip_id_to_trip_update_ids,
            art.last_updated_time_ms == old(art).last_updated_time_ms,
            forall|kk: Seq<char>|
                old(art).aspenised_alerts@.contains_key(kk) ==> art.aspenised_alerts@.contains_key(
                    kk,
                ),
            forall|j: int|
                0 <= j < k && (#[trigger] feed@.entities[j]).alert is Some
                    ==> art.aspenised_alerts@.contains_key(feed@.entities[j].id),
            forall|kk: Seq<char>|
                #[trigger] art.aspenised_alerts@.contains_key(kk) ==> {
                    ||| (old(art).aspenised_alerts@.contains_key(kk) && art.aspenised_alerts@[kk]
                        == old(art).aspenised_alerts@[kk])
                    ||| (exists|j: int|
                        0 <= j < k && (#[trigger] feed@.entities[j]).alert is Some
                            && feed@.entities[j].id == kk && art.aspenised_alerts@[kk]@
                            == feed@.entities[j].alert->Some_0)
                },
            forall|x: Seq<char>|
                old(art).alerts_by_route@.contains_key(x) ==> art.alerts_by_route@.contains_key(
                    x,
                ),
            forall|x: Seq<char>|
                old(art).alerts_by_stop@.contains_key(x) ==> art.alerts_by_stop@.contains_key(x),
            forall|x: Seq<char>|
                old(art).alerts_by_trip@.contains_key(x) ==> art.alerts_by_trip@.contains_key(x),
            forall|x: Seq<char>|
                #[trigger] art.alerts_by_route@.contains_key(x) ==> old(
                    art,
                ).alerts_by_route@.contains_key(x) || (exists|j: int, si: int|
                    0 <= j < k && #[trigger] sp_selector_route(feed@.entities[j], si) == Some(x)),
            forall|x: Seq<char>|
                #[trigger] art.alerts_by_stop@.contains_key(x) ==> old(
                    art,
                ).alerts_by_stop@.contains_key(x) || (exists|j: int, si: int|
                    0 <= j < k && #[trigger] sp_selector_stop(feed@.entities[j], si) == Some(x)),
            forall|x: Seq<char>|
                #[trigger] art.alerts_by_trip@.contains_key(x) ==> old(
                    art,
                ).alerts_by_trip@.contains_key(x) || (exists|j: int, si: int|
                    0 <= j < k && #[trigger] sp_selector_trip(feed@.entities[j], si) == Some(x)),
            forall|j: int, si: int|
                0 <= j < k && (#[trigger] sp_selector_route(feed@.entities[j], si)) is Some
                    ==> art.alerts_by_route@.contains_key(
                    sp_selector_route(feed@.entities[j], si)->Some_0,
                ),
            forall|j: int, si: int|
                0 <= j < k && (#[trigger] sp_selector_stop(feed@.entities[j], si)) is Some
                    ==> art.alerts_by_stop@.contains_key(
                    sp_selector_stop(feed@.entities[j], si)->Some_0,
                ),
            forall|j: int, si: int|
                0 <= j < k && (#[trigger] sp_selector_trip(feed@.entities[j], si)) is Some
                    ==> art.alerts_by_trip@.contains_key(
                    sp_selector_trip(feed@.entities[j], si)->Some_0,
                ),
        decreases n - k,
    {
        let e = &feed.entities[k];
        proof {
            assert(feed@.entities[k as int] == e@);
        }
        match &e.alert {
            Some(a) => {
                let copied = crate::feed::dup_alert(a);
                self_upsert_alert(art, e.id.clone(), copied);
                let sn = a.informed_entity.len();
                let mut si: usize = 0;
                while si < sn
                    invariant
                        old(art).wf(),
                        art.wf(),
                        sn == a.informed_entity@.len(),
                        si <= sn,
                        feed@.entities[k as int].alert is Some,
                        a@ == feed@.entities[k as int].alert->Some_0,
                        0 <= k < feed@.entities.len(),
                        art.vehicle_positions == old(art).vehicle_positions,
                        art.vehicle_routes_cache == old(art).vehicle_routes_cache,
                        art.trip_updates == old(art).trip_updates,
                        art.trip_updates_lookup_by_trip_id_to_trip_update_ids == old(art).trip_updates_lookup_by_trip_id_to_trip_update_ids,
                        art.last_updated_time_ms == old(art).last_updated_time_ms,
                        forall|kk: Seq<char>|
                            old(art).aspenised_alerts@.contains_key(kk)
                                ==> art.aspenised_alerts@.contains_key(kk),
                        forall|j: int|
                            0 <= j <= k && (#[trigger] feed@.entities[j]).alert is Some
                                ==> art.aspenised_alerts@.contains_key(feed@.entities[j].id),
                        forall|kk: Seq<char>|
                            #[trigger] art.aspenised_alerts@.contains_key(kk) ==> {
                                ||| (old(art).aspenised_alerts@.contains_key(kk)
                                    && art.aspenised_alerts@[kk] == old(art).aspenised_alerts@[kk])
                                ||| (exists|j: int|
                                    0 <= j <= k && (#[trigger] feed@.entities[j]).alert is Some
                                        && feed@.entities[j].id == kk
                                        && art.aspenised_alerts@[kk]@
                                        == feed@.entities[j].alert->Some_0)
                            },
                        forall|x: Seq<char>|
                            old(art).alerts_by_route@.contains_key(x)
                                ==> art.alerts_by_route@.contains_key(x),
                        forall|x: Seq<char>|
                            old(art).alerts_by_stop@.contains_key(x)
                                ==> art.alerts_by_stop@.contains_key(x),
                        forall|x: Seq<char>|
                            old(art).alerts_by_trip@.contains_key(x)
                                ==> art.alerts_by_trip@.contains_key(x),
                        forall|x: Seq<char>|
                            #[trigger] art.alerts_by_route@.contains_key(x) ==> old(
                                art,
                            ).alerts_by_route@.contains_key(x) || (exists|j: int, ss: int|
                                0 <= j < k && #[trigger] sp_selector_route(feed@.entities[j], ss)
                                    == Some(x)) || (exists|ss: int|
                                0 <= ss < si && #[trigger] sp_selector_route(
                                    feed@.entities[k as int],
                                    ss,
                                ) == Some(x)),
                        forall|x: Seq<char>|
                            #[trigger] art.alerts_by_stop@.contains_key(x) ==> old(
                                art,
                            ).alerts_by_stop@.contains_key(x) || (exists|j: int, ss: int|
                                0 <= j < k && #[trigger] sp_selector_stop(feed@.entities[j], ss)
                                    == Some(x)) || (exists|ss: int|
                                0 <= ss < si && #[trigger] sp_selector_stop(
                                    feed@.entities[k as int],
                                    ss,
                                ) == Some(x)),
                        forall|x: Seq<char>|
                            #[trigger] art.alerts_by_trip@.contains_key(x) ==> old(
                                art,
                            ).alerts_by_trip@.contains_key(x) || (exists|j: int, ss: int|
                                0 <= j < k && #[trigger] sp_selector_trip(feed@.entities[j], ss)
                                    == Some(x)) || (exists|ss: int|
                                0 <= ss < si && #[trigger] sp_selector_trip(
                                    feed@.entities[k as int],
                                    ss,
                                ) == Some(x)),
                        forall|j: int, ss: int|
                            0 <= j < k && (#[trigger] sp_selector_route(feed@.entities[j], ss))
                                is Some ==> art.alerts_by_route@.contains_key(
                                sp_selector_route(feed@.entities[j], ss)->Some_0,
                            ),
                        forall|j: int, ss: int|
                            0 <= j < k && (#[trigger] sp_selector_stop(feed@.entities[j], ss))
                                is Some ==> art.alerts_by_stop@.contains_key(
                                sp_selector_stop(feed@.entities[j], ss)->Some_0,
                            ),
                        forall|j: int, ss: int|
                            0 <= j < k && (#[trigger] sp_selector_trip(feed@.entities[j], ss))
                                is Some ==> art.alerts_by_trip@.contains_key(
                                sp_selector_trip(feed@.entities[j], ss)->Some_0,
                            ),
                        forall|ss: int|
                            0 <= ss < si && (#[trigger] sp_selector_route(
                                feed@.entities[k as int],
                                ss,
                            )) is Some ==> art.alerts_by_route@.contains_key(
                                sp_selector_route(feed@.entities[k as int], ss)->Some_0,
                            ),
                        forall|ss: int|
                            0 <= ss < si && (#[trigger] sp_selector_stop(
                                feed@.entities[k as int],
                                ss,
                            )) is Some ==> art.alerts_by_stop@.contains_key(
                                sp_selector_stop(feed@.entities[k as int], ss)->Some_0,
                            ),
                        forall|ss: int|
                            0 <= ss < si && (#[trigger] sp_selector_trip(
                                feed@.entities[k as int],
                                ss,
                            )) is Some ==> art.alerts_by_trip@.contains_key(
                                sp_selector_trip(feed@.entities[k as int], ss)->Some_0,
                            ),
                    decreases sn - si,
                {
                    let s = &a.informed_entity[si];
                    proof {
                        assert(a@.informed_entity[si as int] == s@);
                    }
                    match &s.route_id {
                        Some(rid) => {
                            proof {
                                assert(sp_selector_route(feed@.entities[k as int], si as int)
                                    == Some(rid@));
                            }
                            self_append_route_index(art, rid, &e.id);
                        },
                        None => {},
                    }
                    match &s.stop_id {
                        Some(sid) => {
                            proof {
                                assert(sp_selector_stop(feed@.entities[k as int], si as int)
                                    == Some(sid@));
                            }
                            self_append_stop_index(art, sid, &e.id);
                        },
                        None => {},
                    }
                    match &s.trip_id {
                        Some(tid) => {
                            proof {
                                assert(sp_selector_trip(feed@.entities[k as int], si as int)
                                    == Some(tid@));
                            }
                            self_append_trip_index(art, tid, &e.id);
                        },
                        None => {},
                    }
                    si = si + 1;
                }
            },
            None => {},
        }
        k = k + 1;
    }
}

/// Installs one alert.
fn self_upsert_alert(art: &mut AspenisedData, key: String, a: AspenisedAlert)
    requires
        old(art).wf(),
    ensures
        final(art).wf(),
        final(art).aspenised_alerts@ == old(art).aspenised_alerts@.insert(key@, a),
        final(art).vehicle_positions == old(art).vehicle_positions,
        final(art).vehicle_routes_cache == old(art).vehicle_routes_cache,
        final(art).trip_updates == old(art).trip_updates,
        final(art).trip_updates_lookup_by_trip_id_to_trip_update_ids == old(art).trip_updates_lookup_by_trip_id_to_trip_update_ids,
        final(art).alerts_by_route == old(art).alerts_by_route,
        final(art).alerts_by_stop == old(art).alerts_by_stop,
        final(art).alerts_by_trip == old(art).alerts_by_trip,
        final(art).last_updated_time_ms == old(art).last_updated_time_ms,
{
    art.aspenised_alerts.upsert(key, a);
}

/// Indexes one alert under a route.
fn self_append_route_index(art: &mut AspenisedData, rid: &String, id: &String)
    requires
        old(art).wf(),
    ensures
        final(art).wf(),
        final(art).alerts_by_route@.contains_key(rid@),
        forall|x: Seq<char>|
            old(art).alerts_by_route@.contains_key(x) ==> final(art).alerts_by_route@.contains_key(
                x,
            ),
        forall|x: Seq<char>|
            #[trigger] final(art).alerts_by_route@.contains_key(x) ==> old(
                art,
            ).alerts_by_route@.contains_key(x) || x == rid@,
        final(art).vehicle_positions == old(art).vehicle_positions,
        final(art).vehicle_routes_cache == old(art).vehicle_routes_cache,
        final(art).trip_updates == old(art).trip_updates,
        final(art).trip_updates_lookup_by_trip_id_to_trip_update_ids == old(art).trip_updates_lookup_by_trip_id_to_trip_update_ids,
        final(art).aspenised_alerts == old(art).aspenised_alerts,
        final(art).alerts_by_stop == old(art).alerts_by_stop,
        final(art).alerts_by_trip == old(art).alerts_by_trip,
        final(art).last_updated_time_ms == old(art).last_updated_time_ms,
{
    append_index(&mut art.alerts_by_route, rid, id);
}

/// Indexes one alert under a stop.
fn self_append_stop_index(art: &mut AspenisedData, sid: &String, id: &String)
    requires
        old(art).wf(),
    ensures
        final(art).wf(),
        final(art).alerts_by_stop@.contains_key(sid@),
        forall|x: Seq<char>|
            old(art).alerts_by_stop@.contains_key(x) ==> final(art).alerts_by_stop@.contains_key(
                x,
            ),
        forall|x: Seq<char>|
            #[trigger] final(art).alerts_by_stop@.contains_key(x) ==> old(
                art,
            ).alerts_by_stop@.contains_key(x) || x == sid@,
        final(art).vehicle_positions == old(art).vehicle_positions,
        final(art).vehicle_routes_cache == old(art).vehicle_routes_cache,
        final(art).trip_updates == old(art).trip_updates,
        final(art).trip_updates_lookup_by_trip_id_to_trip_update_ids == old(art).trip_updates_lookup_by_trip_id_to_trip_update_ids,
        final(art).aspenised_alerts == old(art).aspenised_alerts,
        final(art).alerts_by_route == old(art).alerts_by_route,
        final(art).alerts_by_trip == old(art).alerts_by_trip,
        final(art).last_updated_time_ms == old(art).last_updated_time_ms,
{
    append_index(&mut art.alerts_by_stop, sid, id);
}

/// Indexes one alert under a trip.
fn self_append_trip_index(art: &mut AspenisedData, tid: &String, id: &String)
    requires
        old(art).wf(),
    ensures
        final(art).wf(),
        final(art).alerts_by_trip@.contains_key(tid@),
        forall|x: Seq<char>|
            old(art).alerts_by_trip@.contains_key(x) ==> final(art).alerts_by_trip@.contains_key(
                x,
            ),
        forall|x: Seq<char>|
            #[trigger] final(art).alerts_by_trip@.contains_key(x) ==> old(
                art,
            ).alerts_by_trip@.contains_key(x) || x == tid@,
        final(art).vehicle_positions == old(art).vehicle_positions,
        final(art).vehicle_routes_cache == old(art).vehicle_routes_cache,
        final(art).trip_updates == old(art).trip_updates,
        final(art).trip_updates_lookup_by_trip_id_to_trip_update_ids == old(art).trip_updates_lookup_by_trip_id_to_trip_update_ids,
        final(art).aspenised_alerts == old(art).aspenised_alerts,
        final(art).alerts_by_route == old(art).alerts_by_route,
        final(art).alerts_by_stop == old(art).alerts_by_stop,
        final(art).last_updated_time_ms == old(art).last_updated_time_ms,
{
    append_index(&mut art.alerts_by_trip, tid, id);
}

/// An artifact with no content yet.
pub fn empty_artifact(now_ms: u64) -> (r: AspenisedData)
    ensures
        r.wf(),
        r.last_updated_time_ms == now_ms,
        r.vehicle_positions@ == Map::<Seq<char>, AspenisedVehiclePosition>::empty(),
        r.vehicle_routes_cache@ == Map::<Seq<char>, AspenisedVehicleRouteCache>::empty(),
        r.trip_updates@ == Map::<Seq<char>, AspenisedTripUpdate>::empty(),
        r.trip_updates_lookup_by_trip_id_to_trip_update_ids@ == Map::<
            Seq<char>,
            Vec<String>,
        >::empty(),
        r.aspenised_alerts@ == Map::<Seq<char>, AspenisedAlert>::empty(),
        r.alerts_by_route@ == Map::<Seq<char>, Vec<String>>::empty(),
        r.alerts_by_stop@ == Map::<Seq<char>, Vec<String>>::empty(),
        r.alerts_by_trip@ == Map::<Seq<char>, Vec<String>>::empty(),
{
    AspenisedData {
        vehicle_positions: StringMap::new(),
        vehicle_routes_cache: StringMap::new(),
        trip_updates: StringMap::new(),
        trip_updates_lookup_by_trip_id_to_trip_update_ids: StringMap::new(),
        aspenised_alerts: StringMap::new(),
        alerts_by_route: StringMap::new(),
        alerts_by_stop: StringMap::new(),
        alerts_by_trip: StringMap::new(),
        last_updated_time_ms: now_ms,
    }
}

/// Builds the aspenised artifact of one chateau from its current realtime
/// payloads and the static route rows. An empty input still yields a
/// publishable artifact with empty maps.
pub fn build_artifact(feeds: &Vec<FeedTriple>, routes: &Vec<RouteRow>, now_ms: u64) -> (r:
    AspenisedData)
    ensures
        r.wf(),
        r.last_updated_time_ms == now_ms,
        // every vehicle entity of every feed is served
        forall|f: int, j: int|
            0 <= f < feeds@.len() && 0 <= j < sp_triple_vehicle_entities(feeds@[f]).len() && (
            #[trigger] sp_triple_vehicle_entities(feeds@[f])[j]).vehicle is Some
                ==> r.vehicle_positions@.contains_key(
                sp_vehicle_key(sp_triple_vehicle_entities(feeds@[f])[j]),
            ),
        // every trip-update entity of every feed is served
        forall|f: int, j: int|
            0 <= f < feeds@.len() && 0 <= j < sp_triple_trip_entities(feeds@[f]).len() && (
            #[trigger] sp_triple_trip_entities(feeds@[f])[j]).trip_update is Some
                ==> r.trip_updates@.contains_key(sp_triple_trip_entities(feeds@[f])[j].id),
        // every alert entity of every feed is served
        forall|f: int, j: int|
            0 <= f < feeds@.len() && 0 <= j < sp_triple_alert_entities(feeds@[f]).len() && (
            #[trigger] sp_triple_alert_entities(feeds@[f])[j]).alert is Some
                ==> r.aspenised_alerts@.contains_key(sp_triple_alert_entities(feeds@[f])[j].id),
        // every served vehicle is the faithful image of some vehicle
        // entity that keys to it
        forall|k: Seq<char>|
            #[trigger] r.vehicle_positions@.contains_key(k) ==> exists|f: int, j: int|
                #![trigger sp_triple_vehicle_entities(feeds@[f])[j]]
                0 <= f < feeds@.len() && 0 <= j < sp_triple_vehicle_entities(feeds@[f]).len()
                    && sp_triple_vehicle_entities(feeds@[f])[j].vehicle is Some
                    && sp_vehicle_key(sp_triple_vehicle_entities(feeds@[f])[j]) == k
                    && sp_matches_vehicle(
                    r.vehicle_positions@[k],
                    sp_triple_vehicle_entities(feeds@[f])[j].vehicle->Some_0,
                ),
        // every cached route is a referenced route's faithful static row
        forall|rk: Seq<char>|
            #[trigger] r.vehicle_routes_cache@.contains_key(rk) ==> exists|
                f: int,
                j: int,
                rj: int,
            |
                #![trigger sp_triple_vehicle_entities(feeds@[f])[j], routes@[rj]]
                0 <= f < feeds@.len() && 0 <= j < sp_triple_vehicle_entities(feeds@[f]).len()
                    && 0 <= rj < routes@.len() && sp_vehicle_route(
                    sp_triple_vehicle_entities(feeds@[f])[j],
                ) == Some(rk) && routes@[rj].route_id@ == rk && sp_matches_route_row(
                    r.vehicle_routes_cache@[rk],
                    routes@[rj],
                ),
        // every referenced route with a static row is cached
        forall|f: int, j: int|
            0 <= f < feeds@.len() && 0 <= j < sp_triple_vehicle_entities(feeds@[f]).len()
                && (sp_vehicle_route(#[trigger] sp_triple_vehicle_entities(feeds@[f])[j]))
                is Some && (exists|rj: int|
                0 <= rj < routes@.len() && routes@[rj].route_id@ == sp_vehicle_route(
                    sp_triple_vehicle_entities(feeds@[f])[j],
                )->Some_0) ==> r.vehicle_routes_cache@.contains_key(
                sp_vehicle_route(sp_triple_vehicle_entities(feeds@[f])[j])->Some_0,
            ),
        // every served trip update is some entity's, verbatim
        forall|k: Seq<char>|
            #[trigger] r.trip_updates@.contains_key(k) ==> exists|f: int, j: int|
                #![trigger sp_triple_trip_entities(feeds@[f])[j]]
                0 <= f < feeds@.len() && 0 <= j < sp_triple_trip_entities(feeds@[f]).len()
                    && sp_triple_trip_entities(feeds@[f])[j].trip_update is Some
                    && sp_triple_trip_entities(feeds@[f])[j].id == k && r.trip_updates@[k]@
                    == sp_triple_trip_entities(feeds@[f])[j].trip_update->Some_0,
        // every served alert is some entity's, up to its view
        forall|k: Seq<char>|
            #[trigger] r.aspenised_alerts@.contains_key(k) ==> exists|f: int, j: int|
                #![trigger sp_triple_alert_entities(feeds@[f])[j]]
                0 <= f < feeds@.len() && 0 <= j < sp_triple_alert_entities(feeds@[f]).len()
                    && sp_triple_alert_entities(feeds@[f])[j].alert is Some
                    && sp_triple_alert_entities(feeds@[f])[j].id == k && r.aspenised_alerts@[k]@
                    == sp_triple_alert_entities(feeds@[f])[j].alert->Some_0,
        // every announced trip identifier is indexed, and only those are
        forall|f: int, j: int|
            0 <= f < feeds@.len() && 0 <= j < sp_triple_trip_entities(feeds@[f]).len()
                && (sp_tu_trip_id(#[trigger] sp_triple_trip_entities(feeds@[f])[j])) is Some
                ==> r.trip_updates_lookup_by_trip_id_to_trip_update_ids@.contains_key(
                sp_tu_trip_id(sp_triple_trip_entities(feeds@[f])[j])->Some_0,
            ),
        forall|x: Seq<char>|
            #[trigger] r.trip_updates_lookup_by_trip_id_to_trip_update_ids@.contains_key(x)
                ==> exists|f: int, j: int|
                #![trigger sp_triple_trip_entities(feeds@[f])[j]]
                0 <= f < feeds@.len() && 0 <= j < sp_triple_trip_entities(feeds@[f]).len()
                    && sp_tu_trip_id(sp_triple_trip_entities(feeds@[f])[j]) == Some(x),
        // every informed route, stop and trip is indexed, and only those
        forall|f: int, j: int, si: int|
            0 <= f < feeds@.len() && 0 <= j < sp_triple_alert_entities(feeds@[f]).len() && (
            #[trigger] sp_selector_route(sp_triple_alert_entities(feeds@[f])[j], si)) is Some
                ==> r.alerts_by_route@.contains_key(
                sp_selector_route(sp_triple_alert_entities(feeds@[f])[j], si)->Some_0,
            ),
        forall|f: int, j: int, si: int|
            0 <= f < feeds@.len() && 0 <= j < sp_triple_alert_entities(feeds@[f]).len() && (
            #[trigger] sp_selector_stop(sp_triple_alert_entities(feeds@[f])[j], si)) is Some
                ==> r.alerts_by_stop@.contains_key(
                sp_selector_stop(sp_triple_alert_entities(feeds@[f])[j], si)->Some_0,
            ),
        forall|f: int, j: int, si: int|
            0 <= f < feeds@.len() && 0 <= j < sp_triple_alert_entities(feeds@[f]).len() && (
            #[trigger] sp_selector_trip(sp_triple_alert_entities(feeds@[f])[j], si)) is Some
                ==> r.alerts_by_trip@.contains_key(
                sp_selector_trip(sp_triple_alert_entities(feeds@[f])[j], si)->Some_0,
            ),
        forall|x: Seq<char>|
            #[trigger] r.alerts_by_route@.contains_key(x) ==> exists|f: int, j: int, si: int|
                #![trigger sp_selector_route(sp_triple_alert_entities(feeds@[f])[j], si)]
                0 <= f < feeds@.len() && 0 <= j < sp_triple_alert_entities(feeds@[f]).len()
                    && sp_selector_route(sp_triple_alert_entities(feeds@[f])[j], si) == Some(x),
        forall|x: Seq<char>|
            #[trigger] r.alerts_by_stop@.contains_key(x) ==> exists|f: int, j: int, si: int|
                #![trigger sp_selector_stop(sp_triple_alert_entities(feeds@[f])[j], si)]
                0 <= f < feeds@.len() && 0 <= j < sp_triple_alert_entities(feeds@[f]).len()
                    && sp_selector_stop(sp_triple_alert_entities(feeds@[f])[j], si) == Some(x),
        forall|x: Seq<char>|
            #[trigger] r.alerts_by_trip@.contains_key(x) ==> exists|f: int, j: int, si: int|
                #![trigger sp_selector_trip(sp_triple_alert_entities(feeds@[f])[j], si)]
                0 <= f < feeds@.len() && 0 <= j < sp_triple_alert_entities(feeds@[f]).len()
                    && sp_selector_trip(sp_triple_alert_entities(feeds@[f])[j], si) == Some(x),
{
    let mut art = empty_artifact(now_ms);
    let n = feeds.len();
    let mut f: usize = 0;
    while f < n
        invariant
            art.wf(),
            n == feeds@.len(),
            f <= n,
            art.last_updated_time_ms == now_ms,
            forall|ff: int, j: int|
                0 <= ff < f && 0 <= j < sp_triple_vehicle_entities(feeds@[ff]).len() && (
                #[trigger] sp_triple_vehicle_entities(feeds@[ff])[j]).vehicle is Some
                    ==> art.vehicle_positions@.contains_key(
                    sp_vehicle_key(sp_triple_vehicle_entities(feeds@[ff])[j]),
                ),
            forall|ff: int, j: int|
                0 <= ff < f && 0 <= j < sp_triple_trip_entities(feeds@[ff]).len() && (
                #[trigger] sp_triple_trip_entities(feeds@[ff])[j]).trip_update is Some
                    ==> art.trip_updates@.contains_key(sp_triple_trip_entities(feeds@[ff])[j].id),
            forall|ff: int, j: int|
                0 <= ff < f && 0 <= j < sp_triple_alert_entities(feeds@[ff]).len() && (
                #[trigger] sp_triple_alert_entities(feeds@[ff])[j]).alert is Some
                    ==> art.aspenised_alerts@.contains_key(
                    sp_triple_alert_entities(feeds@[ff])[j].id,
                ),
            forall|k: Seq<char>|
                #[trigger] art.vehicle_positions@.contains_key(k) ==> exists|ff: int, j: int|
                    #![trigger sp_triple_vehicle_entities(feeds@[ff])[j]]
                    0 <= ff < f && 0 <= j < sp_triple_vehicle_entities(feeds@[ff]).len()
                        && sp_triple_vehicle_entities(feeds@[ff])[j].vehicle is Some
                        && sp_vehicle_key(sp_triple_vehicle_entities(feeds@[ff])[j]) == k
                        && sp_matches_vehicle(
                        art.vehicle_positions@[k],
                        sp_triple_vehicle_entities(feeds@[ff])[j].vehicle->Some_0,
                    ),
            forall|rk: Seq<char>|
                #[trigger] art.vehicle_routes_cache@.contains_key(rk) ==> exists|
                    ff: int,
                    j: int,
                    rj: int,
                |
                    #![trigger sp_triple_vehicle_entities(feeds@[ff])[j], routes@[rj]]
                    0 <= ff < f && 0 <= j < sp_triple_vehicle_entities(feeds@[ff]).len()
                        && 0 <= rj < routes@.len() && sp_vehicle_route(
                        sp_triple_vehicle_entities(feeds@[ff])[j],
                    ) == Some(rk) && routes@[rj].route_id@ == rk && sp_matches_route_row(
                        art.vehicle_routes_cache@[rk],
                        routes@[rj],
                    ),
            forall|ff: int, j: int|
                0 <= ff < f && 0 <= j < sp_triple_vehicle_entities(feeds@[ff]).len()
                    && (sp_vehicle_route(#[trigger] sp_triple_vehicle_entities(feeds@[ff])[j]))
                    is Some && (exists|rj: int|
                    0 <= rj < routes@.len() && routes@[rj].route_id@ == sp_vehicle_route(
                        sp_triple_vehicle_entities(feeds@[ff])[j],
                    )->Some_0) ==> art.vehicle_routes_cache@.contains_key(
                    sp_vehicle_route(sp_triple_vehicle_entities(feeds@[ff])[j])->Some_0,
                ),
            forall|k: Seq<char>|
                #[trigger] art.trip_updates@.contains_key(k) ==> exists|ff: int, j: int|
                    #![trigger sp_triple_trip_entities(feeds@[ff])[j]]
                    0 <= ff < f && 0 <= j < sp_triple_trip_entities(feeds@[ff]).len()
                        && sp_triple_trip_entities(feeds@[ff])[j].trip_update is Some
                        && sp_triple_trip_entities(feeds@[ff])[j].id == k && art.trip_updates@[k]@
                        == sp_triple_trip_entities(feeds@[ff])[j].trip_update->Some_0,
            forall|k: Seq<char>|
                #[trigger] art.aspenised_alerts@.contains_key(k) ==> exists|ff: int, j: int|
                    #![trigger sp_triple_alert_entities(feeds@[ff])[j]]
                    0 <= ff < f && 0 <= j < sp_triple_alert_entities(feeds@[ff]).len()
                        && sp_triple_alert_entities(feeds@[ff])[j].alert is Some
                        && sp_triple_alert_entities(feeds@[ff])[j].id == k
                        && art.aspenised_alerts@[k]@ == (sp_triple_alert_entities(feeds@[ff])[j])
                        .alert->Some_0,
            forall|ff: int, j: int|
                0 <= ff < f && 0 <= j < sp_triple_trip_entities(feeds@[ff]).len()
                    && (sp_tu_trip_id(#[trigger] sp_triple_trip_entities(feeds@[ff])[j])) is Some
                    ==> art.trip_updates_lookup_by_trip_id_to_trip_update_ids@.contains_key(
                    sp_tu_trip_id(sp_triple_trip_entities(feeds@[ff])[j])->Some_0,
                ),
            forall|x: Seq<char>|
                #[trigger] art.trip_updates_lookup_by_trip_id_to_trip_update_ids@.contains_key(x)
                    ==> exists|ff: int, j: int|
                    #![trigger sp_triple_trip_entities(feeds@[ff])[j]]
                    0 <= ff < f && 0 <= j < sp_triple_trip_entities(feeds@[ff]).len()
                        && sp_tu_trip_id(sp_triple_trip_entities(feeds@[ff])[j]) == Some(x),
            forall|ff: int, j: int, si: int|
                0 <= ff < f && 0 <= j < sp_triple_alert_entities(feeds@[ff]).len() && (
                #[trigger] sp_selector_route(sp_triple_alert_entities(feeds@[ff])[j], si)) is Some
                    ==> art.alerts_by_route@.contains_key(
                    sp_selector_route(sp_triple_alert_entities(feeds@[ff])[j], si)->Some_0,
                ),
            forall|ff: int, j: int, si: int|
                0 <= ff < f && 0 <= j < sp_triple_alert_entities(feeds@[ff]).len() && (
                #[trigger] sp_selector_stop(sp_triple_alert_entities(feeds@[ff])[j], si)) is Some
                    ==> art.alerts_by_stop@.contains_key(
                    sp_selector_stop(sp_triple_alert_entities(feeds@[ff])[j], si)->Some_0,
                ),
            forall|ff: int, j: int, si: int|
                0 <= ff < f && 0 <= j < sp_triple_alert_entities(feeds@[ff]).len() && (
                #[trigger] sp_selector_trip(sp_triple_alert_entities(feeds@[ff])[j], si)) is Some
                    ==> art.alerts_by_trip@.contains_key(
                    sp_selector_trip(sp_triple_alert_entities(feeds@[ff])[j], si)->Some_0,
                ),
            forall|x: Seq<char>|
                #[trigger] art.alerts_by_route@.contains_key(x) ==> exists|
                    ff: int,
                    j: int,
                    si: int,
                |
                    #![trigger sp_selector_route(sp_triple_alert_entities(feeds@[ff])[j], si)]
                    0 <= ff < f && 0 <= j < sp_triple_alert_entities(feeds@[ff]).len()
                        && sp_selector_route(sp_triple_alert_entities(feeds@[ff])[j], si) == Some(
                        x,
                    ),
            forall|x: Seq<char>|
                #[trigger] art.alerts_by_stop@.contains_key(x) ==> exists|
                    ff: int,
                    j: int,
                    si: int,
                |
                    #![trigger sp_selector_stop(sp_triple_alert_entities(feeds@[ff])[j], si)]
                    0 <= ff < f && 0 <= j < sp_triple_alert_entities(feeds@[ff]).len()
                        && sp_selector_stop(sp_triple_alert_entities(feeds@[ff])[j], si) == Some(
                        x,
                    ),
            forall|x: Seq<char>|
                #[trigger] art.alerts_by_trip@.contains_key(x) ==> exists|
                    ff: int,
                    j: int,
                    si: int,
                |
                    #![trigger sp_selector_trip(sp_triple_alert_entities(feeds@[ff])[j], si)]
                    0 <= ff < f && 0 <= j < sp_triple_alert_entities(feeds@[ff]).len()
                        && sp_selector_trip(sp_triple_alert_entities(feeds@[ff])[j], si) == Some(
                        x,
                    ),
        decreases n - f,
    {
        let triple = &feeds[f];
        match &triple.vehicles {
            Some(m) => {
                let ghost prevart = art;
                add_vehicles(&mut art, m, routes);
                proof {
                    assert(sp_triple_vehicle_entities(feeds@[f as int]) == m@.entities);
                    lift_vehicle_soundness(prevart, art, feeds@, f as int, m@.entities, routes@);
                }
            },
            None => {},
        }
        match &triple.trips {
            Some(m) => {
                let ghost prevart = art;
                add_trip_updates(&mut art, m);
                proof {
                    assert(sp_triple_trip_entities(feeds@[f as int]) == m@.entities);
                    lift_trip_soundness(prevart, art, feeds@, f as int, m@.entities);
                }
            },
            None => {},
        }
        match &triple.alerts {
            Some(m) => {
                let ghost prevart = art;
                add_alerts(&mut art, m);
                proof {
                    assert(sp_triple_alert_entities(feeds@[f as int]) == m@.entities);
                    lift_alert_soundness(prevart, art, feeds@, f as int, m@.entities);
                }
            },
            None => {},
        }
        f = f + 1;
    }
    art
}

/// Installs one vehicle position.
fn self_upsert_vehicle(art: &mut AspenisedData, key: String, av: AspenisedVehiclePosition)
    requires
        old(art).wf(),
    ensures
        final(art).wf(),
        final(art).vehicle_positions@ == old(art).vehicle_positions@.insert(key@, av),
        final(art).vehicle_routes_cache == old(art).vehicle_routes_cache,
        final(art).trip_updates == old(art).trip_updates,
        final(art).trip_updates_lookup_by_trip_id_to_trip_update_ids == old(art).trip_updates_lookup_by_trip_id_to_trip_update_ids,
        final(art).aspenised_alerts == old(art).aspenised_alerts,
        final(art).alerts_by_route == old(art).alerts_by_route,
        final(art).alerts_by_stop == old(art).alerts_by_stop,
        final(art).alerts_by_trip == old(art).alerts_by_trip,
        final(art).last_updated_time_ms == old(art).last_updated_time_ms,
{
    art.vehicle_positions.upsert(key, av);
}

/// Installs one route-cache row.
fn self_upsert_route(art: &mut AspenisedData, key: String, c: AspenisedVehicleRouteCache)
    requires
        old(art).wf(),
    ensures
        final(art).wf(),
        final(art).vehicle_routes_cache@ == old(art).vehicle_routes_cache@.insert(key@, c),
        final(art).vehicle_positions == old(art).vehicle_positions,
        final(art).trip_updates == old(art).trip_updates,
        final(art).trip_updates_lookup_by_trip_id_to_trip_update_ids == old(art).trip_updates_lookup_by_trip_id_to_trip_update_ids,
        final(art).aspenised_alerts == old(art).aspenised_alerts,
        final(art).alerts_by_route == old(art).alerts_by_route,
        final(art).alerts_by_stop == old(art).alerts_by_stop,
        final(art).alerts_by_trip == old(art).alerts_by_trip,
        final(art).last_updated_time_ms == old(art).last_updated_time_ms,
{
    art.vehicle_routes_cache.upsert(key, c);
}


/// Lifts one vehicle pass's soundness facts to the whole-feeds shape the
/// build invariant carries.
proof fn lift_vehicle_soundness(
    pre: AspenisedData,
    post: AspenisedData,
    feeds: Seq<FeedTriple>,
    f: int,
    ents: Seq<FeedEntityV>,
    routes: Seq<RouteRow>,
)
    requires
        0 <= f < feeds.len(),
        sp_triple_vehicle_entities(feeds[f]) == ents,
        // what the pass guarantees
        forall|k: Seq<char>|
            #[trigger] post.vehicle_positions@.contains_key(k) ==> {
                ||| (pre.vehicle_positions@.contains_key(k) && post.vehicle_positions@[k]
                    == pre.vehicle_positions@[k])
                ||| (exists|j: int|
                    0 <= j < ents.len() && (#[trigger] ents[j]).vehicle is Some
                        && sp_vehicle_key(ents[j]) == k && sp_matches_vehicle(
                        post.vehicle_positions@[k],
                        ents[j].vehicle->Some_0,
                    ))
            },
        forall|rk: Seq<char>|
            #[trigger] post.vehicle_routes_cache@.contains_key(rk) ==> {
                ||| (pre.vehicle_routes_cache@.contains_key(rk) && post.vehicle_routes_cache@[rk]
                    == pre.vehicle_routes_cache@[rk])
                ||| (exists|j: int, rj: int|
                    #![trigger ents[j], routes[rj]]
                    0 <= j < ents.len() && 0 <= rj < routes.len() && sp_vehicle_route(ents[j])
                        == Some(rk) && routes[rj].route_id@ == rk && sp_matches_route_row(
                        post.vehicle_routes_cache@[rk],
                        routes[rj],
                    ))
            },
        // what held before the pass
        forall|k: Seq<char>|
            #[trigger] pre.vehicle_positions@.contains_key(k) ==> exists|ff: int, j: int|
                #![trigger sp_triple_vehicle_entities(feeds[ff])[j]]
                0 <= ff < f && 0 <= j < sp_triple_vehicle_entities(feeds[ff]).len()
                    && sp_triple_vehicle_entities(feeds[ff])[j].vehicle is Some
                    && sp_vehicle_key(sp_triple_vehicle_entities(feeds[ff])[j]) == k
                    && sp_matches_vehicle(
                    pre.vehicle_positions@[k],
                    sp_triple_vehicle_entities(feeds[ff])[j].vehicle->Some_0,
                ),
        forall|rk: Seq<char>|
            #[trigger] pre.vehicle_routes_cache@.contains_key(rk) ==> exists|
                ff: int,
                j: int,
                rj: int,
            |
                #![trigger sp_triple_vehicle_entities(feeds[ff])[j], routes[rj]]
                0 <= ff < f && 0 <= j < sp_triple_vehicle_entities(feeds[ff]).len() && 0 <= rj
                    < routes.len() && sp_vehicle_route(sp_triple_vehicle_entities(feeds[ff])[j])
                    == Some(rk) && routes[rj].route_id@ == rk && sp_matches_route_row(
                    pre.vehicle_routes_cache@[rk],
                    routes[rj],
                ),
    ensures
        forall|k: Seq<char>|
            #[trigger] post.vehicle_positions@.contains_key(k) ==> exists|ff: int, j: int|
                #![trigger sp_triple_vehicle_entities(feeds[ff])[j]]
                0 <= ff < f + 1 && 0 <= j < sp_triple_vehicle_entities(feeds[ff]).len()
                    && sp_triple_vehicle_entities(feeds[ff])[j].vehicle is Some
                    && sp_vehicle_key(sp_triple_vehicle_entities(feeds[ff])[j]) == k
                    && sp_matches_vehicle(
                    post.vehicle_positions@[k],
                    sp_triple_vehicle_entities(feeds[ff])[j].vehicle->Some_0,
                ),
        forall|rk: Seq<char>|
            #[trigger] post.vehicle_routes_cache@.contains_key(rk) ==> exists|
                ff: int,
                j: int,
                rj: int,
            |
                #![trigger sp_triple_vehicle_entities(feeds[ff])[j], routes[rj]]
                0 <= ff < f + 1 && 0 <= j < sp_triple_vehicle_entities(feeds[ff]).len() && 0 <= rj
                    < routes.len() && sp_vehicle_route(sp_triple_vehicle_entities(feeds[ff])[j])
                    == Some(rk) && routes[rj].route_id@ == rk && sp_matches_route_row(
                    post.vehicle_routes_cache@[rk],
                    routes[rj],
                ),
{
    assert forall|k: Seq<char>| #[trigger] post.vehicle_positions@.contains_key(k) implies exists|
        ff: int,
        j: int,
    |
        #![trigger sp_triple_vehicle_entities(feeds[ff])[j]]
        0 <= ff < f + 1 && 0 <= j < sp_triple_vehicle_entities(feeds[ff]).len()
            && sp_triple_vehicle_entities(feeds[ff])[j].vehicle is Some && sp_vehicle_key(
            sp_triple_vehicle_entities(feeds[ff])[j],
        ) == k && sp_matches_vehicle(
            post.vehicle_positions@[k],
            sp_triple_vehicle_entities(feeds[ff])[j].vehicle->Some_0,
        ) by {
        if exists|j: int|
            0 <= j < ents.len() && (#[trigger] ents[j]).vehicle is Some && sp_vehicle_key(
                ents[j],
            ) == k && sp_matches_vehicle(post.vehicle_positions@[k], ents[j].vehicle->Some_0) {
            let j = choose|j: int|
                0 <= j < ents.len() && (#[trigger] ents[j]).vehicle is Some && sp_vehicle_key(
                    ents[j],
                ) == k && sp_matches_vehicle(
                    post.vehicle_positions@[k],
                    ents[j].vehicle->Some_0,
                );
            assert(sp_triple_vehicle_entities(feeds[f])[j] == ents[j]);
        } else {
            assert(pre.vehicle_positions@.contains_key(k) && post.vehicle_positions@[k]
                == pre.vehicle_positions@[k]);
        }
    }
    assert forall|rk: Seq<char>| #[trigger] post.vehicle_routes_cache@.contains_key(
        rk,
    ) implies exists|ff: int, j: int, rj: int|
        #![trigger sp_triple_vehicle_entities(feeds[ff])[j], routes[rj]]
        0 <= ff < f + 1 && 0 <= j < sp_triple_vehicle_entities(feeds[ff]).len() && 0 <= rj
            < routes.len() && sp_vehicle_route(sp_triple_vehicle_entities(feeds[ff])[j]) == Some(
            rk,
        ) && routes[rj].route_id@ == rk && sp_matches_route_row(
            post.vehicle_routes_cache@[rk],
            routes[rj],
        ) by {
        if exists|j: int, rj: int|
            #![trigger ents[j], routes[rj]]
            0 <= j < ents.len() && 0 <= rj < routes.len() && sp_vehicle_route(ents[j]) == Some(
                rk,
            ) && routes[rj].route_id@ == rk && sp_matches_route_row(
                post.vehicle_routes_cache@[rk],
                routes[rj],
            ) {
            let (j, rj) = choose|j: int, rj: int|
                #![trigger ents[j], routes[rj]]
                0 <= j < ents.len() && 0 <= rj < routes.len() && sp_vehicle_route(ents[j])
                    == Some(rk) && routes[rj].route_id@ == rk && sp_matches_route_row(
                    post.vehicle_routes_cache@[rk],
                    routes[rj],
                );
            assert(sp_triple_vehicle_entities(feeds[f])[j] == ents[j]);
        } else {
            assert(pre.vehicle_routes_cache@.contains_key(rk) && post.vehicle_routes_cache@[rk]
                == pre.vehicle_routes_cache@[rk]);
        }
    }
}

/// Lifts one trip-update pass's soundness facts to the whole-feeds shape.
proof fn lift_trip_soundness(
    pre: AspenisedData,
    post: AspenisedData,
    feeds: Seq<FeedTriple>,
    f: int,
    ents: Seq<FeedEntityV>,
)
    requires
        0 <= f < feeds.len(),
        sp_triple_trip_entities(feeds[f]) == ents,
        forall|k: Seq<char>|
            #[trigger] post.trip_updates@.contains_key(k) ==> {
                ||| (pre.trip_updates@.contains_key(k) && post.trip_updates@[k]
                    == pre.trip_updates@[k])
                ||| (exists|j: int|
                    0 <= j < ents.len() && (#[trigger] ents[j]).trip_update is Some && ents[j].id
                        == k && post.trip_updates@[k]@ == ents[j].trip_update->Some_0)
            },
        forall|x: Seq<char>|
            #[trigger] post.trip_updates_lookup_by_trip_id_to_trip_update_ids@.contains_key(x)
                ==> pre.trip_updates_lookup_by_trip_id_to_trip_update_ids@.contains_key(x) || (
            exists|j: int| 0 <= j < ents.len() && sp_tu_trip_id(#[trigger] ents[j]) == Some(x)),
        forall|k: Seq<char>|
            #[trigger] pre.trip_updates@.contains_key(k) ==> exists|ff: int, j: int|
                #![trigger sp_triple_trip_entities(feeds[ff])[j]]
                0 <= ff < f && 0 <= j < sp_triple_trip_entities(feeds[ff]).len()
                    && sp_triple_trip_entities(feeds[ff])[j].trip_update is Some
                    && sp_triple_trip_entities(feeds[ff])[j].id == k && pre.trip_updates@[k]@
                    == sp_triple_trip_entities(feeds[ff])[j].trip_update->Some_0,
        forall|x: Seq<char>|
            #[trigger] pre.trip_updates_lookup_by_trip_id_to_trip_update_ids@.contains_key(x)
                ==> exists|ff: int, j: int|
                #![trigger sp_triple_trip_entities(feeds[ff])[j]]
                0 <= ff < f && 0 <= j < sp_triple_trip_entities(feeds[ff]).len() && sp_tu_trip_id(
                    sp_triple_trip_entities(feeds[ff])[j],
                ) == Some(x),
    ensures
        forall|k: Seq<char>|
            #[trigger] post.trip_updates@.contains_key(k) ==> exists|ff: int, j: int|
                #![trigger sp_triple_trip_entities(feeds[ff])[j]]
                0 <= ff < f + 1 && 0 <= j < sp_triple_trip_entities(feeds[ff]).len()
                    && sp_triple_trip_entities(feeds[ff])[j].trip_update is Some
                    && sp_triple_trip_entities(feeds[ff])[j].id == k && post.trip_updates@[k]@
                    == sp_triple_trip_entities(feeds[ff])[j].trip_update->Some_0,
        forall|x: Seq<char>|
            #[trigger] post.trip_updates_lookup_by_trip_id_to_trip_update_ids@.contains_key(x)
                ==> exists|ff: int, j: int|
                #![trigger sp_triple_trip_entities(feeds[ff])[j]]
                0 <= ff < f + 1 && 0 <= j < sp_triple_trip_entities(feeds[ff]).len()
                    && sp_tu_trip_id(sp_triple_trip_entities(feeds[ff])[j]) == Some(x),
{
    assert forall|k: Seq<char>| #[trigger] post.trip_updates@.contains_key(k) implies exists|
        ff: int,
        j: int,
    |
        #![trigger sp_triple_trip_entities(feeds[ff])[j]]
        0 <= ff < f + 1 && 0 <= j < sp_triple_trip_entities(feeds[ff]).len()
            && sp_triple_trip_entities(feeds[ff])[j].trip_update is Some
            && sp_triple_trip_entities(feeds[ff])[j].id == k && post.trip_updates@[k]@
            == sp_triple_trip_entities(feeds[ff])[j].trip_update->Some_0 by {
        if exists|j: int|
            0 <= j < ents.len() && (#[trigger] ents[j]).trip_update is Some && ents[j].id == k
                && post.trip_updates@[k]@ == ents[j].trip_update->Some_0 {
            let j = choose|j: int|
                0 <= j < ents.len() && (#[trigger] ents[j]).trip_update is Some && ents[j].id
                    == k && post.trip_updates@[k]@ == ents[j].trip_update->Some_0;
            assert(sp_triple_trip_entities(feeds[f])[j] == ents[j]);
        } else {
            assert(pre.trip_updates@.contains_key(k) && post.trip_updates@[k]
                == pre.trip_updates@[k]);
        }
    }
    assert forall|x: Seq<char>|
        #[trigger] post.trip_updates_lookup_by_trip_id_to_trip_update_ids@.contains_key(
            x,
        ) implies exists|ff: int, j: int|
        #![trigger sp_triple_trip_entities(feeds[ff])[j]]
        0 <= ff < f + 1 && 0 <= j < sp_triple_trip_entities(feeds[ff]).len() && sp_tu_trip_id(
            sp_triple_trip_entities(feeds[ff])[j],
        ) == Some(x) by {
        if exists|j: int| 0 <= j < ents.len() && sp_tu_trip_id(#[trigger] ents[j]) == Some(x) {
            let j = choose|j: int|
                0 <= j < ents.len() && sp_tu_trip_id(#[trigger] ents[j]) == Some(x);
            assert(sp_triple_trip_entities(feeds[f])[j] == ents[j]);
        } else {
            assert(pre.trip_updates_lookup_by_trip_id_to_trip_update_ids@.contains_key(x));
        }
    }
}

/// Lifts one alert pass's soundness facts to the whole-feeds shape.
proof fn lift_alert_soundness(
    pre: AspenisedData,
    post: AspenisedData,
    feeds: Seq<FeedTriple>,
    f: int,
    ents: Seq<FeedEntityV>,
)
    requires
        0 <= f < feeds.len(),
        sp_triple_alert_entities(feeds[f]) == ents,
        forall|k: Seq<char>|
            #[trigger] post.aspenised_alerts@.contains_key(k) ==> {
                ||| (pre.aspenised_alerts@.contains_key(k) && post.aspenised_alerts@[k]
                    == pre.aspenised_alerts@[k])
                ||| (exists|j: int|
                    0 <= j < ents.len() && (#[trigger] ents[j]).alert is Some && ents[j].id == k
                        && post.aspenised_alerts@[k]@ == ents[j].alert->Some_0)
            },
        forall|x: Seq<char>|
            #[trigger] post.alerts_by_route@.contains_key(x) ==> pre.alerts_by_route@.contains_key(
                x,
            ) || (exists|j: int, si: int|
                0 <= j < ents.len() && #[trigger] sp_selector_route(ents[j], si) == Some(x)),
        forall|x: Seq<char>|
            #[trigger] post.alerts_by_stop@.contains_key(x) ==> pre.alerts_by_stop@.contains_key(
                x,
            ) || (exists|j: int, si: int|
                0 <= j < ents.len() && #[trigger] sp_selector_stop(ents[j], si) == Some(x)),
        forall|x: Seq<char>|
            #[trigger] post.alerts_by_trip@.contains_key(x) ==> pre.alerts_by_trip@.contains_key(
                x,
            ) || (exists|j: int, si: int|
                0 <= j < ents.len() && #[trigger] sp_selector_trip(ents[j], si) == Some(x)),
        forall|k: Seq<char>|
            #[trigger] pre.aspenised_alerts@.contains_key(k) ==> exists|ff: int, j: int|
                #![trigger sp_triple_alert_entities(feeds[ff])[j]]
                0 <= ff < f && 0 <= j < sp_triple_alert_entities(feeds[ff]).len()
                    && sp_triple_alert_entities(feeds[ff])[j].alert is Some
                    && sp_triple_alert_entities(feeds[ff])[j].id == k && pre.aspenised_alerts@[k]@
                    == (sp_triple_alert_entities(feeds[ff])[j]).alert->Some_0,
        forall|x: Seq<char>|
            #[trigger] pre.alerts_by_route@.contains_key(x) ==> exists|ff: int, j: int, si: int|
                #![trigger sp_selector_route(sp_triple_alert_entities(feeds[ff])[j], si)]
                0 <= ff < f && 0 <= j < sp_triple_alert_entities(feeds[ff]).len()
                    && sp_selector_route(sp_triple_alert_entities(feeds[ff])[j], si) == Some(x),
        forall|x: Seq<char>|
            #[trigger] pre.alerts_by_stop@.contains_key(x) ==> exists|ff: int, j: int, si: int|
                #![trigger sp_selector_stop(sp_triple_alert_entities(feeds[ff])[j], si)]
                0 <= ff < f && 0 <= j < sp_triple_alert_entities(feeds[ff]).len()
                    && sp_selector_stop(sp_triple_alert_entities(feeds[ff])[j], si) == Some(x),
        forall|x: Seq<char>|
            #[trigger] pre.alerts_by_trip@.contains_key(x) ==> exists|ff: int, j: int, si: int|
                #![trigger sp_selector_trip(sp_triple_alert_entities(feeds[ff])[j], si)]
                0 <= ff < f && 0 <= j < sp_triple_alert_entities(feeds[ff]).len()
                    && sp_selector_trip(sp_triple_alert_entities(feeds[ff])[j], si) == Some(x),
    ensures
        forall|k: Seq<char>|
            #[trigger] post.aspenised_alerts@.contains_key(k) ==> exists|ff: int, j: int|
                #![trigger sp_triple_alert_entities(feeds[ff])[j]]
                0 <= ff < f + 1 && 0 <= j < sp_triple_alert_entities(feeds[ff]).len()
                    && sp_triple_alert_entities(feeds[ff])[j].alert is Some
                    && sp_triple_alert_entities(feeds[ff])[j].id == k
                    && post.aspenised_alerts@[k]@ == (sp_triple_alert_entities(feeds[ff])[j])
                    .alert->Some_0,
        forall|x: Seq<char>|
            #[trigger] post.alerts_by_route@.contains_key(x) ==> exists|ff: int, j: int, si: int|
                #![trigger sp_selector_route(sp_triple_alert_entities(feeds[ff])[j], si)]
                0 <= ff < f + 1 && 0 <= j < sp_triple_alert_entities(feeds[ff]).len()
                    && sp_selector_route(sp_triple_alert_entities(feeds[ff])[j], si) == Some(x),
        forall|x: Seq<char>|
            #[trigger] post.alerts_by_stop@.contains_key(x) ==> exists|ff: int, j: int, si: int|
                #![trigger sp_selector_stop(sp_triple_alert_entities(feeds[ff])[j], si)]
                0 <= ff < f + 1 && 0 <= j < sp_triple_alert_entities(feeds[ff]).len()
                    && sp_selector_stop(sp_triple_alert_entities(feeds[ff])[j], si) == Some(x),
        forall|x: Seq<char>|
            #[trigger] post.alerts_by_trip@.contains_key(x) ==> exists|ff: int, j: int, si: int|
                #![trigger sp_selector_trip(sp_triple_alert_entities(feeds[ff])[j], si)]
                0 <= ff < f + 1 && 0 <= j < sp_triple_alert_entities(feeds[ff]).len()
                    && sp_selector_trip(sp_triple_alert_entities(feeds[ff])[j], si) == Some(x),
{
    assert forall|k: Seq<char>| #[trigger] post.aspenised_alerts@.contains_key(k) implies exists|
        ff: int,
        j: int,
    |
        #![trigger sp_triple_alert_entities(feeds[ff])[j]]
        0 <= ff < f + 1 && 0 <= j < sp_triple_alert_entities(feeds[ff]).len()
            && sp_triple_alert_entities(feeds[ff])[j].alert is Some && sp_triple_alert_entities(
            feeds[ff],
        )[j].id == k && post.aspenised_alerts@[k]@ == (sp_triple_alert_entities(feeds[ff])[j])
            .alert->Some_0 by {
        if exists|j: int|
            0 <= j < ents.len() && (#[trigger] ents[j]).alert is Some && ents[j].id == k
                && post.aspenised_alerts@[k]@ == ents[j].alert->Some_0 {
            let j = choose|j: int|
                0 <= j < ents.len() && (#[trigger] ents[j]).alert is Some && ents[j].id == k
                    && post.aspenised_alerts@[k]@ == ents[j].alert->Some_0;
            assert(sp_triple_alert_entities(feeds[f])[j] == ents[j]);
        } else {
            assert(pre.aspenised_alerts@.contains_key(k) && post.aspenised_alerts@[k]
                == pre.aspenised_alerts@[k]);
        }
    }
    assert forall|x: Seq<char>| #[trigger] post.alerts_by_route@.contains_key(x) implies exists|
        ff: int,
        j: int,
        si: int,
    |
        #![trigger sp_selector_route(sp_triple_alert_entities(feeds[ff])[j], si)]
        0 <= ff < f + 1 && 0 <= j < sp_triple_alert_entities(feeds[ff]).len()
            && sp_selector_route(sp_triple_alert_entities(feeds[ff])[j], si) == Some(x) by {
        if exists|j: int, si: int|
            0 <= j < ents.len() && #[trigger] sp_selector_route(ents[j], si) == Some(x) {
            let (j, si) = choose|j: int, si: int|
                0 <= j < ents.len() && #[trigger] sp_selector_route(ents[j], si) == Some(x);
            assert(sp_triple_alert_entities(feeds[f])[j] == ents[j]);
            assert(sp_selector_route(sp_triple_alert_entities(feeds[f])[j], si) == Some(x));
        } else {
            assert(pre.alerts_by_route@.contains_key(x));
        }
    }
    assert forall|x: Seq<char>| #[trigger] post.alerts_by_stop@.contains_key(x) implies exists|
        ff: int,
        j: int,
        si: int,
    |
        #![trigger sp_selector_stop(sp_triple_alert_entities(feeds[ff])[j], si)]
        0 <= ff < f + 1 && 0 <= j < sp_triple_alert_entities(feeds[ff]).len() && sp_selector_stop(
            sp_triple_alert_entities(feeds[ff])[j],
            si,
        ) == Some(x) by {
        if exists|j: int, si: int|
            0 <= j < ents.len() && #[trigger] sp_selector_stop(ents[j], si) == Some(x) {
            let (j, si) = choose|j: int, si: int|
                0 <= j < ents.len() && #[trigger] sp_selector_stop(ents[j], si) == Some(x);
            assert(sp_triple_alert_entities(feeds[f])[j] == ents[j]);
            assert(sp_selector_stop(sp_triple_alert_entities(feeds[f])[j], si) == Some(x));
        } else {
            assert(pre.alerts_by_stop@.contains_key(x));
        }
    }
    assert forall|x: Seq<char>| #[trigger] post.alerts_by_trip@.contains_key(x) implies exists|
        ff: int,
        j: int,
        si: int,
    |
        #![trigger sp_selector_trip(sp_triple_alert_entities(feeds[ff])[j], si)]
        0 <= ff < f + 1 && 0 <= j < sp_triple_alert_entities(feeds[ff]).len() && sp_selector_trip(
            sp_triple_alert_entities(feeds[ff])[j],
            si,
        ) == Some(x) by {
        if exists|j: int, si: int|
            0 <= j < ents.len() && #[trigger] sp_selector_trip(ents[j], si) == Some(x) {
            let (j, si) = choose|j: int, si: int|
                0 <= j < ents.len() && #[trigger] sp_selector_trip(ents[j], si) == Some(x);
            assert(sp_triple_alert_entities(feeds[f])[j] == ents[j]);
            assert(sp_selector_trip(sp_triple_alert_entities(feeds[f])[j], si) == Some(x));
        } else {
            assert(pre.alerts_by_trip@.contains_key(x));
        }
    }
}

} // verus!
