//! Cleaning of decoded payloads before they are stored: identifier
//! whitespace is normalised, empty strings become absent, entities without
//! a primary key are dropped, route identifiers of known multi-operator
//! feeds are canonicalised, and the Amtrak feed loses the entities that
//! belong to the separately-published Capital Corridor service.

use vstd::prelude::*;

use crate::feed::{
    Alert, AlertV, EntitySelector, EntitySelectorV, FeedEntity, FeedEntityV, FeedHeader,
    FeedMessage, FeedMessageV, TripDescriptor, TripDescriptorV, TripUpdate, TripUpdateV,
    VehicleDescriptor, VehicleDescriptorV, VehiclePosition, VehiclePositionV, dup_opt_string,
    dup_opt_u64, dup_feed_entity,
};
use crate::spec_route_id_transform;
use crate::strutil::{clean_opt_string, sp_clean_str, sp_trim, str_eq, trim_ws};
use crate::strutil::route_id_transform;

verus! {

/// Cleanup of a trip descriptor: its string fields are trimmed.
pub open spec fn sp_clean_trip_desc(t: TripDescriptorV) -> TripDescriptorV {
    TripDescriptorV {
        trip_id: sp_clean_str(t.trip_id),
        route_id: sp_clean_str(t.route_id),
        start_time: sp_clean_str(t.start_time),
        start_date: sp_clean_str(t.start_date),
        ..t
    }
}

/// Cleanup of a vehicle descriptor.
pub open spec fn sp_clean_vehicle_desc(v: VehicleDescriptorV) -> VehicleDescriptorV {
    VehicleDescriptorV {
        id: sp_clean_str(v.id),
        label: sp_clean_str(v.label),
        license_plate: sp_clean_str(v.license_plate),
        ..v
    }
}

/// Cleanup of a vehicle report.
pub open spec fn sp_clean_vehicle(v: VehiclePositionV) -> VehiclePositionV {
    VehiclePositionV {
        trip: match v.trip {
            Some(t) => Some(sp_clean_trip_desc(t)),
            None => None,
        },
        vehicle: match v.vehicle {
            Some(d) => Some(sp_clean_vehicle_desc(d)),
            None => None,
        },
        ..v
    }
}

/// Cleanup of a trip progress report.
pub open spec fn sp_clean_trip_update(t: TripUpdateV) -> TripUpdateV {
    TripUpdateV {
        trip: match t.trip {
            Some(d) => Some(sp_clean_trip_desc(d)),
            None => None,
        },
        vehicle: match t.vehicle {
            Some(d) => Some(sp_clean_vehicle_desc(d)),
            None => None,
        },
        ..t
    }
}

/// Cleanup of an entity selector.
pub open spec fn sp_clean_selector(e: EntitySelectorV) -> EntitySelectorV {
    EntitySelectorV {
        agency_id: sp_clean_str(e.agency_id),
        route_id: sp_clean_str(e.route_id),
        trip_id: sp_clean_str(e.trip_id),
        stop_id: sp_clean_str(e.stop_id),
    }
}

/// Cleanup of an alert.
pub open spec fn sp_clean_alert(a: AlertV) -> AlertV {
    AlertV {
        informed_entity: a.informed_entity.map_values(|s: EntitySelectorV| sp_clean_selector(s)),
        header_text: sp_clean_str(a.header_text),
        description_text: sp_clean_str(a.description_text),
        ..a
    }
}

/// Cleanup of one entity: the key is trimmed, the content cleaned.
pub open spec fn sp_clean_entity(e: FeedEntityV) -> FeedEntityV {
    FeedEntityV {
        id: sp_trim(e.id),
        trip_update: match e.trip_update {
            Some(t) => Some(sp_clean_trip_update(t)),
            None => None,
        },
        vehicle: match e.vehicle {
            Some(v) => Some(sp_clean_vehicle(v)),
            None => None,
        },
        alert: match e.alert {
            Some(a) => Some(sp_clean_alert(a)),
            None => None,
        },
        ..e
    }
}

/// An entity survives cleanup exactly when its trimmed key is non-empty.
pub open spec fn sp_entity_kept(e: FeedEntityV) -> bool {
    sp_trim(e.id).len() > 0
}

/// Cleanup of an entity sequence: keyless entities are dropped, the rest
/// are cleaned in order.
pub open spec fn sp_cleanup_entities(es: Seq<FeedEntityV>) -> Seq<FeedEntityV>
    decreases es.len(),
{
    if es.len() == 0 {
        Seq::empty()
    } else {
        let rest = sp_cleanup_entities(es.drop_last());
        if sp_entity_kept(es.last()) {
            rest.push(sp_clean_entity(es.last()))
        } else {
            rest
        }
    }
}

/// Cleanup of a whole payload; the header is untouched.
pub open spec fn sp_cleanup(m: FeedMessageV) -> FeedMessageV {
    FeedMessageV { header: m.header, entities: sp_cleanup_entities(m.entities) }
}

fn clean_trip_descriptor(t: &TripDescriptor) -> (r: TripDescriptor)
    ensures
        r@ == sp_clean_trip_desc(t@),
{
    TripDescriptor {
        trip_id: clean_opt_string(dup_opt_string(&t.trip_id)),
        route_id: clean_opt_string(dup_opt_string(&t.route_id)),
        direction_id: dup_opt_u64(&t.direction_id),
        start_time: clean_opt_string(dup_opt_string(&t.start_time)),
        start_date: clean_opt_string(dup_opt_string(&t.start_date)),
        schedule_relationship: dup_opt_u64(&t.schedule_relationship),
    }
}

fn clean_vehicle_descriptor(v: &VehicleDescriptor) -> (r: VehicleDescriptor)
    ensures
        r@ == sp_clean_vehicle_desc(v@),
{
    VehicleDescriptor {
        id: clean_opt_string(dup_opt_string(&v.id)),
        label: clean_opt_string(dup_opt_string(&v.label)),
        license_plate: clean_opt_string(dup_opt_string(&v.license_plate)),
        wheelchair_accessible: dup_opt_u64(&v.wheelchair_accessible),
    }
}

fn clean_vehicle_position(v: &VehiclePosition) -> (r: VehiclePosition)
    ensures
        r@ == sp_clean_vehicle(v@),
{
    VehiclePosition {
        trip: match &v.trip {
            Some(t) => Some(clean_trip_descriptor(t)),
            None => None,
        },
        position: match &v.position {
            Some(p) => Some(*p),
            None => None,
        },
        timestamp: dup_opt_u64(&v.timestamp),
        vehicle: match &v.vehicle {
            Some(d) => Some(clean_vehicle_descriptor(d)),
            None => None,
        },
    }
}

fn clean_trip_update(t: &TripUpdate) -> (r: TripUpdate)
    ensures
        r@ == sp_clean_trip_update(t@),
{
    TripUpdate {
        trip: match &t.trip {
            Some(d) => Some(clean_trip_descriptor(d)),
            None => None,
        },
        vehicle: match &t.vehicle {
            Some(d) => Some(clean_vehicle_descriptor(d)),
            None => None,
        },
        timestamp: dup_opt_u64(&t.timestamp),
        delay: dup_opt_u64(&t.delay),
    }
}

fn clean_entity_selector(e: &EntitySelector) -> (r: EntitySelector)
    ensures
        r@ == sp_clean_selector(e@),
{
    EntitySelector {
        agency_id: clean_opt_string(dup_opt_string(&e.agency_id)),
        route_id: clean_opt_string(dup_opt_string(&e.route_id)),
        trip_id: clean_opt_string(dup_opt_string(&e.trip_id)),
        stop_id: clean_opt_string(dup_opt_string(&e.stop_id)),
    }
}

fn clean_alert(a: &Alert) -> (r: Alert)
    ensures
        r@ == sp_clean_alert(a@),
{
    let mut informed: Vec<EntitySelector> = Vec::new();
    let n = a.informed_entity.len();
    let mut k: usize = 0;
    while k < n
        invariant
            n == a.informed_entity@.len(),
            informed@.len() == k as int,
            k <= n,
            forall|i: int|
                0 <= i < k ==> informed@[i]@ == sp_clean_selector(a.informed_entity@[i]@),
        decreases n - k,
    {
        informed.push(clean_entity_selector(&a.informed_entity[k]));
        k = k + 1;
    }
    let r = Alert {
        informed_entity: informed,
        cause: dup_opt_u64(&a.cause),
        effect: dup_opt_u64(&a.effect),
        header_text: clean_opt_string(dup_opt_string(&a.header_text)),
        description_text: clean_opt_string(dup_opt_string(&a.description_text)),
    };
    assert(r@.informed_entity =~= sp_clean_alert(a@).informed_entity);
    r
}

fn clean_feed_entity(e: &FeedEntity) -> (r: FeedEntity)
    ensures
        r@ == sp_clean_entity(e@),
{
    FeedEntity {
        id: trim_ws(e.id.as_str()),
        is_deleted: e.is_deleted,
        trip_update: match &e.trip_update {
            Some(t) => Some(clean_trip_update(t)),
            None => None,
        },
        vehicle: match &e.vehicle {
            Some(v) => Some(clean_vehicle_position(v)),
            None => None,
        },
        alert: match &e.alert {
            Some(a) => Some(clean_alert(a)),
            None => None,
        },
    }
}

/// Cleans a decoded payload: trims identifiers, drops empty strings and
/// entities without a key.
pub fn gtfs_rt_cleanup(m: &FeedMessage) -> (r: FeedMessage)
    ensures
        r@ == sp_cleanup(m@),
{
    let mut entities: Vec<FeedEntity> = Vec::new();
    let n = m.entities.len();
    let mut k: usize = 0;
    while k < n
        invariant
            n == m.entities@.len(),
            k <= n,
            entities@.map_values(|x: FeedEntity| x@) == sp_cleanup_entities(
                m.entities@.map_values(|x: FeedEntity| x@).subrange(0, k as int),
            ),
        decreases n - k,
    {
        let ghost views = m.entities@.map_values(|x: FeedEntity| x@);
        let cleaned = clean_feed_entity(&m.entities[k]);
        proof {
            assert(views.subrange(0, k + 1 as int).drop_last() =~= views.subrange(0, k as int));
            assert(views.subrange(0, k + 1 as int).last() == views[k as int]);
        }
        if cleaned.id.as_str().unicode_len() > 0 {
            entities.push(cleaned);
            assert(entities@.map_values(|x: FeedEntity| x@) =~= sp_cleanup_entities(
                views.subrange(0, k + 1 as int),
            ));
        } else {
            assert(entities@.map_values(|x: FeedEntity| x@) =~= sp_cleanup_entities(
                views.subrange(0, k + 1 as int),
            ));
        }
        k = k + 1;
    }
    proof {
        let views = m.entities@.map_values(|x: FeedEntity| x@);
        assert(views.subrange(0, views.len() as int) =~= views);
    }
    FeedMessage {
        header: FeedHeader {
            gtfs_realtime_version: dup_opt_string(&m.header.gtfs_realtime_version),
            incrementality: dup_opt_u64(&m.header.incrementality),
            timestamp: dup_opt_u64(&m.header.timestamp),
        },
        entities,
    }
}

/// Route canonicalisation of a trip descriptor.
pub open spec fn sp_correct_trip_desc(feed_id: Seq<char>, t: TripDescriptorV) -> TripDescriptorV {
    TripDescriptorV {
        route_id: match t.route_id {
            Some(r) => Some(spec_route_id_transform(feed_id, r)),
            None => None,
        },
        ..t
    }
}

/// Route canonicalisation of one entity: the trip descriptors of its
/// vehicle and trip-update parts are rewritten.
pub open spec fn sp_correct_entity(feed_id: Seq<char>, e: FeedEntityV) -> FeedEntityV {
    FeedEntityV {
        vehicle: match e.vehicle {
            Some(v) => Some(
                VehiclePositionV {
                    trip: match v.trip {
                        Some(t) => Some(sp_correct_trip_desc(feed_id, t)),
                        None => None,
                    },
                    ..v
                },
            ),
            None => None,
        },
        trip_update: match e.trip_update {
            Some(u) => Some(
                TripUpdateV {
                    trip: match u.trip {
                        Some(t) => Some(sp_correct_trip_desc(feed_id, t)),
                        None => None,
                    },
                    ..u
                },
            ),
            None => None,
        },
        ..e
    }
}

/// Route canonicalisation of a whole payload.
pub open spec fn sp_correct_route_ids(m: FeedMessageV, feed_id: Seq<char>) -> FeedMessageV {
    FeedMessageV {
        header: m.header,
        entities: m.entities.map_values(|e: FeedEntityV| sp_correct_entity(feed_id, e)),
    }
}

fn correct_trip_descriptor(feed_id: &str, t: &TripDescriptor) -> (r: TripDescriptor)
    ensures
        r@ == sp_correct_trip_desc(feed_id@, t@),
{
    TripDescriptor {
        trip_id: dup_opt_string(&t.trip_id),
        route_id: match &t.route_id {
            Some(r) => Some(route_id_transform(feed_id, r.clone())),
            None => None,
        },
        direction_id: dup_opt_u64(&t.direction_id),
        start_time: dup_opt_string(&t.start_time),
        start_date: dup_opt_string(&t.start_date),
        schedule_relationship: dup_opt_u64(&t.schedule_relationship),
    }
}

fn correct_feed_entity(feed_id: &str, e: &FeedEntity) -> (r: FeedEntity)
    ensures
        r@ == sp_correct_entity(feed_id@, e@),
{
    let base = dup_feed_entity(e);
    FeedEntity {
        vehicle: match &e.vehicle {
            Some(v) => Some(
                VehiclePosition {
                    trip: match &v.trip {
                        Some(t) => Some(correct_trip_descriptor(feed_id, t)),
                        None => None,
                    },
                    position: match &v.position {
                        Some(p) => Some(*p),
                        None => None,
                    },
                    timestamp: dup_opt_u64(&v.timestamp),
                    vehicle: match &v.vehicle {
                        Some(d) => Some(crate::feed::dup_vehicle_descriptor(d)),
                        None => None,
                    },
                },
            ),
            None => None,
        },
        trip_update: match &e.trip_update {
            Some(u) => Some(
                TripUpdate {
                    trip: match &u.trip {
                        Some(t) => Some(correct_trip_descriptor(feed_id, t)),
                        None => None,
                    },
                    vehicle: match &u.vehicle {
                        Some(d) => Some(crate::feed::dup_vehicle_descriptor(d)),
                        None => None,
                    },
                    timestamp: dup_opt_u64(&u.timestamp),
                    delay: dup_opt_u64(&u.delay),
                },
            ),
            None => None,
        },
        ..base
    }
}

/// Canonicalises route identifiers across a payload for the given feed.
pub fn gtfs_rt_correct_route_id_string(m: &FeedMessage, feed_id: &str) -> (r: FeedMessage)
    ensures
        r@ == sp_correct_route_ids(m@, feed_id@),
{
    let mut entities: Vec<FeedEntity> = Vec::new();
    let n = m.entities.len();
    let mut k: usize = 0;
    while k < n
        invariant
            n == m.entities@.len(),
            entities@.len() == k as int,
            k <= n,
            forall|i: int|
                0 <= i < k ==> entities@[i]@ == sp_correct_entity(feed_id@, m.entities@[i]@),
        decreases n - k,
    {
        entities.push(correct_feed_entity(feed_id, &m.entities[k]));
        k = k + 1;
    }
    assert(entities@.map_values(|x: FeedEntity| x@) =~= sp_correct_route_ids(
        m@,
        feed_id@,
    ).entities);
    FeedMessage {
        header: FeedHeader {
            gtfs_realtime_version: dup_opt_string(&m.header.gtfs_realtime_version),
            incrementality: dup_opt_u64(&m.header.incrementality),
            timestamp: dup_opt_u64(&m.header.timestamp),
        },
        entities,
    }
}

/// Whether an entity belongs to the Capital Corridor service, which is
/// published in a feed of its own and must not appear twice.
pub open spec fn sp_is_capital_corridor(e: FeedEntityV) -> bool {
    (match e.vehicle {
        Some(v) => match v.trip {
            Some(t) => t.route_id == Some("84"@),
            None => false,
        },
        None => false,
    }) || (match e.trip_update {
        Some(u) => match u.trip {
            Some(t) => t.route_id == Some("84"@),
            None => false,
        },
        None => false,
    })
}

/// The entities that survive the Capital Corridor filter, in order.
pub open spec fn sp_filter_cc_entities(es: Seq<FeedEntityV>) -> Seq<FeedEntityV>
    decreases es.len(),
{
    if es.len() == 0 {
        Seq::empty()
    } else {
        let rest = sp_filter_cc_entities(es.drop_last());
        if sp_is_capital_corridor(es.last()) {
            rest
        } else {
            rest.push(es.last())
        }
    }
}

/// The Capital Corridor filter over a whole payload.
pub open spec fn sp_filter_capital_corridor(m: FeedMessageV) -> FeedMessageV {
    FeedMessageV { header: m.header, entities: sp_filter_cc_entities(m.entities) }
}

fn is_capital_corridor(e: &FeedEntity) -> (r: bool)
    ensures
        r == sp_is_capital_corridor(e@),
{
    let in_vehicle = match &e.vehicle {
        Some(v) => match &v.trip {
            Some(t) => match &t.route_id {
                Some(rid) => str_eq(rid.as_str(), "84"),
                None => false,
            },
            None => false,
        },
        None => false,
    };
    let in_trip = match &e.trip_update {
        Some(u) => match &u.trip {
            Some(t) => match &t.route_id {
                Some(rid) => str_eq(rid.as_str(), "84"),
                None => false,
            },
            None => false,
        },
        None => false,
    };
    in_vehicle || in_trip
}

/// Removes the Capital Corridor entities from an Amtrak payload: an
/// entity is dropped exactly when its vehicle trip or its trip update
/// names route "84", the Capital Corridor's identifier in Amtrak's
/// schedule.
pub fn filter_capital_corridor(m: &FeedMessage) -> (r: FeedMessage)
    ensures
        r@ == sp_filter_capital_corridor(m@),
{
    let mut entities: Vec<FeedEntity> = Vec::new();
    let n = m.entities.len();
    let mut k: usize = 0;
    while k < n
        invariant
            n == m.entities@.len(),
            k <= n,
            entities@.map_values(|x: FeedEntity| x@) == sp_filter_cc_entities(
                m.entities@.map_values(|x: FeedEntity| x@).subrange(0, k as int),
            ),
        decreases n - k,
    {
        let ghost views = m.entities@.map_values(|x: FeedEntity| x@);
        proof {
            assert(views.subrange(0, k + 1 as int).drop_last() =~= views.subrange(0, k as int));
            assert(views.subrange(0, k + 1 as int).last() == views[k as int]);
        }
        if !is_capital_corridor(&m.entities[k]) {
            let kept = dup_feed_entity(&m.entities[k]);
            entities.push(kept);
            assert(entities@.map_values(|x: FeedEntity| x@) =~= sp_filter_cc_entities(
                views.subrange(0, k + 1 as int),
            ));
        } else {
            assert(entities@.map_values(|x: FeedEntity| x@) =~= sp_filter_cc_entities(
                views.subrange(0, k + 1 as int),
            ));
        }
        k = k + 1;
    }
    proof {
        let views = m.entities@.map_values(|x: FeedEntity| x@);
        assert(views.subrange(0, views.len() as int) =~= views);
    }
    FeedMessage {
        header: FeedHeader {
            gtfs_realtime_version: dup_opt_string(&m.header.gtfs_realtime_version),
            incrementality: dup_opt_u64(&m.header.incrementality),
            timestamp: dup_opt_u64(&m.header.timestamp),
        },
        entities,
    }
}

} // verus!
