//! The decoded GTFS-Realtime model.
//!
//! A payload, once decoded from its protobuf wire form, is held in the plain
//! types below. Floating-point coordinates are carried as their IEEE-754 bit
//! patterns: the pipeline never interprets them, it only stores and serves
//! them. Enumerations are carried as their raw wire values.

use vstd::prelude::*;

verus! {

/// The three kinds of GTFS-Realtime payload.
#[derive(Copy, Clone, Debug, PartialEq, Eq, Hash, Structural)]
pub enum GtfsRtType {
    VehiclePositions,
    TripUpdates,
    Alerts,
}

/// A latitude/longitude fix, as raw IEEE-754 bit patterns.
#[derive(Copy, Clone, Debug, PartialEq, Eq, Hash)]
pub struct Position {
    pub latitude_bits: u32,
    pub longitude_bits: u32,
    pub bearing_bits: Option<u32>,
    pub odometer_bits: Option<u64>,
    pub speed_bits: Option<u32>,
}

/// Identifies a trip of the static schedule.
#[derive(Clone, Debug, PartialEq, Eq, Hash)]
pub struct TripDescriptor {
    pub trip_id: Option<String>,
    pub route_id: Option<String>,
    pub direction_id: Option<u64>,
    pub start_time: Option<String>,
    pub start_date: Option<String>,
    pub schedule_relationship: Option<u64>,
}

/// Identifies a physical vehicle.
#[derive(Clone, Debug, PartialEq, Eq, Hash)]
pub struct VehicleDescriptor {
    pub id: Option<String>,
    pub label: Option<String>,
    pub license_plate: Option<String>,
    pub wheelchair_accessible: Option<u64>,
}

/// A realtime vehicle report.
#[derive(Clone, Debug, PartialEq, Eq, Hash)]
pub struct VehiclePosition {
    pub trip: Option<TripDescriptor>,
    pub position: Option<Position>,
    pub timestamp: Option<u64>,
    pub vehicle: Option<VehicleDescriptor>,
}

/// A realtime trip progress report.
#[derive(Clone, Debug, PartialEq, Eq, Hash)]
pub struct TripUpdate {
    pub trip: Option<TripDescriptor>,
    pub vehicle: Option<VehicleDescriptor>,
    pub timestamp: Option<u64>,
    pub delay: Option<u64>,
}

/// What a service alert applies to.
#[derive(Clone, Debug, PartialEq, Eq, Hash)]
pub struct EntitySelector {
    pub agency_id: Option<String>,
    pub route_id: Option<String>,
    pub trip_id: Option<String>,
    pub stop_id: Option<String>,
}

/// A service alert.
#[verifier::ext_equal]
#[derive(Clone, Debug, PartialEq, Eq, Hash)]
pub struct Alert {
    pub informed_entity: Vec<EntitySelector>,
    pub cause: Option<u64>,
    pub effect: Option<u64>,
    pub header_text: Option<String>,
    pub description_text: Option<String>,
}

/// One entity of a feed: exactly the fields the pipeline reads.
#[derive(Clone, Debug, PartialEq, Eq, Hash)]
pub struct FeedEntity {
    pub id: String,
    pub is_deleted: bool,
    pub trip_update: Option<TripUpdate>,
    pub vehicle: Option<VehiclePosition>,
    pub alert: Option<Alert>,
}

/// The envelope of a feed.
#[derive(Clone, Debug, PartialEq, Eq, Hash)]
pub struct FeedHeader {
    pub gtfs_realtime_version: Option<String>,
    pub incrementality: Option<u64>,
    pub timestamp: Option<u64>,
}

/// A decoded GTFS-Realtime payload.
#[verifier::ext_equal]
#[derive(Clone, Debug, PartialEq, Eq, Hash)]
pub struct FeedMessage {
    pub header: FeedHeader,
    pub entities: Vec<FeedEntity>,
}

/// Copies an optional string.
pub fn dup_opt_string(o: &Option<String>) -> (r: Option<String>)
    ensures
        r == *o,
{
    match o {
        Some(s) => Some(s.clone()),
        None => None,
    }
}

/// Copies an optional integer.
pub fn dup_opt_u64(o: &Option<u64>) -> (r: Option<u64>)
    ensures
        r == *o,
{
    match o {
        Some(v) => Some(*v),
        None => None,
    }
}

/// Copies a trip descriptor.
pub fn dup_trip_descriptor(t: &TripDescriptor) -> (r: TripDescriptor)
    ensures
        r == *t,
{
    TripDescriptor {
        trip_id: dup_opt_string(&t.trip_id),
        route_id: dup_opt_string(&t.route_id),
        direction_id: dup_opt_u64(&t.direction_id),
        start_time: dup_opt_string(&t.start_time),
        start_date: dup_opt_string(&t.start_date),
        schedule_relationship: dup_opt_u64(&t.schedule_relationship),
    }
}

/// Copies a vehicle descriptor.
pub fn dup_vehicle_descriptor(v: &VehicleDescriptor) -> (r: VehicleDescriptor)
    ensures
        r == *v,
{
    VehicleDescriptor {
        id: dup_opt_string(&v.id),
        label: dup_opt_string(&v.label),
        license_plate: dup_opt_string(&v.license_plate),
        wheelchair_accessible: dup_opt_u64(&v.wheelchair_accessible),
    }
}

/// Copies a vehicle report.
pub fn dup_vehicle_position(v: &VehiclePosition) -> (r: VehiclePosition)
    ensures
        r == *v,
{
    VehiclePosition {
        trip: match &v.trip {
            Some(t) => Some(dup_trip_descriptor(t)),
            None => None,
        },
        position: match &v.position {
            Some(p) => Some(*p),
            None => None,
        },
        timestamp: dup_opt_u64(&v.timestamp),
        vehicle: match &v.vehicle {
            Some(d) => Some(dup_vehicle_descriptor(d)),
            None => None,
        },
    }
}

/// Copies a trip progress report.
pub fn dup_trip_update(t: &TripUpdate) -> (r: TripUpdate)
    ensures
        r == *t,
{
    TripUpdate {
        trip: match &t.trip {
            Some(d) => Some(dup_trip_descriptor(d)),
            None => None,
        },
        vehicle: match &t.vehicle {
            Some(d) => Some(dup_vehicle_descriptor(d)),
            None => None,
        },
        timestamp: dup_opt_u64(&t.timestamp),
        delay: dup_opt_u64(&t.delay),
    }
}

/// Copies an entity selector.
pub fn dup_entity_selector(e: &EntitySelector) -> (r: EntitySelector)
    ensures
        r == *e,
{
    EntitySelector {
        agency_id: dup_opt_string(&e.agency_id),
        route_id: dup_opt_string(&e.route_id),
        trip_id: dup_opt_string(&e.trip_id),
        stop_id: dup_opt_string(&e.stop_id),
    }
}

/// Copies an alert, up to its abstract view.
pub fn dup_alert(a: &Alert) -> (r: Alert)
    ensures
        r@ == a@,
        r.cause == a.cause,
        r.effect == a.effect,
        r.header_text == a.header_text,
        r.description_text == a.description_text,
        r.informed_entity@ == a.informed_entity@,
{
    let mut informed: Vec<EntitySelector> = Vec::new();
    let n = a.informed_entity.len();
    let mut k: usize = 0;
    while k < n
        invariant
            n == a.informed_entity@.len(),
            k <= n,
            informed@ == a.informed_entity@.subrange(0, k as int),
        decreases n - k,
    {
        informed.push(dup_entity_selector(&a.informed_entity[k]));
        assert(informed@ =~= a.informed_entity@.subrange(0, k + 1 as int));
        k = k + 1;
    }
    assert(informed@ =~= a.informed_entity@);
    let r = Alert {
        informed_entity: informed,
        cause: dup_opt_u64(&a.cause),
        effect: dup_opt_u64(&a.effect),
        header_text: dup_opt_string(&a.header_text),
        description_text: dup_opt_string(&a.description_text),
    };
    assert(r@ =~~= a@);
    r
}

/// Copies a feed entity, up to its abstract view.
pub fn dup_feed_entity(e: &FeedEntity) -> (r: FeedEntity)
    ensures
        r@ == e@,
{
    FeedEntity {
        id: e.id.clone(),
        is_deleted: e.is_deleted,
        trip_update: match &e.trip_update {
            Some(t) => Some(dup_trip_update(t)),
            None => None,
        },
        vehicle: match &e.vehicle {
            Some(v) => Some(dup_vehicle_position(v)),
            None => None,
        },
        alert: match &e.alert {
            Some(a) => Some(dup_alert(a)),
            None => None,
        },
    }
}

/// Spec view of an optional string.
pub open spec fn ov(o: Option<String>) -> Option<Seq<char>> {
    match o {
        Some(s) => Some(s@),
        None => None,
    }
}

/// Spec view of a trip descriptor.
pub struct TripDescriptorV {
    pub trip_id: Option<Seq<char>>,
    pub route_id: Option<Seq<char>>,
    pub direction_id: Option<u64>,
    pub start_time: Option<Seq<char>>,
    pub start_date: Option<Seq<char>>,
    pub schedule_relationship: Option<u64>,
}

impl View for TripDescriptor {
    type V = TripDescriptorV;

    open spec fn view(&self) -> TripDescriptorV {
        TripDescriptorV {
            trip_id: ov(self.trip_id),
            route_id: ov(self.route_id),
            direction_id: self.direction_id,
            start_time: ov(self.start_time),
            start_date: ov(self.start_date),
            schedule_relationship: self.schedule_relationship,
        }
    }
}

/// Spec view of a vehicle descriptor.
pub struct VehicleDescriptorV {
    pub id: Option<Seq<char>>,
    pub label: Option<Seq<char>>,
    pub license_plate: Option<Seq<char>>,
    pub wheelchair_accessible: Option<u64>,
}

impl View for VehicleDescriptor {
    type V = VehicleDescriptorV;

    open spec fn view(&self) -> VehicleDescriptorV {
        VehicleDescriptorV {
            id: ov(self.id),
            label: ov(self.label),
            license_plate: ov(self.license_plate),
            wheelchair_accessible: self.wheelchair_accessible,
        }
    }
}

/// Spec view of a vehicle report.
pub struct VehiclePositionV {
    pub trip: Option<TripDescriptorV>,
    pub position: Option<Position>,
    pub timestamp: Option<u64>,
    pub vehicle: Option<VehicleDescriptorV>,
}

impl View for VehiclePosition {
    type V = VehiclePositionV;

    open spec fn view(&self) -> VehiclePositionV {
        VehiclePositionV {
            trip: match self.trip {
                Some(t) => Some(t@),
                None => None,
            },
            position: self.position,
            timestamp: self.timestamp,
            vehicle: match self.vehicle {
                Some(v) => Some(v@),
                None => None,
            },
        }
    }
}

/// Spec view of a trip progress report.
pub struct TripUpdateV {
    pub trip: Option<TripDescriptorV>,
    pub vehicle: Option<VehicleDescriptorV>,
    pub timestamp: Option<u64>,
    pub delay: Option<u64>,
}

impl View for TripUpdate {
    type V = TripUpdateV;

    open spec fn view(&self) -> TripUpdateV {
        TripUpdateV {
            trip: match self.trip {
                Some(t) => Some(t@),
                None => None,
            },
            vehicle: match self.vehicle {
                Some(v) => Some(v@),
                None => None,
            },
            timestamp: self.timestamp,
            delay: self.delay,
        }
    }
}

/// Spec view of an entity selector.
pub struct EntitySelectorV {
    pub agency_id: Option<Seq<char>>,
    pub route_id: Option<Seq<char>>,
    pub trip_id: Option<Seq<char>>,
    pub stop_id: Option<Seq<char>>,
}

impl View for EntitySelector {
    type V = EntitySelectorV;

    open spec fn view(&self) -> EntitySelectorV {
        EntitySelectorV {
            agency_id: ov(self.agency_id),
            route_id: ov(self.route_id),
            trip_id: ov(self.trip_id),
            stop_id: ov(self.stop_id),
        }
    }
}

/// Spec view of an alert.
pub struct AlertV {
    pub informed_entity: Seq<EntitySelectorV>,
    pub cause: Option<u64>,
    pub effect: Option<u64>,
    pub header_text: Option<Seq<char>>,
    pub description_text: Option<Seq<char>>,
}

impl View for Alert {
    type V = AlertV;

    open spec fn view(&self) -> AlertV {
        AlertV {
            informed_entity: self.informed_entity@.map_values(|s: EntitySelector| s@),
            cause: self.cause,
            effect: self.effect,
            header_text: ov(self.header_text),
            description_text: ov(self.description_text),
        }
    }
}

/// Spec view of a feed entity.
pub struct FeedEntityV {
    pub id: Seq<char>,
    pub is_deleted: bool,
    pub trip_update: Option<TripUpdateV>,
    pub vehicle: Option<VehiclePositionV>,
    pub alert: Option<AlertV>,
}

impl View for FeedEntity {
    type V = FeedEntityV;

    open spec fn view(&self) -> FeedEntityV {
        FeedEntityV {
            id: self.id@,
            is_deleted: self.is_deleted,
            trip_update: match self.trip_update {
                Some(t) => Some(t@),
                None => None,
            },
            vehicle: match self.vehicle {
                Some(v) => Some(v@),
                None => None,
            },
            alert: match self.alert {
                Some(a) => Some(a@),
                None => None,
            },
        }
    }
}

/// Spec view of a feed header.
pub struct FeedHeaderV {
    pub gtfs_realtime_version: Option<Seq<char>>,
    pub incrementality: Option<u64>,
    pub timestamp: Option<u64>,
}

impl View for FeedHeader {
    type V = FeedHeaderV;

    open spec fn view(&self) -> FeedHeaderV {
        FeedHeaderV {
            gtfs_realtime_version: ov(self.gtfs_realtime_version),
            incrementality: self.incrementality,
            timestamp: self.timestamp,
        }
    }
}

/// Spec view of a whole feed.
pub struct FeedMessageV {
    pub header: FeedHeaderV,
    pub entities: Seq<FeedEntityV>,
}

impl View for FeedMessage {
    type V = FeedMessageV;

    open spec fn view(&self) -> FeedMessageV {
        FeedMessageV {
            header: self.header@,
            entities: self.entities@.map_values(|e: FeedEntity| e@),
        }
    }
}

} // verus!
