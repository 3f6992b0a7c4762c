//! The enriched, ready-to-serve artifact held per chateau, and the response
//! shapes of the query plane.

use vstd::prelude::*;

use crate::feed::dup_opt_string;
use crate::strmap::StringMap;

pub use crate::feed::Alert as AspenisedAlert;
pub use crate::feed::TripUpdate as AspenisedTripUpdate;

verus! {

/// A vehicle fix as raw IEEE-754 bit patterns; the pipeline stores and
/// serves coordinates without interpreting them.
#[derive(Copy, Clone, Debug, PartialEq, Eq, Hash)]
pub struct CatenaryRtVehiclePosition {
    pub latitude_bits: u32,
    pub longitude_bits: u32,
    pub bearing_bits: Option<u32>,
    pub odometer_bits: Option<u64>,
    pub speed_bits: Option<u32>,
}

/// The served slice of a vehicle descriptor.
#[derive(Clone, Debug, PartialEq, Eq, Hash)]
pub struct AspenisedVehicleDescriptor {
    pub id: Option<String>,
    pub label: Option<String>,
    pub license_plate: Option<String>,
    pub wheelchair_accessible: Option<i32>,
}

/// The served slice of a vehicle's trip information.
#[derive(Clone, Debug, PartialEq, Eq, Hash)]
pub struct AspenisedVehicleTripInfo {
    pub trip_id: Option<String>,
    pub trip_headsign: Option<String>,
    pub route_id: Option<String>,
    pub trip_short_name: Option<String>,
}

/// A vehicle position as served to consumers.
#[derive(Clone, Debug, PartialEq, Eq, Hash)]
pub struct AspenisedVehiclePosition {
    pub trip: Option<AspenisedVehicleTripInfo>,
    pub vehicle: Option<AspenisedVehicleDescriptor>,
    pub position: Option<CatenaryRtVehiclePosition>,
    pub timestamp: Option<u64>,
}

/// The display data of one route, joined from the static schedule.
#[derive(Clone, Debug, PartialEq, Eq, Hash)]
pub struct AspenisedVehicleRouteCache {
    pub route_short_name: Option<String>,
    pub route_long_name: Option<String>,
    pub route_colour: Option<String>,
    pub route_text_colour: Option<String>,
}

/// The per-chateau artifact: everything the query plane serves.
#[derive(Clone, Debug)]
pub struct AspenisedData {
    pub vehicle_positions: StringMap<AspenisedVehiclePosition>,
    pub vehicle_routes_cache: StringMap<AspenisedVehicleRouteCache>,
    pub trip_updates: StringMap<AspenisedTripUpdate>,
    pub trip_updates_lookup_by_trip_id_to_trip_update_ids: StringMap<Vec<String>>,
    pub aspenised_alerts: StringMap<AspenisedAlert>,
    pub alerts_by_route: StringMap<Vec<String>>,
    pub alerts_by_stop: StringMap<Vec<String>>,
    pub alerts_by_trip: StringMap<Vec<String>>,
    pub last_updated_time_ms: u64,
}

impl AspenisedData {
    /// All the artifact's maps are well formed.
    pub open spec fn wf(&self) -> bool {
        self.vehicle_positions.wf() && self.vehicle_routes_cache.wf() && self.trip_updates.wf()
            && self.trip_updates_lookup_by_trip_id_to_trip_update_ids.wf()
            && self.aspenised_alerts.wf() && self.alerts_by_route.wf()
            && self.alerts_by_stop.wf() && self.alerts_by_trip.wf()
    }
}

/// The answer of the vehicle-locations query. The route cache is omitted
/// when the client already holds it (same hash).
pub struct GetVehicleLocationsResponse {
    pub vehicle_route_cache: Option<StringMap<AspenisedVehicleRouteCache>>,
    pub vehicle_positions: StringMap<AspenisedVehiclePosition>,
    pub hash_of_routes: u64,
    pub last_updated_time_ms: u64,
}

/// Alerts grouped for a set of stops: each requested stop maps to the
/// identifiers of the alerts that touch it, resolved in `alerts`.
pub struct AlertsforManyStops {
    pub stop_alerts: StringMap<Vec<String>>,
    pub alerts: StringMap<AspenisedAlert>,
}

/// Copies one served vehicle position.
pub fn dup_aspenised_vehicle_position(v: &AspenisedVehiclePosition) -> (r:
    AspenisedVehiclePosition)
    ensures
        r == *v,
{
    AspenisedVehiclePosition {
        trip: match &v.trip {
            Some(t) => Some(
                AspenisedVehicleTripInfo {
                    trip_id: dup_opt_string(&t.trip_id),
                    trip_headsign: dup_opt_string(&t.trip_headsign),
                    route_id: dup_opt_string(&t.route_id),
                    trip_short_name: dup_opt_string(&t.trip_short_name),
                },
            ),
            None => None,
        },
        vehicle: match &v.vehicle {
            Some(d) => Some(
                AspenisedVehicleDescriptor {
                    id: dup_opt_string(&d.id),
                    label: dup_opt_string(&d.label),
                    license_plate: dup_opt_string(&d.license_plate),
                    wheelchair_accessible: match &d.wheelchair_accessible {
                        Some(w) => Some(*w),
                        None => None,
                    },
                },
            ),
            None => None,
        },
        position: match &v.position {
            Some(p) => Some(*p),
            None => None,
        },
        timestamp: match &v.timestamp {
            Some(ts) => Some(*ts),
            None => None,
        },
    }
}

/// Copies one route-cache row.
pub fn dup_route_cache(c: &AspenisedVehicleRouteCache) -> (r: AspenisedVehicleRouteCache)
    ensures
        r == *c,
{
    AspenisedVehicleRouteCache {
        route_short_name: dup_opt_string(&c.route_short_name),
        route_long_name: dup_opt_string(&c.route_long_name),
        route_colour: dup_opt_string(&c.route_colour),
        route_text_colour: dup_opt_string(&c.route_text_colour),
    }
}

/// The route-cache rows of an artifact, in map order.
pub fn route_cache_values(m: &StringMap<AspenisedVehicleRouteCache>) -> (r: Vec<
    AspenisedVehicleRouteCache,
>)
    ensures
        r@ == m.entries().map_values(
            |p: (String, AspenisedVehicleRouteCache)| p.1,
        ),
{
    let mut out: Vec<AspenisedVehicleRouteCache> = Vec::new();
    let n = m.len();
    let mut k: usize = 0;
    while k < n
        invariant
            n == m.entries().len(),
            out@.len() == k as int,
            k <= n,
            forall|i: int| 0 <= i < k ==> out@[i] == m.entries()[i].1,
        decreases n - k,
    {
        out.push(dup_route_cache(&m.pair_at(k).1));
        k = k + 1;
    }
    assert(out@ =~= m.entries().map_values(|p: (String, AspenisedVehicleRouteCache)| p.1));
    out
}

} // verus!
