//! Aspen: the realtime compute tier of a multi-agency transit data platform.
//!
//! Upstream pollers push raw GTFS-Realtime protobuf payloads to a worker;
//! the worker deduplicates, cleans and enriches them against static schedule
//! rows, and serves the resulting artifacts to downstream consumers.

use vstd::prelude::*;

pub mod assign;
pub mod cleaner;
pub mod dataset;
pub mod decode;
pub mod dedup;
pub mod encode;
pub mod enrich;
pub mod feed;
pub mod queue;
pub mod roughhash;
pub mod server;
pub mod strmap;
pub mod strutil;
pub mod trusted;
pub mod types;

pub use dataset::{AspenisedVehicleDescriptor, AspenisedVehicleRouteCache, AspenisedVehicleTripInfo};
pub use decode::{parse_gtfs_rt_message, DecodeError};
pub use feed::GtfsRtType;
pub use server::AspenServer;
pub use strutil::{maybe_tailscale, route_id_transform};
pub use trusted::duration_since_unix_epoch;
pub use types::{ChateauDataNoGeometry, ChateausLeaderHashMap, ProcessAlpenroseData};

verus! {

/// Spec-level name canonicalisation: known multi-operator feeds get their
/// route identifiers prefixed so they cannot collide across operators.
pub open spec fn spec_route_id_transform(feed_id: Seq<char>, route_id: Seq<char>) -> Seq<char> {
    if feed_id == "f-mta~nyc~rt~lirr"@ {
        "lirr"@ + route_id
    } else if feed_id == "f-mta~nyc~rt~mnr"@ {
        "mnr"@ + route_id
    } else {
        route_id
    }
}

} // verus!
