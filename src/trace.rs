//! The map-matching request: how a trace is submitted to the routing service.
use vstd::prelude::*;

verus! {

/// How the service aligns a trace with the road network.
#[derive(Clone, Copy, Debug, PartialEq, Eq, Structural)]
pub enum ShapeMatch {
    /// Follow the edges exactly; for precise traces only.
    EdgeWalk,
    /// Map-match every point.
    MapSnap,
    /// Walk the edges where possible, map-match otherwise.
    WalkOrSnap,
}

/// The travel mode whose rules the routes obey.
#[derive(Clone, Copy, Debug, PartialEq, Eq, Structural)]
pub enum CostingModel {
    Auto,
    Bicycle,
    Bus,
    Bikeshare,
    Truck,
    Hov,
    Taxi,
    MotorScooter,
    Motorcycle,
    Multimodal,
    Pedestrian,
}

/// The per-mode options that accompany a costing model.
#[derive(Clone, Copy, Debug, PartialEq, Eq, Structural)]
pub enum CostingOption {
    Auto,
}

/// The formats in which the service can return a matched route.
#[derive(Clone, Copy, Debug, PartialEq, Eq, Structural)]
pub enum OutputFormat {
    Json,
    Gpx,
    Osrm,
    Pbf,
}

/// The status part of the service's answer to a trace-attributes request.
#[derive(Clone, Debug)]
pub struct TraceAttributes {
    pub status: i32,
    pub status_message: String,
    pub units: String,
    pub language: String,
}

/// The settings of a map-matching request.
#[derive(Clone, Copy, Debug, PartialEq, Eq, Structural)]
pub struct TraceRoute {
    pub shape_match: ShapeMatch,
    pub costing: CostingModel,
    /// Whether the points' time stamps constrain the speeds between them.
    pub use_timestamps: bool,
    /// Radius in meters around each point within which roads are candidates.
    pub search_radius_m: u32,
    /// Accuracy in meters of the GPS positions.
    pub gps_accuracy_m: u32,
}

/// The request used for every trajectory: snap to the car road network,
/// within 100 m of each point, with a GPS accuracy of 10 m, ignoring time
/// stamps.
pub fn snap_to_road_request() -> (r: TraceRoute)
    ensures
        r.shape_match == ShapeMatch::WalkOrSnap,
        r.costing == CostingModel::Auto,
        !r.use_timestamps,
        r.search_radius_m == 100,
        r.gps_accuracy_m == 10,
{
    TraceRoute {
        shape_match: ShapeMatch::WalkOrSnap,
        costing: CostingModel::Auto,
        use_timestamps: false,
        search_radius_m: 100,
        gps_accuracy_m: 10,
    }
}

} // verus!
