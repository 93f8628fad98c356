use eved::trace::{snap_to_road_request, CostingModel, ShapeMatch};

#[test]
fn request_snaps_cars_to_roads() {
    let r = snap_to_road_request();
    assert_eq!(r.shape_match, ShapeMatch::WalkOrSnap);
    assert_eq!(r.costing, CostingModel::Auto);
    assert!(!r.use_timestamps);
    assert_eq!(r.search_radius_m, 100);
    assert_eq!(r.gps_accuracy_m, 10);
}
