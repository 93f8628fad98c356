use eved::vehicle::{no_data_str, read_sheet_vehicles, read_vehicles, vehicle_from_row, Cell, VehicleError};

fn text(s: &str) -> Cell {
    Cell { integer: None, text: Some(String::from(s)) }
}

fn integer(v: i64) -> Cell {
    Cell { integer: Some(v), text: Some(v.to_string()) }
}

fn header() -> Vec<Cell> {
    vec![
        text("VehId"),
        text("Vehicle Type"),
        text("Vehicle Class"),
        text("Engine Configuration & Displacement"),
        text("Transmission"),
        text("Drive Wheels"),
        text("Generalized_Weight"),
    ]
}

fn row(id: i64, kind: &str, weight: Cell) -> Vec<Cell> {
    vec![integer(id), text(kind), text("Car"), text("NO DATA"), text("NO DATA, 5-SP"), text("FWD"), weight]
}

#[test]
fn sentinel_text_reads_as_absent() {
    assert_eq!(no_data_str(&Some(String::from("NO DATA"))), None);
    assert_eq!(no_data_str(&Some(String::from("NO DATA, 4-SP"))), None);
    assert_eq!(no_data_str(&Some(String::from("ICE"))), Some(String::from("ICE")));
    assert_eq!(no_data_str(&Some(String::from("NO DAT"))), Some(String::from("NO DAT")));
    assert_eq!(no_data_str(&None), None);
}

#[test]
fn vehicle_row_decodes() {
    let v = vehicle_from_row(&row(8, "ICE", integer(3500)), 1).unwrap();
    assert_eq!(v.vehicle_id, 8);
    assert_eq!(v.vehicle_type.as_deref(), Some("ICE"));
    assert_eq!(v.vehicle_class.as_deref(), Some("Car"));
    assert_eq!(v.engine, None);
    assert_eq!(v.transmission, None);
    assert_eq!(v.drive_wheels.as_deref(), Some("FWD"));
    assert_eq!(v.weight, Some(3500));
    let t = v.to_tuple();
    assert_eq!(t.0, 8);
    assert_eq!(t.1.as_deref(), Some("ICE"));
    assert_eq!(t.3, None);
    assert_eq!(t.6, Some(3500));
}

#[test]
fn absent_weight() {
    let v = vehicle_from_row(&row(9, "EV", text("NO DATA")), 2).unwrap();
    assert_eq!(v.weight, None);
    let empty = Cell { integer: None, text: None };
    let v = vehicle_from_row(&row(10, "EV", empty), 3).unwrap();
    assert_eq!(v.weight, None);
}

#[test]
fn bad_rows_are_errors() {
    let mut short = row(8, "ICE", integer(3500));
    short.pop();
    assert_eq!(vehicle_from_row(&short, 4).unwrap_err(), VehicleError::MissingColumns { row: 4 });
    let mut no_id = row(8, "ICE", integer(3500));
    no_id[0] = text("x");
    assert_eq!(vehicle_from_row(&no_id, 5).unwrap_err(), VehicleError::InvalidVehicleId { row: 5 });
}

#[test]
fn sheet_skips_header_and_stops_at_first_error() {
    let sheet = vec![header(), row(1, "ICE", integer(3000)), row(2, "HEV", integer(3500))];
    let vs = read_sheet_vehicles(&sheet).unwrap();
    assert_eq!(vs.iter().map(|v| v.vehicle_id).collect::<Vec<_>>(), vec![1, 2]);
    assert!(read_sheet_vehicles(&vec![]).unwrap().is_empty());
    assert!(read_sheet_vehicles(&vec![header()]).unwrap().is_empty());
    let mut bad = sheet.clone();
    bad.push(vec![integer(3)]);
    bad.push(vec![text("x"), text("a"), text("b"), text("c"), text("d"), text("e"), text("f")]);
    assert_eq!(read_sheet_vehicles(&bad).unwrap_err(), VehicleError::MissingColumns { row: 3 });
}

#[test]
fn both_sheets_in_order() {
    let ice = vec![header(), row(1, "ICE", integer(3000))];
    let xev = vec![header(), row(2, "PHEV", integer(4000)), row(3, "EV", text("NO DATA"))];
    let vs = read_vehicles(&ice, &xev).unwrap();
    assert_eq!(vs.iter().map(|v| v.vehicle_id).collect::<Vec<_>>(), vec![1, 2, 3]);
    let broken = vec![header(), vec![text("VehId")]];
    assert_eq!(read_vehicles(&ice, &broken).unwrap_err(), VehicleError::MissingColumns { row: 1 });
}
