use eved::polyline::{chars_of, decode_polyline, parse_polyline_coordinate};

#[test]
fn decode_polyline6() {
    let x: Vec<(f64, f64)> = decode_polyline("e~epoA|jfpOiDaK")
        .iter()
        .map(|(lat, lon)| (*lat as f64 / 1E6, *lon as f64 / 1E6))
        .collect();
    let decoded = vec![(42.225139, -8.670911), (42.225224, -8.670718)];
    assert_eq!(x, decoded);
}

#[test]
fn decode_polyline_integer_units() {
    assert_eq!(
        decode_polyline("e~epoA|jfpOiDaK"),
        vec![(42225139, -8670911), (42225224, -8670718)]
    );
}

#[test]
fn decode_empty_polyline() {
    assert_eq!(decode_polyline(""), vec![]);
}

#[test]
fn decode_stops_at_incomplete_pair() {
    // The second pair lacks its longitude.
    assert_eq!(decode_polyline("e~epoA|jfpOiD"), vec![(42225139, -8670911)]);
    // The text ends inside a value.
    assert_eq!(decode_polyline("e~ep"), vec![]);
}

#[test]
fn decode_stops_at_overlong_value() {
    // Eight chunks that all announce another one: no value fits.
    assert_eq!(decode_polyline("~~~~~~~~?"), vec![]);
}

#[test]
fn parse_single_coordinates() {
    let chars = chars_of("_p~iF~ps|U");
    assert_eq!(parse_polyline_coordinate(&chars, 0, 0), Some((3850000, 5)));
    assert_eq!(parse_polyline_coordinate(&chars, 5, 0), Some((-12020000, 10)));
    assert_eq!(parse_polyline_coordinate(&chars, 10, 0), None);
    // Deltas add to the previous coordinate.
    let delta = chars_of("?");
    assert_eq!(parse_polyline_coordinate(&delta, 0, 7), Some((7, 1)));
    let minus_one = chars_of("@");
    assert_eq!(parse_polyline_coordinate(&minus_one, 0, 7), Some((6, 1)));
}

#[test]
fn parse_overflowing_sum_fails() {
    // "@" carries -1, "A" carries +1.
    let chars = chars_of("@");
    assert_eq!(parse_polyline_coordinate(&chars, 0, i64::MIN), None);
    let chars = chars_of("A");
    assert_eq!(parse_polyline_coordinate(&chars, 0, i64::MAX), None);
    assert_eq!(parse_polyline_coordinate(&chars, 0, i64::MIN), Some((i64::MIN + 1, 1)));
    let chars = chars_of("?");
    assert_eq!(parse_polyline_coordinate(&chars, 0, i64::MAX), Some((i64::MAX, 1)));
}
