use eved::node::{nodes_for_outcome, MatchOutcome};

#[test]
fn warning_gives_one_error_row() {
    let rows = nodes_for_outcome(
        3,
        &MatchOutcome::Warned { warning: String::from("ambiguous match") },
    );
    assert_eq!(rows.len(), 1);
    assert_eq!(rows[0].traj_id, 3);
    assert_eq!(rows[0].match_error.as_deref(), Some("ambiguous match"));
    assert!(rows.iter().all(|r| r.position.is_none()));
}

#[test]
fn failure_gives_one_error_row() {
    let rows = nodes_for_outcome(4, &MatchOutcome::Failed { message: String::from("timed out") });
    assert_eq!(rows.len(), 1);
    assert_eq!(rows[0].position, None);
    assert_eq!(rows[0].match_error.as_deref(), Some("timed out"));
}

#[test]
fn matched_legs_are_flattened_in_order() {
    let outcome = MatchOutcome::Matched {
        legs: vec![String::from("e~epoA|jfpOiDaK"), String::from("_p~iF~ps|U")],
    };
    let rows = nodes_for_outcome(5, &outcome);
    let positions: Vec<Option<(i64, i64)>> = rows.iter().map(|r| r.position).collect();
    assert_eq!(
        positions,
        vec![
            Some((42225139, -8670911)),
            Some((42225224, -8670718)),
            Some((3850000, -12020000)),
        ]
    );
    assert!(rows.iter().all(|r| r.traj_id == 5 && r.match_error.is_none()));
}

#[test]
fn match_without_points_gives_no_rows() {
    let rows = nodes_for_outcome(6, &MatchOutcome::Matched { legs: vec![] });
    assert!(rows.is_empty());
}

#[test]
fn match_with_empty_leg_gives_no_rows() {
    let rows = nodes_for_outcome(7, &MatchOutcome::Matched { legs: vec![String::new()] });
    assert!(rows.is_empty());
}
