use eved::signal::{remove_pattern, sanitize_csv};

#[test]
fn nan_and_semicolons_become_empty() {
    let raw = b"VehId,Trip,Speed\n8;,706,nan\n8,706,12.5\n".to_vec();
    assert_eq!(sanitize_csv(&raw), b"VehId,Trip,Speed\n8,706,\n8,706,12.5\n".to_vec());
}

#[test]
fn removal_order() {
    // "nan" goes first, so a ';' inside it leaves it in place.
    assert_eq!(sanitize_csv(&b"na;n,nnan".to_vec()), b"nan,n".to_vec());
    assert_eq!(sanitize_csv(&vec![]), Vec::<u8>::new());
}

#[test]
fn removal_is_left_to_right() {
    assert_eq!(remove_pattern(&b"aaa".to_vec(), &b"aa".to_vec()), b"a".to_vec());
    assert_eq!(remove_pattern(&b"xnanax".to_vec(), &b"nan".to_vec()), b"xax".to_vec());
}
