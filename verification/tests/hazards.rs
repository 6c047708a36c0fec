use ascot::hazards::{first_disallowed_hazard, misses_hazards};

#[test]
fn all_hazards_allowed() {
    assert_eq!(first_disallowed_hazard(&[3, 1], &[1, 2, 3]), None);
    assert_eq!(first_disallowed_hazard(&[], &[]), None);
}

#[test]
fn first_hazard_not_allowed() {
    assert_eq!(first_disallowed_hazard(&[1, 7, 9], &[1, 2]), Some(7));
    assert_eq!(first_disallowed_hazard(&[4], &[]), Some(4));
}

#[test]
fn missing_hazards() {
    assert!(!misses_hazards(&[1, 2, 3], &[2, 3]));
    assert!(misses_hazards(&[1, 2], &[2, 5]));
    assert!(!misses_hazards(&[], &[]));
}
