use lorri::cli::human_friendly_duration;

#[test]
fn test_human_friendly_duration() {
    assert_eq!(human_friendly_duration("1d"), Ok(24 * 60 * 60));
    assert_eq!(human_friendly_duration("2d"), Ok(2 * 24 * 60 * 60));
    assert_eq!(human_friendly_duration("2m"), Ok(2 * 30 * 24 * 60 * 60));
    assert_eq!(human_friendly_duration("2y"), Ok(2 * 365 * 24 * 60 * 60));
    assert!(human_friendly_duration("1").is_err());
    assert!(human_friendly_duration("1dd").is_err());
    assert!(human_friendly_duration("dd").is_err());
    assert!(human_friendly_duration("d").is_err());
    assert!(human_friendly_duration("1j").is_err());
    assert!(human_friendly_duration("é").is_err());
}

/// The number part is read the way the standard parser reads it: a
/// leading plus and leading zeroes are fine, anything else is not.
#[test]
fn duration_number_edge_cases() {
    assert_eq!(human_friendly_duration("+2d"), Ok(2 * 24 * 60 * 60));
    assert_eq!(human_friendly_duration("007d"), Ok(7 * 24 * 60 * 60));
    assert!(human_friendly_duration("++1d").is_err());
    assert!(human_friendly_duration("+d").is_err());
    assert!(human_friendly_duration("-1d").is_err());
    assert!(human_friendly_duration("1 d").is_err());
    assert!(human_friendly_duration("99999999999999999999d").is_err());
    assert!(human_friendly_duration("300000000000000y").is_err());
}

/// The complaints name the offending part of the input.
#[test]
fn duration_error_messages() {
    assert_eq!(
        human_friendly_duration("1j"),
        Err(String::from("Invalid duration: «1j» should end with d, m or y."))
    );
    assert_eq!(
        human_friendly_duration("xd"),
        Err(String::from("Invalid duration: «x» is not an integer."))
    );
}
