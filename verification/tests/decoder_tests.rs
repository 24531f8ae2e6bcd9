use tiermask::decoder::parse_restore_state;
use tiermask::models::RestoreState;

#[test]
fn absent_header_means_no_lifecycle() {
    assert_eq!(parse_restore_state(None), None);
}

#[test]
fn ongoing_true_is_in_progress_without_expiry() {
    let r = parse_restore_state(Some("ongoing-request=\"true\""));
    assert_eq!(r, Some(RestoreState::InProgress { expiry: None }));
}

#[test]
fn ongoing_true_wins_over_embedded_expiry() {
    let raw = "ongoing-request=\"true\", expiry-date=\"Fri, 21 Dec 2012 00:00:00 GMT\"";
    let r = parse_restore_state(Some(raw));
    assert_eq!(r, Some(RestoreState::InProgress { expiry: None }));
}

#[test]
fn expiry_date_is_parsed_and_normalized_to_utc() {
    let raw = "ongoing-request=\"false\", expiry-date=\"Fri, 21 Dec 2012 05:30:00 +0530\"";
    let r = parse_restore_state(Some(raw));
    assert_eq!(
        r,
        Some(RestoreState::InProgress {
            expiry: Some("2012-12-21T00:00:00+00:00".to_string())
        })
    );
}

#[test]
fn unparseable_expiry_falls_back_to_available() {
    let raw = "ongoing-request=\"false\", expiry-date=\"not a date\"";
    let r = parse_restore_state(Some(raw));
    assert_eq!(r, Some(RestoreState::Available));
}

#[test]
fn ongoing_false_without_expiry_is_available() {
    let r = parse_restore_state(Some("ongoing-request=\"false\""));
    assert_eq!(r, Some(RestoreState::Available));
}

#[test]
fn unrecognised_text_is_expired() {
    let r = parse_restore_state(Some("something else entirely"));
    assert_eq!(r, Some(RestoreState::Expired));
}

#[test]
fn scan_is_case_insensitive() {
    let r = parse_restore_state(Some("ONGOING-REQUEST=\"TRUE\""));
    assert_eq!(r, Some(RestoreState::InProgress { expiry: None }));
}
