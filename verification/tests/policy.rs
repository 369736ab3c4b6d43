use sigstore::policy::{is_timerange_valid, TimeRange};

#[test]
fn unbounded_range_always_valid() {
    let r = TimeRange { start: None, end: None };
    for now in [i64::MIN, -1, 0, 1, 1000, i64::MAX] {
        for allow_expired in [false, true] {
            assert!(is_timerange_valid(Some(&r), allow_expired, now));
            assert!(is_timerange_valid(None, allow_expired, now));
        }
    }
}

#[test]
fn not_yet_active_invalid_in_both_modes() {
    let r = TimeRange { start: Some(100), end: Some(200) };
    for allow_expired in [false, true] {
        assert!(!is_timerange_valid(Some(&r), allow_expired, 99));
    }
    let open_ended = TimeRange { start: Some(100), end: None };
    for allow_expired in [false, true] {
        assert!(!is_timerange_valid(Some(&open_ended), allow_expired, 0));
    }
}

#[test]
fn within_window_valid_strict() {
    let r = TimeRange { start: Some(100), end: Some(200) };
    assert!(is_timerange_valid(Some(&r), false, 100));
    assert!(is_timerange_valid(Some(&r), false, 150));
    assert!(is_timerange_valid(Some(&r), false, 200));
}

#[test]
fn expired_window_only_with_allow_expired() {
    let r = TimeRange { start: Some(100), end: Some(200) };
    assert!(is_timerange_valid(Some(&r), true, 201));
    assert!(!is_timerange_valid(Some(&r), false, 201));
    let no_start = TimeRange { start: None, end: Some(200) };
    assert!(is_timerange_valid(Some(&no_start), true, 5000));
    assert!(!is_timerange_valid(Some(&no_start), false, 5000));
}

#[test]
fn no_end_valid_after_start() {
    let r = TimeRange { start: Some(100), end: None };
    assert!(is_timerange_valid(Some(&r), false, 100));
    assert!(is_timerange_valid(Some(&r), false, i64::MAX));
}
