use prettylog::filter::filter_status_code;

#[test]
fn wildcard_matches_every_code() {
    assert!(filter_status_code(200, "xxx"));
    assert!(filter_status_code(404, "xxx"));
    assert!(filter_status_code(100, "xxx"));
    assert!(filter_status_code(999, "xxx"));
    assert!(filter_status_code(42, "xxx"));
    assert!(filter_status_code(0, "xxx"));
}

#[test]
fn class_pattern_matches_its_class() {
    assert!(filter_status_code(404, "4xx"));
    assert!(filter_status_code(400, "4xx"));
    assert!(filter_status_code(499, "4xx"));
    assert!(filter_status_code(500, "5xx"));
    assert!(filter_status_code(503, "5xx"));
    assert!(filter_status_code(100, "1xx"));
    assert!(filter_status_code(999, "9xx"));
}

#[test]
fn class_pattern_rejects_other_classes() {
    assert!(!filter_status_code(200, "4xx"));
    assert!(!filter_status_code(399, "4xx"));
    assert!(!filter_status_code(500, "4xx"));
    assert!(!filter_status_code(200, "5xx"));
}

#[test]
fn exact_and_partial_digit_patterns() {
    assert!(filter_status_code(404, "404"));
    assert!(!filter_status_code(403, "404"));
    assert!(filter_status_code(404, "40x"));
    assert!(!filter_status_code(414, "40x"));
    assert!(filter_status_code(204, "x04"));
    assert!(!filter_status_code(214, "x04"));
}

#[test]
fn non_digit_non_wildcard_pattern_matches_nothing() {
    assert!(!filter_status_code(404, "4yx"));
    assert!(!filter_status_code(404, "abc"));
}
