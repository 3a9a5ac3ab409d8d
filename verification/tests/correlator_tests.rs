use prettylog::correlate::{ConfigError, Correlator};
use prettylog::record::{ErrorInfo, LogRecord, RecordClass, RequestInfo, classify_record};
use termion::color::{Green, Red, Reset};

fn empty_record() -> LogRecord {
    LogRecord {
        msg: None,
        name: None,
        req_id: None,
        req: None,
        status_code: None,
        response_time: None,
        err: None,
    }
}

fn start_record(id: &str, method: &str, url: &str) -> LogRecord {
    LogRecord {
        msg: Some(String::from("incoming request")),
        req_id: Some(String::from(id)),
        req: Some(RequestInfo { method: String::from(method), url: String::from(url) }),
        ..empty_record()
    }
}

fn completion_record(id: &str, status_code: u16, response_time: Option<&str>) -> LogRecord {
    LogRecord {
        msg: Some(String::from("request completed")),
        req_id: Some(String::from(id)),
        status_code: Some(status_code),
        response_time: response_time.map(String::from),
        ..empty_record()
    }
}

#[test]
fn classification_goes_by_facet_presence() {
    assert_eq!(classify_record(&start_record("a1", "GET", "/x")), RecordClass::RequestStart);
    assert_eq!(classify_record(&completion_record("a1", 200, None)), RecordClass::RequestCompletion);
    let error_only = LogRecord {
        err: Some(ErrorInfo { message: String::from("boom"), stack: String::from("t") }),
        ..empty_record()
    };
    assert_eq!(classify_record(&error_only), RecordClass::ErrorOnly);
    assert_eq!(classify_record(&empty_record()), RecordClass::Generic);
    let completion_without_id =
        LogRecord { status_code: Some(200), ..empty_record() };
    assert_eq!(classify_record(&completion_without_id), RecordClass::Generic);
}

#[test]
fn matched_pair_renders_one_status_line() {
    let mut c = Correlator::new(None, false).unwrap();
    let raw_start = "{\"msg\":\"incoming request\",\"reqId\":\"a1\",\"req\":{\"method\":\"GET\",\"url\":\"/x\"}}";
    let out = c.process_line(Some(start_record("a1", "GET", "/x")), raw_start);
    assert_eq!(out, None);
    let raw_comp = "{\"msg\":\"request completed\",\"reqId\":\"a1\",\"res\":{\"statusCode\":200},\"responseTime\":12.5}";
    let out = c.process_line(Some(completion_record("a1", 200, Some(&format!("{:.3}", 12.5)))), raw_comp);
    let expected = format!("{}200{} GET /x 12.500ms", Green.fg_str(), Reset.fg_str());
    assert_eq!(out, Some(expected));
}

#[test]
fn matched_identifier_is_consumed() {
    let mut c = Correlator::new(None, false).unwrap();
    c.process_line(Some(start_record("a1", "GET", "/x")), "start");
    let first = c.process_line(Some(completion_record("a1", 200, None)), "first completion");
    assert!(first.is_some());
    let second = c.process_line(Some(completion_record("a1", 200, None)), "second completion");
    assert_eq!(second, Some(String::from("second completion")));
}

#[test]
fn unmatched_completion_passes_the_raw_line_through() {
    let mut c = Correlator::new(None, false).unwrap();
    let raw = "{\"msg\":\"request completed\",\"reqId\":\"ghost\",\"res\":{\"statusCode\":200}}";
    let out = c.process_line(Some(completion_record("ghost", 200, None)), raw);
    assert_eq!(out, Some(String::from(raw)));
}

#[test]
fn second_start_with_same_identifier_wins() {
    let mut c = Correlator::new(None, false).unwrap();
    c.process_line(Some(start_record("a1", "GET", "/old")), "first start");
    c.process_line(Some(start_record("a1", "POST", "/new")), "second start");
    let out = c.process_line(Some(completion_record("a1", 200, None)), "completion");
    let expected = format!("{}200{} POST /new N/A", Green.fg_str(), Reset.fg_str());
    assert_eq!(out, Some(expected));
}

#[test]
fn non_json_line_is_echoed_byte_for_byte() {
    let mut c = Correlator::new(None, false).unwrap();
    let raw = "plain text, not structured \u{1f980} \t end";
    let out = c.process_line(None, raw);
    assert_eq!(out, Some(String::from(raw)));
}

#[test]
fn filter_suppresses_non_matching_completion_entirely() {
    let mut c = Correlator::new(Some(String::from("4xx")), false).unwrap();
    c.process_line(Some(start_record("a1", "GET", "/x")), "start");
    let out = c.process_line(Some(completion_record("a1", 200, Some("12.500"))), "completion");
    assert_eq!(out, None);
}

#[test]
fn filter_never_suppresses_passthrough_or_generic_lines() {
    let mut c = Correlator::new(Some(String::from("4xx")), false).unwrap();
    let out = c.process_line(None, "free-form line");
    assert_eq!(out, Some(String::from("free-form line")));
    let generic = LogRecord { msg: Some(String::from("hello")), ..empty_record() };
    let out = c.process_line(Some(generic), "raw generic");
    assert_eq!(out, Some(String::from("hello")));
    let raw = "unmatched completion raw";
    let out = c.process_line(Some(completion_record("ghost", 200, None)), raw);
    assert_eq!(out, Some(String::from(raw)));
}

#[test]
fn wildcard_filter_passes_every_completion() {
    let mut c = Correlator::new(Some(String::from("xxx")), false).unwrap();
    c.process_line(Some(start_record("a1", "GET", "/x")), "start");
    let out = c.process_line(Some(completion_record("a1", 200, None)), "completion");
    let expected = format!("{}200{} GET /x N/A", Green.fg_str(), Reset.fg_str());
    assert_eq!(out, Some(expected));
}

#[test]
fn bare_error_record_renders_in_red_with_name_prefix() {
    let mut c = Correlator::new(None, false).unwrap();
    let record = LogRecord {
        msg: Some(String::from("something failed")),
        name: Some(String::from("api")),
        err: Some(ErrorInfo { message: String::from("boom"), stack: String::from("at a.js:1") }),
        ..empty_record()
    };
    let out = c.process_line(Some(record), "raw error line");
    let expected = format!("{}[api] boom{}\nat a.js:1", Red.fg_str(), Reset.fg_str());
    assert_eq!(out, Some(expected));
}

#[test]
fn generic_record_without_message_passes_the_raw_line_through() {
    let mut c = Correlator::new(None, false).unwrap();
    let out = c.process_line(Some(empty_record()), "{\"level\":30}");
    assert_eq!(out, Some(String::from("{\"level\":30}")));
}

#[test]
fn filter_must_be_exactly_three_characters() {
    assert!(Correlator::new(Some(String::from("4x")), false).is_err());
    assert_eq!(
        Correlator::new(Some(String::from("4xxx")), false).err(),
        Some(ConfigError::InvalidFilterLength)
    );
    assert!(Correlator::new(Some(String::from("")), false).is_err());
    assert!(Correlator::new(Some(String::from("4xx")), false).is_ok());
    assert!(Correlator::new(None, false).is_ok());
}

#[test]
fn no_errors_flag_suppresses_error_detail_on_matched_lines() {
    let mut c = Correlator::new(None, true).unwrap();
    c.process_line(Some(start_record("a1", "GET", "/x")), "start");
    let completion = LogRecord {
        err: Some(ErrorInfo { message: String::from("boom"), stack: String::from("trace") }),
        ..completion_record("a1", 500, None)
    };
    let out = c.process_line(Some(completion), "completion");
    let expected = format!("{}500{} GET /x N/A", Red.fg_str(), Reset.fg_str());
    assert_eq!(out, Some(expected));
}
