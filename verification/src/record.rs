//! The decoded log record and its classification. A record carries an
//! optional free-text message, an optional source name, and up to three
//! facets: a request facet (method and URL), a response facet (status
//! code, with optional timing), and an error facet (message and stack).
//!
//! Facet presence is the authoritative discriminant — message text is
//! treated as informational only, since it is an unreliable
//! application-defined convention.

use vstd::prelude::*;

verus! {

/// The request facet: what a request-start record tells us.
pub struct RequestInfo {
    pub method: String,
    pub url: String,
}

/// The error facet: a message and the raw stack-trace text.
pub struct ErrorInfo {
    pub message: String,
    pub stack: String,
}

/// One decoded log record. Every field is optional; which facets are
/// present decides the record's role. The response facet is present
/// exactly when `status_code` is; `response_time`, when present, holds
/// the timing already rendered to three decimal places (without the
/// `ms` suffix).
pub struct LogRecord {
    pub msg: Option<String>,
    pub name: Option<String>,
    pub req_id: Option<String>,
    pub req: Option<RequestInfo>,
    pub status_code: Option<u16>,
    pub response_time: Option<String>,
    pub err: Option<ErrorInfo>,
}

/// The characters of an optional string.
pub open spec fn opt_str_view(o: Option<String>) -> Option<Seq<char>> {
    match o {
        Some(s) => Some(s@),
        None => None,
    }
}

/// The message and stack characters of an optional error facet.
pub open spec fn err_view(o: Option<ErrorInfo>) -> Option<(Seq<char>, Seq<char>)> {
    match o {
        Some(e) => Some((e.message@, e.stack@)),
        None => None,
    }
}

/// The four roles a decoded record can play.
#[derive(Clone, Copy, PartialEq, Eq, Structural, Debug)]
pub enum RecordClass {
    RequestStart,
    RequestCompletion,
    ErrorOnly,
    Generic,
}

/// Classification by facet presence, in order of precedence:
/// an identifier plus a request facet (and no response facet) is a
/// request-start; an identifier plus a response facet is a completion,
/// whatever else the record carries; an error facet with no response
/// facet is a bare error; everything else — including a response facet
/// with no identifier — is generic.
pub open spec fn classify(r: LogRecord) -> RecordClass {
    if r.req_id is Some && r.req is Some && r.status_code is None {
        RecordClass::RequestStart
    } else if r.req_id is Some && r.status_code is Some {
        RecordClass::RequestCompletion
    } else if r.err is Some && r.status_code is None {
        RecordClass::ErrorOnly
    } else {
        RecordClass::Generic
    }
}

/// Classifies a record, as executable code.
pub fn classify_record(r: &LogRecord) -> (c: RecordClass)
    ensures
        c == classify(*r),
{
    if r.req_id.is_some() && r.req.is_some() && r.status_code.is_none() {
        RecordClass::RequestStart
    } else if r.req_id.is_some() && r.status_code.is_some() {
        RecordClass::RequestCompletion
    } else if r.err.is_some() && r.status_code.is_none() {
        RecordClass::ErrorOnly
    } else {
        RecordClass::Generic
    }
}

} // verus!
