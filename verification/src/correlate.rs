//! The correlator: owns the pending-request store and the configuration,
//! and processes one decoded line at a time. Its contract states, for
//! every input, both the next store contents and the exact output text
//! (or its absence), via the two spec functions `step_map` and
//! `line_output`.

use vstd::prelude::*;
use vstd::string::StringExecFns;
use vstd::string::StrSliceExecFns;
use crate::record::LogRecord;
use crate::record::RecordClass;
use crate::record::classify;
use crate::record::classify_record;
use crate::record::err_view;
use crate::record::opt_str_view;
use crate::render::error_block;
use crate::render::matched_output;
use crate::render::render_error;
use crate::render::render_generic;
use crate::render::render_matched;
use crate::store::PendingStore;

verus! {

/// The one configuration failure: a filter pattern that is not exactly
/// three characters long.
#[derive(Clone, Copy, PartialEq, Eq, Structural, Debug)]
pub enum ConfigError {
    InvalidFilterLength,
}

/// The store contents after one line: a request-start buffers its
/// request facet under its identifier (overwriting), a completion
/// removes its identifier, and everything else leaves the store alone.
pub open spec fn step_map(
    m: Map<Seq<char>, (Seq<char>, Seq<char>)>,
    decoded: Option<LogRecord>,
) -> Map<Seq<char>, (Seq<char>, Seq<char>)> {
    match decoded {
        None => m,
        Some(r) => match classify(r) {
            RecordClass::RequestStart => m.insert(
                r.req_id->0@,
                (r.req->0.method@, r.req->0.url@),
            ),
            RecordClass::RequestCompletion => m.remove(r.req_id->0@),
            RecordClass::ErrorOnly => m,
            RecordClass::Generic => m,
        },
    }
}

/// The text emitted for one line: an undecodable line passes through
/// unchanged; a request-start emits nothing; a completion with a
/// buffered start renders the matched pair (subject to the filter), and
/// one without passes through unchanged; a bare error renders its error
/// block; a generic record renders its message, or the raw line when it
/// has none.
pub open spec fn line_output(
    m: Map<Seq<char>, (Seq<char>, Seq<char>)>,
    decoded: Option<LogRecord>,
    raw: Seq<char>,
    filter: Option<Seq<char>>,
    no_errors: bool,
) -> Option<Seq<char>> {
    match decoded {
        None => Some(raw),
        Some(r) => match classify(r) {
            RecordClass::RequestStart => None,
            RecordClass::RequestCompletion => {
                if m.contains_key(r.req_id->0@) {
                    matched_output(
                        m[r.req_id->0@].0,
                        m[r.req_id->0@].1,
                        r.status_code->0,
                        opt_str_view(r.response_time),
                        err_view(r.err),
                        filter,
                        no_errors,
                    )
                } else {
                    Some(raw)
                }
            },
            RecordClass::ErrorOnly => Some(
                error_block(opt_str_view(r.name), r.err->0.message@, r.err->0.stack@),
            ),
            RecordClass::Generic => Some(
                match r.msg {
                    Some(msg) => msg@,
                    None => raw,
                },
            ),
        },
    }
}

/// The correlation-and-render engine: configuration plus the pending
/// store.
pub struct Correlator {
    filter: Option<String>,
    no_errors: bool,
    pending: PendingStore,
}

impl Correlator {
    /// Well-formedness: the store's invariant holds and any filter is
    /// exactly three characters.
    pub closed spec fn wf(&self) -> bool {
        &&& self.pending.wf()
        &&& self.filter is Some ==> self.filter->0@.len() == 3
    }

    /// The buffered request facets, by identifier.
    pub closed spec fn pending_map(&self) -> Map<Seq<char>, (Seq<char>, Seq<char>)> {
        self.pending@
    }

    /// The configured filter pattern, if any.
    pub closed spec fn filter_spec(&self) -> Option<Seq<char>> {
        opt_str_view(self.filter)
    }

    /// Whether error detail on matched completions is suppressed.
    pub closed spec fn no_errors_spec(&self) -> bool {
        self.no_errors
    }

    /// Builds a correlator with an empty store, validating the filter
    /// once: any pattern that is not exactly three characters is
    /// rejected, before any input is processed.
    pub fn new(filter: Option<String>, no_errors: bool) -> (r: Result<Correlator, ConfigError>)
        ensures
            (r is Ok) == (filter is None || filter->0@.len() == 3),
            match r {
                Ok(c) => {
                    &&& c.wf()
                    &&& c.pending_map() == Map::<Seq<char>, (Seq<char>, Seq<char>)>::empty()
                    &&& c.filter_spec() == opt_str_view(filter)
                    &&& c.no_errors_spec() == no_errors
                },
                Err(e) => e == ConfigError::InvalidFilterLength,
            },
    {
        match filter {
            None => Ok(
                Correlator { filter: None, no_errors: no_errors, pending: PendingStore::new() },
            ),
            Some(f) => {
                if f.as_str().unicode_len() == 3 {
                    Ok(
                        Correlator {
                            filter: Some(f),
                            no_errors: no_errors,
                            pending: PendingStore::new(),
                        },
                    )
                } else {
                    Err(ConfigError::InvalidFilterLength)
                }
            },
        }
    }

    /// Processes one input line: `decoded` is the structured reading of
    /// `raw_line`, or `None` when the line is not a structured record.
    /// Returns the text to emit for this line, or `None` when nothing
    /// is emitted (a buffered start, or a filtered-out completion).
    pub fn process_line(&mut self, decoded: Option<LogRecord>, raw_line: &str) -> (out: Option<
        String,
    >)
        requires
            old(self).wf(),
        ensures
            final(self).wf(),
            final(self).filter_spec() == old(self).filter_spec(),
            final(self).no_errors_spec() == old(self).no_errors_spec(),
            final(self).pending_map() == step_map(old(self).pending_map(), decoded),
            opt_str_view(out) == line_output(
                old(self).pending_map(),
                decoded,
                raw_line@,
                old(self).filter_spec(),
                old(self).no_errors_spec(),
            ),
    {
        match decoded {
            None => Some(String::from_str(raw_line)),
            Some(r) => {
                let class = classify_record(&r);
                let LogRecord { msg, name, req_id, req, status_code, response_time, err } = r;
                match class {
                    RecordClass::RequestStart => {
                        let id = req_id.unwrap();
                        let entry = req.unwrap();
                        self.pending.put(id, entry);
                        None
                    },
                    RecordClass::RequestCompletion => {
                        let id = req_id.unwrap();
                        let code = status_code.unwrap();
                        match self.pending.take(&id) {
                            Some(entry) => render_matched(
                                &entry,
                                code,
                                &response_time,
                                &err,
                                &self.filter,
                                self.no_errors,
                            ),
                            None => Some(String::from_str(raw_line)),
                        }
                    },
                    RecordClass::ErrorOnly => {
                        let e = err.unwrap();
                        Some(render_error(&name, &e))
                    },
                    RecordClass::Generic => Some(render_generic(msg, raw_line)),
                }
            },
        }
    }
}

/// For a request-start followed by a completion sharing its identifier,
/// the start emits nothing, the completion emits exactly the rendering
/// of the matched pair — built from the buffered method and URL — and
/// with no filter set that rendering is one emitted line; afterward the
/// store no longer holds the identifier.
pub proof fn lemma_pair_renders_once(
    m: Map<Seq<char>, (Seq<char>, Seq<char>)>,
    start: LogRecord,
    comp: LogRecord,
    raw_start: Seq<char>,
    raw_comp: Seq<char>,
    no_errors: bool,
)
    requires
        classify(start) == RecordClass::RequestStart,
        classify(comp) == RecordClass::RequestCompletion,
        comp.req_id->0@ == start.req_id->0@,
    ensures
        line_output(m, Some(start), raw_start, None, no_errors) is None,
        line_output(step_map(m, Some(start)), Some(comp), raw_comp, None, no_errors)
            == matched_output(
            start.req->0.method@,
            start.req->0.url@,
            comp.status_code->0,
            opt_str_view(comp.response_time),
            err_view(comp.err),
            None,
            no_errors,
        ),
        line_output(step_map(m, Some(start)), Some(comp), raw_comp, None, no_errors) is Some,
        !step_map(step_map(m, Some(start)), Some(comp)).contains_key(start.req_id->0@),
{
}

/// A completion whose identifier was never buffered passes the raw line
/// through unchanged and leaves the store as it was.
pub proof fn lemma_unmatched_completion_passes_through(
    m: Map<Seq<char>, (Seq<char>, Seq<char>)>,
    comp: LogRecord,
    raw: Seq<char>,
    filter: Option<Seq<char>>,
    no_errors: bool,
)
    requires
        classify(comp) == RecordClass::RequestCompletion,
        !m.contains_key(comp.req_id->0@),
    ensures
        line_output(m, Some(comp), raw, filter, no_errors) == Some(raw),
        step_map(m, Some(comp)) == m,
{
    assert(m.remove(comp.req_id->0@) =~= m);
}

/// Two request-starts under one identifier followed by one completion:
/// the rendering uses the second start's method and URL — last write
/// wins.
pub proof fn lemma_last_start_wins(
    m: Map<Seq<char>, (Seq<char>, Seq<char>)>,
    first: LogRecord,
    second: LogRecord,
    comp: LogRecord,
    raw: Seq<char>,
    filter: Option<Seq<char>>,
    no_errors: bool,
)
    requires
        classify(first) == RecordClass::RequestStart,
        classify(second) == RecordClass::RequestStart,
        classify(comp) == RecordClass::RequestCompletion,
        second.req_id->0@ == first.req_id->0@,
        comp.req_id->0@ == first.req_id->0@,
    ensures
        line_output(
            step_map(step_map(m, Some(first)), Some(second)),
            Some(comp),
            raw,
            filter,
            no_errors,
        ) == matched_output(
            second.req->0.method@,
            second.req->0.url@,
            comp.status_code->0,
            opt_str_view(comp.response_time),
            err_view(comp.err),
            filter,
            no_errors,
        ),
{
}

/// Filtering touches matched completions only: for a line that is not a
/// completion with a buffered start, the output is the same under any
/// filter, and — unless the line is a request-start, which never emits
/// anything — a line is always emitted.
pub proof fn lemma_filter_only_suppresses_matched(
    m: Map<Seq<char>, (Seq<char>, Seq<char>)>,
    decoded: Option<LogRecord>,
    raw: Seq<char>,
    filter_a: Option<Seq<char>>,
    filter_b: Option<Seq<char>>,
    no_errors: bool,
)
    requires
        decoded matches Some(r) ==> (classify(r) != RecordClass::RequestCompletion
            || !m.contains_key(r.req_id->0@)),
    ensures
        line_output(m, decoded, raw, filter_a, no_errors) == line_output(
            m,
            decoded,
            raw,
            filter_b,
            no_errors,
        ),
        (decoded matches Some(r) ==> classify(r) != RecordClass::RequestStart) ==> line_output(
            m,
            decoded,
            raw,
            filter_a,
            no_errors,
        ) is Some,
{
}

/// A line that could not be decoded is echoed unchanged, and the store
/// is untouched.
pub proof fn lemma_undecodable_line_passes_through(
    m: Map<Seq<char>, (Seq<char>, Seq<char>)>,
    raw: Seq<char>,
    filter: Option<Seq<char>>,
    no_errors: bool,
)
    ensures
        line_output(m, None, raw, filter, no_errors) == Some(raw),
        step_map(m, None) == m,
{
}

} // verus!
