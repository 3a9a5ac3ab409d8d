//! The renderer: the exact text emitted for a matched request/completion
//! pair, for a bare error record, and for a generic record. Every
//! function's contract states the output characters in full.

use vstd::prelude::*;
use vstd::string::StringExecFns;
use crate::color::SemanticColor;
use crate::color::colorize_status_code;
use crate::color::colorized_status;
use crate::color::fg_escape;
use crate::color::fg_seq;
use crate::color::reset_escape;
use crate::color::reset_seq;
use crate::filter::filter_matches;
use crate::filter::filter_status_code;
use crate::filter::is_wildcard;
use crate::record::ErrorInfo;
use crate::record::RequestInfo;
use crate::record::err_view;
use crate::record::opt_str_view;

verus! {

/// The timing column: the rendered milliseconds with a `ms` suffix, or
/// the literal token `N/A` when no timing was observed.
pub open spec fn time_text(t: Option<Seq<char>>) -> Seq<char> {
    match t {
        Some(s) => s + "ms"@,
        None => "N/A"@,
    }
}

/// The `[name] ` prefix put before an error message, when the record
/// names its logger.
pub open spec fn name_prefix(name: Option<Seq<char>>) -> Seq<char> {
    match name {
        Some(n) => "["@ + n + "] "@,
        None => Seq::<char>::empty(),
    }
}

/// An error rendering: the (optionally prefixed) message in red, then
/// the raw stack-trace text on its own line, unmodified.
pub open spec fn error_block(name: Option<Seq<char>>, message: Seq<char>, stack: Seq<char>) -> Seq<
    char,
> {
    fg_seq(SemanticColor::Red) + name_prefix(name) + message + reset_seq() + "\n"@ + stack
}

/// The status line for a matched pair: colorized status code, method,
/// URL and timing, separated by single spaces.
pub open spec fn matched_line(
    method: Seq<char>,
    url: Seq<char>,
    code: u16,
    t: Option<Seq<char>>,
) -> Seq<char> {
    colorized_status(code) + " "@ + method + " "@ + url + " "@ + time_text(t)
}

/// Everything emitted for a matched pair: nothing at all when a filter
/// is set and the status code does not pass it; otherwise the status
/// line, followed — when the completion carries an error facet and
/// error detail is not suppressed — by the error message in red and the
/// raw stack trace.
pub open spec fn matched_output(
    method: Seq<char>,
    url: Seq<char>,
    code: u16,
    t: Option<Seq<char>>,
    err: Option<(Seq<char>, Seq<char>)>,
    filter: Option<Seq<char>>,
    no_errors: bool,
) -> Option<Seq<char>> {
    if filter is Some && !filter_matches(code, filter->0) {
        None
    } else if err is Some && !no_errors {
        Some(
            matched_line(method, url, code, t) + "\n"@ + error_block(
                None,
                (err->0).0,
                (err->0).1,
            ),
        )
    } else {
        Some(matched_line(method, url, code, t))
    }
}

/// Renders a matched pair, or nothing when the status code is filtered
/// out.
pub fn render_matched(
    request: &RequestInfo,
    status_code: u16,
    response_time: &Option<String>,
    err: &Option<ErrorInfo>,
    filter: &Option<String>,
    no_errors: bool,
) -> (o: Option<String>)
    requires
        filter is Some ==> filter->0@.len() == 3,
    ensures
        opt_str_view(o) == matched_output(
            request.method@,
            request.url@,
            status_code,
            opt_str_view(*response_time),
            err_view(*err),
            opt_str_view(*filter),
            no_errors,
        ),
{
    let allowed: bool = match filter {
        None => true,
        Some(f) => {
            if 100 <= status_code && status_code <= 999 {
                filter_status_code(status_code, f.as_str())
            } else {
                is_wildcard(f.as_str())
            }
        },
    };
    if !allowed {
        return None;
    }
    let mut line = colorize_status_code(status_code);
    line.append(" ");
    line.append(request.method.as_str());
    line.append(" ");
    line.append(request.url.as_str());
    line.append(" ");
    match response_time {
        Some(t) => {
            line.append(t.as_str());
            line.append("ms");
        },
        None => {
            line.append("N/A");
        },
    }
    proof {
        assert(line@ =~= matched_line(
            request.method@,
            request.url@,
            status_code,
            opt_str_view(*response_time),
        ));
    }
    if let Some(e) = err {
        if !no_errors {
            line.append("\n");
            let no_name: Option<String> = None;
            let block = render_error(&no_name, e);
            line.append(block.as_str());
        }
    }
    proof {
        assert(Some(line@) =~= matched_output(
            request.method@,
            request.url@,
            status_code,
            opt_str_view(*response_time),
            err_view(*err),
            opt_str_view(*filter),
            no_errors,
        ));
    }
    Some(line)
}

/// Renders a bare error record: the message in red, with a `[name] `
/// prefix when the record names its logger, then the raw stack trace.
pub fn render_error(name: &Option<String>, err: &ErrorInfo) -> (s: String)
    ensures
        s@ == error_block(opt_str_view(*name), err.message@, err.stack@),
{
    let mut s = fg_escape(SemanticColor::Red);
    if let Some(n) = name {
        s.append("[");
        s.append(n.as_str());
        s.append("] ");
    }
    s.append(err.message.as_str());
    s.append(reset_escape().as_str());
    s.append("\n");
    s.append(err.stack.as_str());
    proof {
        assert(s@ =~= error_block(opt_str_view(*name), err.message@, err.stack@));
    }
    s
}

/// Renders a generic record: its message when it has one, else the raw
/// input line unchanged.
pub fn render_generic(msg: Option<String>, raw_line: &str) -> (s: String)
    ensures
        s@ == match opt_str_view(msg) {
            Some(m) => m,
            None => raw_line@,
        },
{
    match msg {
        Some(m) => m,
        None => String::from_str(raw_line),
    }
}

} // verus!
