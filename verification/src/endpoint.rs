//! The loopback endpoint that takes telemetry and settings.
//!
//! The endpoint reads a request piece by piece. After every read `plan` says,
//! from the bytes received so far, whether more must be read or how the
//! request is answered; `reply_head` gives the answer's text.

use vstd::prelude::*;
use vstd::slice::slice_subrange;
use vstd::string::StringExecFns;
use crate::bytes::{
    ascii, bytes_eq, bytes_eq_ignore_case, eq_ignore_case, find_byte, find_first,
    first_occurrence, first_occurrence_from, index_of, lemma_first_occurrence, occurs_at,
    parse_length, parsed_length, run_end, skip_run, text_bytes,
};

verus! {

/// The method of a request, as far as the endpoint tells methods apart.
#[derive(Clone, Copy, Debug, PartialEq, Eq, Structural)]
pub enum Method {
    Options,
    Get,
    Post,
    Other,
}

/// The path of a request, as far as the endpoint tells paths apart.
#[derive(Clone, Copy, Debug, PartialEq, Eq, Structural)]
pub enum Target {
    Playback,
    Settings,
    Other,
}

/// What the header block of a request says.
#[derive(Clone, Copy, Debug, PartialEq, Eq, Structural)]
pub struct RequestHead {
    pub method: Method,
    pub target: Target,
    pub content_length: Option<usize>,
}

/// How a request is answered.
#[derive(Clone, Copy, Debug, PartialEq, Eq, Structural)]
pub enum Route {
    /// A preflight: no content.
    Preflight,
    /// A request that must carry a body and does not say how long it is.
    LengthRequired,
    /// The settings are sent back.
    ReadSettings,
    /// The body is a settings update; the resulting settings are sent back.
    WriteSettings,
    /// The body is a telemetry event.
    Playback,
    /// Anything else: a plain confirmation.
    Plain,
}

/// What to do with a connection after a read.
#[derive(Clone, Copy, Debug, PartialEq, Eq, Structural)]
pub enum Step {
    /// The request is not complete: read on.
    ReadMore,
    /// The request is answered; its body is the bytes from `body_start` to
    /// `body_end`.
    Respond { route: Route, body_start: usize, body_end: usize },
}

/// The kind of answer that is written.
#[derive(Clone, Copy, Debug, PartialEq, Eq, Structural)]
pub enum Reply {
    /// 204, for a preflight.
    NoContent,
    /// 411.
    LengthRequired,
    /// 200 with the settings as JSON, which the caller appends.
    Settings,
    /// 200 with a plain confirmation.
    Confirmed,
}

/// The empty line that ends the header block.
pub open spec fn header_break() -> Seq<u8> {
    ascii("\r\n\r\n"@)
}

/// The first line of the header block.
pub open spec fn request_line(head: Seq<u8>) -> Seq<u8> {
    head.subrange(0, index_of(head, 10, 0))
}

/// The first word of a line.
pub open spec fn first_word(line: Seq<u8>) -> Seq<u8> {
    let a = run_end(line, 0, true);
    line.subrange(a, run_end(line, a, false))
}

/// The second word of a line.
pub open spec fn second_word(line: Seq<u8>) -> Seq<u8> {
    let a = run_end(line, 0, true);
    let b = run_end(line, a, false);
    let c = run_end(line, b, true);
    line.subrange(c, run_end(line, c, false))
}

/// The method that a word names.
pub open spec fn method_of(word: Seq<u8>) -> Method {
    if word == ascii("OPTIONS"@) {
        Method::Options
    } else if word == ascii("GET"@) {
        Method::Get
    } else if word == ascii("POST"@) {
        Method::Post
    } else {
        Method::Other
    }
}

/// The path that a word names.
pub open spec fn target_of(word: Seq<u8>) -> Target {
    if word == ascii("/playback"@) {
        Target::Playback
    } else if word == ascii("/settings"@) {
        Target::Settings
    } else {
        Target::Other
    }
}

/// The length that a header line gives: the line is the name
/// `content-length`, in any case, a colon, and a length.
pub open spec fn header_length(line: Seq<u8>) -> Option<usize> {
    let colon = index_of(line, 58, 0);
    if 0 <= colon < line.len() && eq_ignore_case(
        line.subrange(0, colon),
        ascii("content-length"@),
    ) {
        parsed_length(line.subrange(colon + 1, line.len() as int))
    } else {
        None
    }
}

/// The length that the lines of `head` from index `from` on give, `found`
/// where none of them gives one: the last line that gives a length counts.
pub open spec fn content_length_from(head: Seq<u8>, from: int, found: Option<usize>) -> Option<
    usize,
>
    decreases head.len() - from,
{
    if from < 0 || from > head.len() {
        found
    } else {
        let end = index_of(head, 10, from);
        let here = header_length(head.subrange(from, end));
        let so_far = if here is Some {
            here
        } else {
            found
        };
        if end < from || end >= head.len() {
            so_far
        } else {
            content_length_from(head, end + 1, so_far)
        }
    }
}

/// What the header block `head` says.
pub open spec fn parsed_head(head: Seq<u8>) -> RequestHead {
    RequestHead {
        method: method_of(first_word(request_line(head))),
        target: target_of(second_word(request_line(head))),
        content_length: content_length_from(head, 0, None),
    }
}

/// How a request with a body of known length is answered.
pub open spec fn route_with_body(head: RequestHead) -> Route {
    match head.target {
        Target::Settings => if head.method == Method::Post {
            Route::WriteSettings
        } else {
            Route::Plain
        },
        Target::Playback => Route::Playback,
        Target::Other => Route::Plain,
    }
}

/// How a request that gives no length is answered.
pub open spec fn route_without_body(head: RequestHead) -> Route {
    if head.method == Method::Post {
        Route::LengthRequired
    } else if head.method == Method::Get && head.target == Target::Settings {
        Route::ReadSettings
    } else {
        Route::Plain
    }
}

/// What to do once the header block, which ends at index `end`, is there.
pub open spec fn planned_with_head(buf: Seq<u8>, end: int, closed: bool) -> Step {
    let head = parsed_head(buf.subrange(0, end));
    let start = end + 4;
    if head.method == Method::Options {
        Step::Respond { route: Route::Preflight, body_start: start as usize, body_end: start as usize }
    } else {
        match head.content_length {
            None => Step::Respond {
                route: route_without_body(head),
                body_start: start as usize,
                body_end: start as usize,
            },
            Some(len) => if buf.len() < start + len && !closed {
                Step::ReadMore
            } else {
                Step::Respond {
                    route: route_with_body(head),
                    body_start: start as usize,
                    body_end: if buf.len() < start + len {
                        buf.len() as usize
                    } else {
                        (start + len) as usize
                    },
                }
            },
        }
    }
}

/// What to do with a connection on which `buf` was received so far, and
/// which the peer has closed or not.
///
/// Until the empty line that ends the header block is there, more is read;
/// a connection that closes before it gets a plain confirmation. A preflight
/// is answered at once. A request that gives a length is answered once that
/// many bytes of body are there, or the connection has closed.
pub open spec fn planned(buf: Seq<u8>, closed: bool) -> Step {
    match first_occurrence(buf, header_break()) {
        None => if closed {
            Step::Respond {
                route: Route::Plain,
                body_start: buf.len() as usize,
                body_end: buf.len() as usize,
            }
        } else {
            Step::ReadMore
        },
        Some(end) => planned_with_head(buf, end, closed),
    }
}

/// The kind of answer for a route; `update_read` says whether the body of a
/// settings update could be read as one.
pub open spec fn reply_of(route: Route, update_read: bool) -> Reply {
    match route {
        Route::Preflight => Reply::NoContent,
        Route::LengthRequired => Reply::LengthRequired,
        Route::ReadSettings => Reply::Settings,
        Route::WriteSettings => if update_read {
            Reply::Settings
        } else {
            Reply::Confirmed
        },
        Route::Playback => Reply::Confirmed,
        Route::Plain => Reply::Confirmed,
    }
}

/// The status line of an answer.
pub open spec fn status_line(reply: Reply) -> Seq<char> {
    match reply {
        Reply::NoContent => "HTTP/1.1 204 No Content\r\n"@,
        Reply::LengthRequired => "HTTP/1.1 411 Length Required\r\n"@,
        Reply::Settings => "HTTP/1.1 200 OK\r\nContent-Type: application/json\r\n"@,
        Reply::Confirmed => "HTTP/1.1 200 OK\r\nContent-Type: text/plain\r\n"@,
    }
}

/// The headers that let a page of any origin call the endpoint, and the
/// empty line that ends the header block.
pub open spec fn cors_headers() -> Seq<char> {
    "Access-Control-Allow-Origin: *\r\nAccess-Control-Allow-Methods: GET, POST, OPTIONS\r\nAccess-Control-Allow-Headers: Content-Type\r\n\r\n"@
}

/// The body that the answer itself brings: the confirmation.
pub open spec fn fixed_body(reply: Reply) -> Seq<char> {
    match reply {
        Reply::Confirmed => "ok"@,
        _ => Seq::<char>::empty(),
    }
}

/// The text of an answer: status line, the cross-origin headers, and the
/// body where the answer brings its own.
pub open spec fn reply_text(reply: Reply) -> Seq<char> {
    status_line(reply) + cors_headers() + fixed_body(reply)
}

fn classify_method(word: &[u8]) -> (method: Method)
    ensures
        method == method_of(word@),
{
    proof {
        reveal_strlit("OPTIONS");
        reveal_strlit("GET");
        reveal_strlit("POST");
    }
    if bytes_eq(word, text_bytes("OPTIONS")) {
        Method::Options
    } else if bytes_eq(word, text_bytes("GET")) {
        Method::Get
    } else if bytes_eq(word, text_bytes("POST")) {
        Method::Post
    } else {
        Method::Other
    }
}

fn classify_target(word: &[u8]) -> (target: Target)
    ensures
        target == target_of(word@),
{
    proof {
        reveal_strlit("/playback");
        reveal_strlit("/settings");
    }
    if bytes_eq(word, text_bytes("/playback")) {
        Target::Playback
    } else if bytes_eq(word, text_bytes("/settings")) {
        Target::Settings
    } else {
        Target::Other
    }
}

fn line_length(line: &[u8]) -> (length: Option<usize>)
    ensures
        length == header_length(line@),
{
    let colon = find_byte(line, 58, 0);
    if colon >= line.len() {
        return None;
    }
    proof {
        reveal_strlit("content-length");
    }
    if !bytes_eq_ignore_case(slice_subrange(line, 0, colon), text_bytes("content-length")) {
        return None;
    }
    parse_length(slice_subrange(line, colon + 1, line.len()))
}

fn content_length(head: &[u8]) -> (length: Option<usize>)
    ensures
        length == content_length_from(head@, 0, None),
{
    let mut from: usize = 0;
    let mut found: Option<usize> = None;
    loop
        invariant
            from <= head@.len(),
            content_length_from(head@, 0, None) == content_length_from(head@, from as int, found),
        decreases head@.len() - from,
    {
        let end = find_byte(head, 10, from);
        let here = line_length(slice_subrange(head, from, end));
        if here.is_some() {
            found = here;
        }
        if end >= head.len() {
            return found;
        }
        from = end + 1;
    }
}

/// Reads a header block: the method and the path from its first line, and
/// the length of the body from its `content-length` lines.
pub fn parse_head(head: &[u8]) -> (parsed: RequestHead)
    ensures
        parsed == parsed_head(head@),
{
    let line = slice_subrange(head, 0, find_byte(head, 10, 0));
    let a = skip_run(line, 0, true);
    let b = skip_run(line, a, false);
    let c = skip_run(line, b, true);
    let d = skip_run(line, c, false);
    RequestHead {
        method: classify_method(slice_subrange(line, a, b)),
        target: classify_target(slice_subrange(line, c, d)),
        content_length: content_length(head),
    }
}

/// Decides what to do with a connection on which `buf` was received so far:
/// see `planned`. The body of an answered request lies within `buf`.
pub fn plan(buf: &[u8], closed: bool) -> (step: Step)
    ensures
        step == planned(buf@, closed),
        step matches Step::Respond { body_start, body_end, .. } ==> body_start <= body_end
            <= buf@.len(),
{
    proof {
        reveal_strlit("\r\n\r\n");
    }
    let pattern = text_bytes("\r\n\r\n");
    assert(pattern@.len() == 4);
    match find_first(buf, pattern) {
        None => {
            if closed {
                Step::Respond { route: Route::Plain, body_start: buf.len(), body_end: buf.len() }
            } else {
                Step::ReadMore
            }
        },
        Some(end) => {
            let head = parse_head(slice_subrange(buf, 0, end));
            let total = buf.len();
            assert(occurs_at(buf@, pattern@, end as int));
            let start: usize = end + 4;
            if head.method == Method::Options {
                return Step::Respond { route: Route::Preflight, body_start: start, body_end: start };
            }
            match head.content_length {
                None => Step::Respond {
                    route: route_without(head),
                    body_start: start,
                    body_end: start,
                },
                Some(len) => {
                    let short = len > total - start;
                    if short && !closed {
                        Step::ReadMore
                    } else {
                        Step::Respond {
                            route: route_with(head),
                            body_start: start,
                            body_end: if short {
                                buf.len()
                            } else {
                                start + len
                            },
                        }
                    }
                },
            }
        },
    }
}

fn route_with(head: RequestHead) -> (route: Route)
    ensures
        route == route_with_body(head),
{
    match head.target {
        Target::Settings => if head.method == Method::Post {
            Route::WriteSettings
        } else {
            Route::Plain
        },
        Target::Playback => Route::Playback,
        Target::Other => Route::Plain,
    }
}

fn route_without(head: RequestHead) -> (route: Route)
    ensures
        route == route_without_body(head),
{
    if head.method == Method::Post {
        Route::LengthRequired
    } else if head.method == Method::Get && head.target == Target::Settings {
        Route::ReadSettings
    } else {
        Route::Plain
    }
}

/// The kind of answer for a route: see `reply_of`.
pub fn reply_for(route: Route, update_read: bool) -> (reply: Reply)
    ensures
        reply == reply_of(route, update_read),
{
    match route {
        Route::Preflight => Reply::NoContent,
        Route::LengthRequired => Reply::LengthRequired,
        Route::ReadSettings => Reply::Settings,
        Route::WriteSettings => if update_read {
            Reply::Settings
        } else {
            Reply::Confirmed
        },
        Route::Playback => Reply::Confirmed,
        Route::Plain => Reply::Confirmed,
    }
}

/// The text of an answer, up to the settings that the caller appends to an
/// answer of the kind `Settings`.
pub fn reply_head(reply: Reply) -> (text: String)
    ensures
        text@ == reply_text(reply),
{
    let mut text = String::from_str(
        match reply {
            Reply::NoContent => "HTTP/1.1 204 No Content\r\n",
            Reply::LengthRequired => "HTTP/1.1 411 Length Required\r\n",
            Reply::Settings => "HTTP/1.1 200 OK\r\nContent-Type: application/json\r\n",
            Reply::Confirmed => "HTTP/1.1 200 OK\r\nContent-Type: text/plain\r\n",
        },
    );
    text.append(
        "Access-Control-Allow-Origin: *\r\nAccess-Control-Allow-Methods: GET, POST, OPTIONS\r\nAccess-Control-Allow-Headers: Content-Type\r\n\r\n",
    );
    match reply {
        Reply::Confirmed => {
            text.append("ok");
        },
        _ => {
            assert(text@ + Seq::<char>::empty() =~= text@);
        },
    }
    text
}

/// Where a pattern is found in a text, it is found at the same place in
/// every text that goes on from it.
proof fn lemma_first_occurrence_extends(
    text: Seq<u8>,
    extra: Seq<u8>,
    pattern: Seq<u8>,
    from: int,
)
    requires
        0 <= from,
        first_occurrence_from(text, pattern, from) is Some,
    ensures
        first_occurrence_from(text + extra, pattern, from) == first_occurrence_from(
            text,
            pattern,
            from,
        ),
    decreases text.len() - from,
{
    let longer = text + extra;
    assert(longer.subrange(from, from + pattern.len()) =~= text.subrange(
        from,
        from + pattern.len(),
    ));
    if !occurs_at(text, pattern, from) {
        lemma_first_occurrence_extends(text, extra, pattern, from + 1);
    }
}

/// A request that can be answered is settled: once `plan` answers on an open
/// connection, it gives the same answer, with the same body, whatever is
/// received after that and whether or not the peer then closes. So the
/// answer does not depend on how the request was cut into reads.
pub proof fn lemma_answered_request_is_settled(buf: Seq<u8>, extra: Seq<u8>, closed: bool)
    requires
        planned(buf, false) is Respond,
    ensures
        planned(buf + extra, closed) == planned(buf, false),
{
    let end = first_occurrence(buf, header_break())->Some_0;
    lemma_first_occurrence(buf, header_break(), 0);
    lemma_first_occurrence_extends(buf, extra, header_break(), 0);
    assert((buf + extra).subrange(0, end) =~= buf.subrange(0, end));
}

/// A preflight is answered as one whatever else the request says and
/// whatever was received before: once the header block is there and its
/// method is `OPTIONS`, the answer is the 204 with the cross-origin headers.
pub proof fn lemma_preflight_always_answered(buf: Seq<u8>, closed: bool, update_read: bool)
    requires
        first_occurrence(buf, header_break()) matches Some(end) && method_of(
            first_word(request_line(buf.subrange(0, end))),
        ) == Method::Options,
    ensures
        planned(buf, closed) matches Step::Respond { route, .. } && route == Route::Preflight
            && reply_text(reply_of(route, update_read)) == "HTTP/1.1 204 No Content\r\n"@
            + cors_headers(),
{
    assert(cors_headers() + Seq::<char>::empty() =~= cors_headers());
    assert(reply_text(Reply::NoContent) =~= "HTTP/1.1 204 No Content\r\n"@ + cors_headers());
}

} // verus!
