//! The note handler: turns a routed request into either a terminal
//! status or the data the hosting layer must fetch next (the note file
//! for GET, the request body for POST), and turns what was fetched into
//! the response. The write path of POST is a stub: it validates the
//! multipart header and buffers the body, but persists nothing.

use vstd::prelude::*;
use crate::date::{Date, date_str, spec_has_neighbors, spec_next, spec_parse, spec_previous};
use crate::note::{NoteError, ReadOutcome, note_text, spec_note_content};
use crate::response::Response;
use crate::router::{HandlerId, Router, spec_route};

verus! {

/// Whether `p` is a prefix of `t`.
pub open spec fn has_prefix(t: Seq<char>, p: Seq<char>) -> bool {
    p.len() <= t.len() && t.subrange(0, p.len() as int) == p
}

/// The text after the prefix, where the text starts with it.
pub fn consume_prefix<'t>(text: &'t str, prefix: &str) -> (r: Option<&'t str>)
    ensures
        r is Some <==> has_prefix(text@, prefix@),
        r matches Some(rest) ==> rest@ == text@.subrange(prefix@.len() as int, text@.len() as int),
{
    let n = text.unicode_len();
    let p = prefix.unicode_len();
    if p > n {
        return None;
    }
    let mut i: usize = 0;
    while i < p
        invariant
            0 <= i <= p,
            p <= n,
            n == text@.len(),
            p == prefix@.len(),
            forall|j: int| 0 <= j < i ==> text@[j] == prefix@[j],
        decreases p - i,
    {
        if text.get_char(i) != prefix.get_char(i) {
            proof {
                assert(text@.subrange(0, p as int)[i as int] != prefix@[i as int]);
            }
            return None;
        }
        i += 1;
    }
    proof {
        assert(text@.subrange(0, p as int) =~= prefix@);
    }
    Some(text.substring_char(p, n))
}

/// A request header as the handler sees it: absent, present but not
/// readable as text, or its text.
#[derive(Debug)]
pub enum HeaderText {
    Missing,
    NotText,
    Text(String),
}

/// The Content-Type value that a multipart form submission must carry,
/// up to the boundary token.
pub open spec fn ct_prefix() -> Seq<char> {
    "multipart/form-data; boundary="@
}

/// The effective multipart delimiter from a Content-Type header: `--`
/// followed by the boundary token. Nothing where the header is missing,
/// not text, or not a multipart form-data type: those are client errors.
pub fn post_boundary(header: &HeaderText) -> (r: Option<String>)
    ensures
        match header {
            HeaderText::Text(v) => {
                if has_prefix(v@, ct_prefix()) {
                    r matches Some(b)
                        && b@ == "--"@ + v@.subrange(ct_prefix().len() as int, v@.len() as int)
                } else {
                    r is None
                }
            },
            _ => r is None,
        },
{
    match header {
        HeaderText::Text(v) => {
            match consume_prefix(v.as_str(), "multipart/form-data; boundary=") {
                Some(token) => {
                    let mut b = String::from_str("--");
                    b.append(token);
                    Some(b)
                },
                None => None,
            }
        },
        _ => None,
    }
}

/// The request method as the handler distinguishes it.
#[derive(Clone, Copy, Debug, PartialEq, Eq, Structural)]
pub enum Method {
    Get,
    Post,
    Other,
}

/// What a routed request needs next: a terminal status answered through
/// the error presenter, the note read of a GET, or the body read of a
/// POST (with the effective multipart delimiter already built).
#[derive(Debug)]
pub enum Plan {
    Respond(u16),
    GetNote { date: Date },
    PostNote { date: Date, boundary: String },
}

/// Routes and validates a request up to its first outside read.
/// An unmatched path is the catch-all 404; a matched note route with a
/// malformed or impossible date is a 400; a POST without a well-formed
/// multipart Content-Type is a 400; a method other than GET or POST on
/// the note route, like a route that yielded no date capture, is a 500.
pub fn plan_request(
    router: &Router,
    method: &Method,
    path: &str,
    content_type: &HeaderText,
) -> (r: Plan)
    ensures
        match spec_route(router.routes@, path@) {
            None => r == Plan::Respond(404u16),
            Some((h, caps)) => {
                if caps.len() < 2 {
                    r == Plan::Respond(500u16)
                } else {
                    match spec_parse(caps[1]) {
                        None => r == Plan::Respond(400u16),
                        Some(ymd) => match method {
                            Method::Get => r matches Plan::GetNote { date }
                                && date.valid() && date.ymd() == ymd,
                            Method::Post => match content_type {
                                HeaderText::Text(v) => {
                                    if has_prefix(v@, ct_prefix()) {
                                        r matches Plan::PostNote { date, boundary }
                                            && date.valid() && date.ymd() == ymd
                                            && boundary@ == "--"@ + v@.subrange(
                                                ct_prefix().len() as int, v@.len() as int)
                                    } else {
                                        r == Plan::Respond(400u16)
                                    }
                                },
                                _ => r == Plan::Respond(400u16),
                            },
                            Method::Other => r == Plan::Respond(500u16),
                        },
                    }
                }
            },
        },
{
    match router.match_path(path) {
        None => Plan::Respond(404),
        Some((_h, caps)) => {
            if caps.len() < 2 {
                return Plan::Respond(500);
            }
            proof {
                assert(caps.deep_view()[1] == caps@[1]@);
                assert(caps.deep_view().len() == caps@.len());
            }
            match Date::parse(caps[1].as_str()) {
                Err(_) => Plan::Respond(400),
                Ok(date) => match method {
                    Method::Get => Plan::GetNote { date },
                    Method::Post => match post_boundary(content_type) {
                        Some(boundary) => Plan::PostNote { date, boundary },
                        None => Plan::Respond(400),
                    },
                    Method::Other => Plan::Respond(500),
                },
            }
        },
    }
}

/// A server-side fault while preparing the note page; every one aborts
/// the request with status 500.
#[derive(Clone, Copy, Debug, PartialEq, Eq, Structural)]
pub enum GetFault {
    OutOfRange,
    Io,
    Corrupt,
}

/// The render context of the note page: the requested date, today's date
/// (display only), the previous and next dates for navigation, and the
/// note's logical content, empty where no note was ever written. Faults:
/// a date whose neighbor falls off the canonical form, a failed read, or
/// persisted text without its trailing newline.
pub fn get_note_context(date: &Date, today: &Date, read: ReadOutcome) -> (r: Result<
    Vec<(String, String)>,
    GetFault,
>)
    requires
        date.valid(),
        today.valid(),
    ensures
        match r {
            Ok(ctx) => {
                &&& spec_has_neighbors(*date)
                &&& ctx@.len() == 5
                &&& ctx@[0].0@ == "today"@
                &&& ctx@[0].1@ == date_str(today.year as int, today.month as int, today.day as int)
                &&& ctx@[1].0@ == "date"@
                &&& ctx@[1].1@ == date_str(date.year as int, date.month as int, date.day as int)
                &&& ctx@[2].0@ == "prev"@
                &&& ctx@[2].1@ == date_str(
                    spec_previous(date.year as int, date.month as int, date.day as int).0,
                    spec_previous(date.year as int, date.month as int, date.day as int).1,
                    spec_previous(date.year as int, date.month as int, date.day as int).2,
                )
                &&& ctx@[3].0@ == "next"@
                &&& ctx@[3].1@ == date_str(
                    spec_next(date.year as int, date.month as int, date.day as int).0,
                    spec_next(date.year as int, date.month as int, date.day as int).1,
                    spec_next(date.year as int, date.month as int, date.day as int).2,
                )
                &&& ctx@[4].0@ == "text"@
                &&& spec_note_content(read) == Some(ctx@[4].1@)
            },
            Err(GetFault::OutOfRange) => !spec_has_neighbors(*date),
            Err(GetFault::Io) => spec_has_neighbors(*date) && read matches ReadOutcome::Failure,
            Err(GetFault::Corrupt) => spec_has_neighbors(*date)
                && spec_note_content(read) is None
                && !(read matches ReadOutcome::Failure),
        },
{
    if !date.has_neighbors() {
        return Err(GetFault::OutOfRange);
    }
    let text = match note_text(read) {
        Ok(t) => t,
        Err(NoteError::Io) => { return Err(GetFault::Io); },
        Err(NoteError::Corrupt) => { return Err(GetFault::Corrupt); },
    };
    let prev = date.previous();
    let next = date.next();
    let mut ctx: Vec<(String, String)> = Vec::new();
    ctx.push((String::from_str("today"), today.format()));
    ctx.push((String::from_str("date"), date.format()));
    ctx.push((String::from_str("prev"), prev.format()));
    ctx.push((String::from_str("next"), next.format()));
    ctx.push((String::from_str("text"), text));
    Ok(ctx)
}

/// The GET response from what the template renderer made of the note
/// context: a rendered body answers 200; a render failure hands status
/// 500 to the error presenter.
pub fn note_page_outcome(rendered: Option<String>) -> (r: Result<Response, u16>)
    ensures
        match rendered {
            Some(b) => r matches Ok(resp) && resp.status == 200 && resp.body@ == b@,
            None => r == Err::<Response, u16>(500u16),
        },
{
    match rendered {
        Some(b) => Ok(Response { status: 200, body: b }),
        None => Err(500),
    }
}

/// The end of the POST stub, after the whole request body was buffered:
/// a failed body read is a server error, and persisting the parsed
/// fields is not implemented, so every outcome hands status 500 to the
/// error presenter. Callers must not assume the write path works.
pub fn post_outcome(body: Option<Vec<u8>>) -> (r: u16)
    ensures
        r == 500,
{
    match body {
        None => 500,
        Some(_) => 500,
    }
}

/// The route table of the service: the note route, whose one capture
/// group is the date text of the request path.
pub fn note_routes() -> (r: Vec<(String, HandlerId)>)
    ensures
        r@.len() == 1,
        r@[0].0@ == "/note/([0-9]{4}-[0-9]{2}-[0-9]{2})"@,
        r@[0].1 == HandlerId::Note,
{
    let mut v: Vec<(String, HandlerId)> = Vec::new();
    v.push((String::from_str("/note/([0-9]{4}-[0-9]{2}-[0-9]{2})"), HandlerId::Note));
    v
}

/// The template of the note page.
pub fn note_template() -> (r: &'static str)
    ensures
        r@ == "tmpl/note.html"@,
{
    "tmpl/note.html"
}

/// The template of the error page.
pub fn error_template() -> (r: &'static str)
    ensures
        r@ == "tmpl/top.html"@,
{
    "tmpl/top.html"
}

} // verus!
