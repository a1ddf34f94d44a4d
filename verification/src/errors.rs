//! The error presenter: a status-coded error page rendered through the
//! external template engine, with a hardcoded, dependency-free fallback
//! that can never itself fail.

use vstd::prelude::*;
use crate::date::{digit_str, spec_digit_char};
use crate::response::Response;

verus! {

/// The decimal text of `n` (meaningful for `n >= 0`).
pub open spec fn dec_rep(n: int) -> Seq<char>
    decreases n,
{
    if n < 10 {
        seq![spec_digit_char(n)]
    } else {
        dec_rep(n / 10).push(spec_digit_char(n % 10))
    }
}

/// Writes `n` in decimal.
pub fn u16_to_string(n: u16) -> (r: String)
    ensures
        r@ == dec_rep(n as int),
    decreases n,
{
    if n < 10 {
        digit_str(n as u8).to_owned()
    } else {
        let mut s = u16_to_string(n / 10);
        s.append(digit_str((n % 10) as u8));
        proof {
            assert(s@ =~= dec_rep(n as int));
        }
        s
    }
}

/// The render context of the error page for `status`: a title naming the
/// code, an empty style, and a body with a human-readable error heading.
pub fn error_context(status: u16) -> (r: Vec<(String, String)>)
    ensures
        r@.len() == 3,
        r@[0].0@ == "title"@,
        r@[0].1@ == "Error ("@ + dec_rep(status as int) + ")"@,
        r@[1].0@ == "style"@,
        r@[1].1@ == Seq::<char>::empty(),
        r@[2].0@ == "body"@,
        r@[2].1@ == "<h1>Error: HTTP "@ + dec_rep(status as int) + "</h1>"@,
{
    let code = u16_to_string(status);
    let mut title = String::from_str("Error (");
    title.append(code.as_str());
    title.append(")");
    let mut body = String::from_str("<h1>Error: HTTP ");
    body.append(code.as_str());
    body.append("</h1>");
    let mut ctx: Vec<(String, String)> = Vec::new();
    ctx.push((String::from_str("title"), title));
    ctx.push((String::from_str("style"), String::new()));
    ctx.push((String::from_str("body"), body));
    ctx
}

/// The hardcoded, self-contained error page used when the template
/// renderer itself fails.
pub open spec fn fallback_html() -> Seq<char> {
    "<!DOCTYPE html><html lang=en><head><meta charset=utf-8><title>Server error while generating error page</title></head><body><h1>Server error while generating error page</h1></body></html>"@
}

/// The last line of defense: a response built without any dependency,
/// always with status 500.
pub fn fallback_page() -> (r: Response)
    ensures
        r.status == 500,
        r.body@ == fallback_html(),
{
    Response {
        status: 500,
        body: String::from_str(
            "<!DOCTYPE html><html lang=en><head><meta charset=utf-8><title>Server error while generating error page</title></head><body><h1>Server error while generating error page</h1></body></html>",
        ),
    }
}

/// The error response for `status`, given what the template renderer made
/// of the error context. A rendered body answers with the requested
/// status; a render failure answers with the fixed fallback page, whose
/// status is 500 whatever status was asked for.
pub fn error_page_outcome(status: u16, rendered: Option<String>) -> (r: Response)
    ensures
        match rendered {
            Some(b) => r.status == status && r.body@ == b@,
            None => r.status == 500 && r.body@ == fallback_html(),
        },
{
    match rendered {
        Some(b) => Response { status, body: b },
        None => fallback_page(),
    }
}

} // verus!
