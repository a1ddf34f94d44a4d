//! The plain response a handler produces: a status code and a body. The
//! hosting HTTP layer turns it into a wire response.

use vstd::prelude::*;

verus! {

/// A terminal HTTP answer: status code and page body.
#[derive(Debug)]
pub struct Response {
    pub status: u16,
    pub body: String,
}

} // verus!
