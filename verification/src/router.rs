//! Ordered pattern-to-handler dispatch: the first pattern whose regular
//! expression matches the request path wins, and its capture groups go to
//! the bound handler. No match at all is the catch-all miss.

use vstd::prelude::*;

verus! {

/// Whether the pattern text compiles as a regular expression.
pub uninterp spec fn pattern_ok(pat: Seq<char>) -> bool;

/// The capture groups of the leftmost match of the pattern in the text,
/// or nothing where the pattern does not match: group 0 the whole match,
/// then one entry per group of the pattern.
pub uninterp spec fn caps_of(pat: Seq<char>, text: Seq<char>) -> Option<Seq<Seq<char>>>;

/// Relies on regex::Regex::new: whether the pattern text compiles as a
/// regular expression. A function of the pattern alone.
#[verifier::external_body]
fn pattern_compiles(pat: &str) -> (r: bool)
    ensures
        r == pattern_ok(pat@),
{
    regex::Regex::new(pat).is_ok()
}

/// Relies on regex::Regex::new and regex::Regex::captures: the capture
/// groups of the leftmost match of the pattern in the text, group 0 the
/// whole match, a group that took no part in the match the empty text.
/// Both calls are functions of the pattern and the text alone. A pattern
/// that does not compile matches nothing.
#[verifier::external_body]
fn regex_captures(pat: &str, text: &str) -> (r: Option<Vec<String>>)
    ensures
        pattern_ok(pat@) ==> match r {
            Some(caps) => caps_of(pat@, text@) == Some(caps.deep_view()),
            None => caps_of(pat@, text@) is None,
        },
        !pattern_ok(pat@) ==> r is None,
{
    let re = match regex::Regex::new(pat) {
        Ok(re) => re,
        Err(_) => { return None; },
    };
    let caps = match re.captures(text) {
        Some(caps) => caps,
        None => { return None; },
    };
    Some(caps.iter().map(|m| m.map_or(String::new(), |g| g.as_str().to_string())).collect())
}

/// Which handler a route binds. The service has one: the note handler.
#[derive(Clone, Copy, Debug, PartialEq, Eq, Structural)]
pub enum HandlerId {
    Note,
}

/// What routing a path yields: the first binding, in insertion order,
/// whose pattern matches, with its capture groups; one whose pattern does
/// not compile matches nothing (construction refuses such a table).
pub open spec fn spec_route(
    routes: Seq<(String, HandlerId)>,
    path: Seq<char>,
) -> Option<(HandlerId, Seq<Seq<char>>)>
    decreases routes.len(),
{
    if routes.len() == 0 {
        None
    } else if !pattern_ok(routes[0].0@) {
        spec_route(routes.drop_first(), path)
    } else {
        match caps_of(routes[0].0@, path) {
            Some(c) => Some((routes[0].1, c)),
            None => spec_route(routes.drop_first(), path),
        }
    }
}

/// Whether every pattern of the table compiles.
pub open spec fn all_patterns_ok(routes: Seq<(String, HandlerId)>) -> bool {
    forall|i: int| 0 <= i < routes.len() ==> #[trigger] pattern_ok(routes[i].0@)
}

/// An ordered table of (pattern, handler) bindings, compiled once at
/// startup and immutable afterwards; insertion order is priority order.
pub struct Router {
    pub routes: Vec<(String, HandlerId)>,
}

impl Router {
    /// Builds the table, refusing it whole if any pattern does not
    /// compile: a malformed pattern is a fatal configuration error, and
    /// the process must not start on it.
    pub fn new(routes: Vec<(String, HandlerId)>) -> (r: Option<Router>)
        ensures
            match r {
                Some(router) => router.routes@ == routes@ && all_patterns_ok(routes@),
                None => !all_patterns_ok(routes@),
            },
    {
        let n = routes.len();
        let mut i: usize = 0;
        while i < n
            invariant
                n == routes@.len(),
                0 <= i <= n,
                forall|j: int| 0 <= j < i ==> #[trigger] pattern_ok(routes@[j].0@),
            decreases n - i,
        {
            if !pattern_compiles(routes[i].0.as_str()) {
                return None;
            }
            i += 1;
        }
        Some(Router { routes })
    }

    /// Routes a path: the first binding whose pattern matches, with its
    /// capture groups, or nothing where no binding matches. Matching
    /// never fails at runtime; a miss is the only other outcome.
    pub fn match_path(&self, path: &str) -> (r: Option<(HandlerId, Vec<String>)>)
        ensures
            match r {
                Some((h, caps)) => spec_route(self.routes@, path@) == Some((h, caps.deep_view())),
                None => spec_route(self.routes@, path@) is None,
            },
    {
        let n = self.routes.len();
        let mut i: usize = 0;
        proof {
            assert(self.routes@.skip(0) =~= self.routes@);
        }
        while i < n
            invariant
                n == self.routes@.len(),
                0 <= i <= n,
                spec_route(self.routes@.skip(i as int), path@) == spec_route(self.routes@, path@),
            decreases n - i,
        {
            proof {
                assert(self.routes@.skip(i as int)[0] == self.routes@[i as int]);
            }
            match regex_captures(self.routes[i].0.as_str(), path) {
                Some(caps) => {
                    let h = self.routes[i].1;
                    return Some((h, caps));
                },
                None => {
                    proof {
                        assert(self.routes@.skip(i as int).drop_first()
                            =~= self.routes@.skip(i as int + 1));
                    }
                },
            }
            i += 1;
        }
        None
    }
}

} // verus!
