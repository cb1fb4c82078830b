//! The single fixed route: any path that begins with `/` is greeted, every
//! other request — an absent path included — gets an empty 404.

use vstd::prelude::*;

verus! {

/// Whether a parsed path earns the greeting: it is present and begins
/// with `/`.
pub open spec fn spec_routed(path: Option<Seq<char>>) -> bool {
    match path {
        Some(p) => p.len() > 0 && p[0] == '/',
        None => false,
    }
}

/// The status code the router answers with.
pub open spec fn spec_route_status(path: Option<Seq<char>>) -> u16 {
    if spec_routed(path) {
        200u16
    } else {
        404u16
    }
}

/// The body text the router answers with.
pub open spec fn spec_route_body(path: Option<Seq<char>>) -> Seq<char> {
    if spec_routed(path) {
        "Hello, world!"@
    } else {
        ""@
    }
}

/// Maps a parsed path to a status code and a body text. The method, the
/// query string and every other request field are ignored.
pub fn route(path: Option<&str>) -> (r: (u16, &'static str))
    ensures
        r.0 == spec_route_status(path.deep_view()),
        r.1@ == spec_route_body(path.deep_view()),
{
    broadcast use vstd::string::axiom_spec_iter, vstd::string::next_postcondition;

    match path {
        Some(p) => {
            let mut it = p.chars();
            match it.next() {
                Some(c) if c == '/' => (200, "Hello, world!"),
                _ => (404, ""),
            }
        },
        None => (404, ""),
    }
}

} // verus!
