//! The per-connection pipeline after one read: one strict parse attempt over
//! the buffered bytes, one dispatch through the router, and at most one reply.

use vstd::prelude::*;

verus! {

use crate::response::{Response, spec_response};
use crate::router::{route, spec_route_status, spec_route_body};

/// Outcome of one parse attempt over the bytes of a single read.
pub enum Head {
    /// The head arrived whole; the request line carried this path, if any.
    Complete { path: Option<String> },
    /// Too few bytes to decide; by design no further read follows.
    Partial,
    /// The bytes do not form a valid head, a 33rd header included.
    Malformed,
}

/// A parse outcome with its path as a character sequence.
pub enum HeadView {
    Complete { path: Option<Seq<char>> },
    Partial,
    Malformed,
}

impl View for Head {
    type V = HeadView;

    open spec fn view(&self) -> HeadView {
        match self {
            Head::Complete { path } => HeadView::Complete { path: path.deep_view() },
            Head::Partial => HeadView::Partial,
            Head::Malformed => HeadView::Malformed,
        }
    }
}

/// What one strict parse of a request head yields for given buffer bytes.
pub uninterp spec fn spec_parse_head(bytes: Seq<u8>) -> HeadView;

/// Relies on httparse::Request::parse with 32 header slots: a complete head
/// hands back its path, a head that needs more bytes is reported as partial,
/// and anything else — a 33rd header included — is a parse error. The outcome
/// is a function of the buffer bytes alone.
#[verifier::external_body]
pub(crate) fn parse_head(buf: &[u8]) -> (r: Head)
    ensures
        r@ == spec_parse_head(buf@),
{
    let mut headers = [httparse::EMPTY_HEADER; 32];
    let mut request = httparse::Request::new(&mut headers);
    match request.parse(buf) {
        Ok(httparse::Status::Complete(_)) => Head::Complete {
            path: request.path.map(str::to_string),
        },
        Ok(httparse::Status::Partial) => Head::Partial,
        Err(_) => Head::Malformed,
    }
}

/// The bytes owed back for one parse outcome: the routed message for a
/// complete head, the bare 400 message for a malformed one, and nothing at
/// all for a head that never fully arrived.
pub open spec fn spec_reply(h: HeadView) -> Option<Seq<u8>> {
    match h {
        HeadView::Complete { path } => Some(
            spec_response(vstd::utf8::encode_utf8(spec_route_body(path)), spec_route_status(path)),
        ),
        HeadView::Partial => None,
        HeadView::Malformed => Some(spec_response(Seq::<u8>::empty(), 400)),
    }
}

/// The bytes a built reply would put on the wire, if there is one.
pub open spec fn spec_reply_of(r: Option<Response>) -> Option<Seq<u8>> {
    match r {
        Some(resp) => Some(resp@),
        None => None,
    }
}

/// Builds the one reply owed for a parse outcome: a complete head is
/// dispatched to the router, a malformed one gets the empty 400, a partial
/// one gets nothing.
pub fn respond(head: &Head) -> (r: Option<Response>)
    ensures
        spec_reply_of(r) == spec_reply(head@),
{
    match head {
        Head::Complete { path } => {
            let routed: (u16, &'static str) = match path {
                Some(p) => route(Some(p.as_str())),
                None => route(None),
            };
            proof {
                lemma_route_body_fits(path.deep_view());
            }
            Some(Response::text(routed.1, routed.0))
        },
        Head::Partial => None,
        Head::Malformed => Some(Response::status(400)),
    }
}

/// Both texts the router can answer with serialise to far fewer bytes than a
/// length header could ever overflow on.
proof fn lemma_route_body_fits(path: Option<Seq<char>>)
    ensures
        vstd::utf8::encode_utf8(spec_route_body(path)).len() <= 13,
{
    reveal_strlit("Hello, world!");
    reveal_strlit("");
    assert(vstd::utf8::is_ascii_chars("Hello, world!"@));
    vstd::utf8::is_ascii_chars_encode_utf8("Hello, world!"@);
    assert(vstd::utf8::is_ascii_chars(""@));
    vstd::utf8::is_ascii_chars_encode_utf8(""@);
}

/// One read's worth of bytes in, at most one reply out: the whole
/// per-connection decision, as a function of the buffer alone.
pub fn handle_buffer(buf: &[u8]) -> (r: Option<Response>)
    ensures
        spec_reply_of(r) == spec_reply(spec_parse_head(buf@)),
        spec_parse_head(buf@) is Complete ==> r is Some,
        spec_parse_head(buf@) is Partial <==> r is None,
        spec_parse_head(buf@) is Malformed ==> spec_reply_of(r) == Some(
            spec_response(Seq::<u8>::empty(), 400),
        ),
{
    let head = parse_head(buf);
    respond(&head)
}

} // verus!
