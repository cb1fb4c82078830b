//! Serialisation of a status code and a body text into one complete,
//! self-contained HTTP/1.1 message: status line, four fixed headers, a blank
//! line, the body and a trailing CRLF.

use vstd::prelude::*;

verus! {

use vstd::string::StringSliceAdditionalSpecFns;

/// The decimal digits of `n`, most significant first, as ASCII bytes.
pub open spec fn spec_decimal(n: nat) -> Seq<u8>
    decreases n,
{
    if n < 10 {
        seq![(48 + n) as u8]
    } else {
        spec_decimal(n / 10).push((48 + n % 10) as u8)
    }
}

/// The exact bytes of the message that carries `body` under status `code`.
/// The declared length counts the body plus the CRLF appended after it, and
/// one further CRLF separates the header block from that tail.
pub open spec fn spec_response(body: Seq<u8>, code: u16) -> Seq<u8> {
    "HTTP/1.1 ".spec_bytes() + spec_decimal(code as nat) + "\r\nContent-Length: ".spec_bytes()
        + spec_decimal((body.len() + 2) as nat)
        + "\r\nContent-Type: text/plain; charset=utf-8\r\nConnection: close\r\n\r\n\r\n".spec_bytes()
        + body + "\r\n".spec_bytes()
}

fn decimal_bytes(n: u64) -> (r: Vec<u8>)
    ensures
        r@ == spec_decimal(n as nat),
    decreases n,
{
    if n < 10 {
        let mut v: Vec<u8> = Vec::new();
        v.push(48 + n as u8);
        v
    } else {
        let mut v = decimal_bytes(n / 10);
        v.push(48 + (n % 10) as u8);
        v
    }
}

fn append_slice(out: &mut Vec<u8>, s: &[u8])
    ensures
        final(out)@ == old(out)@ + s@,
{
    let mut i: usize = 0;
    while i < s.len()
        invariant
            i <= s@.len(),
            out@ == old(out)@ + s@.subrange(0, i as int),
        decreases s@.len() - i,
    {
        out.push(s[i]);
        assert(s@.subrange(0, i as int + 1) == s@.subrange(0, i as int).push(s@[i as int]));
        i = i + 1;
    }
    assert(s@.subrange(0, s@.len() as int) == s@);
}

/// One complete HTTP message, built once, written once.
pub struct Response {
    bytes: Vec<u8>,
}

impl View for Response {
    type V = Seq<u8>;

    closed spec fn view(&self) -> Seq<u8> {
        self.bytes@
    }
}

impl Response {
    /// Serialises `text` under status `code`, exactly as `spec_response`
    /// lays the bytes out.
    pub fn text(text: &str, code: u16) -> (r: Self)
        requires
            text.spec_bytes().len() + 2 <= usize::MAX,
        ensures
            r@ == spec_response(text.spec_bytes(), code),
    {
        let text_bytes: &[u8] = text.as_bytes();
        let content_length: usize = text_bytes.len() + 2;
        let code_digits: Vec<u8> = decimal_bytes(code as u64);
        let length_digits: Vec<u8> = decimal_bytes(content_length as u64);
        let mut out: Vec<u8> = Vec::new();
        append_slice(&mut out, "HTTP/1.1 ".as_bytes());
        append_slice(&mut out, code_digits.as_slice());
        append_slice(&mut out, "\r\nContent-Length: ".as_bytes());
        append_slice(&mut out, length_digits.as_slice());
        append_slice(
            &mut out,
            "\r\nContent-Type: text/plain; charset=utf-8\r\nConnection: close\r\n\r\n\r\n".as_bytes(),
        );
        append_slice(&mut out, text_bytes);
        append_slice(&mut out, "\r\n".as_bytes());
        assert(out@ =~= spec_response(text.spec_bytes(), code));
        Response { bytes: out }
    }

    /// A message with an empty body: nothing but the status line, the four
    /// headers and the blank tail.
    pub fn status(code: u16) -> (r: Self)
        ensures
            r@ == spec_response(Seq::<u8>::empty(), code),
    {
        proof {
            lemma_empty_text_bytes();
        }
        Self::text("", code)
    }

    /// The serialised message, ready for a single write.
    pub fn as_bytes(&self) -> (r: &[u8])
        ensures
            r@ == self@,
    {
        self.bytes.as_slice()
    }
}

/// An empty body text serialises from no bytes at all, so a status-only
/// message is byte-identical to the full builder's output for `""`.
pub proof fn lemma_empty_text_bytes()
    ensures
        "".spec_bytes() == Seq::<u8>::empty(),
{
    reveal_strlit("");
    assert(""@ =~= Seq::<char>::empty());
    assert("".spec_bytes() =~= Seq::<u8>::empty());
}

/// A status-only message and the full builder's output for an empty body are
/// byte-identical, whatever the status code.
pub proof fn lemma_status_matches_empty_text(code: u16)
    ensures
        spec_response("".spec_bytes(), code) == spec_response(Seq::<u8>::empty(), code),
{
    lemma_empty_text_bytes();
}

} // verus!
