//! Response model, polymorphic response encoding, and the assembly of the
//! outbound HTTP frame.
//!
//! A handler's outcome is turned into a [`Response`] through the
//! [`IntoResponse`] capability, and a `Response` is serialized into the
//! byte frame `HTTP/1.1 <status>\r\nContent-Type: application/json\r\n`
//! `Content-Length: <n>\r\n\r\n<body>` by [`response`], whose contract pins
//! every byte of the frame, the decimal `Content-Length` included.

use vstd::prelude::*;
use vstd::utf8::{encode_utf8, valid_utf8};
use vstd::string::StrSliceExecFns;

use crate::framing::{find_sep, frame_request, payload_of};
use crate::request::{call_ok, decoded_method, parse_request, Request};

verus! {

/// The deadline, in seconds, under which the application handler runs.
pub const HANDLER_DEADLINE_SECS: u64 = 30;

/// The three status lines the core ever produces.
#[derive(Clone, Copy, Debug, PartialEq, Eq, Structural)]
pub enum Status {
    /// `200 OK`
    Success,
    /// `400 Bad Request`
    BadRequest,
    /// `500 Internal Server Error`
    InternalError,
}

/// The bytes of the status line's text for each status.
pub open spec fn status_text(s: Status) -> Seq<u8> {
    match s {
        Status::Success => seq![50u8, 48u8, 48u8, 32u8, 79u8, 75u8],
        Status::BadRequest => seq![
            52u8, 48u8, 48u8, 32u8, 66u8, 97u8, 100u8, 32u8, 82u8, 101u8, 113u8, 117u8, 101u8, 115u8,
            116u8,
        ],
        Status::InternalError => seq![
            53u8, 48u8, 48u8, 32u8, 73u8, 110u8, 116u8, 101u8, 114u8, 110u8, 97u8, 108u8, 32u8, 83u8,
            101u8, 114u8, 118u8, 101u8, 114u8, 32u8, 69u8, 114u8, 114u8, 111u8, 114u8,
        ],
    }
}

/// An outbound response: a status line and a byte body, produced exactly
/// once per request.
#[derive(Debug, Clone, PartialEq, Eq)]
pub struct Response {
    pub status: Status,
    pub body: Vec<u8>,
}

/// A handler failure carrying a human-readable message; it encodes to an
/// `InternalError` response whose body is the message itself.
#[derive(Debug, Clone, PartialEq, Eq)]
pub struct ServerError {
    pub message: String,
}

impl ServerError {
    /// Wraps a message into a `ServerError`.
    pub fn new(message: &str) -> (r: ServerError)
        ensures
            r.message@ == message@,
    {
        ServerError { message: message.to_owned() }
    }
}

/// The capability of a handler outcome to become a `Response`.
///
/// `spec_status` and `spec_body` say which status and body the encoding
/// yields; `into_response` is bound to them exactly.
pub trait IntoResponse: Sized {
    /// The status the value encodes to.
    spec fn spec_status(&self) -> Status;

    /// The body bytes the value encodes to.
    spec fn spec_body(&self) -> Seq<u8>;

    /// Encodes the value into a `Response`.
    fn into_response(self) -> (r: Response)
        ensures
            r.status == self.spec_status(),
            r.body@ == self.spec_body(),
    ;
}

impl IntoResponse for Response {
    open spec fn spec_status(&self) -> Status {
        self.status
    }

    open spec fn spec_body(&self) -> Seq<u8> {
        self.body@
    }

    fn into_response(self) -> (r: Response) {
        self
    }
}

/// The fixed body of a bare success: `{}`.
pub open spec fn empty_object_body() -> Seq<u8> {
    seq![123u8, 125u8]
}

impl IntoResponse for () {
    open spec fn spec_status(&self) -> Status {
        Status::Success
    }

    open spec fn spec_body(&self) -> Seq<u8> {
        empty_object_body()
    }

    fn into_response(self) -> (r: Response) {
        let mut body: Vec<u8> = Vec::new();
        body.push(123u8);
        body.push(125u8);
        proof {
            assert(body@ =~= empty_object_body());
        }
        Response { status: Status::Success, body }
    }
}

impl IntoResponse for Result<Vec<u8>, ServerError> {
    open spec fn spec_status(&self) -> Status {
        match self {
            Ok(_) => Status::Success,
            Err(_) => Status::InternalError,
        }
    }

    open spec fn spec_body(&self) -> Seq<u8> {
        match self {
            Ok(payload) => payload@,
            Err(e) => encode_utf8(e.message@),
        }
    }

    fn into_response(self) -> (r: Response) {
        match self {
            Ok(payload) => Response { status: Status::Success, body: payload },
            Err(e) => Response {
                status: Status::InternalError,
                body: e.message.as_str().as_bytes_vec(),
            },
        }
    }
}

/// The decimal digits of `n`, most significant first, as ASCII bytes.
pub open spec fn dec_digits(n: nat) -> Seq<u8>
    decreases n,
{
    if n < 10 {
        seq![(48 + n) as u8]
    } else {
        dec_digits(n / 10).push((48 + n % 10) as u8)
    }
}

/// The number denoted by a sequence of ASCII decimal digits.
pub open spec fn dec_value(digits: Seq<u8>) -> nat
    decreases digits.len(),
{
    if digits.len() == 0 {
        0
    } else {
        (dec_value(digits.drop_last()) * 10 + digits.last() - 48) as nat
    }
}

/// Law: the decimal rendering of a length denotes that length, so the
/// `Content-Length` digits written into a frame match the body's byte
/// count exactly.
pub proof fn lemma_dec_digits_value(n: nat)
    ensures
        dec_value(dec_digits(n)) == n,
    decreases n,
{
    if n < 10 {
        let single = seq![(48 + n) as u8];
        assert(dec_digits(n) =~= single);
        assert(single.drop_last() =~= Seq::<u8>::empty());
        assert(single.last() == (48 + n) as u8);
        assert(dec_value(Seq::<u8>::empty()) == 0);
        assert((48 + n) as u8 == 48 + n);
        assert(dec_value(dec_digits(n)) == n);
    } else {
        lemma_dec_digits_value(n / 10);
        let prefix = dec_digits(n / 10);
        let whole = prefix.push((48 + n % 10) as u8);
        assert(whole.drop_last() =~= prefix);
        assert(whole.last() == (48 + n % 10) as u8);
        vstd::arithmetic::div_mod::lemma_fundamental_div_mod(n as int, 10);
    }
}

/// Law: a frame is one header followed by the body, and the
/// `Content-Length` digits inside the header denote exactly the body's
/// byte length.
pub proof fn lemma_frame_content_length(status: Status, body: Seq<u8>)
    ensures
        http_frame(status, body) == (frame_prefix() + status_text(status) + frame_middle()
            + dec_digits(body.len()) + frame_end()) + body,
        dec_value(dec_digits(body.len())) == body.len(),
{
    lemma_dec_digits_value(body.len());
}

/// Appends the decimal digits of `n` to `out`.
fn push_decimal(n: usize, out: &mut Vec<u8>)
    ensures
        final(out)@ == old(out)@ + dec_digits(n as nat),
    decreases n,
{
    if n < 10 {
        out.push((48 + n) as u8);
        proof {
            assert(final(out)@ =~= old(out)@ + dec_digits(n as nat));
        }
    } else {
        push_decimal(n / 10, out);
        out.push((48 + n % 10) as u8);
        proof {
            assert(final(out)@ =~= old(out)@ + dec_digits(n as nat));
        }
    }
}

/// The fixed frame opening: `HTTP/1.1 `.
pub open spec fn frame_prefix() -> Seq<u8> {
    seq![72u8, 84u8, 84u8, 80u8, 47u8, 49u8, 46u8, 49u8, 32u8]
}

/// The fixed bytes between the status line and the `Content-Length`
/// count: `\r\nContent-Type: application/json\r\nContent-Length: `.
pub open spec fn frame_middle() -> Seq<u8> {
    seq![
        13u8, 10u8, 67u8, 111u8, 110u8, 116u8, 101u8, 110u8, 116u8, 45u8, 84u8, 121u8, 112u8, 101u8,
        58u8, 32u8, 97u8, 112u8, 112u8, 108u8, 105u8, 99u8, 97u8, 116u8, 105u8, 111u8, 110u8, 47u8, 106u8,
        115u8, 111u8, 110u8, 13u8, 10u8, 67u8, 111u8, 110u8, 116u8, 101u8, 110u8, 116u8, 45u8, 76u8,
        101u8, 110u8, 103u8, 116u8, 104u8, 58u8, 32u8,
    ]
}

/// The blank line ending the header section.
pub open spec fn frame_end() -> Seq<u8> {
    seq![13u8, 10u8, 13u8, 10u8]
}

/// Every byte of the frame a `Response` serializes to.
pub open spec fn http_frame(status: Status, body: Seq<u8>) -> Seq<u8> {
    frame_prefix() + status_text(status) + frame_middle() + dec_digits(body.len()) + frame_end()
        + body
}

/// Appends the status line's text to `out`.
fn push_status_text(status: Status, out: &mut Vec<u8>)
    ensures
        final(out)@ == old(out)@ + status_text(status),
{
    match status {
        Status::Success => {
            out.push(50u8);
            out.push(48u8);
            out.push(48u8);
            out.push(32u8);
            out.push(79u8);
            out.push(75u8);
        },
        Status::BadRequest => {
            out.push(52u8);
            out.push(48u8);
            out.push(48u8);
            out.push(32u8);
            out.push(66u8);
            out.push(97u8);
            out.push(100u8);
            out.push(32u8);
            out.push(82u8);
            out.push(101u8);
            out.push(113u8);
            out.push(117u8);
            out.push(101u8);
            out.push(115u8);
            out.push(116u8);
        },
        Status::InternalError => {
            out.push(53u8);
            out.push(48u8);
            out.push(48u8);
            out.push(32u8);
            out.push(73u8);
            out.push(110u8);
            out.push(116u8);
            out.push(101u8);
            out.push(114u8);
            out.push(110u8);
            out.push(97u8);
            out.push(108u8);
            out.push(32u8);
            out.push(83u8);
            out.push(101u8);
            out.push(114u8);
            out.push(118u8);
            out.push(101u8);
            out.push(114u8);
            out.push(32u8);
            out.push(69u8);
            out.push(114u8);
            out.push(114u8);
            out.push(111u8);
            out.push(114u8);
        },
    }
    proof {
        assert(final(out)@ =~= old(out)@ + status_text(status));
    }
}

/// Appends the fixed header bytes between status line and length count.
#[verifier::rlimit(100)]
fn push_frame_middle(out: &mut Vec<u8>)
    ensures
        final(out)@ == old(out)@ + frame_middle(),
{
    out.push(13u8);
    out.push(10u8);
    out.push(67u8);
    out.push(111u8);
    out.push(110u8);
    out.push(116u8);
    out.push(101u8);
    out.push(110u8);
    out.push(116u8);
    out.push(45u8);
    out.push(84u8);
    out.push(121u8);
    out.push(112u8);
    out.push(101u8);
    out.push(58u8);
    out.push(32u8);
    out.push(97u8);
    out.push(112u8);
    out.push(112u8);
    out.push(108u8);
    out.push(105u8);
    out.push(99u8);
    out.push(97u8);
    out.push(116u8);
    out.push(105u8);
    out.push(111u8);
    out.push(110u8);
    out.push(47u8);
    out.push(106u8);
    out.push(115u8);
    out.push(111u8);
    out.push(110u8);
    out.push(13u8);
    out.push(10u8);
    out.push(67u8);
    out.push(111u8);
    out.push(110u8);
    out.push(116u8);
    out.push(101u8);
    out.push(110u8);
    out.push(116u8);
    out.push(45u8);
    out.push(76u8);
    out.push(101u8);
    out.push(110u8);
    out.push(103u8);
    out.push(116u8);
    out.push(104u8);
    out.push(58u8);
    out.push(32u8);
    proof {
        assert(final(out)@ =~= old(out)@ + frame_middle());
    }
}

/// Serializes a `Response` into its HTTP byte frame.
///
/// The result is exactly `HTTP/1.1 <status>\r\nContent-Type:
/// application/json\r\nContent-Length: <n>\r\n\r\n<body>` where `<n>` is
/// the decimal byte length of the body.
pub fn response(res: Response) -> (r: Vec<u8>)
    ensures
        r@ == http_frame(res.status, res.body@),
{
    let Response { status, mut body } = res;
    let mut out: Vec<u8> = Vec::new();
    out.push(72u8);
    out.push(84u8);
    out.push(84u8);
    out.push(80u8);
    out.push(47u8);
    out.push(49u8);
    out.push(46u8);
    out.push(49u8);
    out.push(32u8);
    proof {
        assert(out@ =~= frame_prefix());
    }
    push_status_text(status, &mut out);
    push_frame_middle(&mut out);
    push_decimal(body.len(), &mut out);
    out.push(13u8);
    out.push(10u8);
    out.push(13u8);
    out.push(10u8);
    out.append(&mut body);
    proof {
        assert(out@ =~= http_frame(res.status, res.body@));
    }
    out
}

/// The body of the response sent when the handler misses its deadline.
pub open spec fn timeout_body() -> Seq<u8> {
    seq![116u8, 105u8, 109u8, 101u8, 111u8, 117u8, 116u8]
}

/// The response sent when the handler misses its deadline.
pub fn timeout_response() -> (r: Response)
    ensures
        r.status == Status::InternalError,
        r.body@ == timeout_body(),
{
    let mut body: Vec<u8> = Vec::new();
    body.push(116u8);
    body.push(105u8);
    body.push(109u8);
    body.push(101u8);
    body.push(111u8);
    body.push(117u8);
    body.push(116u8);
    proof {
        assert(body@ =~= timeout_body());
    }
    Response { status: Status::InternalError, body }
}

/// Resolves a dispatch under the deadline: a handler outcome that arrived
/// in time is passed through unchanged, a missed deadline becomes the
/// timeout response.  The deadline shapes the response only; it never
/// ends the connection.
pub fn resolve_dispatch(outcome: Option<Response>) -> (r: Response)
    ensures
        outcome matches Some(resp) ==> r == resp,
        outcome is None ==> r.status == Status::InternalError && r.body@ == timeout_body(),
{
    match outcome {
        Some(resp) => resp,
        None => timeout_response(),
    }
}

/// What a connection does with one read chunk.
pub enum ReadOutcome {
    /// The peer closed its write side: leave the loop normally.
    Close,
    /// A soft failure: write this response and read the next request.
    Respond(Response),
    /// A decoded call, ready for dispatch to the handler.
    Dispatch(Request),
    /// The hard failure: stop this connection; others are unaffected.
    Abort,
}

/// One step of the connection machine: turns the bytes of one socket
/// read into the connection's next action.
///
/// A zero-length read is the normal close.  A chunk that is not text or
/// has no blank-line separator earns a `400 Bad Request` with an empty
/// body and leaves the connection open.  A framed payload that does not
/// decode as a call aborts the connection.  A well-formed call is handed
/// out for dispatch; exactly one response per read chunk follows in
/// every case but the two that close the connection.
pub fn handle_read(bytes: &[u8]) -> (r: ReadOutcome)
    ensures
        bytes@.len() == 0 ==> r is Close,
        bytes@.len() > 0 && !valid_utf8(bytes@) ==> (r matches ReadOutcome::Respond(resp)
            && resp.status == Status::BadRequest && resp.body@.len() == 0),
        bytes@.len() > 0 && valid_utf8(bytes@) && find_sep(bytes@) is None ==> (r matches
            ReadOutcome::Respond(resp) && resp.status == Status::BadRequest && resp.body@.len()
            == 0),
        bytes@.len() > 0 && valid_utf8(bytes@) && find_sep(bytes@) is Some && !call_ok(
            payload_of(bytes@),
        ) ==> r is Abort,
        bytes@.len() > 0 && valid_utf8(bytes@) && find_sep(bytes@) is Some && call_ok(
            payload_of(bytes@),
        ) ==> (r matches ReadOutcome::Dispatch(req) && Some(req.method@) == decoded_method(
            payload_of(bytes@),
        )),
{
    if bytes.len() == 0 {
        return ReadOutcome::Close;
    }
    match frame_request(bytes) {
        Err(_) => ReadOutcome::Respond(
            Response { status: Status::BadRequest, body: Vec::new() },
        ),
        Ok(payload) => match parse_request(payload.as_slice()) {
            Err(_) => ReadOutcome::Abort,
            Ok(req) => ReadOutcome::Dispatch(req),
        },
    }
}

} // verus!
