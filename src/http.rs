//! The single-request HTTP surface: routing a request line and building the
//! responses of the latest-frame, status and liveness endpoints.

use vstd::prelude::*;

use crate::store::FrameSnapshot;
use crate::wire::{decimal, hex_digits, push_decimal, push_hex, push_text, text};

verus! {

/// Body of the answer when no frame is available.
pub const NOT_READY_BODY: &'static str = "frame not ready\n";

/// Body of the liveness answer.
pub const ALIVE_BODY: &'static str = "OK\n";

/// Body of the answer to an unknown path.
pub const NOT_FOUND_BODY: &'static str = "not found\n";

/// The endpoints.
#[derive(Clone, Copy, Debug, PartialEq, Eq, Structural)]
pub enum Route {
    /// `GET /`: liveness.
    Root,
    /// `GET /frame.jpg`: the latest frame.
    Frame,
    /// `GET /status`: counters of the capture side.
    Status,
    /// `GET /stream`: the continuous multipart stream.
    Stream,
    /// Anything else.
    NotFound,
}

/// Response status codes.
#[derive(Clone, Copy, Debug, PartialEq, Eq, Structural)]
pub enum StatusCode {
    Success,
    NotFound,
    ServiceUnavailable,
}

/// Body types.
#[derive(Clone, Copy, Debug, PartialEq, Eq, Structural)]
pub enum ContentType {
    Jpeg,
    PlainText,
}

/// A response: status, body type and body.
#[derive(Debug)]
pub struct HttpResponse {
    pub status: StatusCode,
    pub content_type: ContentType,
    pub body: Vec<u8>,
}

/// The status line of a response, with its line break.
pub open spec fn status_line(s: StatusCode) -> Seq<u8> {
    match s {
        StatusCode::Success => text("HTTP/1.1 200 OK\r\n"),
        StatusCode::NotFound => text("HTTP/1.1 404 Not Found\r\n"),
        StatusCode::ServiceUnavailable => text("HTTP/1.1 503 Service Unavailable\r\n"),
    }
}

/// The media type named in `Content-Type`.
pub open spec fn media_type(c: ContentType) -> Seq<u8> {
    match c {
        ContentType::Jpeg => text("image/jpeg"),
        ContentType::PlainText => text("text/plain"),
    }
}

/// The head of a response whose body has `len` bytes.
pub open spec fn response_head(s: StatusCode, c: ContentType, len: nat) -> Seq<u8> {
    status_line(s) + text("Content-Type: ") + media_type(c) + text("\r\nContent-Length: ")
        + decimal(len) + text("\r\nConnection: close\r\n\r\n")
}

/// The body of the status endpoint.
pub open spec fn status_text(frames: u64, snap: FrameSnapshot) -> Seq<u8> {
    text("frames=") + decimal(frames as nat) + text(" start=") + decimal(snap.start as nat)
        + text(" last_len=") + decimal(snap.len as nat) + text(" checksum=0x") + hex_digits(
        snap.fingerprint as nat,
        8,
    )
}

/// `req` starts with the request line of `GET <path>`.
pub open spec fn requests(req: Seq<u8>, path: &str) -> bool {
    let p = text("GET ") + text(path) + text(" ");
    p.len() <= req.len() && req.subrange(0, p.len() as int) == p
}

/// The endpoint that a request asks for.
pub open spec fn route_of(req: Seq<u8>) -> Route {
    if requests(req, "/") {
        Route::Root
    } else if requests(req, "/frame.jpg") {
        Route::Frame
    } else if requests(req, "/status") {
        Route::Status
    } else if requests(req, "/stream") {
        Route::Stream
    } else {
        Route::NotFound
    }
}

/// `req` starts with `prefix`.
fn starts_with(req: &[u8], prefix: &Vec<u8>) -> (r: bool)
    ensures
        r == (prefix@.len() <= req@.len() && req@.subrange(0, prefix@.len() as int) == prefix@),
{
    if prefix.len() > req.len() {
        return false;
    }
    let mut i: usize = 0;
    while i < prefix.len()
        invariant
            prefix@.len() <= req@.len(),
            i <= prefix@.len(),
            req@.subrange(0, i as int) == prefix@.subrange(0, i as int),
        decreases prefix@.len() - i,
    {
        if req[i] != prefix[i] {
            assert(req@.subrange(0, prefix@.len() as int)[i as int] != prefix@[i as int]);
            return false;
        }
        assert(req@.subrange(0, i + 1) =~= req@.subrange(0, i as int).push(req@[i as int]));
        assert(prefix@.subrange(0, i + 1) =~= prefix@.subrange(0, i as int).push(prefix@[i as int]));
        i = i + 1;
    }
    assert(prefix@.subrange(0, i as int) =~= prefix@);
    true
}

/// Whether `req` starts with the request line of `GET <path>`.
fn is_request_for(req: &[u8], path: &str) -> (r: bool)
    ensures
        r == requests(req@, path),
{
    let mut line: Vec<u8> = Vec::new();
    push_text(&mut line, "GET ");
    push_text(&mut line, path);
    push_text(&mut line, " ");
    assert(line@ =~= text("GET ") + text(path) + text(" "));
    starts_with(req, &line)
}

/// The endpoint that a request asks for, from its request line.
pub fn route(request: &[u8]) -> (r: Route)
    ensures
        r == route_of(request@),
{
    if is_request_for(request, "/") {
        Route::Root
    } else if is_request_for(request, "/frame.jpg") {
        Route::Frame
    } else if is_request_for(request, "/status") {
        Route::Status
    } else if is_request_for(request, "/stream") {
        Route::Stream
    } else {
        Route::NotFound
    }
}

/// A plain-text response.
fn text_response(status: StatusCode, body: &str) -> (r: HttpResponse)
    ensures
        r.status == status,
        r.content_type == ContentType::PlainText,
        r.body@ == text(body),
{
    let mut out: Vec<u8> = Vec::new();
    push_text(&mut out, body);
    assert(out@ =~= text(body));
    HttpResponse { status, content_type: ContentType::PlainText, body: out }
}

/// The answer of the latest-frame endpoint: the snapshot's frame copied out
/// of the buffer as a JPEG body, or "unavailable" when the snapshot holds no
/// frame (or one that does not fit in the buffer).
pub fn frame_response(snap: FrameSnapshot, buffer: &[u8]) -> (r: HttpResponse)
    ensures
        snap.len > 0 && snap.start + snap.len <= buffer@.len() ==> r.status == StatusCode::Success
            && r.content_type == ContentType::Jpeg && r.body@ == buffer@.subrange(
            snap.start as int,
            snap.start + snap.len,
        ),
        !(snap.len > 0 && snap.start + snap.len <= buffer@.len()) ==> r.status
            == StatusCode::ServiceUnavailable && r.content_type == ContentType::PlainText
            && r.body@ == text(NOT_READY_BODY),
{
    if snap.len == 0 || snap.start > buffer.len() || snap.len > buffer.len() - snap.start {
        return text_response(StatusCode::ServiceUnavailable, NOT_READY_BODY);
    }
    let frame = vstd::slice::slice_subrange(buffer, snap.start, snap.start + snap.len);
    let body = vstd::slice::slice_to_vec(frame);
    HttpResponse { status: StatusCode::Success, content_type: ContentType::Jpeg, body }
}

/// The answer of the status endpoint.
pub fn status_response(frames: u64, snap: FrameSnapshot) -> (r: HttpResponse)
    ensures
        r.status == StatusCode::Success,
        r.content_type == ContentType::PlainText,
        r.body@ == status_text(frames, snap),
{
    let mut out: Vec<u8> = Vec::new();
    push_text(&mut out, "frames=");
    push_decimal(&mut out, frames);
    push_text(&mut out, " start=");
    push_decimal(&mut out, snap.start as u64);
    push_text(&mut out, " last_len=");
    push_decimal(&mut out, snap.len as u64);
    push_text(&mut out, " checksum=0x");
    push_hex(&mut out, snap.fingerprint, 8);
    assert(out@ =~= status_text(frames, snap));
    HttpResponse { status: StatusCode::Success, content_type: ContentType::PlainText, body: out }
}

/// The answer of the liveness endpoint.
pub fn root_response() -> (r: HttpResponse)
    ensures
        r.status == StatusCode::Success,
        r.content_type == ContentType::PlainText,
        r.body@ == text(ALIVE_BODY),
{
    text_response(StatusCode::Success, ALIVE_BODY)
}

/// The answer to an unknown path.
pub fn not_found_response() -> (r: HttpResponse)
    ensures
        r.status == StatusCode::NotFound,
        r.content_type == ContentType::PlainText,
        r.body@ == text(NOT_FOUND_BODY),
{
    text_response(StatusCode::NotFound, NOT_FOUND_BODY)
}

impl HttpResponse {
    /// The response on the wire: head, then body.
    pub fn encode(&self) -> (r: Vec<u8>)
        ensures
            r@ == response_head(self.status, self.content_type, self.body@.len()) + self.body@,
    {
        let mut out: Vec<u8> = Vec::new();
        match self.status {
            StatusCode::Success => push_text(&mut out, "HTTP/1.1 200 OK\r\n"),
            StatusCode::NotFound => push_text(&mut out, "HTTP/1.1 404 Not Found\r\n"),
            StatusCode::ServiceUnavailable => push_text(
                &mut out,
                "HTTP/1.1 503 Service Unavailable\r\n",
            ),
        }
        push_text(&mut out, "Content-Type: ");
        match self.content_type {
            ContentType::Jpeg => push_text(&mut out, "image/jpeg"),
            ContentType::PlainText => push_text(&mut out, "text/plain"),
        }
        push_text(&mut out, "\r\nContent-Length: ");
        push_decimal(&mut out, self.body.len() as u64);
        push_text(&mut out, "\r\nConnection: close\r\n\r\n");
        let ghost head = out@;
        assert(head =~= response_head(self.status, self.content_type, self.body@.len()));
        out.extend_from_slice(self.body.as_slice());
        assert(out@ =~= head + self.body@);
        out
    }
}

} // verus!
