//! Multipart (MJPEG) streaming: the response header, the framing of each
//! part, and the choice of which frames a polling viewer is sent.

use vstd::prelude::*;

use crate::extract::{jpeg_slice_from, located_region};
use crate::store::FrameSnapshot;
use crate::wire::{decimal, push_decimal, push_text, text};

verus! {

/// Default pause before a viewer polls the frame store again after finding
/// no new frame, in milliseconds.
pub const MJPEG_POLL_MS: u64 = 50;

/// Response header of a multipart stream; parts are separated by the
/// boundary token `frame`.
pub const STREAM_HEADER: &'static str = "HTTP/1.1 200 OK\r\nContent-Type: multipart/x-mixed-replace; boundary=frame\r\nConnection: close\r\nCache-Control: no-cache\r\nPragma: no-cache\r\n\r\n";

/// Start of each part, up to its length.
pub const PART_START: &'static str = "--frame\r\nContent-Type: image/jpeg\r\nContent-Length: ";

/// End of a part's header.
pub const PART_HEADER_END: &'static str = "\r\n\r\n";

/// End of a part, after its bytes.
pub const PART_END: &'static str = "\r\n";

/// The header of a part of `n` bytes.
pub open spec fn part_header(n: nat) -> Seq<u8> {
    text(PART_START) + decimal(n) + text(PART_HEADER_END)
}

/// A whole part carrying `frame`.
pub open spec fn part(frame: Seq<u8>) -> Seq<u8> {
    part_header(frame.len()) + frame + text(PART_END)
}

/// The bytes of the multipart response header.
pub fn stream_response_header() -> (r: Vec<u8>)
    ensures
        r@ == text(STREAM_HEADER),
{
    let mut out: Vec<u8> = Vec::new();
    push_text(&mut out, STREAM_HEADER);
    assert(out@ =~= text(STREAM_HEADER));
    out
}

/// The header of a part of `len` bytes.
pub fn part_header_bytes(len: usize) -> (r: Vec<u8>)
    ensures
        r@ == part_header(len as nat),
{
    let mut out: Vec<u8> = Vec::new();
    push_text(&mut out, PART_START);
    push_decimal(&mut out, len as u64);
    push_text(&mut out, PART_HEADER_END);
    assert(out@ =~= part_header(len as nat));
    out
}

/// A whole part: header, the frame's bytes, and the closing line break.
pub fn encode_part(frame: &[u8]) -> (r: Vec<u8>)
    ensures
        r@ == part(frame@),
{
    let mut out = part_header_bytes(frame.len());
    let ghost header = out@;
    out.extend_from_slice(frame);
    push_text(&mut out, PART_END);
    assert(out@ =~= header + frame@ + text(PART_END));
    out
}

/// The part to send for a capture buffer: its frame, if it has one.
pub fn frame_part(buffer: &[u8]) -> (r: Option<Vec<u8>>)
    ensures
        match located_region(buffer@) {
            Some(reg) => r matches Some(p) && p@ == part(
                buffer@.subrange(reg.start as int, reg.start + reg.len),
            ),
            None => r is None,
        },
{
    match jpeg_slice_from(buffer) {
        Some(frame) => Some(encode_part(frame)),
        None => None,
    }
}

/// The blank line that ends a request's header starts at `i`.
pub open spec fn header_end_at(s: Seq<u8>, i: int) -> bool {
    0 <= i && i + 4 <= s.len() && s[i] == 13 && s[i + 1] == 10 && s[i + 2] == 13 && s[i + 3]
        == 10
}

/// `s` holds the blank line that ends a request's header.
pub open spec fn has_header_end(s: Seq<u8>) -> bool {
    exists|i: int| #[trigger] header_end_at(s, i)
}

/// Whether reading a request can stop: the first `total` bytes of `buf` hold
/// the end of its header, or `buf` is full.
pub fn request_complete(buf: &[u8], total: usize) -> (r: bool)
    requires
        total <= buf@.len(),
    ensures
        r == (has_header_end(buf@.subrange(0, total as int)) || total == buf@.len()),
{
    let ghost s = buf@.subrange(0, total as int);
    let mut i: usize = 0;
    while total >= 4 && i <= total - 4
        invariant
            total <= buf@.len(),
            s == buf@.subrange(0, total as int),
            forall|j: int| 0 <= j < i ==> !#[trigger] header_end_at(s, j),
        decreases total - i,
    {
        if buf[i] == 13 && buf[i + 1] == 10 && buf[i + 2] == 13 && buf[i + 3] == 10 {
            assert(header_end_at(s, i as int));
            return true;
        }
        i = i + 1;
    }
    assert forall|j: int| !#[trigger] header_end_at(s, j) by {
        if j >= i {
        }
    }
    total == buf.len()
}

/// A viewer of the continuous stream in the polling design: it remembers the
/// fingerprint of the last frame it was sent.
#[derive(Clone, Copy, Debug, PartialEq, Eq, Structural)]
pub struct MjpegViewer {
    pub last_sent: Option<u32>,
}

/// The snapshot is worth a part for a viewer that last got `last_sent`: it
/// holds a frame, inside a buffer of `buf_len` bytes, whose fingerprint differs.
pub open spec fn worth_sending(last_sent: Option<u32>, snap: FrameSnapshot, buf_len: int) -> bool {
    snap.len > 0 && snap.start + snap.len <= buf_len && last_sent != Some(snap.fingerprint)
}

impl MjpegViewer {
    /// A viewer that has been sent nothing.
    pub fn new() -> (r: MjpegViewer)
        ensures
            r.last_sent is None,
    {
        MjpegViewer { last_sent: None }
    }

    /// The part to send for a store snapshot and the buffer it points into,
    /// or nothing (the caller then sleeps briefly and polls again). A part is
    /// made only for a frame whose fingerprint differs from the last one sent,
    /// and that fingerprint is then remembered.
    pub fn poll(&mut self, snap: FrameSnapshot, buffer: &[u8]) -> (r: Option<Vec<u8>>)
        ensures
            worth_sending(old(self).last_sent, snap, buffer@.len() as int) ==> (r matches Some(p)
                && p@ == part(buffer@.subrange(snap.start as int, snap.start + snap.len))
                && final(self).last_sent == Some(snap.fingerprint)),
            !worth_sending(old(self).last_sent, snap, buffer@.len() as int) ==> (r is None
                && *final(self) == *old(self)),
    {
        let fresh = match self.last_sent {
            Some(f) => f != snap.fingerprint,
            None => true,
        };
        if snap.len == 0 || snap.start > buffer.len() || snap.len > buffer.len() - snap.start
            || !fresh {
            return None;
        }
        let frame = vstd::slice::slice_subrange(buffer, snap.start, snap.start + snap.len);
        self.last_sent = Some(snap.fingerprint);
        Some(encode_part(frame))
    }
}

/// A frame that is published twice with the same fingerprint reaches a viewer
/// once: right after it is sent, polling the same snapshot yields nothing.
pub proof fn lemma_unchanged_frame_sent_once(snap: FrameSnapshot, buf_len: int)
    ensures
        !worth_sending(Some(snap.fingerprint), snap, buf_len),
{
}

} // verus!
