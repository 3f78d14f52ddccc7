//! Locating a JPEG frame inside a raw capture buffer.

use vstd::prelude::*;

verus! {

/// Second byte of the start-of-image marker `FF D8`.
pub const SOI: u8 = 0xD8;

/// Second byte of the end-of-image marker `FF D9`.
pub const EOI: u8 = 0xD9;

/// The marker `FF <second>` starts at offset `i` of `b`.
pub open spec fn marker_at(b: Seq<u8>, i: int, second: u8) -> bool {
    0 <= i && i + 1 < b.len() && b[i] == 0xFF && b[i + 1] == second
}

/// No marker `FF <second>` starts at an offset in `[lo, hi)`.
pub open spec fn no_marker_in(b: Seq<u8>, lo: int, hi: int, second: u8) -> bool {
    forall|j: int| lo <= j < hi ==> !#[trigger] marker_at(b, j, second)
}

/// `i` is the first offset at or after `from` where the marker starts.
pub open spec fn first_marker_from(b: Seq<u8>, from: int, i: int, second: u8) -> bool {
    from <= i && marker_at(b, i, second) && no_marker_in(b, from, i, second)
}

/// Some offset at or after `from` starts the marker.
pub open spec fn has_marker_from(b: Seq<u8>, from: int, second: u8) -> bool {
    exists|i: int| from <= i && #[trigger] marker_at(b, i, second)
}

/// First offset at or after `from` where `FF <second>` starts.
fn find_marker(buffer: &[u8], from: usize, second: u8) -> (r: Option<usize>)
    ensures
        match r {
            Some(i) => first_marker_from(buffer@, from as int, i as int, second),
            None => !has_marker_from(buffer@, from as int, second),
        },
{
    let len = buffer.len();
    let mut i = from;
    while len > 0 && i < len - 1
        invariant
            len == buffer@.len(),
            from <= i,
            no_marker_in(buffer@, from as int, i as int, second),
        decreases len - i,
    {
        if buffer[i] == 0xFF && buffer[i + 1] == second {
            return Some(i);
        }
        i = i + 1;
    }
    assert forall|j: int| from <= j implies !#[trigger] marker_at(buffer@, j, second) by {
        if j < i {
        }
    }
    None
}

/// Offset of the first start-of-image marker at or after `from`.
pub fn find_jpeg_start(buffer: &[u8], from: usize) -> (r: Option<usize>)
    ensures
        match r {
            Some(i) => first_marker_from(buffer@, from as int, i as int, SOI),
            None => !has_marker_from(buffer@, from as int, SOI),
        },
{
    find_marker(buffer, from, SOI)
}

/// Offset just past the first end-of-image marker at or after `from`.
pub fn find_jpeg_end(buffer: &[u8], from: usize) -> (r: Option<usize>)
    ensures
        match r {
            Some(e) => e >= 2 && first_marker_from(buffer@, from as int, e - 2, EOI),
            None => !has_marker_from(buffer@, from as int, EOI),
        },
{
    match find_marker(buffer, from, EOI) {
        Some(i) => {
            let n = buffer.len();
            assert(i + 1 < n);
            Some(i + 2)
        },
        None => None,
    }
}

/// `[s, e)` is the frame of `b`: `s` is the first start-of-image marker and
/// `e` lies just past the first end-of-image marker that begins after it.
pub open spec fn frame_range(b: Seq<u8>, s: int, e: int) -> bool {
    first_marker_from(b, 0, s, SOI) && first_marker_from(b, s + 2, e - 2, EOI)
}

/// `b` holds a start-of-image marker followed by an end-of-image marker.
pub open spec fn has_frame(b: Seq<u8>) -> bool {
    exists|s: int, e: int| #[trigger] frame_range(b, s, e)
}

/// The frame of `b`, as offsets `(start, end)`, if it has one.
pub open spec fn located(b: Seq<u8>) -> Option<(int, int)> {
    if has_frame(b) {
        Some(choose|s: int, e: int| #[trigger] frame_range(b, s, e))
    } else {
        None
    }
}

/// Length of the frame `[start, end)` once cut to the `capacity` bytes of its buffer.
pub open spec fn clamped_len(start: int, end: int, capacity: int) -> int {
    if end - start > capacity - start {
        capacity - start
    } else {
        end - start
    }
}

/// The sum of all bytes of `s`, without wrapping.
pub open spec fn byte_sum(s: Seq<u8>) -> nat
    decreases s.len(),
{
    if s.len() == 0 {
        0
    } else {
        byte_sum(s.drop_last()) + s.last() as nat
    }
}

/// The fingerprint of a byte range: the sum of its bytes modulo 2^32.
pub open spec fn fingerprint_of(s: Seq<u8>) -> u32 {
    (byte_sum(s) % 0x1_0000_0000) as u32
}

/// A frame inside a capture buffer: `len` bytes from offset `start`.
#[derive(Clone, Copy, Debug, PartialEq, Eq, Structural)]
pub struct FrameRegion {
    pub start: usize,
    pub len: usize,
}

impl FrameRegion {
    /// The region is not empty and its end fits in a `usize`.
    pub open spec fn wf(self) -> bool {
        self.len > 0 && self.start + self.len <= usize::MAX
    }

    /// One past the last byte of the region.
    pub fn end(&self) -> (r: usize)
        requires
            self.wf(),
        ensures
            r == self.start + self.len,
    {
        self.start + self.len
    }
}

/// The region that `locate` reports for `b`.
pub open spec fn located_region(b: Seq<u8>) -> Option<FrameRegion> {
    match located(b) {
        Some((s, e)) => Some(FrameRegion { start: s as usize, len: clamped_len(s, e, b.len() as int) as usize }),
        None => None,
    }
}

/// Two first markers from the same offset are the same marker.
proof fn lemma_first_marker_unique(b: Seq<u8>, from: int, i: int, k: int, second: u8)
    requires
        first_marker_from(b, from, i, second),
        first_marker_from(b, from, k, second),
    ensures
        i == k,
{
    if i < k {
        assert(!marker_at(b, i, second));
    } else if k < i {
        assert(!marker_at(b, k, second));
    }
}

/// A buffer has at most one frame: the first start marker and the first end
/// marker after it.
pub proof fn lemma_frame_range_unique(b: Seq<u8>, s1: int, e1: int, s2: int, e2: int)
    requires
        frame_range(b, s1, e1),
        frame_range(b, s2, e2),
    ensures
        s1 == s2,
        e1 == e2,
{
    lemma_first_marker_unique(b, 0, s1, s2, SOI);
    lemma_first_marker_unique(b, s1 + 2, e1 - 2, e2 - 2, EOI);
}

/// A buffer without a start-of-image marker, or whose first one is not
/// followed by an end-of-image marker, has no frame.
pub proof fn lemma_no_frame_without_markers(b: Seq<u8>)
    ensures
        !has_marker_from(b, 0, SOI) ==> located(b) is None,
        forall|s: int|
            first_marker_from(b, 0, s, SOI) && !has_marker_from(b, s + 2, EOI) ==> located(b) is None,
{
    assert forall|s: int, e: int| #[trigger] frame_range(b, s, e) implies has_marker_from(b, 0, SOI)
        && has_marker_from(b, s + 2, EOI) by {
        assert(marker_at(b, s, SOI));
        assert(marker_at(b, e - 2, EOI));
    }
    assert forall|s: int|
        first_marker_from(b, 0, s, SOI) && !has_marker_from(b, s + 2, EOI) implies located(b) is None by {
        if has_frame(b) {
            let (s2, e2) = choose|s2: int, e2: int| #[trigger] frame_range(b, s2, e2);
            lemma_first_marker_unique(b, 0, s, s2, SOI);
            assert(marker_at(b, e2 - 2, EOI));
        }
    }
}

/// The frame of a buffer, as offsets `(start, end)`: the first start-of-image
/// marker and the end of the first end-of-image marker after it.
pub fn find_jpeg_range(buffer: &[u8]) -> (r: Option<(usize, usize)>)
    ensures
        r matches Some((s, e)) ==> located(buffer@) == Some((s as int, e as int)),
        r is None <==> located(buffer@) is None,
        range_in_buffer(buffer@, r),
{
    let start = match find_jpeg_start(buffer, 0) {
        Some(s) => s,
        None => {
            proof {
                lemma_no_frame_without_markers(buffer@);
            }
            return None;
        },
    };
    let n = buffer.len();
    assert(start + 1 < n);
    let end = match find_jpeg_end(buffer, start + 2) {
        Some(e) => e,
        None => {
            proof {
                lemma_no_frame_without_markers(buffer@);
            }
            return None;
        },
    };
    proof {
        assert(frame_range(buffer@, start as int, end as int));
        let (s2, e2) = choose|s2: int, e2: int| #[trigger] frame_range(buffer@, s2, e2);
        lemma_frame_range_unique(buffer@, start as int, end as int, s2, e2);
    }
    Some((start, end))
}

/// A range found in `b` satisfies `start < end <= b.len()`.
pub open spec fn range_in_buffer(b: Seq<u8>, r: Option<(usize, usize)>) -> bool {
    r matches Some((s, e)) ==> s < e <= b.len()
}

/// Length of the frame `[start, end)` cut to what a buffer of `capacity`
/// bytes holds from `start`.
pub fn clamp_frame_len(start: usize, end: usize, capacity: usize) -> (r: usize)
    requires
        start < end,
        start <= capacity,
    ensures
        r == clamped_len(start as int, end as int, capacity as int),
        end - start > capacity - start ==> r == capacity - start,
        end - start <= capacity - start ==> r == end - start,
{
    let full_len = end - start;
    let max_len = capacity - start;
    if full_len > max_len {
        max_len
    } else {
        full_len
    }
}

/// Locates the frame of a capture buffer; its length is cut to what the
/// buffer holds from its start.
pub fn locate(buffer: &[u8]) -> (r: Option<FrameRegion>)
    ensures
        r == located_region(buffer@),
        r matches Some(reg) ==> reg.wf() && reg.start + reg.len <= buffer@.len(),
        !has_marker_from(buffer@, 0, SOI) ==> r is None,
        forall|s: int|
            first_marker_from(buffer@, 0, s, SOI) && !has_marker_from(buffer@, s + 2, EOI) ==> r is None,
{
    proof {
        lemma_no_frame_without_markers(buffer@);
    }
    match find_jpeg_range(buffer) {
        Some((start, end)) => {
            let len = clamp_frame_len(start, end, buffer.len());
            Some(FrameRegion { start, len })
        },
        None => None,
    }
}

/// The bytes of the frame of a capture buffer.
pub fn jpeg_slice_from(buffer: &[u8]) -> (r: Option<&[u8]>)
    ensures
        match located_region(buffer@) {
            Some(reg) => r matches Some(f) && f@ == buffer@.subrange(
                reg.start as int,
                reg.start + reg.len,
            ),
            None => r is None,
        },
{
    match locate(buffer) {
        Some(reg) => Some(vstd::slice::slice_subrange(buffer, reg.start, reg.start + reg.len)),
        None => None,
    }
}

/// The fingerprint of `bytes`: the wrapping sum of its bytes.
pub fn fingerprint(bytes: &[u8]) -> (r: u32)
    ensures
        r == fingerprint_of(bytes@),
{
    let mut sum: u32 = 0;
    let mut i: usize = 0;
    while i < bytes.len()
        invariant
            i <= bytes@.len(),
            sum == fingerprint_of(bytes@.subrange(0, i as int)),
        decreases bytes@.len() - i,
    {
        proof {
            let next = bytes@.subrange(0, i + 1);
            assert(next.drop_last() =~= bytes@.subrange(0, i as int));
            assert(byte_sum(next) == byte_sum(bytes@.subrange(0, i as int)) + bytes@[i as int]);
        }
        sum = sum.wrapping_add(bytes[i] as u32);
        i = i + 1;
    }
    assert(bytes@.subrange(0, bytes@.len() as int) =~= bytes@);
    sum
}

/// Replacing one byte moves the plain sum by the difference of the two bytes.
proof fn lemma_byte_sum_update(s: Seq<u8>, i: int, v: u8)
    requires
        0 <= i < s.len(),
    ensures
        byte_sum(s.update(i, v)) + s[i] == byte_sum(s) + v,
    decreases s.len(),
{
    let t = s.update(i, v);
    if i == s.len() - 1 {
        assert(t.drop_last() =~= s.drop_last());
    } else {
        assert(t.drop_last() =~= s.drop_last().update(i, v));
        lemma_byte_sum_update(s.drop_last(), i, v);
    }
}

/// Equal byte ranges have equal fingerprints.
pub proof fn lemma_fingerprint_stable(a: Seq<u8>, b: Seq<u8>)
    requires
        a == b,
    ensures
        fingerprint_of(a) == fingerprint_of(b),
{
}

/// Changing a single byte of a range always changes its fingerprint: the two
/// sums differ by less than 2^32 and by more than zero.
pub proof fn lemma_fingerprint_single_byte_change(s: Seq<u8>, i: int, v: u8)
    requires
        0 <= i < s.len(),
        v != s[i],
    ensures
        fingerprint_of(s.update(i, v)) != fingerprint_of(s),
{
    lemma_byte_sum_update(s, i, v);
    let x = byte_sum(s) as int;
    let y = byte_sum(s.update(i, v)) as int;
    let m: int = 0x1_0000_0000;
    assert(y - x == v - s[i]);
    assert(x == m * (x / m) + x % m) by (nonlinear_arith)
        requires m > 0;
    assert(y == m * (y / m) + y % m) by (nonlinear_arith)
        requires m > 0;
    if x % m == y % m {
        assert(y - x == m * (y / m - x / m)) by (nonlinear_arith)
            requires
                x == m * (x / m) + x % m,
                y == m * (y / m) + y % m,
                x % m == y % m;
        assert(false) by (nonlinear_arith)
            requires
                y - x == m * (y / m - x / m),
                y - x != 0,
                -256 < y - x < 256,
                m == 0x1_0000_0000;
    }
}

} // verus!
