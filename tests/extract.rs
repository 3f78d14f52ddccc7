use camstream::extract::{
    clamp_frame_len, find_jpeg_end, find_jpeg_range, find_jpeg_start, fingerprint,
    jpeg_slice_from, locate, FrameRegion,
};

#[test]
fn minimal_frame_spans_whole_buffer() {
    let buf = [0xFF, 0xD8, 0x01, 0x02, 0xFF, 0xD9];
    assert_eq!(locate(&buf), Some(FrameRegion { start: 0, len: 6 }));
    assert_eq!(find_jpeg_range(&buf), Some((0, 6)));
    assert_eq!(jpeg_slice_from(&buf), Some(&buf[..]));
}

#[test]
fn zero_buffer_has_no_frame() {
    let buf = vec![0u8; 1024];
    assert_eq!(locate(&buf), None);
    assert_eq!(find_jpeg_start(&buf, 0), None);
    assert_eq!(jpeg_slice_from(&buf), None);
}

#[test]
fn start_without_end_has_no_frame() {
    let buf = [0x00, 0xFF, 0xD8, 0x10, 0x20, 0xFF];
    assert_eq!(find_jpeg_start(&buf, 0), Some(1));
    assert_eq!(find_jpeg_end(&buf, 3), None);
    assert_eq!(locate(&buf), None);
}

#[test]
fn end_marker_before_start_is_ignored() {
    let buf = [0xFF, 0xD9, 0xFF, 0xD8, 0xAA, 0xFF, 0xD9, 0x00];
    assert_eq!(locate(&buf), Some(FrameRegion { start: 2, len: 5 }));
}

#[test]
fn first_pair_is_chosen() {
    // two complete frames; the first start marker and the first end after it win
    let buf = [
        0x11, 0xFF, 0xD8, 0x01, 0xFF, 0xD9, 0x22, 0xFF, 0xD8, 0x02, 0x03, 0xFF, 0xD9,
    ];
    assert_eq!(find_jpeg_range(&buf), Some((1, 6)));
    assert_eq!(locate(&buf), Some(FrameRegion { start: 1, len: 5 }));
    let frame = jpeg_slice_from(&buf).unwrap();
    assert_eq!(frame, &[0xFF, 0xD8, 0x01, 0xFF, 0xD9]);
}

#[test]
fn end_search_starts_after_start_marker() {
    // FF D8 D9: the D8 byte cannot begin the end marker
    let buf = [0xFF, 0xD8, 0xD9, 0xFF, 0xD9];
    assert_eq!(find_jpeg_range(&buf), Some((0, 5)));
}

#[test]
fn marker_search_from_offset() {
    let buf = [0xFF, 0xD8, 0x00, 0xFF, 0xD8];
    assert_eq!(find_jpeg_start(&buf, 0), Some(0));
    assert_eq!(find_jpeg_start(&buf, 1), Some(3));
    assert_eq!(find_jpeg_start(&buf, 4), None);
    assert_eq!(find_jpeg_start(&buf, 100), None);
    assert_eq!(find_jpeg_end(&[0xFF, 0xD9], 0), Some(2));
    assert_eq!(find_jpeg_end(&[], 0), None);
}

#[test]
fn truncation_clamps_to_capacity() {
    assert_eq!(clamp_frame_len(10, 50, 30), 20);
    assert_eq!(clamp_frame_len(10, 50, 100), 40);
    assert_eq!(clamp_frame_len(0, 6, 6), 6);
    assert_eq!(clamp_frame_len(5, 6, 5), 0);
}

#[test]
fn fingerprint_is_wrapping_byte_sum() {
    let buf = [0xFF, 0xD8, 0x01, 0x02, 0xFF, 0xD9];
    assert_eq!(fingerprint(&buf), 946);
    assert_eq!(fingerprint(&[]), 0);
    let big = vec![0xFFu8; 20_000_000];
    assert_eq!(fingerprint(&big), (255u64 * 20_000_000 % (1u64 << 32)) as u32);
}

#[test]
fn fingerprint_stable_and_detects_single_byte_change() {
    let a = [1u8, 2, 3, 4, 5];
    let b = [1u8, 2, 3, 4, 5];
    assert_eq!(fingerprint(&a), fingerprint(&b));
    let c = [1u8, 2, 9, 4, 5];
    assert_ne!(fingerprint(&a), fingerprint(&c));
    // reordering is not detected: the sum does not depend on order
    let d = [5u8, 4, 3, 2, 1];
    assert_eq!(fingerprint(&a), fingerprint(&d));
}

#[test]
fn region_end() {
    let r = FrameRegion { start: 4, len: 10 };
    assert_eq!(r.end(), 14);
}
