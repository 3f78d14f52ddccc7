use camstream::http::{
    frame_response, not_found_response, root_response, route, status_response, ContentType,
    Route, StatusCode,
};
use camstream::mjpeg::{
    encode_part, frame_part, part_header_bytes, request_complete, stream_response_header,
    MjpegViewer,
};
use camstream::store::FrameSnapshot;
use camstream::wire::{push_decimal, push_hex, push_text};

const FRAME: [u8; 6] = [0xFF, 0xD8, 0x01, 0x02, 0xFF, 0xD9];

fn part_for(frame: &[u8]) -> Vec<u8> {
    let mut p = format!(
        "--frame\r\nContent-Type: image/jpeg\r\nContent-Length: {}\r\n\r\n",
        frame.len()
    )
    .into_bytes();
    p.extend_from_slice(frame);
    p.extend_from_slice(b"\r\n");
    p
}

#[test]
fn multipart_header_declares_boundary() {
    let h = String::from_utf8(stream_response_header()).unwrap();
    assert_eq!(
        h,
        "HTTP/1.1 200 OK\r\nContent-Type: multipart/x-mixed-replace; boundary=frame\r\nConnection: close\r\nCache-Control: no-cache\r\nPragma: no-cache\r\n\r\n"
    );
}

#[test]
fn part_framing() {
    assert_eq!(
        part_header_bytes(28672),
        b"--frame\r\nContent-Type: image/jpeg\r\nContent-Length: 28672\r\n\r\n".to_vec()
    );
    assert_eq!(encode_part(&FRAME), part_for(&FRAME));
    assert_eq!(encode_part(&[]), part_for(&[]));
}

#[test]
fn frame_part_of_buffer() {
    let mut buf = vec![0u8; 16];
    buf[5..11].copy_from_slice(&FRAME);
    assert_eq!(frame_part(&buf), Some(part_for(&FRAME)));
    assert_eq!(frame_part(&vec![0u8; 1024]), None);
}

#[test]
fn request_end_detection() {
    let mut buf = [0u8; 16];
    let req = b"GET / HTTP/1.1\r\n";
    buf.copy_from_slice(req);
    assert!(!request_complete(&buf, 10));
    assert!(request_complete(&buf, 16));
    let mut big = [0u8; 32];
    big[..18].copy_from_slice(b"GET / HTTP/1.1\r\n\r\n");
    assert!(request_complete(&big, 18));
    assert!(!request_complete(&big, 17));
    assert!(!request_complete(&big, 0));
    assert!(request_complete(&[], 0));
}

#[test]
fn viewer_skips_unchanged_frame() {
    let mut viewer = MjpegViewer::new();
    let snap = FrameSnapshot { start: 0, len: 6, fingerprint: 946 };
    let mut parts = 0;
    // two consecutive captures of the same frame
    for _ in 0..2 {
        if let Some(p) = viewer.poll(snap, &FRAME) {
            assert_eq!(p, part_for(&FRAME));
            parts += 1;
        }
    }
    assert_eq!(parts, 1);
    assert_eq!(viewer.last_sent, Some(946));
    let changed = FrameSnapshot { start: 0, len: 6, fingerprint: 947 };
    assert!(viewer.poll(changed, &FRAME).is_some());
}

#[test]
fn viewer_waits_without_frame() {
    let mut viewer = MjpegViewer::new();
    let empty = FrameSnapshot { start: 0, len: 0, fingerprint: 0 };
    assert_eq!(viewer.poll(empty, &FRAME), None);
    let outside = FrameSnapshot { start: 4, len: 6, fingerprint: 1 };
    assert_eq!(viewer.poll(outside, &FRAME), None);
    assert_eq!(viewer.last_sent, None);
}

#[test]
fn single_shot_unavailable_without_frame() {
    let snap = FrameSnapshot { start: 0, len: 0, fingerprint: 0 };
    let r = frame_response(snap, &FRAME);
    assert_eq!(r.status, StatusCode::ServiceUnavailable);
    assert_eq!(r.content_type, ContentType::PlainText);
    assert_eq!(r.body, b"frame not ready\n".to_vec());
    let wire = String::from_utf8(r.encode()).unwrap();
    assert_eq!(
        wire,
        "HTTP/1.1 503 Service Unavailable\r\nContent-Type: text/plain\r\nContent-Length: 16\r\nConnection: close\r\n\r\nframe not ready\n"
    );
}

#[test]
fn single_shot_copies_frame() {
    let mut buf = vec![0u8; 12];
    buf[3..9].copy_from_slice(&FRAME);
    let snap = FrameSnapshot { start: 3, len: 6, fingerprint: 946 };
    let r = frame_response(snap, &buf);
    assert_eq!(r.status, StatusCode::Success);
    assert_eq!(r.content_type, ContentType::Jpeg);
    assert_eq!(r.body, FRAME.to_vec());
    let mut expected =
        b"HTTP/1.1 200 OK\r\nContent-Type: image/jpeg\r\nContent-Length: 6\r\nConnection: close\r\n\r\n"
            .to_vec();
    expected.extend_from_slice(&FRAME);
    assert_eq!(r.encode(), expected);
}

#[test]
fn single_shot_rejects_region_outside_buffer() {
    let snap = FrameSnapshot { start: 2, len: 6, fingerprint: 946 };
    let r = frame_response(snap, &FRAME);
    assert_eq!(r.status, StatusCode::ServiceUnavailable);
}

#[test]
fn status_body_format() {
    let snap = FrameSnapshot { start: 0, len: 6, fingerprint: 946 };
    let r = status_response(3, snap);
    assert_eq!(r.status, StatusCode::Success);
    assert_eq!(
        String::from_utf8(r.body).unwrap(),
        "frames=3 start=0 last_len=6 checksum=0x000003b2"
    );
    let snap = FrameSnapshot { start: 1024, len: 28672, fingerprint: 0xdeadbeef };
    let r = status_response(u64::MAX, snap);
    assert_eq!(
        String::from_utf8(r.body).unwrap(),
        "frames=18446744073709551615 start=1024 last_len=28672 checksum=0xdeadbeef"
    );
}

#[test]
fn liveness_and_not_found() {
    let r = root_response();
    assert_eq!(r.status, StatusCode::Success);
    assert_eq!(r.body, b"OK\n".to_vec());
    let r = not_found_response();
    assert_eq!(r.status, StatusCode::NotFound);
    assert!(String::from_utf8(r.encode()).unwrap().starts_with("HTTP/1.1 404 Not Found\r\n"));
}

#[test]
fn routing() {
    assert_eq!(route(b"GET / HTTP/1.1\r\n\r\n"), Route::Root);
    assert_eq!(route(b"GET /frame.jpg HTTP/1.1\r\n"), Route::Frame);
    assert_eq!(route(b"GET /status HTTP/1.1\r\n"), Route::Status);
    assert_eq!(route(b"GET /stream HTTP/1.1\r\n"), Route::Stream);
    assert_eq!(route(b"GET /frame.jpgx HTTP/1.1\r\n"), Route::NotFound);
    assert_eq!(route(b"POST / HTTP/1.1\r\n"), Route::NotFound);
    assert_eq!(route(b"GET /"), Route::NotFound);
    assert_eq!(route(b""), Route::NotFound);
}

#[test]
fn number_encodings() {
    let mut out = Vec::new();
    push_decimal(&mut out, 0);
    push_text(&mut out, " ");
    push_decimal(&mut out, 1234567890);
    push_text(&mut out, " ");
    push_hex(&mut out, 0x00ab_0001, 8);
    push_text(&mut out, " ");
    push_hex(&mut out, 0x1234, 2);
    assert_eq!(String::from_utf8(out).unwrap(), "0 1234567890 00ab0001 34");
}
