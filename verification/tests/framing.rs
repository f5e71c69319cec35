//! Framing tests: trailer layout, frame extraction, chunked feeding, and
//! the trailer reader's edge cases.

use redra::frame::{drain_frames, extract_frame, frame_bytes};
use redra::proto::declare::{dec_trailer, enc_trailer, Trailer};
use redra::proto_decode::read_trailer;

#[test]
fn frame_layout_small_payload() {
    let payload: Vec<u8> = vec![0xAA, 0xBB, 0xCC];
    let frame = frame_bytes(&payload);
    assert_eq!(frame, vec![0x08, 0x04, 0x10, 0x03, 0xAA, 0xBB, 0xCC]);
}

#[test]
fn frame_layout_long_payload() {
    let payload: Vec<u8> = vec![0x55; 300];
    let frame = frame_bytes(&payload);
    // 300 = 0xAC 0x02 as a varint: the trailer grows to five bytes
    assert_eq!(&frame[..5], &[0x08, 0x05, 0x10, 0xAC, 0x02]);
    assert_eq!(&frame[5..], &payload[..]);
}

#[test]
fn extract_round_trip() {
    let payload: Vec<u8> = vec![1, 2, 3, 4, 5];
    let mut buf = frame_bytes(&payload);
    let got = extract_frame(&mut buf);
    assert_eq!(got, Some(payload));
    assert!(buf.is_empty());
}

#[test]
fn extract_keeps_following_bytes() {
    let payload: Vec<u8> = vec![9, 8, 7];
    let mut buf = frame_bytes(&payload);
    buf.extend_from_slice(&[0x08, 0x04]);
    let got = extract_frame(&mut buf);
    assert_eq!(got, Some(payload));
    assert_eq!(buf, vec![0x08, 0x04]);
}

#[test]
fn extract_waits_for_missing_bytes() {
    // the trailer declares 100 payload bytes but only 10 arrive
    let t = Trailer { me: 4, next: 100 };
    let mut buf: Vec<u8> = Vec::new();
    enc_trailer(&mut buf, &t);
    buf.extend_from_slice(&[0u8; 10]);
    let before = buf.clone();
    assert_eq!(extract_frame(&mut buf), None);
    assert_eq!(buf, before);
}

#[test]
fn extract_needs_four_bytes() {
    let mut buf: Vec<u8> = vec![0x08, 0x02];
    assert_eq!(extract_frame(&mut buf), None);
    assert_eq!(buf, vec![0x08, 0x02]);
}

#[test]
fn extract_rejects_tiny_trailer_length() {
    // a declared trailer length below two can make no progress
    let mut buf: Vec<u8> = vec![0x08, 0x00, 0x10, 0x05, 1, 2, 3, 4, 5];
    assert_eq!(extract_frame(&mut buf), None);
    let mut buf2: Vec<u8> = vec![0x08, 0x01, 0x10, 0x05, 1, 2, 3, 4, 5];
    assert_eq!(extract_frame(&mut buf2), None);
}

#[test]
fn split_feed_matches_single_feed() {
    let payload: Vec<u8> = vec![10, 20, 30, 40, 50, 60];
    let frame = frame_bytes(&payload);
    let mut whole = frame.clone();
    let expect = drain_frames(&mut whole);
    assert_eq!(expect, vec![payload.clone()]);
    for i in 0..=frame.len() {
        let mut buf: Vec<u8> = Vec::new();
        let mut outs: Vec<Vec<u8>> = Vec::new();
        buf.extend_from_slice(&frame[..i]);
        outs.append(&mut drain_frames(&mut buf));
        buf.extend_from_slice(&frame[i..]);
        outs.append(&mut drain_frames(&mut buf));
        assert_eq!(outs, vec![payload.clone()], "split at {}", i);
        assert!(buf.is_empty(), "split at {}", i);
    }
}

#[test]
fn two_frames_in_one_read_keep_order() {
    let first: Vec<u8> = vec![1, 1, 1];
    let second: Vec<u8> = vec![2, 2];
    let mut buf = frame_bytes(&first);
    buf.extend_from_slice(&frame_bytes(&second));
    let outs = drain_frames(&mut buf);
    assert_eq!(outs, vec![first, second]);
    assert!(buf.is_empty());
}

#[test]
fn read_trailer_locates_payload() {
    let buf: Vec<u8> = vec![0x08, 0x04, 0x10, 0x05, 9, 9, 9, 9, 9];
    assert_eq!(read_trailer(&buf, 0), Some((4, 9)));
}

#[test]
fn read_trailer_at_offset() {
    let buf: Vec<u8> = vec![0xFF, 0xFF, 0x08, 0x04, 0x10, 0x02, 7, 7];
    assert_eq!(read_trailer(&buf, 2), Some((6, 8)));
}

#[test]
fn read_trailer_needs_four_bytes() {
    assert_eq!(read_trailer(&[0x08, 0x02, 0x10], 0), None);
    assert_eq!(read_trailer(&[0x08, 0x04, 0x10, 0x05], 1), None);
}

#[test]
fn read_trailer_rejects_malformed() {
    // the byte at offset one points into a region that does not decode
    assert_eq!(read_trailer(&[0x08, 0x04, 0xFF, 0xFF, 0x00], 0), None);
    // declared trailer length runs past the buffered bytes
    assert_eq!(read_trailer(&[0x08, 0x09, 0x10, 0x05], 0), None);
}

#[test]
fn alternative_self_locating_trailer_is_accepted() {
    // a trailer without its own-length field still self-locates when the
    // byte at offset one happens to give its length
    let mut buf: Vec<u8> = vec![0x10, 0x02, 0xAB, 0xCD];
    assert_eq!(extract_frame(&mut buf), Some(vec![0xAB, 0xCD]));
    assert!(buf.is_empty());
}

#[test]
fn trailer_round_trip() {
    for t in [
        Trailer { me: 4, next: 5 },
        Trailer { me: 0, next: 0 },
        Trailer { me: 2, next: 0 },
        Trailer {
            me: 300,
            next: 70000,
        },
    ] {
        let mut bytes: Vec<u8> = Vec::new();
        enc_trailer(&mut bytes, &t);
        assert_eq!(dec_trailer(&bytes), Some(t));
    }
}

#[test]
fn empty_payload_frame_is_below_reader_minimum() {
    // a frame around an empty payload is two bytes; the reader waits for
    // at least four, so nothing is extracted
    let empty: Vec<u8> = Vec::new();
    let mut frame = frame_bytes(&empty);
    assert_eq!(frame, vec![0x08, 0x02]);
    assert_eq!(extract_frame(&mut frame), None);
}
