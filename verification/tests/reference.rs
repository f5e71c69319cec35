//! Cross-checks of the wire primitives against the protobuf reference
//! implementation's encoding routines.

use prost::encoding::{encode_key, encode_varint, WireType};
use redra::proto::transform::Translation;
use redra::wire;

#[test]
fn varint_encoding_matches_reference() {
    let samples: Vec<u64> = vec![
        0,
        1,
        127,
        128,
        300,
        16383,
        16384,
        u32::MAX as u64,
        u64::MAX,
    ];
    for v in samples {
        let mut ours: Vec<u8> = Vec::new();
        wire::encode_varint(&mut ours, v);
        let mut reference: Vec<u8> = Vec::new();
        encode_varint(v, &mut reference);
        assert_eq!(ours, reference, "value {}", v);
        assert_eq!(wire::decode_varint(&ours, 0), Some((v, ours.len())));
    }
}

#[test]
fn varint_decoding_is_strict() {
    // truncated: a continuation byte with nothing after it
    assert_eq!(wire::decode_varint(&[0x80], 0), None);
    // non-minimal: a zero-valued high group
    assert_eq!(wire::decode_varint(&[0x80, 0x00], 0), None);
    // eleven continuation bytes cannot fit a 64-bit value
    let long: Vec<u8> = vec![0x80; 11];
    assert_eq!(wire::decode_varint(&long, 0), None);
}

#[test]
fn fixed32_bytes_are_little_endian() {
    let mut ours: Vec<u8> = Vec::new();
    wire::put_le32(&mut ours, 0x3FC00000);
    assert_eq!(ours, 1.5f32.to_le_bytes().to_vec());
    assert_eq!(wire::get_le32(&ours, 0), 1.5f32.to_bits());
}

#[test]
fn field_keys_match_reference() {
    // fixed 32-bit field one, as in the transform messages
    let mut reference: Vec<u8> = Vec::new();
    encode_key(1, WireType::ThirtyTwoBit, &mut reference);
    assert_eq!(reference, vec![0x0D]);
    // length-delimited field two, as in the command envelope
    reference.clear();
    encode_key(2, WireType::LengthDelimited, &mut reference);
    assert_eq!(reference, vec![0x12]);
}

#[test]
fn float_field_matches_reference() {
    let mut reference: Vec<u8> = Vec::new();
    prost::encoding::float::encode(1, &1.5f32, &mut reference);
    let t = Translation {
        x: 1.5f32.to_bits(),
        y: 0,
        z: 0,
    };
    let mut ours: Vec<u8> = Vec::new();
    redra::proto::transform::enc_translation(&mut ours, &t);
    assert_eq!(ours, reference);
}
