//! Marshaller-level tests: variant round trips for every variant and edge
//! payload, the concrete scenarios, and rejection of reserved tag bytes.

use compact_length::codec::encode_no_payload;
use compact_length::codec::encode_with_payload;
use compact_length::codec::rotate;
use compact_length::codec::AUTO_TAG;
use compact_length::codec::LENGTH_TAG;
use compact_length::value::decode;
use compact_length::value::encode;
use compact_length::value::DecodeError;
use compact_length::value::LengthValue;
use serde::de::value::U64Deserializer;
use serde::de::IntoDeserializer;
use serde::Deserialize;
use taffy::style::CompactLength;

fn edge_payloads() -> Vec<u32> {
    vec![
        0.0f32.to_bits(),
        (-0.0f32).to_bits(),
        1.0f32.to_bits(),
        (-1.0f32).to_bits(),
        f32::MIN.to_bits(),
        f32::MAX.to_bits(),
        f32::NAN.to_bits(),
        0x7FC0_1234, // NaN with a nonstandard payload
        0xFFC0_0001, // negative NaN
        1u32,        // smallest positive subnormal
        0x8000_0001, // smallest negative subnormal
        f32::MIN_POSITIVE.to_bits(),
        f32::INFINITY.to_bits(),
        f32::NEG_INFINITY.to_bits(),
    ]
}

#[test]
fn round_trip_every_variant() {
    for bits in edge_payloads() {
        let values = [
            LengthValue::Length(bits),
            LengthValue::Percent(bits),
            LengthValue::Fr(bits),
            LengthValue::FitContentPx(bits),
            LengthValue::FitContentPercent(bits),
        ];
        for &v in &values {
            assert_eq!(decode(encode(v)), Ok(v));
        }
    }
    for &v in &[LengthValue::Auto, LengthValue::MinContent, LengthValue::MaxContent] {
        assert_eq!(decode(encode(v)), Ok(v));
    }
}

#[test]
fn scenario_length_ten() {
    let bits = 10.0f32.to_bits();
    let word = encode_with_payload(LENGTH_TAG, bits);
    assert_eq!(decode(word), Ok(LengthValue::Length(bits)));
    match decode(word).unwrap() {
        LengthValue::Length(b) => assert_eq!(f32::from_bits(b), 10.0f32),
        other => panic!("expected a pixel length, got {:?}", other),
    }
}

#[test]
fn scenario_auto_zero_payload() {
    let word = encode_no_payload(AUTO_TAG);
    assert_eq!(decode(word), Ok(LengthValue::Auto));
    let payload = compact_length::codec::decode_payload_bits(word);
    assert_eq!(f32::from_bits(payload), 0.0f32);
    assert!(f32::from_bits(payload).is_sign_positive());
}

#[test]
fn scenario_percent_negative_half() {
    let v = LengthValue::Percent((-0.5f32).to_bits());
    match decode(encode(v)).unwrap() {
        LengthValue::Percent(b) => {
            let f = f32::from_bits(b);
            assert_eq!(f, -0.5f32);
            assert!(f.is_sign_negative());
            assert_eq!(b, (-0.5f32).to_bits());
        }
        other => panic!("expected a percentage, got {:?}", other),
    }
}

#[test]
fn scenario_fr_nan_bit_pattern() {
    let nan_bits = f32::NAN.to_bits();
    match decode(encode(LengthValue::Fr(nan_bits))).unwrap() {
        LengthValue::Fr(b) => {
            assert_eq!(b, nan_bits);
            assert!(f32::from_bits(b).is_nan());
        }
        other => panic!("expected a flex fraction, got {:?}", other),
    }
}

#[test]
fn scenario_invalid_tag_rejected() {
    // A word built directly from the reserved tag byte 0b0000_0101.
    let wire = rotate(0b0000_0101u64);
    assert_eq!(decode(wire), Err(DecodeError::UnrecognizedTag(0b0000_0101)));
}

#[test]
fn reserved_tags_rejected() {
    let mut reserved: Vec<u8> = vec![0b0000_0000, 0b0000_0101, 0b0000_0110, 0b0001_0000, 0xFF];
    for t in 0b0000_1000u8..=0b0000_1110u8 {
        reserved.push(t);
    }
    for tag in reserved {
        let wire = rotate(tag as u64);
        assert_eq!(decode(wire), Err(DecodeError::UnrecognizedTag(tag)));
        // A stray payload does not make a reserved tag acceptable.
        let wire = rotate(((0x4120_0000u64) << 32) | tag as u64);
        assert_eq!(decode(wire), Err(DecodeError::UnrecognizedTag(tag)));
    }
}

#[test]
fn decode_never_defaults_on_garbage() {
    // Unrecognized input must never be silently mapped to some variant.
    for &word in &[0u64, u64::MAX - 0xFF, 0x0000_0005_0000_0000] {
        if let Ok(v) = decode(word) {
            // Only acceptable if the tag byte really is defined.
            assert_eq!(decode(encode(v)), Ok(v));
        } else {
            assert!(matches!(decode(word), Err(DecodeError::UnrecognizedTag(_))));
        }
    }
}

#[test]
fn reserved_tags_rejected_by_layout_engine_too() {

    // The engine's deserializer and this codec agree on scenario words with
    // reserved tags: both reject them.
    let wire = rotate(0b0000_0101u64);
    assert_eq!(decode(wire), Err(DecodeError::UnrecognizedTag(0b0000_0101)));
    let de: U64Deserializer<serde::de::value::Error> = wire.into_deserializer();
    assert!(CompactLength::deserialize(de).is_err());
}
