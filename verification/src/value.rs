//! Marshaller level: the tagged variant type, its bijective mapping to
//! wire words, and the laws that hold of the mapping.

use vstd::prelude::*;

use crate::codec::AUTO_TAG;
use crate::codec::FIT_CONTENT_PERCENT_TAG;
use crate::codec::FIT_CONTENT_PX_TAG;
use crate::codec::FR_TAG;
use crate::codec::LENGTH_TAG;
use crate::codec::MAX_CONTENT_TAG;
use crate::codec::MIN_CONTENT_TAG;
use crate::codec::PERCENT_TAG;
use crate::codec::decode_payload_bits;
use crate::codec::decode_tag;
use crate::codec::encode_no_payload;
use crate::codec::encode_with_payload;
use crate::codec::is_defined_tag;
use crate::codec::is_no_payload_tag;
use crate::codec::is_payload_tag;
use crate::codec::lemma_decode_of_natural;
use crate::codec::natural_word;
use crate::codec::spec_payload_of;
use crate::codec::spec_rotate;
use crate::codec::spec_tag_of;

verus! {

/// One of the eight representable sizing variants. A `u32` field is the raw
/// IEEE-754 bit pattern of the variant's 32-bit float payload, carried as an
/// opaque pattern so that NaN payloads and signed zero survive unchanged.
#[derive(Clone, Copy, Debug, PartialEq, Eq, Structural)]
pub enum LengthValue {
    /// An absolute length in pixels.
    Length(u32),
    /// A percentage of the containing block.
    Percent(u32),
    /// Automatic sizing.
    Auto,
    /// A flexible fraction of remaining space.
    Fr(u32),
    /// Min-content sizing.
    MinContent,
    /// Max-content sizing.
    MaxContent,
    /// Fit-content with a pixel limit.
    FitContentPx(u32),
    /// Fit-content with a percentage limit.
    FitContentPercent(u32),
}

/// Why a wire word could not be decoded.
#[derive(Clone, Copy, Debug, PartialEq, Eq, Structural)]
pub enum DecodeError {
    /// The word's tag byte is none of the eight defined tags.
    UnrecognizedTag(u8),
}

/// The tag byte of a variant.
pub open spec fn tag_of_value(v: LengthValue) -> u8 {
    match v {
        LengthValue::Length(_) => LENGTH_TAG,
        LengthValue::Percent(_) => PERCENT_TAG,
        LengthValue::Auto => AUTO_TAG,
        LengthValue::Fr(_) => FR_TAG,
        LengthValue::MinContent => MIN_CONTENT_TAG,
        LengthValue::MaxContent => MAX_CONTENT_TAG,
        LengthValue::FitContentPx(_) => FIT_CONTENT_PX_TAG,
        LengthValue::FitContentPercent(_) => FIT_CONTENT_PERCENT_TAG,
    }
}

/// The payload bit pattern of a variant: its float bits where it carries a
/// payload, zero where it carries none.
pub open spec fn payload_bits_of_value(v: LengthValue) -> u32 {
    match v {
        LengthValue::Length(bits) => bits,
        LengthValue::Percent(bits) => bits,
        LengthValue::Auto => 0,
        LengthValue::Fr(bits) => bits,
        LengthValue::MinContent => 0,
        LengthValue::MaxContent => 0,
        LengthValue::FitContentPx(bits) => bits,
        LengthValue::FitContentPercent(bits) => bits,
    }
}

/// Whether a variant carries a payload.
pub open spec fn value_carries_payload(v: LengthValue) -> bool {
    is_payload_tag(tag_of_value(v))
}

/// The variant a defined tag and a payload bit pattern stand for.
pub open spec fn value_of_parts(tag: u8, bits: u32) -> LengthValue
    recommends
        is_defined_tag(tag),
{
    if tag == LENGTH_TAG {
        LengthValue::Length(bits)
    } else if tag == PERCENT_TAG {
        LengthValue::Percent(bits)
    } else if tag == AUTO_TAG {
        LengthValue::Auto
    } else if tag == FR_TAG {
        LengthValue::Fr(bits)
    } else if tag == MIN_CONTENT_TAG {
        LengthValue::MinContent
    } else if tag == MAX_CONTENT_TAG {
        LengthValue::MaxContent
    } else if tag == FIT_CONTENT_PX_TAG {
        LengthValue::FitContentPx(bits)
    } else if tag == FIT_CONTENT_PERCENT_TAG {
        LengthValue::FitContentPercent(bits)
    } else {
        arbitrary()
    }
}

/// The wire word a variant encodes to: its natural word under the boundary
/// rotation.
pub open spec fn spec_encode(v: LengthValue) -> u64 {
    spec_rotate(natural_word(tag_of_value(v), payload_bits_of_value(v)))
}

/// What a wire word decodes to: the variant its tag and payload bits stand
/// for, or an error naming the tag byte when it is none of the eight.
pub open spec fn spec_decode(word: u64) -> Result<LengthValue, DecodeError> {
    let tag = spec_tag_of(word);
    if is_payload_tag(tag) {
        Ok(value_of_parts(tag, spec_payload_of(word)))
    } else if is_no_payload_tag(tag) {
        Ok(value_of_parts(tag, 0))
    } else {
        Err(DecodeError::UnrecognizedTag(tag))
    }
}

/// Encode a variant into a single wire word. The word decodes back to
/// exactly the tag and payload bits of the variant.
pub fn encode(v: LengthValue) -> (word: u64)
    ensures
        word == spec_encode(v),
        spec_tag_of(word) == tag_of_value(v),
        spec_payload_of(word) == payload_bits_of_value(v),
        spec_decode(word) == Ok::<LengthValue, DecodeError>(v),
{
    proof {
        lemma_round_trip(v);
    }
    match v {
        LengthValue::Length(bits) => encode_with_payload(LENGTH_TAG, bits),
        LengthValue::Percent(bits) => encode_with_payload(PERCENT_TAG, bits),
        LengthValue::Auto => encode_no_payload(AUTO_TAG),
        LengthValue::Fr(bits) => encode_with_payload(FR_TAG, bits),
        LengthValue::MinContent => encode_no_payload(MIN_CONTENT_TAG),
        LengthValue::MaxContent => encode_no_payload(MAX_CONTENT_TAG),
        LengthValue::FitContentPx(bits) => encode_with_payload(FIT_CONTENT_PX_TAG, bits),
        LengthValue::FitContentPercent(bits) => encode_with_payload(FIT_CONTENT_PERCENT_TAG, bits),
    }
}

/// Decode a wire word into a variant. Succeeds exactly when the word's tag
/// byte is one of the eight defined tags; any other byte is reported as an
/// unrecognized-tag error, never mapped to a default variant.
pub fn decode(word: u64) -> (r: Result<LengthValue, DecodeError>)
    ensures
        r == spec_decode(word),
        r is Ok <==> is_defined_tag(spec_tag_of(word)),
        r is Err ==> r == Err::<LengthValue, DecodeError>(
            DecodeError::UnrecognizedTag(spec_tag_of(word)),
        ),
{
    let tag = decode_tag(word);
    if tag == LENGTH_TAG {
        Ok(LengthValue::Length(decode_payload_bits(word)))
    } else if tag == PERCENT_TAG {
        Ok(LengthValue::Percent(decode_payload_bits(word)))
    } else if tag == AUTO_TAG {
        Ok(LengthValue::Auto)
    } else if tag == FR_TAG {
        Ok(LengthValue::Fr(decode_payload_bits(word)))
    } else if tag == MIN_CONTENT_TAG {
        Ok(LengthValue::MinContent)
    } else if tag == MAX_CONTENT_TAG {
        Ok(LengthValue::MaxContent)
    } else if tag == FIT_CONTENT_PX_TAG {
        Ok(LengthValue::FitContentPx(decode_payload_bits(word)))
    } else if tag == FIT_CONTENT_PERCENT_TAG {
        Ok(LengthValue::FitContentPercent(decode_payload_bits(word)))
    } else {
        Err(DecodeError::UnrecognizedTag(tag))
    }
}

/// Round trip: decoding the word a variant encodes to yields exactly that
/// variant, for every variant and every payload bit pattern — signed zero,
/// NaN patterns and subnormals included, since payloads are opaque bits.
pub proof fn lemma_round_trip(v: LengthValue)
    ensures
        spec_decode(spec_encode(v)) == Ok::<LengthValue, DecodeError>(v),
{
    lemma_decode_of_natural(tag_of_value(v), payload_bits_of_value(v));
}

/// Tag disjointness, one half: a variant's tag and payload bits together
/// determine the variant, so no two distinct values share a wire word's
/// decoded parts.
pub proof fn lemma_parts_injective(a: LengthValue, b: LengthValue)
    ensures
        (tag_of_value(a) == tag_of_value(b) && payload_bits_of_value(a) == payload_bits_of_value(b))
            ==> a == b,
{
}

/// Tag disjointness, other half: every encoder-produced word decodes to a
/// defined tag, never to a byte outside the set of eight.
pub proof fn lemma_encoded_tag_defined(v: LengthValue)
    ensures
        is_defined_tag(spec_tag_of(spec_encode(v))),
        spec_tag_of(spec_encode(v)) == tag_of_value(v),
{
    lemma_decode_of_natural(tag_of_value(v), payload_bits_of_value(v));
}

/// No payload-bit leakage: the word a no-payload variant encodes to has
/// zero payload bits, so even a mistaken payload read on it yields the bit
/// pattern of positive zero.
pub proof fn lemma_no_payload_zero_bits(v: LengthValue)
    ensures
        !value_carries_payload(v) ==> spec_payload_of(spec_encode(v)) == 0,
{
    lemma_decode_of_natural(tag_of_value(v), payload_bits_of_value(v));
}

} // verus!
