//! Word-level codec: tag bytes, the boundary rotation, and raw
//! encode/decode of (tag, payload bits) pairs to and from 64-bit words.

use vstd::prelude::*;

verus! {

/// Tag byte for an absolute length in pixels (payload-carrying).
pub const LENGTH_TAG: u8 = 0b0000_0001;
/// Tag byte for a percentage (payload-carrying).
pub const PERCENT_TAG: u8 = 0b0000_0010;
/// Tag byte for an automatic size (no payload).
pub const AUTO_TAG: u8 = 0b0000_0011;
/// Tag byte for a flex fraction (payload-carrying).
pub const FR_TAG: u8 = 0b0000_0100;
/// Tag byte for min-content sizing (no payload).
pub const MIN_CONTENT_TAG: u8 = 0b0000_0111;
/// Tag byte for max-content sizing (no payload).
pub const MAX_CONTENT_TAG: u8 = 0b0000_1111;
/// Tag byte for fit-content with a pixel limit (payload-carrying).
pub const FIT_CONTENT_PX_TAG: u8 = 0b0001_0111;
/// Tag byte for fit-content with a percentage limit (payload-carrying).
pub const FIT_CONTENT_PERCENT_TAG: u8 = 0b0001_1111;

/// The boundary rotation: the word rotated left by 32 bits, i.e. its two
/// 32-bit halves swapped.
pub open spec fn spec_rotate(w: u64) -> u64 {
    (w << 32) | (w >> 32)
}

/// The natural (pre-rotation) layout of a word: payload bits in the high
/// 32 bits, tag byte in the low 8 bits, the rest zero.
pub open spec fn natural_word(tag: u8, payload_bits: u32) -> u64 {
    ((payload_bits as u64) << 32) | (tag as u64)
}

/// The tag byte a rotated (wire-format) word decodes to.
pub open spec fn spec_tag_of(word: u64) -> u8 {
    (spec_rotate(word) & 0xFF) as u8
}

/// The payload bits a rotated (wire-format) word decodes to.
pub open spec fn spec_payload_of(word: u64) -> u32 {
    (spec_rotate(word) >> 32) as u32
}

/// The five tags whose variants carry a 32-bit payload.
pub open spec fn is_payload_tag(tag: u8) -> bool {
    ||| tag == LENGTH_TAG
    ||| tag == PERCENT_TAG
    ||| tag == FR_TAG
    ||| tag == FIT_CONTENT_PX_TAG
    ||| tag == FIT_CONTENT_PERCENT_TAG
}

/// The three tags whose variants carry no payload.
pub open spec fn is_no_payload_tag(tag: u8) -> bool {
    ||| tag == AUTO_TAG
    ||| tag == MIN_CONTENT_TAG
    ||| tag == MAX_CONTENT_TAG
}

/// A tag byte one of the eight variants uses; every other byte is reserved
/// and invalid.
pub open spec fn is_defined_tag(tag: u8) -> bool {
    is_payload_tag(tag) || is_no_payload_tag(tag)
}

/// The eight defined tag bytes are pairwise distinct, so the tag byte of a
/// word determines at most one variant.
pub proof fn lemma_tags_pairwise_distinct()
    ensures
        LENGTH_TAG != PERCENT_TAG,
        LENGTH_TAG != AUTO_TAG,
        LENGTH_TAG != FR_TAG,
        LENGTH_TAG != MIN_CONTENT_TAG,
        LENGTH_TAG != MAX_CONTENT_TAG,
        LENGTH_TAG != FIT_CONTENT_PX_TAG,
        LENGTH_TAG != FIT_CONTENT_PERCENT_TAG,
        PERCENT_TAG != AUTO_TAG,
        PERCENT_TAG != FR_TAG,
        PERCENT_TAG != MIN_CONTENT_TAG,
        PERCENT_TAG != MAX_CONTENT_TAG,
        PERCENT_TAG != FIT_CONTENT_PX_TAG,
        PERCENT_TAG != FIT_CONTENT_PERCENT_TAG,
        AUTO_TAG != FR_TAG,
        AUTO_TAG != MIN_CONTENT_TAG,
        AUTO_TAG != MAX_CONTENT_TAG,
        AUTO_TAG != FIT_CONTENT_PX_TAG,
        AUTO_TAG != FIT_CONTENT_PERCENT_TAG,
        FR_TAG != MIN_CONTENT_TAG,
        FR_TAG != MAX_CONTENT_TAG,
        FR_TAG != FIT_CONTENT_PX_TAG,
        FR_TAG != FIT_CONTENT_PERCENT_TAG,
        MIN_CONTENT_TAG != MAX_CONTENT_TAG,
        MIN_CONTENT_TAG != FIT_CONTENT_PX_TAG,
        MIN_CONTENT_TAG != FIT_CONTENT_PERCENT_TAG,
        MAX_CONTENT_TAG != FIT_CONTENT_PX_TAG,
        MAX_CONTENT_TAG != FIT_CONTENT_PERCENT_TAG,
        FIT_CONTENT_PX_TAG != FIT_CONTENT_PERCENT_TAG,
{
}

/// The boundary rotation is its own inverse: applying it twice to any
/// 64-bit word returns the original word.
pub proof fn lemma_rotate_involutive(w: u64)
    by (bit_vector)
    ensures
        spec_rotate(spec_rotate(w)) == w,
{
}

/// Rotating a natural word and decoding it recovers exactly the tag and
/// payload bits the natural word was built from.
pub proof fn lemma_decode_of_natural(tag: u8, payload_bits: u32)
    by (bit_vector)
    ensures
        spec_tag_of(spec_rotate(natural_word(tag, payload_bits))) == tag,
        spec_payload_of(spec_rotate(natural_word(tag, payload_bits))) == payload_bits,
{
}

/// Swap the two 32-bit halves of a word. Applied once when a word is handed
/// across the boundary and once more on receipt; see
/// [`lemma_rotate_involutive`].
pub fn rotate(w: u64) -> (r: u64)
    ensures
        r == spec_rotate(w),
{
    (w << 32u64) | (w >> 32u64)
}

/// Encode a payload-carrying variant: build the natural word from the tag
/// and the payload's raw bit pattern, then apply the boundary rotation.
pub fn encode_with_payload(tag: u8, payload_bits: u32) -> (word: u64)
    requires
        is_payload_tag(tag),
    ensures
        word == spec_rotate(natural_word(tag, payload_bits)),
        spec_tag_of(word) == tag,
        spec_payload_of(word) == payload_bits,
{
    proof {
        lemma_decode_of_natural(tag, payload_bits);
    }
    let natural: u64 = ((payload_bits as u64) << 32u64) | (tag as u64);
    rotate(natural)
}

/// Encode a no-payload variant: the natural word is the bare tag byte, so
/// the payload bits of the result are zero.
pub fn encode_no_payload(tag: u8) -> (word: u64)
    requires
        is_no_payload_tag(tag),
    ensures
        word == spec_rotate(natural_word(tag, 0)),
        spec_tag_of(word) == tag,
        spec_payload_of(word) == 0,
{
    proof {
        lemma_decode_of_natural(tag, 0);
        assert(natural_word(tag, 0) == tag as u64) by (bit_vector);
    }
    rotate(tag as u64)
}

/// Undo the boundary rotation and extract the tag byte. Total: every word
/// yields some byte, and only the eight defined tags are valid; rejecting
/// the others is the caller's duty.
pub fn decode_tag(word: u64) -> (tag: u8)
    ensures
        tag == spec_tag_of(word),
{
    let unrotated = rotate(word);
    (unrotated & 0xFF) as u8
}

/// Undo the boundary rotation and extract the payload bit pattern. On a
/// word encoded from a no-payload variant this returns zero.
pub fn decode_payload_bits(word: u64) -> (bits: u32)
    ensures
        bits == spec_payload_of(word),
{
    let unrotated = rotate(word);
    (unrotated >> 32u64) as u32
}

} // verus!
