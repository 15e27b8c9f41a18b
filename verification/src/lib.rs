//! A compact tagged-union encoding for CSS-like sizing values.
//!
//! A length-like value (absolute pixels, percentage, auto, flex fraction,
//! min/max-content, fit-content) is packed into a single 64-bit word: an
//! 8-bit tag in the low byte and, for payload-carrying variants, the raw
//! IEEE-754 bit pattern of a 32-bit float in the high 32 bits. Before the
//! word crosses the serialization boundary its two 32-bit halves are
//! swapped; the swap is its own inverse and is undone on read.
//!
//! Payloads are carried here as `u32` bit patterns, never as arithmetic
//! floats, so NaN payloads and signed zero round-trip bit-exactly.

pub mod codec;
pub mod value;
