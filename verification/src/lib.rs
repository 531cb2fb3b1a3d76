//! A wrapper over `char` values, `DecodedChar`, additionally storing the
//! number of encoding units the character occupied in the encoded source
//! (bytes for UTF-8, 16-bit code units for UTF-16).
//!
//! It also provides adapters over character sources to produce `DecodedChar`
//! streams from UTF-8/16 encoded sources, and a `str` extension returning
//! such an adapter over a string's characters.

mod adapters;
mod decoded;
mod source;

pub use adapters::utf16_annotated;
pub use adapters::utf8_annotated;
pub use adapters::DecodedChars;
pub use adapters::FallibleUtf16Decoded;
pub use adapters::FallibleUtf8Decoded;
pub use adapters::Utf16Decoded;
pub use adapters::Utf8Decoded;

pub use source::CharSource;
pub use source::FallibleCharSource;
pub use source::VecCharSource;
pub use source::VecResultSource;

pub use decoded::utf16_unit_len;
pub use decoded::utf8_unit_len;
pub use decoded::DecodedChar;
pub use decoded::lemma_eq_ignores_length;
pub use decoded::lemma_spec_from_utf16_views;
pub use decoded::lemma_spec_from_utf8_views;
pub use decoded::lemma_spec_new_views;
pub use decoded::lemma_utf16_round_trip;
pub use decoded::lemma_utf16_unit_len_range;
pub use decoded::lemma_utf8_round_trip;
pub use decoded::lemma_utf8_unit_len_matches_encoding;
