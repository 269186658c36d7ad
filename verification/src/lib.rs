//! Conversion of raw bytes into RFC 2397 `data:` URIs.
//!
//! A media type of the form `text/...` selects the percent-encoded text path,
//! which requires the bytes to be valid UTF-8; every other media type selects
//! the base64 path, which never fails. When no media type is supplied, one is
//! inferred from the byte content.

mod b64;
mod converter;
mod percent;
mod sniff;

pub use b64::lemma_base64_round_trip;
pub use b64::spec_base64_decode;
pub use b64::spec_base64_encode;
pub use converter::ConversionError;
pub use converter::DataUriConverter;
pub use converter::Initialized;
pub use converter::ReadyToConvert;
pub use converter::State;
pub use converter::Uninitialized;
pub use converter::is_text_media_type;
pub use converter::lemma_convert_deterministic;
pub use converter::lemma_convert_invalid_utf8;
pub use converter::lemma_convert_to_base64;
pub use converter::lemma_convert_to_percent_encoding;
pub use converter::lemma_convert_total_for_utf8;
pub use converter::render_data_uri;
pub use converter::spec_convert;
pub use percent::lemma_percent_round_trip;
pub use percent::spec_percent_decode;
pub use percent::spec_percent_encode;
