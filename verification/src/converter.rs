//! The converter: from raw bytes and a resolved media type to an RFC 2397
//! `data:` URI string, percent-encoded for `text/...` media types and
//! base64-encoded for everything else.

use crate::b64::base64_encode_bytes;
use crate::b64::lemma_base64_round_trip;
use crate::b64::spec_base64_decode;
use crate::b64::spec_base64_encode;
use crate::percent::lemma_percent_round_trip;
use crate::percent::percent_encode_str;
use crate::percent::spec_percent_decode;
use crate::percent::spec_percent_encode;
use vstd::prelude::*;
use vstd::slice::slice_to_vec;
use vstd::string::StrSliceExecFns;
use vstd::string::StringExecFns;
use vstd::utf8::decode_utf8;
use vstd::utf8::decode_utf8_encode_utf8;
use vstd::utf8::valid_utf8;

verus! {

/// Why a conversion was refused.
#[derive(Clone, Copy, Debug, PartialEq, Eq, Structural)]
pub enum ConversionError {
    /// The media type names text, but the data is not valid UTF-8.
    InvalidUtf8,
}

impl ConversionError {
    /// A human-readable description of the error.
    pub fn message(&self) -> (m: &'static str)
        ensures
            m@ == "the media type names text but the data is not valid UTF-8"@,
    {
        match self {
            ConversionError::InvalidUtf8 => "the media type names text but the data is not valid UTF-8",
        }
    }
}

/// True when the media type selects the text path of a `data:` URI, that is,
/// when it starts with `text/`.
pub open spec fn is_text_media_type(media_type: Seq<char>) -> bool {
    &&& media_type.len() >= 5
    &&& media_type[0] == 't'
    &&& media_type[1] == 'e'
    &&& media_type[2] == 'x'
    &&& media_type[3] == 't'
    &&& media_type[4] == '/'
}

/// What a conversion returns: for a text media type, the percent-encoded
/// UTF-8 text without an encoding marker, and an error on bytes that are not
/// UTF-8; for every other media type, the base64 encoding of the bytes behind
/// a `;base64` marker.
pub open spec fn spec_convert(data: Seq<u8>, media_type: Seq<char>) -> Result<
    Seq<char>,
    ConversionError,
> {
    if is_text_media_type(media_type) {
        if valid_utf8(data) {
            Ok("data:"@ + media_type + ","@ + spec_percent_encode(data))
        } else {
            Err(ConversionError::InvalidUtf8)
        }
    } else {
        Ok("data:"@ + media_type + ";base64,"@ + spec_base64_encode(data))
    }
}

/// Relies on core::str::from_utf8: it returns a string exactly when the bytes
/// are valid UTF-8, and that string reads back as the decoded characters.
#[verifier::external_body]
fn utf8_to_str(data: &[u8]) -> (r: Option<&str>)
    ensures
        r is Some <==> valid_utf8(data@),
        r matches Some(s) ==> s@ == decode_utf8(data@),
{
    core::str::from_utf8(data).ok()
}

/// Whether the media type starts with `text/`.
fn media_type_is_text(media_type: &str) -> (r: bool)
    ensures
        r == is_text_media_type(media_type@),
{
    if media_type.unicode_len() < 5 {
        return false;
    }
    media_type.get_char(0) == 't' && media_type.get_char(1) == 'e' && media_type.get_char(2)
        == 'x' && media_type.get_char(3) == 't' && media_type.get_char(4) == '/'
}

/// Renders the `data:` URI for the given bytes under the given media type:
/// `data:<media-type>,<percent-encoded text>` for a `text/...` type, and
/// `data:<media-type>;base64,<base64 payload>` otherwise.
pub fn render_data_uri(data: &[u8], media_type: &str) -> (r: Result<String, ConversionError>)
    ensures
        r is Ok <==> spec_convert(data@, media_type@) is Ok,
        r matches Ok(uri) ==> spec_convert(data@, media_type@) == Ok::<
            Seq<char>,
            ConversionError,
        >(uri@),
        r matches Err(e) ==> spec_convert(data@, media_type@) == Err::<
            Seq<char>,
            ConversionError,
        >(e),
{
    let mut uri: String = "data:".to_owned();
    uri.append(media_type);
    if media_type_is_text(media_type) {
        match utf8_to_str(data) {
            Some(text) => {
                let payload = percent_encode_str(text);
                proof {
                    decode_utf8_encode_utf8(data@);
                }
                uri.append(",");
                uri.append(payload.as_str());
                proof {
                    assert(uri@ =~= "data:"@ + media_type@ + ","@ + spec_percent_encode(data@));
                }
                Ok(uri)
            },
            None => Err(ConversionError::InvalidUtf8),
        }
    } else {
        let payload = base64_encode_bytes(data);
        uri.append(";base64,");
        uri.append(payload.as_str());
        proof {
            assert(uri@ =~= "data:"@ + media_type@ + ";base64,"@ + spec_base64_encode(data@));
        }
        Ok(uri)
    }
}

/// A marker for the converter's phases, so that a converter cannot be asked
/// to convert before it holds data.
pub trait State {}

/// The phase before any data has been supplied.
pub struct Uninitialized;

/// The phase in which data and a media type are held, ready for conversion.
pub struct ReadyToConvert {
    pub data: Vec<u8>,
    pub media_type: String,
}

/// The phase in which data and a media type are held, ready for conversion.
pub struct Initialized {
    pub data: Vec<u8>,
    pub mime_type: String,
}

impl State for Uninitialized {}

impl State for ReadyToConvert {}

impl State for Initialized {}

/// Converts data to a `data:` URI (RFC 2397).
pub struct DataUriConverter<S: State> {
    pub state: S,
}

impl DataUriConverter<Uninitialized> {
    /// Prepares a conversion of the given bytes. When a media type is given
    /// it is taken verbatim; otherwise one is sniffed from the bytes.
    pub fn from_data(data: &[u8], media_type: Option<String>) -> (r: Result<
        DataUriConverter<ReadyToConvert>,
        ConversionError,
    >)
        ensures
            r is Ok,
            r matches Ok(c) ==> c.state.data@ == data@,
            r matches Ok(c) ==> match media_type {
                Some(t) => c.state.media_type@ == t@,
                None => true,
            },
    {
        let resolved: String = match media_type {
            Some(t) => t,
            None => crate::sniff::sniff_media_type(data),
        };
        Ok(DataUriConverter { state: ReadyToConvert { data: slice_to_vec(data), media_type: resolved } })
    }

    /// Prepares a conversion of the given bytes. When a MIME type is given it
    /// is taken verbatim; otherwise one is sniffed from the bytes.
    pub fn try_new(data: Vec<u8>, mime_type: Option<String>) -> (r: Result<
        DataUriConverter<Initialized>,
        ConversionError,
    >)
        ensures
            r is Ok,
            r matches Ok(c) ==> c.state.data@ == data@,
            r matches Ok(c) ==> match mime_type {
                Some(t) => c.state.mime_type@ == t@,
                None => true,
            },
    {
        let resolved: String = match mime_type {
            Some(t) => t,
            None => crate::sniff::sniff_media_type(data.as_slice()),
        };
        Ok(DataUriConverter { state: Initialized { data, mime_type: resolved } })
    }
}

impl DataUriConverter<ReadyToConvert> {
    /// Converts the held data to a `data:` URI under the held media type.
    pub fn convert(&self) -> (r: Result<String, ConversionError>)
        ensures
            r is Ok <==> spec_convert(self.state.data@, self.state.media_type@) is Ok,
            r matches Ok(uri) ==> spec_convert(self.state.data@, self.state.media_type@) == Ok::<
                Seq<char>,
                ConversionError,
            >(uri@),
            r matches Err(e) ==> spec_convert(self.state.data@, self.state.media_type@) == Err::<
                Seq<char>,
                ConversionError,
            >(e),
    {
        render_data_uri(self.state.data.as_slice(), self.state.media_type.as_str())
    }
}

impl DataUriConverter<Initialized> {
    /// Converts the held data to a `data:` URI under the held MIME type.
    pub fn convert(&self) -> (r: Result<String, ConversionError>)
        ensures
            r is Ok <==> spec_convert(self.state.data@, self.state.mime_type@) is Ok,
            r matches Ok(uri) ==> spec_convert(self.state.data@, self.state.mime_type@) == Ok::<
                Seq<char>,
                ConversionError,
            >(uri@),
            r matches Err(e) ==> spec_convert(self.state.data@, self.state.mime_type@) == Err::<
                Seq<char>,
                ConversionError,
            >(e),
    {
        render_data_uri(self.state.data.as_slice(), self.state.mime_type.as_str())
    }
}

/// Law: under a media type that does not name text, conversion succeeds on
/// every byte sequence, and base64-decoding the payload after the
/// `data:<media-type>;base64,` head gives back exactly the input bytes.
pub proof fn lemma_convert_to_base64(data: Seq<u8>, media_type: Seq<char>)
    requires
        !is_text_media_type(media_type),
    ensures
        ({
            let uri = "data:"@ + media_type + ";base64,"@ + spec_base64_encode(data);
            let head_len = "data:"@.len() + media_type.len() + ";base64,"@.len();
            &&& spec_convert(data, media_type) == Ok::<Seq<char>, ConversionError>(uri)
            &&& spec_base64_decode(uri.skip(head_len as int)) == data
        }),
{
    let uri = "data:"@ + media_type + ";base64,"@ + spec_base64_encode(data);
    let head_len = "data:"@.len() + media_type.len() + ";base64,"@.len();
    assert(uri.skip(head_len as int) =~= spec_base64_encode(data));
    lemma_base64_round_trip(data);
}

/// Law: under a media type that names text, conversion succeeds on every
/// UTF-8-valid byte sequence, and percent-decoding the payload after the
/// `data:<media-type>,` head gives back exactly the input bytes, hence the
/// original UTF-8 text.
pub proof fn lemma_convert_to_percent_encoding(data: Seq<u8>, media_type: Seq<char>)
    requires
        is_text_media_type(media_type),
        valid_utf8(data),
    ensures
        ({
            let uri = "data:"@ + media_type + ","@ + spec_percent_encode(data);
            let head_len = "data:"@.len() + media_type.len() + ","@.len();
            &&& spec_convert(data, media_type) == Ok::<Seq<char>, ConversionError>(uri)
            &&& spec_percent_decode(uri.skip(head_len as int)) == data
            &&& decode_utf8(spec_percent_decode(uri.skip(head_len as int))) == decode_utf8(data)
        }),
{
    let uri = "data:"@ + media_type + ","@ + spec_percent_encode(data);
    let head_len = "data:"@.len() + media_type.len() + ","@.len();
    assert(uri.skip(head_len as int) =~= spec_percent_encode(data));
    lemma_percent_round_trip(data);
}

/// Law: under a media type that names text, conversion of bytes that are not
/// valid UTF-8 fails, and with the UTF-8 error alone.
pub proof fn lemma_convert_invalid_utf8(data: Seq<u8>, media_type: Seq<char>)
    requires
        is_text_media_type(media_type),
        !valid_utf8(data),
    ensures
        spec_convert(data, media_type) == Err::<Seq<char>, ConversionError>(
            ConversionError::InvalidUtf8,
        ),
{
}

/// Law: conversion of UTF-8-valid bytes succeeds under every media type, so a
/// conversion with a sniffed media type can fail only on bytes that are not
/// valid UTF-8, never merely because of what the sniffer answered.
pub proof fn lemma_convert_total_for_utf8(data: Seq<u8>, media_type: Seq<char>)
    requires
        valid_utf8(data),
    ensures
        spec_convert(data, media_type) is Ok,
{
}

/// Law: the conversion result is a function of the bytes and the media type
/// alone, so two conversions of identical inputs agree to the byte.
pub proof fn lemma_convert_deterministic(
    data: Seq<u8>,
    media_type: Seq<char>,
    r1: Result<Seq<char>, ConversionError>,
    r2: Result<Seq<char>, ConversionError>,
)
    requires
        r1 == spec_convert(data, media_type),
        r2 == spec_convert(data, media_type),
    ensures
        r1 == r2,
{
}

} // verus!
