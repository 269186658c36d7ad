use data_uri_converter::ConversionError;
use data_uri_converter::DataUriConverter;
use data_uri_converter::render_data_uri;

#[test]
fn text_plain_hello() {
    let converter =
        DataUriConverter::from_data(b"hello", Some("text/plain".to_string())).unwrap();
    assert_eq!(converter.convert().unwrap(), "data:text/plain,hello");
}

#[test]
fn text_space_is_percent_encoded() {
    let converter = DataUriConverter::from_data(b"a b", Some("text/plain".to_string())).unwrap();
    assert_eq!(converter.convert().unwrap(), "data:text/plain,a%20b");
}

#[test]
fn jpeg_bytes_use_base64() {
    let converter =
        DataUriConverter::from_data(&[0xff, 0xd8, 0xff], Some("image/jpeg".to_string())).unwrap();
    assert_eq!(converter.convert().unwrap(), "data:image/jpeg;base64,/9j/");
}

#[test]
fn empty_text_input() {
    let converter = DataUriConverter::from_data(&[], Some("text/plain".to_string())).unwrap();
    assert_eq!(converter.convert().unwrap(), "data:text/plain,");
}

#[test]
fn invalid_utf8_under_text_type_fails() {
    let converter =
        DataUriConverter::from_data(&[0xff, 0xfe, 0x80], Some("text/plain".to_string())).unwrap();
    assert_eq!(converter.convert().unwrap_err(), ConversionError::InvalidUtf8);
}

#[test]
fn invalid_utf8_error_has_a_message() {
    let converter = DataUriConverter::from_data(&[0x80], Some("text/html".to_string())).unwrap();
    let err = converter.convert().unwrap_err();
    assert!(err.message().contains("not valid UTF-8"));
}

#[test]
fn png_bytes_with_no_hint_are_sniffed() {
    let png_magic: &[u8] = &[0x89, b'P', b'N', b'G', 0x0d, 0x0a, 0x1a, 0x0a];
    let converter = DataUriConverter::from_data(png_magic, None).unwrap();
    let uri = converter.convert().unwrap();
    assert!(uri.starts_with("data:image/png;base64,"));
}

#[test]
fn sniffed_conversion_of_valid_utf8_never_fails() {
    let converter = DataUriConverter::from_data(b"just some plain text\n", None).unwrap();
    assert!(converter.convert().is_ok());
}

#[test]
fn convert_is_deterministic() {
    let data: Vec<u8> = (0u16..=255).map(|b| b as u8).collect();
    let converter =
        DataUriConverter::from_data(&data, Some("application/octet-stream".to_string())).unwrap();
    let first = converter.convert().unwrap();
    let second = converter.convert().unwrap();
    assert_eq!(first, second);

    let again = DataUriConverter::from_data(&data, Some("application/octet-stream".to_string()))
        .unwrap()
        .convert()
        .unwrap();
    assert_eq!(first, again);
}

#[test]
fn try_new_agrees_with_from_data() {
    let data = b"pair of paths".to_vec();
    let via_try_new = DataUriConverter::try_new(data.clone(), Some("text/plain".to_string()))
        .unwrap()
        .convert()
        .unwrap();
    let via_from_data = DataUriConverter::from_data(&data, Some("text/plain".to_string()))
        .unwrap()
        .convert()
        .unwrap();
    assert_eq!(via_try_new, via_from_data);
}

#[test]
fn try_new_keeps_data_and_mime_type() {
    let converter =
        DataUriConverter::try_new(vec![1, 2, 3], Some("application/x-thing".to_string())).unwrap();
    assert_eq!(converter.state.data, vec![1, 2, 3]);
    assert_eq!(converter.state.mime_type, "application/x-thing");
}

#[test]
fn render_data_uri_directly() {
    assert_eq!(render_data_uri(b"hello", "text/plain").unwrap(), "data:text/plain,hello");
    assert_eq!(
        render_data_uri(&[0xff, 0xd8, 0xff], "image/jpeg").unwrap(),
        "data:image/jpeg;base64,/9j/"
    );
    assert_eq!(
        render_data_uri(&[0xff], "text/plain").unwrap_err(),
        ConversionError::InvalidUtf8
    );
}

#[test]
fn media_type_is_used_verbatim() {
    let uri = render_data_uri(b"x", "text/plain;charset=utf-8").unwrap();
    assert_eq!(uri, "data:text/plain;charset=utf-8,x");
    let odd = render_data_uri(&[7], "not a mime type at all").unwrap();
    assert_eq!(odd, "data:not a mime type at all;base64,Bw==");
}

#[test]
fn texty_prefix_must_match_exactly() {
    let uri = render_data_uri(&[0xff], "textual/nonsense").unwrap();
    assert!(uri.starts_with("data:textual/nonsense;base64,"));
}
