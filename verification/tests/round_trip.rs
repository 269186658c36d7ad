use base64::Engine;
use data_uri_converter::DataUriConverter;

#[test]
fn base64_payload_decodes_back_to_the_input() {
    let data: Vec<u8> = (0u16..=255).map(|b| b as u8).collect();
    let uri = DataUriConverter::from_data(&data, Some("application/octet-stream".to_string()))
        .unwrap()
        .convert()
        .unwrap();
    let payload = uri.strip_prefix("data:application/octet-stream;base64,").unwrap();
    let decoded = base64::engine::general_purpose::STANDARD.decode(payload).unwrap();
    assert_eq!(decoded, data);
}

#[test]
fn base64_payload_of_a_short_tail_decodes_back() {
    for data in [&b"x"[..], &b"xy"[..], &b"xyz"[..], &b"xyzw"[..]] {
        let uri = DataUriConverter::from_data(data, Some("application/pdf".to_string()))
            .unwrap()
            .convert()
            .unwrap();
        let payload = uri.strip_prefix("data:application/pdf;base64,").unwrap();
        let decoded = base64::engine::general_purpose::STANDARD.decode(payload).unwrap();
        assert_eq!(decoded, data);
    }
}

#[test]
fn percent_payload_decodes_back_to_the_input_text() {
    let text = "tilde ~ percent % plus + umlaut \u{e4} slash / end";
    let uri = DataUriConverter::from_data(text.as_bytes(), Some("text/plain".to_string()))
        .unwrap()
        .convert()
        .unwrap();
    let payload = uri.strip_prefix("data:text/plain,").unwrap();
    let decoded = urlencoding::decode(payload).unwrap();
    assert_eq!(decoded, text);
}

#[test]
fn unreserved_text_is_left_unescaped() {
    let text = "AZaz09-._~";
    let uri = DataUriConverter::from_data(text.as_bytes(), Some("text/csv".to_string()))
        .unwrap()
        .convert()
        .unwrap();
    assert_eq!(uri, "data:text/csv,AZaz09-._~");
}
