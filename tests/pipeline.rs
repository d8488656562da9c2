use local_state_key::{
    ciphertext_after_read, ciphertext_from_local_state, decode_wrapped_key, encode_key,
    key_after_unprotect, parse_local_state, strip_envelope, KeyError, ENVELOPE_PREFIX_LEN,
};

// base64 of "DPAPI" followed by fifteen zero bytes
const SAMPLE: &str = r#"{"os_crypt":{"encrypted_key":"RFBBUEkAAAAAAAAAAAAAAAAAAAA="}}"#;

#[test]
fn scenario_echo_primitive_gives_zero_key() {
    let blob = ciphertext_after_read("Local State".to_string(), Some(SAMPLE.to_string())).unwrap();
    assert_eq!(blob, vec![0u8; 15]);
    // A stand-in for the platform service that hands its input back.
    let echoed = Some(blob.clone());
    let key = key_after_unprotect(echoed).unwrap();
    assert_eq!(key, "000000000000000000000000000000");
    assert_eq!(key.len(), 30);
}

#[test]
fn scenario_text_of_ascii_a_bytes() {
    // This text is base64 of "DPAPI" followed by seventeen 'A' bytes.
    let doc = r#"{"os_crypt":{"encrypted_key":"RFBBUElBQUFBQUFBQUFBQUFBQUFBQQ=="}}"#;
    let blob = ciphertext_from_local_state(doc).unwrap();
    assert_eq!(blob, vec![b'A'; 17]);
    let key = key_after_unprotect(Some(blob)).unwrap();
    assert_eq!(key, "41".repeat(17));
}

#[test]
fn scenario_missing_section_fails_before_decoding() {
    let doc = r#"{"profile":{"encrypted_key":"%%% not base64 %%%"}}"#;
    assert_eq!(ciphertext_from_local_state(doc), Err(KeyError::MissingField));
    assert_eq!(
        ciphertext_after_read("Local State".to_string(), Some(doc.to_string())),
        Err(KeyError::MissingField)
    );
}

#[test]
fn scenario_unprotect_failure_is_decryption_error() {
    let blob = ciphertext_from_local_state(SAMPLE).unwrap();
    assert_eq!(blob.len(), 15);
    // A stand-in for the platform service that always reports failure.
    assert_eq!(key_after_unprotect(None), Err(KeyError::Decryption));
}

#[test]
fn scenario_unreadable_file_names_the_path() {
    let path = "/nonexistent/dir/Local State".to_string();
    assert_eq!(ciphertext_after_read(path.clone(), None), Err(KeyError::Io(path)));
}

#[test]
fn parser_returns_field_unmodified() {
    let doc = r#"{"a":[1,2,{"b":null}],"os_crypt":{"x":true,"encrypted_key":"AQIDBAUG"},"z":1.5}"#;
    assert_eq!(parse_local_state(doc), Ok("AQIDBAUG".to_string()));
    let loose = r#"{"os_crypt":{"encrypted_key":"not base64 at all"}}"#;
    assert_eq!(parse_local_state(loose), Ok("not base64 at all".to_string()));
    let escaped = r#"{"os_crypt":{"encrypted_key":"a\/bA"}}"#;
    assert_eq!(parse_local_state(escaped), Ok("a/bA".to_string()));
}

#[test]
fn parser_rejects_invalid_json() {
    assert_eq!(parse_local_state("{\"os_crypt\":"), Err(KeyError::Parse));
    assert_eq!(parse_local_state(""), Err(KeyError::Parse));
    assert_eq!(ciphertext_from_local_state("not json"), Err(KeyError::Parse));
}

#[test]
fn parser_rejects_absent_or_non_string_field() {
    assert_eq!(parse_local_state(r#"{"os_crypt":{}}"#), Err(KeyError::MissingField));
    assert_eq!(
        parse_local_state(r#"{"os_crypt":{"encrypted_key":42}}"#),
        Err(KeyError::MissingField)
    );
    assert_eq!(
        parse_local_state(r#"{"os_crypt":"encrypted_key"}"#),
        Err(KeyError::MissingField)
    );
    assert_eq!(parse_local_state("[1,2,3]"), Err(KeyError::MissingField));
}

#[test]
fn bad_base64_is_encoding_error() {
    let doc = r#"{"os_crypt":{"encrypted_key":"AQID*A=="}}"#;
    assert_eq!(ciphertext_from_local_state(doc), Err(KeyError::Encoding));
    assert_eq!(decode_wrapped_key("abc"), Err(KeyError::Encoding));
}

#[test]
fn base64_decodes_standard_alphabet() {
    assert_eq!(decode_wrapped_key("AQID"), Ok(vec![1, 2, 3]));
    assert_eq!(decode_wrapped_key("+/8="), Ok(vec![0xfb, 0xff]));
    assert_eq!(decode_wrapped_key(""), Ok(vec![]));
}

#[test]
fn short_key_is_envelope_error() {
    // base64 of the four bytes 1, 2, 3, 4
    let doc = r#"{"os_crypt":{"encrypted_key":"AQIDBA=="}}"#;
    assert_eq!(ciphertext_from_local_state(doc), Err(KeyError::Envelope));
    // base64 of the five bytes 1..=5: nothing is left after the prefix
    let doc5 = r#"{"os_crypt":{"encrypted_key":"AQIDBAU="}}"#;
    assert_eq!(ciphertext_from_local_state(doc5), Ok(vec![]));
}

#[test]
fn strip_removes_exactly_the_prefix() {
    let data: Vec<u8> = (0u8..12).collect();
    let out = strip_envelope(&data).unwrap();
    assert_eq!(out.len(), data.len() - ENVELOPE_PREFIX_LEN);
    assert_eq!(out, (5u8..12).collect::<Vec<u8>>());
    // The prefix is not checked against any expected value.
    assert_eq!(strip_envelope(b"XXXXXab"), Ok(b"ab".to_vec()));
}

#[test]
fn strip_rejects_short_input() {
    for n in 0..ENVELOPE_PREFIX_LEN {
        let data = vec![7u8; n];
        assert_eq!(strip_envelope(&data), Err(KeyError::Envelope));
    }
}

#[test]
fn hex_encoding_is_lowercase_and_doubles_length() {
    assert_eq!(encode_key(&[0xde, 0xad, 0xbe, 0xef]), "deadbeef");
    assert_eq!(encode_key(&[0x0f, 0xa0, 0x00, 0xff]), "0fa000ff");
    assert_eq!(encode_key(&[]), "");
    let bytes: Vec<u8> = (0u8..=255).collect();
    let text = encode_key(&bytes);
    assert_eq!(text.len(), 2 * bytes.len());
    assert_eq!(text, encode_key(&bytes));
    assert!(text.chars().all(|c| c.is_ascii_digit() || ('a'..='f').contains(&c)));
}

#[test]
fn hex_encoding_tells_keys_apart() {
    assert_ne!(encode_key(&[0x01, 0x10]), encode_key(&[0x10, 0x01]));
    assert_ne!(encode_key(&[0x00]), encode_key(&[0x00, 0x00]));
}

#[test]
fn recovered_key_is_rendered_in_hex() {
    assert_eq!(key_after_unprotect(Some(vec![0x12, 0xab])), Ok("12ab".to_string()));
    assert_eq!(key_after_unprotect(Some(vec![])), Ok(String::new()));
}
