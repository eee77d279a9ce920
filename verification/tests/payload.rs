use borsh::BorshSerialize;
use nft_minter::payload::{CreateTokenArgs, DecodeError, Field};

fn request(title: &str, symbol: &str, uri: &str) -> CreateTokenArgs {
    CreateTokenArgs {
        nft_title: title.to_string(),
        nft_symbol: symbol.to_string(),
        nft_uri: uri.to_string(),
    }
}

fn frame(text: &str) -> Vec<u8> {
    let mut out = (text.len() as u32).to_le_bytes().to_vec();
    out.extend_from_slice(text.as_bytes());
    out
}

fn payload(title: &str, symbol: &str, uri: &str) -> Vec<u8> {
    let mut out = frame(title);
    out.extend(frame(symbol));
    out.extend(frame(uri));
    out
}

fn assert_same(decoded: &CreateTokenArgs, title: &str, symbol: &str, uri: &str) {
    assert_eq!(decoded.nft_title, title);
    assert_eq!(decoded.nft_symbol, symbol);
    assert_eq!(decoded.nft_uri, uri);
}

#[test]
fn encodes_each_field_with_a_little_endian_length() {
    let bytes = request("ab", "c", "").try_to_vec().unwrap();
    assert_eq!(bytes, vec![2, 0, 0, 0, 97, 98, 1, 0, 0, 0, 99, 0, 0, 0, 0]);
}

#[test]
fn encodes_the_cool_cat_request() {
    let bytes = request("Cool Cat #1", "CC1", "https://example.com/1.json").try_to_vec().unwrap();
    assert_eq!(bytes.len(), 4 + 11 + 4 + 3 + 4 + 26);
    assert_eq!(&bytes[0..4], &[11, 0, 0, 0]);
    assert_eq!(&bytes[4..15], b"Cool Cat #1");
    assert_eq!(&bytes[15..19], &[3, 0, 0, 0]);
    assert_eq!(&bytes[19..22], b"CC1");
    assert_eq!(&bytes[22..26], &[26, 0, 0, 0]);
    assert_eq!(&bytes[26..], b"https://example.com/1.json");
}

#[test]
fn length_prefix_uses_all_four_bytes() {
    let title = "x".repeat(0x0001_0203);
    let bytes = request(&title, "", "").try_to_vec().unwrap();
    assert_eq!(&bytes[0..4], &[0x03, 0x02, 0x01, 0x00]);
    assert_eq!(bytes.len(), 4 + 0x0001_0203 + 4 + 4);
    let back = CreateTokenArgs::try_from_slice(&bytes).unwrap();
    assert_eq!(back.nft_title.len(), 0x0001_0203);
    assert_eq!(back.nft_title, title);
}

#[test]
fn encoding_is_the_codec_s_own_for_each_string() {
    let args = request("Cool Cat #1", "CC1", "https://example.com/1.json");
    let mut expected: Vec<u8> = Vec::new();
    args.nft_title.serialize(&mut expected).unwrap();
    args.nft_symbol.serialize(&mut expected).unwrap();
    args.nft_uri.serialize(&mut expected).unwrap();
    assert_eq!(args.try_to_vec().unwrap(), expected);
}

#[test]
fn round_trip_reproduces_the_request() {
    let cases = [
        ("Cool Cat #1", "CC1", "https://example.com/1.json"),
        ("", "", ""),
        ("", "S", "u"),
        ("t", "", ""),
        ("\u{f1}and\u{fa} \u{2713}", "\u{20ac}", "https://example.com/\u{1f600}.json"),
    ];
    for (title, symbol, uri) in cases {
        let bytes = request(title, symbol, uri).try_to_vec().unwrap();
        assert_eq!(bytes, payload(title, symbol, uri));
        let back = CreateTokenArgs::try_from_slice(&bytes).unwrap();
        assert_same(&back, title, symbol, uri);
        assert_eq!(back.try_to_vec().unwrap(), bytes);
    }
}

#[test]
fn decodes_a_payload_written_by_hand() {
    let bytes = [1, 0, 0, 0, b'T', 2, 0, 0, 0, b'S', b'Y', 3, 0, 0, 0, b'u', b'r', b'i'];
    let back = CreateTokenArgs::try_from_slice(&bytes).unwrap();
    assert_same(&back, "T", "SY", "uri");
}

#[test]
fn decodes_multi_byte_characters_by_byte_length() {
    // U+20AC is three bytes long.
    let bytes = [3, 0, 0, 0, 0xe2, 0x82, 0xac, 0, 0, 0, 0, 0, 0, 0, 0];
    let back = CreateTokenArgs::try_from_slice(&bytes).unwrap();
    assert_same(&back, "\u{20ac}", "", "");
}

#[test]
fn empty_title_is_a_valid_request() {
    let bytes = payload("", "CC1", "https://example.com/1.json");
    let back = CreateTokenArgs::try_from_slice(&bytes).unwrap();
    assert_same(&back, "", "CC1", "https://example.com/1.json");
}

#[test]
fn every_truncation_is_refused() {
    let bytes = payload("Cool Cat #1", "CC1", "https://example.com/1.json");
    let title_end = 4 + 11;
    let symbol_end = title_end + 4 + 3;
    for cut in 0..bytes.len() {
        let expected = if cut < title_end {
            Field::Title
        } else if cut < symbol_end {
            Field::Symbol
        } else {
            Field::Uri
        };
        match CreateTokenArgs::try_from_slice(&bytes[..cut]) {
            Err(DecodeError::Field { field, .. }) => assert_eq!(field, expected, "cut at {}", cut),
            other => panic!("cut at {}: {:?}", cut, other),
        }
    }
}

#[test]
fn empty_buffer_is_refused_at_the_title() {
    assert!(matches!(
        CreateTokenArgs::try_from_slice(&[]),
        Err(DecodeError::Field { field: Field::Title, .. })
    ));
}

#[test]
fn trailing_bytes_are_refused() {
    let mut bytes = payload("Cool Cat #1", "CC1", "https://example.com/1.json");
    bytes.push(0);
    assert!(matches!(CreateTokenArgs::try_from_slice(&bytes), Err(DecodeError::TrailingBytes)));
    bytes.extend_from_slice(&[0, 0, 0]);
    assert!(matches!(CreateTokenArgs::try_from_slice(&bytes), Err(DecodeError::TrailingBytes)));
}

#[test]
fn a_fourth_string_is_trailing_bytes() {
    let mut bytes = payload("a", "b", "c");
    bytes.extend(frame("d"));
    assert!(matches!(CreateTokenArgs::try_from_slice(&bytes), Err(DecodeError::TrailingBytes)));
}

#[test]
fn a_length_that_announces_too_much_is_refused() {
    let mut bytes = vec![5, 0, 0, 0, b'a', b'b', b'c', b'd'];
    assert!(matches!(
        CreateTokenArgs::try_from_slice(&bytes),
        Err(DecodeError::Field { field: Field::Title, .. })
    ));
    bytes = payload("a", "b", "c");
    let at = bytes.len() - 5;
    bytes[at] = 2;
    assert!(matches!(
        CreateTokenArgs::try_from_slice(&bytes),
        Err(DecodeError::Field { field: Field::Uri, .. })
    ));
    let huge = [0xff, 0xff, 0xff, 0xff, 0, 0, 0, 0, 0, 0, 0, 0];
    assert!(matches!(
        CreateTokenArgs::try_from_slice(&huge),
        Err(DecodeError::Field { field: Field::Title, .. })
    ));
}

#[test]
fn bytes_that_are_not_utf8_are_refused() {
    let title = [1, 0, 0, 0, 0xff, 0, 0, 0, 0, 0, 0, 0, 0];
    assert!(matches!(
        CreateTokenArgs::try_from_slice(&title),
        Err(DecodeError::Field { field: Field::Title, .. })
    ));
    let symbol = [0, 0, 0, 0, 2, 0, 0, 0, 0xc3, 0x28, 0, 0, 0, 0];
    assert!(matches!(
        CreateTokenArgs::try_from_slice(&symbol),
        Err(DecodeError::Field { field: Field::Symbol, .. })
    ));
    // The first two bytes of a three-byte character.
    let uri = [0, 0, 0, 0, 0, 0, 0, 0, 2, 0, 0, 0, 0xe2, 0x82];
    assert!(matches!(
        CreateTokenArgs::try_from_slice(&uri),
        Err(DecodeError::Field { field: Field::Uri, .. })
    ));
}

#[test]
fn a_surrogate_is_not_utf8() {
    let bytes = [3, 0, 0, 0, 0xed, 0xa0, 0x80, 0, 0, 0, 0, 0, 0, 0, 0];
    assert!(matches!(
        CreateTokenArgs::try_from_slice(&bytes),
        Err(DecodeError::Field { field: Field::Title, .. })
    ));
}

#[test]
fn the_cause_of_a_refused_field_is_the_codec_s_error() {
    match CreateTokenArgs::try_from_slice(&[1, 0]) {
        Err(DecodeError::Field { field, cause }) => {
            assert_eq!(field, Field::Title);
            assert!(!cause.to_string().is_empty());
        },
        other => panic!("{:?}", other),
    }
}

#[test]
fn an_overlong_encoding_is_not_utf8() {
    // U+0000 written with two bytes.
    let bytes = [2, 0, 0, 0, 0xc0, 0x80, 0, 0, 0, 0, 0, 0, 0, 0];
    assert!(matches!(
        CreateTokenArgs::try_from_slice(&bytes),
        Err(DecodeError::Field { field: Field::Title, .. })
    ));
}

#[test]
fn a_code_point_past_the_last_is_not_utf8() {
    // U+110000, one past the last code point.
    let bytes = [4, 0, 0, 0, 0xf4, 0x90, 0x80, 0x80, 0, 0, 0, 0, 0, 0, 0, 0];
    assert!(matches!(
        CreateTokenArgs::try_from_slice(&bytes),
        Err(DecodeError::Field { field: Field::Title, .. })
    ));
    let last = [4, 0, 0, 0, 0xf4, 0x8f, 0xbf, 0xbf, 0, 0, 0, 0, 0, 0, 0, 0];
    let back = CreateTokenArgs::try_from_slice(&last).unwrap();
    assert_eq!(back.nft_title, "\u{10ffff}");
}

#[test]
fn a_stray_continuation_byte_is_not_utf8() {
    let bytes = [0, 0, 0, 0, 0, 0, 0, 0, 1, 0, 0, 0, 0x80];
    assert!(matches!(
        CreateTokenArgs::try_from_slice(&bytes),
        Err(DecodeError::Field { field: Field::Uri, .. })
    ));
}

#[test]
fn ordinary_requests_fit_the_wire() {
    assert!(request("Cool Cat #1", "CC1", "https://example.com/1.json").fits_wire());
    assert!(request("", "", "").fits_wire());
    assert!(request(&"\u{20ac}".repeat(100_000), "", "").fits_wire());
}

#[test]
fn what_was_decoded_fits_the_wire() {
    let bytes = payload("a", "b", "c");
    assert!(CreateTokenArgs::try_from_slice(&bytes).unwrap().fits_wire());
}
