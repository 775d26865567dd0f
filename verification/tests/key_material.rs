use base64::Engine;
use meshtassy_net::key::key_from_decoded;
use meshtassy_net::{parse_key, CryptoError};

fn encode(bytes: &[u8]) -> String {
    base64::engine::general_purpose::STANDARD.encode(bytes)
}

fn counting(n: usize) -> Vec<u8> {
    (0..n).map(|i| (i + 1) as u8).collect()
}

#[test]
fn one_byte_key_is_padded_with_zeros() {
    let key = parse_key("AQ==").unwrap();
    let mut expected = [0u8; 32];
    expected[0] = 1;
    assert_eq!(key, expected);
}

#[test]
fn sixteen_byte_key_is_padded_to_thirty_two() {
    let key = parse_key("1PG7OiApB1nwvP+rz05pAQ==").unwrap();
    let raw = [
        0xd4, 0xf1, 0xbb, 0x3a, 0x20, 0x29, 0x07, 0x59, 0xf0, 0xbc, 0xff, 0xab, 0xcf, 0x4e, 0x69,
        0x01,
    ];
    assert_eq!(&key[..16], &raw[..]);
    assert_eq!(&key[16..], &[0u8; 16][..]);
}

#[test]
fn thirty_two_byte_key_is_kept_as_it_is() {
    let raw = counting(32);
    let key = parse_key(&encode(&raw)).unwrap();
    assert_eq!(&key[..], &raw[..]);
}

#[test]
fn longer_key_is_cut_after_thirty_two_bytes() {
    let raw = counting(48);
    let key = parse_key(&encode(&raw)).unwrap();
    assert_eq!(&key[..], &raw[..32]);
}

#[test]
fn sixty_four_decoded_bytes_still_fit() {
    let raw = counting(64);
    let key = parse_key(&encode(&raw)).unwrap();
    assert_eq!(&key[..], &raw[..32]);
}

#[test]
fn more_than_sixty_four_decoded_bytes_are_rejected() {
    assert_eq!(
        parse_key(&encode(&counting(65))),
        Err(CryptoError::InvalidBase64)
    );
    assert_eq!(
        parse_key(&encode(&counting(66))),
        Err(CryptoError::InvalidBase64)
    );
    assert_eq!(
        parse_key(&encode(&counting(200))),
        Err(CryptoError::InvalidBase64)
    );
}

#[test]
fn empty_text_gives_empty_key() {
    assert_eq!(parse_key(""), Err(CryptoError::EmptyKey));
}

#[test]
fn text_outside_the_alphabet_is_invalid() {
    assert_eq!(parse_key("!!!!"), Err(CryptoError::InvalidBase64));
    assert_eq!(parse_key("AQ==\n"), Err(CryptoError::InvalidBase64));
    assert_eq!(parse_key("A Q="), Err(CryptoError::InvalidBase64));
}

#[test]
fn bad_padding_or_length_is_invalid() {
    assert_eq!(parse_key("AQ="), Err(CryptoError::InvalidBase64));
    assert_eq!(parse_key("AQ"), Err(CryptoError::InvalidBase64));
    assert_eq!(parse_key("A"), Err(CryptoError::InvalidBase64));
    assert_eq!(parse_key("===="), Err(CryptoError::InvalidBase64));
    assert_eq!(parse_key("AQ==AQ=="), Err(CryptoError::InvalidBase64));
}

#[test]
fn url_safe_alphabet_is_invalid() {
    // '-' and '_' belong to the URL-safe alphabet only.
    assert_eq!(parse_key("-_-_"), Err(CryptoError::InvalidBase64));
}

#[test]
fn key_material_repeats_bytes_then_zeros() {
    for len in 1..=40usize {
        let raw = counting(len);
        let key = parse_key(&encode(&raw)).unwrap();
        let kept = len.min(32);
        for i in 0..kept {
            assert_eq!(key[i], raw[i]);
        }
        for i in kept..32 {
            assert_eq!(key[i], 0);
        }
    }
}

#[test]
fn decoded_bytes_become_key_material() {
    assert_eq!(key_from_decoded(&[]), Err(CryptoError::EmptyKey));
    let mut expected = [0u8; 32];
    expected[0] = 7;
    expected[1] = 8;
    assert_eq!(key_from_decoded(&[7, 8]), Ok(expected));
    let long = counting(50);
    let key = key_from_decoded(&long).unwrap();
    assert_eq!(&key[..], &long[..32]);
}

#[test]
fn parsing_a_key_twice_gives_the_same_key() {
    assert_eq!(parse_key("AQIDBAUGBwgJCgsMDQ4PEA=="), parse_key("AQIDBAUGBwgJCgsMDQ4PEA=="));
}
