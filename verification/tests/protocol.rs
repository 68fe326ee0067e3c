//! Tests of the message grammar and the wire-format responses.

use rendezvous::code::{is_code_byte, JoinCode};
use rendezvous::messages::{
    client_message, host_message, host_response, illegal_code_response, no_host_response,
    too_short_response,
};
use rendezvous::parse::{parse_message, ParsedMessage};

#[test]
fn host_request_exact() {
    let msg = b"HOST".to_vec();
    assert!(matches!(parse_message(&msg), ParsedMessage::HostRequest));
}

#[test]
fn host_request_trailing_bytes_ignored() {
    let msg = b"HOST and anything after".to_vec();
    assert!(matches!(parse_message(&msg), ParsedMessage::HostRequest));
}

#[test]
fn join_request_well_formed() {
    let msg = b"JOIN XBCDF".to_vec();
    match parse_message(&msg) {
        ParsedMessage::JoinRequest { code } => assert_eq!(code.bytes, b"XBCDF".to_vec()),
        _ => panic!("expected a join request"),
    }
}

#[test]
fn join_request_any_delimiter_byte() {
    let msg = b"JOIN_XBCDF".to_vec();
    match parse_message(&msg) {
        ParsedMessage::JoinRequest { code } => assert_eq!(code.bytes, b"XBCDF".to_vec()),
        _ => panic!("expected a join request"),
    }
}

#[test]
fn join_request_trailing_bytes_ignored() {
    let msg = b"JOIN XBCDF and anything after".to_vec();
    match parse_message(&msg) {
        ParsedMessage::JoinRequest { code } => assert_eq!(code.bytes, b"XBCDF".to_vec()),
        _ => panic!("expected a join request"),
    }
}

#[test]
fn join_request_too_short() {
    let msg = b"JOIN XBCD".to_vec();
    assert!(matches!(parse_message(&msg), ParsedMessage::JoinTooShort));
    let bare = b"JOIN".to_vec();
    assert!(matches!(parse_message(&bare), ParsedMessage::JoinTooShort));
}

#[test]
fn join_request_vowel_rejected() {
    let msg = b"JOIN XBCDA".to_vec();
    assert!(matches!(parse_message(&msg), ParsedMessage::JoinIllegalCode));
}

#[test]
fn join_request_letter_y_rejected() {
    let msg = b"JOIN XBCDY".to_vec();
    assert!(matches!(parse_message(&msg), ParsedMessage::JoinIllegalCode));
}

#[test]
fn join_request_lowercase_rejected() {
    let msg = b"JOIN xbcdf".to_vec();
    assert!(matches!(parse_message(&msg), ParsedMessage::JoinIllegalCode));
}

#[test]
fn unknown_prefix_unrecognized() {
    let msg = b"PING XBCDF".to_vec();
    assert!(matches!(parse_message(&msg), ParsedMessage::Unrecognized));
    let empty = Vec::new();
    assert!(matches!(parse_message(&empty), ParsedMessage::Unrecognized));
    let short = b"HOS".to_vec();
    assert!(matches!(parse_message(&short), ParsedMessage::Unrecognized));
}

#[test]
fn code_byte_alphabet() {
    for b in 0u8..=255u8 {
        let expected = b.is_ascii_uppercase() && !matches!(b, b'A' | b'E' | b'I' | b'O' | b'U' | b'Y');
        assert_eq!(is_code_byte(b), expected);
    }
}

#[test]
fn host_response_is_code_and_newline() {
    let code = JoinCode { bytes: b"XBCDF".to_vec() };
    let r = host_response(&code);
    assert_eq!(r, b"XBCDF\n".to_vec());
    assert_eq!(r.len(), 6);
}

#[test]
fn error_response_texts() {
    assert_eq!(too_short_response(), b"Join request too short\n".to_vec());
    assert_eq!(illegal_code_response(), b"Illegal join code\n".to_vec());
    assert_eq!(
        no_host_response(),
        b"No host available with join code\n".to_vec()
    );
}

#[test]
fn relay_message_texts() {
    assert_eq!(
        client_message(&b"127.0.0.1:4001".to_vec()),
        b"Client: 127.0.0.1:4001".to_vec()
    );
    assert_eq!(
        host_message(&b"127.0.0.1:4000".to_vec()),
        b"Host: 127.0.0.1:4000".to_vec()
    );
}
