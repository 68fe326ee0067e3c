//! Tests of the registry, the code generator, and the matching engine.

use rendezvous::code::JoinCode;
use rendezvous::engine::{Action, Server};
use rendezvous::generator::generate_code;
use rendezvous::messages::{client_message, host_message};
use rendezvous::registry::Registry;

fn code(bytes: &[u8]) -> JoinCode {
    JoinCode { bytes: bytes.to_vec() }
}

fn is_code_char(b: u8) -> bool {
    b.is_ascii_uppercase() && !matches!(b, b'A' | b'E' | b'I' | b'O' | b'U' | b'Y')
}

#[test]
fn registry_insert_contains_remove() {
    let mut reg: Registry<u64> = Registry::new();
    assert!(!reg.contains(&code(b"XBCDF")));
    reg.insert(code(b"XBCDF"), 7);
    assert!(reg.contains(&code(b"XBCDF")));
    assert!(!reg.contains(&code(b"ZZZZZ")));
    assert_eq!(reg.remove(&code(b"XBCDF")), Some(7));
    assert!(!reg.contains(&code(b"XBCDF")));
    assert_eq!(reg.remove(&code(b"XBCDF")), None);
}

#[test]
fn generated_codes_are_five_restricted_letters() {
    let reg: Registry<u64> = Registry::new();
    for _ in 0..200 {
        let c = generate_code(&reg).expect("an empty registry leaves every code free");
        assert_eq!(c.bytes.len(), 5);
        assert!(c.bytes.iter().all(|&b| is_code_char(b)));
    }
}

#[test]
fn generator_avoids_registered_codes() {
    let mut reg: Registry<u64> = Registry::new();
    let taken: Vec<Vec<u8>> = vec![
        b"XBCDF".to_vec(),
        b"BBBBB".to_vec(),
        b"ZZZZZ".to_vec(),
        b"QWXKJ".to_vec(),
        b"HJKLM".to_vec(),
    ];
    for (i, t) in taken.iter().enumerate() {
        reg.insert(code(t), i as u64);
    }
    for _ in 0..200 {
        let c = generate_code(&reg).expect("most codes are free");
        assert!(taken.iter().all(|t| *t != c.bytes));
        assert!(!reg.contains(&c));
    }
}

#[test]
fn sequence_of_host_requests_yields_distinct_codes() {
    let mut server: Server<u64> = Server::new();
    let mut codes: Vec<Vec<u8>> = Vec::new();
    for i in 0..50 {
        match server.handle_message(&b"HOST".to_vec()) {
            Action::HostAccepted { code, response } => {
                assert_eq!(response.len(), 6);
                codes.push(code.bytes.clone());
                server.register_host(code, i);
            }
            _ => panic!("a host request on a far-from-full registry is accepted"),
        }
    }
    for i in 0..codes.len() {
        for j in (i + 1)..codes.len() {
            assert_ne!(codes[i], codes[j]);
        }
    }
}

#[test]
fn short_join_rejected_and_registry_untouched() {
    let mut server: Server<u64> = Server::new();
    server.register_host(code(b"XBCDF"), 1);
    match server.handle_message(&b"JOIN XBCD".to_vec()) {
        Action::Reject { response } => assert_eq!(response, b"Join request too short\n".to_vec()),
        _ => panic!("expected a rejection"),
    }
    assert!(server.registry.contains(&code(b"XBCDF")));
}

#[test]
fn illegal_join_code_rejected() {
    let mut server: Server<u64> = Server::new();
    server.register_host(code(b"XBCDF"), 1);
    for msg in [&b"JOIN XBCDE"[..], b"JOIN xbcdf", b"JOIN XBCDY", b"JOIN 12345"] {
        match server.handle_message(&msg.to_vec()) {
            Action::Reject { response } => {
                assert_eq!(response, b"Illegal join code\n".to_vec())
            }
            _ => panic!("expected a rejection"),
        }
    }
    assert!(server.registry.contains(&code(b"XBCDF")));
}

#[test]
fn join_without_pending_host_rejected() {
    let mut server: Server<u64> = Server::new();
    match server.handle_message(&b"JOIN XBCDF".to_vec()) {
        Action::Reject { response } => {
            assert_eq!(response, b"No host available with join code\n".to_vec())
        }
        _ => panic!("expected a rejection"),
    }
}

#[test]
fn host_then_join_end_to_end() {
    let mut server: Server<u64> = Server::new();
    let (c, response) = match server.handle_message(&b"HOST".to_vec()) {
        Action::HostAccepted { code, response } => (code, response),
        _ => panic!("a host request on an empty registry is accepted"),
    };
    assert_eq!(response.len(), 6);
    assert_eq!(&response[..5], &c.bytes[..]);
    assert_eq!(response[5], b'\n');
    server.register_host(JoinCode { bytes: c.bytes.clone() }, 41);

    let mut join = b"JOIN ".to_vec();
    join.extend_from_slice(&c.bytes);
    match server.handle_message(&join) {
        Action::MatchFound { host } => assert_eq!(host, 41),
        _ => panic!("the registered code must match"),
    }

    match server.handle_message(&join) {
        Action::Reject { response } => {
            assert_eq!(response, b"No host available with join code\n".to_vec())
        }
        _ => panic!("a consumed code cannot match twice"),
    }
}

#[test]
fn concrete_rendezvous_scenario() {
    // Registry empty; a host at endpoint E1 is accepted under XBCDF; a peer
    // at endpoint E2 joins with that code; each side is told the other's
    // address and the registry is empty again.
    let mut server: Server<&str> = Server::new();
    server.register_host(code(b"XBCDF"), "E1");
    let host = match server.handle_message(&b"JOIN XBCDF".to_vec()) {
        Action::MatchFound { host } => host,
        _ => panic!("the registered code must match"),
    };
    assert_eq!(host, "E1");
    assert_eq!(client_message(&b"E2".to_vec()), b"Client: E2".to_vec());
    assert_eq!(host_message(&b"E1".to_vec()), b"Host: E1".to_vec());
    assert!(!server.registry.contains(&code(b"XBCDF")));
    match server.handle_message(&b"JOIN XBCDF".to_vec()) {
        Action::Reject { response } => {
            assert_eq!(response, b"No host available with join code\n".to_vec())
        }
        _ => panic!("the registry is empty again"),
    }
}
