use subprocess_inject_env::agent::{parse_request, RequestOutcome};
use subprocess_inject_env::protocol::{component_ok, encode_request, nul_free};
use subprocess_inject_env::wire::{i32_from_le_bytes, i32_to_le_bytes, u32_from_le_bytes, u32_to_le_bytes};

fn secret() -> Vec<u8> {
    vec![b'A'; 32]
}

fn frame(secret: &[u8], key: &[u8], value: &[u8]) -> Vec<u8> {
    let mut data = secret.to_vec();
    data.extend_from_slice(&u32_to_le_bytes(key.len() as u32));
    data.extend_from_slice(&u32_to_le_bytes(value.len() as u32));
    data.extend_from_slice(key);
    data.extend_from_slice(value);
    data
}

#[test]
fn word_round_trips() {
    for x in [0u32, 1, 255, 256, 65536, 16777216, u32::MAX] {
        let bytes = u32_to_le_bytes(x);
        assert_eq!(bytes.len(), 4);
        assert_eq!(u32_from_le_bytes(&bytes), x);
    }
    for s in [0i32, 1, 22, -1, i32::MIN, i32::MAX] {
        let bytes = i32_to_le_bytes(s);
        assert_eq!(i32_from_le_bytes(&bytes), s);
    }
    assert_eq!(u32_to_le_bytes(0x01020304), vec![0x04, 0x03, 0x02, 0x01]);
    assert_eq!(i32_to_le_bytes(-1), vec![0xFF, 0xFF, 0xFF, 0xFF]);
}

#[test]
fn component_validity() {
    assert!(nul_free(b"SOME_ENV_VAR"));
    assert!(!nul_free(b"SOME\0VAR"));
    assert!(!nul_free(b"\0"));
    assert!(nul_free(b""));
    assert!(component_ok(b"injected_value"));
    assert!(!component_ok(b"bad\0value"));
    assert!(component_ok(&vec![b'x'; 1048576]));
    assert!(!component_ok(&vec![b'x'; 1048577]));
}

#[test]
fn encode_layout_is_exact() {
    let secret = secret();
    let bytes = encode_request(&secret, b"K", b"val");
    let mut expect = secret.clone();
    expect.extend_from_slice(&[1, 0, 0, 0]);
    expect.extend_from_slice(&[3, 0, 0, 0]);
    expect.extend_from_slice(b"K");
    expect.extend_from_slice(b"val");
    assert_eq!(bytes, expect);
}

#[test]
fn request_round_trip() {
    let secret = secret();
    let data = encode_request(&secret, b"SOME_ENV_VAR", b"injected_value");
    match parse_request(&secret, &data) {
        RequestOutcome::Mutate { key, value } => {
            assert_eq!(key, b"SOME_ENV_VAR".to_vec());
            assert_eq!(value, b"injected_value".to_vec());
        }
        _ => panic!("a well-formed request must parse as a mutation"),
    }
}

#[test]
fn wrong_secret_is_silently_rejected() {
    let secret = secret();
    let mut other = secret.clone();
    other[31] = b'B';
    let data = encode_request(&other, b"KEY", b"value");
    assert!(matches!(parse_request(&secret, &data), RequestOutcome::Reject));
}

#[test]
fn wrong_length_secret_looks_like_any_mismatch() {
    let secret = secret();
    // A peer that sends a 31-byte secret: the stream has no length marker,
    // so the agent simply compares the first 32 bytes, which now include the
    // first byte of the key-length word.
    let short = vec![b'A'; 31];
    let data = frame(&short, b"KEY", b"value");
    assert!(matches!(parse_request(&secret, &data), RequestOutcome::Reject));
    // A 33-byte secret shifts the whole frame by one byte instead.
    let long = vec![b'A'; 33];
    let data = frame(&long, b"KEY", b"value");
    match parse_request(&secret, &data) {
        RequestOutcome::Reject => {}
        RequestOutcome::RespondError { .. } | RequestOutcome::Mutate { .. } => {
            panic!("a mismatched stream must be rejected without a response")
        }
    }
}

#[test]
fn truncated_frames_are_rejected() {
    let secret = secret();
    let data = encode_request(&secret, b"KEY", b"value");
    for cut in [0, 10, 31, 32, 35, 39, 40, data.len() - 1] {
        assert!(matches!(parse_request(&secret, &data[..cut]), RequestOutcome::Reject));
    }
}

#[test]
fn implausible_lengths_are_rejected() {
    let secret = secret();
    // Key length beyond the allocation bound.
    let mut data = secret.clone();
    data.extend_from_slice(&u32_to_le_bytes(1048577));
    data.extend_from_slice(&u32_to_le_bytes(0));
    assert!(matches!(parse_request(&secret, &data), RequestOutcome::Reject));
    // A negative 32-bit value length.
    let mut data = secret.clone();
    data.extend_from_slice(&u32_to_le_bytes(3));
    data.extend_from_slice(&u32_to_le_bytes(0x8000_0000));
    data.extend_from_slice(b"KEY");
    assert!(matches!(parse_request(&secret, &data), RequestOutcome::Reject));
}

#[test]
fn embedded_nul_gets_a_status_not_a_crash() {
    let secret = secret();
    let data = frame(&secret, b"KEY", b"bad\0value");
    match parse_request(&secret, &data) {
        RequestOutcome::RespondError { status } => assert_eq!(status, 22),
        _ => panic!("an embedded terminator byte must fail with a status"),
    }
}

#[test]
fn trailing_bytes_are_ignored() {
    let secret = secret();
    let mut data = encode_request(&secret, b"K", b"v");
    data.extend_from_slice(b"extra");
    match parse_request(&secret, &data) {
        RequestOutcome::Mutate { key, value } => {
            assert_eq!(key, b"K".to_vec());
            assert_eq!(value, b"v".to_vec());
        }
        _ => panic!("bytes past the frame must not disturb the request"),
    }
}

#[test]
fn empty_components_round_trip() {
    let secret = secret();
    let data = encode_request(&secret, b"", b"");
    match parse_request(&secret, &data) {
        RequestOutcome::Mutate { key, value } => {
            assert!(key.is_empty());
            assert!(value.is_empty());
        }
        _ => panic!("empty components are valid"),
    }
}
