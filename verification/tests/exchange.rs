//! Tests of the session exchange: full round trips against a scripted
//! enclave side, and failure as `ChannelClosed` when an endpoint is gone.

use sgxsign::commands::{KeygenCommand, PubkeyCommand};
use sgxsign::error::SgxError;
use sgxsign::exchange::{init_channel, send};
use sgxsign::protocol::{encode_response, KeyPair, Request, Response, SealedSigner};

fn key_pair(sealed: &[u8], pubkey: &[u8]) -> KeyPair {
    KeyPair { sealed_privkey: SealedSigner { bytes: sealed.to_vec() }, pubkey: pubkey.to_vec() }
}

#[test]
fn init_channel_connects_both_directions() {
    let session = init_channel();
    session.host_tx.send(b"request bytes".to_vec()).unwrap();
    assert_eq!(session.enclave_rx.recv().unwrap(), b"request bytes".to_vec());
    session.enclave_tx.send(b"response bytes".to_vec()).unwrap();
    assert_eq!(session.host_rx.recv().unwrap(), b"response bytes".to_vec());
}

#[test]
fn sessions_do_not_share_channels() {
    let first = init_channel();
    let second = init_channel();
    first.host_tx.send(b"first".to_vec()).unwrap();
    second.host_tx.send(b"second".to_vec()).unwrap();
    // Each session's enclave end sees only its own traffic.
    assert_eq!(first.enclave_rx.recv().unwrap(), b"first".to_vec());
    assert_eq!(second.enclave_rx.recv().unwrap(), b"second".to_vec());
    assert!(first.enclave_rx.try_recv().is_err());
    assert!(second.enclave_rx.try_recv().is_err());
}

#[test]
fn send_transmits_prefix_then_body_and_decodes_reply() {
    let session = init_channel();
    // Script the enclave's one reply before the exchange starts.
    let reply = Response::PublicKey(b"P".to_vec());
    session.enclave_tx.send(encode_response(&reply)).unwrap();

    let res = send(&Request::GenerateKey, &session.host_tx, &session.host_rx).unwrap();
    assert!(matches!(res, Response::PublicKey(p) if p == b"P".to_vec()));

    // The request arrived as exactly two messages: the 8-byte length prefix,
    // then the payload.
    let head = session.enclave_rx.recv().unwrap();
    let body = session.enclave_rx.recv().unwrap();
    assert_eq!(head, vec![1, 0, 0, 0, 0, 0, 0, 0]);
    assert_eq!(body, vec![0]);
}

#[test]
fn send_fails_with_channel_closed_when_reply_channel_is_gone() {
    let session = init_channel();
    // The enclave side ends before sending any reply.
    drop(session.enclave_tx);
    let res = send(&Request::GenerateKey, &session.host_tx, &session.host_rx);
    assert!(matches!(res, Err(SgxError::ChannelClosed)));
}

#[test]
fn send_fails_with_channel_closed_when_request_channel_is_gone() {
    let session = init_channel();
    drop(session.enclave_rx);
    let res = send(&Request::GenerateKey, &session.host_tx, &session.host_rx);
    assert!(matches!(res, Err(SgxError::ChannelClosed)));
}

#[test]
fn send_fails_with_decode_error_on_malformed_reply() {
    let session = init_channel();
    session.enclave_tx.send(vec![9, 9, 9]).unwrap();
    let res = send(&Request::GenerateKey, &session.host_tx, &session.host_rx);
    assert!(matches!(res, Err(SgxError::DecodeError)));
}

#[test]
fn keygen_session_on_fresh_path_persists_sealed_key() {
    let cmd = KeygenCommand {
        key_path: String::from("/tmp/fresh.key"),
        sgx_path: String::from("signer.sgxs"),
    };
    let session = init_channel();
    let reply = Response::KeyPair(key_pair(b"S", b"P"));
    session.enclave_tx.send(encode_response(&reply)).unwrap();

    let (bytes, shown) = cmd.run_exchange(false, &session.host_tx, &session.host_rx).unwrap();
    assert_eq!(bytes, b"S".to_vec());
    assert_eq!(shown, "50");
}

#[test]
fn keygen_session_on_existing_path_reports_key_already_exists() {
    let cmd = KeygenCommand {
        key_path: String::from("/tmp/existing.key"),
        sgx_path: String::from("signer.sgxs"),
    };
    let session = init_channel();
    let reply = Response::KeyPair(key_pair(b"S", b"P"));
    session.enclave_tx.send(encode_response(&reply)).unwrap();

    let res = cmd.run_exchange(true, &session.host_tx, &session.host_rx);
    assert!(matches!(res, Err(SgxError::KeyAlreadyExists)));
}

#[test]
fn keygen_session_surfaces_enclave_error() {
    let cmd = KeygenCommand {
        key_path: String::from("/tmp/fresh.key"),
        sgx_path: String::from("signer.sgxs"),
    };
    let session = init_channel();
    session.enclave_tx.send(encode_response(&Response::Error(String::from("x")))).unwrap();

    match cmd.run_exchange(false, &session.host_tx, &session.host_rx) {
        Err(SgxError::EnclaveReportedError(m)) => assert_eq!(m, "x"),
        other => panic!("expected EnclaveReportedError, got Ok: {}", other.is_ok()),
    }
}

#[test]
fn pubkey_session_reports_rendered_key() {
    let cmd = PubkeyCommand {
        key_path: String::from("/tmp/existing.key"),
        sgx_path: String::from("127.0.0.1:8888"),
    };
    let session = init_channel();
    session.enclave_tx.send(encode_response(&Response::PublicKey(vec![0xab]))).unwrap();

    let stored = b"S".to_vec();
    let shown = cmd.get_pubkey(&stored, &session.host_tx, &session.host_rx).unwrap();
    assert_eq!(shown, "ab");

    // The enclave side saw the sealed key it was asked about.
    let head = session.enclave_rx.recv().unwrap();
    let body = session.enclave_rx.recv().unwrap();
    assert_eq!(head, vec![2, 0, 0, 0, 0, 0, 0, 0]);
    assert_eq!(body, vec![1, 83]);
}
