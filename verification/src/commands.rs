//! Command orchestrators: the two request flows (key generation, public-key
//! retrieval) and their domain policy.  The surrounding process performs the
//! file reads and writes and starts the enclave task; these functions decide
//! what to send, how to interpret the reply, which bytes may be persisted,
//! and what to report.

use crate::error::SgxError;
use crate::exchange::send;
use crate::protocol::{decode_sealed, encode_sealed, KeyPair, KeyPairModel, Request, Response};
use std::sync::mpsc::{Receiver, Sender};
use vstd::prelude::*;

verus! {

/// The character standing for a half-byte in the rendered public key.
pub open spec fn spec_hex_char(n: u8) -> char
    recommends
        n < 16,
{
    if n < 10 {
        (48 + n) as char
    } else {
        (87 + n) as char
    }
}

/// Lower-case hexadecimal rendering of a byte string, two characters per
/// byte, high half first.
pub open spec fn spec_hex(bs: Seq<u8>) -> Seq<char> {
    Seq::new(
        bs.len() * 2,
        |i: int|
            if i % 2 == 0 {
                spec_hex_char(bs[i / 2] >> 4)
            } else {
                spec_hex_char(bs[i / 2] & 0xf)
            },
    )
}

/// Relies on String::push: it appends exactly the given character.
#[verifier::external_body]
fn string_push(s: &mut String, c: char)
    ensures
        final(s)@ == old(s)@.push(c),
{
    s.push(c);
}

fn hex_char(n: u8) -> (c: char)
    requires
        n < 16,
    ensures
        c == spec_hex_char(n),
{
    if n < 10 {
        (48 + n) as char
    } else {
        (87 + n) as char
    }
}

/// Renders raw key bytes in the display form the commands report: lower-case
/// hexadecimal.
pub fn pubkey_display(data: &Vec<u8>) -> (s: String)
    ensures
        s@ == spec_hex(data@),
{
    let mut s = String::new();
    let mut i: usize = 0;
    while i < data.len()
        invariant
            i <= data.len(),
            s@ == spec_hex(data@).take(2 * i as int),
        decreases data.len() - i,
    {
        let b = data[i];
        proof {
            assert(b >> 4 < 16 && b & 0xf < 16) by (bit_vector);
        }
        string_push(&mut s, hex_char(b >> 4));
        string_push(&mut s, hex_char(b & 0xf));
        proof {
            assert(s@ =~= spec_hex(data@).take(2 * (i + 1) as int));
        }
        i = i + 1;
    }
    proof {
        assert(spec_hex(data@).take(2 * data@.len() as int) =~= spec_hex(data@));
    }
    s
}

/// The `keygen` command: ask the enclave for a fresh key pair, persist the
/// sealed private key at `key_path`, and report the public key.
pub struct KeygenCommand {
    /// File path where the generated secret key is to be created.
    pub key_path: String,
    /// Path of the enclave image to run.
    pub sgx_path: String,
}

impl KeygenCommand {
    /// Key-storage policy.  `path_exists` says whether a file is already
    /// present at the target path; overwriting a validator's key risks key
    /// loss or double signing, so an existing path fails before anything is
    /// written.  Otherwise the result carries exactly the bytes to persist
    /// (the encoded sealed key) and the rendered public key to report.
    pub fn store_key(&self, path_exists: bool, key_pair: &KeyPair) -> (res: Result<
        (Vec<u8>, String),
        SgxError,
    >)
        ensures
            path_exists ==> (res matches Err(e) && e is KeyAlreadyExists),
            !path_exists ==> (res matches Ok(out) && out.0@ == key_pair@.sealed_privkey && out.1@
                == spec_hex(key_pair@.pubkey)),
    {
        if path_exists {
            return Err(SgxError::KeyAlreadyExists);
        }
        let secret_raw_data = encode_sealed(&key_pair.sealed_privkey);
        let pubkey_str = pubkey_display(&key_pair.pubkey);
        Ok((secret_raw_data, pubkey_str))
    }

    /// Applies the command's policy to the enclave's reply: only a key-pair
    /// reply on a fresh path yields bytes to persist; an explicit enclave
    /// error is surfaced verbatim; any other variant violates the protocol.
    pub fn process_response(&self, path_exists: bool, response: &Response) -> (res: Result<
        (Vec<u8>, String),
        SgxError,
    >)
        ensures
            res matches Ok(out) ==> !path_exists,
            res matches Ok(out) ==> (response matches Response::KeyPair(kp)
                && out.0@ == kp@.sealed_privkey && out.1@ == spec_hex(kp@.pubkey)),
            response matches Response::KeyPair(kp) && !path_exists ==> res is Ok,
            response is KeyPair && path_exists ==> (res matches Err(e) && e is KeyAlreadyExists),
            response matches Response::Error(m) ==> (res matches Err(e) && e matches SgxError::EnclaveReportedError(m2)
                && m2@ == m@),
            response is PublicKey ==> (res matches Err(e) && e is ProtocolViolation),
    {
        match response {
            Response::KeyPair(key_pair) => self.store_key(path_exists, key_pair),
            Response::Error(s) => Err(SgxError::EnclaveReportedError(s.clone())),
            Response::PublicKey(_) => Err(SgxError::ProtocolViolation),
        }
    }

    /// One full key-generation round trip on an already initialized session:
    /// issues the generation request and applies `process_response` to the
    /// reply.  On an existing target path nothing is ever returned for
    /// persistence.
    pub fn run_exchange(
        &self,
        path_exists: bool,
        tx: &Sender<Vec<u8>>,
        rx: &Receiver<Vec<u8>>,
    ) -> (res: Result<(Vec<u8>, String), SgxError>)
        ensures
            path_exists ==> !(res is Ok),
            res matches Ok(out) ==> exists|kp: KeyPairModel| out.0@ == kp.sealed_privkey
                && out.1@ == spec_hex(kp.pubkey),
            res matches Err(e) ==> (e is ChannelClosed || e is DecodeError
                || e is KeyAlreadyExists || e is EnclaveReportedError || e is ProtocolViolation),
    {
        let request = Request::GenerateKey;
        match send(&request, tx, rx) {
            Err(e) => Err(e),
            Ok(response) => {
                let res = self.process_response(path_exists, &response);
                proof {
                    if res is Ok {
                        assert(response@ matches crate::protocol::RespModel::KeyPair(kp)
                            && res->Ok_0.0@ == kp.sealed_privkey && res->Ok_0.1@ == spec_hex(
                            kp.pubkey,
                        ));
                    }
                }
                res
            },
        }
    }
}

/// The `pubkey` command: load a previously persisted sealed key, ask the
/// enclave for its public key, and report it.
pub struct PubkeyCommand {
    /// File path where the sealed secret key is stored.
    pub key_path: String,
    /// Network address of the enclave, in `ip:port` form.
    pub sgx_path: String,
}

impl PubkeyCommand {
    /// Interprets the enclave's reply to a public-key request: a public key
    /// is rendered for display, an explicit enclave error is surfaced
    /// verbatim, and any other variant violates the protocol.
    pub fn interpret_response(response: &Response) -> (res: Result<String, SgxError>)
        ensures
            response matches Response::PublicKey(p) ==> (res matches Ok(s) && s@ == spec_hex(p@)),
            response matches Response::Error(m) ==> (res matches Err(e) && e matches SgxError::EnclaveReportedError(m2)
                && m2@ == m@),
            response is KeyPair ==> (res matches Err(e) && e is ProtocolViolation),
    {
        match response {
            Response::PublicKey(pubkey_raw) => Ok(pubkey_display(pubkey_raw)),
            Response::Error(s) => Err(SgxError::EnclaveReportedError(s.clone())),
            Response::KeyPair(_) => Err(SgxError::ProtocolViolation),
        }
    }

    /// One full public-key round trip on an already initialized session:
    /// decodes the stored sealed key (`stored` holds the persisted file's
    /// bytes), sends the retrieval request, and interprets the reply.
    pub fn get_pubkey(
        &self,
        stored: &Vec<u8>,
        tx: &Sender<Vec<u8>>,
        rx: &Receiver<Vec<u8>>,
    ) -> (res: Result<String, SgxError>)
        ensures
            res matches Ok(s) ==> exists|p: Seq<u8>| s@ == spec_hex(p),
            res matches Err(e) ==> (e is ChannelClosed || e is DecodeError
                || e is EnclaveReportedError || e is ProtocolViolation),
    {
        let sealed_signer = decode_sealed(stored);
        let request = Request::GetPublicKey(sealed_signer);
        match send(&request, tx, rx) {
            Err(e) => Err(e),
            Ok(response) => {
                let res = Self::interpret_response(&response);
                proof {
                    if res is Ok {
                        assert(response@ matches crate::protocol::RespModel::PublicKey(p)
                            && res->Ok_0@ == spec_hex(p));
                    }
                }
                res
            },
        }
    }
}

} // verus!
