//! Wire-level data model: the request/response variants exchanged with the
//! enclave and their byte encoding.  Every message travels as a frame: an
//! 8-byte little-endian length prefix followed by the encoded payload.

use crate::error::SgxError;
use vstd::bytes::*;
use vstd::prelude::*;
use vstd::slice::*;
use vstd::utf8::*;

verus! {

/// Payload tag of a key-generation request.
pub const REQ_TAG_GENERATE_KEY: u8 = 0;

/// Payload tag of a public-key retrieval request.
pub const REQ_TAG_GET_PUBLIC_KEY: u8 = 1;

/// An encrypted private-key blob.  Only the enclave can unseal it; the host
/// stores and forwards the bytes without interpreting them.
pub struct SealedSigner {
    pub bytes: Vec<u8>,
}

impl View for SealedSigner {
    type V = Seq<u8>;

    open spec fn view(&self) -> Seq<u8> {
        self.bytes@
    }
}

/// A request sent from the host to the enclave.
pub enum Request {
    /// Ask the enclave to generate a fresh signing key.
    GenerateKey,
    /// Ask the enclave to derive the public key of a previously sealed key.
    GetPublicKey(SealedSigner),
}

/// Mathematical model of a request: the sealed blob is just its bytes.
pub enum ReqModel {
    GenerateKey,
    GetPublicKey(Seq<u8>),
}

impl View for Request {
    type V = ReqModel;

    open spec fn view(&self) -> ReqModel {
        match self {
            Request::GenerateKey => ReqModel::GenerateKey,
            Request::GetPublicKey(s) => ReqModel::GetPublicKey(s@),
        }
    }
}

impl ReqModel {
    /// The payload must be expressible in the 8-byte length prefix.
    pub open spec fn wf(self) -> bool {
        match self {
            ReqModel::GenerateKey => true,
            ReqModel::GetPublicKey(s) => s.len() + 1 <= u64::MAX,
        }
    }
}

/// The encoded payload of a request, before framing.
pub open spec fn spec_request_payload(r: ReqModel) -> Seq<u8> {
    match r {
        ReqModel::GenerateKey => seq![REQ_TAG_GENERATE_KEY],
        ReqModel::GetPublicKey(s) => seq![REQ_TAG_GET_PUBLIC_KEY] + s,
    }
}

/// A frame: 8-byte little-endian payload length, then the payload.
pub open spec fn spec_frame(payload: Seq<u8>) -> Seq<u8>
    recommends
        payload.len() <= u64::MAX,
{
    spec_u64_to_le_bytes(payload.len() as u64) + payload
}

/// The full encoded form of a request: its payload framed.
pub open spec fn spec_encode_request(r: ReqModel) -> Seq<u8> {
    spec_frame(spec_request_payload(r))
}

/// Parses a request payload (the bytes after the length prefix).
pub open spec fn spec_parse_request_payload(p: Seq<u8>) -> Option<ReqModel> {
    if p.len() < 1 {
        None
    } else if p[0] == REQ_TAG_GENERATE_KEY {
        if p.len() == 1 {
            Some(ReqModel::GenerateKey)
        } else {
            None
        }
    } else if p[0] == REQ_TAG_GET_PUBLIC_KEY {
        Some(ReqModel::GetPublicKey(p.skip(1)))
    } else {
        None
    }
}

/// Decodes a full request frame: validates the length prefix, then parses
/// the payload.
pub open spec fn spec_decode_request(data: Seq<u8>) -> Option<ReqModel> {
    if data.len() < 8 {
        None
    } else if data.skip(8).len() != spec_u64_from_le_bytes(data.subrange(0, 8)) {
        None
    } else {
        spec_parse_request_payload(data.skip(8))
    }
}

/// Wire round-trip law for requests: decoding an encoded request yields the
/// request back, for every request whose payload fits the length prefix.
pub proof fn lemma_request_round_trip(r: ReqModel)
    requires
        r.wf(),
    ensures
        spec_decode_request(spec_encode_request(r)) == Some(r),
{
    lemma_auto_spec_u64_to_from_le_bytes();
    let payload = spec_request_payload(r);
    let frame = spec_encode_request(r);
    assert(frame.subrange(0, 8) =~= spec_u64_to_le_bytes(payload.len() as u64));
    assert(frame.skip(8) =~= payload);
    match r {
        ReqModel::GenerateKey => {
        },
        ReqModel::GetPublicKey(s) => {
            assert(payload.skip(1) =~= s);
        },
    }
}

/// Appends the bytes of `src` to `dst`.
pub fn push_bytes(dst: &mut Vec<u8>, src: &Vec<u8>)
    ensures
        final(dst)@ == old(dst)@ + src@,
{
    let mut i: usize = 0;
    while i < src.len()
        invariant
            i <= src.len(),
            dst@ == old(dst)@ + src@.subrange(0, i as int),
        decreases src.len() - i,
    {
        dst.push(src[i]);
        proof {
            assert(old(dst)@ + src@.subrange(0, i as int) + seq![src@[i as int]] =~= old(dst)@
                + src@.subrange(0, i + 1 as int));
        }
        i = i + 1;
    }
    proof {
        assert(old(dst)@ + src@.subrange(0, src@.len() as int) =~= old(dst)@ + src@);
    }
}

/// Copies a byte vector.
pub fn clone_bytes(data: &Vec<u8>) -> (out: Vec<u8>)
    ensures
        out@ == data@,
{
    let mut out: Vec<u8> = Vec::new();
    push_bytes(&mut out, data);
    proof {
        assert(Seq::<u8>::empty() + data@ =~= data@);
    }
    out
}

/// Copies `data[start..end]` into a fresh vector.
pub fn sub_vec(data: &Vec<u8>, start: usize, end: usize) -> (out: Vec<u8>)
    requires
        start <= end,
        end <= data@.len(),
    ensures
        out@ == data@.subrange(start as int, end as int),
{
    let mut out: Vec<u8> = Vec::new();
    let mut i: usize = start;
    while i < end
        invariant
            start <= i <= end,
            end <= data@.len(),
            out@ == data@.subrange(start as int, i as int),
        decreases end - i,
    {
        out.push(data[i]);
        proof {
            assert(data@.subrange(start as int, i as int) + seq![data@[i as int]]
                =~= data@.subrange(start as int, i + 1 as int));
        }
        i = i + 1;
    }
    out
}

/// Wraps a payload into a frame: 8-byte little-endian length, then payload.
pub fn frame_payload(payload: &Vec<u8>) -> (out: Vec<u8>)
    ensures
        out@ == spec_frame(payload@),
{
    proof {
        lemma_auto_spec_u64_to_from_le_bytes();
    }
    let len = payload.len() as u64;
    let mut out = u64_to_le_bytes(len);
    push_bytes(&mut out, payload);
    out
}

/// Serializes a request into a full frame.
pub fn encode_request(r: &Request) -> (out: Vec<u8>)
    ensures
        out@ == spec_encode_request(r@),
{
    let mut payload: Vec<u8> = Vec::new();
    match r {
        Request::GenerateKey => {
            payload.push(REQ_TAG_GENERATE_KEY);
            proof {
                assert(payload@ =~= spec_request_payload(r@));
            }
        },
        Request::GetPublicKey(s) => {
            payload.push(REQ_TAG_GET_PUBLIC_KEY);
            push_bytes(&mut payload, &s.bytes);
            proof {
                assert(payload@ =~= spec_request_payload(r@));
            }
        },
    }
    frame_payload(&payload)
}

/// Deserializes a full request frame: the length prefix must match the
/// payload, and the payload must parse into a known variant.
pub fn decode_request(data: &Vec<u8>) -> (res: Result<Request, SgxError>)
    ensures
        res matches Ok(r) ==> spec_decode_request(data@) == Some(r@),
        res matches Err(e) ==> spec_decode_request(data@) is None && e is DecodeError,
{
    if data.len() < 8 {
        return Err(SgxError::DecodeError);
    }
    let declared = u64_from_le_bytes(slice_subrange(data.as_slice(), 0, 8));
    if (data.len() - 8) as u64 != declared {
        return Err(SgxError::DecodeError);
    }
    let ghost payload = data@.skip(8);
    if data.len() == 8 {
        return Err(SgxError::DecodeError);
    }
    let tag = data[8];
    proof {
        assert(payload[0] == data@[8]);
    }
    if tag == REQ_TAG_GENERATE_KEY {
        if data.len() == 9 {
            Ok(Request::GenerateKey)
        } else {
            Err(SgxError::DecodeError)
        }
    } else if tag == REQ_TAG_GET_PUBLIC_KEY {
        let bytes = sub_vec(data, 9, data.len());
        proof {
            assert(bytes@ =~= payload.skip(1));
        }
        Ok(Request::GetPublicKey(SealedSigner { bytes }))
    } else {
        Err(SgxError::DecodeError)
    }
}

/// Payload tag of a generated-key-pair response.
pub const RESP_TAG_KEY_PAIR: u8 = 0;

/// Payload tag of a public-key response.
pub const RESP_TAG_PUBLIC_KEY: u8 = 1;

/// Payload tag of an error response.
pub const RESP_TAG_ERROR: u8 = 2;

/// A sealed private key paired with its raw public key; produced only by the
/// enclave in answer to a key-generation request.
pub struct KeyPair {
    pub sealed_privkey: SealedSigner,
    pub pubkey: Vec<u8>,
}

/// Mathematical model of a key pair: two byte strings.
pub struct KeyPairModel {
    pub sealed_privkey: Seq<u8>,
    pub pubkey: Seq<u8>,
}

impl View for KeyPair {
    type V = KeyPairModel;

    open spec fn view(&self) -> KeyPairModel {
        KeyPairModel { sealed_privkey: self.sealed_privkey@, pubkey: self.pubkey@ }
    }
}

/// A response sent from the enclave to the host.
pub enum Response {
    /// A freshly generated key pair.
    KeyPair(KeyPair),
    /// The raw public key derived from a sealed key.
    PublicKey(Vec<u8>),
    /// An explicit failure report from the enclave.
    Error(String),
}

/// Mathematical model of a response.
pub enum RespModel {
    KeyPair(KeyPairModel),
    PublicKey(Seq<u8>),
    Error(Seq<char>),
}

impl View for Response {
    type V = RespModel;

    open spec fn view(&self) -> RespModel {
        match self {
            Response::KeyPair(kp) => RespModel::KeyPair(kp@),
            Response::PublicKey(p) => RespModel::PublicKey(p@),
            Response::Error(m) => RespModel::Error(m@),
        }
    }
}

impl RespModel {
    /// The payload must be expressible in the 8-byte length prefix.
    pub open spec fn wf(self) -> bool {
        match self {
            RespModel::KeyPair(kp) => kp.sealed_privkey.len() + kp.pubkey.len() + 9 <= u64::MAX,
            RespModel::PublicKey(p) => p.len() + 1 <= u64::MAX,
            RespModel::Error(m) => encode_utf8(m).len() + 1 <= u64::MAX,
        }
    }
}

/// The encoded payload of a response, before framing.  A key pair carries an
/// inner 8-byte length so that the sealed part can be told from the public
/// part; an error message travels as its UTF-8 bytes.
pub open spec fn spec_response_payload(r: RespModel) -> Seq<u8> {
    match r {
        RespModel::KeyPair(kp) => seq![RESP_TAG_KEY_PAIR] + spec_u64_to_le_bytes(
            kp.sealed_privkey.len() as u64,
        ) + kp.sealed_privkey + kp.pubkey,
        RespModel::PublicKey(p) => seq![RESP_TAG_PUBLIC_KEY] + p,
        RespModel::Error(m) => seq![RESP_TAG_ERROR] + encode_utf8(m),
    }
}

/// The full encoded form of a response: its payload framed.
pub open spec fn spec_encode_response(r: RespModel) -> Seq<u8> {
    spec_frame(spec_response_payload(r))
}

/// Parses a response payload (the bytes after the length prefix).
pub open spec fn spec_parse_response_payload(p: Seq<u8>) -> Option<RespModel> {
    if p.len() < 1 {
        None
    } else if p[0] == RESP_TAG_KEY_PAIR {
        if p.len() < 9 {
            None
        } else {
            let n = spec_u64_from_le_bytes(p.subrange(1, 9));
            if p.len() - 9 < n {
                None
            } else {
                Some(
                    RespModel::KeyPair(
                        KeyPairModel {
                            sealed_privkey: p.subrange(9, 9 + n),
                            pubkey: p.skip(9 + n),
                        },
                    ),
                )
            }
        }
    } else if p[0] == RESP_TAG_PUBLIC_KEY {
        Some(RespModel::PublicKey(p.skip(1)))
    } else if p[0] == RESP_TAG_ERROR {
        if valid_utf8(p.skip(1)) {
            Some(RespModel::Error(decode_utf8(p.skip(1))))
        } else {
            None
        }
    } else {
        None
    }
}

/// Decodes a full response frame: validates the length prefix, then parses
/// the payload.
pub open spec fn spec_decode_response(data: Seq<u8>) -> Option<RespModel> {
    if data.len() < 8 {
        None
    } else if data.skip(8).len() != spec_u64_from_le_bytes(data.subrange(0, 8)) {
        None
    } else {
        spec_parse_response_payload(data.skip(8))
    }
}

/// Wire round-trip law for responses: decoding an encoded response yields
/// the response back, for every response whose payload fits the prefixes.
pub proof fn lemma_response_round_trip(r: RespModel)
    requires
        r.wf(),
    ensures
        spec_decode_response(spec_encode_response(r)) == Some(r),
{
    lemma_auto_spec_u64_to_from_le_bytes();
    let payload = spec_response_payload(r);
    let frame = spec_encode_response(r);
    assert(frame.subrange(0, 8) =~= spec_u64_to_le_bytes(payload.len() as u64));
    assert(frame.skip(8) =~= payload);
    match r {
        RespModel::KeyPair(kp) => {
            let n = kp.sealed_privkey.len() as int;
            assert(payload.subrange(1, 9) =~= spec_u64_to_le_bytes(n as u64));
            assert(payload.subrange(9, 9 + n) =~= kp.sealed_privkey);
            assert(payload.skip(9 + n) =~= kp.pubkey);
        },
        RespModel::PublicKey(p) => {
            assert(payload.skip(1) =~= p);
        },
        RespModel::Error(m) => {
            encode_utf8_valid_utf8(m);
            encode_utf8_decode_utf8(m);
            assert(payload.skip(1) =~= encode_utf8(m));
        },
    }
}

/// Relies on String::from_utf8: it succeeds exactly on valid UTF-8 input,
/// and the returned string's UTF-8 bytes are the input bytes.
#[verifier::external_body]
fn string_from_utf8(v: Vec<u8>) -> (r: Option<String>)
    ensures
        r matches Some(s) ==> encode_utf8(s@) == v@ && valid_utf8(v@),
        r is None ==> !valid_utf8(v@),
{
    String::from_utf8(v).ok()
}

/// Serializes a response into a full frame.
pub fn encode_response(r: &Response) -> (out: Vec<u8>)
    ensures
        out@ == spec_encode_response(r@),
{
    let mut payload: Vec<u8> = Vec::new();
    match r {
        Response::KeyPair(kp) => {
            payload.push(RESP_TAG_KEY_PAIR);
            let inner_len = u64_to_le_bytes(kp.sealed_privkey.bytes.len() as u64);
            push_bytes(&mut payload, &inner_len);
            push_bytes(&mut payload, &kp.sealed_privkey.bytes);
            push_bytes(&mut payload, &kp.pubkey);
            proof {
                assert(payload@ =~= spec_response_payload(r@));
            }
        },
        Response::PublicKey(p) => {
            payload.push(RESP_TAG_PUBLIC_KEY);
            push_bytes(&mut payload, p);
            proof {
                assert(payload@ =~= spec_response_payload(r@));
            }
        },
        Response::Error(m) => {
            payload.push(RESP_TAG_ERROR);
            let msg_bytes = slice_to_vec(m.as_str().as_bytes());
            push_bytes(&mut payload, &msg_bytes);
            proof {
                assert(payload@ =~= spec_response_payload(r@));
            }
        },
    }
    frame_payload(&payload)
}

/// Deserializes a full response frame: the length prefix must match the
/// payload, and the payload must parse into a known variant.
pub fn decode_response(data: &Vec<u8>) -> (res: Result<Response, SgxError>)
    ensures
        res matches Ok(r) ==> spec_decode_response(data@) == Some(r@),
        res matches Err(e) ==> spec_decode_response(data@) is None && e is DecodeError,
{
    if data.len() < 8 {
        return Err(SgxError::DecodeError);
    }
    let declared = u64_from_le_bytes(slice_subrange(data.as_slice(), 0, 8));
    if (data.len() - 8) as u64 != declared {
        return Err(SgxError::DecodeError);
    }
    let ghost payload = data@.skip(8);
    if data.len() == 8 {
        return Err(SgxError::DecodeError);
    }
    let tag = data[8];
    proof {
        assert(payload[0] == data@[8]);
    }
    if tag == RESP_TAG_KEY_PAIR {
        if data.len() < 17 {
            return Err(SgxError::DecodeError);
        }
        let inner = u64_from_le_bytes(slice_subrange(data.as_slice(), 9, 17));
        proof {
            assert(payload.subrange(1, 9) =~= data@.subrange(9, 17));
        }
        if ((data.len() - 17) as u64) < inner {
            return Err(SgxError::DecodeError);
        }
        let sealed_end = 17 + inner as usize;
        let bytes = sub_vec(data, 17, sealed_end);
        let pubkey = sub_vec(data, sealed_end, data.len());
        proof {
            let n = spec_u64_from_le_bytes(payload.subrange(1, 9)) as int;
            assert(bytes@ =~= payload.subrange(9, 9 + n));
            assert(pubkey@ =~= payload.skip(9 + n));
        }
        Ok(Response::KeyPair(KeyPair { sealed_privkey: SealedSigner { bytes }, pubkey }))
    } else if tag == RESP_TAG_PUBLIC_KEY {
        let pubkey = sub_vec(data, 9, data.len());
        proof {
            assert(pubkey@ =~= payload.skip(1));
        }
        Ok(Response::PublicKey(pubkey))
    } else if tag == RESP_TAG_ERROR {
        let msg_bytes = sub_vec(data, 9, data.len());
        proof {
            assert(msg_bytes@ =~= payload.skip(1));
        }
        match string_from_utf8(msg_bytes) {
            Some(s) => {
                proof {
                    encode_utf8_decode_utf8(s@);
                }
                Ok(Response::Error(s))
            },
            None => Err(SgxError::DecodeError),
        }
    } else {
        Err(SgxError::DecodeError)
    }
}

/// Serializes a sealed key for persistence: the stored file holds exactly
/// the sealed bytes, with no framing.
pub fn encode_sealed(signer: &SealedSigner) -> (out: Vec<u8>)
    ensures
        out@ == signer@,
{
    clone_bytes(&signer.bytes)
}

/// Recovers a sealed key from its persisted form.
pub fn decode_sealed(data: &Vec<u8>) -> (out: SealedSigner)
    ensures
        out@ == data@,
{
    let bytes = clone_bytes(data);
    SealedSigner { bytes }
}

} // verus!
