//! Synchronous request/response exchange with the enclave task over a pair
//! of one-shot byte channels.  A session owns a fresh channel pair; the
//! request travels as exactly two messages (8-byte length prefix, then the
//! payload), and exactly one framed reply is awaited.

use crate::error::SgxError;
use crate::protocol::{
    decode_response, encode_request, spec_decode_response, sub_vec, Request, Response,
};
use std::sync::mpsc::{Receiver, Sender};
use vstd::bytes::lemma_auto_spec_u64_to_from_le_bytes;
use vstd::prelude::*;

verus! {

/// Sending half of a byte channel, as std offers it.
#[verifier::external_type_specification]
#[verifier::external_body]
#[verifier::reject_recursive_types(T)]
pub struct ExSender<T>(Sender<T>);

/// Receiving half of a byte channel, as std offers it.
#[verifier::external_type_specification]
#[verifier::external_body]
#[verifier::reject_recursive_types(T)]
pub struct ExReceiver<T>(Receiver<T>);

/// Relies on std::sync::mpsc::channel: the returned sender and receiver are
/// the two ends of one fresh FIFO channel.
#[verifier::external_body]
fn channel_pair() -> (Sender<Vec<u8>>, Receiver<Vec<u8>>) {
    std::sync::mpsc::channel()
}

/// Relies on std::sync::mpsc::Sender::send: it returns whether the message
/// was accepted; it fails exactly when the receiving end has been dropped.
#[verifier::external_body]
fn channel_send(tx: &Sender<Vec<u8>>, data: Vec<u8>) -> bool {
    tx.send(data).is_ok()
}

/// Relies on std::sync::mpsc::Receiver::recv: it blocks until a message
/// arrives and yields it, or yields nothing once the sending end has been
/// dropped with the channel empty.
#[verifier::external_body]
fn channel_recv(rx: &Receiver<Vec<u8>>) -> Option<Vec<u8>> {
    rx.recv().ok()
}

/// The four endpoints of one command invocation's session: one channel that
/// carries the framed request to the enclave, one that carries the framed
/// reply back.  The enclave-facing ends are handed directly to the enclave
/// task when it is started, so no process-wide slots are needed and a pair
/// can never leak into another session.
pub struct SessionChannels {
    /// Host's sending end of the request channel.
    pub host_tx: Sender<Vec<u8>>,
    /// Host's receiving end of the response channel.
    pub host_rx: Receiver<Vec<u8>>,
    /// Enclave task's receiving end of the request channel.
    pub enclave_rx: Receiver<Vec<u8>>,
    /// Enclave task's sending end of the response channel.
    pub enclave_tx: Sender<Vec<u8>>,
}

/// Allocates the two fresh channels of one session and hands back all four
/// endpoints; the caller passes the enclave-facing ends to the enclave task
/// before the exchange starts.
pub fn init_channel() -> SessionChannels {
    let (host_tx, enclave_rx) = channel_pair();
    let (enclave_tx, host_rx) = channel_pair();
    SessionChannels { host_tx, host_rx, enclave_rx, enclave_tx }
}

/// One exactly-once round trip: frames `request`, transmits the frame as two
/// messages (the 8-byte length prefix first, because the enclave sizes its
/// payload read from it), then blocks for the single framed reply and
/// decodes it.  A closed channel on either direction is reported as
/// `ChannelClosed`; a reply that does not parse as `DecodeError`.
pub fn send(request: &Request, tx: &Sender<Vec<u8>>, rx: &Receiver<Vec<u8>>) -> (res: Result<
    Response,
    SgxError,
>)
    ensures
        res matches Ok(resp) ==> exists|reply: Seq<u8>| spec_decode_response(reply) == Some(
            resp@,
        ),
        res matches Err(e) ==> e is ChannelClosed || e is DecodeError,
{
    let raw_data = encode_request(request);
    proof {
        lemma_auto_spec_u64_to_from_le_bytes();
    }
    let head = sub_vec(&raw_data, 0, 8);
    let body = sub_vec(&raw_data, 8, raw_data.len());
    if !channel_send(tx, head) {
        return Err(SgxError::ChannelClosed);
    }
    if !channel_send(tx, body) {
        return Err(SgxError::ChannelClosed);
    }
    match channel_recv(rx) {
        None => Err(SgxError::ChannelClosed),
        Some(data) => match decode_response(&data) {
            Ok(resp) => {
                proof {
                    assert(spec_decode_response(data@) == Some(resp@));
                }
                Ok(resp)
            },
            Err(e) => Err(e),
        },
    }
}

} // verus!
