//! An in-process transport: a client and a server joined by channels, each
//! call carrying its encoded request and a one-slot channel for its reply.

use vstd::prelude::*;
use std::sync::mpsc::{Receiver, RecvError, SendError, Sender, SyncSender};

verus! {

#[verifier::external_type_specification]
#[verifier::external_body]
#[verifier::reject_recursive_types(T)]
pub struct ExSender<T>(Sender<T>);

#[verifier::external_type_specification]
#[verifier::external_body]
#[verifier::reject_recursive_types(T)]
pub struct ExSyncSender<T>(SyncSender<T>);

#[verifier::external_type_specification]
#[verifier::external_body]
#[verifier::reject_recursive_types(T)]
pub struct ExReceiver<T>(Receiver<T>);

#[verifier::external_type_specification]
#[verifier::external_body]
#[verifier::reject_recursive_types(T)]
pub struct ExSendError<T>(SendError<T>);

#[verifier::external_type_specification]
#[verifier::external_body]
pub struct ExRecvError(RecvError);

/// The channel that a sending end of requests belongs to.
pub uninterp spec fn request_sender_channel(s: Sender<(Vec<u8>, SyncSender<Vec<u8>>)>) -> int;

/// The channel that a receiving end of requests belongs to.
pub uninterp spec fn request_receiver_channel(r: Receiver<(Vec<u8>, SyncSender<Vec<u8>>)>) -> int;

/// Calls `std::sync::mpsc::channel` for requests. As its documentation says,
/// the two ends it returns are the two halves of one new channel; a handle
/// never moves to another channel.
#[verifier::external_body]
fn open_request_channel() -> (ends: (
    Sender<(Vec<u8>, SyncSender<Vec<u8>>)>,
    Receiver<(Vec<u8>, SyncSender<Vec<u8>>)>,
))
    ensures
        request_sender_channel(ends.0) == request_receiver_channel(ends.1),
{
    std::sync::mpsc::channel()
}

/// Calls `std::sync::mpsc::sync_channel`, which makes a channel that holds
/// at most `bound` messages.
#[verifier::external_body]
fn open_sync_channel<T>(bound: usize) -> (SyncSender<T>, Receiver<T>) {
    std::sync::mpsc::sync_channel(bound)
}

/// Calls `Sender::send`, which fails when the receiving end is gone; whether
/// it is depends on another thread.
#[verifier::external_body]
fn send_on<T>(sender: &Sender<T>, value: T) -> Result<(), SendError<T>> {
    sender.send(value)
}

/// Calls `SyncSender::send`, which fails when the receiving end is gone;
/// whether it is depends on another thread.
#[verifier::external_body]
fn sync_send_on<T>(sender: &SyncSender<T>, value: T) -> Result<(), SendError<T>> {
    sender.send(value)
}

/// Calls `Receiver::recv`, which waits for a message and fails when every
/// sending end is gone; both depend on other threads.
#[verifier::external_body]
fn receive_on<T>(receiver: &Receiver<T>) -> Result<T, RecvError> {
    receiver.recv()
}

/// Why a call over the channel failed. `S` and `D` are the coder's encoding
/// and decoding errors.
#[derive(Debug)]
pub enum ChannelErr<S, D> {
    Ser(S),
    Des(D),
    SendReq(SendError<(Vec<u8>, SyncSender<Vec<u8>>)>),
    SendResp(SendError<Vec<u8>>),
    RecvResp(RecvError),
}

/// The outcome of sending a request: a failed send is `SendReq` with the
/// channel's error.
pub fn request_sent<S, D>(sent: Result<(), SendError<(Vec<u8>, SyncSender<Vec<u8>>)>>) -> (outcome: Result<(), ChannelErr<S, D>>)
    ensures
        sent is Ok ==> outcome is Ok,
        sent matches Err(e) ==> outcome matches Err(ChannelErr::SendReq(e2)) && e2 == e,
{
    match sent {
        Ok(()) => Ok(()),
        Err(e) => Err(ChannelErr::SendReq(e)),
    }
}

/// The outcome of waiting on a channel: a failed wait is `RecvResp` with
/// the channel's error; a received value is passed on.
pub fn message_received<T, S, D>(received: Result<T, RecvError>) -> (outcome: Result<T, ChannelErr<S, D>>)
    ensures
        received matches Ok(v) ==> outcome matches Ok(w) && w == v,
        received matches Err(e) ==> outcome matches Err(ChannelErr::RecvResp(e2)) && e2 == e,
{
    match received {
        Ok(v) => Ok(v),
        Err(e) => Err(ChannelErr::RecvResp(e)),
    }
}

/// The message that carries a request: the encoded request and the channel
/// its reply is to come back on.
pub fn request_envelope(request: Vec<u8>, reply_to: SyncSender<Vec<u8>>) -> (envelope: (
    Vec<u8>,
    SyncSender<Vec<u8>>,
))
    ensures
        envelope.0 == request,
        envelope.1 == reply_to,
{
    (request, reply_to)
}

/// The outcome of one exchange, from the outcome of sending the request and,
/// only when that send succeeded, of waiting for the reply: a failed send is
/// `SendReq` at once, a failed wait is `RecvResp`, a received reply is
/// returned.
pub fn exchange_outcome<S, D>(
    sent: Result<(), SendError<(Vec<u8>, SyncSender<Vec<u8>>)>>,
    received: Option<Result<Vec<u8>, RecvError>>,
) -> (outcome: Result<Vec<u8>, ChannelErr<S, D>>)
    requires
        sent is Ok <==> received is Some,
    ensures
        sent matches Err(e) ==> outcome matches Err(ChannelErr::SendReq(e2)) && e2 == e,
        received matches Some(Ok(b)) ==> outcome matches Ok(b2) && b2 == b,
        received matches Some(Err(e)) ==> outcome matches Err(ChannelErr::RecvResp(e2)) && e2 == e,
{
    match request_sent(sent) {
        Err(e) => Err(e),
        Ok(()) => message_received(received.unwrap()),
    }
}

/// The outcome of sending a reply: a failed send is `SendResp` with the
/// channel's error.
pub fn reply_sent<S, D>(sent: Result<(), SendError<Vec<u8>>>) -> (outcome: Result<(), ChannelErr<S, D>>)
    ensures
        sent is Ok ==> outcome is Ok,
        sent matches Err(e) ==> outcome matches Err(ChannelErr::SendResp(e2)) && e2 == e,
{
    match sent {
        Ok(()) => Ok(()),
        Err(e) => Err(ChannelErr::SendResp(e)),
    }
}

/// The client end: sends encoded requests, each with a channel for its reply.
pub struct SenderChannel<Coder> {
    channel: Sender<(Vec<u8>, SyncSender<Vec<u8>>)>,
    coder: Coder,
}

/// The server end: receives encoded requests for `provider`.
pub struct ReceiverChannel<Provider, Coder> {
    channel: Receiver<(Vec<u8>, SyncSender<Vec<u8>>)>,
    provider: Provider,
    coder: Coder,
}

/// Joins a client end and a server end on one new request channel; the
/// client gets a clone of `coder`.
pub fn new_channel_pair<Provider, Coder: Clone>(provider: Provider, coder: Coder) -> (pair: (
    SenderChannel<Coder>,
    ReceiverChannel<Provider, Coder>,
))
    ensures
        cloned(coder, pair.0.spec_coder()),
        pair.0.channel_id() == pair.1.channel_id(),
        pair.1.spec_provider() == provider,
        pair.1.spec_coder() == coder,
{
    let (sender, receiver) = open_request_channel();
    (
        SenderChannel { channel: sender, coder: coder.clone() },
        ReceiverChannel { channel: receiver, provider, coder },
    )
}

impl<Coder> SenderChannel<Coder> {
    pub closed spec fn spec_coder(&self) -> Coder {
        self.coder
    }

    /// The request channel this end sends on.
    pub closed spec fn channel_id(&self) -> int {
        request_sender_channel(self.channel)
    }

    /// The coder that encodes requests and decodes replies.
    pub fn coder(&self) -> (c: &Coder)
        ensures
            *c == self.spec_coder(),
    {
        &self.coder
    }

    /// Sends an encoded request with a fresh one-slot reply channel and waits
    /// for the encoded reply. Sending fails with `SendReq` when the server
    /// end is gone; waiting fails with `RecvResp` when the server drops the
    /// reply channel without answering.
    pub fn exchange<S, D>(&self, request: Vec<u8>) -> (reply: Result<Vec<u8>, ChannelErr<S, D>>)
        ensures
            reply matches Err(e) ==> (e is SendReq || e is RecvResp),
    {
        let (reply_sender, reply_receiver) = open_sync_channel(1);
        let sent = send_on(&self.channel, request_envelope(request, reply_sender));
        let received = if sent.is_ok() {
            Some(receive_on(&reply_receiver))
        } else {
            None
        };
        exchange_outcome(sent, received)
    }
}

impl<Provider, Coder> ReceiverChannel<Provider, Coder> {
    pub closed spec fn spec_provider(&self) -> Provider {
        self.provider
    }

    /// The request channel this end receives from.
    pub closed spec fn channel_id(&self) -> int {
        request_receiver_channel(self.channel)
    }

    pub closed spec fn spec_coder(&self) -> Coder {
        self.coder
    }

    /// The provider that serves the requests.
    pub fn provider(&self) -> (p: &Provider)
        ensures
            *p == self.spec_provider(),
    {
        &self.provider
    }

    /// The coder that decodes requests and encodes replies.
    pub fn coder(&self) -> (c: &Coder)
        ensures
            *c == self.spec_coder(),
    {
        &self.coder
    }

    /// Waits for the next encoded request and the channel for its reply;
    /// fails with `RecvResp` when every client end is gone.
    pub fn receive_request<S, D>(&self) -> (received: Result<(Vec<u8>, SyncSender<Vec<u8>>), ChannelErr<S, D>>)
        ensures
            received matches Err(e) ==> e is RecvResp,
    {
        message_received(receive_on(&self.channel))
    }
}

/// Sends an encoded reply; fails with `SendResp` when the client stopped
/// waiting for it.
pub fn send_reply<S, D>(reply_to: SyncSender<Vec<u8>>, reply: Vec<u8>) -> (sent: Result<(), ChannelErr<S, D>>)
    ensures
        sent matches Err(e) ==> e is SendResp,
{
    reply_sent(sync_send_on(&reply_to, reply))
}

} // verus!
