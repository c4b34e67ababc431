//! The decisions of the HTTP transports: how a request body is collected
//! under a size limit, which reply each outcome gets, and which HTTP status
//! counts as a failed call.

use vstd::prelude::*;

verus! {

#[verifier::external_type_specification]
#[verifier::external_body]
#[verifier::reject_recursive_types(T)]
pub struct ExHeaderMap<T>(http::HeaderMap<T>);

#[verifier::external_type_specification]
#[verifier::external_body]
pub struct ExHeaderValue(http::HeaderValue);

#[verifier::external_type_specification]
#[verifier::external_body]
pub struct ExReqwestError(reqwest::Error);

/// The largest request body, in bytes, that a server transport accepts.
pub const MAX_PAYLOAD: usize = 500_000_000;

/// What a server transport knows of the HTTP request that carried a call.
pub struct HttpContext {
    pub url: String,
    pub header_map: http::HeaderMap,
}

impl From<HttpContext> for () {
    fn from(_context: HttpContext) -> (unit: ()) {
    }
}

impl vstd::std_specs::convert::FromSpecImpl<HttpContext> for () {
    open spec fn obeys_from_spec() -> bool {
        true
    }

    open spec fn from_spec(v: HttpContext) -> () {
        ()
    }
}

/// Where a client transport posts its calls.
#[derive(Debug)]
pub struct ReqwestPostConfig {
    pub api_url: String,
    pub header_map: http::HeaderMap,
}

/// Why a call over HTTP failed. `S` and `D` are the coder's encoding and
/// decoding errors.
#[derive(Debug)]
pub enum HttpPostErr<S, D> {
    Ser(S),
    Des(D),
    Rqe(reqwest::Error),
    /// The server answered with a status outside 200..=299.
    Status { status: u16, body: Vec<u8> },
}

/// The status is a success status (200..=299).
pub open spec fn is_success_status(status: u16) -> bool {
    200 <= status && status <= 299
}

/// Accepts the body of a reply with a success status and turns any other
/// reply into a `Status` error that keeps the status and the body.
pub fn check_status<S, D>(status: u16, body: Vec<u8>) -> (checked: Result<Vec<u8>, HttpPostErr<S, D>>)
    ensures
        checked is Ok <==> is_success_status(status),
        checked matches Ok(b) ==> b == body,
        checked matches Err(e) ==> e == (HttpPostErr::<S, D>::Status { status, body }),
{
    if 200 <= status && status <= 299 {
        Ok(body)
    } else {
        Err(HttpPostErr::Status { status, body })
    }
}

/// The reply of a server transport to one call.
#[derive(Debug, PartialEq, Eq)]
pub enum HttpReply {
    /// 200, with the encoded response.
    Success(Vec<u8>),
    /// 413: the body exceeded `MAX_PAYLOAD`.
    PayloadTooLarge,
    /// 400: the body could not be read or decoded.
    BadRequest,
    /// 500: the response could not be encoded.
    InternalServerError,
}

/// The HTTP status of a reply.
pub open spec fn reply_status(r: HttpReply) -> u16 {
    match r {
        HttpReply::Success(_) => 200,
        HttpReply::PayloadTooLarge => 413,
        HttpReply::BadRequest => 400,
        HttpReply::InternalServerError => 500,
    }
}

impl HttpReply {
    /// The HTTP status of this reply.
    pub fn status(&self) -> (code: u16)
        ensures
            code == reply_status(*self),
    {
        match self {
            HttpReply::Success(_) => 200,
            HttpReply::PayloadTooLarge => 413,
            HttpReply::BadRequest => 400,
            HttpReply::InternalServerError => 500,
        }
    }
}

/// Where the reading of a request body stands.
pub enum BodyState {
    /// The bytes received so far.
    Reading(Vec<u8>),
    /// The body was handed on or refused.
    Done,
}

/// What the body stream produced next.
pub enum BodyEvent {
    Chunk(Vec<u8>),
    Failed,
    Finished,
}

/// What the transport does next.
pub enum BodyAction {
    ReadMore,
    Reply(HttpReply),
    /// Decode the complete body.
    Decode(Vec<u8>),
}

impl BodyState {
    /// The state before any byte is read.
    pub fn start() -> (s: Self)
        ensures
            s matches BodyState::Reading(d) && d@ == Seq::<u8>::empty(),
    {
        BodyState::Reading(Vec::new())
    }
}

/// One step of reading a body: a chunk is appended unless the total would
/// exceed `MAX_PAYLOAD`, which refuses the request with 413; a failed
/// stream refuses it with 400; the end of the stream hands the body on.
pub fn body_step(state: BodyState, event: BodyEvent) -> (next: (BodyState, BodyAction))
    requires
        state matches BodyState::Reading(d) && d@.len() <= MAX_PAYLOAD,
    ensures
        state matches BodyState::Reading(d) ==> match event {
            BodyEvent::Chunk(c) => if d@.len() + c@.len() > MAX_PAYLOAD {
                next.0 is Done && next.1 == BodyAction::Reply(HttpReply::PayloadTooLarge)
            } else {
                (next.0 matches BodyState::Reading(d2) && d2@ == d@ + c@) && next.1 is ReadMore
            },
            BodyEvent::Failed => next.0 is Done && next.1 == BodyAction::Reply(HttpReply::BadRequest),
            BodyEvent::Finished => next.0 is Done && (next.1 matches BodyAction::Decode(b) && b@ == d@),
        },
        next.0 matches BodyState::Reading(d2) ==> d2@.len() <= MAX_PAYLOAD,
{
    match state {
        BodyState::Reading(mut data) => match event {
            BodyEvent::Chunk(chunk) => {
                if chunk.len() > MAX_PAYLOAD - data.len() {
                    (BodyState::Done, BodyAction::Reply(HttpReply::PayloadTooLarge))
                } else {
                    let mut chunk = chunk;
                    data.append(&mut chunk);
                    (BodyState::Reading(data), BodyAction::ReadMore)
                }
            },
            BodyEvent::Failed => (BodyState::Done, BodyAction::Reply(HttpReply::BadRequest)),
            BodyEvent::Finished => (BodyState::Done, BodyAction::Decode(data)),
        },
        BodyState::Done => (BodyState::Done, BodyAction::ReadMore),
    }
}

/// A decoded request goes on to be served; one that could not be decoded
/// is answered with 400.
pub fn reply_after_decode<T, E>(decoded: Result<T, E>) -> (next: Result<T, HttpReply>)
    ensures
        decoded matches Ok(v) ==> next == Ok::<T, HttpReply>(v),
        decoded is Err ==> next == Err::<T, HttpReply>(HttpReply::BadRequest),
{
    match decoded {
        Ok(v) => Ok(v),
        Err(_) => Err(HttpReply::BadRequest),
    }
}

/// An encoded response is sent with 200; one that could not be encoded is
/// answered with 500.
pub fn reply_after_encode<E>(encoded: Result<Vec<u8>, E>) -> (reply: HttpReply)
    ensures
        encoded matches Ok(d) ==> reply == HttpReply::Success(d),
        encoded is Err ==> reply == HttpReply::InternalServerError,
{
    match encoded {
        Ok(d) => HttpReply::Success(d),
        Err(_) => HttpReply::InternalServerError,
    }
}

/// Reading the chunks `chunks` after the bytes `data`: the body handed on,
/// or `None` when the request is refused for its size.
pub open spec fn read_chunks(data: Seq<u8>, chunks: Seq<Seq<u8>>) -> Option<Seq<u8>>
    decreases chunks.len(),
{
    if chunks.len() == 0 {
        Some(data)
    } else if data.len() + chunks[0].len() > MAX_PAYLOAD {
        None
    } else {
        read_chunks(data + chunks[0], chunks.drop_first())
    }
}

/// A body is refused for its size exactly when its chunks together exceed
/// `MAX_PAYLOAD`; otherwise the body handed on is the chunks in order.
pub proof fn lemma_body_limit(chunks: Seq<Seq<u8>>)
    ensures
        read_chunks(Seq::empty(), chunks) == if chunks.flatten().len() <= MAX_PAYLOAD {
            Some(chunks.flatten())
        } else {
            None::<Seq<u8>>
        },
{
    lemma_read_chunks_from(Seq::empty(), chunks);
    assert(Seq::<u8>::empty() + chunks.flatten() =~= chunks.flatten());
}

proof fn lemma_read_chunks_from(data: Seq<u8>, chunks: Seq<Seq<u8>>)
    requires
        data.len() <= MAX_PAYLOAD,
    ensures
        read_chunks(data, chunks) == if data.len() + chunks.flatten().len() <= MAX_PAYLOAD {
            Some(data + chunks.flatten())
        } else {
            None::<Seq<u8>>
        },
    decreases chunks.len(),
{
    if chunks.len() > 0 {
        assert(chunks.flatten() == chunks[0] + chunks.drop_first().flatten());
        if data.len() + chunks[0].len() <= MAX_PAYLOAD {
            lemma_read_chunks_from(data + chunks[0], chunks.drop_first());
            assert(data + chunks[0] + chunks.drop_first().flatten() =~= data + chunks.flatten());
        }
    } else {
        assert(data + chunks.flatten() =~= data);
    }
}

} // verus!
