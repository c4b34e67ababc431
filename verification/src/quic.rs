//! The decisions of the QUIC peer transport: which cached connection may be
//! reused for a call, and when a failed call drops it.

use vstd::prelude::*;

verus! {

#[verifier::external_type_specification]
#[verifier::external_body]
pub struct ExEndpointId(iroh::EndpointId);

#[verifier::external_type_specification]
#[verifier::external_body]
pub struct ExEndpointAddr(iroh::EndpointAddr);

#[verifier::external_type_specification]
#[verifier::external_body]
pub struct ExConnectError(iroh::endpoint::ConnectError);

#[verifier::external_type_specification]
#[verifier::external_body]
pub struct ExConnectionError(iroh::endpoint::ConnectionError);

#[verifier::external_type_specification]
#[verifier::external_body]
pub struct ExWriteError(iroh::endpoint::WriteError);

#[verifier::external_type_specification]
#[verifier::external_body]
pub struct ExClosedStream(iroh::endpoint::ClosedStream);

#[verifier::external_type_specification]
#[verifier::external_body]
pub struct ExReadToEndError(iroh::endpoint::ReadToEndError);

/// `EndpointAddr::clone`, which the derived `Clone` of the configuration
/// calls; nothing is stated of the copy.
pub assume_specification[ <iroh::EndpointAddr as Clone>::clone ](addr: &iroh::EndpointAddr) -> iroh::EndpointAddr;

/// The application protocol a peer must speak to be served: the ASCII
/// bytes of `anycall/iroh/1`.
pub const ALPN: [u8; 14] = [97, 110, 121, 99, 97, 108, 108, 47, 105, 114, 111, 104, 47, 49];

/// What a server knows of the peer that opened a call.
pub struct IrohContext {
    pub remote_id: iroh::EndpointId,
}

impl From<IrohContext> for () {
    fn from(_context: IrohContext) -> (unit: ()) {
    }
}

impl vstd::std_specs::convert::FromSpecImpl<IrohContext> for () {
    open spec fn obeys_from_spec() -> bool {
        true
    }

    open spec fn from_spec(v: IrohContext) -> () {
        ()
    }
}

/// The peer a client calls and the protocol it speaks.
#[derive(Debug, Clone)]
pub struct IrohConnectConfig {
    pub addr: iroh::EndpointAddr,
    pub alpn: Vec<u8>,
}

/// Why a call to a peer failed. `S` and `D` are the coder's encoding and
/// decoding errors.
#[derive(Debug)]
pub enum IrohConnectErr<S, D> {
    Ser(S),
    Des(D),
    Connect(iroh::endpoint::ConnectError),
    Connection(iroh::endpoint::ConnectionError),
    Write(iroh::endpoint::WriteError),
    Finish(iroh::endpoint::ClosedStream),
    Read(iroh::endpoint::ReadToEndError),
}

/// A cached connection serves a call when it goes to the peer and speaks
/// the protocol the call is configured for, and is still open.
pub open spec fn spec_reuse_connection(
    cached_id: Seq<u8>,
    cached_alpn: Seq<u8>,
    still_open: bool,
    wanted_id: Seq<u8>,
    wanted_alpn: Seq<u8>,
) -> bool {
    cached_id == wanted_id && cached_alpn == wanted_alpn && still_open
}

/// `a` and `b` hold the same bytes.
fn same_bytes(a: &[u8], b: &[u8]) -> (same: bool)
    ensures
        same == (a@ == b@),
{
    if a.len() != b.len() {
        return false;
    }
    let mut i: usize = 0;
    while i < a.len()
        invariant
            a@.len() == b@.len(),
            i <= a@.len(),
            forall|j: int| 0 <= j < i ==> a@[j] == b@[j],
        decreases a@.len() - i,
    {
        if a[i] != b[i] {
            return false;
        }
        i = i + 1;
    }
    assert(a@ =~= b@);
    true
}

/// Whether the cached connection, to the peer with key `cached_id` over
/// `cached_alpn`, serves a call to the peer with key `wanted_id` over
/// `wanted_alpn`.
pub fn reuse_connection(
    cached_id: &[u8; 32],
    cached_alpn: &[u8],
    still_open: bool,
    wanted_id: &[u8; 32],
    wanted_alpn: &[u8],
) -> (reuse: bool)
    ensures
        reuse == spec_reuse_connection(cached_id@, cached_alpn@, still_open, wanted_id@, wanted_alpn@),
{
    let same_id = same_bytes(cached_id.as_slice(), wanted_id.as_slice());
    same_id && same_bytes(cached_alpn, wanted_alpn) && still_open
}

/// A call that failed on a connection that has closed drops the cached
/// connection, so that the next call connects anew.
pub fn forget_connection(call_failed: bool, connection_closed: bool) -> (forget: bool)
    ensures
        forget == (call_failed && connection_closed),
{
    call_failed && connection_closed
}

} // verus!
