//! The synchronous side of the service interface.

use vstd::prelude::*;

verus! {

/// Something that answers requests synchronously: the server end of a
/// service, handed a context by the transport that carried the request.
pub trait SyncServiceProvider {
    type Req;
    type Resp;
    type Ctx;

    fn serve(&self, context: Self::Ctx, request_body: Self::Req) -> Self::Resp;
}

} // verus!
