//! HTTP status codes and responses as this handler produces them.

use vstd::prelude::*;

verus! {

/// The status codes the handler can answer with. An open that fails for a
/// reason other than a missing file or denied access is not answered at all:
/// it is propagated to the host (see `handler::HandlerResult::Fail`).
pub enum StatusCode {
    /// 200: the file was opened and its bytes form the body.
    Okay,
    /// 403: access was denied, or the path tried to escape the sandbox.
    Forbidden,
    /// 404: no such file under the sandbox root.
    NotFound,
}

impl StatusCode {
    /// The numeric code on the wire.
    pub open spec fn code_spec(&self) -> u16 {
        match self {
            StatusCode::Okay => 200,
            StatusCode::Forbidden => 403,
            StatusCode::NotFound => 404,
        }
    }

    pub fn code(&self) -> (c: u16)
        ensures
            c == self.code_spec(),
    {
        match self {
            StatusCode::Okay => 200,
            StatusCode::Forbidden => 403,
            StatusCode::NotFound => 404,
        }
    }
}

/// A response: a status code and, on success, a body streaming the opened
/// file. `F` is whatever the host uses as an open file handle; the handler
/// never looks inside it. Error responses carry no body: nothing of the
/// underlying failure reaches the client.
pub struct Response<F> {
    pub status: StatusCode,
    pub body: Option<F>,
}

impl<F> Response<F> {
    /// A response carries a body exactly when it reports success.
    pub open spec fn well_formed(&self) -> bool {
        self.body is Some <==> self.status is Okay
    }
}

} // verus!
