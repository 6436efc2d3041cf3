//! The guarantees the handler gives, each proved once and for all from the
//! contracts in `handler` and `path`. Leading-slash normalization is proved
//! beside the path logic, as `path::lemma_leading_slash_normalization`, and
//! relativity of every derived path as `path::lemma_requested_path_relative`.

use vstd::prelude::*;

use crate::handler::HandlerResult;
use crate::handler::OpenOutcome;
use crate::handler::respond_spec;
use crate::response::Response;
use crate::response::StatusCode;

verus! {

/// A file that exists and is readable is served whole: once the sandbox has
/// opened it, the answer is status 200 and the body streams exactly the
/// opened file, byte for byte — nothing is substituted, truncated or added.
pub proof fn law_existing_file_served<F, E>(outcome: OpenOutcome<F, E>, file: F)
    requires
        outcome == OpenOutcome::<F, E>::Opened(file),
    ensures
        respond_spec(outcome) == (HandlerResult::<F, E>::Respond(
            Response { status: StatusCode::Okay, body: Some(file) },
        )),
{
}

/// A path with no file under the sandbox root is answered with status 404
/// and an empty body.
pub proof fn law_missing_file_not_found<F, E>(outcome: OpenOutcome<F, E>)
    requires
        outcome is NotFound,
    ensures
        respond_spec(outcome) == (HandlerResult::<F, E>::Respond(
            Response { status: StatusCode::NotFound, body: None },
        )),
{
}

/// Denied access — a readable-but-forbidden file, or a path the sandbox
/// reports as escaping its root — is answered with status 403 and an empty
/// body: nothing of the underlying failure reaches the client.
pub proof fn law_denied_access_forbidden<F, E>(outcome: OpenOutcome<F, E>)
    requires
        outcome is PermissionDenied,
    ensures
        respond_spec(outcome) == (HandlerResult::<F, E>::Respond(
            Response { status: StatusCode::Forbidden, body: None },
        )),
{
}

/// No leak: a response with status 200 exists only for a file the sandbox
/// itself opened, and its body is that file and nothing else. An attempted
/// escape, which the sandbox answers with denial or absence, therefore
/// never produces a 200, let alone one with outside content; and whenever
/// a response is produced at all, it carries a body exactly when it reports
/// success.
pub proof fn law_no_success_without_open<F, E>(outcome: OpenOutcome<F, E>)
    ensures
        match respond_spec(outcome) {
            HandlerResult::Respond(r) => {
                &&& r.well_formed()
                &&& r.status is Okay ==> (outcome matches OpenOutcome::Opened(file)
                    && r.body == Some(file))
            },
            HandlerResult::Fail(_) => outcome is Other,
        },
{
}

/// Idempotence: the handler holds no state, the derived path is a pure
/// function of the prefix and the URL path, and against an unchanged file —
/// the sandbox reporting the same outcome — the same request is answered
/// the same way both times.
pub proof fn law_idempotent<F, E>(first: OpenOutcome<F, E>, second: OpenOutcome<F, E>)
    requires
        first == second,
    ensures
        respond_spec(first) == respond_spec(second),
{
}

} // verus!
