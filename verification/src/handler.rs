//! The directory-serving handler: derive the relative path a request asks
//! for, and turn the outcome of opening it into a response and log events.
//!
//! The handler does no I/O of its own. The host calls
//! [`ServeDir::requested_path`], logs [`ServeDir::request_event`], opens the
//! path against its sandbox root, and hands the outcome to
//! [`ServeDir::respond`].

use vstd::prelude::*;
use vstd::seq_lib::*;
use vstd::string::StrSliceExecFns;

use crate::log_event::LogEvent;
use crate::path::lemma_requested_path_relative;
use crate::path::requested_path_spec;
use crate::path::trim_wildcard;
use crate::response::Response;
use crate::response::StatusCode;

verus! {

/// What opening the relative path against the sandbox root came to.
/// `F` is the host's open-file handle, `E` its error value for failures
/// that are neither a missing file nor denied access.
pub enum OpenOutcome<F, E> {
    /// The file exists, is readable, and is open.
    Opened(F),
    /// The file exists but may not be read, or the path tried to escape
    /// the sandbox root and the sandbox reported it as an access violation.
    PermissionDenied,
    /// Nothing exists at the path under the sandbox root.
    NotFound,
    /// Any other failure: disk error, descriptor exhaustion, and the like.
    Other(E),
}

/// What the handler hands back to the hosting framework: a finished
/// response, or the untranslated failure for the framework to render as a
/// server error.
pub enum HandlerResult<F, E> {
    Respond(Response<F>),
    Fail(E),
}

/// The response owed to each open outcome: an opened file streams back with
/// status 200; denied access answers 403 and a missing file 404, both with
/// an empty body; any other failure is passed through untranslated.
pub open spec fn respond_spec<F, E>(outcome: OpenOutcome<F, E>) -> HandlerResult<F, E> {
    match outcome {
        OpenOutcome::Opened(file) => HandlerResult::Respond(
            Response { status: StatusCode::Okay, body: Some(file) },
        ),
        OpenOutcome::PermissionDenied => HandlerResult::Respond(
            Response { status: StatusCode::Forbidden, body: None },
        ),
        OpenOutcome::NotFound => HandlerResult::Respond(
            Response { status: StatusCode::NotFound, body: None },
        ),
        OpenOutcome::Other(err) => HandlerResult::Fail(err),
    }
}

/// A handler serving files from one sandboxed directory, mounted under one
/// URL prefix (which may end in `*` wildcard markers).
pub struct ServeDir {
    prefix: String,
}

impl ServeDir {
    /// The configured prefix. Fixed at construction; no call changes it.
    pub closed spec fn prefix_spec(&self) -> Seq<char> {
        self.prefix@
    }

    /// Configure a handler. No I/O happens here and nothing can fail.
    pub fn new(prefix: String) -> (handler: ServeDir)
        ensures
            handler.prefix_spec() == prefix@,
    {
        ServeDir { prefix }
    }

    /// The relative path a URL path requests under this handler's prefix:
    /// the prefix (less trailing wildcard markers) is stripped from the
    /// front, then every leading separator is trimmed. `None` means the URL
    /// path does not start with the prefix at all — the router broke its
    /// promise to dispatch only matching paths here, which the host should
    /// treat as a fault, not as a recoverable request.
    pub fn requested_path(&self, url_path: &str) -> (rel: Option<String>)
        ensures
            match rel {
                Some(p) => {
                    &&& requested_path_spec(self.prefix_spec(), url_path@) == Some(p@)
                    &&& p@.len() > 0 ==> p@[0] != '/'
                },
                None => requested_path_spec(self.prefix_spec(), url_path@) is None,
            },
    {
        let prefix: &str = self.prefix.as_str();
        let plen: usize = prefix.unicode_len();
        let ulen: usize = url_path.unicode_len();

        let mut mount_len: usize = plen;
        while mount_len > 0 && prefix.get_char(mount_len - 1) == '*'
            invariant
                mount_len <= plen == prefix@.len(),
                forall|k: int| mount_len <= k < plen ==> prefix@[k] == '*',
            decreases mount_len,
        {
            mount_len = mount_len - 1;
        }
        proof {
            crate::path::lemma_trim_wildcard_take(prefix@, mount_len as int);
        }
        let ghost mount = trim_wildcard(self.prefix_spec());
        assert(mount == prefix@.take(mount_len as int));

        if ulen < mount_len {
            assert(!mount.is_prefix_of(url_path@));
            return None;
        }

        let mut i: usize = 0;
        while i < mount_len
            invariant
                i <= mount_len <= ulen == url_path@.len(),
                mount_len <= prefix@.len(),
                prefix@ == self.prefix_spec(),
                mount == trim_wildcard(self.prefix_spec()),
                mount == prefix@.take(mount_len as int),
                forall|k: int| 0 <= k < i ==> url_path@[k] == prefix@[k],
            decreases mount_len - i,
        {
            if url_path.get_char(i) != prefix.get_char(i) {
                assert(mount[i as int] != url_path@.subrange(0, mount_len as int)[i as int]);
                assert(!mount.is_prefix_of(url_path@));
                return None;
            }
            i = i + 1;
        }
        assert(mount =~= url_path@.subrange(0, mount_len as int));
        assert(mount.is_prefix_of(url_path@));

        let mut j: usize = mount_len;
        while j < ulen && url_path.get_char(j) == '/'
            invariant
                mount_len <= j <= ulen == url_path@.len(),
                forall|k: int| mount_len <= k < j ==> url_path@[k] == '/',
            decreases ulen - j,
        {
            j = j + 1;
        }
        proof {
            crate::path::lemma_trim_slashes_skip(
                url_path@.skip(mount_len as int),
                j - mount_len,
            );
            assert(url_path@.skip(mount_len as int).skip(j - mount_len) =~= url_path@.subrange(
                j as int,
                ulen as int,
            ));
            lemma_requested_path_relative(self.prefix_spec(), url_path@);
        }
        let rest: &str = url_path.substring_char(j, ulen);
        Some(rest.to_owned())
    }

    /// The informational notice the host logs before attempting the open,
    /// naming the resolved relative path. Emitted whatever the outcome.
    pub fn request_event(&self, path: &str) -> (event: LogEvent)
        ensures
            event is Requested,
            event.path_spec() == path@,
            event.level_spec() is Info,
    {
        LogEvent::Requested(path.to_owned())
    }

    /// Decide the response for an open outcome: exactly `respond_spec`.
    /// Alongside it, the warning to log: one naming the denied path when
    /// access was refused, one naming the missing path when nothing was
    /// found, and none otherwise — in particular, nothing of an unexpected
    /// failure is logged or shown here; it is handed back untouched.
    pub fn respond<F, E>(&self, path: &str, outcome: OpenOutcome<F, E>) -> (r: (
        HandlerResult<F, E>,
        Option<LogEvent>,
    ))
        ensures
            r.0 == respond_spec(outcome),
            match outcome {
                OpenOutcome::PermissionDenied => {
                    &&& r.1 matches Some(e)
                    &&& e is Unauthorized
                    &&& e.path_spec() == path@
                },
                OpenOutcome::NotFound => {
                    &&& r.1 matches Some(e)
                    &&& e is Missing
                    &&& e.path_spec() == path@
                },
                _ => r.1 is None,
            },
    {
        match outcome {
            OpenOutcome::Opened(file) => (
                HandlerResult::Respond(Response { status: StatusCode::Okay, body: Some(file) }),
                None,
            ),
            OpenOutcome::PermissionDenied => (
                HandlerResult::Respond(Response { status: StatusCode::Forbidden, body: None }),
                Some(LogEvent::Unauthorized(path.to_owned())),
            ),
            OpenOutcome::NotFound => (
                HandlerResult::Respond(Response { status: StatusCode::NotFound, body: None }),
                Some(LogEvent::Missing(path.to_owned())),
            ),
            OpenOutcome::Other(err) => (HandlerResult::Fail(err), None),
        }
    }
}

} // verus!
