//! Per-request dispatch and response handoff.
//!
//! Each framed request is given the next identity, its target is made
//! absolute, and a fresh sandbox is planned — a malformed target is
//! rejected before any sandbox exists. The sandboxed invocation hands its
//! response over a one-shot channel; when the channel closes without a
//! response, the dispatcher surfaces the invocation's actual termination
//! outcome, never a generic closed-channel message, and a handler that
//! returned without responding is itself an error.
use vstd::prelude::*;

verus! {

use crate::config::ValidatedServe;
use crate::ids::ID_MODULUS;
use crate::ids::RequestIdGen;
use crate::ids::nth_id;
use crate::sandbox::SandboxSpec;
use crate::sandbox::build_sandbox;
use crate::sandbox::is_sandbox_for;
use crate::uri::AbsoluteTarget;
use crate::uri::RequestTarget;
use crate::uri::normalize_uri;
use crate::uri::resolved_authority;
use crate::uri::resolved_path_and_query;
use crate::uri::resolved_scheme;
use crate::uri::target_resolves;
use crate::uri::uri_parts_accepted;

/// Why an invocation that never signalled a response ended: the
/// invocation's own termination outcome, kept verbatim.
#[derive(PartialEq, Eq, Debug)]
pub enum SilentCause {
    /// The handler returned successfully without ever producing a
    /// response.
    HandlerCompleted,
    /// The handler failed with this error before responding.
    HandlerFailed(String),
    /// The task running the handler was torn down with this error.
    HandlerPanicked(String),
}

/// A per-request failure. It never affects any other request.
#[derive(PartialEq, Eq, Debug)]
pub enum RequestError {
    /// The request target could not be made absolute.
    UriInvalid,
    /// The sandboxed program rejected the request with its own error.
    Guest(String),
    /// The sandboxed program never signalled a response; the cause is its
    /// actual termination outcome.
    NeverSignalled(SilentCause),
}

/// What the receive half of the one-shot response channel yielded.
#[derive(PartialEq, Eq, Debug)]
pub enum RecvOutcome<R> {
    /// The invocation signalled this response; its body may still be
    /// streaming.
    Response(R),
    /// The invocation signalled a failure of its own.
    GuestError(String),
    /// The send half was dropped without a signal: the invocation task
    /// ended first.
    Closed,
}

/// How the invocation task itself terminated.
#[derive(PartialEq, Eq, Debug)]
pub enum TaskOutcome {
    Completed,
    Failed(String),
    Panicked(String),
}

/// The diagnostic for an invocation that ended without signalling.
pub open spec fn silent_cause_of(t: TaskOutcome) -> SilentCause {
    match t {
        TaskOutcome::Completed => SilentCause::HandlerCompleted,
        TaskOutcome::Failed(m) => SilentCause::HandlerFailed(m),
        TaskOutcome::Panicked(m) => SilentCause::HandlerPanicked(m),
    }
}

/// The connection layer's view of a finished handoff: the response when
/// one was signalled, the guest's own failure when it signalled one, and
/// otherwise the diagnostic recovered from the invocation task.
pub open spec fn spec_resolve<R>(
    recv: RecvOutcome<R>,
    task_if_closed: Option<TaskOutcome>,
) -> Result<R, RequestError> {
    match recv {
        RecvOutcome::Response(r) => Ok(r),
        RecvOutcome::GuestError(m) => Err(RequestError::Guest(m)),
        RecvOutcome::Closed => Err(
            RequestError::NeverSignalled(silent_cause_of(task_if_closed->Some_0)),
        ),
    }
}

/// Resolves one request's handoff. When the channel closed without a
/// signal the caller must have awaited the invocation task and hand its
/// outcome in; the surfaced error then carries that outcome, so the mere
/// absence of a signal never hides the real cause.
pub fn resolve_handoff<R>(recv: RecvOutcome<R>, task_if_closed: Option<TaskOutcome>) -> (r: Result<
    R,
    RequestError,
>)
    requires
        recv is Closed ==> task_if_closed is Some,
    ensures
        r == spec_resolve(recv, task_if_closed),
{
    match recv {
        RecvOutcome::Response(resp) => Ok(resp),
        RecvOutcome::GuestError(m) => Err(RequestError::Guest(m)),
        RecvOutcome::Closed => match task_if_closed {
            Some(t) => Err(
                RequestError::NeverSignalled(
                    match t {
                        TaskOutcome::Completed => SilentCause::HandlerCompleted,
                        TaskOutcome::Failed(m) => SilentCause::HandlerFailed(m),
                        TaskOutcome::Panicked(m) => SilentCause::HandlerPanicked(m),
                    },
                ),
            ),
            None => vstd::pervasive::unreached(),
        },
    }
}

/// Law: an invocation that ends without signalling surfaces its actual
/// termination outcome. A failure's own error is kept verbatim, a torn
/// down task surfaces the teardown error, and a handler that returned
/// successfully without responding is an error — never treated as
/// success.
pub proof fn lemma_silent_exit_surfaces_cause<R>(m: String)
    ensures
        spec_resolve::<R>(RecvOutcome::Closed, Some(TaskOutcome::Failed(m))) == Err::<
            R,
            RequestError,
        >(RequestError::NeverSignalled(SilentCause::HandlerFailed(m))),
        spec_resolve::<R>(RecvOutcome::Closed, Some(TaskOutcome::Panicked(m))) == Err::<
            R,
            RequestError,
        >(RequestError::NeverSignalled(SilentCause::HandlerPanicked(m))),
        spec_resolve::<R>(RecvOutcome::Closed, Some(TaskOutcome::Completed)) == Err::<
            R,
            RequestError,
        >(RequestError::NeverSignalled(SilentCause::HandlerCompleted)),
{
}

/// Everything the connection layer needs to run one request: its
/// identity, its absolute target, the assembled URI, and its fresh
/// sandbox.
pub struct PreparedRequest {
    pub request_id: u64,
    pub target: AbsoluteTarget,
    pub uri: http::Uri,
    pub sandbox: SandboxSpec,
}

/// Admits one inbound request: assigns the next identity, normalizes the
/// target, and plans the fresh sandbox. A request whose target cannot be
/// made absolute is rejected as malformed, and no sandbox is constructed
/// for it; the identity is consumed either way.
pub fn prepare_request(v: &ValidatedServe, ids: &mut RequestIdGen, t: RequestTarget) -> (r: Result<
    PreparedRequest,
    RequestError,
>)
    ensures
        final(ids).counter() == (old(ids).counter() + 1) % (ID_MODULUS as int),
        final(ids).issued() == old(ids).issued() + 1,
        match r {
            Ok(p) => {
                &&& target_resolves(t)
                &&& uri_parts_accepted(
                    resolved_scheme(t),
                    resolved_authority(t),
                    resolved_path_and_query(t),
                )
                &&& p.request_id == old(ids).counter()
                &&& p.request_id == nth_id(0, old(ids).issued())
                &&& p.target.scheme@ == resolved_scheme(t)
                &&& p.target.authority@ == resolved_authority(t)
                &&& p.target.path_and_query@ == resolved_path_and_query(t)
                &&& is_sandbox_for(p.sandbox, *v, p.request_id)
            },
            Err(e) => {
                &&& !(target_resolves(t) && uri_parts_accepted(
                    resolved_scheme(t),
                    resolved_authority(t),
                    resolved_path_and_query(t),
                ))
                &&& e == RequestError::UriInvalid
            },
        },
{
    let request_id = ids.next_id();
    match normalize_uri(t) {
        Ok((target, uri)) => Ok(
            PreparedRequest { request_id, target, uri, sandbox: build_sandbox(v, request_id) },
        ),
        Err(_) => Err(RequestError::UriInvalid),
    }
}

} // verus!
