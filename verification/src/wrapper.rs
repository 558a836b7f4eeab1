//! The calling discipline for every fallible operation exposed across the
//! boundary. The operation runs under panic isolation on the unverified side
//! of the boundary; what reaches this module is its outcome: a result, or the
//! text of a caught panic. [`wrap`] turns that outcome into the boundary's
//! convention: on success the value comes back directly and the error slot is
//! left exactly as it was; on failure or panic the slot is overwritten and
//! `None` — the failure sentinel — comes back.

use vstd::prelude::*;

use crate::context::ErrorContext;
use crate::context::recorded;
use crate::error::ErrorKind;
use crate::error::SmithError;

verus! {

/// How a wrapped internal operation ended: it completed with a result, or it
/// panicked, with the panic payload's text when that payload was text-like.
pub enum CallOutcome<T> {
    /// The operation ran to completion.
    Completed(Result<T, SmithError>),
    /// The operation panicked; the payload's text, if it had one.
    Panicked(Option<Vec<u8>>),
}

/// The bytes of `"panic"`, the message used when a panic carried no text.
pub open spec fn default_panic_text() -> Seq<u8> {
    seq![112u8, 97u8, 110u8, 105u8, 99u8]
}

/// The message synthesized for a caught panic: the payload's text when it
/// had one, a generic `"panic"` otherwise.
pub open spec fn panic_message(payload: Option<Vec<u8>>) -> Seq<u8> {
    match payload {
        Some(m) => m@,
        None => default_panic_text(),
    }
}

/// What [`wrap`] guarantees, relating the context before and after, the
/// outcome, and the returned value.
pub open spec fn wrap_post<T>(
    pre: ErrorContext,
    post: ErrorContext,
    outcome: CallOutcome<T>,
    r: Option<T>,
) -> bool {
    match outcome {
        CallOutcome::Completed(res) => match res {
            Ok(v) => r == Some(v) && post == pre,
            Err(e) => r is None && post == recorded(pre, e),
        },
        CallOutcome::Panicked(payload) => {
            &&& r is None
            &&& post.slot is Some
            &&& post == recorded(pre, post.slot.unwrap())
            &&& post.slot.unwrap().kind == ErrorKind::Panic
            &&& post.slot.unwrap().message@ == panic_message(payload)
            &&& post.slot.unwrap().causes@.len() == 0
            &&& post.slot.unwrap().backtrace is None
        },
    }
}

/// Applies the boundary convention to an operation's outcome.
///
/// On success the value is returned unwrapped and the context is untouched —
/// in particular, a stale error from an earlier failure stays in place. On a
/// returned failure that error becomes current. On a panic a panic-derived
/// error becomes current. Both failure cases return `None`, the sentinel.
pub fn wrap<T>(ctx: &mut ErrorContext, outcome: CallOutcome<T>) -> (r: Option<T>)
    ensures
        wrap_post(*old(ctx), *final(ctx), outcome, r),
{
    match outcome {
        CallOutcome::Completed(res) => match res {
            Ok(v) => Some(v),
            Err(e) => {
                ctx.slot = Some(e);
                None
            },
        },
        CallOutcome::Panicked(payload) => {
            let msg: Vec<u8> = match payload {
                Some(m) => m,
                None => default_panic_bytes(),
            };
            ctx.slot = Some(
                SmithError {
                    kind: ErrorKind::Panic,
                    message: msg,
                    causes: Vec::new(),
                    backtrace: None,
                },
            );
            None
        },
    }
}

/// A vector holding the bytes of `"panic"`.
fn default_panic_bytes() -> (r: Vec<u8>)
    ensures
        r@ == default_panic_text(),
{
    let mut r: Vec<u8> = Vec::new();
    r.push(112u8);
    r.push(97u8);
    r.push(110u8);
    r.push(105u8);
    r.push(99u8);
    proof {
        assert(r@ =~= default_panic_text());
    }
    r
}

/// Any wrapped call that does not complete successfully — a returned failure
/// or a caught panic alike — leaves the context with a current error and
/// returns the failure sentinel.
pub proof fn law_failure_sets_error<T>(
    pre: ErrorContext,
    post: ErrorContext,
    outcome: CallOutcome<T>,
    r: Option<T>,
)
    requires
        wrap_post(pre, post, outcome, r),
        match outcome {
            CallOutcome::Completed(res) => res is Err,
            CallOutcome::Panicked(_) => true,
        },
    ensures
        post.has_error_spec(),
        r is None,
{
}

/// A successful wrapped call leaves the context exactly as it was: a stale
/// error from an earlier failure stays current until it is explicitly
/// cleared or overwritten by the next failure.
pub proof fn law_success_keeps_context<T>(
    pre: ErrorContext,
    post: ErrorContext,
    outcome: CallOutcome<T>,
    r: Option<T>,
)
    requires
        wrap_post(pre, post, outcome, r),
        match outcome {
            CallOutcome::Completed(res) => res is Ok,
            CallOutcome::Panicked(_) => false,
        },
    ensures
        post == pre,
        r is Some,
{
}

/// Recording a failure makes the error visible to the error query, and a
/// subsequent clear makes it invisible again.
pub proof fn law_failure_then_clear(ctx: ErrorContext, e: SmithError)
    ensures
        recorded(ctx, e).has_error_spec(),
        !crate::context::cleared(recorded(ctx, e)).has_error_spec(),
{
}

} // verus!
