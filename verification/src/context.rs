//! The per-execution-context "last error" slot and its accessors. One slot
//! exists per context (conventionally per thread); it holds at most one
//! current error, set by a failing wrapped call, read nondestructively by the
//! accessors here, and emptied only by [`smith_err_clear`] or by the next
//! failure. The context is passed explicitly: whoever runs the boundary keeps
//! one per thread.

use vstd::prelude::*;

use crate::boundary::SmithStr;
use crate::error::SmithError;
use crate::error::rendered_backtrace;
use crate::error::rendered_message;
use crate::error::render_backtrace;
use crate::error::render_message;
use crate::memory::Memory;

verus! {

/// One execution context's error slot.
pub struct ErrorContext {
    /// The current error, if any.
    pub slot: Option<SmithError>,
}

impl ErrorContext {
    /// True iff an error is current.
    pub open spec fn has_error_spec(self) -> bool {
        self.slot is Some
    }

    /// An empty context, as every context starts.
    pub fn new() -> (c: ErrorContext)
        ensures
            c.slot is None,
    {
        ErrorContext { slot: None }
    }
}

/// The context after an error is recorded: the new error replaces whatever
/// was current.
pub open spec fn recorded(ctx: ErrorContext, e: SmithError) -> ErrorContext {
    ErrorContext { slot: Some(e) }
}

/// The context after a clear: empty, whatever was current.
pub open spec fn cleared(ctx: ErrorContext) -> ErrorContext {
    ErrorContext { slot: None }
}

/// The text the message accessor hands out: the rendered current error, or
/// the empty string when none is current.
pub open spec fn message_text(ctx: ErrorContext) -> Seq<u8> {
    match ctx.slot {
        Some(e) => rendered_message(e),
        None => Seq::empty(),
    }
}

/// The text the backtrace accessor hands out: the rendered backtrace of the
/// current error, or the empty string when none is current or none was
/// captured.
pub open spec fn backtrace_text(ctx: ErrorContext) -> Seq<u8> {
    match ctx.slot {
        Some(e) => rendered_backtrace(e),
        None => Seq::empty(),
    }
}

/// When no error is current, both accessors hand out the empty text — and
/// so, by their contracts, an owned, non-null, zero-length boundary string.
pub proof fn law_no_error_empty_text(ctx: ErrorContext)
    requires
        !ctx.has_error_spec(),
    ensures
        message_text(ctx).len() == 0,
        backtrace_text(ctx).len() == 0,
{
}

/// True iff the context holds a current error. Side-effect-free.
pub fn smith_err_failed(ctx: &ErrorContext) -> (r: bool)
    ensures
        r == ctx.has_error_spec(),
{
    ctx.slot.is_some()
}

/// Unconditionally empties the context's slot.
pub fn smith_err_clear(ctx: &mut ErrorContext)
    ensures
        *final(ctx) == cleared(*old(ctx)),
        !final(ctx).has_error_spec(),
{
    ctx.slot = None;
}

/// Returns the current error's rendered message as a fresh owned boundary
/// string, or an owned empty string (never null) when no error is current.
/// The error itself is left in place.
pub fn smith_err_get_last_message(ctx: &ErrorContext, mem: &mut Memory) -> (s: SmithStr)
    ensures
        s.owned,
        s.data != 0,
        s.len == message_text(*ctx).len(),
        !old(mem)@.contains_key(s.data as int),
        final(mem)@ == old(mem)@.insert(s.data as int, message_text(*ctx)),
        s.wf(final(mem)@),
        s.contents(final(mem)@) == message_text(*ctx),
{
    let bytes: Vec<u8> = match &ctx.slot {
        Some(e) => render_message(e),
        None => Vec::new(),
    };
    SmithStr::from_string(mem, bytes)
}

/// Returns the current error's rendered backtrace as a fresh owned boundary
/// string, or an owned empty string (never null) when no error is current or
/// no backtrace was captured. The error itself is left in place.
pub fn smith_err_get_backtrace(ctx: &ErrorContext, mem: &mut Memory) -> (s: SmithStr)
    ensures
        s.owned,
        s.data != 0,
        s.len == backtrace_text(*ctx).len(),
        !old(mem)@.contains_key(s.data as int),
        final(mem)@ == old(mem)@.insert(s.data as int, backtrace_text(*ctx)),
        s.wf(final(mem)@),
        s.contents(final(mem)@) == backtrace_text(*ctx),
{
    let bytes: Vec<u8> = match &ctx.slot {
        Some(e) => render_backtrace(e),
        None => Vec::new(),
    };
    SmithStr::from_string(mem, bytes)
}

} // verus!
