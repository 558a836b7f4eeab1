//! Constructing an owned boundary string from foreign narrow text. The
//! caller on the unverified side scans the null-terminated input and hands
//! its bytes (without the terminator) here; this module validates that they
//! are well-formed text and either adopts a copy as a fresh owned boundary
//! string or records a text-encoding error and returns the null sentinel —
//! the same discipline every wrapped boundary call follows.

use vstd::prelude::*;
use vstd::utf8::valid_utf8;

use crate::boundary::SmithStr;
use crate::context::ErrorContext;
use crate::error::ErrorKind;
use crate::error::SmithError;
use crate::memory::Memory;
use crate::memory::copy_bytes;
use crate::wrapper::CallOutcome;
use crate::wrapper::wrap;

verus! {

/// Relies on `core::str::from_utf8`: it returns `Ok` exactly when the bytes
/// are valid UTF-8, which is what vstd's `valid_utf8` states.
#[verifier::external_body]
fn utf8_check(b: &Vec<u8>) -> (r: bool)
    ensures
        r == valid_utf8(b@),
{
    core::str::from_utf8(b).is_ok()
}

/// The bytes of `"invalid utf-8"`, the text-encoding failure message.
pub open spec fn text_encoding_text() -> Seq<u8> {
    seq![105u8, 110u8, 118u8, 97u8, 108u8, 105u8, 100u8, 32u8, 117u8, 116u8, 102u8, 45u8, 56u8]
}

/// The error recorded when narrow-text input is not well-formed text.
fn text_encoding_error() -> (e: SmithError)
    ensures
        e.kind == ErrorKind::TextEncoding,
        e.message@ == text_encoding_text(),
        e.causes@.len() == 0,
        e.backtrace is None,
{
    let mut msg: Vec<u8> = Vec::new();
    msg.push(105u8);
    msg.push(110u8);
    msg.push(118u8);
    msg.push(97u8);
    msg.push(108u8);
    msg.push(105u8);
    msg.push(100u8);
    msg.push(32u8);
    msg.push(117u8);
    msg.push(116u8);
    msg.push(102u8);
    msg.push(45u8);
    msg.push(56u8);
    proof {
        assert(msg@ =~= text_encoding_text());
    }
    SmithError { kind: ErrorKind::TextEncoding, message: msg, causes: Vec::new(), backtrace: None }
}

/// Builds an owned boundary string from the bytes of a narrow string.
///
/// On valid text a copy of the bytes becomes a fresh owned buffer and the
/// error slot is untouched. On invalid text nothing is allocated, a
/// text-encoding error becomes current, and the null string — the failure
/// sentinel — is returned.
pub fn smith_str_from_cstr(mem: &mut Memory, ctx: &mut ErrorContext, bytes: &Vec<u8>) -> (r:
    SmithStr)
    ensures
        valid_utf8(bytes@) ==> {
            &&& r.owned
            &&& r.data != 0
            &&& r.len == bytes@.len()
            &&& !old(mem)@.contains_key(r.data as int)
            &&& final(mem)@ == old(mem)@.insert(r.data as int, bytes@)
            &&& r.wf(final(mem)@)
            &&& r.contents(final(mem)@) == bytes@
            &&& *final(ctx) == *old(ctx)
        },
        !valid_utf8(bytes@) ==> {
            &&& r == SmithStr::null_str()
            &&& final(mem)@ == old(mem)@
            &&& final(ctx).slot is Some
            &&& final(ctx).slot.unwrap().kind == ErrorKind::TextEncoding
            &&& final(ctx).slot.unwrap().message@ == text_encoding_text()
            &&& final(ctx).slot.unwrap().causes@.len() == 0
            &&& final(ctx).slot.unwrap().backtrace is None
        },
{
    let res: Result<SmithStr, SmithError> = if utf8_check(bytes) {
        let copy = copy_bytes(bytes);
        Ok(SmithStr::from_string(mem, copy))
    } else {
        Err(text_encoding_error())
    };
    match wrap(ctx, CallOutcome::Completed(res)) {
        Some(s) => s,
        None => SmithStr::default(),
    }
}

} // verus!
