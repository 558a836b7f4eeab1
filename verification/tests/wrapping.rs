use cabi::boundary::SmithStr;
use cabi::context::{smith_err_clear, smith_err_failed, smith_err_get_last_message, ErrorContext};
use cabi::cstr::smith_str_from_cstr;
use cabi::error::{ErrorKind, SmithError};
use cabi::memory::Memory;
use cabi::wrapper::{wrap, CallOutcome};

fn plain_error(message: &[u8]) -> SmithError {
    SmithError {
        kind: ErrorKind::Domain,
        message: message.to_vec(),
        causes: Vec::new(),
        backtrace: None,
    }
}

#[test]
fn wrap_success_returns_value_unwrapped() {
    let mut ctx = ErrorContext::new();
    let r = wrap::<u64>(&mut ctx, CallOutcome::Completed(Ok(42)));
    assert_eq!(r, Some(42));
    assert!(!smith_err_failed(&ctx));
}

#[test]
fn wrap_failure_sets_error_and_clear_removes_it() {
    let mut ctx = ErrorContext::new();
    let r = wrap::<u64>(&mut ctx, CallOutcome::Completed(Err(plain_error(b"bad"))));
    assert_eq!(r, None);
    assert!(smith_err_failed(&ctx));
    smith_err_clear(&mut ctx);
    assert!(!smith_err_failed(&ctx));
}

#[test]
fn wrap_success_keeps_stale_error() {
    let mut mem = Memory::new();
    let mut ctx = ErrorContext::new();
    let _ = wrap::<u64>(&mut ctx, CallOutcome::Completed(Err(plain_error(b"stale"))));
    let r = wrap::<u64>(&mut ctx, CallOutcome::Completed(Ok(1)));
    assert_eq!(r, Some(1));
    assert!(smith_err_failed(&ctx));
    let msg = smith_err_get_last_message(&ctx, &mut mem);
    assert_eq!(msg.as_str(&mem), b"stale".to_vec());
}

#[test]
fn next_failure_overwrites_previous_error() {
    let mut mem = Memory::new();
    let mut ctx = ErrorContext::new();
    let _ = wrap::<u64>(&mut ctx, CallOutcome::Completed(Err(plain_error(b"first"))));
    let _ = wrap::<u64>(&mut ctx, CallOutcome::Completed(Err(plain_error(b"second"))));
    let msg = smith_err_get_last_message(&ctx, &mut mem);
    assert_eq!(msg.as_str(&mem), b"second".to_vec());
}

#[test]
fn wrap_panic_with_text_records_it() {
    let mut ctx = ErrorContext::new();
    let r = wrap::<u64>(&mut ctx, CallOutcome::Panicked(Some(b"boom".to_vec())));
    assert_eq!(r, None);
    assert!(smith_err_failed(&ctx));
    let err = ctx.slot.as_ref().unwrap();
    assert!(matches!(err.kind, ErrorKind::Panic));
    assert_eq!(err.message, b"boom".to_vec());
    assert!(err.causes.is_empty());
    assert!(err.backtrace.is_none());
}

#[test]
fn wrap_panic_without_text_uses_generic_message() {
    let mut ctx = ErrorContext::new();
    let r = wrap::<u64>(&mut ctx, CallOutcome::Panicked(None));
    assert_eq!(r, None);
    let err = ctx.slot.as_ref().unwrap();
    assert!(matches!(err.kind, ErrorKind::Panic));
    assert_eq!(err.message, b"panic".to_vec());
}

#[test]
fn from_cstr_accepts_valid_text() {
    let mut mem = Memory::new();
    let mut ctx = ErrorContext::new();
    let s = smith_str_from_cstr(&mut mem, &mut ctx, &b"hello".to_vec());
    assert!(s.owned);
    assert_ne!(s.data, 0);
    assert_eq!(s.len, 5);
    assert_eq!(s.as_str(&mem), b"hello".to_vec());
    assert!(!smith_err_failed(&ctx));
}

#[test]
fn from_cstr_rejects_invalid_encoding() {
    let mut mem = Memory::new();
    let mut ctx = ErrorContext::new();
    let s = smith_str_from_cstr(&mut mem, &mut ctx, &vec![0xffu8, 0xfeu8]);
    assert_eq!(s, SmithStr::default());
    assert!(smith_err_failed(&ctx));
    let err = ctx.slot.as_ref().unwrap();
    assert!(matches!(err.kind, ErrorKind::TextEncoding));
    let msg = smith_err_get_last_message(&ctx, &mut mem);
    assert_eq!(msg.as_str(&mem), b"invalid utf-8".to_vec());
}

#[test]
fn from_cstr_failure_leaves_earlier_strings_alone() {
    let mut mem = Memory::new();
    let mut ctx = ErrorContext::new();
    let kept = smith_str_from_cstr(&mut mem, &mut ctx, &b"kept".to_vec());
    let bad = smith_str_from_cstr(&mut mem, &mut ctx, &vec![0x80u8]);
    assert_eq!(bad.data, 0);
    assert_eq!(kept.as_str(&mem), b"kept".to_vec());
}
