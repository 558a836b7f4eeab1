use cabi::boundary::SmithStr;
use cabi::memory::Memory;

#[test]
fn default_is_null() {
    let s = SmithStr::default();
    assert_eq!(s.data, 0);
    assert_eq!(s.len, 0);
    assert!(!s.owned);
}

#[test]
fn from_string_is_owned_and_round_trips() {
    let mut mem = Memory::new();
    let s = SmithStr::from_string(&mut mem, b"hello".to_vec());
    assert!(s.owned);
    assert_ne!(s.data, 0);
    assert_eq!(s.len, 5);
    assert_eq!(s.as_str(&mem), b"hello".to_vec());
}

#[test]
fn new_borrows_the_same_buffer() {
    let mut mem = Memory::new();
    let owner = SmithStr::from_string(&mut mem, b"shared".to_vec());
    let borrowed = SmithStr::new(&mem, owner.data);
    assert!(!borrowed.owned);
    assert_eq!(borrowed.data, owner.data);
    assert_eq!(borrowed.len, 6);
    assert_eq!(borrowed.as_str(&mem), b"shared".to_vec());
}

#[test]
fn release_borrowed_is_noop() {
    let mut mem = Memory::new();
    let owner = SmithStr::from_string(&mut mem, b"keep me".to_vec());
    let mut borrowed = SmithStr::new(&mem, owner.data);
    let data_before = borrowed.data;
    borrowed.free(&mut mem);
    assert!(!borrowed.owned);
    assert_eq!(borrowed.data, data_before);
    assert_eq!(borrowed.len, 7);
    assert_eq!(borrowed.as_str(&mem), b"keep me".to_vec());
    assert_eq!(owner.as_str(&mem), b"keep me".to_vec());
}

#[test]
fn release_owned_twice_is_safe_and_idempotent() {
    let mut mem = Memory::new();
    let mut s = SmithStr::from_string(&mut mem, b"gone".to_vec());
    s.free(&mut mem);
    assert_eq!(s, SmithStr::default());
    s.free(&mut mem);
    assert_eq!(s, SmithStr::default());
    let again = SmithStr::from_string(&mut mem, b"fresh".to_vec());
    assert_eq!(again.as_str(&mem), b"fresh".to_vec());
}

#[test]
fn smith_str_free_releases_owned() {
    let mut mem = Memory::new();
    let mut s = SmithStr::from_string(&mut mem, b"bye".to_vec());
    cabi::boundary::smith_str_free(&mut s, &mut mem);
    assert_eq!(s.data, 0);
    assert_eq!(s.len, 0);
    assert!(!s.owned);
}

#[test]
fn empty_owned_string_is_not_null() {
    let mut mem = Memory::new();
    let s = SmithStr::from_string(&mut mem, Vec::new());
    assert!(s.owned);
    assert_ne!(s.data, 0);
    assert_eq!(s.len, 0);
    assert_eq!(s.as_str(&mem), Vec::<u8>::new());
}
