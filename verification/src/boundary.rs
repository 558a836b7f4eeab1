//! The cross-boundary string value: a buffer handle, a byte length, and an
//! ownership tag. A null handle (`data == 0`) with length `0` is the
//! canonical empty/absent string; an owned string is the sole owner of its
//! buffer and must be released exactly once through [`SmithStr::free`].

use vstd::prelude::*;

use crate::memory::Memory;

verus! {

/// A string as it crosses the boundary: pointer, length, ownership flag.
#[derive(PartialEq, Eq, Structural, Debug)]
pub struct SmithStr {
    /// Handle of the buffer in the producing side's memory; `0` is null.
    pub data: usize,
    /// Byte count of the buffer.
    pub len: usize,
    /// Whether the receiver is responsible for releasing the buffer.
    pub owned: bool,
}

impl SmithStr {
    /// The canonical null string: no buffer, zero length, not owned.
    pub open spec fn null_str() -> SmithStr {
        SmithStr { data: 0, len: 0, owned: false }
    }

    /// Well-formedness against a memory: a null handle carries no length and
    /// no ownership; a nonzero handle points at a live buffer whose length
    /// matches `len`.
    pub open spec fn wf(self, m: Map<int, Seq<u8>>) -> bool {
        &&& self.data == 0 ==> self.len == 0 && !self.owned
        &&& self.data != 0 ==> m.contains_key(self.data as int) && m[self.data as int].len()
            == self.len
    }

    /// The bytes this string denotes: empty for null, else the buffer.
    pub open spec fn contents(self, m: Map<int, Seq<u8>>) -> Seq<u8> {
        if self.data == 0 {
            Seq::empty()
        } else {
            m[self.data as int]
        }
    }

    /// Borrows an existing in-memory string: same buffer, not owned, no copy.
    pub fn new(mem: &Memory, p: usize) -> (s: SmithStr)
        requires
            mem@.contains_key(p as int),
        ensures
            s.data == p,
            s.len == mem@[p as int].len(),
            !s.owned,
            s.wf(mem@),
            s.contents(mem@) == mem@[p as int],
    {
        proof {
            mem.keys_positive();
        }
        let len = mem.buf_len(p);
        SmithStr { data: p, len, owned: false }
    }

    /// Takes ownership of a string: the bytes move into a fresh buffer whose
    /// allocation exactly fits them, and the result is its sole owner.
    pub fn from_string(mem: &mut Memory, s: Vec<u8>) -> (r: SmithStr)
        ensures
            r.owned,
            r.data != 0,
            r.len == s@.len(),
            !old(mem)@.contains_key(r.data as int),
            final(mem)@ == old(mem)@.insert(r.data as int, s@),
            r.wf(final(mem)@),
            r.contents(final(mem)@) == s@,
    {
        let len = s.len();
        let p = mem.store(s);
        SmithStr { data: p, len, owned: true }
    }

    /// Releases the string: a no-op unless it is owned, in which case the
    /// buffer is dropped exactly once and the string becomes null.
    pub fn free(&mut self, mem: &mut Memory)
        requires
            old(self).wf(old(mem)@),
        ensures
            *final(self) == free_spec(*old(self), old(mem)@).0,
            final(mem)@ == free_spec(*old(self), old(mem)@).1,
            final(self).wf(final(mem)@),
    {
        if self.owned {
            mem.discard(self.data);
            self.data = 0;
            self.len = 0;
            self.owned = false;
        }
    }

    /// Reads the string's bytes back out as text. The representation
    /// guarantees the buffer still holds exactly what it was constructed
    /// with; the caller is the one who knows whether those bytes were
    /// validated as text.
    pub fn as_str(&self, mem: &Memory) -> (b: Vec<u8>)
        requires
            self.wf(mem@),
        ensures
            b@ == self.contents(mem@),
    {
        if self.data == 0 {
            Vec::new()
        } else {
            mem.read(self.data)
        }
    }
}

impl Default for SmithStr {
    /// The null string, standing for "no value".
    fn default() -> (s: SmithStr)
        ensures
            s == SmithStr::null_str(),
    {
        SmithStr { data: 0, len: 0, owned: false }
    }
}

/// What a release does, as a function of the string and the memory: an owned
/// string is nulled and its buffer removed; any other string changes nothing.
pub open spec fn free_spec(s: SmithStr, m: Map<int, Seq<u8>>) -> (SmithStr, Map<int, Seq<u8>>) {
    if s.owned {
        (SmithStr::null_str(), m.remove(s.data as int))
    } else {
        (s, m)
    }
}

/// Releasing a borrowed string is a no-op: the string keeps its fields
/// (`owned` stays false) and every buffer in memory is unchanged.
pub proof fn release_borrowed_noop(s: SmithStr, m: Map<int, Seq<u8>>)
    requires
        !s.owned,
    ensures
        free_spec(s, m) == (s, m),
{
}

/// Releasing any string twice is safe and idempotent: the second release is a
/// no-op, so no buffer is ever freed twice.
pub proof fn release_idempotent(s: SmithStr, m: Map<int, Seq<u8>>)
    ensures
        free_spec(free_spec(s, m).0, free_spec(s, m).1) == free_spec(s, m),
{
}

/// Releases a boundary string handed back by a caller.
///
/// The null-pointer case of the boundary signature is the caller's to test;
/// the string itself being null or already released is tolerated here: both
/// fall under the not-owned no-op.
pub fn smith_str_free(s: &mut SmithStr, mem: &mut Memory)
    requires
        old(s).wf(old(mem)@),
    ensures
        *final(s) == free_spec(*old(s), old(mem)@).0,
        final(mem)@ == free_spec(*old(s), old(mem)@).1,
        final(s).wf(final(mem)@),
{
    s.free(mem)
}

} // verus!
