//! A model of the byte buffers that live on the producing side of the
//! boundary. Every buffer a boundary string can point at is held in a
//! [`Memory`] arena; a pointer is a nonzero handle into it, and `0` plays the
//! role of the null pointer. The view of a `Memory` is the map from each live
//! handle to the bytes stored there.

use vstd::prelude::*;

verus! {

/// The buffers reachable from boundary strings, keyed by nonzero handles.
pub struct Memory {
    bufs: Vec<Option<Vec<u8>>>,
}

impl View for Memory {
    type V = Map<int, Seq<u8>>;

    closed spec fn view(&self) -> Map<int, Seq<u8>> {
        Map::new(
            |p: int| 1 <= p <= self.bufs@.len() && self.bufs@[p - 1] is Some,
            |p: int| self.bufs@[p - 1].unwrap()@,
        )
    }
}

impl Memory {
    /// A memory with no live buffers.
    pub fn new() -> (m: Memory)
        ensures
            m@ == Map::<int, Seq<u8>>::empty(),
    {
        let m = Memory { bufs: Vec::new() };
        proof {
            assert(m@ =~= Map::<int, Seq<u8>>::empty());
        }
        m
    }

    /// Every live handle is nonzero, so a live buffer is never at null.
    pub proof fn keys_positive(&self)
        ensures
            forall|p: int| self@.contains_key(p) ==> 1 <= p,
    {
    }

    /// Stores a fresh buffer and hands back its handle.
    pub fn store(&mut self, bytes: Vec<u8>) -> (p: usize)
        ensures
            p != 0,
            !old(self)@.contains_key(p as int),
            final(self)@ == old(self)@.insert(p as int, bytes@),
    {
        self.bufs.push(Some(bytes));
        let p = self.bufs.len();
        proof {
            assert(self@ =~= old(self)@.insert(p as int, bytes@));
        }
        p
    }

    /// Drops the buffer at a live handle; every other buffer is untouched.
    pub fn discard(&mut self, p: usize)
        requires
            old(self)@.contains_key(p as int),
        ensures
            final(self)@ == old(self)@.remove(p as int),
    {
        let idx = p - 1;
        self.bufs[idx] = None;
        proof {
            assert(self@ =~= old(self)@.remove(p as int));
        }
    }

    /// Whether a handle currently addresses a live buffer.
    pub fn contains(&self, p: usize) -> (r: bool)
        ensures
            r == self@.contains_key(p as int),
    {
        if p == 0 || p > self.bufs.len() {
            false
        } else {
            match &self.bufs[p - 1] {
                Some(_) => true,
                None => false,
            }
        }
    }

    /// The length of the buffer at a live handle.
    pub fn buf_len(&self, p: usize) -> (n: usize)
        requires
            self@.contains_key(p as int),
        ensures
            n == self@[p as int].len(),
    {
        let idx = p - 1;
        match &self.bufs[idx] {
            Some(v) => v.len(),
            None => {
                proof {
                    assert(false);
                }
                0
            },
        }
    }

    /// Copies the buffer at a live handle out of the arena.
    pub fn read(&self, p: usize) -> (b: Vec<u8>)
        requires
            self@.contains_key(p as int),
        ensures
            b@ == self@[p as int],
    {
        let idx = p - 1;
        match &self.bufs[idx] {
            Some(v) => copy_bytes(v),
            None => {
                proof {
                    assert(false);
                }
                Vec::new()
            },
        }
    }
}

/// A fresh vector holding exactly the bytes of `b`.
pub(crate) fn copy_bytes(b: &Vec<u8>) -> (r: Vec<u8>)
    ensures
        r@ == b@,
{
    let mut r: Vec<u8> = Vec::new();
    let mut i: usize = 0;
    while i < b.len()
        invariant
            i <= b@.len(),
            r@ == b@.take(i as int),
        decreases b@.len() - i,
    {
        r.push(b[i]);
        proof {
            assert(r@ =~= b@.take(i as int + 1));
        }
        i = i + 1;
    }
    proof {
        assert(b@.take(b@.len() as int) =~= b@);
    }
    r
}

} // verus!
