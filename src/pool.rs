//! The buffer pool's sizing policy: one backing allocation, as large as the
//! largest frame asked for so far; it grows and never shrinks.

use vstd::prelude::*;

verus! {

/// Bytes of a `width` by `height` frame at four bytes per pixel.
pub open spec fn frame_size(width: u32, height: u32) -> nat {
    width as nat * height as nat * 4
}

/// The size of the backing allocation, in bytes.
#[derive(Debug, Clone, Copy, PartialEq, Eq)]
pub struct BufferPool {
    capacity: usize,
}

impl View for BufferPool {
    type V = nat;

    closed spec fn view(&self) -> nat {
        self.capacity as nat
    }
}

impl BufferPool {
    /// A pool whose backing allocation holds `capacity` bytes.
    pub fn new(capacity: usize) -> (r: BufferPool)
        ensures
            r@ == capacity,
    {
        BufferPool { capacity }
    }

    pub fn capacity(&self) -> (r: usize)
        ensures
            r == self@,
    {
        self.capacity
    }

    /// The bytes of a `width` by `height` frame, where they fit in `usize`.
    pub fn frame_bytes(width: u32, height: u32) -> (r: Option<usize>)
        ensures
            r == if frame_size(width, height) <= usize::MAX {
                Some(frame_size(width, height) as usize)
            } else {
                None::<usize>
            },
    {
        let w = width as u128;
        let h = height as u128;
        assert(w * h <= 4294967295 * 4294967295) by (nonlinear_arith)
            requires
                w <= 4294967295,
                h <= 4294967295,
        ;
        let n: u128 = w * h * 4;
        if n <= usize::MAX as u128 {
            Some(n as usize)
        } else {
            None
        }
    }

    /// Makes room for `bytes`: where they exceed the capacity, the pool
    /// grows to exactly `bytes` and says so; otherwise nothing changes.
    pub fn reserve(&mut self, bytes: usize) -> (grown: Option<usize>)
        ensures
            final(self)@ == if bytes > old(self)@ {
                bytes as nat
            } else {
                old(self)@
            },
            final(self)@ >= old(self)@,
            final(self)@ >= bytes,
            grown == if bytes > old(self)@ {
                Some(bytes)
            } else {
                None::<usize>
            },
    {
        if bytes > self.capacity {
            self.capacity = bytes;
            Some(bytes)
        } else {
            None
        }
    }
}

} // verus!
