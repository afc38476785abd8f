//! The shared frame pool and its descriptors.
//!
//! The pool is one contiguous byte region divided into `frame_count`
//! frames of fixed `frame_size`; a descriptor names one frame by its
//! byte address and carries the current payload length.  Every read and
//! write is bounds-checked against the pool and the frame, so no frame
//! content is touched outside the span its descriptor allows.

use vstd::arithmetic::div_mod::lemma_fundamental_div_mod;
use vstd::arithmetic::div_mod::lemma_mod_multiples_basic;
use vstd::arithmetic::mul::lemma_mul_inequality;
use vstd::arithmetic::mul::lemma_mul_is_commutative;
use vstd::arithmetic::mul::lemma_mul_is_distributive_add_other_way;
use vstd::arithmetic::mul::lemma_mul_strict_inequality;
use vstd::prelude::*;

use crate::errors::ScanError;

verus! {

/// One fixed-size slot of the frame pool: a byte address into the pool
/// and the length of the payload currently held there.
#[derive(Clone, Copy, Debug, PartialEq, Eq)]
pub struct FrameDesc {
    pub addr: usize,
    pub len: usize,
}

/// The shared memory region frames live in.
pub struct FramePool {
    data: Vec<u8>,
    frame_size: usize,
    frame_count: usize,
}

impl FramePool {
    /// The pool's bytes.
    pub closed spec fn contents(&self) -> Seq<u8> {
        self.data@
    }

    /// The fixed size of one frame.
    pub closed spec fn frame_size(&self) -> int {
        self.frame_size as int
    }

    /// How many frames the pool is divided into.
    pub closed spec fn frame_count(&self) -> int {
        self.frame_count as int
    }

    /// The pool's geometry is coherent.
    pub open spec fn wf(&self) -> bool {
        &&& self.contents().len() == self.frame_count() * self.frame_size()
        &&& self.frame_size() >= 1
    }

    /// `d` names one whole frame of this pool: frame-aligned, in
    /// bounds, with a payload no longer than a frame.
    pub open spec fn valid_desc(&self, d: FrameDesc) -> bool {
        &&& d.addr as int % self.frame_size() == 0
        &&& d.addr + self.frame_size() <= self.contents().len()
        &&& d.len <= self.frame_size()
    }

    /// The payload bytes `d` currently names.
    pub open spec fn frame_bytes(&self, d: FrameDesc) -> Seq<u8> {
        self.contents().subrange(d.addr as int, d.addr + d.len)
    }

    /// Allocates a zeroed pool of `frame_count` frames of `frame_size`
    /// bytes each.
    pub fn new(frame_count: usize, frame_size: usize) -> (r: FramePool)
        requires
            frame_size >= 1,
            frame_count * frame_size <= usize::MAX,
        ensures
            r.wf(),
            r.frame_size() == frame_size,
            r.frame_count() == frame_count,
            forall|k: int| 0 <= k < r.contents().len() ==> r.contents()[k] == 0u8,
    {
        let total: usize = frame_count * frame_size;
        let mut data: Vec<u8> = Vec::new();
        let mut i: usize = 0;
        while i < total
            invariant
                data@.len() == i <= total,
                forall|k: int| 0 <= k < i ==> data@[k] == 0u8,
            decreases total - i,
        {
            data.push(0);
            i = i + 1;
        }
        FramePool { data, frame_size, frame_count }
    }

    /// One descriptor per frame, in pool order, each with payload
    /// length zero.
    pub fn descriptors(&self) -> (r: Vec<FrameDesc>)
        requires
            self.wf(),
        ensures
            r@.len() == self.frame_count(),
            forall|i: int|
                0 <= i < r@.len() ==> r@[i].addr == i * self.frame_size() && r@[i].len == 0,
            forall|i: int| 0 <= i < r@.len() ==> self.valid_desc(#[trigger] r@[i]),
            forall|i: int, j: int| 0 <= i < j < r@.len() ==> r@[i].addr != r@[j].addr,
    {
        let total = self.data.len();
        let mut r: Vec<FrameDesc> = Vec::new();
        let mut i: usize = 0;
        let mut addr: usize = 0;
        while i < self.frame_count
            invariant
                self.wf(),
                total == self.contents().len(),
                i <= self.frame_count,
                addr == i * self.frame_size(),
                r@.len() == i,
                forall|j: int|
                    0 <= j < i ==> r@[j].addr == j * self.frame_size() && r@[j].len == 0,
            decreases self.frame_count - i,
        {
            proof {
                lemma_mul_is_distributive_add_other_way(self.frame_size(), i as int, 1);
                lemma_mul_inequality(i + 1, self.frame_count(), self.frame_size());
            }
            r.push(FrameDesc { addr, len: 0 });
            addr = addr + self.frame_size;
            i = i + 1;
        }
        proof {
            assert forall|i: int| 0 <= i < r@.len() implies self.valid_desc(#[trigger] r@[i]) by {
                lemma_mod_multiples_basic(i, self.frame_size());
                lemma_mul_is_distributive_add_other_way(self.frame_size(), i, 1);
                lemma_mul_inequality(i + 1, self.frame_count(), self.frame_size());
            }
            assert forall|i: int, j: int| 0 <= i < j < r@.len() implies r@[i].addr != r@[j].addr by {
                lemma_mul_strict_inequality(i, j, self.frame_size());
            }
        }
        r
    }

    /// Which frame of the pool a descriptor names.
    pub fn frame_index_of(&self, d: &FrameDesc) -> (r: usize)
        requires
            self.wf(),
            self.valid_desc(*d),
        ensures
            r == d.addr as int / self.frame_size(),
            r < self.frame_count(),
            r * self.frame_size() == d.addr,
    {
        proof {
            lemma_fundamental_div_mod(d.addr as int, self.frame_size());
            lemma_mul_is_commutative(self.frame_size(), d.addr as int / self.frame_size());
            if d.addr as int / self.frame_size() >= self.frame_count() {
                lemma_mul_inequality(
                    self.frame_count(),
                    d.addr as int / self.frame_size(),
                    self.frame_size(),
                );
            }
        }
        d.addr / self.frame_size
    }

    /// The fixed size of one frame, as a value.
    pub fn frame_size_bytes(&self) -> (r: usize)
        ensures
            r == self.frame_size(),
    {
        self.frame_size
    }

    /// How many frames the pool holds, as a value.
    pub fn num_frames(&self) -> (r: usize)
        ensures
            r == self.frame_count(),
    {
        self.frame_count
    }

    /// Reads `len` bytes starting at `addr`.
    pub fn read(&self, addr: usize, len: usize) -> (r: Vec<u8>)
        requires
            addr + len <= self.contents().len(),
        ensures
            r@ == self.contents().subrange(addr as int, addr + len),
    {
        let total = self.data.len();
        let mut r: Vec<u8> = Vec::new();
        let mut i: usize = 0;
        while i < len
            invariant
                total == self.data@.len(),
                addr + len <= self.data@.len(),
                r@.len() == i <= len,
                forall|j: int| 0 <= j < i ==> r@[j] == self.data@[addr + j],
            decreases len - i,
        {
            r.push(self.data[addr + i]);
            i = i + 1;
        }
        proof {
            assert(r@ =~= self.contents().subrange(addr as int, addr + len));
        }
        r
    }

    /// Reads the payload a descriptor currently names.
    pub fn read_frame(&self, d: &FrameDesc) -> (r: Vec<u8>)
        requires
            self.wf(),
            self.valid_desc(*d),
        ensures
            r@ == self.frame_bytes(*d),
    {
        self.read(d.addr, d.len)
    }

    /// Writes `bytes` into the frame `d` names and records the new
    /// payload length in `d`.  Fails — changing nothing — exactly when
    /// the payload would not fit in one frame.
    pub fn write_frame(&mut self, d: &mut FrameDesc, bytes: &Vec<u8>) -> (r: Result<(), ScanError>)
        requires
            old(self).wf(),
            old(self).valid_desc(*old(d)),
        ensures
            final(self).wf(),
            final(self).frame_size() == old(self).frame_size(),
            final(self).frame_count() == old(self).frame_count(),
            final(self).contents().len() == old(self).contents().len(),
            final(self).valid_desc(*final(d)),
            r is Ok <==> bytes@.len() <= old(self).frame_size(),
            r is Err ==> *final(self) == *old(self) && *final(d) == *old(d) && (r matches Err(
                e,
            ) && e matches ScanError::FrameTooLong { len, frame_size } && len == bytes@.len()
                && frame_size == old(self).frame_size()),
            r is Ok ==> final(d).addr == old(d).addr && final(d).len == bytes@.len(),
            r is Ok ==> final(self).frame_bytes(*final(d)) == bytes@,
            r is Ok ==> forall|k: int|
                0 <= k < old(self).contents().len() && !(old(d).addr <= k < old(d).addr
                    + bytes@.len()) ==> final(self).contents()[k] == old(self).contents()[k],
            r is Ok ==> forall|k: int|
                old(d).addr <= k < old(d).addr + bytes@.len() ==> final(self).contents()[k]
                    == bytes@[k - old(d).addr],
    {
        if bytes.len() > self.frame_size {
            return Err(ScanError::FrameTooLong { len: bytes.len(), frame_size: self.frame_size });
        }
        let n = bytes.len();
        let total = self.data.len();
        let mut i: usize = 0;
        while i < n
            invariant
                total == self.data@.len(),
                n == bytes@.len(),
                i <= n,
                d.addr + self.frame_size() <= self.data@.len(),
                n <= self.frame_size(),
                self.data@.len() == old(self).contents().len(),
                self.frame_size == old(self).frame_size(),
                self.frame_count == old(self).frame_count(),
                forall|k: int|
                    0 <= k < self.data@.len() && !(d.addr <= k < d.addr + i)
                        ==> self.data@[k] == old(self).contents()[k],
                forall|k: int| d.addr <= k < d.addr + i ==> self.data@[k] == bytes@[k - d.addr],
                d == old(d),
            decreases n - i,
        {
            self.data.set(d.addr + i, bytes[i]);
            i = i + 1;
        }
        d.len = n;
        proof {
            assert(self.frame_bytes(*d) =~= bytes@);
        }
        Ok(())
    }
}

} // verus!
