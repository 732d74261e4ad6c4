//! The growable byte region that incoming server data is read into.
use vstd::prelude::*;
use crate::error::{Error, IoErrorKind};

verus! {

/// Growth step of the buffer, in bytes.
pub const BLOCK_SIZE: usize = 4096;

/// Largest size the buffer may reach: 512 MiB.
pub const MAX_CAPACITY: usize = 536870912;

/// `n` rounded up to a multiple of `BLOCK_SIZE`.
pub open spec fn round_up(n: int) -> int {
    if n % (BLOCK_SIZE as int) == 0 {
        n
    } else {
        n + (BLOCK_SIZE - n % (BLOCK_SIZE as int))
    }
}

/// Size of the block that `reset_with_data` allocates for `n` bytes: the next
/// multiple of `BLOCK_SIZE` strictly above `n` when `n` is one, else `n` rounded up.
pub open spec fn reset_size(n: int) -> int {
    if n % (BLOCK_SIZE as int) == 0 {
        n + BLOCK_SIZE
    } else {
        round_up(n)
    }
}

/// The size the buffer grows to when asked for `n` more bytes on `capacity`.
pub open spec fn grown_size(capacity: int, n: int) -> int {
    round_up(capacity + n)
}

/// How much `ensure_capacity(required)` grows a buffer of `capacity` with
/// `used` bytes in use, or 0 when it does not grow it: nothing when the free
/// tail already holds `max(1, required)` bytes, else the shortfall, but at
/// least one block.
pub open spec fn growth_for(used: int, capacity: int, required: int) -> int {
    let need = if required > 1 { required } else { 1 };
    let free = capacity - used;
    if free >= need {
        0
    } else if need - free > BLOCK_SIZE {
        need - free
    } else {
        BLOCK_SIZE as int
    }
}

/// A byte region with a used prefix; the rest is free for the next read.
#[derive(Debug)]
pub struct Buffer {
    block: Vec<u8>,
    offset: usize,
}

impl Buffer {
    /// Number of bytes holding data.
    pub closed spec fn spec_used(&self) -> nat {
        self.offset as nat
    }

    /// Size of the region.
    pub closed spec fn spec_capacity(&self) -> nat {
        self.block@.len()
    }

    /// The whole region, used and free.
    pub closed spec fn region(&self) -> Seq<u8> {
        self.block@
    }

    /// The bytes holding data.
    pub closed spec fn contents(&self) -> Seq<u8> {
        self.block@.subrange(0, self.offset as int)
    }

    /// The data is the used prefix of the region.
    pub proof fn lemma_contents(&self)
        requires
            self.wf(),
        ensures
            self.contents().len() == self.spec_used(),
            self.contents() == self.region().subrange(0, self.spec_used() as int),
            self.region().len() == self.spec_capacity(),
    {
    }

    /// `used <= capacity <= MAX_CAPACITY`.
    pub open spec fn wf(&self) -> bool {
        self.spec_used() <= self.spec_capacity() <= MAX_CAPACITY
    }

    /// An empty buffer of one block.
    pub fn new() -> (r: Self)
        ensures
            r.wf(),
            r.spec_used() == 0,
            r.spec_capacity() == BLOCK_SIZE,
    {
        Buffer { block: vec![0u8; BLOCK_SIZE], offset: 0 }
    }

    /// Returns the number of bytes in the buffer containing data.
    pub fn used(&self) -> (r: usize)
        ensures
            r == self.spec_used(),
    {
        self.offset
    }

    /// Returns the size of the buffer.
    pub fn capacity(&self) -> (r: usize)
        ensures
            r == self.spec_capacity(),
    {
        self.block.len()
    }

    /// Returns the number of free bytes after the data.
    pub fn free_len(&self) -> (r: usize)
        requires
            self.wf(),
        ensures
            r == self.spec_capacity() - self.spec_used(),
    {
        self.block.len() - self.offset
    }

    /// The bytes holding data.
    pub fn data(&self) -> (r: &[u8])
        requires
            self.wf(),
        ensures
            r@ == self.contents(),
    {
        &self.block.as_slice()[0..self.offset]
    }

    /// Writes `data` into the free part and counts it as used.
    pub fn write_free(&mut self, data: &[u8])
        requires
            old(self).wf(),
            data@.len() <= old(self).spec_capacity() - old(self).spec_used(),
        ensures
            final(self).wf(),
            final(self).spec_capacity() == old(self).spec_capacity(),
            final(self).contents() == old(self).contents() + data@,
    {
        let ghost before = self.contents();
        let mut i: usize = 0;
        while i < data.len()
            invariant
                self.offset == old(self).offset,
                self.block@.len() == old(self).block@.len(),
                self.offset + data@.len() <= self.block@.len(),
                self.block@.len() <= MAX_CAPACITY,
                0 <= i <= data@.len(),
                self.block@.subrange(0, self.offset as int) == before,
                forall|j: int| 0 <= j < i ==> self.block@[self.offset + j] == data@[j],
            decreases data@.len() - i,
        {
            let at = self.offset + i;
            self.block[at] = data[i];
            i = i + 1;
            assert(self.block@.subrange(0, self.offset as int) =~= before);
        }
        self.offset = self.offset + data.len();
        assert(self.contents() =~= before + data@);
    }

    /// Counts `num_bytes` more bytes as used; at most the whole buffer becomes used.
    pub fn extend_used(&mut self, num_bytes: usize)
        requires
            old(self).wf(),
        ensures
            final(self).wf(),
            final(self).spec_capacity() == old(self).spec_capacity(),
            final(self).spec_used() == if old(self).spec_used() + num_bytes > old(self).spec_capacity() {
                old(self).spec_capacity() as int
            } else {
                old(self).spec_used() + num_bytes
            },
            final(self).region() == old(self).region(),
    {
        if num_bytes >= self.block.len() - self.offset {
            self.offset = self.block.len();
        } else {
            self.offset = self.offset + num_bytes;
        }
    }

    /// Grows the buffer by at least `num_bytes`, to a multiple of `BLOCK_SIZE`;
    /// fails when that would exceed `MAX_CAPACITY`.
    pub fn grow(&mut self, num_bytes: usize) -> (r: Result<(), Error>)
        requires
            old(self).wf(),
        ensures
            final(self).wf(),
            final(self).spec_used() == old(self).spec_used(),
            final(self).contents() == old(self).contents(),
            r is Ok <==> grown_size(old(self).spec_capacity() as int, num_bytes as int) <= MAX_CAPACITY,
            r is Ok ==> final(self).spec_capacity() == grown_size(old(self).spec_capacity() as int, num_bytes as int),
            r is Err ==> final(self).spec_capacity() == old(self).spec_capacity(),
            r matches Err(e) ==> e matches Error::Io(IoErrorKind::TooLarge),
    {
        let size = self.block.len();
        if num_bytes > MAX_CAPACITY - size {
            assert(round_up(size + num_bytes) >= size + num_bytes);
            return Err(Error::Io(IoErrorKind::TooLarge));
        }
        let min_size = size + num_bytes;
        let rem = min_size % BLOCK_SIZE;
        let new_size = if rem == 0 { min_size } else { min_size + (BLOCK_SIZE - rem) };
        if new_size > MAX_CAPACITY {
            return Err(Error::Io(IoErrorKind::TooLarge));
        }
        let ghost before = self.contents();
        self.block.resize(new_size, 0u8);
        assert(self.contents() =~= before) by {
            assert(self.block@.subrange(0, size as int) == old(self).block@);
            assert(self.contents() =~= self.block@.subrange(0, size as int).subrange(0, self.offset as int));
        }
        Ok(())
    }

    /// Ensures a free tail of at least `max(1, required)` bytes, growing
    /// the buffer by at least one block when it is shorter; fails, leaving
    /// the buffer as it was, when that would exceed `MAX_CAPACITY`.
    pub fn ensure_capacity(&mut self, required: usize) -> (r: Result<(), Error>)
        requires
            old(self).wf(),
        ensures
            final(self).wf(),
            final(self).spec_used() == old(self).spec_used(),
            final(self).contents() == old(self).contents(),
            ({
                let g = growth_for(old(self).spec_used() as int, old(self).spec_capacity() as int, required as int);
                &&& (r is Ok <==> g == 0 || grown_size(old(self).spec_capacity() as int, g) <= MAX_CAPACITY)
                &&& (r is Ok ==> final(self).spec_capacity() == if g == 0 {
                    old(self).spec_capacity() as int
                } else {
                    grown_size(old(self).spec_capacity() as int, g)
                })
            }),
            r is Ok ==> final(self).spec_capacity() - final(self).spec_used() >= if required > 1 {
                required as int
            } else {
                1
            },
            r is Err ==> final(self).spec_capacity() == old(self).spec_capacity(),
            r matches Err(e) ==> e matches Error::Io(IoErrorKind::TooLarge),
    {
        let size = self.block.len();
        let free_bytes = size - self.offset;
        let need: usize = if required > 1 { required } else { 1 };
        if free_bytes >= need {
            Ok(())
        } else {
            let short = need - free_bytes;
            let increase = if short > BLOCK_SIZE { short } else { BLOCK_SIZE };
            let r = self.grow(increase);
            assert(round_up(size + increase) >= size + increase);
            r
        }
    }

    /// Hands out the block backing the buffer and puts a fresh block of
    /// `BLOCK_SIZE` in its place. The used count is kept: the block must be
    /// given back with `return_block` before the buffer is used again.
    pub fn take_block(&mut self) -> (r: Vec<u8>)
        ensures
            r@ == old(self).region(),
            final(self).spec_used() == old(self).spec_used(),
            final(self).spec_capacity() == BLOCK_SIZE,
    {
        let mut taken = vec![0u8; BLOCK_SIZE];
        std::mem::swap(&mut self.block, &mut taken);
        taken
    }

    /// Puts back the block handed out by `take_block`.
    pub fn return_block(&mut self, block: Vec<u8>)
        ensures
            final(self).region() == block@,
            final(self).spec_used() == old(self).spec_used(),
    {
        self.block = block;
    }

    /// Replaces the buffer by a new block holding exactly `data`, with at
    /// least one free byte after it.
    pub fn reset_with_data(&mut self, data: &[u8])
        requires
            data@.len() < MAX_CAPACITY,
        ensures
            final(self).wf(),
            final(self).contents() == data@,
            final(self).spec_capacity() == reset_size(data@.len() as int),
            final(self).spec_capacity() > final(self).spec_used(),
    {
        let len = data.len();
        let rem = len % BLOCK_SIZE;
        let new_size = if rem == 0 { len + BLOCK_SIZE } else { len + (BLOCK_SIZE - rem) };
        assert(new_size <= MAX_CAPACITY) by {
            assert(MAX_CAPACITY % BLOCK_SIZE == 0);
        }
        let mut block = vec![0u8; new_size];
        let mut i: usize = 0;
        while i < len
            invariant
                len == data@.len(),
                block@.len() == new_size,
                len < new_size,
                0 <= i <= len,
                forall|j: int| 0 <= j < i ==> block@[j] == data@[j],
            decreases len - i,
        {
            block[i] = data[i];
            i = i + 1;
        }
        self.block = block;
        self.offset = len;
        assert(self.contents() =~= data@);
    }
}

} // verus!
