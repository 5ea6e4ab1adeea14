//! Packet-memory allocation and the per-channel endpoint buffers.
use crate::btable::{BTABLE_BYTES, USBRAM_SIZE, USBRAM_WORDS};
use vstd::prelude::*;

verus! {

/// Byte `k` of packet memory, which the CPU reaches one word at a time
/// (little-endian within a word).
pub open spec fn ram_byte(ram: Seq<u32>, k: int) -> u8 {
    ((ram[k / 4] >> ((8 * (k % 4)) as u32)) & 0xffu32) as u8
}

/// Monotonic bump allocator over packet memory above the descriptor table.
/// A granted range is never handed out again.
pub struct EndpointMemory {
    free: u16,
    /// Every range `(start, length)` granted so far, in order.
    granted: Ghost<Seq<(int, int)>>,
}

impl EndpointMemory {
    /// First byte not yet granted.
    pub closed spec fn free_offset(&self) -> int {
        self.free as int
    }

    /// The ranges granted so far, oldest first.
    pub closed spec fn granted(&self) -> Seq<(int, int)> {
        self.granted@
    }

    pub closed spec fn wf(&self) -> bool {
        &&& BTABLE_BYTES <= self.free <= USBRAM_SIZE
        &&& self.free % 4 == 0
        &&& forall|i: int|
            0 <= i < self.granted@.len() ==> {
                &&& BTABLE_BYTES <= self.granted@[i].0
                &&& self.granted@[i].0 % 4 == 0
                &&& self.granted@[i].1 >= 0
                &&& self.granted@[i].0 + self.granted@[i].1 <= self.free
            }
        &&& forall|i: int, j: int|
            0 <= i < j < self.granted@.len() ==> self.granted@[i].0 + self.granted@[i].1
                <= self.granted@[j].0
    }

    /// An allocator with the whole window above the descriptor table free.
    pub fn new() -> (m: Self)
        ensures
            m.wf(),
            m.free_offset() == BTABLE_BYTES,
            m.granted() == Seq::<(int, int)>::empty(),
    {
        EndpointMemory { free: BTABLE_BYTES, granted: Ghost(Seq::empty()) }
    }

    /// First byte not yet granted.
    pub fn free(&self) -> (r: u16)
        ensures
            r as int == self.free_offset(),
    {
        self.free
    }

    /// Grants `len` bytes at the current free offset, or fails when they do
    /// not fit in the window; a failure changes nothing.
    pub fn allocate(&mut self, len: u16) -> (r: Result<u16, ()>)
        requires
            old(self).wf(),
            len % 4 == 0,
        ensures
            final(self).wf(),
            match r {
                Ok(addr) => {
                    &&& addr as int == old(self).free_offset()
                    &&& old(self).free_offset() + len <= USBRAM_SIZE
                    &&& final(self).free_offset() == old(self).free_offset() + len
                    &&& final(self).granted() == old(self).granted().push((addr as int, len as int))
                },
                Err(()) => {
                    &&& old(self).free_offset() + len > USBRAM_SIZE
                    &&& *final(self) == *old(self)
                },
            },
    {
        let addr = self.free;
        if addr as u32 + len as u32 > USBRAM_SIZE as u32 {
            return Err(());
        }
        self.free = addr + len;
        self.granted = Ghost(self.granted@.push((addr as int, len as int)));
        Ok(addr)
    }

    /// The free offset stays word-aligned inside the window above the table.
    pub proof fn lemma_free_bounds(&self)
        requires
            self.wf(),
        ensures
            BTABLE_BYTES <= self.free_offset() <= USBRAM_SIZE,
            self.free_offset() % 4 == 0,
    {
    }

    /// Any two ranges granted by one allocator are disjoint, and every one
    /// lies in the window above the descriptor table.
    pub proof fn lemma_granted_disjoint(&self, i: int, j: int)
        requires
            self.wf(),
            0 <= i < self.granted().len(),
            0 <= j < self.granted().len(),
            i != j,
        ensures
            self.granted()[i].0 + self.granted()[i].1 <= self.granted()[j].0 || self.granted()[j].0
                + self.granted()[j].1 <= self.granted()[i].0,
            BTABLE_BYTES <= self.granted()[i].0,
            self.granted()[i].0 + self.granted()[i].1 <= USBRAM_SIZE,
    {
    }
}

/// A range of packet memory owned by one direction of one channel.
pub struct EndpointBuffer {
    addr: u16,
    len: u16,
}

impl EndpointBuffer {
    pub closed spec fn base(&self) -> int {
        self.addr as int
    }

    pub closed spec fn size(&self) -> int {
        self.len as int
    }

    /// Word-aligned and inside the window.
    pub open spec fn wf(&self) -> bool {
        &&& 0 <= self.base()
        &&& 0 <= self.size()
        &&& self.base() % 4 == 0
        &&& self.size() % 4 == 0
        &&& self.base() + self.size() <= USBRAM_SIZE
    }

    pub fn new(addr: u16, len: u16) -> (b: Self)
        ensures
            b.base() == addr,
            b.size() == len,
    {
        EndpointBuffer { addr, len }
    }

    pub fn addr(&self) -> (r: u16)
        ensures
            r as int == self.base(),
    {
        self.addr
    }

    pub fn len(&self) -> (r: u16)
        ensures
            r as int == self.size(),
    {
        self.len
    }

    /// Copies the first `n` bytes of this buffer into `dst[start..start + n]`.
    pub fn read(&self, ram: &Vec<u32>, dst: &mut Vec<u8>, start: usize, n: usize)
        requires
            self.wf(),
            ram.len() == USBRAM_WORDS,
            n <= self.size(),
            start + n <= old(dst).len(),
        ensures
            final(dst).len() == old(dst).len(),
            forall|k: int|
                0 <= k < final(dst).len() ==> final(dst)@[k] == if start <= k < start + n {
                    ram_byte(ram@, self.base() + k - start)
                } else {
                    old(dst)@[k]
                },
    {
        let base: usize = self.addr as usize;
        let mut j: usize = 0;
        while j < n
            invariant
                j <= n,
                n <= self.size(),
                base == self.base(),
                self.wf(),
                ram.len() == USBRAM_WORDS,
                start + n <= dst.len(),
                dst.len() == old(dst).len(),
                forall|k: int|
                    0 <= k < dst.len() ==> dst@[k] == if start <= k < start + j {
                        ram_byte(ram@, self.base() + k - start)
                    } else {
                        old(dst)@[k]
                    },
            decreases n - j,
        {
            let k: usize = base + j;
            let w: u32 = ram[k / 4];
            let sh: u32 = (8 * (k % 4)) as u32;
            let b: u8 = ((w >> sh) & 0xff) as u8;
            dst.set(start + j, b);
            j = j + 1;
        }
    }

    /// Copies `src` to the start of this buffer, whole words at a time; the
    /// bytes of the last word past `src` are written as zero.
    pub fn write(&self, ram: &mut Vec<u32>, src: &Vec<u8>)
        requires
            self.wf(),
            old(ram).len() == USBRAM_WORDS,
            src.len() <= self.size(),
        ensures
            final(ram).len() == USBRAM_WORDS,
            forall|k: int| 0 <= k < src.len() ==> ram_byte(final(ram)@, self.base() + k) == src@[k],
            forall|w: int|
                0 <= w < USBRAM_WORDS && !(self.base() / 4 <= w < self.base() / 4 + (src.len()
                    + 3) / 4) ==> final(ram)@[w] == old(ram)@[w],
    {
        let n: usize = src.len();
        let first: usize = self.addr as usize / 4;
        let words: usize = (n + 3) / 4;
        let mut i: usize = 0;
        while i < words
            invariant
                i <= words,
                words == (n + 3) / 4,
                n == src.len(),
                n <= self.size(),
                first == self.base() / 4,
                self.wf(),
                ram.len() == USBRAM_WORDS,
                forall|k: int|
                    0 <= k < n && k < 4 * i ==> ram_byte(ram@, self.base() + k) == src@[k],
                forall|w: int|
                    0 <= w < USBRAM_WORDS && !(first <= w < first + i) ==> ram@[w] == old(
                        ram,
                    )@[w],
            decreases words - i,
        {
            let b0: u8 = if 4 * i < n { src[4 * i] } else { 0 };
            let b1: u8 = if 4 * i + 1 < n { src[4 * i + 1] } else { 0 };
            let b2: u8 = if 4 * i + 2 < n { src[4 * i + 2] } else { 0 };
            let b3: u8 = if 4 * i + 3 < n { src[4 * i + 3] } else { 0 };
            let val: u32 = (b0 as u32) | ((b1 as u32) << 8) | ((b2 as u32) << 16) | ((b3 as u32)
                << 24);
            proof {
                lemma_word_bytes(b0, b1, b2, b3);
            }
            let ghost before = ram@;
            ram.set(first + i, val);
            proof {
                assert forall|k: int| 0 <= k < n && k < 4 * (i + 1) implies ram_byte(
                    ram@,
                    self.base() + k,
                ) == src@[k] by {
                    assert((self.base() + k) / 4 == first + k / 4);
                    assert((self.base() + k) % 4 == k % 4);
                    if k >= 4 * i {
                        assert(k / 4 == i);
                    } else {
                        assert(k / 4 < i);
                        assert(ram_byte(ram@, self.base() + k) == ram_byte(before, self.base() + k));
                    }
                }
            }
            i = i + 1;
        }
    }
}

/// Each byte of a word assembled from four bytes reads back as that byte.
proof fn lemma_word_bytes(b0: u8, b1: u8, b2: u8, b3: u8)
    ensures
        ({
            let v = (b0 as u32) | ((b1 as u32) << 8u32) | ((b2 as u32) << 16u32) | ((b3 as u32)
                << 24u32);
            &&& ((v >> 0u32) & 0xffu32) as u8 == b0
            &&& ((v >> 8u32) & 0xffu32) as u8 == b1
            &&& ((v >> 16u32) & 0xffu32) as u8 == b2
            &&& ((v >> 24u32) & 0xffu32) as u8 == b3
        }),
{
    let (x0, x1, x2, x3) = (b0 as u32, b1 as u32, b2 as u32, b3 as u32);
    let v = x0 | (x1 << 8u32) | (x2 << 16u32) | (x3 << 24u32);
    assert((v >> 0u32) & 0xffu32 == x0 && (v >> 8u32) & 0xffu32 == x1 && (v >> 16u32) & 0xffu32
        == x2 && (v >> 24u32) & 0xffu32 == x3) by (bit_vector)
        requires
            x0 < 256,
            x1 < 256,
            x2 < 256,
            x3 < 256,
            v == x0 | (x1 << 8u32) | (x2 << 16u32) | (x3 << 24u32),
    ;
}

} // verus!
