//! The memory image that backs the engine's on-demand byte reads.
//!
//! The engine may probe anywhere around the instruction stream; every read
//! outside the image's bounds is defined to yield zero, never an error, so
//! speculative reads past the buffer are safe and deterministic.

use vstd::prelude::*;
use vstd::slice::slice_to_vec;

verus! {

/// A byte buffer positioned at a base address. Replaced wholesale before
/// every decode call; never shared outside the owning session.
pub struct Image {
    pub base_addr: u64,
    pub data: Vec<u8>,
}

/// The byte an image supplies for a read of position `i` of a buffer filled
/// from `addr`: the image byte at `addr - base + i` when that position lies
/// inside the image and `addr` does not precede the base, zero otherwise.
pub open spec fn spec_image_byte(base: u64, data: Seq<u8>, addr: u64, i: int) -> u8 {
    if addr >= base && addr - base + i < data.len() {
        data[addr - base + i]
    } else {
        0
    }
}

/// The whole buffer of length `len` an image supplies for a read at `addr`.
pub open spec fn spec_fill(base: u64, data: Seq<u8>, addr: u64, len: nat) -> Seq<u8> {
    Seq::new(len, |i: int| spec_image_byte(base, data, addr, i))
}

impl Image {
    /// An empty image based at address zero, the state of a session before
    /// its first decode call.
    pub fn empty() -> (r: Image)
        ensures
            r.base_addr == 0,
            r.data@ == Seq::<u8>::empty(),
    {
        Image { base_addr: 0, data: Vec::new() }
    }

    /// Replace the image wholesale: the new base is `addr` and the new
    /// contents are a copy of `code`. Nothing of the old image survives.
    pub fn load(&mut self, code: &[u8], addr: u64)
        ensures
            final(self).base_addr == addr,
            final(self).data@ == code@,
    {
        self.base_addr = addr;
        self.data = slice_to_vec(code);
    }

    /// Fill `buf` with the bytes visible at `addr`: zero everywhere, except
    /// that positions backed by the image receive the image's bytes. The
    /// buffer keeps its length. Never fails, whatever `addr` is.
    pub fn fill(&self, buf: &mut Vec<u8>, addr: u64)
        ensures
            final(buf)@ == spec_fill(self.base_addr, self.data@, addr, old(buf)@.len()),
    {
        let n = buf.len();
        let mut j: usize = 0;
        while j < n
            invariant
                n == buf@.len(),
                j <= n,
                forall|k: int| 0 <= k < j ==> buf@[k] == 0u8,
            decreases n - j,
        {
            buf.set(j, 0);
            j = j + 1;
        }
        if addr >= self.base_addr {
            let off = addr - self.base_addr;
            if off < self.data.len() as u64 {
                let off = off as usize;
                let avail = self.data.len() - off;
                let count = if n < avail { n } else { avail };
                let mut k: usize = 0;
                while k < count
                    invariant
                        n == buf@.len(),
                        count <= n,
                        off + count <= self.data@.len(),
                        self.data@.len() <= usize::MAX,
                        off == addr - self.base_addr,
                        addr >= self.base_addr,
                        count as int == if (n as int) < self.data@.len() - off { n as int } else { self.data@.len() - off },
                        k <= count,
                        forall|m: int| 0 <= m < k ==> buf@[m] == self.data@[off + m],
                        forall|m: int| k <= m < n ==> buf@[m] == 0u8,
                    decreases count - k,
                {
                    assert(off + k < self.data@.len());
                    let b = self.data[off + k];
                    buf.set(k, b);
                    k = k + 1;
                }
                assert(buf@ =~= spec_fill(self.base_addr, self.data@, addr, old(buf)@.len()));
                return;
            }
        }
        assert(buf@ =~= spec_fill(self.base_addr, self.data@, addr, old(buf)@.len()));
    }
}

/// A decode call replaces the session's image wholesale, so the bytes the
/// engine can observe depend on the loaded `(code, address)` pair alone:
/// two images loaded with the same pair — whatever either held before —
/// supply identical bytes at every probe of every length. With the engine a
/// function of the bytes it reads, two decode calls over the same loaded
/// pair therefore see the same input.
pub proof fn lemma_load_erases_history(img1: Image, img2: Image, code: Seq<u8>, addr: u64)
    requires
        img1.base_addr == addr,
        img1.data@ == code,
        img2.base_addr == addr,
        img2.data@ == code,
    ensures
        forall|probe: u64, len: nat|
            spec_fill(img1.base_addr, img1.data@, probe, len) == #[trigger] spec_fill(
                img2.base_addr,
                img2.data@,
                probe,
                len,
            ),
{
}

} // verus!

