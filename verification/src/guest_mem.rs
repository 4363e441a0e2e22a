//! A model of guest physical memory.
//!
//! The DMA engine reads buffer descriptors and sample data out of guest
//! memory and writes captured samples back into it.  The guest address
//! space is modeled as one contiguous byte region starting at `base`;
//! every access is bounds-checked and a failed access is reported to the
//! caller as `None` or `false`, never as a panic.

use vstd::prelude::*;

verus! {

/// True when the `len` bytes starting at guest address `addr` lie
/// inside a region of `bytes` starting at guest address `base`.
pub open spec fn bytes_in_bounds(base: u64, bytes: Seq<u8>, addr: int, len: int) -> bool {
    &&& base <= addr
    &&& addr + len <= base + bytes.len()
}

/// The byte at guest address `addr` of a region at `base`.
pub open spec fn bytes_u8(base: u64, bytes: Seq<u8>, addr: int) -> u8 {
    bytes[addr - base]
}

/// The little-endian 16-bit word at guest address `addr` of a region at
/// `base`.
pub open spec fn bytes_u16(base: u64, bytes: Seq<u8>, addr: int) -> u16 {
    (bytes_u8(base, bytes, addr) + 0x100 * bytes_u8(base, bytes, addr + 1)) as u16
}

/// The little-endian 32-bit word at guest address `addr` of a region at
/// `base`.
pub open spec fn bytes_u32(base: u64, bytes: Seq<u8>, addr: int) -> u32 {
    (bytes_u8(base, bytes, addr) + 0x100 * bytes_u8(base, bytes, addr + 1)
        + 0x1_0000 * bytes_u8(base, bytes, addr + 2)
        + 0x100_0000 * bytes_u8(base, bytes, addr + 3)) as u32
}

/// The region after the little-endian 16-bit word `val` is written at
/// guest address `addr`; out of bounds, the region is unchanged.
pub open spec fn bytes_write_u16(base: u64, bytes: Seq<u8>, addr: int, val: u16) -> Seq<u8> {
    if bytes_in_bounds(base, bytes, addr, 2) {
        bytes.update(addr - base, (val % 0x100) as u8).update(addr + 1 - base, (val / 0x100) as u8)
    } else {
        bytes
    }
}

/// One contiguous region of guest physical memory.
pub struct GuestRam {
    /// Guest physical address of the first byte of the region.
    pub base: u64,
    /// The bytes of the region, indexed from `base`.
    pub bytes: Vec<u8>,
}

impl GuestRam {
    /// True when the `len` bytes starting at guest address `addr` lie
    /// inside the region.
    pub open spec fn spec_in_bounds(&self, addr: int, len: int) -> bool {
        bytes_in_bounds(self.base, self.bytes@, addr, len)
    }

    /// The byte at guest address `addr`.
    pub open spec fn spec_u8(&self, addr: int) -> u8 {
        bytes_u8(self.base, self.bytes@, addr)
    }

    /// The little-endian 16-bit word at guest address `addr`.
    pub open spec fn spec_u16(&self, addr: int) -> u16 {
        (self.spec_u8(addr) + 0x100 * self.spec_u8(addr + 1)) as u16
    }

    /// The little-endian 32-bit word at guest address `addr`.
    pub open spec fn spec_u32(&self, addr: int) -> u32 {
        (self.spec_u8(addr) + 0x100 * self.spec_u8(addr + 1)
            + 0x1_0000 * self.spec_u8(addr + 2)
            + 0x100_0000 * self.spec_u8(addr + 3)) as u32
    }

    /// Creates a region of `len` zero bytes starting at guest address
    /// `base`.
    pub fn new(base: u64, len: usize) -> (r: GuestRam)
        requires
            base + len <= u64::MAX,
        ensures
            r.base == base,
            r.bytes@ == Seq::<u8>::new(len as nat, |i: int| 0u8),
    {
        let mut bytes: Vec<u8> = Vec::new();
        let mut i: usize = 0;
        while i < len
            invariant
                i <= len,
                bytes@ =~= Seq::<u8>::new(i as nat, |j: int| 0u8),
            decreases len - i,
        {
            bytes.push(0u8);
            i = i + 1;
        }
        proof {
            assert(bytes@ =~= Seq::<u8>::new(len as nat, |j: int| 0u8));
        }
        GuestRam { base, bytes }
    }

    /// Bounds check for `len` bytes at guest address `addr`.
    pub fn in_bounds(&self, addr: u64, len: u64) -> (r: bool)
        ensures
            r == self.spec_in_bounds(addr as int, len as int),
    {
        addr >= self.base && addr - self.base <= self.bytes.len() as u64
            && len <= self.bytes.len() as u64 - (addr - self.base)
    }

    /// Reads the byte at guest address `addr`, or `None` if it is outside
    /// the region.
    pub fn read_u8(&self, addr: u64) -> (r: Option<u8>)
        ensures
            r == if self.spec_in_bounds(addr as int, 1) {
                Some(self.spec_u8(addr as int))
            } else {
                None::<u8>
            },
    {
        if self.in_bounds(addr, 1) {
            let n = self.bytes.len();
            assert(addr - self.base < n);
            let off = (addr - self.base) as usize;
            Some(self.bytes[off])
        } else {
            None
        }
    }

    /// Reads the little-endian 16-bit word at guest address `addr`.
    pub fn read_u16(&self, addr: u64) -> (r: Option<u16>)
        ensures
            r == if self.spec_in_bounds(addr as int, 2) {
                Some(self.spec_u16(addr as int))
            } else {
                None::<u16>
            },
    {
        if self.in_bounds(addr, 2) {
            let n = self.bytes.len();
            assert(addr - self.base + 1 < n);
            let off = (addr - self.base) as usize;
            let lo = self.bytes[off];
            let hi = self.bytes[off + 1];
            Some(lo as u16 + 0x100 * hi as u16)
        } else {
            None
        }
    }

    /// Reads the little-endian 32-bit word at guest address `addr`.
    pub fn read_u32(&self, addr: u64) -> (r: Option<u32>)
        ensures
            r == if self.spec_in_bounds(addr as int, 4) {
                Some(self.spec_u32(addr as int))
            } else {
                None::<u32>
            },
    {
        if self.in_bounds(addr, 4) {
            let n = self.bytes.len();
            assert(addr - self.base + 3 < n);
            let off = (addr - self.base) as usize;
            let b0 = self.bytes[off];
            let b1 = self.bytes[off + 1];
            let b2 = self.bytes[off + 2];
            let b3 = self.bytes[off + 3];
            Some(b0 as u32 + 0x100 * b1 as u32 + 0x1_0000 * b2 as u32 + 0x100_0000 * b3 as u32)
        } else {
            None
        }
    }

    /// Writes the byte at guest address `addr`; returns `false` and leaves
    /// the region unchanged when the address is outside it.
    pub fn write_u8(&mut self, addr: u64, val: u8) -> (ok: bool)
        ensures
            ok == old(self).spec_in_bounds(addr as int, 1),
            final(self).base == old(self).base,
            ok ==> final(self).bytes@ == old(self).bytes@.update(addr - old(self).base, val),
            !ok ==> final(self).bytes@ == old(self).bytes@,
    {
        if self.in_bounds(addr, 1) {
            let n = self.bytes.len();
            assert(addr - self.base < n);
            let i = (addr - self.base) as usize;
            self.bytes.set(i, val);
            true
        } else {
            false
        }
    }

    /// Writes the little-endian 16-bit word at guest address `addr`;
    /// returns `false` and leaves the region unchanged when any of the two
    /// bytes falls outside it.
    pub fn write_u16(&mut self, addr: u64, val: u16) -> (ok: bool)
        ensures
            ok == old(self).spec_in_bounds(addr as int, 2),
            final(self).base == old(self).base,
            ok ==> final(self).bytes@ == old(self).bytes@
                .update(addr - old(self).base, (val % 0x100) as u8)
                .update(addr + 1 - old(self).base, (val / 0x100) as u8),
            !ok ==> final(self).bytes@ == old(self).bytes@,
            ok ==> final(self).spec_u16(addr as int) == val,
    {
        if self.in_bounds(addr, 2) {
            let n = self.bytes.len();
            assert(addr - self.base + 1 < n);
            let i = (addr - self.base) as usize;
            self.bytes.set(i, (val % 0x100) as u8);
            self.bytes.set(i + 1, (val / 0x100) as u8);
            true
        } else {
            false
        }
    }

    /// Writes the little-endian 32-bit word at guest address `addr`;
    /// returns `false` and leaves the region unchanged when any of the
    /// four bytes falls outside it.
    pub fn write_u32(&mut self, addr: u64, val: u32) -> (ok: bool)
        ensures
            ok == old(self).spec_in_bounds(addr as int, 4),
            final(self).base == old(self).base,
            ok ==> final(self).bytes@ == old(self).bytes@
                .update(addr - old(self).base, (val % 0x100) as u8)
                .update(addr + 1 - old(self).base, (val / 0x100 % 0x100) as u8)
                .update(addr + 2 - old(self).base, (val / 0x1_0000 % 0x100) as u8)
                .update(addr + 3 - old(self).base, (val / 0x100_0000) as u8),
            !ok ==> final(self).bytes@ == old(self).bytes@,
            ok ==> final(self).spec_u32(addr as int) == val,
    {
        if self.in_bounds(addr, 4) {
            let n = self.bytes.len();
            assert(addr - self.base + 3 < n);
            let i = (addr - self.base) as usize;
            self.bytes.set(i, (val % 0x100) as u8);
            self.bytes.set(i + 1, (val / 0x100 % 0x100) as u8);
            self.bytes.set(i + 2, (val / 0x1_0000 % 0x100) as u8);
            self.bytes.set(i + 3, (val / 0x100_0000) as u8);
            true
        } else {
            false
        }
    }
}

} // verus!
