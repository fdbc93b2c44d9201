//! General RAM device: a 2 MiB byte array with little-endian 8/16/32-bit
//! access. Addresses wrap modulo the device size regardless of which virtual
//! segment was used to reach it.

use vstd::prelude::*;

verus! {

/// Number of bytes of general RAM.
pub const RAM_SIZE: u32 = 2 * 1024 * 1024;

/// A 16-bit value composed little-endian from two bytes: the
/// least-significant byte sits at the lowest address.
pub open spec fn spec_word16(b0: u8, b1: u8) -> u16 {
    ((b1 as u16) << 8) | (b0 as u16)
}

/// A 32-bit value composed little-endian from four bytes: the
/// least-significant byte sits at the lowest address.
pub open spec fn spec_word32(b0: u8, b1: u8, b2: u8, b3: u8) -> u32 {
    ((b3 as u32) << 24) | ((b2 as u32) << 16) | ((b1 as u32) << 8) | (b0 as u32)
}

/// The byte of RAM contents `s` addressed by `address`, after the wrap
/// modulo the device size.
pub open spec fn spec_ram_byte(s: Seq<u8>, address: u32) -> u8
    recommends
        s.len() == RAM_SIZE,
{
    s[(address & 0x1FFFFF) as int]
}

/// RAM contents `s` with the byte addressed by `address` replaced.
pub open spec fn spec_ram_store8(s: Seq<u8>, address: u32, value: u8) -> Seq<u8>
    recommends
        s.len() == RAM_SIZE,
{
    s.update((address & 0x1FFFFF) as int, value)
}

/// The 16-bit little-endian read at `address`.
pub open spec fn spec_ram_load16(s: Seq<u8>, address: u32) -> u16 {
    spec_word16(spec_ram_byte(s, address), spec_ram_byte(s, address.wrapping_add(1)))
}

/// The 32-bit little-endian read at `address`.
pub open spec fn spec_ram_load32(s: Seq<u8>, address: u32) -> u32 {
    spec_word32(
        spec_ram_byte(s, address),
        spec_ram_byte(s, address.wrapping_add(1)),
        spec_ram_byte(s, address.wrapping_add(2)),
        spec_ram_byte(s, address.wrapping_add(3)),
    )
}

/// The contents after the 16-bit little-endian write at `address`.
pub open spec fn spec_ram_store16(s: Seq<u8>, address: u32, value: u16) -> Seq<u8> {
    spec_ram_store8(
        spec_ram_store8(s, address, (value & 0xFF) as u8),
        address.wrapping_add(1),
        ((value >> 8) & 0xFF) as u8,
    )
}

/// The contents after the 32-bit little-endian write at `address`.
pub open spec fn spec_ram_store32(s: Seq<u8>, address: u32, value: u32) -> Seq<u8> {
    spec_ram_store8(
        spec_ram_store8(
            spec_ram_store8(
                spec_ram_store8(s, address, (value & 0xFF) as u8),
                address.wrapping_add(1),
                ((value >> 8) & 0xFF) as u8,
            ),
            address.wrapping_add(2),
            ((value >> 16) & 0xFF) as u8,
        ),
        address.wrapping_add(3),
        ((value >> 24) & 0xFF) as u8,
    )
}

/// The RAM device. Its view is the sequence of its bytes.
pub struct Ram {
    data: Vec<u8>,
}

impl View for Ram {
    type V = Seq<u8>;

    closed spec fn view(&self) -> Seq<u8> {
        self.data@
    }
}

/// A vector of `len` copies of `value`.
fn byte_fill(len: usize, value: u8) -> (r: Vec<u8>)
    ensures
        r@.len() == len,
        forall|i: int| 0 <= i < len ==> r@[i] == value,
{
    let mut v: Vec<u8> = Vec::new();
    let mut i: usize = 0;
    while i < len
        invariant
            i <= len,
            v@.len() == i,
            forall|j: int| 0 <= j < i ==> v@[j] == value,
        decreases len - i,
    {
        v.push(value);
        i = i + 1;
    }
    v
}

impl Ram {
    /// Whether the device holds exactly its architected number of bytes.
    pub open spec fn wf(&self) -> bool {
        self@.len() == RAM_SIZE
    }

    /// A fresh device. Every byte starts at a deliberately non-zero
    /// pattern, so that reads of never-written memory surface
    /// use-before-init bugs instead of looking like cleared storage.
    pub fn new() -> (r: Ram)
        ensures
            r.wf(),
            forall|i: int| 0 <= i < RAM_SIZE ==> r@[i] == 0xCF,
    {
        Ram { data: byte_fill(RAM_SIZE as usize, 0xCF) }
    }

    /// Reads one byte.
    pub fn load8(&self, address: u32) -> (r: u8)
        requires
            self.wf(),
        ensures
            r == spec_ram_byte(self@, address),
    {
        let index = address & 0x1FFFFF;
        proof {
            assert(index < 0x200000) by (bit_vector)
                requires
                    index == address & 0x1FFFFF,
            ;
        }
        self.data[index as usize]
    }

    /// Reads a 16-bit value, composed little-endian from two byte reads.
    pub fn load16(&self, address: u32) -> (r: u16)
        requires
            self.wf(),
        ensures
            r == spec_ram_load16(self@, address),
    {
        let b0 = self.load8(address) as u16;
        let b1 = self.load8(address.wrapping_add(1)) as u16;
        (b1 << 8) | b0
    }

    /// Reads a 32-bit value, composed little-endian from four byte reads.
    pub fn load32(&self, address: u32) -> (r: u32)
        requires
            self.wf(),
        ensures
            r == spec_ram_load32(self@, address),
    {
        let b0 = self.load8(address) as u32;
        let b1 = self.load8(address.wrapping_add(1)) as u32;
        let b2 = self.load8(address.wrapping_add(2)) as u32;
        let b3 = self.load8(address.wrapping_add(3)) as u32;
        (b3 << 24) | (b2 << 16) | (b1 << 8) | b0
    }

    /// Writes one byte.
    pub fn store8(&mut self, address: u32, value: u8)
        requires
            old(self).wf(),
        ensures
            final(self).wf(),
            final(self)@ == spec_ram_store8(old(self)@, address, value),
    {
        let index = address & 0x1FFFFF;
        proof {
            assert(index < 0x200000) by (bit_vector)
                requires
                    index == address & 0x1FFFFF,
            ;
        }
        self.data[index as usize] = value;
    }

    /// Writes a 16-bit value as two little-endian byte writes.
    pub fn store16(&mut self, address: u32, value: u16)
        requires
            old(self).wf(),
        ensures
            final(self).wf(),
            final(self)@ == spec_ram_store16(old(self)@, address, value),
    {
        self.store8(address, (value & 0xFF) as u8);
        self.store8(address.wrapping_add(1), ((value >> 8) & 0xFF) as u8);
    }

    /// Writes a 32-bit value as four little-endian byte writes.
    pub fn store32(&mut self, address: u32, value: u32)
        requires
            old(self).wf(),
        ensures
            final(self).wf(),
            final(self)@ == spec_ram_store32(old(self)@, address, value),
    {
        self.store8(address, (value & 0xFF) as u8);
        self.store8(address.wrapping_add(1), ((value >> 8) & 0xFF) as u8);
        self.store8(address.wrapping_add(2), ((value >> 16) & 0xFF) as u8);
        self.store8(address.wrapping_add(3), ((value >> 24) & 0xFF) as u8);
    }
}

} // verus!
