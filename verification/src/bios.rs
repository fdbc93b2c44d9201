//! Boot ROM device: a fixed 512 KiB little-endian byte blob, read in full
//! before the first step and addressable for 8/16/32-bit loads only.

use vstd::prelude::*;
use crate::ram::{spec_word16, spec_word32};

verus! {

/// Number of bytes of the boot image.
pub const BIOS_SIZE: u32 = 512 * 1024;

/// The byte of the image `s` addressed by `address`, after the wrap modulo
/// the device size; wide reads near the end of the image wrap the same way
/// RAM reads do.
pub open spec fn spec_bios_byte(s: Seq<u8>, address: u32) -> u8
    recommends
        s.len() == BIOS_SIZE,
{
    s[(address & 0x7FFFF) as int]
}

/// The 16-bit little-endian read at `address`.
pub open spec fn spec_bios_load16(s: Seq<u8>, address: u32) -> u16 {
    spec_word16(spec_bios_byte(s, address), spec_bios_byte(s, address.wrapping_add(1)))
}

/// The 32-bit little-endian read at `address`.
pub open spec fn spec_bios_load32(s: Seq<u8>, address: u32) -> u32 {
    spec_word32(
        spec_bios_byte(s, address),
        spec_bios_byte(s, address.wrapping_add(1)),
        spec_bios_byte(s, address.wrapping_add(2)),
        spec_bios_byte(s, address.wrapping_add(3)),
    )
}

/// The read-only boot ROM. Its view is the sequence of its bytes.
pub struct Bios {
    data: Vec<u8>,
}

impl View for Bios {
    type V = Seq<u8>;

    closed spec fn view(&self) -> Seq<u8> {
        self.data@
    }
}

impl Bios {
    /// Whether the device holds exactly one full boot image.
    pub open spec fn wf(&self) -> bool {
        self@.len() == BIOS_SIZE
    }

    /// Wraps a boot image. A short or oversized blob is rejected, which is
    /// the one genuinely fatal condition of the core: construction fails and
    /// nothing runs.
    pub fn new(data: Vec<u8>) -> (r: Option<Bios>)
        ensures
            data@.len() == BIOS_SIZE <==> r is Some,
            r is Some ==> r.unwrap().wf() && r.unwrap()@ == data@,
    {
        if data.len() == BIOS_SIZE as usize {
            Some(Bios { data })
        } else {
            None
        }
    }

    /// Reads one byte.
    pub fn load8(&self, address: u32) -> (r: u8)
        requires
            self.wf(),
        ensures
            r == spec_bios_byte(self@, address),
    {
        let index = address & 0x7FFFF;
        proof {
            assert(index < 0x80000) by (bit_vector)
                requires
                    index == address & 0x7FFFF,
            ;
        }
        self.data[index as usize]
    }

    /// Reads a 16-bit value, composed little-endian from two byte reads.
    pub fn load16(&self, address: u32) -> (r: u16)
        requires
            self.wf(),
        ensures
            r == spec_bios_load16(self@, address),
    {
        let b0 = self.load8(address) as u16;
        let b1 = self.load8(address.wrapping_add(1)) as u16;
        (b1 << 8) | b0
    }

    /// Reads a 32-bit value, composed little-endian from four byte reads.
    pub fn load32(&self, address: u32) -> (r: u32)
        requires
            self.wf(),
        ensures
            r == spec_bios_load32(self@, address),
    {
        let b0 = self.load8(address) as u32;
        let b1 = self.load8(address.wrapping_add(1)) as u32;
        let b2 = self.load8(address.wrapping_add(2)) as u32;
        let b3 = self.load8(address.wrapping_add(3)) as u32;
        (b3 << 24) | (b2 << 16) | (b1 << 8) | b0
    }
}

} // verus!
