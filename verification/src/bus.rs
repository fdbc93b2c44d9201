//! Memory-mapped bus: translates virtual addresses through the fixed
//! per-segment mask table, then routes each access to the first matching
//! device range.
//!
//! An unmapped load is a hard fault reported as [`Exception::AddressLoadError`];
//! an unmapped store is tolerated: the value is discarded and the event is
//! reported to the caller through the returned [`StoreOutcome`], the bus's
//! non-fatal diagnostic channel.

use vstd::prelude::*;
use crate::bios::{Bios, BIOS_SIZE, spec_bios_byte, spec_bios_load16, spec_bios_load32};
use crate::cop0::Exception;
use crate::ram::{
    Ram,
    RAM_SIZE,
    spec_ram_byte,
    spec_ram_load16,
    spec_ram_load32,
    spec_ram_store16,
    spec_ram_store32,
    spec_ram_store8,
    spec_word16,
    spec_word32,
};

verus! {

/// First physical address of the boot ROM range.
pub const BIOS_START: u32 = 0x1FC00000;

/// Physical address of the cache-control register. Its segment is unmasked
/// by the translation table, so the register's virtual address survives
/// translation unchanged and the range can be matched on the physical side.
pub const CACHE_CONTROL_START: u32 = 0xFFFE0130;

/// The virtual-to-physical translation: the top 3 address bits select one
/// of 8 region masks (four unmasked user regions, one region masked to 31
/// bits, one masked to 29 bits, two unmasked regions), and the address is
/// ANDed with the selected mask. Total over every 32-bit address, and a
/// function of the address alone.
pub open spec fn spec_translate(address: u32) -> u32 {
    let segment = address >> 29;
    if segment == 4 {
        address & 0x7FFFFFFF
    } else if segment == 5 {
        address & 0x1FFFFFFF
    } else {
        address
    }
}

/// Maps a virtual address to a physical address. No failure mode: every
/// 32-bit address maps to exactly one physical address.
pub fn translate(address: u32) -> (r: u32)
    ensures
        r == spec_translate(address),
{
    let segment = address >> 29;
    if segment == 4 {
        address & 0x7FFFFFFF
    } else if segment == 5 {
        address & 0x1FFFFFFF
    } else {
        address
    }
}

/// Addresses in the masked kernel segments resolve to the same physical
/// offset as the corresponding user-segment address with the same low bits:
/// the segment masked to 31 bits and the segment masked to 29 bits are both
/// windows onto the low physical range, and the user segment passes that
/// range through unmasked. Totality and determinism of the translation need
/// no separate statement: `spec_translate` is a total function of the
/// address alone, and `translate` accepts every address.
pub proof fn lemma_translate_aliases(offset: u32)
    requires
        offset < 0x20000000,
    ensures
        spec_translate(offset) == offset,
        spec_translate(0x80000000u32 | offset) == offset,
        spec_translate(0xA0000000u32 | offset) == offset,
{
    assert((offset >> 29) == 0 || (offset >> 29) == 1 ==> spec_translate(offset) == offset);
    assert(offset < 0x20000000 ==> offset >> 29 == 0) by (bit_vector);
    assert(offset < 0x20000000 ==> ((0x80000000u32 | offset) >> 29 == 4 && (0x80000000u32
        | offset) & 0x7FFFFFFF == offset)) by (bit_vector);
    assert(offset < 0x20000000 ==> ((0xA0000000u32 | offset) >> 29 == 5 && (0xA0000000u32
        | offset) & 0x1FFFFFFF == offset)) by (bit_vector);
}

/// A device range of the physical memory map: a first address and a length.
#[derive(Clone, Copy, Debug, PartialEq, Eq, Structural)]
pub struct Range(pub u32, pub u32);

impl Range {
    /// The offset of `address` into the range, when the address falls
    /// inside it.
    pub open spec fn spec_contains(self, address: u32) -> Option<u32> {
        if self.0 <= address && address - self.0 < self.1 {
            Some((address - self.0) as u32)
        } else {
            None
        }
    }

    /// Tests whether `address` falls in the range, and on a hit yields the
    /// offset from the range's first address.
    pub fn contains(self, address: u32) -> (r: Option<u32>)
        ensures
            r == self.spec_contains(address),
    {
        let Range(start, size) = self;
        if address >= start && address - start < size {
            Some(address - start)
        } else {
            None
        }
    }
}

/// Whether a physical address falls in one of the stub device ranges:
/// expansion slots, memory control, RAM size, and sound-processor
/// registers. A stub returns the open-bus value (an all-ones byte) on load
/// and silently accepts and discards stores.
pub open spec fn spec_in_stub(p: u32) -> bool {
    ||| (0x1F000000 <= p && p < 0x1F080000)
    ||| (0x1F801000 <= p && p < 0x1F801024)
    ||| (0x1F801060 <= p && p < 0x1F801064)
    ||| (0x1F801C00 <= p && p < 0x1F801E80)
    ||| (0x1F802000 <= p && p < 0x1F802042)
}

/// Whether a physical address falls in the boot ROM range.
pub open spec fn spec_in_bios(p: u32) -> bool {
    BIOS_START <= p && p < BIOS_START + BIOS_SIZE
}

/// Whether a physical address falls in the cache-control register's range.
pub open spec fn spec_in_cache_control(p: u32) -> bool {
    CACHE_CONTROL_START <= p && p < CACHE_CONTROL_START + 4
}

/// Whether a physical address belongs to any mapped device.
pub open spec fn spec_mapped(p: u32) -> bool {
    ||| p < RAM_SIZE
    ||| spec_in_stub(p)
    ||| spec_in_bios(p)
    ||| spec_in_cache_control(p)
}

/// Byte `offset` (little-endian, wrapping modulo the register's 4 bytes) of
/// the cache-control register.
pub open spec fn spec_cc_byte(reg: u32, offset: u32) -> u8 {
    ((reg >> (8 * (offset % 4))) & 0xFF) as u8
}

/// The cache-control register with byte `offset` replaced.
pub open spec fn spec_cc_store8(reg: u32, offset: u32, value: u8) -> u32 {
    (reg & !(0xFFu32 << (8 * (offset % 4)))) | ((value as u32) << (8 * (offset % 4)))
}

/// The cache-control register, a single 32-bit word living outside the
/// general device table.
#[derive(Clone, Copy, Debug, PartialEq, Eq, Structural)]
pub struct CacheControl(pub u32);

impl CacheControl {
    /// Whether the instruction cache is enabled.
    pub fn icache_enabled(&self) -> (r: bool)
        ensures
            r == (self.0 & 0x800 != 0),
    {
        self.0 & 0x800 != 0
    }

    /// Whether the cache is in tag-test mode.
    pub fn tag_test_mode(&self) -> (r: bool)
        ensures
            r == (self.0 & 0x4 != 0),
    {
        self.0 & 0x4 != 0
    }

    /// Reads byte `offset` of the register.
    pub fn load8(&self, offset: u32) -> (r: u8)
        ensures
            r == spec_cc_byte(self.0, offset),
    {
        ((self.0 >> (8 * (offset % 4))) & 0xFF) as u8
    }

    /// Reads two bytes little-endian, wrapping inside the register.
    pub fn load16(&self, offset: u32) -> (r: u16)
        ensures
            r == spec_word16(spec_cc_byte(self.0, offset), spec_cc_byte(self.0, offset.wrapping_add(1))),
    {
        let b0 = self.load8(offset) as u16;
        let b1 = self.load8(offset.wrapping_add(1)) as u16;
        (b1 << 8) | b0
    }

    /// Reads four bytes little-endian, wrapping inside the register.
    pub fn load32(&self, offset: u32) -> (r: u32)
        ensures
            r == spec_word32(
                spec_cc_byte(self.0, offset),
                spec_cc_byte(self.0, offset.wrapping_add(1)),
                spec_cc_byte(self.0, offset.wrapping_add(2)),
                spec_cc_byte(self.0, offset.wrapping_add(3)),
            ),
    {
        let b0 = self.load8(offset) as u32;
        let b1 = self.load8(offset.wrapping_add(1)) as u32;
        let b2 = self.load8(offset.wrapping_add(2)) as u32;
        let b3 = self.load8(offset.wrapping_add(3)) as u32;
        (b3 << 24) | (b2 << 16) | (b1 << 8) | b0
    }

    /// Replaces byte `offset` of the register.
    pub fn store8(&mut self, offset: u32, value: u8)
        ensures
            final(self).0 == spec_cc_store8(old(self).0, offset, value),
    {
        self.0 = (self.0 & !(0xFFu32 << (8 * (offset % 4)))) | ((value as u32) << (8 * (offset
            % 4)));
    }

    /// Writes two bytes little-endian, wrapping inside the register.
    pub fn store16(&mut self, offset: u32, value: u16)
        ensures
            final(self).0 == spec_cc_store8(
                spec_cc_store8(old(self).0, offset, (value & 0xFF) as u8),
                offset.wrapping_add(1),
                ((value >> 8) & 0xFF) as u8,
            ),
    {
        self.store8(offset, (value & 0xFF) as u8);
        self.store8(offset.wrapping_add(1), ((value >> 8) & 0xFF) as u8);
    }

    /// Writes four bytes little-endian, wrapping inside the register.
    pub fn store32(&mut self, offset: u32, value: u32)
        ensures
            final(self).0 == spec_cc_store8(
                spec_cc_store8(
                    spec_cc_store8(
                        spec_cc_store8(old(self).0, offset, (value & 0xFF) as u8),
                        offset.wrapping_add(1),
                        ((value >> 8) & 0xFF) as u8,
                    ),
                    offset.wrapping_add(2),
                    ((value >> 16) & 0xFF) as u8,
                ),
                offset.wrapping_add(3),
                ((value >> 24) & 0xFF) as u8,
            ),
    {
        self.store8(offset, (value & 0xFF) as u8);
        self.store8(offset.wrapping_add(1), ((value >> 8) & 0xFF) as u8);
        self.store8(offset.wrapping_add(2), ((value >> 16) & 0xFF) as u8);
        self.store8(offset.wrapping_add(3), ((value >> 24) & 0xFF) as u8);
    }
}

/// What became of a store: either a device took the value, or the bus
/// discarded it, and says why. This returned value is the non-fatal
/// diagnostic channel for stores the map does not model; the host may log
/// it and keep stepping.
#[derive(Clone, Copy, Debug, PartialEq, Eq, Structural)]
pub enum StoreOutcome {
    /// A mapped writable device took the value.
    Stored,
    /// A stub device range accepted and discarded the value.
    IgnoredStub,
    /// The store aimed at the read-only boot ROM and was rejected without
    /// corrupting the image.
    IgnoredReadOnly,
    /// No device range matched; the value was discarded.
    IgnoredUnmapped,
}

/// The ghost image of the bus: the bytes of both memory devices and the
/// cache-control word.
#[verifier::ext_equal]
pub ghost struct BusView {
    pub bios: Seq<u8>,
    pub ram: Seq<u8>,
    pub cache_control: u32,
}

impl BusView {
    /// Both memory devices hold exactly their architected number of bytes.
    pub open spec fn wf(self) -> bool {
        self.ram.len() == RAM_SIZE && self.bios.len() == BIOS_SIZE
    }
}

/// The 8-bit load at virtual `address`: translated, then routed.
pub open spec fn spec_bus_load8(b: BusView, address: u32) -> Result<u8, Exception> {
    let p = spec_translate(address);
    if p < RAM_SIZE {
        Ok(spec_ram_byte(b.ram, p))
    } else if spec_in_stub(p) {
        Ok(0xFF)
    } else if spec_in_bios(p) {
        Ok(spec_bios_byte(b.bios, (p - BIOS_START) as u32))
    } else if spec_in_cache_control(p) {
        Ok(spec_cc_byte(b.cache_control, (p - CACHE_CONTROL_START) as u32))
    } else {
        Err(Exception::AddressLoadError)
    }
}

/// The 16-bit load at virtual `address`: translated, routed by its first
/// byte, composed little-endian inside the matched device.
pub open spec fn spec_bus_load16(b: BusView, address: u32) -> Result<u16, Exception> {
    let p = spec_translate(address);
    if p < RAM_SIZE {
        Ok(spec_ram_load16(b.ram, p))
    } else if spec_in_stub(p) {
        Ok(0xFFFF)
    } else if spec_in_bios(p) {
        Ok(spec_bios_load16(b.bios, (p - BIOS_START) as u32))
    } else if spec_in_cache_control(p) {
        let o = (p - CACHE_CONTROL_START) as u32;
        Ok(spec_word16(spec_cc_byte(b.cache_control, o), spec_cc_byte(b.cache_control, o.wrapping_add(1))))
    } else {
        Err(Exception::AddressLoadError)
    }
}

/// The 32-bit load at virtual `address`: translated, routed by its first
/// byte, composed little-endian inside the matched device.
pub open spec fn spec_bus_load32(b: BusView, address: u32) -> Result<u32, Exception> {
    let p = spec_translate(address);
    if p < RAM_SIZE {
        Ok(spec_ram_load32(b.ram, p))
    } else if spec_in_stub(p) {
        Ok(0xFFFFFFFF)
    } else if spec_in_bios(p) {
        Ok(spec_bios_load32(b.bios, (p - BIOS_START) as u32))
    } else if spec_in_cache_control(p) {
        let o = (p - CACHE_CONTROL_START) as u32;
        Ok(
            spec_word32(
                spec_cc_byte(b.cache_control, o),
                spec_cc_byte(b.cache_control, o.wrapping_add(1)),
                spec_cc_byte(b.cache_control, o.wrapping_add(2)),
                spec_cc_byte(b.cache_control, o.wrapping_add(3)),
            ),
        )
    } else {
        Err(Exception::AddressLoadError)
    }
}

/// The state and outcome of the 8-bit store at virtual `address`.
pub open spec fn spec_bus_store8(b: BusView, address: u32, value: u8) -> (BusView, StoreOutcome) {
    let p = spec_translate(address);
    if p < RAM_SIZE {
        (BusView { ram: spec_ram_store8(b.ram, p, value), ..b }, StoreOutcome::Stored)
    } else if spec_in_stub(p) {
        (b, StoreOutcome::IgnoredStub)
    } else if spec_in_bios(p) {
        (b, StoreOutcome::IgnoredReadOnly)
    } else if spec_in_cache_control(p) {
        let o = (p - CACHE_CONTROL_START) as u32;
        (
            BusView { cache_control: spec_cc_store8(b.cache_control, o, value), ..b },
            StoreOutcome::Stored,
        )
    } else {
        (b, StoreOutcome::IgnoredUnmapped)
    }
}

/// The state and outcome of the 16-bit store at virtual `address`.
pub open spec fn spec_bus_store16(b: BusView, address: u32, value: u16) -> (BusView, StoreOutcome) {
    let p = spec_translate(address);
    if p < RAM_SIZE {
        (BusView { ram: spec_ram_store16(b.ram, p, value), ..b }, StoreOutcome::Stored)
    } else if spec_in_stub(p) {
        (b, StoreOutcome::IgnoredStub)
    } else if spec_in_bios(p) {
        (b, StoreOutcome::IgnoredReadOnly)
    } else if spec_in_cache_control(p) {
        let o = (p - CACHE_CONTROL_START) as u32;
        let cc = spec_cc_store8(
            spec_cc_store8(b.cache_control, o, (value & 0xFF) as u8),
            o.wrapping_add(1),
            ((value >> 8) & 0xFF) as u8,
        );
        (BusView { cache_control: cc, ..b }, StoreOutcome::Stored)
    } else {
        (b, StoreOutcome::IgnoredUnmapped)
    }
}

/// The state and outcome of the 32-bit store at virtual `address`.
pub open spec fn spec_bus_store32(b: BusView, address: u32, value: u32) -> (BusView, StoreOutcome) {
    let p = spec_translate(address);
    if p < RAM_SIZE {
        (BusView { ram: spec_ram_store32(b.ram, p, value), ..b }, StoreOutcome::Stored)
    } else if spec_in_stub(p) {
        (b, StoreOutcome::IgnoredStub)
    } else if spec_in_bios(p) {
        (b, StoreOutcome::IgnoredReadOnly)
    } else if spec_in_cache_control(p) {
        let o = (p - CACHE_CONTROL_START) as u32;
        let cc = spec_cc_store8(
            spec_cc_store8(
                spec_cc_store8(
                    spec_cc_store8(b.cache_control, o, (value & 0xFF) as u8),
                    o.wrapping_add(1),
                    ((value >> 8) & 0xFF) as u8,
                ),
                o.wrapping_add(2),
                ((value >> 16) & 0xFF) as u8,
            ),
            o.wrapping_add(3),
            ((value >> 24) & 0xFF) as u8,
        );
        (BusView { cache_control: cc, ..b }, StoreOutcome::Stored)
    } else {
        (b, StoreOutcome::IgnoredUnmapped)
    }
}

/// The bus: one boot ROM, one RAM, and the cache-control register, behind
/// the address decoder.
pub struct Bus {
    bios: Bios,
    ram: Ram,
    cache_control: CacheControl,
}

impl View for Bus {
    type V = BusView;

    closed spec fn view(&self) -> BusView {
        BusView { bios: self.bios@, ram: self.ram@, cache_control: self.cache_control.0 }
    }
}

impl Bus {
    /// Whether both memory devices hold their architected number of bytes.
    pub open spec fn wf(&self) -> bool {
        self@.wf()
    }

    /// Assembles the bus around a boot ROM, with fresh RAM and the
    /// cache-control register cleared.
    pub fn new(bios: Bios) -> (r: Bus)
        requires
            bios.wf(),
        ensures
            r.wf(),
            r@.bios == bios@,
            r@.cache_control == 0,
            forall|i: int| 0 <= i < RAM_SIZE ==> r@.ram[i] == 0xCF,
    {
        Bus { bios, ram: Ram::new(), cache_control: CacheControl(0) }
    }

    /// Whether the translated address falls in a stub device range.
    fn in_stub(&self, p: u32) -> (r: bool)
        ensures
            r == spec_in_stub(p),
    {
        (p >= 0x1F000000 && p < 0x1F080000) || (p >= 0x1F801000 && p < 0x1F801024) || (p
            >= 0x1F801060 && p < 0x1F801064) || (p >= 0x1F801C00 && p < 0x1F801E80) || (p
            >= 0x1F802000 && p < 0x1F802042)
    }

    /// Loads one byte from the device mapped at `address`; an unmapped load
    /// is a hard fault.
    pub fn load8(&self, address: u32) -> (r: Result<u8, Exception>)
        requires
            self.wf(),
        ensures
            r == spec_bus_load8(self@, address),
    {
        let p = translate(address);
        if p < RAM_SIZE {
            Ok(self.ram.load8(p))
        } else if self.in_stub(p) {
            Ok(0xFF)
        } else if p >= BIOS_START && p < BIOS_START + BIOS_SIZE {
            Ok(self.bios.load8(p - BIOS_START))
        } else if p >= CACHE_CONTROL_START && p < CACHE_CONTROL_START + 4 {
            Ok(self.cache_control.load8(p - CACHE_CONTROL_START))
        } else {
            Err(Exception::AddressLoadError)
        }
    }

    /// Loads a 16-bit value from the device mapped at `address`; an
    /// unmapped load is a hard fault.
    pub fn load16(&self, address: u32) -> (r: Result<u16, Exception>)
        requires
            self.wf(),
        ensures
            r == spec_bus_load16(self@, address),
    {
        let p = translate(address);
        if p < RAM_SIZE {
            Ok(self.ram.load16(p))
        } else if self.in_stub(p) {
            Ok(0xFFFF)
        } else if p >= BIOS_START && p < BIOS_START + BIOS_SIZE {
            Ok(self.bios.load16(p - BIOS_START))
        } else if p >= CACHE_CONTROL_START && p < CACHE_CONTROL_START + 4 {
            let o = p - CACHE_CONTROL_START;
            let r = self.cache_control.load16(o);
            proof {
                assert(o < 4 ==> o.wrapping_add(1) == o + 1) by (bit_vector);
            }
            Ok(r)
        } else {
            Err(Exception::AddressLoadError)
        }
    }

    /// Loads a 32-bit value from the device mapped at `address`; an
    /// unmapped load is a hard fault.
    pub fn load32(&self, address: u32) -> (r: Result<u32, Exception>)
        requires
            self.wf(),
        ensures
            r == spec_bus_load32(self@, address),
    {
        let p = translate(address);
        if p < RAM_SIZE {
            Ok(self.ram.load32(p))
        } else if self.in_stub(p) {
            Ok(0xFFFFFFFF)
        } else if p >= BIOS_START && p < BIOS_START + BIOS_SIZE {
            Ok(self.bios.load32(p - BIOS_START))
        } else if p >= CACHE_CONTROL_START && p < CACHE_CONTROL_START + 4 {
            let o = p - CACHE_CONTROL_START;
            let r = self.cache_control.load32(o);
            proof {
                assert(o < 4 ==> o.wrapping_add(1) == o + 1 && o.wrapping_add(2) == o + 2
                    && o.wrapping_add(3) == o + 3) by (bit_vector);
            }
            Ok(r)
        } else {
            Err(Exception::AddressLoadError)
        }
    }

    /// Stores one byte to the device mapped at `address`. Unmapped and
    /// read-only targets discard the value; the outcome says which device,
    /// if any, took it.
    pub fn store8(&mut self, address: u32, value: u8) -> (r: StoreOutcome)
        requires
            old(self).wf(),
        ensures
            final(self).wf(),
            (final(self)@, r) == spec_bus_store8(old(self)@, address, value),
    {
        let p = translate(address);
        if p < RAM_SIZE {
            self.ram.store8(p, value);
            StoreOutcome::Stored
        } else if self.in_stub(p) {
            StoreOutcome::IgnoredStub
        } else if p >= BIOS_START && p < BIOS_START + BIOS_SIZE {
            StoreOutcome::IgnoredReadOnly
        } else if p >= CACHE_CONTROL_START && p < CACHE_CONTROL_START + 4 {
            self.cache_control.store8(p - CACHE_CONTROL_START, value);
            StoreOutcome::Stored
        } else {
            StoreOutcome::IgnoredUnmapped
        }
    }

    /// Stores a 16-bit value to the device mapped at `address`. Unmapped
    /// and read-only targets discard the value.
    pub fn store16(&mut self, address: u32, value: u16) -> (r: StoreOutcome)
        requires
            old(self).wf(),
        ensures
            final(self).wf(),
            (final(self)@, r) == spec_bus_store16(old(self)@, address, value),
    {
        let p = translate(address);
        if p < RAM_SIZE {
            self.ram.store16(p, value);
            StoreOutcome::Stored
        } else if self.in_stub(p) {
            StoreOutcome::IgnoredStub
        } else if p >= BIOS_START && p < BIOS_START + BIOS_SIZE {
            StoreOutcome::IgnoredReadOnly
        } else if p >= CACHE_CONTROL_START && p < CACHE_CONTROL_START + 4 {
            self.cache_control.store16(p - CACHE_CONTROL_START, value);
            StoreOutcome::Stored
        } else {
            StoreOutcome::IgnoredUnmapped
        }
    }

    /// Stores a 32-bit value to the device mapped at `address`. Unmapped
    /// and read-only targets discard the value.
    pub fn store32(&mut self, address: u32, value: u32) -> (r: StoreOutcome)
        requires
            old(self).wf(),
        ensures
            final(self).wf(),
            (final(self)@, r) == spec_bus_store32(old(self)@, address, value),
    {
        let p = translate(address);
        if p < RAM_SIZE {
            self.ram.store32(p, value);
            StoreOutcome::Stored
        } else if self.in_stub(p) {
            StoreOutcome::IgnoredStub
        } else if p >= BIOS_START && p < BIOS_START + BIOS_SIZE {
            StoreOutcome::IgnoredReadOnly
        } else if p >= CACHE_CONTROL_START && p < CACHE_CONTROL_START + 4 {
            self.cache_control.store32(p - CACHE_CONTROL_START, value);
            StoreOutcome::Stored
        } else {
            StoreOutcome::IgnoredUnmapped
        }
    }
}

} // verus!

verus! {

/// Storing to an address inside the RAM range and then loading the same
/// address with the same width returns the stored byte unchanged.
pub proof fn lemma_ram_store_load_round_trip8(b: BusView, address: u32, value: u8)
    requires
        b.wf(),
        spec_translate(address) < RAM_SIZE,
    ensures
        spec_bus_load8(spec_bus_store8(b, address, value).0, address) == Ok::<u8, Exception>(value),
{
    let p = spec_translate(address);
    assert(p < 0x200000 ==> p & 0x1FFFFF == p) by (bit_vector);
}

/// Storing to an address inside the RAM range and then loading the same
/// address with the same width returns the stored 16-bit value unchanged.
pub proof fn lemma_ram_store_load_round_trip16(b: BusView, address: u32, value: u16)
    requires
        b.wf(),
        spec_translate(address) < RAM_SIZE,
    ensures
        spec_bus_load16(spec_bus_store16(b, address, value).0, address) == Ok::<
            u16,
            Exception,
        >(value),
{
    let p = spec_translate(address);
    let a1 = p.wrapping_add(1);
    assert(a1 == p + 1);
    assert(p & 0x1FFFFF == p && a1 & 0x1FFFFF < 0x200000 && a1 & 0x1FFFFF != p) by (bit_vector)
        requires
            p < 0x200000u32,
            a1 == p + 1,
    ;
    assert(spec_word16((value & 0xFF) as u8, ((value >> 8) & 0xFF) as u8) == value)
        by (bit_vector);
}

/// Storing to an address inside the RAM range and then loading the same
/// address with the same width returns the stored 32-bit value unchanged.
pub proof fn lemma_ram_store_load_round_trip32(b: BusView, address: u32, value: u32)
    requires
        b.wf(),
        spec_translate(address) < RAM_SIZE,
    ensures
        spec_bus_load32(spec_bus_store32(b, address, value).0, address) == Ok::<
            u32,
            Exception,
        >(value),
{
    let p = spec_translate(address);
    let a1 = p.wrapping_add(1);
    let a2 = p.wrapping_add(2);
    let a3 = p.wrapping_add(3);
    assert(a1 == p + 1 && a2 == p + 2 && a3 == p + 3);
    assert(p & 0x1FFFFF == p && a1 & 0x1FFFFF < 0x200000 && a2 & 0x1FFFFF < 0x200000 && a3
        & 0x1FFFFF < 0x200000 && a1 & 0x1FFFFF != p && a2 & 0x1FFFFF != p && a3 & 0x1FFFFF != p
        && a1 & 0x1FFFFF != a2 & 0x1FFFFF && a1 & 0x1FFFFF != a3 & 0x1FFFFF && a2 & 0x1FFFFF != a3
        & 0x1FFFFF) by (bit_vector)
        requires
            p < 0x200000u32,
            a1 == p + 1,
            a2 == p + 2,
            a3 == p + 3,
    ;
    assert(spec_word32(
        (value & 0xFF) as u8,
        ((value >> 8) & 0xFF) as u8,
        ((value >> 16) & 0xFF) as u8,
        ((value >> 24) & 0xFF) as u8,
    ) == value) by (bit_vector);
}

/// A store to an address outside every device range does not alter any
/// mapped device's contents; the value is discarded and the event is
/// reported through the outcome, so stepping can continue.
pub proof fn lemma_unmapped_store_is_harmless(b: BusView, address: u32, value: u32)
    requires
        !spec_mapped(spec_translate(address)),
    ensures
        spec_bus_store32(b, address, value).0 == b,
        spec_bus_store32(b, address, value).1 == StoreOutcome::IgnoredUnmapped,
        spec_bus_store16(b, address, (value & 0xFFFF) as u16).0 == b,
        spec_bus_store16(b, address, (value & 0xFFFF) as u16).1 == StoreOutcome::IgnoredUnmapped,
        spec_bus_store8(b, address, (value & 0xFF) as u8).0 == b,
        spec_bus_store8(b, address, (value & 0xFF) as u8).1 == StoreOutcome::IgnoredUnmapped,
{
}

/// A load from an address outside every device range is a hard fault: it
/// yields the address-error condition, never an arbitrary value.
pub proof fn lemma_unmapped_load_faults(b: BusView, address: u32)
    requires
        !spec_mapped(spec_translate(address)),
    ensures
        spec_bus_load8(b, address) == Err::<u8, Exception>(Exception::AddressLoadError),
        spec_bus_load16(b, address) == Err::<u16, Exception>(Exception::AddressLoadError),
        spec_bus_load32(b, address) == Err::<u32, Exception>(Exception::AddressLoadError),
{
}

} // verus!
