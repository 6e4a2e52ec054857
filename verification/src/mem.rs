//! The CPU bus: a 16-bit address decoder routing reads and writes to the
//! 2 KiB internal RAM (mirrored every $0800), the PPU registers (mirrored
//! every 8 bytes), the APU and input registers, OAM DMA, and the
//! cartridge mapper.

use vstd::prelude::*;

use crate::apu::Apu;
use crate::input::Input;
use crate::mapper::Mapper;
use crate::ppu::Ppu;

verus! {

/// The CPU-side memory map and everything behind it.
pub struct MemMap {
    /// 2 KiB of internal RAM.
    pub ram: Vec<u8>,
    pub ppu: Ppu,
    pub apu: Apu,
    pub input: Input,
    pub mapper: Mapper,
}

/// The RAM cell an address in $0000-$1FFF reaches.
pub open spec fn spec_ram_index(a: u16) -> int {
    a as int % 2048
}

impl MemMap {
    pub open spec fn wf(self) -> bool {
        &&& self.ram.len() == 2048
        &&& self.ppu.wf()
        &&& self.apu.wf()
        &&& self.input.wf()
        &&& self.mapper.wf()
    }

    /// Assembles a bus over freshly powered components.
    pub fn new(ppu: Ppu, apu: Apu, input: Input, mapper: Mapper) -> (r: MemMap)
        requires
            ppu.wf(),
            apu.wf(),
            input.wf(),
            mapper.wf(),
        ensures
            r.wf(),
            r.ram@ == Seq::<u8>::new(2048, |i: int| 0u8),
            r.ppu == ppu,
            r.apu == apu,
            r.input == input,
            r.mapper == mapper,
    {
        MemMap { ram: crate::rom::zero_vec(2048), ppu, apu, input, mapper }
    }

    /// Reads one byte from the bus.
    ///
    /// RAM reads return the mirrored cell and change nothing; no read
    /// changes RAM, and only reads of the PPU, APU or input registers
    /// touch the component behind them.
    pub fn loadb(&mut self, addr: u16) -> (r: u8)
        requires
            old(self).wf(),
        ensures
            final(self).wf(),
            addr < 0x2000 ==> r == old(self).ram@[spec_ram_index(addr)] && *final(self) == *old(
                self,
            ),
            final(self).ram == old(self).ram,
            final(self).mapper == old(self).mapper,
            addr >= 0x4020 ==> r == old(self).mapper.spec_prg_read(addr) && *final(self) == *old(
                self,
            ),
            final(self).ppu.screen == old(self).ppu.screen,
            final(self).ppu.scanline == old(self).ppu.scanline,
            final(self).ppu.dot == old(self).ppu.dot,
            final(self).ppu.status_sprite0 == old(self).ppu.status_sprite0,
            0x2000 <= addr < 0x4000 ==> final(self).apu == old(self).apu && final(self).input
                == old(self).input,
            0x2000 <= addr < 0x4000 && addr % 8 == 2 ==> {
                &&& r as int == (if old(self).ppu.status_vblank { 128int } else { 0int })
                    + (if old(self).ppu.status_sprite0 { 64int } else { 0int })
                    + (if old(self).ppu.status_overflow { 32int } else { 0int })
                &&& final(self).ppu == (crate::ppu::Ppu {
                    status_vblank: false,
                    w: false,
                    ..old(self).ppu
                })
            },
    {
        if addr < 0x2000 {
            self.ram[(addr % 0x800) as usize]
        } else if addr < 0x4000 {
            self.ppu.read_reg(&self.mapper, addr % 8)
        } else if addr == 0x4015 {
            self.apu.read_status()
        } else if addr == 0x4016 {
            self.input.read()
        } else if addr < 0x4020 {
            0
        } else {
            self.mapper.prg_read(addr)
        }
    }

    /// Writes one byte to the bus.
    ///
    /// A RAM write updates the mirrored cell and nothing else; writes
    /// outside RAM leave RAM untouched.  A write at $8000-$FFFF drives
    /// the mapper's register protocol; $6000-$7FFF writes cartridge RAM;
    /// $4014 performs the OAM DMA copy (its cycle stall is charged by
    /// the CPU).
    pub fn storeb(&mut self, addr: u16, v: u8)
        requires
            old(self).wf(),
        ensures
            final(self).wf(),
            addr < 0x2000 ==> final(self).ram@ == old(self).ram@.update(spec_ram_index(addr), v)
                && final(self).ppu == old(self).ppu && final(self).apu == old(self).apu
                && final(self).input == old(self).input
                && final(self).mapper == old(self).mapper,
            addr >= 0x2000 ==> final(self).ram == old(self).ram,
            addr >= 0x8000 ==> *final(self) == (MemMap {
                mapper: old(self).mapper.spec_reg_write(addr, v),
                ..*old(self)
            }),
            0x6000 <= addr < 0x8000 ==> final(self).mapper.rom.sram@ == old(
                self,
            ).mapper.rom.sram@.update(addr as int - 0x6000, v),
            addr == 0x4016 ==> final(self).input.strobe == (v % 2 == 1),
            0x2000 <= addr < 0x4000 ==> {
                &&& final(self).apu == old(self).apu
                &&& final(self).input == old(self).input
                &&& final(self).ppu.status_sprite0 == old(self).ppu.status_sprite0
                &&& (addr % 8 == 0 ==> final(self).ppu.ctrl == v)
                &&& (addr % 8 == 1 ==> final(self).ppu.mask == v)
            },
    {
        if addr < 0x2000 {
            self.ram.set((addr % 0x800) as usize, v);
        } else if addr < 0x4000 {
            self.ppu.write_reg(&mut self.mapper, addr % 8, v);
        } else if addr == 0x4014 {
            self.oam_dma(v);
        } else if addr == 0x4016 {
            self.input.write_strobe(v);
        } else if addr <= 0x4017 && addr >= 0x4000 {
            self.apu.write_reg(addr, v);
        } else if addr < 0x4020 {
            // $4018-$401F: test registers, ignored.
        } else {
            self.mapper.prg_write(addr, v);
        }
    }

    /// The OAM DMA copy triggered by a write to $4014: 256 bytes from
    /// `page << 8` into the PPU's OAM, starting at the current OAM
    /// address.  The CPU charges the 513/514 cycle stall.
    pub fn oam_dma(&mut self, page: u8)
        requires
            old(self).wf(),
        ensures
            final(self).wf(),
            final(self).ram == old(self).ram,
            final(self).mapper == old(self).mapper,
            page < 0x20 ==> {
                &&& final(self).ppu.spec_eq_but_oam(old(self).ppu)
                &&& final(self).ppu.oam_addr == old(self).ppu.oam_addr
                &&& final(self).apu == old(self).apu
                &&& final(self).input == old(self).input
                &&& forall|i: int|
                    0 <= i < 256 ==> #[trigger] final(self).ppu.oam@[(old(self).ppu.oam_addr + i)
                        % 256] == old(self).ram@[(page * 256 + i) % 2048]
            },
    {
        let base: u16 = (page as u16) * 256;
        let mut i: u16 = 0;
        while i < 256
            invariant
                self.wf(),
                self.ram == old(self).ram,
                self.mapper == old(self).mapper,
                base == page * 256,
                i <= 256,
                page < 0x20 ==> {
                    &&& self.ppu.oam_addr == old(self).ppu.oam_addr
                    &&& self.ppu.spec_eq_but_oam(old(self).ppu)
                    &&& self.apu == old(self).apu
                    &&& self.input == old(self).input
                    &&& forall|j: int|
                        0 <= j < i ==> #[trigger] self.ppu.oam@[(old(self).ppu.oam_addr + j) % 256]
                            == old(self).ram@[(page * 256 + j) % 2048]
                },
            decreases 256 - i,
        {
            let b: u8 = self.loadb(base + i);
            let dst: u8 = ((self.ppu.oam_addr as u16 + i) % 256) as u8;
            self.ppu.oam.set(dst as usize, b);
            i = i + 1;
        }
    }
}

/// The three mirrors of a RAM address reach the same cell: the decoder
/// only looks at the low 11 bits, so flipping bits 11 and 12 of any
/// address in $0000-$1FFF changes nothing.
pub proof fn lemma_ram_mirror(a: u16)
    requires
        a < 0x2000,
    ensures
        spec_ram_index(a ^ 0x0800) == spec_ram_index(a),
        spec_ram_index(a ^ 0x1000) == spec_ram_index(a),
        spec_ram_index(a ^ 0x1800) == spec_ram_index(a),
{
    assert((a ^ 0x0800) % 2048 == a % 2048) by (bit_vector);
    assert((a ^ 0x1000) % 2048 == a % 2048) by (bit_vector);
    assert((a ^ 0x1800) % 2048 == a % 2048) by (bit_vector);
}

/// A write to a RAM address is observed by the next read of the same
/// address or of any address reaching the same cell.
pub proof fn lemma_ram_read_after_write(ram: Seq<u8>, a: u16, b: u16, v: u8)
    requires
        ram.len() == 2048,
        a < 0x2000,
        b < 0x2000,
        spec_ram_index(a) == spec_ram_index(b),
    ensures
        ram.update(spec_ram_index(a), v)[spec_ram_index(b)] == v,
{
}

} // verus!
