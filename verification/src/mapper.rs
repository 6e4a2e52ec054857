//! Cartridge mappers: they adapt the fixed CPU and PPU buses onto the
//! variable PRG/CHR bank layout of the cartridge, expose the effective
//! nametable mirroring, and (for MMC3) count scanlines towards an IRQ.
//!
//! One struct carries the registers of every supported mapper; `kind`
//! selects which registers are live and how addresses are translated.
//! Every operation is specified by a spec function of the same shape, so
//! the contracts pin the whole state transition.

use vstd::prelude::*;

use crate::rom::Mirroring;
use crate::rom::Rom;
use crate::EmuError;

verus! {

/// Which mapper the cartridge carries.
#[derive(Clone, Copy, Debug, PartialEq, Eq, Structural)]
pub enum MapperKind {
    /// Mapper 0: no banking.
    Nrom,
    /// Mapper 1: serial shift-register protocol, 16/32 KiB PRG banking.
    Mmc1,
    /// Mapper 2: 16 KiB PRG banking, last bank fixed.
    Uxrom,
    /// Mapper 3: 8 KiB CHR banking.
    Cnrom,
    /// Mapper 4: 8 KiB PRG / 1-2 KiB CHR banking with a scanline IRQ counter.
    Mmc3,
    /// Mapper 7: 32 KiB PRG banking with single-screen mirroring.
    Axrom,
}

/// A cartridge mapper: the ROM it serves and its banking registers.
pub struct Mapper {
    pub kind: MapperKind,
    pub rom: Rom,
    /// MMC1 serial shift register (5 bits, low bit first).
    pub shift: u8,
    /// How many bits of `shift` are filled; always below 5.
    pub shift_count: u8,
    /// MMC1 control register: mirroring, PRG mode, CHR mode.
    pub control: u8,
    /// MMC1 CHR bank for the low window (also CNROM's CHR bank).
    pub chr_bank0: u8,
    /// MMC1 CHR bank for the high window.
    pub chr_bank1: u8,
    /// PRG bank register of MMC1, UxROM and AxROM.
    pub prg_bank: u8,
    /// MMC3 bank-select register: target register, PRG mode, CHR mode.
    pub bank_select: u8,
    /// MMC3 bank registers R0..R7.
    pub r0: u8,
    pub r1: u8,
    pub r2: u8,
    pub r3: u8,
    pub r4: u8,
    pub r5: u8,
    pub r6: u8,
    pub r7: u8,
    /// MMC3 mirroring select (0 vertical, 1 horizontal), AxROM screen select.
    pub mirror_bit: u8,
    pub irq_latch: u8,
    pub irq_counter: u8,
    pub irq_enable: bool,
    pub irq_reload: bool,
}

impl Mapper {
    /// The ROM is well-formed and the shift register holds no more bits
    /// than have been written into it.
    pub open spec fn wf(self) -> bool {
        &&& self.rom.wf()
        &&& self.shift_count < 5
        &&& self.shift < pow2_u8(self.shift_count)
    }

    /// Builds a mapper for the ROM; fails exactly on an unimplemented
    /// mapper number.
    ///
    /// MMC1 powers up with PRG mode 3 (low bank switched, last bank fixed).
    pub fn create(rom: Rom) -> (r: Result<Mapper, EmuError>)
        requires
            rom.wf(),
        ensures
            r is Ok <==> (rom.header.mapper == 0 || rom.header.mapper == 1 || rom.header.mapper
                == 2 || rom.header.mapper == 3 || rom.header.mapper == 4 || rom.header.mapper
                == 7),
            r matches Err(e) ==> e == EmuError::UnsupportedMapper(rom.header.mapper),
            r matches Ok(m) ==> {
                &&& m.wf()
                &&& m.rom == rom
                &&& m.kind == spec_kind_of(rom.header.mapper)
                &&& m.shift == 0 && m.shift_count == 0 && m.control == 12
                &&& m.chr_bank0 == 0 && m.chr_bank1 == 0 && m.prg_bank == 0
                &&& m.bank_select == 0
                &&& m.r0 == 0 && m.r1 == 0 && m.r2 == 0 && m.r3 == 0
                &&& m.r4 == 0 && m.r5 == 0 && m.r6 == 0 && m.r7 == 0
                &&& m.mirror_bit == 0 && m.irq_latch == 0 && m.irq_counter == 0
                &&& !m.irq_enable && !m.irq_reload
            },
    {
        let kind: MapperKind = match rom.header.mapper {
            0 => MapperKind::Nrom,
            1 => MapperKind::Mmc1,
            2 => MapperKind::Uxrom,
            3 => MapperKind::Cnrom,
            4 => MapperKind::Mmc3,
            7 => MapperKind::Axrom,
            _ => {
                return Err(EmuError::UnsupportedMapper(rom.header.mapper));
            },
        };
        Ok(
            Mapper {
                kind,
                rom,
                shift: 0,
                shift_count: 0,
                control: 12,
                chr_bank0: 0,
                chr_bank1: 0,
                prg_bank: 0,
                bank_select: 0,
                r0: 0,
                r1: 0,
                r2: 0,
                r3: 0,
                r4: 0,
                r5: 0,
                r6: 0,
                r7: 0,
                mirror_bit: 0,
                irq_latch: 0,
                irq_counter: 0,
                irq_enable: false,
                irq_reload: false,
            },
        )
    }

    /// The MMC3 bank register currently selected by `bank_select`.
    pub open spec fn spec_mmc3_reg(self) -> u8 {
        let t = self.bank_select as int % 8;
        if t == 0 {
            self.r0
        } else if t == 1 {
            self.r1
        } else if t == 2 {
            self.r2
        } else if t == 3 {
            self.r3
        } else if t == 4 {
            self.r4
        } else if t == 5 {
            self.r5
        } else if t == 6 {
            self.r6
        } else {
            self.r7
        }
    }

    /// Byte index into PRG storage for a CPU-bus read at `addr`.
    pub open spec fn spec_prg_index(self, addr: u16) -> int {
        let len = self.rom.prg.len() as int;
        let off = addr as int - 0x8000;
        match self.kind {
            MapperKind::Nrom => off % len,
            MapperKind::Mmc1 => {
                let mode = (self.control as int / 4) % 4;
                let bank = self.prg_bank as int % 16;
                if mode <= 1 {
                    ((bank / 2) * 32768 + off) % len
                } else if mode == 2 {
                    if addr < 0xC000 {
                        off % len
                    } else {
                        (bank * 16384 + (addr as int - 0xC000)) % len
                    }
                } else {
                    if addr < 0xC000 {
                        (bank * 16384 + off) % len
                    } else {
                        len - 16384 + (addr as int - 0xC000)
                    }
                }
            },
            MapperKind::Uxrom => {
                if addr < 0xC000 {
                    ((self.prg_bank as int % 16) * 16384 + off) % len
                } else {
                    len - 16384 + (addr as int - 0xC000)
                }
            },
            MapperKind::Cnrom => off % len,
            MapperKind::Mmc3 => {
                let swap = (self.bank_select as int / 64) % 2 == 1;
                if addr < 0xA000 {
                    if swap {
                        len - 16384 + (addr as int - 0x8000)
                    } else {
                        ((self.r6 as int) * 8192 + off) % len
                    }
                } else if addr < 0xC000 {
                    ((self.r7 as int) * 8192 + (addr as int - 0xA000)) % len
                } else if addr < 0xE000 {
                    if swap {
                        ((self.r6 as int) * 8192 + (addr as int - 0xC000)) % len
                    } else {
                        len - 16384 + (addr as int - 0xC000)
                    }
                } else {
                    len - 8192 + (addr as int - 0xE000)
                }
            },
            MapperKind::Axrom => ((self.prg_bank as int % 8) * 32768 + off) % len,
        }
    }

    /// Value of a CPU-bus read through the mapper: cartridge RAM at
    /// $6000-$7FFF, banked PRG at $8000-$FFFF, open bus (0) below.
    pub open spec fn spec_prg_read(self, addr: u16) -> u8 {
        if addr < 0x6000 {
            0u8
        } else if addr < 0x8000 {
            self.rom.sram[addr as int - 0x6000]
        } else {
            self.rom.prg[self.spec_prg_index(addr)]
        }
    }

    /// Byte index into CHR storage for a PPU-bus access at `addr` (below
    /// $2000).
    pub open spec fn spec_chr_index(self, addr: u16) -> int {
        let len = self.rom.chr.len() as int;
        match self.kind {
            MapperKind::Nrom => addr as int % len,
            MapperKind::Mmc1 => {
                if (self.control as int / 16) % 2 == 0 {
                    (((self.chr_bank0 as int % 32) / 2) * 8192 + addr as int) % len
                } else {
                    if addr < 0x1000 {
                        ((self.chr_bank0 as int % 32) * 4096 + addr as int) % len
                    } else {
                        ((self.chr_bank1 as int % 32) * 4096 + (addr as int - 0x1000)) % len
                    }
                }
            },
            MapperKind::Uxrom => addr as int % len,
            MapperKind::Cnrom => ((self.chr_bank0 as int % 4) * 8192 + addr as int) % len,
            MapperKind::Mmc3 => {
                let invert = (self.bank_select as int / 128) % 2 == 1;
                let a = if invert {
                    (addr as int + 0x1000) % 0x2000
                } else {
                    addr as int
                };
                if a < 0x800 {
                    ((self.r0 as int / 2) * 2048 + a) % len
                } else if a < 0x1000 {
                    ((self.r1 as int / 2) * 2048 + (a - 0x800)) % len
                } else if a < 0x1400 {
                    ((self.r2 as int) * 1024 + (a - 0x1000)) % len
                } else if a < 0x1800 {
                    ((self.r3 as int) * 1024 + (a - 0x1400)) % len
                } else if a < 0x1C00 {
                    ((self.r4 as int) * 1024 + (a - 0x1800)) % len
                } else {
                    ((self.r5 as int) * 1024 + (a - 0x1C00)) % len
                }
            },
            MapperKind::Axrom => addr as int % len,
        }
    }

    pub open spec fn spec_chr_read(self, addr: u16) -> u8 {
        self.rom.chr[self.spec_chr_index(addr)]
    }

    /// The nametable mirroring currently in force.
    pub open spec fn spec_mirroring(self) -> Mirroring {
        match self.kind {
            MapperKind::Mmc1 => {
                let m = self.control as int % 4;
                if m == 0 {
                    Mirroring::SingleLower
                } else if m == 1 {
                    Mirroring::SingleUpper
                } else if m == 2 {
                    Mirroring::Vertical
                } else {
                    Mirroring::Horizontal
                }
            },
            MapperKind::Mmc3 => {
                if self.rom.header.mirroring == Mirroring::FourScreen {
                    Mirroring::FourScreen
                } else if self.mirror_bit % 2 == 1 {
                    Mirroring::Horizontal
                } else {
                    Mirroring::Vertical
                }
            },
            MapperKind::Axrom => {
                if self.mirror_bit % 2 == 1 {
                    Mirroring::SingleUpper
                } else {
                    Mirroring::SingleLower
                }
            },
            _ => self.rom.header.mirroring,
        }
    }

    /// State after a CPU-bus write at $8000-$FFFF reaches the mapper's
    /// registers.  Writes below $8000 and NROM/CNROM-range writes that the
    /// chip ignores leave the state unchanged.
    pub open spec fn spec_reg_write(self, addr: u16, v: u8) -> Mapper {
        match self.kind {
            MapperKind::Nrom => self,
            MapperKind::Mmc1 => {
                if v >= 128 {
                    // Reset: clear the shift register and force PRG mode 3.
                    Mapper { shift: 0, shift_count: 0, control: self.control | 12, ..self }
                } else {
                    let bit = v % 2;
                    let full = (self.shift + bit * pow2_u8(self.shift_count)) as u8;
                    if self.shift_count == 4 {
                        let m = Mapper { shift: 0, shift_count: 0, ..self };
                        if addr < 0xA000 {
                            Mapper { control: full % 32, ..m }
                        } else if addr < 0xC000 {
                            Mapper { chr_bank0: full % 32, ..m }
                        } else if addr < 0xE000 {
                            Mapper { chr_bank1: full % 32, ..m }
                        } else {
                            Mapper { prg_bank: full % 32, ..m }
                        }
                    } else {
                        Mapper { shift: full, shift_count: (self.shift_count + 1) as u8, ..self }
                    }
                }
            },
            MapperKind::Uxrom => Mapper { prg_bank: v % 16, ..self },
            MapperKind::Cnrom => Mapper { chr_bank0: v % 4, ..self },
            MapperKind::Mmc3 => {
                let even = addr % 2 == 0;
                if addr < 0xA000 {
                    if even {
                        Mapper { bank_select: v, ..self }
                    } else {
                        let t = self.bank_select as int % 8;
                        if t == 0 {
                            Mapper { r0: v, ..self }
                        } else if t == 1 {
                            Mapper { r1: v, ..self }
                        } else if t == 2 {
                            Mapper { r2: v, ..self }
                        } else if t == 3 {
                            Mapper { r3: v, ..self }
                        } else if t == 4 {
                            Mapper { r4: v, ..self }
                        } else if t == 5 {
                            Mapper { r5: v, ..self }
                        } else if t == 6 {
                            Mapper { r6: v % 64, ..self }
                        } else {
                            Mapper { r7: v % 64, ..self }
                        }
                    }
                } else if addr < 0xC000 {
                    if even {
                        Mapper { mirror_bit: v % 2, ..self }
                    } else {
                        self  // RAM protect: not modelled
                    }
                } else if addr < 0xE000 {
                    if even {
                        Mapper { irq_latch: v, ..self }
                    } else {
                        Mapper { irq_counter: 0, irq_reload: true, ..self }
                    }
                } else {
                    if even {
                        Mapper { irq_enable: false, ..self }
                    } else {
                        Mapper { irq_enable: true, ..self }
                    }
                }
            },
            MapperKind::Axrom => Mapper { prg_bank: v % 8, mirror_bit: (v as int / 16) as u8 % 2, ..self },
        }
    }

    /// State after the per-scanline tick, and whether the IRQ line is
    /// asserted by it.  Only MMC3 reacts.
    pub open spec fn spec_scanline_tick(self) -> (Mapper, bool) {
        if self.kind == MapperKind::Mmc3 {
            let c = if self.irq_counter == 0 || self.irq_reload {
                self.irq_latch
            } else {
                (self.irq_counter - 1) as u8
            };
            let m = Mapper { irq_counter: c, irq_reload: false, ..self };
            (m, c == 0 && self.irq_enable)
        } else {
            (self, false)
        }
    }

    /// Reads the CPU-bus side of the cartridge.
    pub fn prg_read(&self, addr: u16) -> (r: u8)
        requires
            self.wf(),
        ensures
            r == self.spec_prg_read(addr),
    {
        if addr < 0x6000 {
            0
        } else if addr < 0x8000 {
            self.rom.sram[(addr - 0x6000) as usize]
        } else {
            let idx = self.prg_index(addr);
            self.rom.prg[idx]
        }
    }

    /// Computes the PRG byte index for `addr` at or above $8000.
    fn prg_index(&self, addr: u16) -> (r: usize)
        requires
            self.wf(),
            addr >= 0x8000,
        ensures
            r as int == self.spec_prg_index(addr),
            r < self.rom.prg.len(),
    {
        let len: usize = self.rom.prg.len();
        let off: usize = (addr - 0x8000) as usize;
        match self.kind {
            MapperKind::Nrom => off % len,
            MapperKind::Mmc1 => {
                let mode: u8 = (self.control / 4) % 4;
                let bank: usize = (self.prg_bank % 16) as usize;
                if mode <= 1 {
                    ((bank / 2) * 32768 + off) % len
                } else if mode == 2 {
                    if addr < 0xC000 {
                        off % len
                    } else {
                        (bank * 16384 + (addr - 0xC000) as usize) % len
                    }
                } else {
                    if addr < 0xC000 {
                        (bank * 16384 + off) % len
                    } else {
                        len - 16384 + (addr - 0xC000) as usize
                    }
                }
            },
            MapperKind::Uxrom => {
                if addr < 0xC000 {
                    (((self.prg_bank % 16) as usize) * 16384 + off) % len
                } else {
                    len - 16384 + (addr - 0xC000) as usize
                }
            },
            MapperKind::Cnrom => off % len,
            MapperKind::Mmc3 => {
                let swap: bool = (self.bank_select / 64) % 2 == 1;
                if addr < 0xA000 {
                    if swap {
                        len - 16384 + (addr - 0x8000) as usize
                    } else {
                        ((self.r6 as usize) * 8192 + off) % len
                    }
                } else if addr < 0xC000 {
                    ((self.r7 as usize) * 8192 + (addr - 0xA000) as usize) % len
                } else if addr < 0xE000 {
                    if swap {
                        ((self.r6 as usize) * 8192 + (addr - 0xC000) as usize) % len
                    } else {
                        len - 16384 + (addr - 0xC000) as usize
                    }
                } else {
                    len - 8192 + (addr - 0xE000) as usize
                }
            },
            MapperKind::Axrom => (((self.prg_bank % 8) as usize) * 32768 + off) % len,
        }
    }

    /// Writes the CPU-bus side of the cartridge: cartridge RAM at
    /// $6000-$7FFF, the mapper registers at $8000-$FFFF.
    pub fn prg_write(&mut self, addr: u16, v: u8)
        requires
            old(self).wf(),
        ensures
            final(self).wf(),
            addr < 0x6000 ==> *final(self) == *old(self),
            0x6000 <= addr < 0x8000 ==> {
                &&& final(self).rom.sram@ == old(self).rom.sram@.update(addr as int - 0x6000, v)
                &&& final(self).rom.prg == old(self).rom.prg
                &&& final(self).rom.chr == old(self).rom.chr
                &&& final(self).rom.header == old(self).rom.header
                &&& final(self).kind == old(self).kind
                &&& final(self).spec_regs_eq(*old(self))
            },
            addr >= 0x8000 ==> *final(self) == old(self).spec_reg_write(addr, v),
    {
        if addr < 0x6000 {
            return ;
        }
        if addr < 0x8000 {
            self.rom.sram.set((addr - 0x6000) as usize, v);
            return ;
        }
        match self.kind {
            MapperKind::Nrom => {},
            MapperKind::Mmc1 => {
                if v >= 128 {
                    self.shift = 0;
                    self.shift_count = 0;
                    self.control = self.control | 12;
                } else {
                    let bit: u8 = v % 2;
                    let add: u8 = if bit == 1 {
                        pow2_exec(self.shift_count)
                    } else {
                        0
                    };
                    let full: u8 = self.shift + add;
                    if self.shift_count == 4 {
                        self.shift = 0;
                        self.shift_count = 0;
                        if addr < 0xA000 {
                            self.control = full % 32;
                        } else if addr < 0xC000 {
                            self.chr_bank0 = full % 32;
                        } else if addr < 0xE000 {
                            self.chr_bank1 = full % 32;
                        } else {
                            self.prg_bank = full % 32;
                        }
                    } else {
                        self.shift = full;
                        self.shift_count = self.shift_count + 1;
                    }
                }
            },
            MapperKind::Uxrom => {
                self.prg_bank = v % 16;
            },
            MapperKind::Cnrom => {
                self.chr_bank0 = v % 4;
            },
            MapperKind::Mmc3 => {
                let even: bool = addr % 2 == 0;
                if addr < 0xA000 {
                    if even {
                        self.bank_select = v;
                    } else {
                        let t: u8 = self.bank_select % 8;
                        if t == 0 {
                            self.r0 = v;
                        } else if t == 1 {
                            self.r1 = v;
                        } else if t == 2 {
                            self.r2 = v;
                        } else if t == 3 {
                            self.r3 = v;
                        } else if t == 4 {
                            self.r4 = v;
                        } else if t == 5 {
                            self.r5 = v;
                        } else if t == 6 {
                            self.r6 = v % 64;
                        } else {
                            self.r7 = v % 64;
                        }
                    }
                } else if addr < 0xC000 {
                    if even {
                        self.mirror_bit = v % 2;
                    }
                } else if addr < 0xE000 {
                    if even {
                        self.irq_latch = v;
                    } else {
                        self.irq_counter = 0;
                        self.irq_reload = true;
                    }
                } else {
                    if even {
                        self.irq_enable = false;
                    } else {
                        self.irq_enable = true;
                    }
                }
            },
            MapperKind::Axrom => {
                self.prg_bank = v % 8;
                self.mirror_bit = (v / 16) % 2;
            },
        }
    }

    /// All banking registers agree (the ROM arrays may differ).
    pub open spec fn spec_regs_eq(self, o: Mapper) -> bool {
        &&& self.shift == o.shift
        &&& self.shift_count == o.shift_count
        &&& self.control == o.control
        &&& self.chr_bank0 == o.chr_bank0
        &&& self.chr_bank1 == o.chr_bank1
        &&& self.prg_bank == o.prg_bank
        &&& self.bank_select == o.bank_select
        &&& self.r0 == o.r0 && self.r1 == o.r1 && self.r2 == o.r2 && self.r3 == o.r3
        &&& self.r4 == o.r4 && self.r5 == o.r5 && self.r6 == o.r6 && self.r7 == o.r7
        &&& self.mirror_bit == o.mirror_bit
        &&& self.irq_latch == o.irq_latch
        &&& self.irq_counter == o.irq_counter
        &&& self.irq_enable == o.irq_enable
        &&& self.irq_reload == o.irq_reload
    }

    /// Computes the CHR byte index for `addr` below $2000.
    fn chr_index(&self, addr: u16) -> (r: usize)
        requires
            self.wf(),
            addr < 0x2000,
        ensures
            r as int == self.spec_chr_index(addr),
            r < self.rom.chr.len(),
    {
        let len: usize = self.rom.chr.len();
        match self.kind {
            MapperKind::Nrom => (addr as usize) % len,
            MapperKind::Mmc1 => {
                if (self.control / 16) % 2 == 0 {
                    ((((self.chr_bank0 % 32) / 2) as usize) * 8192 + addr as usize) % len
                } else {
                    if addr < 0x1000 {
                        (((self.chr_bank0 % 32) as usize) * 4096 + addr as usize) % len
                    } else {
                        (((self.chr_bank1 % 32) as usize) * 4096 + (addr - 0x1000) as usize) % len
                    }
                }
            },
            MapperKind::Uxrom => (addr as usize) % len,
            MapperKind::Cnrom => (((self.chr_bank0 % 4) as usize) * 8192 + addr as usize) % len,
            MapperKind::Mmc3 => {
                let invert: bool = (self.bank_select / 128) % 2 == 1;
                let a: usize = if invert {
                    ((addr as usize) + 0x1000) % 0x2000
                } else {
                    addr as usize
                };
                if a < 0x800 {
                    (((self.r0 / 2) as usize) * 2048 + a) % len
                } else if a < 0x1000 {
                    (((self.r1 / 2) as usize) * 2048 + (a - 0x800)) % len
                } else if a < 0x1400 {
                    ((self.r2 as usize) * 1024 + (a - 0x1000)) % len
                } else if a < 0x1800 {
                    ((self.r3 as usize) * 1024 + (a - 0x1400)) % len
                } else if a < 0x1C00 {
                    ((self.r4 as usize) * 1024 + (a - 0x1800)) % len
                } else {
                    ((self.r5 as usize) * 1024 + (a - 0x1C00)) % len
                }
            },
            MapperKind::Axrom => (addr as usize) % len,
        }
    }

    /// Reads the PPU-bus side of the cartridge (pattern tables).
    pub fn chr_read(&self, addr: u16) -> (r: u8)
        requires
            self.wf(),
            addr < 0x2000,
        ensures
            r == self.spec_chr_read(addr),
    {
        let idx = self.chr_index(addr);
        self.rom.chr[idx]
    }

    /// Writes the PPU-bus side; only CHR RAM accepts the byte.
    pub fn chr_write(&mut self, addr: u16, v: u8)
        requires
            old(self).wf(),
            addr < 0x2000,
        ensures
            final(self).wf(),
            old(self).rom.chr_is_ram() ==> final(self).rom.chr@ == old(self).rom.chr@.update(
                old(self).spec_chr_index(addr),
                v,
            ),
            !old(self).rom.chr_is_ram() ==> *final(self) == *old(self),
            final(self).rom.prg == old(self).rom.prg,
            final(self).rom.sram == old(self).rom.sram,
            final(self).rom.header == old(self).rom.header,
            final(self).kind == old(self).kind,
            final(self).spec_regs_eq(*old(self)),
    {
        if self.rom.header.chr_count == 0 {
            let idx = self.chr_index(addr);
            self.rom.chr.set(idx, v);
        }
    }

    /// The nametable mirroring currently in force.
    pub fn mirroring(&self) -> (r: Mirroring)
        ensures
            r == self.spec_mirroring(),
    {
        match self.kind {
            MapperKind::Mmc1 => {
                let m: u8 = self.control % 4;
                if m == 0 {
                    Mirroring::SingleLower
                } else if m == 1 {
                    Mirroring::SingleUpper
                } else if m == 2 {
                    Mirroring::Vertical
                } else {
                    Mirroring::Horizontal
                }
            },
            MapperKind::Mmc3 => {
                if self.rom.header.mirroring == Mirroring::FourScreen {
                    Mirroring::FourScreen
                } else if self.mirror_bit % 2 == 1 {
                    Mirroring::Horizontal
                } else {
                    Mirroring::Vertical
                }
            },
            MapperKind::Axrom => {
                if self.mirror_bit % 2 == 1 {
                    Mirroring::SingleUpper
                } else {
                    Mirroring::SingleLower
                }
            },
            _ => self.rom.header.mirroring,
        }
    }

    /// The once-per-scanline tick; returns whether the mapper asserts its
    /// IRQ on this scanline.
    pub fn ppu_scanline_tick(&mut self) -> (r: bool)
        requires
            old(self).wf(),
        ensures
            final(self).wf(),
            (*final(self), r) == old(self).spec_scanline_tick(),
    {
        match self.kind {
            MapperKind::Mmc3 => {
                let c: u8 = if self.irq_counter == 0 || self.irq_reload {
                    self.irq_latch
                } else {
                    self.irq_counter - 1
                };
                self.irq_counter = c;
                self.irq_reload = false;
                c == 0 && self.irq_enable
            },
            _ => false,
        }
    }
}

/// The mapper kind a header mapper number selects.
pub open spec fn spec_kind_of(n: u8) -> MapperKind {
    if n == 0 {
        MapperKind::Nrom
    } else if n == 1 {
        MapperKind::Mmc1
    } else if n == 2 {
        MapperKind::Uxrom
    } else if n == 3 {
        MapperKind::Cnrom
    } else if n == 4 {
        MapperKind::Mmc3
    } else {
        MapperKind::Axrom
    }
}

/// Two to the `n`-th, for the five MMC1 shift positions.
pub open spec fn pow2_u8(n: u8) -> u8 {
    if n == 0 {
        1u8
    } else if n == 1 {
        2u8
    } else if n == 2 {
        4u8
    } else if n == 3 {
        8u8
    } else {
        16u8
    }
}

fn pow2_exec(n: u8) -> (r: u8)
    requires
        n < 5,
    ensures
        r == pow2_u8(n),
{
    if n == 0 {
        1
    } else if n == 1 {
        2
    } else if n == 2 {
        4
    } else if n == 3 {
        8
    } else {
        16
    }
}

} // verus!
