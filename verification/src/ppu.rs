//! The picture processor: register file, internal scroll state, video
//! memory, scanline/dot timing and the scanline renderer.
//!
//! Timing is NTSC: 341 dots per scanline, 262 scanlines per frame,
//! scanlines 0-239 visible, 240 post-render, 241-260 vertical blank,
//! 261 pre-render.  The PPU advances three dots per CPU cycle; on the
//! pre-render scanline of an odd frame the last dot is skipped when
//! rendering is enabled, so a frame lasts 89342 dots, or 89341 with the
//! skip.  Pixels are rendered a scanline at a time into an indexed
//! framebuffer.

use vstd::prelude::*;

use crate::mapper::Mapper;
use crate::rom::Mirroring;

verus! {

/// Dots per scanline.
pub const DOTS_PER_SCANLINE: u16 = 341;
/// Scanlines per frame.
pub const SCANLINES_PER_FRAME: u16 = 262;
/// Dots in a full frame without the odd-frame skip.
pub const FRAME_DOTS: u32 = 89342;
/// Width of the visible picture in pixels.
pub const SCREEN_WIDTH: usize = 256;
/// Height of the visible picture in pixels.
pub const SCREEN_HEIGHT: usize = 240;

/// What one PPU advance reported back to the executive.
#[derive(Clone, Copy, Debug, PartialEq, Eq, Structural)]
pub struct PpuStepResult {
    /// The PPU entered vertical blank with NMI enabled.
    pub vblank_nmi: bool,
    /// The mapper asserted its scanline IRQ.
    pub scanline_irq: bool,
    /// A frame was completed; the framebuffer is ready to present.
    pub new_frame: bool,
}

/// The picture processor.
pub struct Ppu {
    /// PPUCTRL.
    pub ctrl: u8,
    /// PPUMASK.
    pub mask: u8,
    /// PPUSTATUS bit 7: in vertical blank.
    pub status_vblank: bool,
    /// PPUSTATUS bit 6: sprite-0 hit this frame.
    pub status_sprite0: bool,
    /// PPUSTATUS bit 5: sprite overflow this frame.
    pub status_overflow: bool,
    /// OAMADDR.
    pub oam_addr: u8,
    /// Internal scroll register v (15 bits).
    pub v: u16,
    /// Internal scroll register t (15 bits).
    pub t: u16,
    /// Fine horizontal scroll (3 bits).
    pub fine_x: u8,
    /// Shared write toggle of PPUSCROLL/PPUADDR.
    pub w: bool,
    /// PPUDATA read buffer.
    pub read_buffer: u8,
    /// 2 KiB of nametable RAM.
    pub nametables: Vec<u8>,
    /// 32 bytes of palette RAM.
    pub palette: Vec<u8>,
    /// 256 bytes of object attribute memory.
    pub oam: Vec<u8>,
    /// Indexed framebuffer, 256 x 240 pixels.
    pub screen: Vec<u8>,
    /// Current scanline, 0..262.
    pub scanline: u16,
    /// Current dot within the scanline, 0..341.
    pub dot: u16,
    /// Frame parity for the odd-frame skip.
    pub odd_frame: bool,
    /// CPU cycle count already accounted for.
    pub last_cpu_cy: u64,
}

/// Dots elapsed since the start of the frame for a position.
pub open spec fn spec_dots_into_frame(scanline: u16, dot: u16) -> int {
    scanline as int * 341 + dot as int
}

impl Ppu {
    /// All buffers have their fixed sizes and the counters sit inside a
    /// frame.
    pub open spec fn wf(self) -> bool {
        &&& self.nametables.len() == 2048
        &&& self.palette.len() == 32
        &&& self.oam.len() == 256
        &&& self.screen.len() == 61440
        &&& self.v < 0x8000
        &&& self.t < 0x8000
        &&& self.fine_x < 8
        &&& self.scanline < 262
        &&& self.dot < 341
    }

    /// Background or sprite rendering is enabled.
    pub open spec fn spec_rendering_on(self) -> bool {
        (self.mask as int / 8) % 4 != 0
    }

    /// The position the next dot tick moves to, with the odd-frame skip.
    pub open spec fn spec_next_pos(self) -> (u16, u16) {
        if self.scanline == 261 && self.dot == 339 && self.odd_frame && self.spec_rendering_on() {
            (0u16, 0u16)
        } else if self.dot == 340 {
            if self.scanline == 261 {
                (0u16, 0u16)
            } else {
                ((self.scanline + 1) as u16, 0u16)
            }
        } else {
            (self.scanline, (self.dot + 1) as u16)
        }
    }

    /// The tick that moves to this position completes a frame.
    pub open spec fn spec_completes_frame(self) -> bool {
        self.spec_next_pos() == (0u16, 0u16)
    }

    /// A fresh PPU in its power-on state.
    pub fn new() -> (r: Ppu)
        ensures
            r.wf(),
            r.ctrl == 0 && r.mask == 0,
            !r.status_vblank && !r.status_sprite0 && !r.status_overflow,
            r.v == 0 && r.t == 0 && r.fine_x == 0 && !r.w,
            r.scanline == 0 && r.dot == 0 && !r.odd_frame,
            r.last_cpu_cy == 0,
            r.nametables@ == Seq::<u8>::new(2048, |i: int| 0u8),
            r.palette@ == Seq::<u8>::new(32, |i: int| 0u8),
            r.oam@ == Seq::<u8>::new(256, |i: int| 0u8),
            r.screen@ == Seq::<u8>::new(61440, |i: int| 0u8),
    {
        Ppu {
            ctrl: 0,
            mask: 0,
            status_vblank: false,
            status_sprite0: false,
            status_overflow: false,
            oam_addr: 0,
            v: 0,
            t: 0,
            fine_x: 0,
            w: false,
            read_buffer: 0,
            nametables: crate::rom::zero_vec(2048),
            palette: crate::rom::zero_vec(32),
            oam: crate::rom::zero_vec(256),
            screen: crate::rom::zero_vec(61440),
            scanline: 0,
            dot: 0,
            odd_frame: false,
            last_cpu_cy: 0,
        }
    }

    /// Maps a nametable bus address ($2000-$3EFF) to an index into the
    /// 2 KiB nametable RAM under the given mirroring.
    pub open spec fn spec_nt_index(mirroring: Mirroring, addr: u16) -> int {
        let na = (addr as int - 0x2000) % 0x1000;
        let table = na / 1024;
        let off = na % 1024;
        let phys: int = match mirroring {
            Mirroring::Horizontal => table / 2,
            Mirroring::Vertical => table % 2,
            Mirroring::SingleLower => 0,
            Mirroring::SingleUpper => 1,
            Mirroring::FourScreen => table % 2,
        };
        phys * 1024 + off
    }

    /// Index into palette RAM for a palette bus address ($3F00-$3FFF),
    /// with $3F10/$3F14/$3F18/$3F1C mirrored down onto $3F00/$3F04/$3F08/
    /// $3F0C.
    pub open spec fn spec_palette_index(addr: u16) -> int {
        let a = addr as int % 32;
        if a >= 16 && a % 4 == 0 {
            a - 16
        } else {
            a
        }
    }

    fn nt_index(mirroring: Mirroring, addr: u16) -> (r: usize)
        requires
            0x2000 <= addr < 0x3F00,
        ensures
            r as int == Ppu::spec_nt_index(mirroring, addr),
            r < 2048,
    {
        let na: usize = ((addr - 0x2000) as usize) % 0x1000;
        let table: usize = na / 1024;
        let off: usize = na % 1024;
        let phys: usize = match mirroring {
            Mirroring::Horizontal => table / 2,
            Mirroring::Vertical => table % 2,
            Mirroring::SingleLower => 0,
            Mirroring::SingleUpper => 1,
            Mirroring::FourScreen => table % 2,
        };
        phys * 1024 + off
    }

    fn palette_index(addr: u16) -> (r: usize)
        ensures
            r as int == Ppu::spec_palette_index(addr),
            r < 32,
    {
        let a: usize = (addr as usize) % 32;
        if a >= 16 && a % 4 == 0 {
            a - 16
        } else {
            a
        }
    }

    /// The value a PPU-bus read yields: pattern tables through the
    /// mapper, nametable RAM under mirroring, or palette RAM.
    pub open spec fn spec_vram_value(self, m: Mapper, addr: u16) -> u8 {
        if addr < 0x2000 {
            m.spec_chr_read(addr)
        } else if addr < 0x3F00 {
            self.nametables@[Ppu::spec_nt_index(m.spec_mirroring(), addr)]
        } else {
            self.palette@[Ppu::spec_palette_index(addr)]
        }
    }

    /// Reads the PPU bus: pattern tables through the mapper, nametable RAM
    /// under mirroring, or palette RAM.
    pub fn vram_read(&self, mapper: &Mapper, addr: u16) -> (r: u8)
        requires
            self.wf(),
            mapper.wf(),
            addr < 0x4000,
        ensures
            addr < 0x2000 ==> r == mapper.spec_chr_read(addr),
            0x2000 <= addr < 0x3F00 ==> r == self.nametables@[Ppu::spec_nt_index(
                mapper.spec_mirroring(),
                addr,
            )],
            addr >= 0x3F00 ==> r == self.palette@[Ppu::spec_palette_index(addr)],
    {
        if addr < 0x2000 {
            mapper.chr_read(addr)
        } else if addr < 0x3F00 {
            self.nametables[Ppu::nt_index(mapper.mirroring(), addr)]
        } else {
            self.palette[Ppu::palette_index(addr)]
        }
    }

    /// Writes the PPU bus.
    pub fn vram_write(&mut self, mapper: &mut Mapper, addr: u16, v: u8)
        requires
            old(self).wf(),
            old(mapper).wf(),
            addr < 0x4000,
        ensures
            final(self).wf(),
            final(mapper).wf(),
            addr < 0x2000 ==> {
                &&& *final(self) == *old(self)
                &&& (old(mapper).rom.chr_is_ram() ==> final(mapper).rom.chr@ == old(
                    mapper,
                ).rom.chr@.update(old(mapper).spec_chr_index(addr), v))
                &&& (!old(mapper).rom.chr_is_ram() ==> *final(mapper) == *old(mapper))
            },
            0x2000 <= addr < 0x3F00 ==> {
                &&& *final(mapper) == *old(mapper)
                &&& final(self).nametables@ == old(self).nametables@.update(
                    Ppu::spec_nt_index(old(mapper).spec_mirroring(), addr),
                    v,
                )
                &&& final(self).spec_eq_but_nametables(*old(self))
            },
            addr >= 0x3F00 ==> {
                &&& *final(mapper) == *old(mapper)
                &&& final(self).palette@ == old(self).palette@.update(
                    Ppu::spec_palette_index(addr),
                    v,
                )
                &&& final(self).spec_eq_but_palette(*old(self))
            },
    {
        if addr < 0x2000 {
            mapper.chr_write(addr, v);
        } else if addr < 0x3F00 {
            let i = Ppu::nt_index(mapper.mirroring(), addr);
            self.nametables.set(i, v);
        } else {
            let i = Ppu::palette_index(addr);
            self.palette.set(i, v);
        }
    }

    /// Everything but the nametable RAM agrees.
    pub open spec fn spec_eq_but_nametables(self, o: Ppu) -> bool {
        Ppu { nametables: o.nametables, ..self } == o
    }

    /// Everything but the palette RAM agrees.
    pub open spec fn spec_eq_but_palette(self, o: Ppu) -> bool {
        Ppu { palette: o.palette, ..self } == o
    }

    /// Everything but OAM and the OAM address register agrees.
    pub open spec fn spec_eq_but_oam(self, o: Ppu) -> bool {
        Ppu { oam: o.oam, oam_addr: o.oam_addr, ..self } == o
    }

    /// The PPUDATA address increment selected by PPUCTRL bit 2.
    pub open spec fn spec_vram_step(self) -> int {
        if (self.ctrl as int / 4) % 2 == 1 {
            32
        } else {
            1
        }
    }

    /// Reads one of the eight registers at $2000-$2007 (`idx` is the
    /// address modulo 8).
    ///
    /// Reading PPUSTATUS returns the three flag bits, then clears the
    /// vertical-blank flag and the shared write toggle.  Reading PPUDATA
    /// returns the read buffer for non-palette addresses (the buffer is
    /// refilled from the bus) and the palette byte directly for palette
    /// addresses; either way v steps by 1 or 32.
    pub fn read_reg(&mut self, mapper: &Mapper, idx: u16) -> (r: u8)
        requires
            old(self).wf(),
            mapper.wf(),
            idx < 8,
        ensures
            final(self).wf(),
            idx == 2 ==> {
                &&& r as int == (if old(self).status_vblank { 128int } else { 0int }) + (
                if old(self).status_sprite0 { 64int } else { 0int }) + (if old(
                    self,
                ).status_overflow {
                    32int
                } else {
                    0int
                })
                &&& !final(self).status_vblank
                &&& !final(self).w
                &&& *final(self) == (Ppu { status_vblank: false, w: false, ..*old(self) })
            },
            idx == 4 ==> {
                &&& r == old(self).oam@[old(self).oam_addr as int]
                &&& *final(self) == *old(self)
            },
            idx == 7 ==> {
                &&& final(self).v as int == (old(self).v + old(self).spec_vram_step()) % 0x8000
                &&& (old(self).v % 0x4000 < 0x3F00 ==> r == old(self).read_buffer)
                &&& (old(self).v % 0x4000 >= 0x3F00 ==> r == old(self).palette@[
                    Ppu::spec_palette_index((old(self).v % 0x4000) as u16)])
                &&& (old(self).v % 0x4000 < 0x3F00 ==> final(self).read_buffer == old(
                    self,
                ).spec_vram_value(*mapper, (old(self).v % 0x4000) as u16))
                &&& (old(self).v % 0x4000 >= 0x3F00 ==> final(self).read_buffer == old(
                    self,
                ).spec_vram_value(*mapper, (old(self).v % 0x4000 - 0x1000) as u16))
                &&& *final(self) == (Ppu {
                    v: final(self).v,
                    read_buffer: final(self).read_buffer,
                    ..*old(self)
                })
            },
            idx == 0 || idx == 1 || idx == 3 || idx == 5 || idx == 6 ==> r == 0 && *final(self)
                == *old(self),
    {
        if idx == 2 {
            let r: u8 = (if self.status_vblank {
                128
            } else {
                0
            }) + (if self.status_sprite0 {
                64
            } else {
                0
            }) + (if self.status_overflow {
                32
            } else {
                0
            });
            self.status_vblank = false;
            self.w = false;
            r
        } else if idx == 4 {
            self.oam[self.oam_addr as usize]
        } else if idx == 7 {
            let addr: u16 = self.v % 0x4000;
            let r: u8;
            if addr < 0x3F00 {
                r = self.read_buffer;
                self.read_buffer = self.vram_read(mapper, addr);
            } else {
                r = self.vram_read(mapper, addr);
                // The buffer is refilled from the nametable underneath.
                self.read_buffer = self.vram_read(mapper, addr - 0x1000);
            }
            let step: u16 = if (self.ctrl / 4) % 2 == 1 {
                32
            } else {
                1
            };
            self.v = (self.v + step) % 0x8000;
            r
        } else {
            0
        }
    }

    /// Writes one of the eight registers at $2000-$2007.
    ///
    /// PPUCTRL loads the nametable bits of t; PPUSCROLL loads coarse/fine
    /// x then coarse/fine y of t (and fine x) under the shared toggle;
    /// PPUADDR loads the high then low byte of t and copies t to v;
    /// OAMDATA stores at OAMADDR and increments it; PPUDATA writes the
    /// bus at v and steps v.
    pub fn write_reg(&mut self, mapper: &mut Mapper, idx: u16, val: u8)
        requires
            old(self).wf(),
            old(mapper).wf(),
            idx < 8,
        ensures
            final(self).wf(),
            final(mapper).wf(),
            idx == 0 ==> *final(self) == (Ppu {
                ctrl: val,
                t: ((old(self).t as int % 1024) + (val as int % 4) * 1024 + (old(self).t as int
                    / 4096) * 4096) as u16,
                ..*old(self)
            }) && *final(mapper) == *old(mapper),
            idx == 1 ==> *final(self) == (Ppu { mask: val, ..*old(self) }) && *final(mapper) == *old(
                mapper,
            ),
            idx == 3 ==> *final(self) == (Ppu { oam_addr: val, ..*old(self) }) && *final(mapper)
                == *old(mapper),
            idx == 4 ==> {
                &&& final(self).oam@ == old(self).oam@.update(old(self).oam_addr as int, val)
                &&& final(self).oam_addr as int == (old(self).oam_addr + 1) % 256
                &&& final(self).spec_eq_but_oam(*old(self))
                &&& *final(mapper) == *old(mapper)
            },
            idx == 5 && !old(self).w ==> *final(self) == (Ppu {
                t: ((old(self).t as int - old(self).t as int % 32) + val as int / 8) as u16,
                fine_x: (val % 8) as u8,
                w: true,
                ..*old(self)
            }) && *final(mapper) == *old(mapper),
            idx == 5 && old(self).w ==> *final(self) == (Ppu {
                t: ((old(self).t as int % 32) + (val as int / 8) * 32 + ((old(self).t as int
                    / 1024) % 4) * 1024 + (val as int % 8) * 4096) as u16,
                w: false,
                ..*old(self)
            }) && *final(mapper) == *old(mapper),
            idx == 6 && !old(self).w ==> *final(self) == (Ppu {
                t: ((old(self).t as int % 256) + (val as int % 64) * 256) as u16,
                w: true,
                ..*old(self)
            }) && *final(mapper) == *old(mapper),
            idx == 6 && old(self).w ==> *final(self) == (Ppu {
                t: ((old(self).t as int - old(self).t as int % 256) + val as int) as u16,
                v: ((old(self).t as int - old(self).t as int % 256) + val as int) as u16,
                w: false,
                ..*old(self)
            }) && *final(mapper) == *old(mapper),
            idx == 7 ==> final(self).v as int == (old(self).v + old(self).spec_vram_step())
                % 0x8000,
            idx == 7 ==> ({
                let a = (old(self).v % 0x4000) as u16;
                &&& (a < 0x2000 ==> {
                    &&& final(self).nametables == old(self).nametables
                    &&& final(self).palette == old(self).palette
                    &&& (old(mapper).rom.chr_is_ram() ==> final(mapper).rom.chr@ == old(
                        mapper,
                    ).rom.chr@.update(old(mapper).spec_chr_index(a), val))
                    &&& (!old(mapper).rom.chr_is_ram() ==> *final(mapper) == *old(mapper))
                })
                &&& (0x2000 <= a < 0x3F00 ==> {
                    &&& *final(mapper) == *old(mapper)
                    &&& final(self).nametables@ == old(self).nametables@.update(
                        Ppu::spec_nt_index(old(mapper).spec_mirroring(), a),
                        val,
                    )
                    &&& final(self).palette == old(self).palette
                })
                &&& (a >= 0x3F00 ==> {
                    &&& *final(mapper) == *old(mapper)
                    &&& final(self).palette@ == old(self).palette@.update(
                        Ppu::spec_palette_index(a),
                        val,
                    )
                    &&& final(self).nametables == old(self).nametables
                })
                &&& *final(self) == (Ppu {
                    v: final(self).v,
                    nametables: final(self).nametables,
                    palette: final(self).palette,
                    ..*old(self)
                })
            }),
            idx == 2 ==> *final(self) == *old(self) && *final(mapper) == *old(mapper),
    {
        if idx == 0 {
            self.ctrl = val;
            self.t = (self.t % 1024) + (val as u16 % 4) * 1024 + (self.t / 4096) * 4096;
        } else if idx == 1 {
            self.mask = val;
        } else if idx == 3 {
            self.oam_addr = val;
        } else if idx == 4 {
            self.oam.set(self.oam_addr as usize, val);
            self.oam_addr = ((self.oam_addr as u16 + 1) % 256) as u8;
        } else if idx == 5 {
            if !self.w {
                self.t = (self.t - self.t % 32) + (val as u16) / 8;
                self.fine_x = val % 8;
                self.w = true;
            } else {
                self.t = (self.t % 32) + ((val as u16) / 8) * 32 + ((self.t / 1024) % 4) * 1024 + (
                (val as u16) % 8) * 4096;
                self.w = false;
            }
        } else if idx == 6 {
            if !self.w {
                self.t = (self.t % 256) + ((val as u16) % 64) * 256;
                self.w = true;
            } else {
                self.t = (self.t - self.t % 256) + (val as u16);
                self.v = self.t;
                self.w = false;
            }
        } else if idx == 7 {
            let addr: u16 = self.v % 0x4000;
            self.vram_write(mapper, addr, val);
            let step: u16 = if (self.ctrl / 4) % 2 == 1 {
                32
            } else {
                1
            };
            self.v = (self.v + step) % 0x8000;
        }
    }
    /// Everything but the framebuffer, the two sprite flags and the OAM
    /// address agrees.
    pub open spec fn spec_eq_but_render(self, o: Ppu) -> bool {
        Ppu {
            screen: o.screen,
            status_sprite0: o.status_sprite0,
            status_overflow: o.status_overflow,
            ..self
        } == o
    }

    /// Loopy vertical increment of v: fine y, then coarse y with the
    /// row-29 nametable toggle and the row-31 quirk.
    fn increment_y(&mut self)
        requires
            old(self).wf(),
        ensures
            final(self).wf(),
            *final(self) == (Ppu { v: final(self).v, ..*old(self) }),
    {
        let cx: u16 = self.v % 32;
        let cy: u16 = (self.v / 32) % 32;
        let ntb: u16 = (self.v / 1024) % 4;
        let fy: u16 = self.v / 4096;
        if fy < 7 {
            self.v = self.v + 4096;
        } else {
            if cy == 29 {
                let nth: u16 = ntb % 2;
                let ntv: u16 = ntb / 2;
                self.v = cx + (nth + (1 - ntv) * 2) * 1024;
            } else if cy == 31 {
                self.v = cx + ntb * 1024;
            } else {
                self.v = cx + (cy + 1) * 32 + ntb * 1024;
            }
        }
    }

    /// Reloads the horizontal bits of v (coarse x and the horizontal
    /// nametable bit) from t.
    fn copy_horizontal(&mut self)
        requires
            old(self).wf(),
        ensures
            final(self).wf(),
            *final(self) == (Ppu { v: final(self).v, ..*old(self) }),
    {
        self.v = (self.t % 32) + ((self.v / 32) % 32) * 32 + ((self.t / 1024) % 2) * 1024 + (self.v
            / 2048) * 2048;
    }

    /// Reloads the vertical bits of v (coarse y, the vertical nametable
    /// bit and fine y) from t.
    fn copy_vertical(&mut self)
        requires
            old(self).wf(),
        ensures
            final(self).wf(),
            *final(self) == (Ppu { v: final(self).v, ..*old(self) }),
    {
        self.v = (self.v % 32) + ((self.t / 32) % 32) * 32 + ((self.v / 1024) % 2) * 1024 + ((self.t
            / 2048) % 2) * 2048 + (self.t / 4096) * 4096;
    }

    /// Advances the PPU by one dot: moves the dot/scanline counters
    /// (applying the odd-frame skip), raises and clears the status flags
    /// at their documented positions, renders each visible scanline, and
    /// ticks the mapper's scanline counter.
    ///
    /// The counter ensures state that a frame is completed after exactly
    /// 89342 dots, or 89341 when the odd-frame skip fires.
    pub fn tick_dot(&mut self, mapper: &mut Mapper) -> (r: PpuStepResult)
        requires
            old(self).wf(),
            old(mapper).wf(),
        ensures
            final(self).wf(),
            final(mapper).wf(),
            (final(self).scanline, final(self).dot) == old(self).spec_next_pos(),
            final(self).odd_frame == (if old(self).spec_completes_frame() {
                !old(self).odd_frame
            } else {
                old(self).odd_frame
            }),
            old(self).spec_completes_frame() ==> spec_dots_into_frame(
                old(self).scanline,
                old(self).dot,
            ) + 1 == (if old(self).scanline == 261 && old(self).dot == 339 {
                89341int
            } else {
                89342int
            }),
            !old(self).spec_completes_frame() ==> spec_dots_into_frame(
                final(self).scanline,
                final(self).dot,
            ) == spec_dots_into_frame(old(self).scanline, old(self).dot) + 1,
            r.new_frame <==> (final(self).scanline == 241 && final(self).dot == 0),
            r.vblank_nmi <==> (final(self).scanline == 241 && final(self).dot == 1 && old(
                self,
            ).ctrl >= 128),
            final(self).scanline == 241 && final(self).dot == 1 ==> final(self).status_vblank,
            final(self).scanline == 261 && final(self).dot == 1 ==> !final(self).status_vblank
                && !final(self).status_sprite0 && !final(self).status_overflow,
            old(self).status_sprite0 && !(final(self).scanline == 261 && final(self).dot == 1)
                ==> final(self).status_sprite0,
            final(self).ctrl == old(self).ctrl && final(self).mask == old(self).mask,
            final(self).last_cpu_cy == old(self).last_cpu_cy,
    {
        let rendering: bool = (self.mask / 8) % 4 != 0;
        let skip: bool = self.scanline == 261 && self.dot == 339 && self.odd_frame && rendering;
        if skip || self.dot == 340 {
            self.dot = 0;
            if self.scanline == 261 {
                self.scanline = 0;
                self.odd_frame = !self.odd_frame;
            } else {
                self.scanline = self.scanline + 1;
            }
        } else {
            self.dot = self.dot + 1;
        }
        let mut r = PpuStepResult { vblank_nmi: false, scanline_irq: false, new_frame: false };
        if self.scanline == 241 && self.dot == 0 {
            r.new_frame = true;
        }
        if self.scanline == 241 && self.dot == 1 {
            self.status_vblank = true;
            if self.ctrl >= 128 {
                r.vblank_nmi = true;
            }
        }
        if self.scanline == 261 && self.dot == 1 {
            self.status_vblank = false;
            self.status_sprite0 = false;
            self.status_overflow = false;
        }
        if rendering && self.scanline < 240 {
            if self.dot == 256 {
                let y: u16 = self.scanline;
                self.render_scanline(mapper, y);
                self.increment_y();
            }
            if self.dot == 257 {
                self.copy_horizontal();
            }
            if self.dot == 260 {
                if mapper.ppu_scanline_tick() {
                    r.scanline_irq = true;
                }
            }
        }
        if rendering && self.scanline == 261 && self.dot == 304 {
            self.copy_vertical();
        }
        r
    }

    /// Advances the PPU to the CPU's cycle count: three dots per CPU
    /// cycle beyond the count already seen.  The returned flags are the
    /// union of the events of those dots (at most one frame ends per
    /// call).
    pub fn step(&mut self, mapper: &mut Mapper, cpu_cy: u64) -> (r: PpuStepResult)
        requires
            old(self).wf(),
            old(mapper).wf(),
            cpu_cy >= old(self).last_cpu_cy,
            cpu_cy - old(self).last_cpu_cy <= 2000,
        ensures
            final(self).wf(),
            final(mapper).wf(),
            final(self).last_cpu_cy == cpu_cy,
            final(self).ctrl == old(self).ctrl,
            final(self).mask == old(self).mask,
            ({
                let n = (3 * (cpu_cy - old(self).last_cpu_cy)) as nat;
                let rend = old(self).spec_rendering_on();
                &&& (final(self).scanline, final(self).dot, final(self).odd_frame)
                    == spec_pos_after(
                    old(self).scanline,
                    old(self).dot,
                    old(self).odd_frame,
                    rend,
                    n,
                )
                &&& r.new_frame == spec_new_frame_within(
                    old(self).scanline,
                    old(self).dot,
                    old(self).odd_frame,
                    rend,
                    n,
                )
            }),
    {
        let delta: u64 = cpu_cy - self.last_cpu_cy;
        self.last_cpu_cy = cpu_cy;
        let dots: u64 = 3 * delta;
        let mut r = PpuStepResult { vblank_nmi: false, scanline_irq: false, new_frame: false };
        let mut i: u64 = 0;
        while i < dots
            invariant
                self.wf(),
                mapper.wf(),
                self.last_cpu_cy == cpu_cy,
                dots <= 6000,
                i <= dots,
                self.ctrl == old(self).ctrl,
                self.mask == old(self).mask,
                (self.scanline, self.dot, self.odd_frame) == spec_pos_after(
                    old(self).scanline,
                    old(self).dot,
                    old(self).odd_frame,
                    old(self).spec_rendering_on(),
                    i as nat,
                ),
                r.new_frame == spec_new_frame_within(
                    old(self).scanline,
                    old(self).dot,
                    old(self).odd_frame,
                    old(self).spec_rendering_on(),
                    i as nat,
                ),
            decreases dots - i,
        {
            proof {
                lemma_pos_after_snoc(
                    old(self).scanline,
                    old(self).dot,
                    old(self).odd_frame,
                    old(self).spec_rendering_on(),
                    i as nat,
                );
            }
            let ghost prev = *self;
            let t = self.tick_dot(mapper);
            proof {
                assert(prev.spec_rendering_on() == old(self).spec_rendering_on());
                assert(spec_tick_pos(
                    prev.scanline,
                    prev.dot,
                    prev.odd_frame,
                    old(self).spec_rendering_on(),
                ) == (self.scanline, self.dot, self.odd_frame));
            }
            if t.vblank_nmi {
                r.vblank_nmi = true;
            }
            if t.scanline_irq {
                r.scanline_irq = true;
            }
            if t.new_frame {
                r.new_frame = true;
            }
            i = i + 1;
        }
        r
    }

    /// Height of sprites under PPUCTRL bit 5: 8 or 16 pixels.
    pub open spec fn spec_sprite_height(self) -> int {
        if (self.ctrl as int / 32) % 2 == 1 {
            16
        } else {
            8
        }
    }

    /// The two-bit background pattern value at screen column `x` of the
    /// scanline the current scroll registers select.
    pub open spec fn spec_bg_raw(self, m: Mapper, x: u16) -> u8 {
        let total_x = (self.v as int % 32) * 8 + self.fine_x as int + x as int;
        let tx = total_x / 8;
        let bitpos = 7 - total_x % 8;
        let base_nt = (self.v as int / 1024) % 4;
        let nt = (base_nt / 2) * 2 + (base_nt % 2 + tx / 32) % 2;
        let tcol = tx % 32;
        let coarse_y = (self.v as int / 32) % 32;
        let fine_y = self.v as int / 4096;
        let nt_addr = 0x2000 + nt * 0x400 + coarse_y * 32 + tcol;
        let tile = self.nametables@[Ppu::spec_nt_index(m.spec_mirroring(), nt_addr as u16)] as int;
        let pt_base = ((self.ctrl as int / 16) % 2) * 0x1000;
        let pat_addr = pt_base + tile * 16 + fine_y;
        let low = m.spec_chr_read(pat_addr as u16);
        let high = m.spec_chr_read((pat_addr + 8) as u16);
        (spec_bit_of(low, bitpos as u8) + 2 * spec_bit_of(high, bitpos as u8)) as u8
    }

    /// The two-bit pattern value of sprite 0 at screen position (x, y);
    /// zero when sprite 0 does not cover that position.
    pub open spec fn spec_sprite0_raw(self, m: Mapper, x: u16, y: u16) -> u8 {
        let height = self.spec_sprite_height();
        let sy = self.oam@[0] as int;
        let tile = self.oam@[1] as int;
        let attr = self.oam@[2] as int;
        let sx = self.oam@[3] as int;
        if sy + 1 <= y < sy + 1 + height && sx <= x < sx + 8 {
            let col = if (attr / 64) % 2 == 1 {
                7 - (x - sx)
            } else {
                x as int - sx
            };
            let row = if (attr / 128) % 2 == 1 {
                height - 1 - (y - (sy + 1))
            } else {
                y - (sy + 1)
            };
            let pat_addr = if height == 16 {
                (tile % 2) * 0x1000 + (tile - tile % 2) * 16 + (if row < 8 {
                    row
                } else {
                    row + 8
                })
            } else {
                ((self.ctrl as int / 8) % 2) * 0x1000 + tile * 16 + row
            };
            let low = m.spec_chr_read(pat_addr as u16);
            let high = m.spec_chr_read((pat_addr + 8) as u16);
            (spec_bit_of(low, (7 - col) as u8) + 2 * spec_bit_of(high, (7 - col) as u8)) as u8
        } else {
            0u8
        }
    }

    /// Sprite-0 hit is raised at (x, y): both planes enabled, x below
    /// 255, and an opaque sprite-0 pixel over an opaque background
    /// pixel.
    pub open spec fn spec_sprite0_hit_at(self, m: Mapper, y: u16, x: u16) -> bool {
        &&& (self.mask as int / 8) % 2 == 1
        &&& (self.mask as int / 16) % 2 == 1
        &&& x < 255
        &&& self.spec_bg_raw(m, x) != 0
        &&& self.spec_sprite0_raw(m, x, y) != 0
    }

    /// Computes the background pattern value and palette select at `x`.
    fn bg_pixel(&self, mapper: &Mapper, x: u16) -> (r: (u8, u8))
        requires
            self.wf(),
            mapper.wf(),
            x < 256,
        ensures
            r.0 == self.spec_bg_raw(*mapper, x),
            r.0 < 4,
            r.1 < 4,
    {
        let mirroring = mapper.mirroring();
        let coarse_x: u16 = self.v % 32;
        let coarse_y: u16 = (self.v / 32) % 32;
        let base_nt: u16 = (self.v / 1024) % 4;
        let fine_y: u16 = self.v / 4096;
        let total_x: u16 = coarse_x * 8 + self.fine_x as u16 + x;
        let tx: u16 = total_x / 8;
        let bitpos: u16 = 7 - (total_x % 8);
        let nt: u16 = (base_nt / 2) * 2 + (base_nt % 2 + tx / 32) % 2;
        let tcol: u16 = tx % 32;
        let nt_addr: u16 = 0x2000 + nt * 0x400 + coarse_y * 32 + tcol;
        let tile: u8 = self.nametables[Ppu::nt_index(mirroring, nt_addr)];
        let attr_addr: u16 = 0x2000 + nt * 0x400 + 0x3C0 + (coarse_y / 4) * 8 + tcol / 4;
        let attr: u8 = self.nametables[Ppu::nt_index(mirroring, attr_addr)];
        let quad: u8 = (((coarse_y % 4) / 2) * 2) as u8 + ((tcol % 4) / 2) as u8;
        let pal2: u8 = (attr / pow4(quad)) % 4;
        let pt_base: u16 = ((self.ctrl / 16) % 2) as u16 * 0x1000;
        let pat_addr: u16 = pt_base + (tile as u16) * 16 + fine_y;
        let low: u8 = mapper.chr_read(pat_addr);
        let high: u8 = mapper.chr_read(pat_addr + 8);
        let raw: u8 = bit_of(low, bitpos as u8) + 2 * bit_of(high, bitpos as u8);
        (raw, pal2)
    }

    /// Computes sprite 0's pattern value at (x, y).
    fn sprite0_pixel(&self, mapper: &Mapper, x: u16, y: u16) -> (r: u8)
        requires
            self.wf(),
            mapper.wf(),
            x < 256,
            y < 240,
        ensures
            r == self.spec_sprite0_raw(*mapper, x, y),
            r < 4,
    {
        let height: u16 = if (self.ctrl / 32) % 2 == 1 {
            16
        } else {
            8
        };
        let sy: u16 = self.oam[0] as u16;
        let tile: u8 = self.oam[1];
        let attr: u8 = self.oam[2];
        let sx: u16 = self.oam[3] as u16;
        if sy + 1 <= y && y < sy + 1 + height && sx <= x && x < sx + 8 {
            let mut col: u16 = x - sx;
            if (attr / 64) % 2 == 1 {
                col = 7 - col;
            }
            let mut row: u16 = y - (sy + 1);
            if (attr / 128) % 2 == 1 {
                row = height - 1 - row;
            }
            let pat_addr: u16 = if height == 16 {
                ((tile % 2) as u16) * 0x1000 + ((tile - tile % 2) as u16) * 16 + (if row < 8 {
                    row
                } else {
                    row + 8
                })
            } else {
                ((self.ctrl / 8) % 2) as u16 * 0x1000 + (tile as u16) * 16 + row
            };
            let low: u8 = mapper.chr_read(pat_addr);
            let high: u8 = mapper.chr_read(pat_addr + 8);
            let bitpos: u8 = (7 - col) as u8;
            bit_of(low, bitpos) + 2 * bit_of(high, bitpos)
        } else {
            0
        }
    }

    /// Renders one visible scanline into the framebuffer: the background
    /// from the nametables and pattern tables under the current scroll,
    /// the sprites from OAM with priority, and the two sprite flags.
    ///
    /// The sprite-0 flag is raised exactly when some column of this
    /// scanline satisfies the documented hit condition (an opaque
    /// sprite-0 pixel over an opaque background pixel at x < 255 with
    /// both planes enabled), and is never cleared here; the overflow
    /// flag is raised exactly when more than eight sprites cover the
    /// scanline.
    #[verifier::rlimit(100)]
    pub fn render_scanline(&mut self, mapper: &Mapper, y: u16)
        requires
            old(self).wf(),
            mapper.wf(),
            y < 240,
        ensures
            final(self).wf(),
            final(self).spec_eq_but_render(*old(self)),
            final(self).status_sprite0 == (old(self).status_sprite0 || (exists|x: u16|
                x < 256 && #[trigger] old(self).spec_sprite0_hit_at(*mapper, y, x))),
            final(self).status_overflow == (old(self).status_overflow || spec_inrange_count(
                old(self).oam@,
                y,
                old(self).spec_sprite_height(),
                64,
            ) > 8),
    {
        let show_bg: bool = (self.mask / 8) % 2 == 1;
        let show_sp: bool = (self.mask / 16) % 2 == 1;
        let height: u16 = if (self.ctrl / 32) % 2 == 1 {
            16
        } else {
            8
        };
        // Sprite evaluation: at most eight sprites from OAM land on this
        // scanline; any further in-range sprite sets the overflow flag.
        let mut sel: Vec<u8> = Vec::new();
        let mut i: usize = 0;
        while i < 64
            invariant
                self.wf(),
                mapper.wf(),
                i <= 64,
                sel.len() <= 8,
                forall|k: int| 0 <= k < sel.len() ==> sel@[k] < 64,
                self.spec_eq_but_render(*old(self)),
                self.status_sprite0 == old(self).status_sprite0,
                height as int == old(self).spec_sprite_height(),
                y < 240,
                sel@.len() as int == (if spec_inrange_count(
                    old(self).oam@,
                    y,
                    height as int,
                    i as int,
                ) > 8 {
                    8int
                } else {
                    spec_inrange_count(old(self).oam@, y, height as int, i as int)
                }),
                self.status_overflow == (old(self).status_overflow || spec_inrange_count(
                    old(self).oam@,
                    y,
                    height as int,
                    i as int,
                ) > 8),
            decreases 64 - i,
        {
            let sy: u16 = self.oam[i * 4] as u16;
            if sy + 1 <= y && y < sy + 1 + height {
                if sel.len() < 8 {
                    sel.push(i as u8);
                } else {
                    self.status_overflow = true;
                }
            }
            i = i + 1;
        }
        let mirroring = mapper.mirroring();
        let mut x: u16 = 0;
        while x < 256
            invariant
                self.wf(),
                mapper.wf(),
                sel.len() <= 8,
                forall|k: int| 0 <= k < sel.len() ==> sel@[k] < 64,
                self.spec_eq_but_render(*old(self)),
                self.status_sprite0 == (old(self).status_sprite0 || (exists|x0: u16|
                    x0 < x && #[trigger] old(self).spec_sprite0_hit_at(*mapper, y, x0))),
                self.status_overflow == (old(self).status_overflow || spec_inrange_count(
                    old(self).oam@,
                    y,
                    old(self).spec_sprite_height(),
                    64,
                ) > 8),
                y < 240,
                x <= 256,
                height == 8 || height == 16,
                show_bg == ((old(self).mask as int / 8) % 2 == 1),
                show_sp == ((old(self).mask as int / 16) % 2 == 1),
            decreases 256 - x,
        {
            let bgp: (u8, u8) = if show_bg {
                self.bg_pixel(mapper, x)
            } else {
                (0, 0)
            };
            let bg_raw: u8 = bgp.0;
            proof {
                assert(self.v == old(self).v && self.fine_x == old(self).fine_x && self.ctrl
                    == old(self).ctrl && self.nametables == old(self).nametables && self.oam
                    == old(self).oam && self.mask == old(self).mask);
                if show_bg {
                    assert(bg_raw == old(self).spec_bg_raw(*mapper, x));
                }
            }
            let mut color: u8 = self.palette[0] % 64;
            if bg_raw != 0 {
                color = self.palette[(bgp.1 * 4 + bg_raw) as usize] % 64;
            }
            if show_sp {
                let mut k: usize = 0;
                let mut done: bool = false;
                while k < sel.len() && !done
                    invariant
                        self.wf(),
                        mapper.wf(),
                        sel.len() <= 8,
                        forall|j: int| 0 <= j < sel.len() ==> sel@[j] < 64,
                        self.spec_eq_but_render(*old(self)),
                        self.status_sprite0 == (old(self).status_sprite0 || (exists|x0: u16|
                            x0 < x && #[trigger] old(self).spec_sprite0_hit_at(*mapper, y, x0))),
                        self.status_overflow == (old(self).status_overflow || spec_inrange_count(
                            old(self).oam@,
                            y,
                            old(self).spec_sprite_height(),
                            64,
                        ) > 8),
                        y < 240,
                        x < 256,
                        height == 8 || height == 16,
                        bg_raw < 4,
                    decreases sel.len() - k,
                {
                    let s: usize = sel[k] as usize;
                    let sy: u16 = self.oam[s * 4] as u16;
                    let tile: u8 = self.oam[s * 4 + 1];
                    let attr: u8 = self.oam[s * 4 + 2];
                    let sx: u16 = self.oam[s * 4 + 3] as u16;
                    if sx <= x && x < sx + 8 && sy + 1 <= y && y < sy + 1 + height {
                        let mut col: u16 = x - sx;
                        if (attr / 64) % 2 == 1 {
                            col = 7 - col;
                        }
                        let mut row: u16 = y - (sy + 1);
                        if (attr / 128) % 2 == 1 {
                            row = height - 1 - row;
                        }
                        let pat_addr: u16 = if height == 16 {
                            ((tile % 2) as u16) * 0x1000 + ((tile - tile % 2) as u16) * 16 + (
                            if row < 8 {
                                row
                            } else {
                                row + 8
                            })
                        } else {
                            ((self.ctrl / 8) % 2) as u16 * 0x1000 + (tile as u16) * 16 + row
                        };
                        let low: u8 = mapper.chr_read(pat_addr);
                        let high: u8 = mapper.chr_read(pat_addr + 8);
                        let bitpos: u8 = (7 - col) as u8;
                        let spix: u8 = bit_of(low, bitpos) + 2 * bit_of(high, bitpos);
                        if spix != 0 {
                            let behind: bool = (attr / 32) % 2 == 1;
                            if bg_raw == 0 || !behind {
                                color = self.palette[(16 + (attr % 4) * 4 + spix) as usize] % 64;
                            }
                            done = true;
                        }
                    }
                    k = k + 1;
                }
            }
            let mut hit_now: bool = false;
            if show_bg && show_sp && x < 255 && bg_raw != 0 {
                let s0: u8 = self.sprite0_pixel(mapper, x, y);
                proof {
                    assert(s0 == old(self).spec_sprite0_raw(*mapper, x, y));
                }
                if s0 != 0 {
                    self.status_sprite0 = true;
                    hit_now = true;
                }
            }
            self.screen.set((y as usize) * 256 + (x as usize), color);
            proof {
                if hit_now {
                    assert(old(self).spec_sprite0_hit_at(*mapper, y, x));
                } else {
                    assert(!old(self).spec_sprite0_hit_at(*mapper, y, x));
                    assert forall|x0: u16|
                        x0 < x + 1 && #[trigger] old(self).spec_sprite0_hit_at(
                            *mapper,
                            y,
                            x0,
                        ) implies x0 < x by {}
                }
            }
            x = x + 1;
        }
    }
}


/// Sprite `i` of OAM covers scanline `y` at the given sprite height.
pub open spec fn spec_sprite_in_range(oam: Seq<u8>, i: int, y: u16, height: int) -> bool {
    let sy = oam[i * 4] as int;
    sy + 1 <= y < sy + 1 + height
}

/// How many of the first `n` OAM sprites cover scanline `y`.
pub open spec fn spec_inrange_count(oam: Seq<u8>, y: u16, height: int, n: int) -> int
    decreases n,
{
    if n <= 0 {
        0
    } else {
        spec_inrange_count(oam, y, height, n - 1) + (if spec_sprite_in_range(
            oam,
            n - 1,
            y,
            height,
        ) {
            1int
        } else {
            0int
        })
    }
}

/// One dot tick of the position counters, with the odd-frame skip.
pub open spec fn spec_tick_pos(sl: u16, dot: u16, odd: bool, rendering: bool) -> (u16, u16, bool) {
    if sl == 261 && dot == 339 && odd && rendering {
        (0u16, 0u16, !odd)
    } else if dot == 340 {
        if sl == 261 {
            (0u16, 0u16, !odd)
        } else {
            (((sl + 1) as u16), 0u16, odd)
        }
    } else {
        (sl, ((dot + 1) as u16), odd)
    }
}

/// The position after `n` dot ticks.
pub open spec fn spec_pos_after(sl: u16, dot: u16, odd: bool, rendering: bool, n: nat) -> (
    u16,
    u16,
    bool,
)
    decreases n,
{
    if n == 0 {
        (sl, dot, odd)
    } else {
        let t = spec_tick_pos(sl, dot, odd, rendering);
        spec_pos_after(t.0, t.1, t.2, rendering, (n - 1) as nat)
    }
}

/// Some tick among the first `n` enters scanline 241, dot 0: the end of
/// the picture, where a new frame is reported.
pub open spec fn spec_new_frame_within(sl: u16, dot: u16, odd: bool, rendering: bool, n: nat) -> bool
    decreases n,
{
    if n == 0 {
        false
    } else {
        let t = spec_tick_pos(sl, dot, odd, rendering);
        (t.0 == 241 && t.1 == 0) || spec_new_frame_within(t.0, t.1, t.2, rendering, (n - 1) as nat)
    }
}

/// Unfolds one tick off the back of `spec_pos_after` and
/// `spec_new_frame_within`.
pub proof fn lemma_pos_after_snoc(sl: u16, dot: u16, odd: bool, rendering: bool, n: nat)
    ensures
        spec_pos_after(sl, dot, odd, rendering, n + 1) == ({
            let p = spec_pos_after(sl, dot, odd, rendering, n);
            spec_tick_pos(p.0, p.1, p.2, rendering)
        }),
        spec_new_frame_within(sl, dot, odd, rendering, n + 1) == (spec_new_frame_within(
            sl,
            dot,
            odd,
            rendering,
            n,
        ) || ({
            let p = spec_pos_after(sl, dot, odd, rendering, n);
            let t = spec_tick_pos(p.0, p.1, p.2, rendering);
            t.0 == 241 && t.1 == 0
        })),
    decreases n,
{
    let t = spec_tick_pos(sl, dot, odd, rendering);
    assert(spec_pos_after(sl, dot, odd, rendering, n + 1) == spec_pos_after(
        t.0,
        t.1,
        t.2,
        rendering,
        n,
    ));
    assert(spec_new_frame_within(sl, dot, odd, rendering, n + 1) == ((t.0 == 241 && t.1 == 0)
        || spec_new_frame_within(t.0, t.1, t.2, rendering, n)));
    if n > 0 {
        lemma_pos_after_snoc(t.0, t.1, t.2, rendering, (n - 1) as nat);
        assert(spec_pos_after(sl, dot, odd, rendering, n) == spec_pos_after(
            t.0,
            t.1,
            t.2,
            rendering,
            (n - 1) as nat,
        ));
        assert(spec_new_frame_within(sl, dot, odd, rendering, n) == ((t.0 == 241 && t.1 == 0)
            || spec_new_frame_within(t.0, t.1, t.2, rendering, (n - 1) as nat)));
    }
}

/// Bit `k` of `b` (0 is the least significant).
pub open spec fn spec_bit_of(b: u8, k: u8) -> u8 {
    ((b as int / pow2_int(k as int)) % 2) as u8
}

/// Two to the `k`-th, for bit positions 0..8.
pub open spec fn pow2_int(k: int) -> int {
    if k <= 0 {
        1
    } else if k == 1 {
        2
    } else if k == 2 {
        4
    } else if k == 3 {
        8
    } else if k == 4 {
        16
    } else if k == 5 {
        32
    } else if k == 6 {
        64
    } else {
        128
    }
}

/// Extracts one bit of a pattern byte.
pub fn bit_of(b: u8, k: u8) -> (r: u8)
    requires
        k < 8,
    ensures
        r == spec_bit_of(b, k),
        r < 2,
{
    let p: u8 = if k == 0 {
        1
    } else if k == 1 {
        2
    } else if k == 2 {
        4
    } else if k == 3 {
        8
    } else if k == 4 {
        16
    } else if k == 5 {
        32
    } else if k == 6 {
        64
    } else {
        128
    };
    (b / p) % 2
}

/// Powers of four for the attribute quadrant shift.
fn pow4(q: u8) -> (r: u8)
    requires
        q < 4,
    ensures
        r == pow2_int(2 * q as int),
        r >= 1,
{
    if q == 0 {
        1
    } else if q == 1 {
        4
    } else if q == 2 {
        16
    } else {
        64
    }
}

} // verus!
