//! Core of an emulator for the 8-bit home console built around a 6502-family
//! CPU, a tile-and-sprite picture processor (PPU) and a five-channel audio
//! processor (APU).
//!
//! The crate holds the machine model itself: the cycle-counted 6502
//! interpreter, the scanline-accurate PPU, the APU channel state machines,
//! the bank-switched memory map with its cartridge mappers, and the
//! executive step that keeps the three in lockstep.  Window presentation,
//! audio device handling and host input live outside the core and talk to
//! it through plain values.

use vstd::prelude::*;

pub mod apu;
pub mod cpu;
pub mod input;
pub mod mapper;
pub mod mem;
pub mod ppu;
pub mod rom;
pub mod save;

verus! {

/// How a ROM image failed to decode.
#[derive(Clone, Copy, Debug, PartialEq, Eq, Structural)]
pub enum RomParseKind {
    /// The first four bytes are not the expected signature.
    BadMagic,
    /// The image is shorter than the header and banks it announces.
    Truncated,
    /// The header announces a layout the core does not accept.
    UnsupportedHeader,
}

/// Construction- and run-time failures of the core.
#[derive(Clone, Copy, Debug, PartialEq, Eq, Structural)]
pub enum EmuError {
    /// The ROM image is malformed.
    RomParse(RomParseKind),
    /// The cartridge names a mapper the core does not implement.
    UnsupportedMapper(u8),
    /// A save-state blob has the wrong magic, version or shape.
    SaveStateIncompatible,
    /// The CPU fetched an opcode outside the supported instruction set;
    /// carries the program counter of the fetch and the opcode byte.
    UnsupportedOpcode(u16, u8),
}

/// One iteration of the executive loop over a whole machine: the CPU
/// executes one instruction, then the PPU and the APU are advanced to
/// the CPU's cycle counter, and a VBlank NMI (which wins) or a mapper
/// scanline IRQ raised by those dots is dispatched to the CPU before
/// its next instruction.
///
/// On success both co-processors have caught up to the cycle counter
/// exactly; the returned flags are those of this advance, so the caller
/// presents the framebuffer and polls input when `new_frame` is set.  A
/// fatal opcode decode error is handed through.
pub fn system_step(cpu: &mut crate::cpu::Cpu) -> (r: Result<crate::ppu::PpuStepResult, EmuError>)
    requires
        old(cpu).wf(),
        old(cpu).cy < crate::cpu::CY_CEILING,
    ensures
        final(cpu).wf(),
        final(cpu).cy >= old(cpu).cy,
        final(cpu).cy <= old(cpu).cy + crate::cpu::MAX_STEP_CYCLES,
        r matches Ok(pr) ==> {
            &&& final(cpu).mem.ppu.last_cpu_cy == final(cpu).cy
            &&& final(cpu).mem.apu.last_cpu_cy == final(cpu).cy
            &&& (pr.vblank_nmi ==> final(cpu).nmi_pending)
            &&& (!pr.vblank_nmi && pr.scanline_irq ==> final(cpu).irq_pending)
        },
        r matches Err(e) ==> e matches EmuError::UnsupportedOpcode(_, _),
{
    let info = match cpu.step() {
        Ok(i) => i,
        Err(e) => {
            return Err(e);
        },
    };
    let cy: u64 = cpu.cy;
    let pr: crate::ppu::PpuStepResult = if cy >= cpu.mem.ppu.last_cpu_cy && cy
        - cpu.mem.ppu.last_cpu_cy <= 2000 {
        cpu.mem.ppu.step(&mut cpu.mem.mapper, cy)
    } else {
        // The PPU is further behind than one instruction can explain (a
        // fresh PPU against a resumed counter): resynchronize silently.
        cpu.mem.ppu.last_cpu_cy = cy;
        crate::ppu::PpuStepResult { vblank_nmi: false, scanline_irq: false, new_frame: false }
    };
    if pr.vblank_nmi {
        cpu.nmi();
    } else if pr.scanline_irq {
        cpu.irq();
    }
    if cy >= cpu.mem.apu.last_cpu_cy && cy - cpu.mem.apu.last_cpu_cy <= 2000 {
        let _ = cpu.mem.apu.step(cy);
    } else {
        cpu.mem.apu.last_cpu_cy = cy;
    }
    Ok(pr)
}

} // verus!
