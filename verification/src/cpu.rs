//! The 6502 interpreter: register file, processor status flags, the
//! stack at $0100-$01FF, interrupt discipline, and a cycle-counted
//! `step` that executes exactly one instruction.
//!
//! Decimal mode is disabled: the D flag is settable but ADC/SBC ignore
//! it.  The documented opcodes are implemented together with the
//! documented subset of unofficial ones (NOP variants, LAX, SAX, DCP,
//! ISC, SLO, RLA, SRE, RRA); any other opcode is a fatal decode error
//! carrying the fetch address and the opcode byte.

use vstd::prelude::*;

use crate::mem::MemMap;
use crate::EmuError;

verus! {

/// Ceiling under which the cycle counter is allowed to run; one step
/// adds at most `MAX_STEP_CYCLES`.
pub const CY_CEILING: u64 = 0x4000000000000000;
/// The largest cycle cost a single step can charge (interrupt entry,
/// the longest instruction and the OAM DMA stall together).
pub const MAX_STEP_CYCLES: u64 = 600;

/// The CPU register file and its bus.
pub struct Cpu {
    /// Accumulator.
    pub a: u8,
    /// Index registers.
    pub x: u8,
    pub y: u8,
    /// Stack pointer; the stack lives at $0100-$01FF.
    pub s: u8,
    /// Program counter.
    pub pc: u16,
    /// Processor status: carry, zero, interrupt disable, decimal
    /// (ignored by arithmetic), overflow, negative.  Bit 5 reads as 1
    /// and B reflects the source of the last push.
    pub flag_c: bool,
    pub flag_z: bool,
    pub flag_i: bool,
    pub flag_d: bool,
    pub flag_v: bool,
    pub flag_n: bool,
    /// Cycles elapsed since power-on; monotonically increasing.
    pub cy: u64,
    /// An NMI edge has been latched and waits for service.
    pub nmi_pending: bool,
    /// An IRQ is asserted and waits for service (masked by I).
    pub irq_pending: bool,
    /// The last step executed a branch instruction.
    pub conditional_jump: bool,
    /// The memory map.
    pub mem: MemMap,
}

/// The status byte with the given B bit: C, Z, I, D at bits 0-3, B at
/// bit 4, bit 5 always set, V and N at bits 6-7.
pub open spec fn spec_flags_byte(
    c: bool,
    z: bool,
    i: bool,
    d: bool,
    b: bool,
    v: bool,
    n: bool,
) -> u8 {
    ((if c { 1int } else { 0int }) + (if z { 2int } else { 0int }) + (if i { 4int } else { 0int })
        + (if d { 8int } else { 0int }) + (if b { 16int } else { 0int }) + 32 + (if v {
        64int
    } else {
        0int
    }) + (if n { 128int } else { 0int })) as u8
}

/// The stack cell an 8-bit stack pointer addresses.
pub open spec fn spec_stack_index(s: u8) -> int {
    256 + s as int
}

/// RAM and stack pointer after a push: the byte lands at $0100+S and S
/// steps down, wrapping within the page.
pub open spec fn spec_stack_push(ram: Seq<u8>, s: u8, v: u8) -> (Seq<u8>, u8) {
    (ram.update(spec_stack_index(s), v), (if s == 0 { 255u8 } else { (s - 1) as u8 }))
}

/// Value and stack pointer after a pop: S steps up, wrapping within the
/// page, and the byte at the new $0100+S comes back.
pub open spec fn spec_stack_pop(ram: Seq<u8>, s: u8) -> (u8, u8) {
    let s2: u8 = if s == 255 { 0u8 } else { (s + 1) as u8 };
    (ram[spec_stack_index(s2)], s2)
}

/// The stack is LIFO with wraparound: popping right after pushing any
/// byte at any stack pointer returns that byte and restores the
/// pointer, including across the $0100/$01FF wrap.
pub proof fn lemma_stack_lifo(ram: Seq<u8>, s: u8, v: u8)
    requires
        ram.len() == 2048,
    ensures
        ({
            let (ram2, s2) = spec_stack_push(ram, s, v);
            spec_stack_pop(ram2, s2) == (v, s)
        }),
{
}

impl Cpu {
    pub open spec fn wf(self) -> bool {
        self.mem.wf()
    }

    /// All register-file fields agree (the bus may differ).
    pub open spec fn spec_regs_eq(self, o: Cpu) -> bool {
        &&& self.a == o.a
        &&& self.x == o.x
        &&& self.y == o.y
        &&& self.s == o.s
        &&& self.pc == o.pc
        &&& self.flag_c == o.flag_c
        &&& self.flag_z == o.flag_z
        &&& self.flag_i == o.flag_i
        &&& self.flag_d == o.flag_d
        &&& self.flag_v == o.flag_v
        &&& self.flag_n == o.flag_n
        &&& self.cy == o.cy
        &&& self.nmi_pending == o.nmi_pending
        &&& self.irq_pending == o.irq_pending
        &&& self.conditional_jump == o.conditional_jump
    }

    /// A CPU over a fresh bus; registers zeroed, ready for `reset`.
    pub fn new(mem: MemMap) -> (r: Cpu)
        requires
            mem.wf(),
        ensures
            r.wf(),
            r.mem == mem,
            r.a == 0 && r.x == 0 && r.y == 0 && r.s == 0xFD,
            r.pc == 0,
            r.cy == 0,
            !r.nmi_pending && !r.irq_pending,
            r.flag_i && !r.flag_c && !r.flag_z && !r.flag_d && !r.flag_v && !r.flag_n,
            !r.conditional_jump,
    {
        Cpu {
            a: 0,
            x: 0,
            y: 0,
            s: 0xFD,
            pc: 0,
            flag_c: false,
            flag_z: false,
            flag_i: true,
            flag_d: false,
            flag_v: false,
            flag_n: false,
            cy: 0,
            nmi_pending: false,
            irq_pending: false,
            conditional_jump: false,
            mem,
        }
    }

    /// Packs the status flags with the given B bit.
    pub fn flags_byte(&self, b: bool) -> (r: u8)
        ensures
            r == spec_flags_byte(
                self.flag_c,
                self.flag_z,
                self.flag_i,
                self.flag_d,
                b,
                self.flag_v,
                self.flag_n,
            ),
    {
        (if self.flag_c {
            1u8
        } else {
            0u8
        }) + (if self.flag_z {
            2u8
        } else {
            0u8
        }) + (if self.flag_i {
            4u8
        } else {
            0u8
        }) + (if self.flag_d {
            8u8
        } else {
            0u8
        }) + (if b {
            16u8
        } else {
            0u8
        }) + 32 + (if self.flag_v {
            64u8
        } else {
            0u8
        }) + (if self.flag_n {
            128u8
        } else {
            0u8
        })
    }

    /// Unpacks a status byte into the flags; the B bit and bit 5 are
    /// not stored.
    pub fn set_flags_byte(&mut self, v: u8)
        requires
            old(self).wf(),
        ensures
            final(self).wf(),
            final(self).flag_c == (v as int % 2 == 1),
            final(self).flag_z == ((v as int / 2) % 2 == 1),
            final(self).flag_i == ((v as int / 4) % 2 == 1),
            final(self).flag_d == ((v as int / 8) % 2 == 1),
            final(self).flag_v == ((v as int / 64) % 2 == 1),
            final(self).flag_n == ((v as int / 128) % 2 == 1),
            final(self).a == old(self).a && final(self).x == old(self).x && final(self).y == old(self).y,
            final(self).s == old(self).s && final(self).pc == old(self).pc && final(self).cy
                == old(self).cy,
            final(self).mem == old(self).mem,
            final(self).nmi_pending == old(self).nmi_pending && final(self).irq_pending == old(self).irq_pending,
            final(self).conditional_jump == old(self).conditional_jump,
    {
        self.flag_c = v % 2 == 1;
        self.flag_z = (v / 2) % 2 == 1;
        self.flag_i = (v / 4) % 2 == 1;
        self.flag_d = (v / 8) % 2 == 1;
        self.flag_v = (v / 64) % 2 == 1;
        self.flag_n = (v / 128) % 2 == 1;
    }

    /// Reads the bus without touching the register file.
    fn read(&mut self, addr: u16) -> (r: u8)
        requires
            old(self).wf(),
        ensures
            final(self).wf(),
            final(self).spec_frame_eq(*old(self)),
            final(self).pc == old(self).pc,
            final(self).s == old(self).s,
    {
        self.mem.loadb(addr)
    }

    /// Writes the bus; a write to $4014 performs the OAM DMA and
    /// returns its 513/514-cycle stall (parity of the current cycle
    /// count), every other write returns 0.
    fn write(&mut self, addr: u16, v: u8) -> (stall: u64)
        requires
            old(self).wf(),
        ensures
            final(self).wf(),
            final(self).spec_frame_eq(*old(self)),
            final(self).pc == old(self).pc,
            final(self).s == old(self).s,
            stall == (if addr == 0x4014 {
                513 + old(self).cy as int % 2
            } else {
                0int
            }),
    {
        self.mem.storeb(addr, v);
        if addr == 0x4014 {
            513 + self.cy % 2
        } else {
            0
        }
    }

    /// Fetches the byte at PC and advances PC with wraparound.
    fn fetchb(&mut self) -> (r: u8)
        requires
            old(self).wf(),
        ensures
            final(self).wf(),
            final(self).spec_frame_eq(*old(self)),
            final(self).s == old(self).s,
            final(self).pc as int == (old(self).pc + 1) % 0x10000,
    {
        let pc = self.pc;
        let r = self.read(pc);
        self.pc = if pc == 0xFFFF {
            0
        } else {
            pc + 1
        };
        r
    }

    /// Fetches a 16-bit little-endian operand at PC.
    fn fetchw(&mut self) -> (r: u16)
        requires
            old(self).wf(),
        ensures
            final(self).wf(),
            final(self).spec_frame_eq(*old(self)),
            final(self).s == old(self).s,
    {
        let lo = self.fetchb();
        let hi = self.fetchb();
        (lo as u16) + (hi as u16) * 256
    }

    /// Reads a 16-bit little-endian word from the bus.
    fn readw(&mut self, addr: u16) -> (r: u16)
        requires
            old(self).wf(),
            addr < 0xFFFF,
        ensures
            final(self).wf(),
            final(self).spec_regs_eq(*old(self)),
    {
        let lo = self.read(addr);
        let hi = self.read(addr + 1);
        (lo as u16) + (hi as u16) * 256
    }

    /// Pushes one byte onto the stack.
    fn push(&mut self, v: u8)
        requires
            old(self).wf(),
        ensures
            final(self).wf(),
            (final(self).mem.ram@, final(self).s) == spec_stack_push(
                old(self).mem.ram@,
                old(self).s,
                v,
            ),
            final(self).a == old(self).a && final(self).x == old(self).x && final(self).y == old(self).y && final(self).pc == old(self).pc && final(self).cy == old(self).cy,
            final(self).flag_c == old(self).flag_c && final(self).flag_z == old(self).flag_z
                && final(self).flag_i == old(self).flag_i && final(self).flag_d == old(self).flag_d && final(self).flag_v == old(self).flag_v && final(self).flag_n == old(self).flag_n,
            final(self).nmi_pending == old(self).nmi_pending && final(self).irq_pending == old(self).irq_pending,
            final(self).conditional_jump == old(self).conditional_jump,
            final(self).mem.ppu == old(self).mem.ppu && final(self).mem.apu == old(self).mem.apu
                && final(self).mem.input == old(self).mem.input && final(self).mem.mapper == old(self).mem.mapper,
    {
        let addr: u16 = 0x100 + self.s as u16;
        self.mem.storeb(addr, v);
        self.s = if self.s == 0 {
            255
        } else {
            self.s - 1
        };
    }

    /// Pops one byte off the stack.
    fn pop(&mut self) -> (r: u8)
        requires
            old(self).wf(),
        ensures
            final(self).wf(),
            (r, final(self).s) == spec_stack_pop(old(self).mem.ram@, old(self).s),
            final(self).a == old(self).a && final(self).x == old(self).x && final(self).y == old(self).y && final(self).pc == old(self).pc && final(self).cy == old(self).cy,
            final(self).flag_c == old(self).flag_c && final(self).flag_z == old(self).flag_z
                && final(self).flag_i == old(self).flag_i && final(self).flag_d == old(self).flag_d && final(self).flag_v == old(self).flag_v && final(self).flag_n == old(self).flag_n,
            final(self).nmi_pending == old(self).nmi_pending && final(self).irq_pending == old(self).irq_pending,
            final(self).conditional_jump == old(self).conditional_jump,
            final(self).mem == old(self).mem,
    {
        self.s = if self.s == 255 {
            0
        } else {
            self.s + 1
        };
        let addr: u16 = 0x100 + self.s as u16;
        self.mem.loadb(addr)
    }

    /// Latches a non-maskable interrupt edge.
    pub fn nmi(&mut self)
        requires
            old(self).wf(),
        ensures
            final(self).wf(),
            *final(self) == (Cpu { nmi_pending: true, ..*old(self) }),
    {
        self.nmi_pending = true;
    }

    /// Asserts the maskable interrupt line.
    pub fn irq(&mut self)
        requires
            old(self).wf(),
        ensures
            final(self).wf(),
            *final(self) == (Cpu { irq_pending: true, ..*old(self) }),
    {
        self.irq_pending = true;
    }

    /// The 7-cycle interrupt entry: pushes PCH, PCL and the status byte
    /// (B set only for BRK), sets I, and loads PC from the vector.  The
    /// 7 cycles are charged by the caller.
    fn interrupt(&mut self, vector: u16, brk: bool)
        requires
            old(self).wf(),
            vector < 0xFFFF,
        ensures
            final(self).wf(),
            final(self).flag_i,
            final(self).cy == old(self).cy,
            final(self).a == old(self).a && final(self).x == old(self).x && final(self).y == old(self).y,
            final(self).flag_c == old(self).flag_c && final(self).flag_z == old(self).flag_z
                && final(self).flag_d == old(self).flag_d && final(self).flag_v == old(self).flag_v
                && final(self).flag_n == old(self).flag_n,
            final(self).nmi_pending == old(self).nmi_pending && final(self).irq_pending == old(self).irq_pending,
            final(self).conditional_jump == old(self).conditional_jump,
    {
        let pc = self.pc;
        self.push((pc / 256) as u8);
        self.push((pc % 256) as u8);
        let p = self.flags_byte(brk);
        self.push(p);
        self.flag_i = true;
        self.pc = self.readw(vector);
    }

    /// The reset sequence: S becomes $FD, the status byte $24
    /// (I set, bit 5 high), and PC loads from the vector at $FFFC.
    /// Pending interrupt latches are flushed.
    pub fn reset(&mut self)
        requires
            old(self).wf(),
        ensures
            final(self).wf(),
            final(self).s == 0xFD,
            final(self).flag_i,
            !final(self).flag_c && !final(self).flag_z && !final(self).flag_d && !final(self).flag_v && !final(self).flag_n,
            !final(self).nmi_pending && !final(self).irq_pending,
            final(self).cy == old(self).cy,
            final(self).a == old(self).a && final(self).x == old(self).x && final(self).y == old(self).y,
            final(self).mem == old(self).mem,
            final(self).pc as int == old(self).mem.mapper.spec_prg_read(0xFFFC)
                + 256 * old(self).mem.mapper.spec_prg_read(0xFFFD) as int,
    {
        self.s = 0xFD;
        self.flag_c = false;
        self.flag_z = false;
        self.flag_i = true;
        self.flag_d = false;
        self.flag_v = false;
        self.flag_n = false;
        self.nmi_pending = false;
        self.irq_pending = false;
        let lo = self.mem.loadb(0xFFFC);
        let hi = self.mem.loadb(0xFFFD);
        self.pc = lo as u16 + hi as u16 * 256;
    }

    /// Sets Z and N from a value, as every load and arithmetic result
    /// does.
    fn set_zn(&mut self, v: u8)
        requires
            old(self).wf(),
        ensures
            final(self).wf(),
            *final(self) == (Cpu { flag_z: v == 0, flag_n: v >= 128, ..*old(self) }),
    {
        self.flag_z = v == 0;
        self.flag_n = v >= 128;
    }

    /// Add with carry (decimal mode ignored): A becomes the low byte of
    /// A + value + C; C is the carry out; V is signed overflow.
    fn adc(&mut self, v: u8)
        requires
            old(self).wf(),
        ensures
            final(self).wf(),
            final(self).a as int == (old(self).a + v + (if old(self).flag_c {
                1int
            } else {
                0int
            })) % 256,
            final(self).flag_c == (old(self).a + v + (if old(self).flag_c {
                1int
            } else {
                0int
            }) > 255),
            final(self).flag_v == (((old(self).a < 128) == (v < 128)) && ((old(self).a < 128) != (
            final(self).a < 128))),
            final(self).flag_z == (final(self).a == 0),
            final(self).flag_n == (final(self).a >= 128),
            *final(self) == (Cpu {
                a: final(self).a,
                flag_c: final(self).flag_c,
                flag_v: final(self).flag_v,
                flag_z: final(self).flag_z,
                flag_n: final(self).flag_n,
                ..*old(self)
            }),
    {
        let sum: u16 = self.a as u16 + v as u16 + (if self.flag_c {
            1
        } else {
            0
        });
        let r: u8 = (sum % 256) as u8;
        self.flag_c = sum > 255;
        self.flag_v = ((self.a < 128) == (v < 128)) && ((self.a < 128) != (r < 128));
        self.a = r;
        self.set_zn(r);
    }

    /// Subtract with borrow: the same adder fed the one's complement of
    /// the operand.
    fn sbc(&mut self, v: u8)
        requires
            old(self).wf(),
        ensures
            final(self).wf(),
            final(self).a as int == (old(self).a + (255 - v) + (if old(self).flag_c {
                1int
            } else {
                0int
            })) % 256,
            final(self).flag_c == (old(self).a + (255 - v) + (if old(self).flag_c {
                1int
            } else {
                0int
            }) > 255),
            final(self).flag_z == (final(self).a == 0),
            final(self).flag_n == (final(self).a >= 128),
            *final(self) == (Cpu {
                a: final(self).a,
                flag_c: final(self).flag_c,
                flag_v: final(self).flag_v,
                flag_z: final(self).flag_z,
                flag_n: final(self).flag_n,
                ..*old(self)
            }),
    {
        self.adc(255 - v)
    }

    /// Compare a register with a value: C, Z, N from the subtraction.
    fn compare(&mut self, reg: u8, v: u8)
        requires
            old(self).wf(),
        ensures
            final(self).wf(),
            final(self).flag_c == (reg >= v),
            final(self).flag_z == (reg == v),
            final(self).flag_n == ((reg as int + 256 - v as int) % 256 >= 128),
            *final(self) == (Cpu {
                flag_c: final(self).flag_c,
                flag_z: final(self).flag_z,
                flag_n: final(self).flag_n,
                ..*old(self)
            }),
    {
        let d: u16 = (reg as u16 + 256 - v as u16) % 256;
        self.flag_c = reg >= v;
        self.flag_z = reg == v;
        self.flag_n = d >= 128;
    }
}

/// The documented base cycle cost of every supported opcode; 0 marks an
/// opcode outside the supported set.  Page-cross and branch penalties
/// come on top.
pub open spec fn spec_base_cycles(op: u8) -> u64 {
    if op == 0x09u8 || op == 0x0Au8 || op == 0x10u8 || op == 0x18u8 || op == 0x1Au8 || op == 0x29u8
        || op == 0x2Au8 || op == 0x30u8 || op == 0x38u8 || op == 0x3Au8 || op == 0x49u8 || op == 0x4Au8
        || op == 0x50u8 || op == 0x58u8 || op == 0x5Au8 || op == 0x69u8 || op == 0x6Au8 || op == 0x70u8
        || op == 0x78u8 || op == 0x7Au8 || op == 0x80u8 || op == 0x82u8 || op == 0x88u8 || op == 0x89u8
        || op == 0x8Au8 || op == 0x90u8 || op == 0x98u8 || op == 0x9Au8 || op == 0xA0u8 || op == 0xA2u8
        || op == 0xA8u8 || op == 0xA9u8 || op == 0xAAu8 || op == 0xB0u8 || op == 0xB8u8 || op == 0xBAu8
        || op == 0xC0u8 || op == 0xC2u8 || op == 0xC8u8 || op == 0xC9u8 || op == 0xCAu8 || op == 0xD0u8
        || op == 0xD8u8 || op == 0xDAu8 || op == 0xE0u8 || op == 0xE2u8 || op == 0xE8u8 || op == 0xE9u8
        || op == 0xEAu8 || op == 0xEBu8 || op == 0xF0u8 || op == 0xF8u8 || op == 0xFAu8 {
        2u64
    } else if op == 0x04u8 || op == 0x05u8 || op == 0x08u8 || op == 0x24u8 || op == 0x25u8 || op == 0x44u8
        || op == 0x45u8 || op == 0x48u8 || op == 0x4Cu8 || op == 0x64u8 || op == 0x65u8 || op == 0x84u8
        || op == 0x85u8 || op == 0x86u8 || op == 0x87u8 || op == 0xA4u8 || op == 0xA5u8 || op == 0xA6u8
        || op == 0xA7u8 || op == 0xC4u8 || op == 0xC5u8 || op == 0xE4u8 || op == 0xE5u8 {
        3u64
    } else if op == 0x0Cu8 || op == 0x0Du8 || op == 0x14u8 || op == 0x15u8 || op == 0x19u8 || op == 0x1Cu8
        || op == 0x1Du8 || op == 0x28u8 || op == 0x2Cu8 || op == 0x2Du8 || op == 0x34u8 || op == 0x35u8
        || op == 0x39u8 || op == 0x3Cu8 || op == 0x3Du8 || op == 0x4Du8 || op == 0x54u8 || op == 0x55u8
        || op == 0x59u8 || op == 0x5Cu8 || op == 0x5Du8 || op == 0x68u8 || op == 0x6Du8 || op == 0x74u8
        || op == 0x75u8 || op == 0x79u8 || op == 0x7Cu8 || op == 0x7Du8 || op == 0x8Cu8 || op == 0x8Du8
        || op == 0x8Eu8 || op == 0x8Fu8 || op == 0x94u8 || op == 0x95u8 || op == 0x96u8 || op == 0x97u8
        || op == 0xACu8 || op == 0xADu8 || op == 0xAEu8 || op == 0xAFu8 || op == 0xB4u8 || op == 0xB5u8
        || op == 0xB6u8 || op == 0xB7u8 || op == 0xB9u8 || op == 0xBCu8 || op == 0xBDu8 || op == 0xBEu8
        || op == 0xBFu8 || op == 0xCCu8 || op == 0xCDu8 || op == 0xD4u8 || op == 0xD5u8 || op == 0xD9u8
        || op == 0xDCu8 || op == 0xDDu8 || op == 0xECu8 || op == 0xEDu8 || op == 0xF4u8 || op == 0xF5u8
        || op == 0xF9u8 || op == 0xFCu8 || op == 0xFDu8 {
        4u64
    } else if op == 0x06u8 || op == 0x07u8 || op == 0x11u8 || op == 0x26u8 || op == 0x27u8 || op == 0x31u8
        || op == 0x46u8 || op == 0x47u8 || op == 0x51u8 || op == 0x66u8 || op == 0x67u8 || op == 0x6Cu8
        || op == 0x71u8 || op == 0x99u8 || op == 0x9Du8 || op == 0xB1u8 || op == 0xB3u8 || op == 0xC6u8
        || op == 0xC7u8 || op == 0xD1u8 || op == 0xE6u8 || op == 0xE7u8 || op == 0xF1u8 {
        5u64
    } else if op == 0x01u8 || op == 0x0Eu8 || op == 0x0Fu8 || op == 0x16u8 || op == 0x17u8 || op == 0x20u8
        || op == 0x21u8 || op == 0x2Eu8 || op == 0x2Fu8 || op == 0x36u8 || op == 0x37u8 || op == 0x40u8
        || op == 0x41u8 || op == 0x4Eu8 || op == 0x4Fu8 || op == 0x56u8 || op == 0x57u8 || op == 0x60u8
        || op == 0x61u8 || op == 0x6Eu8 || op == 0x6Fu8 || op == 0x76u8 || op == 0x77u8 || op == 0x81u8
        || op == 0x83u8 || op == 0x91u8 || op == 0xA1u8 || op == 0xA3u8 || op == 0xC1u8 || op == 0xCEu8
        || op == 0xCFu8 || op == 0xD6u8 || op == 0xD7u8 || op == 0xE1u8 || op == 0xEEu8 || op == 0xEFu8
        || op == 0xF6u8 || op == 0xF7u8 {
        6u64
    } else if op == 0x00u8 || op == 0x1Bu8 || op == 0x1Eu8 || op == 0x1Fu8 || op == 0x3Bu8 || op == 0x3Eu8
        || op == 0x3Fu8 || op == 0x5Bu8 || op == 0x5Eu8 || op == 0x5Fu8 || op == 0x7Bu8 || op == 0x7Eu8
        || op == 0x7Fu8 || op == 0xDBu8 || op == 0xDEu8 || op == 0xDFu8 || op == 0xFBu8 || op == 0xFEu8
        || op == 0xFFu8 {
        7u64
    } else if op == 0x03u8 || op == 0x13u8 || op == 0x23u8 || op == 0x33u8 || op == 0x43u8 || op == 0x53u8
        || op == 0x63u8 || op == 0x73u8 || op == 0xC3u8 || op == 0xD3u8 || op == 0xE3u8 || op == 0xF3u8 {
        8u64
    } else {
        0u64
    }
}

/// The opcode is inside the supported instruction set.
pub open spec fn spec_op_supported(op: u8) -> bool {
    spec_base_cycles(op) != 0
}

/// Opcodes whose indexed read charges one extra cycle when the
/// effective address crosses a page boundary.
pub open spec fn spec_has_page_penalty(op: u8) -> bool {
    op == 0x11u8 || op == 0x19u8 || op == 0x1Cu8 || op == 0x1Du8 || op == 0x31u8 || op == 0x39u8
        || op == 0x3Cu8 || op == 0x3Du8 || op == 0x51u8 || op == 0x59u8 || op == 0x5Cu8 || op == 0x5Du8
        || op == 0x71u8 || op == 0x79u8 || op == 0x7Cu8 || op == 0x7Du8 || op == 0xB1u8 || op == 0xB3u8
        || op == 0xB9u8 || op == 0xBCu8 || op == 0xBDu8 || op == 0xBEu8 || op == 0xBFu8 || op == 0xD1u8
        || op == 0xD9u8 || op == 0xDCu8 || op == 0xDDu8 || op == 0xF1u8 || op == 0xF9u8 || op == 0xFCu8
        || op == 0xFDu8
}

/// Whether a branch opcode takes its branch under the given flags.
pub open spec fn spec_branch_cond(op: u8, c: bool, z: bool, v: bool, n: bool) -> bool {
    if op == 0x10 {
        !n
    } else if op == 0x30 {
        n
    } else if op == 0x50 {
        !v
    } else if op == 0x70 {
        v
    } else if op == 0x90 {
        !c
    } else if op == 0xB0 {
        c
    } else if op == 0xD0 {
        !z
    } else {
        z
    }
}

/// The eight conditional branch opcodes.
pub open spec fn spec_is_branch(op: u8) -> bool {
    op == 0x10u8 || op == 0x30u8 || op == 0x50u8 || op == 0x70u8 || op == 0x90u8 || op == 0xB0u8
        || op == 0xD0u8 || op == 0xF0u8
}

/// Looks up the base cycle cost table.
pub fn base_cycles(op: u8) -> (r: u64)
    ensures
        r == spec_base_cycles(op),
{
    if op == 0x09u8 || op == 0x0Au8 || op == 0x10u8 || op == 0x18u8 || op == 0x1Au8 || op == 0x29u8
        || op == 0x2Au8 || op == 0x30u8 || op == 0x38u8 || op == 0x3Au8 || op == 0x49u8 || op == 0x4Au8
        || op == 0x50u8 || op == 0x58u8 || op == 0x5Au8 || op == 0x69u8 || op == 0x6Au8 || op == 0x70u8
        || op == 0x78u8 || op == 0x7Au8 || op == 0x80u8 || op == 0x82u8 || op == 0x88u8 || op == 0x89u8
        || op == 0x8Au8 || op == 0x90u8 || op == 0x98u8 || op == 0x9Au8 || op == 0xA0u8 || op == 0xA2u8
        || op == 0xA8u8 || op == 0xA9u8 || op == 0xAAu8 || op == 0xB0u8 || op == 0xB8u8 || op == 0xBAu8
        || op == 0xC0u8 || op == 0xC2u8 || op == 0xC8u8 || op == 0xC9u8 || op == 0xCAu8 || op == 0xD0u8
        || op == 0xD8u8 || op == 0xDAu8 || op == 0xE0u8 || op == 0xE2u8 || op == 0xE8u8 || op == 0xE9u8
        || op == 0xEAu8 || op == 0xEBu8 || op == 0xF0u8 || op == 0xF8u8 || op == 0xFAu8 {
        2
    } else if op == 0x04u8 || op == 0x05u8 || op == 0x08u8 || op == 0x24u8 || op == 0x25u8 || op == 0x44u8
        || op == 0x45u8 || op == 0x48u8 || op == 0x4Cu8 || op == 0x64u8 || op == 0x65u8 || op == 0x84u8
        || op == 0x85u8 || op == 0x86u8 || op == 0x87u8 || op == 0xA4u8 || op == 0xA5u8 || op == 0xA6u8
        || op == 0xA7u8 || op == 0xC4u8 || op == 0xC5u8 || op == 0xE4u8 || op == 0xE5u8 {
        3
    } else if op == 0x0Cu8 || op == 0x0Du8 || op == 0x14u8 || op == 0x15u8 || op == 0x19u8 || op == 0x1Cu8
        || op == 0x1Du8 || op == 0x28u8 || op == 0x2Cu8 || op == 0x2Du8 || op == 0x34u8 || op == 0x35u8
        || op == 0x39u8 || op == 0x3Cu8 || op == 0x3Du8 || op == 0x4Du8 || op == 0x54u8 || op == 0x55u8
        || op == 0x59u8 || op == 0x5Cu8 || op == 0x5Du8 || op == 0x68u8 || op == 0x6Du8 || op == 0x74u8
        || op == 0x75u8 || op == 0x79u8 || op == 0x7Cu8 || op == 0x7Du8 || op == 0x8Cu8 || op == 0x8Du8
        || op == 0x8Eu8 || op == 0x8Fu8 || op == 0x94u8 || op == 0x95u8 || op == 0x96u8 || op == 0x97u8
        || op == 0xACu8 || op == 0xADu8 || op == 0xAEu8 || op == 0xAFu8 || op == 0xB4u8 || op == 0xB5u8
        || op == 0xB6u8 || op == 0xB7u8 || op == 0xB9u8 || op == 0xBCu8 || op == 0xBDu8 || op == 0xBEu8
        || op == 0xBFu8 || op == 0xCCu8 || op == 0xCDu8 || op == 0xD4u8 || op == 0xD5u8 || op == 0xD9u8
        || op == 0xDCu8 || op == 0xDDu8 || op == 0xECu8 || op == 0xEDu8 || op == 0xF4u8 || op == 0xF5u8
        || op == 0xF9u8 || op == 0xFCu8 || op == 0xFDu8 {
        4
    } else if op == 0x06u8 || op == 0x07u8 || op == 0x11u8 || op == 0x26u8 || op == 0x27u8 || op == 0x31u8
        || op == 0x46u8 || op == 0x47u8 || op == 0x51u8 || op == 0x66u8 || op == 0x67u8 || op == 0x6Cu8
        || op == 0x71u8 || op == 0x99u8 || op == 0x9Du8 || op == 0xB1u8 || op == 0xB3u8 || op == 0xC6u8
        || op == 0xC7u8 || op == 0xD1u8 || op == 0xE6u8 || op == 0xE7u8 || op == 0xF1u8 {
        5
    } else if op == 0x01u8 || op == 0x0Eu8 || op == 0x0Fu8 || op == 0x16u8 || op == 0x17u8 || op == 0x20u8
        || op == 0x21u8 || op == 0x2Eu8 || op == 0x2Fu8 || op == 0x36u8 || op == 0x37u8 || op == 0x40u8
        || op == 0x41u8 || op == 0x4Eu8 || op == 0x4Fu8 || op == 0x56u8 || op == 0x57u8 || op == 0x60u8
        || op == 0x61u8 || op == 0x6Eu8 || op == 0x6Fu8 || op == 0x76u8 || op == 0x77u8 || op == 0x81u8
        || op == 0x83u8 || op == 0x91u8 || op == 0xA1u8 || op == 0xA3u8 || op == 0xC1u8 || op == 0xCEu8
        || op == 0xCFu8 || op == 0xD6u8 || op == 0xD7u8 || op == 0xE1u8 || op == 0xEEu8 || op == 0xEFu8
        || op == 0xF6u8 || op == 0xF7u8 {
        6
    } else if op == 0x00u8 || op == 0x1Bu8 || op == 0x1Eu8 || op == 0x1Fu8 || op == 0x3Bu8 || op == 0x3Eu8
        || op == 0x3Fu8 || op == 0x5Bu8 || op == 0x5Eu8 || op == 0x5Fu8 || op == 0x7Bu8 || op == 0x7Eu8
        || op == 0x7Fu8 || op == 0xDBu8 || op == 0xDEu8 || op == 0xDFu8 || op == 0xFBu8 || op == 0xFEu8
        || op == 0xFFu8 {
        7
    } else if op == 0x03u8 || op == 0x13u8 || op == 0x23u8 || op == 0x33u8 || op == 0x43u8 || op == 0x53u8
        || op == 0x63u8 || op == 0x73u8 || op == 0xC3u8 || op == 0xD3u8 || op == 0xE3u8 || op == 0xF3u8 {
        8
    } else {
        0
    }
}

/// What one `step` reports: the opcode executed and the cycle-cost
/// components it charged.
#[derive(Clone, Copy, Debug, PartialEq, Eq, Structural)]
pub struct StepInfo {
    /// The opcode byte that was fetched and executed.
    pub opcode: u8,
    /// 1 when an indexed read crossed a page and the opcode charges for
    /// it, else 0.
    pub page_penalty: u64,
    /// A branch instruction took its branch.
    pub branch_taken: bool,
    /// The taken branch landed on another page.
    pub branch_page_cross: bool,
    /// 7 when an interrupt was serviced before the instruction, else 0.
    pub interrupt_cycles: u64,
    /// The OAM DMA stall charged by a store to $4014, else 0.
    pub dma_stall: u64,
}

/// The documented cycle cost of a step: interrupt entry, the opcode's
/// base cost, the page-cross penalty, the branch penalties and the DMA
/// stall.
pub open spec fn spec_step_cycles(info: StepInfo) -> int {
    info.interrupt_cycles as int + spec_base_cycles(info.opcode) as int
        + info.page_penalty as int + (if info.branch_taken {
        1int
    } else {
        0int
    }) + (if info.branch_page_cross {
        1int
    } else {
        0int
    }) + info.dma_stall as int
}

impl Cpu {
    /// Registers, flags, the cycle counter and the interrupt latches
    /// agree (the program counter and the bus may differ).
    pub open spec fn spec_frame_eq(self, o: Cpu) -> bool {
        &&& self.a == o.a
        &&& self.x == o.x
        &&& self.y == o.y
        &&& self.s == o.s
        &&& self.flag_c == o.flag_c
        &&& self.flag_z == o.flag_z
        &&& self.flag_i == o.flag_i
        &&& self.flag_d == o.flag_d
        &&& self.flag_v == o.flag_v
        &&& self.flag_n == o.flag_n
        &&& self.cy == o.cy
        &&& self.nmi_pending == o.nmi_pending
        &&& self.irq_pending == o.irq_pending
        &&& self.conditional_jump == o.conditional_jump
    }

    fn ea_zp(&mut self) -> (r: u16)
        requires
            old(self).wf(),
        ensures
            final(self).wf(),
            final(self).spec_frame_eq(*old(self)),
            r < 256,
    {
        self.fetchb() as u16
    }

    fn ea_zpx(&mut self) -> (r: u16)
        requires
            old(self).wf(),
        ensures
            final(self).wf(),
            final(self).spec_frame_eq(*old(self)),
            r < 256,
    {
        let b = self.fetchb();
        (b as u16 + self.x as u16) % 256
    }

    fn ea_zpy(&mut self) -> (r: u16)
        requires
            old(self).wf(),
        ensures
            final(self).wf(),
            final(self).spec_frame_eq(*old(self)),
            r < 256,
    {
        let b = self.fetchb();
        (b as u16 + self.y as u16) % 256
    }

    fn ea_abs(&mut self) -> (r: u16)
        requires
            old(self).wf(),
        ensures
            final(self).wf(),
            final(self).spec_frame_eq(*old(self)),
    {
        self.fetchw()
    }

    fn ea_absx(&mut self) -> (r: (u16, bool))
        requires
            old(self).wf(),
        ensures
            final(self).wf(),
            final(self).spec_frame_eq(*old(self)),
    {
        let w = self.fetchw();
        let ea: u16 = ((w as u32 + self.x as u32) % 65536) as u16;
        let crossed: bool = w % 256 + self.x as u16 > 255;
        (ea, crossed)
    }

    fn ea_absy(&mut self) -> (r: (u16, bool))
        requires
            old(self).wf(),
        ensures
            final(self).wf(),
            final(self).spec_frame_eq(*old(self)),
    {
        let w = self.fetchw();
        let ea: u16 = ((w as u32 + self.y as u32) % 65536) as u16;
        let crossed: bool = w % 256 + self.y as u16 > 255;
        (ea, crossed)
    }

    fn ea_indx(&mut self) -> (r: u16)
        requires
            old(self).wf(),
        ensures
            final(self).wf(),
            final(self).spec_frame_eq(*old(self)),
    {
        let b = self.fetchb();
        let p: u16 = (b as u16 + self.x as u16) % 256;
        let lo = self.read(p);
        let hi = self.read((p + 1) % 256);
        lo as u16 + hi as u16 * 256
    }

    fn ea_indy(&mut self) -> (r: (u16, bool))
        requires
            old(self).wf(),
        ensures
            final(self).wf(),
            final(self).spec_frame_eq(*old(self)),
    {
        let b = self.fetchb();
        let lo = self.read(b as u16);
        let hi = self.read((b as u16 + 1) % 256);
        let base: u16 = lo as u16 + hi as u16 * 256;
        let ea: u16 = ((base as u32 + self.y as u32) % 65536) as u16;
        let crossed: bool = lo as u16 + self.y as u16 > 255;
        (ea, crossed)
    }

    /// Fetches the branch displacement and, when the condition holds,
    /// retargets PC; reports whether the branch was taken and whether
    /// it crossed a page.
    fn do_branch(&mut self, cond: bool) -> (r: (bool, bool))
        requires
            old(self).wf(),
        ensures
            final(self).wf(),
            final(self).a == old(self).a && final(self).x == old(self).x && final(self).y == old(self).y
                && final(self).s == old(self).s,
            final(self).cy == old(self).cy,
            final(self).flag_c == old(self).flag_c && final(self).flag_z == old(self).flag_z
                && final(self).flag_i == old(self).flag_i && final(self).flag_d == old(self).flag_d
                && final(self).flag_v == old(self).flag_v && final(self).flag_n == old(self).flag_n,
            final(self).nmi_pending == old(self).nmi_pending && final(self).irq_pending == old(self).irq_pending,
            final(self).conditional_jump == old(self).conditional_jump,
            r.1 ==> r.0,
            !cond ==> !r.0 && !r.1,
            cond ==> r.0,
    {
        let off = self.fetchb();
        if !cond {
            return (false, false);
        }
        let base = self.pc;
        let target: u16 = if off >= 128 {
            ((base as u32 + off as u32 + 65536 - 256) % 65536) as u16
        } else {
            ((base as u32 + off as u32) % 65536) as u16
        };
        let crossed: bool = target / 256 != base / 256;
        self.pc = target;
        (true, crossed)
    }














    /// One slice of the instruction dispatcher.  Returns the page
    /// penalty charged, the branch outcome and the DMA stall.
    #[verifier::rlimit(100)]
    #[verifier::spinoff_prover]
    fn exec_c0_lo(&mut self, op: u8) -> (r: (u64, bool, bool, u64))
        requires
            old(self).wf(),
            op % 4 == 0,
            0x00 <= op <= 0x7F,
        ensures
            final(self).wf(),
            final(self).cy == old(self).cy,
            r.0 <= 1,
            r.0 == 1 ==> spec_has_page_penalty(op),
            r.1 ==> spec_is_branch(op),
            r.2 ==> r.1,
            !spec_is_branch(op) ==> !r.1 && !r.2,
            r.3 == 0 || r.3 as int == 513 + old(self).cy as int % 2,
            final(self).conditional_jump == (old(self).conditional_jump || spec_is_branch(op)),
            final(self).nmi_pending == old(self).nmi_pending,
            op == 0x10 ==> r.1 == !old(self).flag_n,
            op == 0x30 ==> r.1 == old(self).flag_n,
            op == 0x50 ==> r.1 == !old(self).flag_v,
            op == 0x70 ==> r.1 == old(self).flag_v,
    {
        let mut pen: u64 = 0;
        let mut btaken: bool = false;
        let mut bcross: bool = false;
        let mut stall: u64 = 0;
        match op {
            0x00 => {
                let _pad: u8 = self.fetchb();
                self.interrupt(0xFFFE, true);
            
            
            
            },
            0x04 => {
                let ea: u16 = self.ea_zp();
                let v: u8 = self.read(ea);
            
            
            
            },
            0x08 => {
                let v: u8 = self.flags_byte(true);
                self.push(v);
            
            
            
            },
            0x0C => {
                let ea: u16 = self.ea_abs();
                let v: u8 = self.read(ea);
            
            
            
            },
            0x10 => {
                let cond: bool = !self.flag_n;
                let tc: (bool, bool) = self.do_branch(cond);
                btaken = tc.0;
                bcross = tc.1;
                self.conditional_jump = true;
            
            
            
            },
            0x14 => {
                let ea: u16 = self.ea_zpx();
                let v: u8 = self.read(ea);
            
            
            
            },
            0x18 => {
                self.flag_c = false;
            
            
            
            },
            0x1C => {
                let (ea, crossed): (u16, bool) = self.ea_absx();
                let v: u8 = self.read(ea);
                if crossed {
                    pen = 1;
                }
            
            
            
            },
            0x20 => {
                let lo: u8 = self.fetchb();
                let ret: u16 = self.pc;
                self.push((ret / 256) as u8);
                self.push((ret % 256) as u8);
                let hi: u8 = self.read(ret);
                self.pc = lo as u16 + hi as u16 * 256;
            
            
            
            },
            0x24 => {
                let ea: u16 = self.ea_zp();
                let v: u8 = self.read(ea);
                self.flag_z = (self.a & v) == 0;
                self.flag_n = v >= 128;
                self.flag_v = (v / 64) % 2 == 1;
            
            
            
            },
            0x28 => {
                let v: u8 = self.pop();
                self.set_flags_byte(v);
            
            
            
            },
            0x2C => {
                let ea: u16 = self.ea_abs();
                let v: u8 = self.read(ea);
                self.flag_z = (self.a & v) == 0;
                self.flag_n = v >= 128;
                self.flag_v = (v / 64) % 2 == 1;
            
            
            
            },
            0x30 => {
                let cond: bool = self.flag_n;
                let tc: (bool, bool) = self.do_branch(cond);
                btaken = tc.0;
                bcross = tc.1;
                self.conditional_jump = true;
            
            
            
            },
            0x34 => {
                let ea: u16 = self.ea_zpx();
                let v: u8 = self.read(ea);
            
            
            
            },
            0x38 => {
                self.flag_c = true;
            
            
            
            },
            0x3C => {
                let (ea, crossed): (u16, bool) = self.ea_absx();
                let v: u8 = self.read(ea);
                if crossed {
                    pen = 1;
                }
            
            
            
            },
            0x40 => {
                let p: u8 = self.pop();
                self.set_flags_byte(p);
                let lo: u8 = self.pop();
                let hi: u8 = self.pop();
                self.pc = lo as u16 + hi as u16 * 256;
            
            
            
            },
            0x44 => {
                let ea: u16 = self.ea_zp();
                let v: u8 = self.read(ea);
            
            
            
            },
            0x48 => {
                let v: u8 = self.a;
                self.push(v);
            
            
            
            },
            0x4C => {
                let ea: u16 = self.ea_abs();
                self.pc = ea;
            
            
            
            },
            0x50 => {
                let cond: bool = !self.flag_v;
                let tc: (bool, bool) = self.do_branch(cond);
                btaken = tc.0;
                bcross = tc.1;
                self.conditional_jump = true;
            
            
            
            },
            0x54 => {
                let ea: u16 = self.ea_zpx();
                let v: u8 = self.read(ea);
            
            
            
            },
            0x58 => {
                self.flag_i = false;
            
            
            
            },
            0x5C => {
                let (ea, crossed): (u16, bool) = self.ea_absx();
                let v: u8 = self.read(ea);
                if crossed {
                    pen = 1;
                }
            
            
            
            },
            0x60 => {
                let lo: u8 = self.pop();
                let hi: u8 = self.pop();
                self.pc = ((lo as u32 + hi as u32 * 256 + 1) % 65536) as u16;
            
            
            
            },
            0x64 => {
                let ea: u16 = self.ea_zp();
                let v: u8 = self.read(ea);
            
            
            
            },
            0x68 => {
                let v: u8 = self.pop();
                self.a = v;
                self.set_zn(v);
            
            
            
            },
            0x6C => {
                let w: u16 = self.fetchw();
                let lo: u8 = self.read(w);
                let hi_addr: u16 = w - w % 256 + (w % 256 + 1) % 256;
                let hi: u8 = self.read(hi_addr);
                self.pc = lo as u16 + hi as u16 * 256;
            
            
            
            },
            0x70 => {
                let cond: bool = self.flag_v;
                let tc: (bool, bool) = self.do_branch(cond);
                btaken = tc.0;
                bcross = tc.1;
                self.conditional_jump = true;
            
            
            
            },
            0x74 => {
                let ea: u16 = self.ea_zpx();
                let v: u8 = self.read(ea);
            
            
            
            },
            0x78 => {
                self.flag_i = true;
            
            
            
            },
            0x7C => {
                let (ea, crossed): (u16, bool) = self.ea_absx();
                let v: u8 = self.read(ea);
                if crossed {
                    pen = 1;
                }
            
            
            
            },
            _ => {
            },
        }
        (pen, btaken, bcross, stall)
    }

    /// One slice of the instruction dispatcher.  Returns the page
    /// penalty charged, the branch outcome and the DMA stall.
    #[verifier::rlimit(100)]
    #[verifier::spinoff_prover]
    fn exec_c0_hi(&mut self, op: u8) -> (r: (u64, bool, bool, u64))
        requires
            old(self).wf(),
            op % 4 == 0,
            0x80 <= op <= 0xFF,
        ensures
            final(self).wf(),
            final(self).cy == old(self).cy,
            r.0 <= 1,
            r.0 == 1 ==> spec_has_page_penalty(op),
            r.1 ==> spec_is_branch(op),
            r.2 ==> r.1,
            !spec_is_branch(op) ==> !r.1 && !r.2,
            r.3 == 0 || r.3 as int == 513 + old(self).cy as int % 2,
            final(self).conditional_jump == (old(self).conditional_jump || spec_is_branch(op)),
            final(self).nmi_pending == old(self).nmi_pending,
            op == 0x90 ==> r.1 == !old(self).flag_c,
            op == 0xB0 ==> r.1 == old(self).flag_c,
            op == 0xD0 ==> r.1 == !old(self).flag_z,
            op == 0xF0 ==> r.1 == old(self).flag_z,
    {
        let mut pen: u64 = 0;
        let mut btaken: bool = false;
        let mut bcross: bool = false;
        let mut stall: u64 = 0;
        match op {
            0x80 => {
                let v: u8 = self.fetchb();
            
            
            
            },
            0x84 => {
                let ea: u16 = self.ea_zp();
                let v: u8 = self.y;
                stall = stall + self.write(ea, v);
            
            
            
            },
            0x88 => {
                let v: u8 = ((self.y as u16 + 255) % 256) as u8;
                self.y = v;
                self.set_zn(v);
            
            
            
            },
            0x8C => {
                let ea: u16 = self.ea_abs();
                let v: u8 = self.y;
                stall = stall + self.write(ea, v);
            
            
            
            },
            0x90 => {
                let cond: bool = !self.flag_c;
                let tc: (bool, bool) = self.do_branch(cond);
                btaken = tc.0;
                bcross = tc.1;
                self.conditional_jump = true;
            
            
            
            },
            0x94 => {
                let ea: u16 = self.ea_zpx();
                let v: u8 = self.y;
                stall = stall + self.write(ea, v);
            
            
            
            },
            0x98 => {
                let v: u8 = self.y;
                self.a = v;
                self.set_zn(v);
            
            
            
            },
            0xA0 => {
                let v: u8 = self.fetchb();
                self.y = v;
                self.set_zn(v);
            
            
            
            },
            0xA4 => {
                let ea: u16 = self.ea_zp();
                let v: u8 = self.read(ea);
                self.y = v;
                self.set_zn(v);
            
            
            
            },
            0xA8 => {
                let v: u8 = self.a;
                self.y = v;
                self.set_zn(v);
            
            
            
            },
            0xAC => {
                let ea: u16 = self.ea_abs();
                let v: u8 = self.read(ea);
                self.y = v;
                self.set_zn(v);
            
            
            
            },
            0xB0 => {
                let cond: bool = self.flag_c;
                let tc: (bool, bool) = self.do_branch(cond);
                btaken = tc.0;
                bcross = tc.1;
                self.conditional_jump = true;
            
            
            
            },
            0xB4 => {
                let ea: u16 = self.ea_zpx();
                let v: u8 = self.read(ea);
                self.y = v;
                self.set_zn(v);
            
            
            
            },
            0xB8 => {
                self.flag_v = false;
            
            
            
            },
            0xBC => {
                let (ea, crossed): (u16, bool) = self.ea_absx();
                let v: u8 = self.read(ea);
                if crossed {
                    pen = 1;
                }
                self.y = v;
                self.set_zn(v);
            
            
            
            },
            0xC0 => {
                let v: u8 = self.fetchb();
                let y0: u8 = self.y;
                self.compare(y0, v);
            
            
            
            },
            0xC4 => {
                let ea: u16 = self.ea_zp();
                let v: u8 = self.read(ea);
                let y0: u8 = self.y;
                self.compare(y0, v);
            
            
            
            },
            0xC8 => {
                let v: u8 = ((self.y as u16 + 1) % 256) as u8;
                self.y = v;
                self.set_zn(v);
            
            
            
            },
            0xCC => {
                let ea: u16 = self.ea_abs();
                let v: u8 = self.read(ea);
                let y0: u8 = self.y;
                self.compare(y0, v);
            
            
            
            },
            0xD0 => {
                let cond: bool = !self.flag_z;
                let tc: (bool, bool) = self.do_branch(cond);
                btaken = tc.0;
                bcross = tc.1;
                self.conditional_jump = true;
            
            
            
            },
            0xD4 => {
                let ea: u16 = self.ea_zpx();
                let v: u8 = self.read(ea);
            
            
            
            },
            0xD8 => {
                self.flag_d = false;
            
            
            
            },
            0xDC => {
                let (ea, crossed): (u16, bool) = self.ea_absx();
                let v: u8 = self.read(ea);
                if crossed {
                    pen = 1;
                }
            
            
            
            },
            0xE0 => {
                let v: u8 = self.fetchb();
                let x0: u8 = self.x;
                self.compare(x0, v);
            
            
            
            },
            0xE4 => {
                let ea: u16 = self.ea_zp();
                let v: u8 = self.read(ea);
                let x0: u8 = self.x;
                self.compare(x0, v);
            
            
            
            },
            0xE8 => {
                let v: u8 = ((self.x as u16 + 1) % 256) as u8;
                self.x = v;
                self.set_zn(v);
            
            
            
            },
            0xEC => {
                let ea: u16 = self.ea_abs();
                let v: u8 = self.read(ea);
                let x0: u8 = self.x;
                self.compare(x0, v);
            
            
            
            },
            0xF0 => {
                let cond: bool = self.flag_z;
                let tc: (bool, bool) = self.do_branch(cond);
                btaken = tc.0;
                bcross = tc.1;
                self.conditional_jump = true;
            
            
            
            },
            0xF4 => {
                let ea: u16 = self.ea_zpx();
                let v: u8 = self.read(ea);
            
            
            
            },
            0xF8 => {
                self.flag_d = true;
            
            
            
            },
            0xFC => {
                let (ea, crossed): (u16, bool) = self.ea_absx();
                let v: u8 = self.read(ea);
                if crossed {
                    pen = 1;
                }
            
            
            
            },
            _ => {
            },
        }
        (pen, btaken, bcross, stall)
    }

    /// One slice of the instruction dispatcher.  Returns the page
    /// penalty charged, the branch outcome and the DMA stall.
    #[verifier::rlimit(100)]
    #[verifier::spinoff_prover]
    fn exec_c1_lo(&mut self, op: u8) -> (r: (u64, bool, bool, u64))
        requires
            old(self).wf(),
            op % 4 == 1,
            0x00 <= op <= 0x7F,
        ensures
            final(self).wf(),
            final(self).cy == old(self).cy,
            r.0 <= 1,
            r.0 == 1 ==> spec_has_page_penalty(op),
            r.1 ==> spec_is_branch(op),
            r.2 ==> r.1,
            !spec_is_branch(op) ==> !r.1 && !r.2,
            r.3 == 0 || r.3 as int == 513 + old(self).cy as int % 2,
            final(self).conditional_jump == (old(self).conditional_jump || spec_is_branch(op)),
            final(self).nmi_pending == old(self).nmi_pending,
    {
        let mut pen: u64 = 0;
        let mut btaken: bool = false;
        let mut bcross: bool = false;
        let mut stall: u64 = 0;
        match op {
            0x01 => {
                let ea: u16 = self.ea_indx();
                let v: u8 = self.read(ea);
                let r: u8 = self.a | v;
                self.a = r;
                self.set_zn(r);
            
            
            
            },
            0x05 => {
                let ea: u16 = self.ea_zp();
                let v: u8 = self.read(ea);
                let r: u8 = self.a | v;
                self.a = r;
                self.set_zn(r);
            
            
            
            },
            0x09 => {
                let v: u8 = self.fetchb();
                let r: u8 = self.a | v;
                self.a = r;
                self.set_zn(r);
            
            
            
            },
            0x0D => {
                let ea: u16 = self.ea_abs();
                let v: u8 = self.read(ea);
                let r: u8 = self.a | v;
                self.a = r;
                self.set_zn(r);
            
            
            
            },
            0x11 => {
                let (ea, crossed): (u16, bool) = self.ea_indy();
                let v: u8 = self.read(ea);
                if crossed {
                    pen = 1;
                }
                let r: u8 = self.a | v;
                self.a = r;
                self.set_zn(r);
            
            
            
            },
            0x15 => {
                let ea: u16 = self.ea_zpx();
                let v: u8 = self.read(ea);
                let r: u8 = self.a | v;
                self.a = r;
                self.set_zn(r);
            
            
            
            },
            0x19 => {
                let (ea, crossed): (u16, bool) = self.ea_absy();
                let v: u8 = self.read(ea);
                if crossed {
                    pen = 1;
                }
                let r: u8 = self.a | v;
                self.a = r;
                self.set_zn(r);
            
            
            
            },
            0x1D => {
                let (ea, crossed): (u16, bool) = self.ea_absx();
                let v: u8 = self.read(ea);
                if crossed {
                    pen = 1;
                }
                let r: u8 = self.a | v;
                self.a = r;
                self.set_zn(r);
            
            
            
            },
            0x21 => {
                let ea: u16 = self.ea_indx();
                let v: u8 = self.read(ea);
                let r: u8 = self.a & v;
                self.a = r;
                self.set_zn(r);
            
            
            
            },
            0x25 => {
                let ea: u16 = self.ea_zp();
                let v: u8 = self.read(ea);
                let r: u8 = self.a & v;
                self.a = r;
                self.set_zn(r);
            
            
            
            },
            0x29 => {
                let v: u8 = self.fetchb();
                let r: u8 = self.a & v;
                self.a = r;
                self.set_zn(r);
            
            
            
            },
            0x2D => {
                let ea: u16 = self.ea_abs();
                let v: u8 = self.read(ea);
                let r: u8 = self.a & v;
                self.a = r;
                self.set_zn(r);
            
            
            
            },
            0x31 => {
                let (ea, crossed): (u16, bool) = self.ea_indy();
                let v: u8 = self.read(ea);
                if crossed {
                    pen = 1;
                }
                let r: u8 = self.a & v;
                self.a = r;
                self.set_zn(r);
            
            
            
            },
            0x35 => {
                let ea: u16 = self.ea_zpx();
                let v: u8 = self.read(ea);
                let r: u8 = self.a & v;
                self.a = r;
                self.set_zn(r);
            
            
            
            },
            0x39 => {
                let (ea, crossed): (u16, bool) = self.ea_absy();
                let v: u8 = self.read(ea);
                if crossed {
                    pen = 1;
                }
                let r: u8 = self.a & v;
                self.a = r;
                self.set_zn(r);
            
            
            
            },
            0x3D => {
                let (ea, crossed): (u16, bool) = self.ea_absx();
                let v: u8 = self.read(ea);
                if crossed {
                    pen = 1;
                }
                let r: u8 = self.a & v;
                self.a = r;
                self.set_zn(r);
            
            
            
            },
            0x41 => {
                let ea: u16 = self.ea_indx();
                let v: u8 = self.read(ea);
                let r: u8 = self.a ^ v;
                self.a = r;
                self.set_zn(r);
            
            
            
            },
            0x45 => {
                let ea: u16 = self.ea_zp();
                let v: u8 = self.read(ea);
                let r: u8 = self.a ^ v;
                self.a = r;
                self.set_zn(r);
            
            
            
            },
            0x49 => {
                let v: u8 = self.fetchb();
                let r: u8 = self.a ^ v;
                self.a = r;
                self.set_zn(r);
            
            
            
            },
            0x4D => {
                let ea: u16 = self.ea_abs();
                let v: u8 = self.read(ea);
                let r: u8 = self.a ^ v;
                self.a = r;
                self.set_zn(r);
            
            
            
            },
            0x51 => {
                let (ea, crossed): (u16, bool) = self.ea_indy();
                let v: u8 = self.read(ea);
                if crossed {
                    pen = 1;
                }
                let r: u8 = self.a ^ v;
                self.a = r;
                self.set_zn(r);
            
            
            
            },
            0x55 => {
                let ea: u16 = self.ea_zpx();
                let v: u8 = self.read(ea);
                let r: u8 = self.a ^ v;
                self.a = r;
                self.set_zn(r);
            
            
            
            },
            0x59 => {
                let (ea, crossed): (u16, bool) = self.ea_absy();
                let v: u8 = self.read(ea);
                if crossed {
                    pen = 1;
                }
                let r: u8 = self.a ^ v;
                self.a = r;
                self.set_zn(r);
            
            
            
            },
            0x5D => {
                let (ea, crossed): (u16, bool) = self.ea_absx();
                let v: u8 = self.read(ea);
                if crossed {
                    pen = 1;
                }
                let r: u8 = self.a ^ v;
                self.a = r;
                self.set_zn(r);
            
            
            
            },
            0x61 => {
                let ea: u16 = self.ea_indx();
                let v: u8 = self.read(ea);
                self.adc(v);
            
            
            
            },
            0x65 => {
                let ea: u16 = self.ea_zp();
                let v: u8 = self.read(ea);
                self.adc(v);
            
            
            
            },
            0x69 => {
                let v: u8 = self.fetchb();
                self.adc(v);
            
            
            
            },
            0x6D => {
                let ea: u16 = self.ea_abs();
                let v: u8 = self.read(ea);
                self.adc(v);
            
            
            
            },
            0x71 => {
                let (ea, crossed): (u16, bool) = self.ea_indy();
                let v: u8 = self.read(ea);
                if crossed {
                    pen = 1;
                }
                self.adc(v);
            
            
            
            },
            0x75 => {
                let ea: u16 = self.ea_zpx();
                let v: u8 = self.read(ea);
                self.adc(v);
            
            
            
            },
            0x79 => {
                let (ea, crossed): (u16, bool) = self.ea_absy();
                let v: u8 = self.read(ea);
                if crossed {
                    pen = 1;
                }
                self.adc(v);
            
            
            
            },
            0x7D => {
                let (ea, crossed): (u16, bool) = self.ea_absx();
                let v: u8 = self.read(ea);
                if crossed {
                    pen = 1;
                }
                self.adc(v);
            
            
            
            },
            _ => {
            },
        }
        (pen, btaken, bcross, stall)
    }

    /// One slice of the instruction dispatcher.  Returns the page
    /// penalty charged, the branch outcome and the DMA stall.
    #[verifier::rlimit(100)]
    #[verifier::spinoff_prover]
    fn exec_c1_hi(&mut self, op: u8) -> (r: (u64, bool, bool, u64))
        requires
            old(self).wf(),
            op % 4 == 1,
            0x80 <= op <= 0xFF,
        ensures
            final(self).wf(),
            final(self).cy == old(self).cy,
            r.0 <= 1,
            r.0 == 1 ==> spec_has_page_penalty(op),
            r.1 ==> spec_is_branch(op),
            r.2 ==> r.1,
            !spec_is_branch(op) ==> !r.1 && !r.2,
            r.3 == 0 || r.3 as int == 513 + old(self).cy as int % 2,
            final(self).conditional_jump == (old(self).conditional_jump || spec_is_branch(op)),
            final(self).nmi_pending == old(self).nmi_pending,
    {
        let mut pen: u64 = 0;
        let mut btaken: bool = false;
        let mut bcross: bool = false;
        let mut stall: u64 = 0;
        match op {
            0x81 => {
                let ea: u16 = self.ea_indx();
                let v: u8 = self.a;
                stall = stall + self.write(ea, v);
            
            
            
            },
            0x85 => {
                let ea: u16 = self.ea_zp();
                let v: u8 = self.a;
                stall = stall + self.write(ea, v);
            
            
            
            },
            0x89 => {
                let v: u8 = self.fetchb();
            
            
            
            },
            0x8D => {
                let ea: u16 = self.ea_abs();
                let v: u8 = self.a;
                stall = stall + self.write(ea, v);
            
            
            
            },
            0x91 => {
                let (ea, _crossed): (u16, bool) = self.ea_indy();
                let v: u8 = self.a;
                stall = stall + self.write(ea, v);
            
            
            
            },
            0x95 => {
                let ea: u16 = self.ea_zpx();
                let v: u8 = self.a;
                stall = stall + self.write(ea, v);
            
            
            
            },
            0x99 => {
                let (ea, _crossed): (u16, bool) = self.ea_absy();
                let v: u8 = self.a;
                stall = stall + self.write(ea, v);
            
            
            
            },
            0x9D => {
                let (ea, _crossed): (u16, bool) = self.ea_absx();
                let v: u8 = self.a;
                stall = stall + self.write(ea, v);
            
            
            
            },
            0xA1 => {
                let ea: u16 = self.ea_indx();
                let v: u8 = self.read(ea);
                self.a = v;
                self.set_zn(v);
            
            
            
            },
            0xA5 => {
                let ea: u16 = self.ea_zp();
                let v: u8 = self.read(ea);
                self.a = v;
                self.set_zn(v);
            
            
            
            },
            0xA9 => {
                let v: u8 = self.fetchb();
                self.a = v;
                self.set_zn(v);
            
            
            
            },
            0xAD => {
                let ea: u16 = self.ea_abs();
                let v: u8 = self.read(ea);
                self.a = v;
                self.set_zn(v);
            
            
            
            },
            0xB1 => {
                let (ea, crossed): (u16, bool) = self.ea_indy();
                let v: u8 = self.read(ea);
                if crossed {
                    pen = 1;
                }
                self.a = v;
                self.set_zn(v);
            
            
            
            },
            0xB5 => {
                let ea: u16 = self.ea_zpx();
                let v: u8 = self.read(ea);
                self.a = v;
                self.set_zn(v);
            
            
            
            },
            0xB9 => {
                let (ea, crossed): (u16, bool) = self.ea_absy();
                let v: u8 = self.read(ea);
                if crossed {
                    pen = 1;
                }
                self.a = v;
                self.set_zn(v);
            
            
            
            },
            0xBD => {
                let (ea, crossed): (u16, bool) = self.ea_absx();
                let v: u8 = self.read(ea);
                if crossed {
                    pen = 1;
                }
                self.a = v;
                self.set_zn(v);
            
            
            
            },
            0xC1 => {
                let ea: u16 = self.ea_indx();
                let v: u8 = self.read(ea);
                let a0: u8 = self.a;
                self.compare(a0, v);
            
            
            
            },
            0xC5 => {
                let ea: u16 = self.ea_zp();
                let v: u8 = self.read(ea);
                let a0: u8 = self.a;
                self.compare(a0, v);
            
            
            
            },
            0xC9 => {
                let v: u8 = self.fetchb();
                let a0: u8 = self.a;
                self.compare(a0, v);
            
            
            
            },
            0xCD => {
                let ea: u16 = self.ea_abs();
                let v: u8 = self.read(ea);
                let a0: u8 = self.a;
                self.compare(a0, v);
            
            
            
            },
            0xD1 => {
                let (ea, crossed): (u16, bool) = self.ea_indy();
                let v: u8 = self.read(ea);
                if crossed {
                    pen = 1;
                }
                let a0: u8 = self.a;
                self.compare(a0, v);
            
            
            
            },
            0xD5 => {
                let ea: u16 = self.ea_zpx();
                let v: u8 = self.read(ea);
                let a0: u8 = self.a;
                self.compare(a0, v);
            
            
            
            },
            0xD9 => {
                let (ea, crossed): (u16, bool) = self.ea_absy();
                let v: u8 = self.read(ea);
                if crossed {
                    pen = 1;
                }
                let a0: u8 = self.a;
                self.compare(a0, v);
            
            
            
            },
            0xDD => {
                let (ea, crossed): (u16, bool) = self.ea_absx();
                let v: u8 = self.read(ea);
                if crossed {
                    pen = 1;
                }
                let a0: u8 = self.a;
                self.compare(a0, v);
            
            
            
            },
            0xE1 => {
                let ea: u16 = self.ea_indx();
                let v: u8 = self.read(ea);
                self.sbc(v);
            
            
            
            },
            0xE5 => {
                let ea: u16 = self.ea_zp();
                let v: u8 = self.read(ea);
                self.sbc(v);
            
            
            
            },
            0xE9 => {
                let v: u8 = self.fetchb();
                self.sbc(v);
            
            
            
            },
            0xED => {
                let ea: u16 = self.ea_abs();
                let v: u8 = self.read(ea);
                self.sbc(v);
            
            
            
            },
            0xF1 => {
                let (ea, crossed): (u16, bool) = self.ea_indy();
                let v: u8 = self.read(ea);
                if crossed {
                    pen = 1;
                }
                self.sbc(v);
            
            
            
            },
            0xF5 => {
                let ea: u16 = self.ea_zpx();
                let v: u8 = self.read(ea);
                self.sbc(v);
            
            
            
            },
            0xF9 => {
                let (ea, crossed): (u16, bool) = self.ea_absy();
                let v: u8 = self.read(ea);
                if crossed {
                    pen = 1;
                }
                self.sbc(v);
            
            
            
            },
            0xFD => {
                let (ea, crossed): (u16, bool) = self.ea_absx();
                let v: u8 = self.read(ea);
                if crossed {
                    pen = 1;
                }
                self.sbc(v);
            
            
            
            },
            _ => {
            },
        }
        (pen, btaken, bcross, stall)
    }



    /// One slice of the instruction dispatcher.  Returns the page
    /// penalty charged, the branch outcome and the DMA stall.
    #[verifier::rlimit(100)]
    #[verifier::spinoff_prover]
    fn exec_c2_lo_a1_p0(&mut self, op: u8) -> (r: (u64, bool, bool, u64))
        requires
            old(self).wf(),
            op % 4 == 2,
        ensures
            final(self).wf(),
            final(self).cy == old(self).cy,
            r.0 <= 1,
            r.0 == 1 ==> spec_has_page_penalty(op),
            r.1 ==> spec_is_branch(op),
            r.2 ==> r.1,
            !spec_is_branch(op) ==> !r.1 && !r.2,
            r.3 == 0 || r.3 as int == 513 + old(self).cy as int % 2,
            final(self).conditional_jump == (old(self).conditional_jump || spec_is_branch(op)),
            final(self).nmi_pending == old(self).nmi_pending,
    {
        let mut pen: u64 = 0;
        let mut btaken: bool = false;
        let mut bcross: bool = false;
        let mut stall: u64 = 0;
        match op {
            0x06 => {
                let ea: u16 = self.ea_zp();
                let v: u8 = self.read(ea);
                let r: u8 = ((v as u16 * 2) % 256) as u8;
                self.flag_c = v >= 128;
                stall = stall + self.write(ea, r);
                self.set_zn(r);
            
            
            
            
            
            },
            0x0A => {
                let v: u8 = self.a;
                let r: u8 = ((v as u16 * 2) % 256) as u8;
                self.flag_c = v >= 128;
                self.a = r;
                self.set_zn(r);
            
            
            
            
            
            },
            _ => {
            },
        }
        (pen, btaken, bcross, stall)
    }

    /// One slice of the instruction dispatcher.  Returns the page
    /// penalty charged, the branch outcome and the DMA stall.
    #[verifier::rlimit(100)]
    #[verifier::spinoff_prover]
    fn exec_c2_lo_a1_p1(&mut self, op: u8) -> (r: (u64, bool, bool, u64))
        requires
            old(self).wf(),
            op % 4 == 2,
        ensures
            final(self).wf(),
            final(self).cy == old(self).cy,
            r.0 <= 1,
            r.0 == 1 ==> spec_has_page_penalty(op),
            r.1 ==> spec_is_branch(op),
            r.2 ==> r.1,
            !spec_is_branch(op) ==> !r.1 && !r.2,
            r.3 == 0 || r.3 as int == 513 + old(self).cy as int % 2,
            final(self).conditional_jump == (old(self).conditional_jump || spec_is_branch(op)),
            final(self).nmi_pending == old(self).nmi_pending,
    {
        let mut pen: u64 = 0;
        let mut btaken: bool = false;
        let mut bcross: bool = false;
        let mut stall: u64 = 0;
        match op {
            0x0E => {
                let ea: u16 = self.ea_abs();
                let v: u8 = self.read(ea);
                let r: u8 = ((v as u16 * 2) % 256) as u8;
                self.flag_c = v >= 128;
                stall = stall + self.write(ea, r);
                self.set_zn(r);
            
            
            
            
            
            },
            0x16 => {
                let ea: u16 = self.ea_zpx();
                let v: u8 = self.read(ea);
                let r: u8 = ((v as u16 * 2) % 256) as u8;
                self.flag_c = v >= 128;
                stall = stall + self.write(ea, r);
                self.set_zn(r);
            
            
            
            
            
            },
            _ => {
            },
        }
        (pen, btaken, bcross, stall)
    }

    /// One slice of the instruction dispatcher.  Returns the page
    /// penalty charged, the branch outcome and the DMA stall.
    #[verifier::rlimit(100)]
    #[verifier::spinoff_prover]
    fn exec_c2_lo_a1_p2(&mut self, op: u8) -> (r: (u64, bool, bool, u64))
        requires
            old(self).wf(),
            op % 4 == 2,
        ensures
            final(self).wf(),
            final(self).cy == old(self).cy,
            r.0 <= 1,
            r.0 == 1 ==> spec_has_page_penalty(op),
            r.1 ==> spec_is_branch(op),
            r.2 ==> r.1,
            !spec_is_branch(op) ==> !r.1 && !r.2,
            r.3 == 0 || r.3 as int == 513 + old(self).cy as int % 2,
            final(self).conditional_jump == (old(self).conditional_jump || spec_is_branch(op)),
            final(self).nmi_pending == old(self).nmi_pending,
    {
        let mut pen: u64 = 0;
        let mut btaken: bool = false;
        let mut bcross: bool = false;
        let mut stall: u64 = 0;
        match op {
            0x1A => {
            
            
            
            
            
            },
            0x1E => {
                let (ea, _crossed): (u16, bool) = self.ea_absx();
                let v: u8 = self.read(ea);
                let r: u8 = ((v as u16 * 2) % 256) as u8;
                self.flag_c = v >= 128;
                stall = stall + self.write(ea, r);
                self.set_zn(r);
            
            
            
            
            
            },
            _ => {
            },
        }
        (pen, btaken, bcross, stall)
    }

    /// One slice of the instruction dispatcher.  Returns the page
    /// penalty charged, the branch outcome and the DMA stall.
    fn exec_c2_lo_a1(&mut self, op: u8) -> (r: (u64, bool, bool, u64))
        requires
            old(self).wf(),
            op % 4 == 2,
        ensures
            final(self).wf(),
            final(self).cy == old(self).cy,
            r.0 <= 1,
            r.0 == 1 ==> spec_has_page_penalty(op),
            r.1 ==> spec_is_branch(op),
            r.2 ==> r.1,
            !spec_is_branch(op) ==> !r.1 && !r.2,
            r.3 == 0 || r.3 as int == 513 + old(self).cy as int % 2,
            final(self).conditional_jump == (old(self).conditional_jump || spec_is_branch(op)),
            final(self).nmi_pending == old(self).nmi_pending,
    {
        if op <= 0x0A {
            self.exec_c2_lo_a1_p0(op)
        } else if op <= 0x16 {
            self.exec_c2_lo_a1_p1(op)
        } else {
            self.exec_c2_lo_a1_p2(op)
        }
    }


    /// One slice of the instruction dispatcher.  Returns the page
    /// penalty charged, the branch outcome and the DMA stall.
    #[verifier::rlimit(100)]
    #[verifier::spinoff_prover]
    fn exec_c2_lo_a2_p0(&mut self, op: u8) -> (r: (u64, bool, bool, u64))
        requires
            old(self).wf(),
            op % 4 == 2,
        ensures
            final(self).wf(),
            final(self).cy == old(self).cy,
            r.0 <= 1,
            r.0 == 1 ==> spec_has_page_penalty(op),
            r.1 ==> spec_is_branch(op),
            r.2 ==> r.1,
            !spec_is_branch(op) ==> !r.1 && !r.2,
            r.3 == 0 || r.3 as int == 513 + old(self).cy as int % 2,
            final(self).conditional_jump == (old(self).conditional_jump || spec_is_branch(op)),
            final(self).nmi_pending == old(self).nmi_pending,
    {
        let mut pen: u64 = 0;
        let mut btaken: bool = false;
        let mut bcross: bool = false;
        let mut stall: u64 = 0;
        match op {
            0x26 => {
                let ea: u16 = self.ea_zp();
                let v: u8 = self.read(ea);
                let c0: u16 = if self.flag_c { 1 } else { 0 };
                let r: u8 = ((v as u16 * 2 + c0) % 256) as u8;
                self.flag_c = v >= 128;
                stall = stall + self.write(ea, r);
                self.set_zn(r);
            
            
            
            
            
            },
            0x2A => {
                let v: u8 = self.a;
                let c0: u16 = if self.flag_c { 1 } else { 0 };
                let r: u8 = ((v as u16 * 2 + c0) % 256) as u8;
                self.flag_c = v >= 128;
                self.a = r;
                self.set_zn(r);
            
            
            
            
            
            },
            _ => {
            },
        }
        (pen, btaken, bcross, stall)
    }

    /// One slice of the instruction dispatcher.  Returns the page
    /// penalty charged, the branch outcome and the DMA stall.
    #[verifier::rlimit(100)]
    #[verifier::spinoff_prover]
    fn exec_c2_lo_a2_p1(&mut self, op: u8) -> (r: (u64, bool, bool, u64))
        requires
            old(self).wf(),
            op % 4 == 2,
        ensures
            final(self).wf(),
            final(self).cy == old(self).cy,
            r.0 <= 1,
            r.0 == 1 ==> spec_has_page_penalty(op),
            r.1 ==> spec_is_branch(op),
            r.2 ==> r.1,
            !spec_is_branch(op) ==> !r.1 && !r.2,
            r.3 == 0 || r.3 as int == 513 + old(self).cy as int % 2,
            final(self).conditional_jump == (old(self).conditional_jump || spec_is_branch(op)),
            final(self).nmi_pending == old(self).nmi_pending,
    {
        let mut pen: u64 = 0;
        let mut btaken: bool = false;
        let mut bcross: bool = false;
        let mut stall: u64 = 0;
        match op {
            0x2E => {
                let ea: u16 = self.ea_abs();
                let v: u8 = self.read(ea);
                let c0: u16 = if self.flag_c { 1 } else { 0 };
                let r: u8 = ((v as u16 * 2 + c0) % 256) as u8;
                self.flag_c = v >= 128;
                stall = stall + self.write(ea, r);
                self.set_zn(r);
            
            
            
            
            
            },
            0x36 => {
                let ea: u16 = self.ea_zpx();
                let v: u8 = self.read(ea);
                let c0: u16 = if self.flag_c { 1 } else { 0 };
                let r: u8 = ((v as u16 * 2 + c0) % 256) as u8;
                self.flag_c = v >= 128;
                stall = stall + self.write(ea, r);
                self.set_zn(r);
            
            
            
            
            
            },
            _ => {
            },
        }
        (pen, btaken, bcross, stall)
    }

    /// One slice of the instruction dispatcher.  Returns the page
    /// penalty charged, the branch outcome and the DMA stall.
    #[verifier::rlimit(100)]
    #[verifier::spinoff_prover]
    fn exec_c2_lo_a2_p2(&mut self, op: u8) -> (r: (u64, bool, bool, u64))
        requires
            old(self).wf(),
            op % 4 == 2,
        ensures
            final(self).wf(),
            final(self).cy == old(self).cy,
            r.0 <= 1,
            r.0 == 1 ==> spec_has_page_penalty(op),
            r.1 ==> spec_is_branch(op),
            r.2 ==> r.1,
            !spec_is_branch(op) ==> !r.1 && !r.2,
            r.3 == 0 || r.3 as int == 513 + old(self).cy as int % 2,
            final(self).conditional_jump == (old(self).conditional_jump || spec_is_branch(op)),
            final(self).nmi_pending == old(self).nmi_pending,
    {
        let mut pen: u64 = 0;
        let mut btaken: bool = false;
        let mut bcross: bool = false;
        let mut stall: u64 = 0;
        match op {
            0x3A => {
            
            
            
            
            
            },
            0x3E => {
                let (ea, _crossed): (u16, bool) = self.ea_absx();
                let v: u8 = self.read(ea);
                let c0: u16 = if self.flag_c { 1 } else { 0 };
                let r: u8 = ((v as u16 * 2 + c0) % 256) as u8;
                self.flag_c = v >= 128;
                stall = stall + self.write(ea, r);
                self.set_zn(r);
            
            
            
            
            
            },
            _ => {
            },
        }
        (pen, btaken, bcross, stall)
    }

    /// One slice of the instruction dispatcher.  Returns the page
    /// penalty charged, the branch outcome and the DMA stall.
    fn exec_c2_lo_a2(&mut self, op: u8) -> (r: (u64, bool, bool, u64))
        requires
            old(self).wf(),
            op % 4 == 2,
        ensures
            final(self).wf(),
            final(self).cy == old(self).cy,
            r.0 <= 1,
            r.0 == 1 ==> spec_has_page_penalty(op),
            r.1 ==> spec_is_branch(op),
            r.2 ==> r.1,
            !spec_is_branch(op) ==> !r.1 && !r.2,
            r.3 == 0 || r.3 as int == 513 + old(self).cy as int % 2,
            final(self).conditional_jump == (old(self).conditional_jump || spec_is_branch(op)),
            final(self).nmi_pending == old(self).nmi_pending,
    {
        if op <= 0x2A {
            self.exec_c2_lo_a2_p0(op)
        } else if op <= 0x36 {
            self.exec_c2_lo_a2_p1(op)
        } else {
            self.exec_c2_lo_a2_p2(op)
        }
    }

    /// One slice of the instruction dispatcher.  Returns the page
    /// penalty charged, the branch outcome and the DMA stall.
    fn exec_c2_lo_a(&mut self, op: u8) -> (r: (u64, bool, bool, u64))
        requires
            old(self).wf(),
            op % 4 == 2,
        ensures
            final(self).wf(),
            final(self).cy == old(self).cy,
            r.0 <= 1,
            r.0 == 1 ==> spec_has_page_penalty(op),
            r.1 ==> spec_is_branch(op),
            r.2 ==> r.1,
            !spec_is_branch(op) ==> !r.1 && !r.2,
            r.3 == 0 || r.3 as int == 513 + old(self).cy as int % 2,
            final(self).conditional_jump == (old(self).conditional_jump || spec_is_branch(op)),
            final(self).nmi_pending == old(self).nmi_pending,
    {
        if op <= 0x1E {
            self.exec_c2_lo_a1(op)
        } else {
            self.exec_c2_lo_a2(op)
        }
    }



    /// One slice of the instruction dispatcher.  Returns the page
    /// penalty charged, the branch outcome and the DMA stall.
    #[verifier::rlimit(100)]
    #[verifier::spinoff_prover]
    fn exec_c2_lo_b1_p0(&mut self, op: u8) -> (r: (u64, bool, bool, u64))
        requires
            old(self).wf(),
            op % 4 == 2,
        ensures
            final(self).wf(),
            final(self).cy == old(self).cy,
            r.0 <= 1,
            r.0 == 1 ==> spec_has_page_penalty(op),
            r.1 ==> spec_is_branch(op),
            r.2 ==> r.1,
            !spec_is_branch(op) ==> !r.1 && !r.2,
            r.3 == 0 || r.3 as int == 513 + old(self).cy as int % 2,
            final(self).conditional_jump == (old(self).conditional_jump || spec_is_branch(op)),
            final(self).nmi_pending == old(self).nmi_pending,
    {
        let mut pen: u64 = 0;
        let mut btaken: bool = false;
        let mut bcross: bool = false;
        let mut stall: u64 = 0;
        match op {
            0x46 => {
                let ea: u16 = self.ea_zp();
                let v: u8 = self.read(ea);
                let r: u8 = v / 2;
                self.flag_c = v % 2 == 1;
                stall = stall + self.write(ea, r);
                self.set_zn(r);
            
            
            
            
            
            },
            0x4A => {
                let v: u8 = self.a;
                let r: u8 = v / 2;
                self.flag_c = v % 2 == 1;
                self.a = r;
                self.set_zn(r);
            
            
            
            
            
            },
            _ => {
            },
        }
        (pen, btaken, bcross, stall)
    }

    /// One slice of the instruction dispatcher.  Returns the page
    /// penalty charged, the branch outcome and the DMA stall.
    #[verifier::rlimit(100)]
    #[verifier::spinoff_prover]
    fn exec_c2_lo_b1_p1(&mut self, op: u8) -> (r: (u64, bool, bool, u64))
        requires
            old(self).wf(),
            op % 4 == 2,
        ensures
            final(self).wf(),
            final(self).cy == old(self).cy,
            r.0 <= 1,
            r.0 == 1 ==> spec_has_page_penalty(op),
            r.1 ==> spec_is_branch(op),
            r.2 ==> r.1,
            !spec_is_branch(op) ==> !r.1 && !r.2,
            r.3 == 0 || r.3 as int == 513 + old(self).cy as int % 2,
            final(self).conditional_jump == (old(self).conditional_jump || spec_is_branch(op)),
            final(self).nmi_pending == old(self).nmi_pending,
    {
        let mut pen: u64 = 0;
        let mut btaken: bool = false;
        let mut bcross: bool = false;
        let mut stall: u64 = 0;
        match op {
            0x4E => {
                let ea: u16 = self.ea_abs();
                let v: u8 = self.read(ea);
                let r: u8 = v / 2;
                self.flag_c = v % 2 == 1;
                stall = stall + self.write(ea, r);
                self.set_zn(r);
            
            
            
            
            
            },
            0x56 => {
                let ea: u16 = self.ea_zpx();
                let v: u8 = self.read(ea);
                let r: u8 = v / 2;
                self.flag_c = v % 2 == 1;
                stall = stall + self.write(ea, r);
                self.set_zn(r);
            
            
            
            
            
            },
            _ => {
            },
        }
        (pen, btaken, bcross, stall)
    }

    /// One slice of the instruction dispatcher.  Returns the page
    /// penalty charged, the branch outcome and the DMA stall.
    #[verifier::rlimit(100)]
    #[verifier::spinoff_prover]
    fn exec_c2_lo_b1_p2(&mut self, op: u8) -> (r: (u64, bool, bool, u64))
        requires
            old(self).wf(),
            op % 4 == 2,
        ensures
            final(self).wf(),
            final(self).cy == old(self).cy,
            r.0 <= 1,
            r.0 == 1 ==> spec_has_page_penalty(op),
            r.1 ==> spec_is_branch(op),
            r.2 ==> r.1,
            !spec_is_branch(op) ==> !r.1 && !r.2,
            r.3 == 0 || r.3 as int == 513 + old(self).cy as int % 2,
            final(self).conditional_jump == (old(self).conditional_jump || spec_is_branch(op)),
            final(self).nmi_pending == old(self).nmi_pending,
    {
        let mut pen: u64 = 0;
        let mut btaken: bool = false;
        let mut bcross: bool = false;
        let mut stall: u64 = 0;
        match op {
            0x5A => {
            
            
            
            
            
            },
            0x5E => {
                let (ea, _crossed): (u16, bool) = self.ea_absx();
                let v: u8 = self.read(ea);
                let r: u8 = v / 2;
                self.flag_c = v % 2 == 1;
                stall = stall + self.write(ea, r);
                self.set_zn(r);
            
            
            
            
            
            },
            _ => {
            },
        }
        (pen, btaken, bcross, stall)
    }

    /// One slice of the instruction dispatcher.  Returns the page
    /// penalty charged, the branch outcome and the DMA stall.
    fn exec_c2_lo_b1(&mut self, op: u8) -> (r: (u64, bool, bool, u64))
        requires
            old(self).wf(),
            op % 4 == 2,
        ensures
            final(self).wf(),
            final(self).cy == old(self).cy,
            r.0 <= 1,
            r.0 == 1 ==> spec_has_page_penalty(op),
            r.1 ==> spec_is_branch(op),
            r.2 ==> r.1,
            !spec_is_branch(op) ==> !r.1 && !r.2,
            r.3 == 0 || r.3 as int == 513 + old(self).cy as int % 2,
            final(self).conditional_jump == (old(self).conditional_jump || spec_is_branch(op)),
            final(self).nmi_pending == old(self).nmi_pending,
    {
        if op <= 0x4A {
            self.exec_c2_lo_b1_p0(op)
        } else if op <= 0x56 {
            self.exec_c2_lo_b1_p1(op)
        } else {
            self.exec_c2_lo_b1_p2(op)
        }
    }


    /// One slice of the instruction dispatcher.  Returns the page
    /// penalty charged, the branch outcome and the DMA stall.
    #[verifier::rlimit(100)]
    #[verifier::spinoff_prover]
    fn exec_c2_lo_b2_p0(&mut self, op: u8) -> (r: (u64, bool, bool, u64))
        requires
            old(self).wf(),
            op % 4 == 2,
        ensures
            final(self).wf(),
            final(self).cy == old(self).cy,
            r.0 <= 1,
            r.0 == 1 ==> spec_has_page_penalty(op),
            r.1 ==> spec_is_branch(op),
            r.2 ==> r.1,
            !spec_is_branch(op) ==> !r.1 && !r.2,
            r.3 == 0 || r.3 as int == 513 + old(self).cy as int % 2,
            final(self).conditional_jump == (old(self).conditional_jump || spec_is_branch(op)),
            final(self).nmi_pending == old(self).nmi_pending,
    {
        let mut pen: u64 = 0;
        let mut btaken: bool = false;
        let mut bcross: bool = false;
        let mut stall: u64 = 0;
        match op {
            0x66 => {
                let ea: u16 = self.ea_zp();
                let v: u8 = self.read(ea);
                let c0: u8 = if self.flag_c { 128 } else { 0 };
                let r: u8 = v / 2 + c0;
                self.flag_c = v % 2 == 1;
                stall = stall + self.write(ea, r);
                self.set_zn(r);
            
            
            
            
            
            },
            0x6A => {
                let v: u8 = self.a;
                let c0: u8 = if self.flag_c { 128 } else { 0 };
                let r: u8 = v / 2 + c0;
                self.flag_c = v % 2 == 1;
                self.a = r;
                self.set_zn(r);
            
            
            
            
            
            },
            _ => {
            },
        }
        (pen, btaken, bcross, stall)
    }

    /// One slice of the instruction dispatcher.  Returns the page
    /// penalty charged, the branch outcome and the DMA stall.
    #[verifier::rlimit(100)]
    #[verifier::spinoff_prover]
    fn exec_c2_lo_b2_p1(&mut self, op: u8) -> (r: (u64, bool, bool, u64))
        requires
            old(self).wf(),
            op % 4 == 2,
        ensures
            final(self).wf(),
            final(self).cy == old(self).cy,
            r.0 <= 1,
            r.0 == 1 ==> spec_has_page_penalty(op),
            r.1 ==> spec_is_branch(op),
            r.2 ==> r.1,
            !spec_is_branch(op) ==> !r.1 && !r.2,
            r.3 == 0 || r.3 as int == 513 + old(self).cy as int % 2,
            final(self).conditional_jump == (old(self).conditional_jump || spec_is_branch(op)),
            final(self).nmi_pending == old(self).nmi_pending,
    {
        let mut pen: u64 = 0;
        let mut btaken: bool = false;
        let mut bcross: bool = false;
        let mut stall: u64 = 0;
        match op {
            0x6E => {
                let ea: u16 = self.ea_abs();
                let v: u8 = self.read(ea);
                let c0: u8 = if self.flag_c { 128 } else { 0 };
                let r: u8 = v / 2 + c0;
                self.flag_c = v % 2 == 1;
                stall = stall + self.write(ea, r);
                self.set_zn(r);
            
            
            
            
            
            },
            0x76 => {
                let ea: u16 = self.ea_zpx();
                let v: u8 = self.read(ea);
                let c0: u8 = if self.flag_c { 128 } else { 0 };
                let r: u8 = v / 2 + c0;
                self.flag_c = v % 2 == 1;
                stall = stall + self.write(ea, r);
                self.set_zn(r);
            
            
            
            
            
            },
            _ => {
            },
        }
        (pen, btaken, bcross, stall)
    }

    /// One slice of the instruction dispatcher.  Returns the page
    /// penalty charged, the branch outcome and the DMA stall.
    #[verifier::rlimit(100)]
    #[verifier::spinoff_prover]
    fn exec_c2_lo_b2_p2(&mut self, op: u8) -> (r: (u64, bool, bool, u64))
        requires
            old(self).wf(),
            op % 4 == 2,
        ensures
            final(self).wf(),
            final(self).cy == old(self).cy,
            r.0 <= 1,
            r.0 == 1 ==> spec_has_page_penalty(op),
            r.1 ==> spec_is_branch(op),
            r.2 ==> r.1,
            !spec_is_branch(op) ==> !r.1 && !r.2,
            r.3 == 0 || r.3 as int == 513 + old(self).cy as int % 2,
            final(self).conditional_jump == (old(self).conditional_jump || spec_is_branch(op)),
            final(self).nmi_pending == old(self).nmi_pending,
    {
        let mut pen: u64 = 0;
        let mut btaken: bool = false;
        let mut bcross: bool = false;
        let mut stall: u64 = 0;
        match op {
            0x7A => {
            
            
            
            
            
            },
            0x7E => {
                let (ea, _crossed): (u16, bool) = self.ea_absx();
                let v: u8 = self.read(ea);
                let c0: u8 = if self.flag_c { 128 } else { 0 };
                let r: u8 = v / 2 + c0;
                self.flag_c = v % 2 == 1;
                stall = stall + self.write(ea, r);
                self.set_zn(r);
            
            
            
            
            
            },
            _ => {
            },
        }
        (pen, btaken, bcross, stall)
    }

    /// One slice of the instruction dispatcher.  Returns the page
    /// penalty charged, the branch outcome and the DMA stall.
    fn exec_c2_lo_b2(&mut self, op: u8) -> (r: (u64, bool, bool, u64))
        requires
            old(self).wf(),
            op % 4 == 2,
        ensures
            final(self).wf(),
            final(self).cy == old(self).cy,
            r.0 <= 1,
            r.0 == 1 ==> spec_has_page_penalty(op),
            r.1 ==> spec_is_branch(op),
            r.2 ==> r.1,
            !spec_is_branch(op) ==> !r.1 && !r.2,
            r.3 == 0 || r.3 as int == 513 + old(self).cy as int % 2,
            final(self).conditional_jump == (old(self).conditional_jump || spec_is_branch(op)),
            final(self).nmi_pending == old(self).nmi_pending,
    {
        if op <= 0x6A {
            self.exec_c2_lo_b2_p0(op)
        } else if op <= 0x76 {
            self.exec_c2_lo_b2_p1(op)
        } else {
            self.exec_c2_lo_b2_p2(op)
        }
    }

    /// One slice of the instruction dispatcher.  Returns the page
    /// penalty charged, the branch outcome and the DMA stall.
    fn exec_c2_lo_b(&mut self, op: u8) -> (r: (u64, bool, bool, u64))
        requires
            old(self).wf(),
            op % 4 == 2,
        ensures
            final(self).wf(),
            final(self).cy == old(self).cy,
            r.0 <= 1,
            r.0 == 1 ==> spec_has_page_penalty(op),
            r.1 ==> spec_is_branch(op),
            r.2 ==> r.1,
            !spec_is_branch(op) ==> !r.1 && !r.2,
            r.3 == 0 || r.3 as int == 513 + old(self).cy as int % 2,
            final(self).conditional_jump == (old(self).conditional_jump || spec_is_branch(op)),
            final(self).nmi_pending == old(self).nmi_pending,
    {
        if op <= 0x5E {
            self.exec_c2_lo_b1(op)
        } else {
            self.exec_c2_lo_b2(op)
        }
    }



    /// One slice of the instruction dispatcher.  Returns the page
    /// penalty charged, the branch outcome and the DMA stall.
    #[verifier::rlimit(100)]
    #[verifier::spinoff_prover]
    fn exec_c2_hi_a1_p0(&mut self, op: u8) -> (r: (u64, bool, bool, u64))
        requires
            old(self).wf(),
            op % 4 == 2,
        ensures
            final(self).wf(),
            final(self).cy == old(self).cy,
            r.0 <= 1,
            r.0 == 1 ==> spec_has_page_penalty(op),
            r.1 ==> spec_is_branch(op),
            r.2 ==> r.1,
            !spec_is_branch(op) ==> !r.1 && !r.2,
            r.3 == 0 || r.3 as int == 513 + old(self).cy as int % 2,
            final(self).conditional_jump == (old(self).conditional_jump || spec_is_branch(op)),
            final(self).nmi_pending == old(self).nmi_pending,
    {
        let mut pen: u64 = 0;
        let mut btaken: bool = false;
        let mut bcross: bool = false;
        let mut stall: u64 = 0;
        match op {
            0x82 => {
                let v: u8 = self.fetchb();
            
            
            
            
            
            },
            0x86 => {
                let ea: u16 = self.ea_zp();
                let v: u8 = self.x;
                stall = stall + self.write(ea, v);
            
            
            
            
            
            },
            _ => {
            },
        }
        (pen, btaken, bcross, stall)
    }

    /// One slice of the instruction dispatcher.  Returns the page
    /// penalty charged, the branch outcome and the DMA stall.
    #[verifier::rlimit(100)]
    #[verifier::spinoff_prover]
    fn exec_c2_hi_a1_p1(&mut self, op: u8) -> (r: (u64, bool, bool, u64))
        requires
            old(self).wf(),
            op % 4 == 2,
        ensures
            final(self).wf(),
            final(self).cy == old(self).cy,
            r.0 <= 1,
            r.0 == 1 ==> spec_has_page_penalty(op),
            r.1 ==> spec_is_branch(op),
            r.2 ==> r.1,
            !spec_is_branch(op) ==> !r.1 && !r.2,
            r.3 == 0 || r.3 as int == 513 + old(self).cy as int % 2,
            final(self).conditional_jump == (old(self).conditional_jump || spec_is_branch(op)),
            final(self).nmi_pending == old(self).nmi_pending,
    {
        let mut pen: u64 = 0;
        let mut btaken: bool = false;
        let mut bcross: bool = false;
        let mut stall: u64 = 0;
        match op {
            0x8A => {
                let v: u8 = self.x;
                self.a = v;
                self.set_zn(v);
            
            
            
            
            
            },
            0x8E => {
                let ea: u16 = self.ea_abs();
                let v: u8 = self.x;
                stall = stall + self.write(ea, v);
            
            
            
            
            
            },
            _ => {
            },
        }
        (pen, btaken, bcross, stall)
    }

    /// One slice of the instruction dispatcher.  Returns the page
    /// penalty charged, the branch outcome and the DMA stall.
    #[verifier::rlimit(100)]
    #[verifier::spinoff_prover]
    fn exec_c2_hi_a1_p2(&mut self, op: u8) -> (r: (u64, bool, bool, u64))
        requires
            old(self).wf(),
            op % 4 == 2,
        ensures
            final(self).wf(),
            final(self).cy == old(self).cy,
            r.0 <= 1,
            r.0 == 1 ==> spec_has_page_penalty(op),
            r.1 ==> spec_is_branch(op),
            r.2 ==> r.1,
            !spec_is_branch(op) ==> !r.1 && !r.2,
            r.3 == 0 || r.3 as int == 513 + old(self).cy as int % 2,
            final(self).conditional_jump == (old(self).conditional_jump || spec_is_branch(op)),
            final(self).nmi_pending == old(self).nmi_pending,
    {
        let mut pen: u64 = 0;
        let mut btaken: bool = false;
        let mut bcross: bool = false;
        let mut stall: u64 = 0;
        match op {
            0x96 => {
                let ea: u16 = self.ea_zpy();
                let v: u8 = self.x;
                stall = stall + self.write(ea, v);
            
            
            
            
            
            },
            0x9A => {
                self.s = self.x;
            
            
            
            
            
            },
            _ => {
            },
        }
        (pen, btaken, bcross, stall)
    }

    /// One slice of the instruction dispatcher.  Returns the page
    /// penalty charged, the branch outcome and the DMA stall.
    fn exec_c2_hi_a1(&mut self, op: u8) -> (r: (u64, bool, bool, u64))
        requires
            old(self).wf(),
            op % 4 == 2,
        ensures
            final(self).wf(),
            final(self).cy == old(self).cy,
            r.0 <= 1,
            r.0 == 1 ==> spec_has_page_penalty(op),
            r.1 ==> spec_is_branch(op),
            r.2 ==> r.1,
            !spec_is_branch(op) ==> !r.1 && !r.2,
            r.3 == 0 || r.3 as int == 513 + old(self).cy as int % 2,
            final(self).conditional_jump == (old(self).conditional_jump || spec_is_branch(op)),
            final(self).nmi_pending == old(self).nmi_pending,
    {
        if op <= 0x86 {
            self.exec_c2_hi_a1_p0(op)
        } else if op <= 0x8E {
            self.exec_c2_hi_a1_p1(op)
        } else {
            self.exec_c2_hi_a1_p2(op)
        }
    }


    /// One slice of the instruction dispatcher.  Returns the page
    /// penalty charged, the branch outcome and the DMA stall.
    #[verifier::rlimit(100)]
    #[verifier::spinoff_prover]
    fn exec_c2_hi_a2_p0(&mut self, op: u8) -> (r: (u64, bool, bool, u64))
        requires
            old(self).wf(),
            op % 4 == 2,
        ensures
            final(self).wf(),
            final(self).cy == old(self).cy,
            r.0 <= 1,
            r.0 == 1 ==> spec_has_page_penalty(op),
            r.1 ==> spec_is_branch(op),
            r.2 ==> r.1,
            !spec_is_branch(op) ==> !r.1 && !r.2,
            r.3 == 0 || r.3 as int == 513 + old(self).cy as int % 2,
            final(self).conditional_jump == (old(self).conditional_jump || spec_is_branch(op)),
            final(self).nmi_pending == old(self).nmi_pending,
    {
        let mut pen: u64 = 0;
        let mut btaken: bool = false;
        let mut bcross: bool = false;
        let mut stall: u64 = 0;
        match op {
            0xA2 => {
                let v: u8 = self.fetchb();
                self.x = v;
                self.set_zn(v);
            
            
            
            
            
            },
            0xA6 => {
                let ea: u16 = self.ea_zp();
                let v: u8 = self.read(ea);
                self.x = v;
                self.set_zn(v);
            
            
            
            
            
            },
            _ => {
            },
        }
        (pen, btaken, bcross, stall)
    }

    /// One slice of the instruction dispatcher.  Returns the page
    /// penalty charged, the branch outcome and the DMA stall.
    #[verifier::rlimit(100)]
    #[verifier::spinoff_prover]
    fn exec_c2_hi_a2_p1(&mut self, op: u8) -> (r: (u64, bool, bool, u64))
        requires
            old(self).wf(),
            op % 4 == 2,
        ensures
            final(self).wf(),
            final(self).cy == old(self).cy,
            r.0 <= 1,
            r.0 == 1 ==> spec_has_page_penalty(op),
            r.1 ==> spec_is_branch(op),
            r.2 ==> r.1,
            !spec_is_branch(op) ==> !r.1 && !r.2,
            r.3 == 0 || r.3 as int == 513 + old(self).cy as int % 2,
            final(self).conditional_jump == (old(self).conditional_jump || spec_is_branch(op)),
            final(self).nmi_pending == old(self).nmi_pending,
    {
        let mut pen: u64 = 0;
        let mut btaken: bool = false;
        let mut bcross: bool = false;
        let mut stall: u64 = 0;
        match op {
            0xAA => {
                let v: u8 = self.a;
                self.x = v;
                self.set_zn(v);
            
            
            
            
            
            },
            0xAE => {
                let ea: u16 = self.ea_abs();
                let v: u8 = self.read(ea);
                self.x = v;
                self.set_zn(v);
            
            
            
            
            
            },
            _ => {
            },
        }
        (pen, btaken, bcross, stall)
    }

    /// One slice of the instruction dispatcher.  Returns the page
    /// penalty charged, the branch outcome and the DMA stall.
    #[verifier::rlimit(100)]
    #[verifier::spinoff_prover]
    fn exec_c2_hi_a2_p2(&mut self, op: u8) -> (r: (u64, bool, bool, u64))
        requires
            old(self).wf(),
            op % 4 == 2,
        ensures
            final(self).wf(),
            final(self).cy == old(self).cy,
            r.0 <= 1,
            r.0 == 1 ==> spec_has_page_penalty(op),
            r.1 ==> spec_is_branch(op),
            r.2 ==> r.1,
            !spec_is_branch(op) ==> !r.1 && !r.2,
            r.3 == 0 || r.3 as int == 513 + old(self).cy as int % 2,
            final(self).conditional_jump == (old(self).conditional_jump || spec_is_branch(op)),
            final(self).nmi_pending == old(self).nmi_pending,
    {
        let mut pen: u64 = 0;
        let mut btaken: bool = false;
        let mut bcross: bool = false;
        let mut stall: u64 = 0;
        match op {
            0xB6 => {
                let ea: u16 = self.ea_zpy();
                let v: u8 = self.read(ea);
                self.x = v;
                self.set_zn(v);
            
            
            
            
            
            },
            0xBA => {
                let v: u8 = self.s;
                self.x = v;
                self.set_zn(v);
            
            
            
            
            
            },
            _ => {
            },
        }
        (pen, btaken, bcross, stall)
    }

    /// One slice of the instruction dispatcher.  Returns the page
    /// penalty charged, the branch outcome and the DMA stall.
    #[verifier::rlimit(100)]
    #[verifier::spinoff_prover]
    fn exec_c2_hi_a2_p3(&mut self, op: u8) -> (r: (u64, bool, bool, u64))
        requires
            old(self).wf(),
            op % 4 == 2,
        ensures
            final(self).wf(),
            final(self).cy == old(self).cy,
            r.0 <= 1,
            r.0 == 1 ==> spec_has_page_penalty(op),
            r.1 ==> spec_is_branch(op),
            r.2 ==> r.1,
            !spec_is_branch(op) ==> !r.1 && !r.2,
            r.3 == 0 || r.3 as int == 513 + old(self).cy as int % 2,
            final(self).conditional_jump == (old(self).conditional_jump || spec_is_branch(op)),
            final(self).nmi_pending == old(self).nmi_pending,
    {
        let mut pen: u64 = 0;
        let mut btaken: bool = false;
        let mut bcross: bool = false;
        let mut stall: u64 = 0;
        match op {
            0xBE => {
                let (ea, crossed): (u16, bool) = self.ea_absy();
                let v: u8 = self.read(ea);
                if crossed {
                    pen = 1;
                }
                self.x = v;
                self.set_zn(v);
            
            
            
            
            
            },
            _ => {
            },
        }
        (pen, btaken, bcross, stall)
    }

    /// One slice of the instruction dispatcher.  Returns the page
    /// penalty charged, the branch outcome and the DMA stall.
    fn exec_c2_hi_a2(&mut self, op: u8) -> (r: (u64, bool, bool, u64))
        requires
            old(self).wf(),
            op % 4 == 2,
        ensures
            final(self).wf(),
            final(self).cy == old(self).cy,
            r.0 <= 1,
            r.0 == 1 ==> spec_has_page_penalty(op),
            r.1 ==> spec_is_branch(op),
            r.2 ==> r.1,
            !spec_is_branch(op) ==> !r.1 && !r.2,
            r.3 == 0 || r.3 as int == 513 + old(self).cy as int % 2,
            final(self).conditional_jump == (old(self).conditional_jump || spec_is_branch(op)),
            final(self).nmi_pending == old(self).nmi_pending,
    {
        if op <= 0xA6 {
            self.exec_c2_hi_a2_p0(op)
        } else if op <= 0xAE {
            self.exec_c2_hi_a2_p1(op)
        } else if op <= 0xBA {
            self.exec_c2_hi_a2_p2(op)
        } else {
            self.exec_c2_hi_a2_p3(op)
        }
    }

    /// One slice of the instruction dispatcher.  Returns the page
    /// penalty charged, the branch outcome and the DMA stall.
    fn exec_c2_hi_a(&mut self, op: u8) -> (r: (u64, bool, bool, u64))
        requires
            old(self).wf(),
            op % 4 == 2,
        ensures
            final(self).wf(),
            final(self).cy == old(self).cy,
            r.0 <= 1,
            r.0 == 1 ==> spec_has_page_penalty(op),
            r.1 ==> spec_is_branch(op),
            r.2 ==> r.1,
            !spec_is_branch(op) ==> !r.1 && !r.2,
            r.3 == 0 || r.3 as int == 513 + old(self).cy as int % 2,
            final(self).conditional_jump == (old(self).conditional_jump || spec_is_branch(op)),
            final(self).nmi_pending == old(self).nmi_pending,
    {
        if op <= 0x9A {
            self.exec_c2_hi_a1(op)
        } else {
            self.exec_c2_hi_a2(op)
        }
    }



    /// One slice of the instruction dispatcher.  Returns the page
    /// penalty charged, the branch outcome and the DMA stall.
    #[verifier::rlimit(100)]
    #[verifier::spinoff_prover]
    fn exec_c2_hi_b1_p0(&mut self, op: u8) -> (r: (u64, bool, bool, u64))
        requires
            old(self).wf(),
            op % 4 == 2,
        ensures
            final(self).wf(),
            final(self).cy == old(self).cy,
            r.0 <= 1,
            r.0 == 1 ==> spec_has_page_penalty(op),
            r.1 ==> spec_is_branch(op),
            r.2 ==> r.1,
            !spec_is_branch(op) ==> !r.1 && !r.2,
            r.3 == 0 || r.3 as int == 513 + old(self).cy as int % 2,
            final(self).conditional_jump == (old(self).conditional_jump || spec_is_branch(op)),
            final(self).nmi_pending == old(self).nmi_pending,
    {
        let mut pen: u64 = 0;
        let mut btaken: bool = false;
        let mut bcross: bool = false;
        let mut stall: u64 = 0;
        match op {
            0xC2 => {
                let v: u8 = self.fetchb();
            
            
            
            
            
            },
            0xC6 => {
                let ea: u16 = self.ea_zp();
                let v: u8 = self.read(ea);
                let r: u8 = ((v as u16 + 255) % 256) as u8;
                stall = stall + self.write(ea, r);
                self.set_zn(r);
            
            
            
            
            
            },
            _ => {
            },
        }
        (pen, btaken, bcross, stall)
    }

    /// One slice of the instruction dispatcher.  Returns the page
    /// penalty charged, the branch outcome and the DMA stall.
    #[verifier::rlimit(100)]
    #[verifier::spinoff_prover]
    fn exec_c2_hi_b1_p1(&mut self, op: u8) -> (r: (u64, bool, bool, u64))
        requires
            old(self).wf(),
            op % 4 == 2,
        ensures
            final(self).wf(),
            final(self).cy == old(self).cy,
            r.0 <= 1,
            r.0 == 1 ==> spec_has_page_penalty(op),
            r.1 ==> spec_is_branch(op),
            r.2 ==> r.1,
            !spec_is_branch(op) ==> !r.1 && !r.2,
            r.3 == 0 || r.3 as int == 513 + old(self).cy as int % 2,
            final(self).conditional_jump == (old(self).conditional_jump || spec_is_branch(op)),
            final(self).nmi_pending == old(self).nmi_pending,
    {
        let mut pen: u64 = 0;
        let mut btaken: bool = false;
        let mut bcross: bool = false;
        let mut stall: u64 = 0;
        match op {
            0xCA => {
                let v: u8 = ((self.x as u16 + 255) % 256) as u8;
                self.x = v;
                self.set_zn(v);
            
            
            
            
            
            },
            0xCE => {
                let ea: u16 = self.ea_abs();
                let v: u8 = self.read(ea);
                let r: u8 = ((v as u16 + 255) % 256) as u8;
                stall = stall + self.write(ea, r);
                self.set_zn(r);
            
            
            
            
            
            },
            _ => {
            },
        }
        (pen, btaken, bcross, stall)
    }

    /// One slice of the instruction dispatcher.  Returns the page
    /// penalty charged, the branch outcome and the DMA stall.
    #[verifier::rlimit(100)]
    #[verifier::spinoff_prover]
    fn exec_c2_hi_b1_p2(&mut self, op: u8) -> (r: (u64, bool, bool, u64))
        requires
            old(self).wf(),
            op % 4 == 2,
        ensures
            final(self).wf(),
            final(self).cy == old(self).cy,
            r.0 <= 1,
            r.0 == 1 ==> spec_has_page_penalty(op),
            r.1 ==> spec_is_branch(op),
            r.2 ==> r.1,
            !spec_is_branch(op) ==> !r.1 && !r.2,
            r.3 == 0 || r.3 as int == 513 + old(self).cy as int % 2,
            final(self).conditional_jump == (old(self).conditional_jump || spec_is_branch(op)),
            final(self).nmi_pending == old(self).nmi_pending,
    {
        let mut pen: u64 = 0;
        let mut btaken: bool = false;
        let mut bcross: bool = false;
        let mut stall: u64 = 0;
        match op {
            0xD6 => {
                let ea: u16 = self.ea_zpx();
                let v: u8 = self.read(ea);
                let r: u8 = ((v as u16 + 255) % 256) as u8;
                stall = stall + self.write(ea, r);
                self.set_zn(r);
            
            
            
            
            
            },
            0xDA => {
            
            
            
            
            
            },
            _ => {
            },
        }
        (pen, btaken, bcross, stall)
    }

    /// One slice of the instruction dispatcher.  Returns the page
    /// penalty charged, the branch outcome and the DMA stall.
    #[verifier::rlimit(100)]
    #[verifier::spinoff_prover]
    fn exec_c2_hi_b1_p3(&mut self, op: u8) -> (r: (u64, bool, bool, u64))
        requires
            old(self).wf(),
            op % 4 == 2,
        ensures
            final(self).wf(),
            final(self).cy == old(self).cy,
            r.0 <= 1,
            r.0 == 1 ==> spec_has_page_penalty(op),
            r.1 ==> spec_is_branch(op),
            r.2 ==> r.1,
            !spec_is_branch(op) ==> !r.1 && !r.2,
            r.3 == 0 || r.3 as int == 513 + old(self).cy as int % 2,
            final(self).conditional_jump == (old(self).conditional_jump || spec_is_branch(op)),
            final(self).nmi_pending == old(self).nmi_pending,
    {
        let mut pen: u64 = 0;
        let mut btaken: bool = false;
        let mut bcross: bool = false;
        let mut stall: u64 = 0;
        match op {
            0xDE => {
                let (ea, _crossed): (u16, bool) = self.ea_absx();
                let v: u8 = self.read(ea);
                let r: u8 = ((v as u16 + 255) % 256) as u8;
                stall = stall + self.write(ea, r);
                self.set_zn(r);
            
            
            
            
            
            },
            _ => {
            },
        }
        (pen, btaken, bcross, stall)
    }

    /// One slice of the instruction dispatcher.  Returns the page
    /// penalty charged, the branch outcome and the DMA stall.
    fn exec_c2_hi_b1(&mut self, op: u8) -> (r: (u64, bool, bool, u64))
        requires
            old(self).wf(),
            op % 4 == 2,
        ensures
            final(self).wf(),
            final(self).cy == old(self).cy,
            r.0 <= 1,
            r.0 == 1 ==> spec_has_page_penalty(op),
            r.1 ==> spec_is_branch(op),
            r.2 ==> r.1,
            !spec_is_branch(op) ==> !r.1 && !r.2,
            r.3 == 0 || r.3 as int == 513 + old(self).cy as int % 2,
            final(self).conditional_jump == (old(self).conditional_jump || spec_is_branch(op)),
            final(self).nmi_pending == old(self).nmi_pending,
    {
        if op <= 0xC6 {
            self.exec_c2_hi_b1_p0(op)
        } else if op <= 0xCE {
            self.exec_c2_hi_b1_p1(op)
        } else if op <= 0xDA {
            self.exec_c2_hi_b1_p2(op)
        } else {
            self.exec_c2_hi_b1_p3(op)
        }
    }


    /// One slice of the instruction dispatcher.  Returns the page
    /// penalty charged, the branch outcome and the DMA stall.
    #[verifier::rlimit(100)]
    #[verifier::spinoff_prover]
    fn exec_c2_hi_b2_p0(&mut self, op: u8) -> (r: (u64, bool, bool, u64))
        requires
            old(self).wf(),
            op % 4 == 2,
        ensures
            final(self).wf(),
            final(self).cy == old(self).cy,
            r.0 <= 1,
            r.0 == 1 ==> spec_has_page_penalty(op),
            r.1 ==> spec_is_branch(op),
            r.2 ==> r.1,
            !spec_is_branch(op) ==> !r.1 && !r.2,
            r.3 == 0 || r.3 as int == 513 + old(self).cy as int % 2,
            final(self).conditional_jump == (old(self).conditional_jump || spec_is_branch(op)),
            final(self).nmi_pending == old(self).nmi_pending,
    {
        let mut pen: u64 = 0;
        let mut btaken: bool = false;
        let mut bcross: bool = false;
        let mut stall: u64 = 0;
        match op {
            0xE2 => {
                let v: u8 = self.fetchb();
            
            
            
            
            
            },
            0xE6 => {
                let ea: u16 = self.ea_zp();
                let v: u8 = self.read(ea);
                let r: u8 = ((v as u16 + 1) % 256) as u8;
                stall = stall + self.write(ea, r);
                self.set_zn(r);
            
            
            
            
            
            },
            _ => {
            },
        }
        (pen, btaken, bcross, stall)
    }

    /// One slice of the instruction dispatcher.  Returns the page
    /// penalty charged, the branch outcome and the DMA stall.
    #[verifier::rlimit(100)]
    #[verifier::spinoff_prover]
    fn exec_c2_hi_b2_p1(&mut self, op: u8) -> (r: (u64, bool, bool, u64))
        requires
            old(self).wf(),
            op % 4 == 2,
        ensures
            final(self).wf(),
            final(self).cy == old(self).cy,
            r.0 <= 1,
            r.0 == 1 ==> spec_has_page_penalty(op),
            r.1 ==> spec_is_branch(op),
            r.2 ==> r.1,
            !spec_is_branch(op) ==> !r.1 && !r.2,
            r.3 == 0 || r.3 as int == 513 + old(self).cy as int % 2,
            final(self).conditional_jump == (old(self).conditional_jump || spec_is_branch(op)),
            final(self).nmi_pending == old(self).nmi_pending,
    {
        let mut pen: u64 = 0;
        let mut btaken: bool = false;
        let mut bcross: bool = false;
        let mut stall: u64 = 0;
        match op {
            0xEA => {
            
            
            
            
            
            },
            0xEE => {
                let ea: u16 = self.ea_abs();
                let v: u8 = self.read(ea);
                let r: u8 = ((v as u16 + 1) % 256) as u8;
                stall = stall + self.write(ea, r);
                self.set_zn(r);
            
            
            
            
            
            },
            _ => {
            },
        }
        (pen, btaken, bcross, stall)
    }

    /// One slice of the instruction dispatcher.  Returns the page
    /// penalty charged, the branch outcome and the DMA stall.
    #[verifier::rlimit(100)]
    #[verifier::spinoff_prover]
    fn exec_c2_hi_b2_p2(&mut self, op: u8) -> (r: (u64, bool, bool, u64))
        requires
            old(self).wf(),
            op % 4 == 2,
        ensures
            final(self).wf(),
            final(self).cy == old(self).cy,
            r.0 <= 1,
            r.0 == 1 ==> spec_has_page_penalty(op),
            r.1 ==> spec_is_branch(op),
            r.2 ==> r.1,
            !spec_is_branch(op) ==> !r.1 && !r.2,
            r.3 == 0 || r.3 as int == 513 + old(self).cy as int % 2,
            final(self).conditional_jump == (old(self).conditional_jump || spec_is_branch(op)),
            final(self).nmi_pending == old(self).nmi_pending,
    {
        let mut pen: u64 = 0;
        let mut btaken: bool = false;
        let mut bcross: bool = false;
        let mut stall: u64 = 0;
        match op {
            0xF6 => {
                let ea: u16 = self.ea_zpx();
                let v: u8 = self.read(ea);
                let r: u8 = ((v as u16 + 1) % 256) as u8;
                stall = stall + self.write(ea, r);
                self.set_zn(r);
            
            
            
            
            
            },
            0xFA => {
            
            
            
            
            
            },
            _ => {
            },
        }
        (pen, btaken, bcross, stall)
    }

    /// One slice of the instruction dispatcher.  Returns the page
    /// penalty charged, the branch outcome and the DMA stall.
    #[verifier::rlimit(100)]
    #[verifier::spinoff_prover]
    fn exec_c2_hi_b2_p3(&mut self, op: u8) -> (r: (u64, bool, bool, u64))
        requires
            old(self).wf(),
            op % 4 == 2,
        ensures
            final(self).wf(),
            final(self).cy == old(self).cy,
            r.0 <= 1,
            r.0 == 1 ==> spec_has_page_penalty(op),
            r.1 ==> spec_is_branch(op),
            r.2 ==> r.1,
            !spec_is_branch(op) ==> !r.1 && !r.2,
            r.3 == 0 || r.3 as int == 513 + old(self).cy as int % 2,
            final(self).conditional_jump == (old(self).conditional_jump || spec_is_branch(op)),
            final(self).nmi_pending == old(self).nmi_pending,
    {
        let mut pen: u64 = 0;
        let mut btaken: bool = false;
        let mut bcross: bool = false;
        let mut stall: u64 = 0;
        match op {
            0xFE => {
                let (ea, _crossed): (u16, bool) = self.ea_absx();
                let v: u8 = self.read(ea);
                let r: u8 = ((v as u16 + 1) % 256) as u8;
                stall = stall + self.write(ea, r);
                self.set_zn(r);
            
            
            
            
            
            },
            _ => {
            },
        }
        (pen, btaken, bcross, stall)
    }

    /// One slice of the instruction dispatcher.  Returns the page
    /// penalty charged, the branch outcome and the DMA stall.
    fn exec_c2_hi_b2(&mut self, op: u8) -> (r: (u64, bool, bool, u64))
        requires
            old(self).wf(),
            op % 4 == 2,
        ensures
            final(self).wf(),
            final(self).cy == old(self).cy,
            r.0 <= 1,
            r.0 == 1 ==> spec_has_page_penalty(op),
            r.1 ==> spec_is_branch(op),
            r.2 ==> r.1,
            !spec_is_branch(op) ==> !r.1 && !r.2,
            r.3 == 0 || r.3 as int == 513 + old(self).cy as int % 2,
            final(self).conditional_jump == (old(self).conditional_jump || spec_is_branch(op)),
            final(self).nmi_pending == old(self).nmi_pending,
    {
        if op <= 0xE6 {
            self.exec_c2_hi_b2_p0(op)
        } else if op <= 0xEE {
            self.exec_c2_hi_b2_p1(op)
        } else if op <= 0xFA {
            self.exec_c2_hi_b2_p2(op)
        } else {
            self.exec_c2_hi_b2_p3(op)
        }
    }

    /// One slice of the instruction dispatcher.  Returns the page
    /// penalty charged, the branch outcome and the DMA stall.
    fn exec_c2_hi_b(&mut self, op: u8) -> (r: (u64, bool, bool, u64))
        requires
            old(self).wf(),
            op % 4 == 2,
        ensures
            final(self).wf(),
            final(self).cy == old(self).cy,
            r.0 <= 1,
            r.0 == 1 ==> spec_has_page_penalty(op),
            r.1 ==> spec_is_branch(op),
            r.2 ==> r.1,
            !spec_is_branch(op) ==> !r.1 && !r.2,
            r.3 == 0 || r.3 as int == 513 + old(self).cy as int % 2,
            final(self).conditional_jump == (old(self).conditional_jump || spec_is_branch(op)),
            final(self).nmi_pending == old(self).nmi_pending,
    {
        if op <= 0xDE {
            self.exec_c2_hi_b1(op)
        } else {
            self.exec_c2_hi_b2(op)
        }
    }



    /// One slice of the instruction dispatcher.  Returns the page
    /// penalty charged, the branch outcome and the DMA stall.
    #[verifier::rlimit(100)]
    #[verifier::spinoff_prover]
    fn exec_c3_lo_a1_p0(&mut self, op: u8) -> (r: (u64, bool, bool, u64))
        requires
            old(self).wf(),
            op % 4 == 3,
        ensures
            final(self).wf(),
            final(self).cy == old(self).cy,
            r.0 <= 1,
            r.0 == 1 ==> spec_has_page_penalty(op),
            r.1 ==> spec_is_branch(op),
            r.2 ==> r.1,
            !spec_is_branch(op) ==> !r.1 && !r.2,
            r.3 == 0 || r.3 as int == 513 + old(self).cy as int % 2,
            final(self).conditional_jump == (old(self).conditional_jump || spec_is_branch(op)),
            final(self).nmi_pending == old(self).nmi_pending,
    {
        let mut pen: u64 = 0;
        let mut btaken: bool = false;
        let mut bcross: bool = false;
        let mut stall: u64 = 0;
        match op {
            0x03 => {
                let ea: u16 = self.ea_indx();
                let v: u8 = self.read(ea);
                let r: u8 = ((v as u16 * 2) % 256) as u8;
                self.flag_c = v >= 128;
                stall = stall + self.write(ea, r);
                let r2: u8 = self.a | r;
                self.a = r2;
                self.set_zn(r2);
            
            
            
            
            
            },
            0x07 => {
                let ea: u16 = self.ea_zp();
                let v: u8 = self.read(ea);
                let r: u8 = ((v as u16 * 2) % 256) as u8;
                self.flag_c = v >= 128;
                stall = stall + self.write(ea, r);
                let r2: u8 = self.a | r;
                self.a = r2;
                self.set_zn(r2);
            
            
            
            
            
            },
            _ => {
            },
        }
        (pen, btaken, bcross, stall)
    }

    /// One slice of the instruction dispatcher.  Returns the page
    /// penalty charged, the branch outcome and the DMA stall.
    #[verifier::rlimit(100)]
    #[verifier::spinoff_prover]
    fn exec_c3_lo_a1_p1(&mut self, op: u8) -> (r: (u64, bool, bool, u64))
        requires
            old(self).wf(),
            op % 4 == 3,
        ensures
            final(self).wf(),
            final(self).cy == old(self).cy,
            r.0 <= 1,
            r.0 == 1 ==> spec_has_page_penalty(op),
            r.1 ==> spec_is_branch(op),
            r.2 ==> r.1,
            !spec_is_branch(op) ==> !r.1 && !r.2,
            r.3 == 0 || r.3 as int == 513 + old(self).cy as int % 2,
            final(self).conditional_jump == (old(self).conditional_jump || spec_is_branch(op)),
            final(self).nmi_pending == old(self).nmi_pending,
    {
        let mut pen: u64 = 0;
        let mut btaken: bool = false;
        let mut bcross: bool = false;
        let mut stall: u64 = 0;
        match op {
            0x0F => {
                let ea: u16 = self.ea_abs();
                let v: u8 = self.read(ea);
                let r: u8 = ((v as u16 * 2) % 256) as u8;
                self.flag_c = v >= 128;
                stall = stall + self.write(ea, r);
                let r2: u8 = self.a | r;
                self.a = r2;
                self.set_zn(r2);
            
            
            
            
            
            },
            0x13 => {
                let (ea, _crossed): (u16, bool) = self.ea_indy();
                let v: u8 = self.read(ea);
                let r: u8 = ((v as u16 * 2) % 256) as u8;
                self.flag_c = v >= 128;
                stall = stall + self.write(ea, r);
                let r2: u8 = self.a | r;
                self.a = r2;
                self.set_zn(r2);
            
            
            
            
            
            },
            _ => {
            },
        }
        (pen, btaken, bcross, stall)
    }

    /// One slice of the instruction dispatcher.  Returns the page
    /// penalty charged, the branch outcome and the DMA stall.
    #[verifier::rlimit(100)]
    #[verifier::spinoff_prover]
    fn exec_c3_lo_a1_p2(&mut self, op: u8) -> (r: (u64, bool, bool, u64))
        requires
            old(self).wf(),
            op % 4 == 3,
        ensures
            final(self).wf(),
            final(self).cy == old(self).cy,
            r.0 <= 1,
            r.0 == 1 ==> spec_has_page_penalty(op),
            r.1 ==> spec_is_branch(op),
            r.2 ==> r.1,
            !spec_is_branch(op) ==> !r.1 && !r.2,
            r.3 == 0 || r.3 as int == 513 + old(self).cy as int % 2,
            final(self).conditional_jump == (old(self).conditional_jump || spec_is_branch(op)),
            final(self).nmi_pending == old(self).nmi_pending,
    {
        let mut pen: u64 = 0;
        let mut btaken: bool = false;
        let mut bcross: bool = false;
        let mut stall: u64 = 0;
        match op {
            0x17 => {
                let ea: u16 = self.ea_zpx();
                let v: u8 = self.read(ea);
                let r: u8 = ((v as u16 * 2) % 256) as u8;
                self.flag_c = v >= 128;
                stall = stall + self.write(ea, r);
                let r2: u8 = self.a | r;
                self.a = r2;
                self.set_zn(r2);
            
            
            
            
            
            },
            0x1B => {
                let (ea, _crossed): (u16, bool) = self.ea_absy();
                let v: u8 = self.read(ea);
                let r: u8 = ((v as u16 * 2) % 256) as u8;
                self.flag_c = v >= 128;
                stall = stall + self.write(ea, r);
                let r2: u8 = self.a | r;
                self.a = r2;
                self.set_zn(r2);
            
            
            
            
            
            },
            _ => {
            },
        }
        (pen, btaken, bcross, stall)
    }

    /// One slice of the instruction dispatcher.  Returns the page
    /// penalty charged, the branch outcome and the DMA stall.
    #[verifier::rlimit(100)]
    #[verifier::spinoff_prover]
    fn exec_c3_lo_a1_p3(&mut self, op: u8) -> (r: (u64, bool, bool, u64))
        requires
            old(self).wf(),
            op % 4 == 3,
        ensures
            final(self).wf(),
            final(self).cy == old(self).cy,
            r.0 <= 1,
            r.0 == 1 ==> spec_has_page_penalty(op),
            r.1 ==> spec_is_branch(op),
            r.2 ==> r.1,
            !spec_is_branch(op) ==> !r.1 && !r.2,
            r.3 == 0 || r.3 as int == 513 + old(self).cy as int % 2,
            final(self).conditional_jump == (old(self).conditional_jump || spec_is_branch(op)),
            final(self).nmi_pending == old(self).nmi_pending,
    {
        let mut pen: u64 = 0;
        let mut btaken: bool = false;
        let mut bcross: bool = false;
        let mut stall: u64 = 0;
        match op {
            0x1F => {
                let (ea, _crossed): (u16, bool) = self.ea_absx();
                let v: u8 = self.read(ea);
                let r: u8 = ((v as u16 * 2) % 256) as u8;
                self.flag_c = v >= 128;
                stall = stall + self.write(ea, r);
                let r2: u8 = self.a | r;
                self.a = r2;
                self.set_zn(r2);
            
            
            
            
            
            },
            _ => {
            },
        }
        (pen, btaken, bcross, stall)
    }

    /// One slice of the instruction dispatcher.  Returns the page
    /// penalty charged, the branch outcome and the DMA stall.
    fn exec_c3_lo_a1(&mut self, op: u8) -> (r: (u64, bool, bool, u64))
        requires
            old(self).wf(),
            op % 4 == 3,
        ensures
            final(self).wf(),
            final(self).cy == old(self).cy,
            r.0 <= 1,
            r.0 == 1 ==> spec_has_page_penalty(op),
            r.1 ==> spec_is_branch(op),
            r.2 ==> r.1,
            !spec_is_branch(op) ==> !r.1 && !r.2,
            r.3 == 0 || r.3 as int == 513 + old(self).cy as int % 2,
            final(self).conditional_jump == (old(self).conditional_jump || spec_is_branch(op)),
            final(self).nmi_pending == old(self).nmi_pending,
    {
        if op <= 0x07 {
            self.exec_c3_lo_a1_p0(op)
        } else if op <= 0x13 {
            self.exec_c3_lo_a1_p1(op)
        } else if op <= 0x1B {
            self.exec_c3_lo_a1_p2(op)
        } else {
            self.exec_c3_lo_a1_p3(op)
        }
    }


    /// One slice of the instruction dispatcher.  Returns the page
    /// penalty charged, the branch outcome and the DMA stall.
    #[verifier::rlimit(100)]
    #[verifier::spinoff_prover]
    fn exec_c3_lo_a2_p0(&mut self, op: u8) -> (r: (u64, bool, bool, u64))
        requires
            old(self).wf(),
            op % 4 == 3,
        ensures
            final(self).wf(),
            final(self).cy == old(self).cy,
            r.0 <= 1,
            r.0 == 1 ==> spec_has_page_penalty(op),
            r.1 ==> spec_is_branch(op),
            r.2 ==> r.1,
            !spec_is_branch(op) ==> !r.1 && !r.2,
            r.3 == 0 || r.3 as int == 513 + old(self).cy as int % 2,
            final(self).conditional_jump == (old(self).conditional_jump || spec_is_branch(op)),
            final(self).nmi_pending == old(self).nmi_pending,
    {
        let mut pen: u64 = 0;
        let mut btaken: bool = false;
        let mut bcross: bool = false;
        let mut stall: u64 = 0;
        match op {
            0x23 => {
                let ea: u16 = self.ea_indx();
                let v: u8 = self.read(ea);
                let c0: u16 = if self.flag_c { 1 } else { 0 };
                let r: u8 = ((v as u16 * 2 + c0) % 256) as u8;
                self.flag_c = v >= 128;
                stall = stall + self.write(ea, r);
                let r2: u8 = self.a & r;
                self.a = r2;
                self.set_zn(r2);
            
            
            
            
            
            },
            0x27 => {
                let ea: u16 = self.ea_zp();
                let v: u8 = self.read(ea);
                let c0: u16 = if self.flag_c { 1 } else { 0 };
                let r: u8 = ((v as u16 * 2 + c0) % 256) as u8;
                self.flag_c = v >= 128;
                stall = stall + self.write(ea, r);
                let r2: u8 = self.a & r;
                self.a = r2;
                self.set_zn(r2);
            
            
            
            
            
            },
            _ => {
            },
        }
        (pen, btaken, bcross, stall)
    }

    /// One slice of the instruction dispatcher.  Returns the page
    /// penalty charged, the branch outcome and the DMA stall.
    #[verifier::rlimit(100)]
    #[verifier::spinoff_prover]
    fn exec_c3_lo_a2_p1(&mut self, op: u8) -> (r: (u64, bool, bool, u64))
        requires
            old(self).wf(),
            op % 4 == 3,
        ensures
            final(self).wf(),
            final(self).cy == old(self).cy,
            r.0 <= 1,
            r.0 == 1 ==> spec_has_page_penalty(op),
            r.1 ==> spec_is_branch(op),
            r.2 ==> r.1,
            !spec_is_branch(op) ==> !r.1 && !r.2,
            r.3 == 0 || r.3 as int == 513 + old(self).cy as int % 2,
            final(self).conditional_jump == (old(self).conditional_jump || spec_is_branch(op)),
            final(self).nmi_pending == old(self).nmi_pending,
    {
        let mut pen: u64 = 0;
        let mut btaken: bool = false;
        let mut bcross: bool = false;
        let mut stall: u64 = 0;
        match op {
            0x2F => {
                let ea: u16 = self.ea_abs();
                let v: u8 = self.read(ea);
                let c0: u16 = if self.flag_c { 1 } else { 0 };
                let r: u8 = ((v as u16 * 2 + c0) % 256) as u8;
                self.flag_c = v >= 128;
                stall = stall + self.write(ea, r);
                let r2: u8 = self.a & r;
                self.a = r2;
                self.set_zn(r2);
            
            
            
            
            
            },
            0x33 => {
                let (ea, _crossed): (u16, bool) = self.ea_indy();
                let v: u8 = self.read(ea);
                let c0: u16 = if self.flag_c { 1 } else { 0 };
                let r: u8 = ((v as u16 * 2 + c0) % 256) as u8;
                self.flag_c = v >= 128;
                stall = stall + self.write(ea, r);
                let r2: u8 = self.a & r;
                self.a = r2;
                self.set_zn(r2);
            
            
            
            
            
            },
            _ => {
            },
        }
        (pen, btaken, bcross, stall)
    }

    /// One slice of the instruction dispatcher.  Returns the page
    /// penalty charged, the branch outcome and the DMA stall.
    #[verifier::rlimit(100)]
    #[verifier::spinoff_prover]
    fn exec_c3_lo_a2_p2(&mut self, op: u8) -> (r: (u64, bool, bool, u64))
        requires
            old(self).wf(),
            op % 4 == 3,
        ensures
            final(self).wf(),
            final(self).cy == old(self).cy,
            r.0 <= 1,
            r.0 == 1 ==> spec_has_page_penalty(op),
            r.1 ==> spec_is_branch(op),
            r.2 ==> r.1,
            !spec_is_branch(op) ==> !r.1 && !r.2,
            r.3 == 0 || r.3 as int == 513 + old(self).cy as int % 2,
            final(self).conditional_jump == (old(self).conditional_jump || spec_is_branch(op)),
            final(self).nmi_pending == old(self).nmi_pending,
    {
        let mut pen: u64 = 0;
        let mut btaken: bool = false;
        let mut bcross: bool = false;
        let mut stall: u64 = 0;
        match op {
            0x37 => {
                let ea: u16 = self.ea_zpx();
                let v: u8 = self.read(ea);
                let c0: u16 = if self.flag_c { 1 } else { 0 };
                let r: u8 = ((v as u16 * 2 + c0) % 256) as u8;
                self.flag_c = v >= 128;
                stall = stall + self.write(ea, r);
                let r2: u8 = self.a & r;
                self.a = r2;
                self.set_zn(r2);
            
            
            
            
            
            },
            0x3B => {
                let (ea, _crossed): (u16, bool) = self.ea_absy();
                let v: u8 = self.read(ea);
                let c0: u16 = if self.flag_c { 1 } else { 0 };
                let r: u8 = ((v as u16 * 2 + c0) % 256) as u8;
                self.flag_c = v >= 128;
                stall = stall + self.write(ea, r);
                let r2: u8 = self.a & r;
                self.a = r2;
                self.set_zn(r2);
            
            
            
            
            
            },
            _ => {
            },
        }
        (pen, btaken, bcross, stall)
    }

    /// One slice of the instruction dispatcher.  Returns the page
    /// penalty charged, the branch outcome and the DMA stall.
    #[verifier::rlimit(100)]
    #[verifier::spinoff_prover]
    fn exec_c3_lo_a2_p3(&mut self, op: u8) -> (r: (u64, bool, bool, u64))
        requires
            old(self).wf(),
            op % 4 == 3,
        ensures
            final(self).wf(),
            final(self).cy == old(self).cy,
            r.0 <= 1,
            r.0 == 1 ==> spec_has_page_penalty(op),
            r.1 ==> spec_is_branch(op),
            r.2 ==> r.1,
            !spec_is_branch(op) ==> !r.1 && !r.2,
            r.3 == 0 || r.3 as int == 513 + old(self).cy as int % 2,
            final(self).conditional_jump == (old(self).conditional_jump || spec_is_branch(op)),
            final(self).nmi_pending == old(self).nmi_pending,
    {
        let mut pen: u64 = 0;
        let mut btaken: bool = false;
        let mut bcross: bool = false;
        let mut stall: u64 = 0;
        match op {
            0x3F => {
                let (ea, _crossed): (u16, bool) = self.ea_absx();
                let v: u8 = self.read(ea);
                let c0: u16 = if self.flag_c { 1 } else { 0 };
                let r: u8 = ((v as u16 * 2 + c0) % 256) as u8;
                self.flag_c = v >= 128;
                stall = stall + self.write(ea, r);
                let r2: u8 = self.a & r;
                self.a = r2;
                self.set_zn(r2);
            
            
            
            
            
            },
            _ => {
            },
        }
        (pen, btaken, bcross, stall)
    }

    /// One slice of the instruction dispatcher.  Returns the page
    /// penalty charged, the branch outcome and the DMA stall.
    fn exec_c3_lo_a2(&mut self, op: u8) -> (r: (u64, bool, bool, u64))
        requires
            old(self).wf(),
            op % 4 == 3,
        ensures
            final(self).wf(),
            final(self).cy == old(self).cy,
            r.0 <= 1,
            r.0 == 1 ==> spec_has_page_penalty(op),
            r.1 ==> spec_is_branch(op),
            r.2 ==> r.1,
            !spec_is_branch(op) ==> !r.1 && !r.2,
            r.3 == 0 || r.3 as int == 513 + old(self).cy as int % 2,
            final(self).conditional_jump == (old(self).conditional_jump || spec_is_branch(op)),
            final(self).nmi_pending == old(self).nmi_pending,
    {
        if op <= 0x27 {
            self.exec_c3_lo_a2_p0(op)
        } else if op <= 0x33 {
            self.exec_c3_lo_a2_p1(op)
        } else if op <= 0x3B {
            self.exec_c3_lo_a2_p2(op)
        } else {
            self.exec_c3_lo_a2_p3(op)
        }
    }

    /// One slice of the instruction dispatcher.  Returns the page
    /// penalty charged, the branch outcome and the DMA stall.
    fn exec_c3_lo_a(&mut self, op: u8) -> (r: (u64, bool, bool, u64))
        requires
            old(self).wf(),
            op % 4 == 3,
        ensures
            final(self).wf(),
            final(self).cy == old(self).cy,
            r.0 <= 1,
            r.0 == 1 ==> spec_has_page_penalty(op),
            r.1 ==> spec_is_branch(op),
            r.2 ==> r.1,
            !spec_is_branch(op) ==> !r.1 && !r.2,
            r.3 == 0 || r.3 as int == 513 + old(self).cy as int % 2,
            final(self).conditional_jump == (old(self).conditional_jump || spec_is_branch(op)),
            final(self).nmi_pending == old(self).nmi_pending,
    {
        if op <= 0x1F {
            self.exec_c3_lo_a1(op)
        } else {
            self.exec_c3_lo_a2(op)
        }
    }



    /// One slice of the instruction dispatcher.  Returns the page
    /// penalty charged, the branch outcome and the DMA stall.
    #[verifier::rlimit(100)]
    #[verifier::spinoff_prover]
    fn exec_c3_lo_b1_p0(&mut self, op: u8) -> (r: (u64, bool, bool, u64))
        requires
            old(self).wf(),
            op % 4 == 3,
        ensures
            final(self).wf(),
            final(self).cy == old(self).cy,
            r.0 <= 1,
            r.0 == 1 ==> spec_has_page_penalty(op),
            r.1 ==> spec_is_branch(op),
            r.2 ==> r.1,
            !spec_is_branch(op) ==> !r.1 && !r.2,
            r.3 == 0 || r.3 as int == 513 + old(self).cy as int % 2,
            final(self).conditional_jump == (old(self).conditional_jump || spec_is_branch(op)),
            final(self).nmi_pending == old(self).nmi_pending,
    {
        let mut pen: u64 = 0;
        let mut btaken: bool = false;
        let mut bcross: bool = false;
        let mut stall: u64 = 0;
        match op {
            0x43 => {
                let ea: u16 = self.ea_indx();
                let v: u8 = self.read(ea);
                let r: u8 = v / 2;
                self.flag_c = v % 2 == 1;
                stall = stall + self.write(ea, r);
                let r2: u8 = self.a ^ r;
                self.a = r2;
                self.set_zn(r2);
            
            
            
            
            
            },
            0x47 => {
                let ea: u16 = self.ea_zp();
                let v: u8 = self.read(ea);
                let r: u8 = v / 2;
                self.flag_c = v % 2 == 1;
                stall = stall + self.write(ea, r);
                let r2: u8 = self.a ^ r;
                self.a = r2;
                self.set_zn(r2);
            
            
            
            
            
            },
            _ => {
            },
        }
        (pen, btaken, bcross, stall)
    }

    /// One slice of the instruction dispatcher.  Returns the page
    /// penalty charged, the branch outcome and the DMA stall.
    #[verifier::rlimit(100)]
    #[verifier::spinoff_prover]
    fn exec_c3_lo_b1_p1(&mut self, op: u8) -> (r: (u64, bool, bool, u64))
        requires
            old(self).wf(),
            op % 4 == 3,
        ensures
            final(self).wf(),
            final(self).cy == old(self).cy,
            r.0 <= 1,
            r.0 == 1 ==> spec_has_page_penalty(op),
            r.1 ==> spec_is_branch(op),
            r.2 ==> r.1,
            !spec_is_branch(op) ==> !r.1 && !r.2,
            r.3 == 0 || r.3 as int == 513 + old(self).cy as int % 2,
            final(self).conditional_jump == (old(self).conditional_jump || spec_is_branch(op)),
            final(self).nmi_pending == old(self).nmi_pending,
    {
        let mut pen: u64 = 0;
        let mut btaken: bool = false;
        let mut bcross: bool = false;
        let mut stall: u64 = 0;
        match op {
            0x4F => {
                let ea: u16 = self.ea_abs();
                let v: u8 = self.read(ea);
                let r: u8 = v / 2;
                self.flag_c = v % 2 == 1;
                stall = stall + self.write(ea, r);
                let r2: u8 = self.a ^ r;
                self.a = r2;
                self.set_zn(r2);
            
            
            
            
            
            },
            0x53 => {
                let (ea, _crossed): (u16, bool) = self.ea_indy();
                let v: u8 = self.read(ea);
                let r: u8 = v / 2;
                self.flag_c = v % 2 == 1;
                stall = stall + self.write(ea, r);
                let r2: u8 = self.a ^ r;
                self.a = r2;
                self.set_zn(r2);
            
            
            
            
            
            },
            _ => {
            },
        }
        (pen, btaken, bcross, stall)
    }

    /// One slice of the instruction dispatcher.  Returns the page
    /// penalty charged, the branch outcome and the DMA stall.
    #[verifier::rlimit(100)]
    #[verifier::spinoff_prover]
    fn exec_c3_lo_b1_p2(&mut self, op: u8) -> (r: (u64, bool, bool, u64))
        requires
            old(self).wf(),
            op % 4 == 3,
        ensures
            final(self).wf(),
            final(self).cy == old(self).cy,
            r.0 <= 1,
            r.0 == 1 ==> spec_has_page_penalty(op),
            r.1 ==> spec_is_branch(op),
            r.2 ==> r.1,
            !spec_is_branch(op) ==> !r.1 && !r.2,
            r.3 == 0 || r.3 as int == 513 + old(self).cy as int % 2,
            final(self).conditional_jump == (old(self).conditional_jump || spec_is_branch(op)),
            final(self).nmi_pending == old(self).nmi_pending,
    {
        let mut pen: u64 = 0;
        let mut btaken: bool = false;
        let mut bcross: bool = false;
        let mut stall: u64 = 0;
        match op {
            0x57 => {
                let ea: u16 = self.ea_zpx();
                let v: u8 = self.read(ea);
                let r: u8 = v / 2;
                self.flag_c = v % 2 == 1;
                stall = stall + self.write(ea, r);
                let r2: u8 = self.a ^ r;
                self.a = r2;
                self.set_zn(r2);
            
            
            
            
            
            },
            0x5B => {
                let (ea, _crossed): (u16, bool) = self.ea_absy();
                let v: u8 = self.read(ea);
                let r: u8 = v / 2;
                self.flag_c = v % 2 == 1;
                stall = stall + self.write(ea, r);
                let r2: u8 = self.a ^ r;
                self.a = r2;
                self.set_zn(r2);
            
            
            
            
            
            },
            _ => {
            },
        }
        (pen, btaken, bcross, stall)
    }

    /// One slice of the instruction dispatcher.  Returns the page
    /// penalty charged, the branch outcome and the DMA stall.
    #[verifier::rlimit(100)]
    #[verifier::spinoff_prover]
    fn exec_c3_lo_b1_p3(&mut self, op: u8) -> (r: (u64, bool, bool, u64))
        requires
            old(self).wf(),
            op % 4 == 3,
        ensures
            final(self).wf(),
            final(self).cy == old(self).cy,
            r.0 <= 1,
            r.0 == 1 ==> spec_has_page_penalty(op),
            r.1 ==> spec_is_branch(op),
            r.2 ==> r.1,
            !spec_is_branch(op) ==> !r.1 && !r.2,
            r.3 == 0 || r.3 as int == 513 + old(self).cy as int % 2,
            final(self).conditional_jump == (old(self).conditional_jump || spec_is_branch(op)),
            final(self).nmi_pending == old(self).nmi_pending,
    {
        let mut pen: u64 = 0;
        let mut btaken: bool = false;
        let mut bcross: bool = false;
        let mut stall: u64 = 0;
        match op {
            0x5F => {
                let (ea, _crossed): (u16, bool) = self.ea_absx();
                let v: u8 = self.read(ea);
                let r: u8 = v / 2;
                self.flag_c = v % 2 == 1;
                stall = stall + self.write(ea, r);
                let r2: u8 = self.a ^ r;
                self.a = r2;
                self.set_zn(r2);
            
            
            
            
            
            },
            _ => {
            },
        }
        (pen, btaken, bcross, stall)
    }

    /// One slice of the instruction dispatcher.  Returns the page
    /// penalty charged, the branch outcome and the DMA stall.
    fn exec_c3_lo_b1(&mut self, op: u8) -> (r: (u64, bool, bool, u64))
        requires
            old(self).wf(),
            op % 4 == 3,
        ensures
            final(self).wf(),
            final(self).cy == old(self).cy,
            r.0 <= 1,
            r.0 == 1 ==> spec_has_page_penalty(op),
            r.1 ==> spec_is_branch(op),
            r.2 ==> r.1,
            !spec_is_branch(op) ==> !r.1 && !r.2,
            r.3 == 0 || r.3 as int == 513 + old(self).cy as int % 2,
            final(self).conditional_jump == (old(self).conditional_jump || spec_is_branch(op)),
            final(self).nmi_pending == old(self).nmi_pending,
    {
        if op <= 0x47 {
            self.exec_c3_lo_b1_p0(op)
        } else if op <= 0x53 {
            self.exec_c3_lo_b1_p1(op)
        } else if op <= 0x5B {
            self.exec_c3_lo_b1_p2(op)
        } else {
            self.exec_c3_lo_b1_p3(op)
        }
    }


    /// One slice of the instruction dispatcher.  Returns the page
    /// penalty charged, the branch outcome and the DMA stall.
    #[verifier::rlimit(100)]
    #[verifier::spinoff_prover]
    fn exec_c3_lo_b2_p0(&mut self, op: u8) -> (r: (u64, bool, bool, u64))
        requires
            old(self).wf(),
            op % 4 == 3,
        ensures
            final(self).wf(),
            final(self).cy == old(self).cy,
            r.0 <= 1,
            r.0 == 1 ==> spec_has_page_penalty(op),
            r.1 ==> spec_is_branch(op),
            r.2 ==> r.1,
            !spec_is_branch(op) ==> !r.1 && !r.2,
            r.3 == 0 || r.3 as int == 513 + old(self).cy as int % 2,
            final(self).conditional_jump == (old(self).conditional_jump || spec_is_branch(op)),
            final(self).nmi_pending == old(self).nmi_pending,
    {
        let mut pen: u64 = 0;
        let mut btaken: bool = false;
        let mut bcross: bool = false;
        let mut stall: u64 = 0;
        match op {
            0x63 => {
                let ea: u16 = self.ea_indx();
                let v: u8 = self.read(ea);
                let c0: u8 = if self.flag_c { 128 } else { 0 };
                let r: u8 = v / 2 + c0;
                self.flag_c = v % 2 == 1;
                stall = stall + self.write(ea, r);
                self.adc(r);
            
            
            
            
            
            },
            0x67 => {
                let ea: u16 = self.ea_zp();
                let v: u8 = self.read(ea);
                let c0: u8 = if self.flag_c { 128 } else { 0 };
                let r: u8 = v / 2 + c0;
                self.flag_c = v % 2 == 1;
                stall = stall + self.write(ea, r);
                self.adc(r);
            
            
            
            
            
            },
            _ => {
            },
        }
        (pen, btaken, bcross, stall)
    }

    /// One slice of the instruction dispatcher.  Returns the page
    /// penalty charged, the branch outcome and the DMA stall.
    #[verifier::rlimit(100)]
    #[verifier::spinoff_prover]
    fn exec_c3_lo_b2_p1(&mut self, op: u8) -> (r: (u64, bool, bool, u64))
        requires
            old(self).wf(),
            op % 4 == 3,
        ensures
            final(self).wf(),
            final(self).cy == old(self).cy,
            r.0 <= 1,
            r.0 == 1 ==> spec_has_page_penalty(op),
            r.1 ==> spec_is_branch(op),
            r.2 ==> r.1,
            !spec_is_branch(op) ==> !r.1 && !r.2,
            r.3 == 0 || r.3 as int == 513 + old(self).cy as int % 2,
            final(self).conditional_jump == (old(self).conditional_jump || spec_is_branch(op)),
            final(self).nmi_pending == old(self).nmi_pending,
    {
        let mut pen: u64 = 0;
        let mut btaken: bool = false;
        let mut bcross: bool = false;
        let mut stall: u64 = 0;
        match op {
            0x6F => {
                let ea: u16 = self.ea_abs();
                let v: u8 = self.read(ea);
                let c0: u8 = if self.flag_c { 128 } else { 0 };
                let r: u8 = v / 2 + c0;
                self.flag_c = v % 2 == 1;
                stall = stall + self.write(ea, r);
                self.adc(r);
            
            
            
            
            
            },
            0x73 => {
                let (ea, _crossed): (u16, bool) = self.ea_indy();
                let v: u8 = self.read(ea);
                let c0: u8 = if self.flag_c { 128 } else { 0 };
                let r: u8 = v / 2 + c0;
                self.flag_c = v % 2 == 1;
                stall = stall + self.write(ea, r);
                self.adc(r);
            
            
            
            
            
            },
            _ => {
            },
        }
        (pen, btaken, bcross, stall)
    }

    /// One slice of the instruction dispatcher.  Returns the page
    /// penalty charged, the branch outcome and the DMA stall.
    #[verifier::rlimit(100)]
    #[verifier::spinoff_prover]
    fn exec_c3_lo_b2_p2(&mut self, op: u8) -> (r: (u64, bool, bool, u64))
        requires
            old(self).wf(),
            op % 4 == 3,
        ensures
            final(self).wf(),
            final(self).cy == old(self).cy,
            r.0 <= 1,
            r.0 == 1 ==> spec_has_page_penalty(op),
            r.1 ==> spec_is_branch(op),
            r.2 ==> r.1,
            !spec_is_branch(op) ==> !r.1 && !r.2,
            r.3 == 0 || r.3 as int == 513 + old(self).cy as int % 2,
            final(self).conditional_jump == (old(self).conditional_jump || spec_is_branch(op)),
            final(self).nmi_pending == old(self).nmi_pending,
    {
        let mut pen: u64 = 0;
        let mut btaken: bool = false;
        let mut bcross: bool = false;
        let mut stall: u64 = 0;
        match op {
            0x77 => {
                let ea: u16 = self.ea_zpx();
                let v: u8 = self.read(ea);
                let c0: u8 = if self.flag_c { 128 } else { 0 };
                let r: u8 = v / 2 + c0;
                self.flag_c = v % 2 == 1;
                stall = stall + self.write(ea, r);
                self.adc(r);
            
            
            
            
            
            },
            0x7B => {
                let (ea, _crossed): (u16, bool) = self.ea_absy();
                let v: u8 = self.read(ea);
                let c0: u8 = if self.flag_c { 128 } else { 0 };
                let r: u8 = v / 2 + c0;
                self.flag_c = v % 2 == 1;
                stall = stall + self.write(ea, r);
                self.adc(r);
            
            
            
            
            
            },
            _ => {
            },
        }
        (pen, btaken, bcross, stall)
    }

    /// One slice of the instruction dispatcher.  Returns the page
    /// penalty charged, the branch outcome and the DMA stall.
    #[verifier::rlimit(100)]
    #[verifier::spinoff_prover]
    fn exec_c3_lo_b2_p3(&mut self, op: u8) -> (r: (u64, bool, bool, u64))
        requires
            old(self).wf(),
            op % 4 == 3,
        ensures
            final(self).wf(),
            final(self).cy == old(self).cy,
            r.0 <= 1,
            r.0 == 1 ==> spec_has_page_penalty(op),
            r.1 ==> spec_is_branch(op),
            r.2 ==> r.1,
            !spec_is_branch(op) ==> !r.1 && !r.2,
            r.3 == 0 || r.3 as int == 513 + old(self).cy as int % 2,
            final(self).conditional_jump == (old(self).conditional_jump || spec_is_branch(op)),
            final(self).nmi_pending == old(self).nmi_pending,
    {
        let mut pen: u64 = 0;
        let mut btaken: bool = false;
        let mut bcross: bool = false;
        let mut stall: u64 = 0;
        match op {
            0x7F => {
                let (ea, _crossed): (u16, bool) = self.ea_absx();
                let v: u8 = self.read(ea);
                let c0: u8 = if self.flag_c { 128 } else { 0 };
                let r: u8 = v / 2 + c0;
                self.flag_c = v % 2 == 1;
                stall = stall + self.write(ea, r);
                self.adc(r);
            
            
            
            
            
            },
            _ => {
            },
        }
        (pen, btaken, bcross, stall)
    }

    /// One slice of the instruction dispatcher.  Returns the page
    /// penalty charged, the branch outcome and the DMA stall.
    fn exec_c3_lo_b2(&mut self, op: u8) -> (r: (u64, bool, bool, u64))
        requires
            old(self).wf(),
            op % 4 == 3,
        ensures
            final(self).wf(),
            final(self).cy == old(self).cy,
            r.0 <= 1,
            r.0 == 1 ==> spec_has_page_penalty(op),
            r.1 ==> spec_is_branch(op),
            r.2 ==> r.1,
            !spec_is_branch(op) ==> !r.1 && !r.2,
            r.3 == 0 || r.3 as int == 513 + old(self).cy as int % 2,
            final(self).conditional_jump == (old(self).conditional_jump || spec_is_branch(op)),
            final(self).nmi_pending == old(self).nmi_pending,
    {
        if op <= 0x67 {
            self.exec_c3_lo_b2_p0(op)
        } else if op <= 0x73 {
            self.exec_c3_lo_b2_p1(op)
        } else if op <= 0x7B {
            self.exec_c3_lo_b2_p2(op)
        } else {
            self.exec_c3_lo_b2_p3(op)
        }
    }

    /// One slice of the instruction dispatcher.  Returns the page
    /// penalty charged, the branch outcome and the DMA stall.
    fn exec_c3_lo_b(&mut self, op: u8) -> (r: (u64, bool, bool, u64))
        requires
            old(self).wf(),
            op % 4 == 3,
        ensures
            final(self).wf(),
            final(self).cy == old(self).cy,
            r.0 <= 1,
            r.0 == 1 ==> spec_has_page_penalty(op),
            r.1 ==> spec_is_branch(op),
            r.2 ==> r.1,
            !spec_is_branch(op) ==> !r.1 && !r.2,
            r.3 == 0 || r.3 as int == 513 + old(self).cy as int % 2,
            final(self).conditional_jump == (old(self).conditional_jump || spec_is_branch(op)),
            final(self).nmi_pending == old(self).nmi_pending,
    {
        if op <= 0x5F {
            self.exec_c3_lo_b1(op)
        } else {
            self.exec_c3_lo_b2(op)
        }
    }



    /// One slice of the instruction dispatcher.  Returns the page
    /// penalty charged, the branch outcome and the DMA stall.
    #[verifier::rlimit(100)]
    #[verifier::spinoff_prover]
    fn exec_c3_hi_a1_p0(&mut self, op: u8) -> (r: (u64, bool, bool, u64))
        requires
            old(self).wf(),
            op % 4 == 3,
        ensures
            final(self).wf(),
            final(self).cy == old(self).cy,
            r.0 <= 1,
            r.0 == 1 ==> spec_has_page_penalty(op),
            r.1 ==> spec_is_branch(op),
            r.2 ==> r.1,
            !spec_is_branch(op) ==> !r.1 && !r.2,
            r.3 == 0 || r.3 as int == 513 + old(self).cy as int % 2,
            final(self).conditional_jump == (old(self).conditional_jump || spec_is_branch(op)),
            final(self).nmi_pending == old(self).nmi_pending,
    {
        let mut pen: u64 = 0;
        let mut btaken: bool = false;
        let mut bcross: bool = false;
        let mut stall: u64 = 0;
        match op {
            0x83 => {
                let ea: u16 = self.ea_indx();
                let v: u8 = self.a & self.x;
                stall = stall + self.write(ea, v);
            
            
            
            
            
            },
            0x87 => {
                let ea: u16 = self.ea_zp();
                let v: u8 = self.a & self.x;
                stall = stall + self.write(ea, v);
            
            
            
            
            
            },
            _ => {
            },
        }
        (pen, btaken, bcross, stall)
    }

    /// One slice of the instruction dispatcher.  Returns the page
    /// penalty charged, the branch outcome and the DMA stall.
    #[verifier::rlimit(100)]
    #[verifier::spinoff_prover]
    fn exec_c3_hi_a1_p1(&mut self, op: u8) -> (r: (u64, bool, bool, u64))
        requires
            old(self).wf(),
            op % 4 == 3,
        ensures
            final(self).wf(),
            final(self).cy == old(self).cy,
            r.0 <= 1,
            r.0 == 1 ==> spec_has_page_penalty(op),
            r.1 ==> spec_is_branch(op),
            r.2 ==> r.1,
            !spec_is_branch(op) ==> !r.1 && !r.2,
            r.3 == 0 || r.3 as int == 513 + old(self).cy as int % 2,
            final(self).conditional_jump == (old(self).conditional_jump || spec_is_branch(op)),
            final(self).nmi_pending == old(self).nmi_pending,
    {
        let mut pen: u64 = 0;
        let mut btaken: bool = false;
        let mut bcross: bool = false;
        let mut stall: u64 = 0;
        match op {
            0x8F => {
                let ea: u16 = self.ea_abs();
                let v: u8 = self.a & self.x;
                stall = stall + self.write(ea, v);
            
            
            
            
            
            },
            0x97 => {
                let ea: u16 = self.ea_zpy();
                let v: u8 = self.a & self.x;
                stall = stall + self.write(ea, v);
            
            
            
            
            
            },
            _ => {
            },
        }
        (pen, btaken, bcross, stall)
    }

    /// One slice of the instruction dispatcher.  Returns the page
    /// penalty charged, the branch outcome and the DMA stall.
    #[verifier::rlimit(100)]
    #[verifier::spinoff_prover]
    fn exec_c3_hi_a1_p2(&mut self, op: u8) -> (r: (u64, bool, bool, u64))
        requires
            old(self).wf(),
            op % 4 == 3,
        ensures
            final(self).wf(),
            final(self).cy == old(self).cy,
            r.0 <= 1,
            r.0 == 1 ==> spec_has_page_penalty(op),
            r.1 ==> spec_is_branch(op),
            r.2 ==> r.1,
            !spec_is_branch(op) ==> !r.1 && !r.2,
            r.3 == 0 || r.3 as int == 513 + old(self).cy as int % 2,
            final(self).conditional_jump == (old(self).conditional_jump || spec_is_branch(op)),
            final(self).nmi_pending == old(self).nmi_pending,
    {
        let mut pen: u64 = 0;
        let mut btaken: bool = false;
        let mut bcross: bool = false;
        let mut stall: u64 = 0;
        match op {
            0xA3 => {
                let ea: u16 = self.ea_indx();
                let v: u8 = self.read(ea);
                self.a = v;
                self.x = v;
                self.set_zn(v);
            
            
            
            
            
            },
            0xA7 => {
                let ea: u16 = self.ea_zp();
                let v: u8 = self.read(ea);
                self.a = v;
                self.x = v;
                self.set_zn(v);
            
            
            
            
            
            },
            _ => {
            },
        }
        (pen, btaken, bcross, stall)
    }

    /// One slice of the instruction dispatcher.  Returns the page
    /// penalty charged, the branch outcome and the DMA stall.
    fn exec_c3_hi_a1(&mut self, op: u8) -> (r: (u64, bool, bool, u64))
        requires
            old(self).wf(),
            op % 4 == 3,
        ensures
            final(self).wf(),
            final(self).cy == old(self).cy,
            r.0 <= 1,
            r.0 == 1 ==> spec_has_page_penalty(op),
            r.1 ==> spec_is_branch(op),
            r.2 ==> r.1,
            !spec_is_branch(op) ==> !r.1 && !r.2,
            r.3 == 0 || r.3 as int == 513 + old(self).cy as int % 2,
            final(self).conditional_jump == (old(self).conditional_jump || spec_is_branch(op)),
            final(self).nmi_pending == old(self).nmi_pending,
    {
        if op <= 0x87 {
            self.exec_c3_hi_a1_p0(op)
        } else if op <= 0x97 {
            self.exec_c3_hi_a1_p1(op)
        } else {
            self.exec_c3_hi_a1_p2(op)
        }
    }


    /// One slice of the instruction dispatcher.  Returns the page
    /// penalty charged, the branch outcome and the DMA stall.
    #[verifier::rlimit(100)]
    #[verifier::spinoff_prover]
    fn exec_c3_hi_a2_p0(&mut self, op: u8) -> (r: (u64, bool, bool, u64))
        requires
            old(self).wf(),
            op % 4 == 3,
        ensures
            final(self).wf(),
            final(self).cy == old(self).cy,
            r.0 <= 1,
            r.0 == 1 ==> spec_has_page_penalty(op),
            r.1 ==> spec_is_branch(op),
            r.2 ==> r.1,
            !spec_is_branch(op) ==> !r.1 && !r.2,
            r.3 == 0 || r.3 as int == 513 + old(self).cy as int % 2,
            final(self).conditional_jump == (old(self).conditional_jump || spec_is_branch(op)),
            final(self).nmi_pending == old(self).nmi_pending,
    {
        let mut pen: u64 = 0;
        let mut btaken: bool = false;
        let mut bcross: bool = false;
        let mut stall: u64 = 0;
        match op {
            0xAF => {
                let ea: u16 = self.ea_abs();
                let v: u8 = self.read(ea);
                self.a = v;
                self.x = v;
                self.set_zn(v);
            
            
            
            
            
            },
            0xB3 => {
                let (ea, crossed): (u16, bool) = self.ea_indy();
                let v: u8 = self.read(ea);
                if crossed {
                    pen = 1;
                }
                self.a = v;
                self.x = v;
                self.set_zn(v);
            
            
            
            
            
            },
            _ => {
            },
        }
        (pen, btaken, bcross, stall)
    }

    /// One slice of the instruction dispatcher.  Returns the page
    /// penalty charged, the branch outcome and the DMA stall.
    #[verifier::rlimit(100)]
    #[verifier::spinoff_prover]
    fn exec_c3_hi_a2_p1(&mut self, op: u8) -> (r: (u64, bool, bool, u64))
        requires
            old(self).wf(),
            op % 4 == 3,
        ensures
            final(self).wf(),
            final(self).cy == old(self).cy,
            r.0 <= 1,
            r.0 == 1 ==> spec_has_page_penalty(op),
            r.1 ==> spec_is_branch(op),
            r.2 ==> r.1,
            !spec_is_branch(op) ==> !r.1 && !r.2,
            r.3 == 0 || r.3 as int == 513 + old(self).cy as int % 2,
            final(self).conditional_jump == (old(self).conditional_jump || spec_is_branch(op)),
            final(self).nmi_pending == old(self).nmi_pending,
    {
        let mut pen: u64 = 0;
        let mut btaken: bool = false;
        let mut bcross: bool = false;
        let mut stall: u64 = 0;
        match op {
            0xB7 => {
                let ea: u16 = self.ea_zpy();
                let v: u8 = self.read(ea);
                self.a = v;
                self.x = v;
                self.set_zn(v);
            
            
            
            
            
            },
            0xBF => {
                let (ea, crossed): (u16, bool) = self.ea_absy();
                let v: u8 = self.read(ea);
                if crossed {
                    pen = 1;
                }
                self.a = v;
                self.x = v;
                self.set_zn(v);
            
            
            
            
            
            },
            _ => {
            },
        }
        (pen, btaken, bcross, stall)
    }

    /// One slice of the instruction dispatcher.  Returns the page
    /// penalty charged, the branch outcome and the DMA stall.
    #[verifier::rlimit(100)]
    #[verifier::spinoff_prover]
    fn exec_c3_hi_a2_p2(&mut self, op: u8) -> (r: (u64, bool, bool, u64))
        requires
            old(self).wf(),
            op % 4 == 3,
        ensures
            final(self).wf(),
            final(self).cy == old(self).cy,
            r.0 <= 1,
            r.0 == 1 ==> spec_has_page_penalty(op),
            r.1 ==> spec_is_branch(op),
            r.2 ==> r.1,
            !spec_is_branch(op) ==> !r.1 && !r.2,
            r.3 == 0 || r.3 as int == 513 + old(self).cy as int % 2,
            final(self).conditional_jump == (old(self).conditional_jump || spec_is_branch(op)),
            final(self).nmi_pending == old(self).nmi_pending,
    {
        let mut pen: u64 = 0;
        let mut btaken: bool = false;
        let mut bcross: bool = false;
        let mut stall: u64 = 0;
        match op {
            0xC3 => {
                let ea: u16 = self.ea_indx();
                let v: u8 = self.read(ea);
                let r: u8 = ((v as u16 + 255) % 256) as u8;
                stall = stall + self.write(ea, r);
                let a0: u8 = self.a;
                self.compare(a0, r);
            
            
            
            
            
            },
            0xC7 => {
                let ea: u16 = self.ea_zp();
                let v: u8 = self.read(ea);
                let r: u8 = ((v as u16 + 255) % 256) as u8;
                stall = stall + self.write(ea, r);
                let a0: u8 = self.a;
                self.compare(a0, r);
            
            
            
            
            
            },
            _ => {
            },
        }
        (pen, btaken, bcross, stall)
    }

    /// One slice of the instruction dispatcher.  Returns the page
    /// penalty charged, the branch outcome and the DMA stall.
    fn exec_c3_hi_a2(&mut self, op: u8) -> (r: (u64, bool, bool, u64))
        requires
            old(self).wf(),
            op % 4 == 3,
        ensures
            final(self).wf(),
            final(self).cy == old(self).cy,
            r.0 <= 1,
            r.0 == 1 ==> spec_has_page_penalty(op),
            r.1 ==> spec_is_branch(op),
            r.2 ==> r.1,
            !spec_is_branch(op) ==> !r.1 && !r.2,
            r.3 == 0 || r.3 as int == 513 + old(self).cy as int % 2,
            final(self).conditional_jump == (old(self).conditional_jump || spec_is_branch(op)),
            final(self).nmi_pending == old(self).nmi_pending,
    {
        if op <= 0xB3 {
            self.exec_c3_hi_a2_p0(op)
        } else if op <= 0xBF {
            self.exec_c3_hi_a2_p1(op)
        } else {
            self.exec_c3_hi_a2_p2(op)
        }
    }

    /// One slice of the instruction dispatcher.  Returns the page
    /// penalty charged, the branch outcome and the DMA stall.
    fn exec_c3_hi_a(&mut self, op: u8) -> (r: (u64, bool, bool, u64))
        requires
            old(self).wf(),
            op % 4 == 3,
        ensures
            final(self).wf(),
            final(self).cy == old(self).cy,
            r.0 <= 1,
            r.0 == 1 ==> spec_has_page_penalty(op),
            r.1 ==> spec_is_branch(op),
            r.2 ==> r.1,
            !spec_is_branch(op) ==> !r.1 && !r.2,
            r.3 == 0 || r.3 as int == 513 + old(self).cy as int % 2,
            final(self).conditional_jump == (old(self).conditional_jump || spec_is_branch(op)),
            final(self).nmi_pending == old(self).nmi_pending,
    {
        if op <= 0xA7 {
            self.exec_c3_hi_a1(op)
        } else {
            self.exec_c3_hi_a2(op)
        }
    }



    /// One slice of the instruction dispatcher.  Returns the page
    /// penalty charged, the branch outcome and the DMA stall.
    #[verifier::rlimit(100)]
    #[verifier::spinoff_prover]
    fn exec_c3_hi_b1_p0(&mut self, op: u8) -> (r: (u64, bool, bool, u64))
        requires
            old(self).wf(),
            op % 4 == 3,
        ensures
            final(self).wf(),
            final(self).cy == old(self).cy,
            r.0 <= 1,
            r.0 == 1 ==> spec_has_page_penalty(op),
            r.1 ==> spec_is_branch(op),
            r.2 ==> r.1,
            !spec_is_branch(op) ==> !r.1 && !r.2,
            r.3 == 0 || r.3 as int == 513 + old(self).cy as int % 2,
            final(self).conditional_jump == (old(self).conditional_jump || spec_is_branch(op)),
            final(self).nmi_pending == old(self).nmi_pending,
    {
        let mut pen: u64 = 0;
        let mut btaken: bool = false;
        let mut bcross: bool = false;
        let mut stall: u64 = 0;
        match op {
            0xCF => {
                let ea: u16 = self.ea_abs();
                let v: u8 = self.read(ea);
                let r: u8 = ((v as u16 + 255) % 256) as u8;
                stall = stall + self.write(ea, r);
                let a0: u8 = self.a;
                self.compare(a0, r);
            
            
            
            
            
            },
            0xD3 => {
                let (ea, _crossed): (u16, bool) = self.ea_indy();
                let v: u8 = self.read(ea);
                let r: u8 = ((v as u16 + 255) % 256) as u8;
                stall = stall + self.write(ea, r);
                let a0: u8 = self.a;
                self.compare(a0, r);
            
            
            
            
            
            },
            _ => {
            },
        }
        (pen, btaken, bcross, stall)
    }

    /// One slice of the instruction dispatcher.  Returns the page
    /// penalty charged, the branch outcome and the DMA stall.
    #[verifier::rlimit(100)]
    #[verifier::spinoff_prover]
    fn exec_c3_hi_b1_p1(&mut self, op: u8) -> (r: (u64, bool, bool, u64))
        requires
            old(self).wf(),
            op % 4 == 3,
        ensures
            final(self).wf(),
            final(self).cy == old(self).cy,
            r.0 <= 1,
            r.0 == 1 ==> spec_has_page_penalty(op),
            r.1 ==> spec_is_branch(op),
            r.2 ==> r.1,
            !spec_is_branch(op) ==> !r.1 && !r.2,
            r.3 == 0 || r.3 as int == 513 + old(self).cy as int % 2,
            final(self).conditional_jump == (old(self).conditional_jump || spec_is_branch(op)),
            final(self).nmi_pending == old(self).nmi_pending,
    {
        let mut pen: u64 = 0;
        let mut btaken: bool = false;
        let mut bcross: bool = false;
        let mut stall: u64 = 0;
        match op {
            0xD7 => {
                let ea: u16 = self.ea_zpx();
                let v: u8 = self.read(ea);
                let r: u8 = ((v as u16 + 255) % 256) as u8;
                stall = stall + self.write(ea, r);
                let a0: u8 = self.a;
                self.compare(a0, r);
            
            
            
            
            
            },
            0xDB => {
                let (ea, _crossed): (u16, bool) = self.ea_absy();
                let v: u8 = self.read(ea);
                let r: u8 = ((v as u16 + 255) % 256) as u8;
                stall = stall + self.write(ea, r);
                let a0: u8 = self.a;
                self.compare(a0, r);
            
            
            
            
            
            },
            _ => {
            },
        }
        (pen, btaken, bcross, stall)
    }

    /// One slice of the instruction dispatcher.  Returns the page
    /// penalty charged, the branch outcome and the DMA stall.
    #[verifier::rlimit(100)]
    #[verifier::spinoff_prover]
    fn exec_c3_hi_b1_p2(&mut self, op: u8) -> (r: (u64, bool, bool, u64))
        requires
            old(self).wf(),
            op % 4 == 3,
        ensures
            final(self).wf(),
            final(self).cy == old(self).cy,
            r.0 <= 1,
            r.0 == 1 ==> spec_has_page_penalty(op),
            r.1 ==> spec_is_branch(op),
            r.2 ==> r.1,
            !spec_is_branch(op) ==> !r.1 && !r.2,
            r.3 == 0 || r.3 as int == 513 + old(self).cy as int % 2,
            final(self).conditional_jump == (old(self).conditional_jump || spec_is_branch(op)),
            final(self).nmi_pending == old(self).nmi_pending,
    {
        let mut pen: u64 = 0;
        let mut btaken: bool = false;
        let mut bcross: bool = false;
        let mut stall: u64 = 0;
        match op {
            0xDF => {
                let (ea, _crossed): (u16, bool) = self.ea_absx();
                let v: u8 = self.read(ea);
                let r: u8 = ((v as u16 + 255) % 256) as u8;
                stall = stall + self.write(ea, r);
                let a0: u8 = self.a;
                self.compare(a0, r);
            
            
            
            
            
            },
            0xE3 => {
                let ea: u16 = self.ea_indx();
                let v: u8 = self.read(ea);
                let r: u8 = ((v as u16 + 1) % 256) as u8;
                stall = stall + self.write(ea, r);
                self.sbc(r);
            
            
            
            
            
            },
            _ => {
            },
        }
        (pen, btaken, bcross, stall)
    }

    /// One slice of the instruction dispatcher.  Returns the page
    /// penalty charged, the branch outcome and the DMA stall.
    fn exec_c3_hi_b1(&mut self, op: u8) -> (r: (u64, bool, bool, u64))
        requires
            old(self).wf(),
            op % 4 == 3,
        ensures
            final(self).wf(),
            final(self).cy == old(self).cy,
            r.0 <= 1,
            r.0 == 1 ==> spec_has_page_penalty(op),
            r.1 ==> spec_is_branch(op),
            r.2 ==> r.1,
            !spec_is_branch(op) ==> !r.1 && !r.2,
            r.3 == 0 || r.3 as int == 513 + old(self).cy as int % 2,
            final(self).conditional_jump == (old(self).conditional_jump || spec_is_branch(op)),
            final(self).nmi_pending == old(self).nmi_pending,
    {
        if op <= 0xD3 {
            self.exec_c3_hi_b1_p0(op)
        } else if op <= 0xDB {
            self.exec_c3_hi_b1_p1(op)
        } else {
            self.exec_c3_hi_b1_p2(op)
        }
    }


    /// One slice of the instruction dispatcher.  Returns the page
    /// penalty charged, the branch outcome and the DMA stall.
    #[verifier::rlimit(100)]
    #[verifier::spinoff_prover]
    fn exec_c3_hi_b2_p0(&mut self, op: u8) -> (r: (u64, bool, bool, u64))
        requires
            old(self).wf(),
            op % 4 == 3,
        ensures
            final(self).wf(),
            final(self).cy == old(self).cy,
            r.0 <= 1,
            r.0 == 1 ==> spec_has_page_penalty(op),
            r.1 ==> spec_is_branch(op),
            r.2 ==> r.1,
            !spec_is_branch(op) ==> !r.1 && !r.2,
            r.3 == 0 || r.3 as int == 513 + old(self).cy as int % 2,
            final(self).conditional_jump == (old(self).conditional_jump || spec_is_branch(op)),
            final(self).nmi_pending == old(self).nmi_pending,
    {
        let mut pen: u64 = 0;
        let mut btaken: bool = false;
        let mut bcross: bool = false;
        let mut stall: u64 = 0;
        match op {
            0xE7 => {
                let ea: u16 = self.ea_zp();
                let v: u8 = self.read(ea);
                let r: u8 = ((v as u16 + 1) % 256) as u8;
                stall = stall + self.write(ea, r);
                self.sbc(r);
            
            
            
            
            
            },
            0xEB => {
                let v: u8 = self.fetchb();
                self.sbc(v);
            
            
            
            
            
            },
            _ => {
            },
        }
        (pen, btaken, bcross, stall)
    }

    /// One slice of the instruction dispatcher.  Returns the page
    /// penalty charged, the branch outcome and the DMA stall.
    #[verifier::rlimit(100)]
    #[verifier::spinoff_prover]
    fn exec_c3_hi_b2_p1(&mut self, op: u8) -> (r: (u64, bool, bool, u64))
        requires
            old(self).wf(),
            op % 4 == 3,
        ensures
            final(self).wf(),
            final(self).cy == old(self).cy,
            r.0 <= 1,
            r.0 == 1 ==> spec_has_page_penalty(op),
            r.1 ==> spec_is_branch(op),
            r.2 ==> r.1,
            !spec_is_branch(op) ==> !r.1 && !r.2,
            r.3 == 0 || r.3 as int == 513 + old(self).cy as int % 2,
            final(self).conditional_jump == (old(self).conditional_jump || spec_is_branch(op)),
            final(self).nmi_pending == old(self).nmi_pending,
    {
        let mut pen: u64 = 0;
        let mut btaken: bool = false;
        let mut bcross: bool = false;
        let mut stall: u64 = 0;
        match op {
            0xEF => {
                let ea: u16 = self.ea_abs();
                let v: u8 = self.read(ea);
                let r: u8 = ((v as u16 + 1) % 256) as u8;
                stall = stall + self.write(ea, r);
                self.sbc(r);
            
            
            
            
            
            },
            0xF3 => {
                let (ea, _crossed): (u16, bool) = self.ea_indy();
                let v: u8 = self.read(ea);
                let r: u8 = ((v as u16 + 1) % 256) as u8;
                stall = stall + self.write(ea, r);
                self.sbc(r);
            
            
            
            
            
            },
            _ => {
            },
        }
        (pen, btaken, bcross, stall)
    }

    /// One slice of the instruction dispatcher.  Returns the page
    /// penalty charged, the branch outcome and the DMA stall.
    #[verifier::rlimit(100)]
    #[verifier::spinoff_prover]
    fn exec_c3_hi_b2_p2(&mut self, op: u8) -> (r: (u64, bool, bool, u64))
        requires
            old(self).wf(),
            op % 4 == 3,
        ensures
            final(self).wf(),
            final(self).cy == old(self).cy,
            r.0 <= 1,
            r.0 == 1 ==> spec_has_page_penalty(op),
            r.1 ==> spec_is_branch(op),
            r.2 ==> r.1,
            !spec_is_branch(op) ==> !r.1 && !r.2,
            r.3 == 0 || r.3 as int == 513 + old(self).cy as int % 2,
            final(self).conditional_jump == (old(self).conditional_jump || spec_is_branch(op)),
            final(self).nmi_pending == old(self).nmi_pending,
    {
        let mut pen: u64 = 0;
        let mut btaken: bool = false;
        let mut bcross: bool = false;
        let mut stall: u64 = 0;
        match op {
            0xF7 => {
                let ea: u16 = self.ea_zpx();
                let v: u8 = self.read(ea);
                let r: u8 = ((v as u16 + 1) % 256) as u8;
                stall = stall + self.write(ea, r);
                self.sbc(r);
            
            
            
            
            
            },
            0xFB => {
                let (ea, _crossed): (u16, bool) = self.ea_absy();
                let v: u8 = self.read(ea);
                let r: u8 = ((v as u16 + 1) % 256) as u8;
                stall = stall + self.write(ea, r);
                self.sbc(r);
            
            
            
            
            
            },
            _ => {
            },
        }
        (pen, btaken, bcross, stall)
    }

    /// One slice of the instruction dispatcher.  Returns the page
    /// penalty charged, the branch outcome and the DMA stall.
    #[verifier::rlimit(100)]
    #[verifier::spinoff_prover]
    fn exec_c3_hi_b2_p3(&mut self, op: u8) -> (r: (u64, bool, bool, u64))
        requires
            old(self).wf(),
            op % 4 == 3,
        ensures
            final(self).wf(),
            final(self).cy == old(self).cy,
            r.0 <= 1,
            r.0 == 1 ==> spec_has_page_penalty(op),
            r.1 ==> spec_is_branch(op),
            r.2 ==> r.1,
            !spec_is_branch(op) ==> !r.1 && !r.2,
            r.3 == 0 || r.3 as int == 513 + old(self).cy as int % 2,
            final(self).conditional_jump == (old(self).conditional_jump || spec_is_branch(op)),
            final(self).nmi_pending == old(self).nmi_pending,
    {
        let mut pen: u64 = 0;
        let mut btaken: bool = false;
        let mut bcross: bool = false;
        let mut stall: u64 = 0;
        match op {
            0xFF => {
                let (ea, _crossed): (u16, bool) = self.ea_absx();
                let v: u8 = self.read(ea);
                let r: u8 = ((v as u16 + 1) % 256) as u8;
                stall = stall + self.write(ea, r);
                self.sbc(r);
            
            
            
            
            
            },
            _ => {
            },
        }
        (pen, btaken, bcross, stall)
    }

    /// One slice of the instruction dispatcher.  Returns the page
    /// penalty charged, the branch outcome and the DMA stall.
    fn exec_c3_hi_b2(&mut self, op: u8) -> (r: (u64, bool, bool, u64))
        requires
            old(self).wf(),
            op % 4 == 3,
        ensures
            final(self).wf(),
            final(self).cy == old(self).cy,
            r.0 <= 1,
            r.0 == 1 ==> spec_has_page_penalty(op),
            r.1 ==> spec_is_branch(op),
            r.2 ==> r.1,
            !spec_is_branch(op) ==> !r.1 && !r.2,
            r.3 == 0 || r.3 as int == 513 + old(self).cy as int % 2,
            final(self).conditional_jump == (old(self).conditional_jump || spec_is_branch(op)),
            final(self).nmi_pending == old(self).nmi_pending,
    {
        if op <= 0xEB {
            self.exec_c3_hi_b2_p0(op)
        } else if op <= 0xF3 {
            self.exec_c3_hi_b2_p1(op)
        } else if op <= 0xFB {
            self.exec_c3_hi_b2_p2(op)
        } else {
            self.exec_c3_hi_b2_p3(op)
        }
    }

    /// One slice of the instruction dispatcher.  Returns the page
    /// penalty charged, the branch outcome and the DMA stall.
    fn exec_c3_hi_b(&mut self, op: u8) -> (r: (u64, bool, bool, u64))
        requires
            old(self).wf(),
            op % 4 == 3,
        ensures
            final(self).wf(),
            final(self).cy == old(self).cy,
            r.0 <= 1,
            r.0 == 1 ==> spec_has_page_penalty(op),
            r.1 ==> spec_is_branch(op),
            r.2 ==> r.1,
            !spec_is_branch(op) ==> !r.1 && !r.2,
            r.3 == 0 || r.3 as int == 513 + old(self).cy as int % 2,
            final(self).conditional_jump == (old(self).conditional_jump || spec_is_branch(op)),
            final(self).nmi_pending == old(self).nmi_pending,
    {
        if op <= 0xE3 {
            self.exec_c3_hi_b1(op)
        } else {
            self.exec_c3_hi_b2(op)
        }
    }

    /// Executes exactly one instruction, servicing a pending interrupt
    /// first (NMI wins over IRQ; IRQ waits while I is set).
    ///
    /// The cycle counter advances by exactly the documented cost of the
    /// opcode/addressing-mode/branch-outcome/page-cross combination
    /// that ran, plus 7 for a serviced interrupt and the 513/514-cycle
    /// OAM DMA stall (chosen by cycle parity) when the instruction
    /// wrote $4014.  An opcode outside the supported set is a fatal
    /// decode error carrying the fetch address and the opcode.
    #[verifier::rlimit(100)]
    pub fn step(&mut self) -> (r: Result<StepInfo, EmuError>)
        requires
            old(self).wf(),
            old(self).cy < CY_CEILING,
        ensures
            final(self).wf(),
            final(self).cy >= old(self).cy,
            final(self).cy <= old(self).cy + MAX_STEP_CYCLES,
            r matches Ok(info) ==> {
                &&& spec_op_supported(info.opcode)
                &&& final(self).cy == old(self).cy + spec_step_cycles(info)
                &&& info.interrupt_cycles as int == (if old(self).nmi_pending || (old(self).irq_pending
                    && !old(self).flag_i) {
                    7int
                } else {
                    0int
                })
                &&& info.page_penalty <= 1
                &&& (info.page_penalty == 1 ==> spec_has_page_penalty(info.opcode))
                &&& (info.branch_taken ==> spec_is_branch(info.opcode))
                &&& (info.branch_page_cross ==> info.branch_taken)
                &&& (!spec_is_branch(info.opcode) ==> !info.branch_taken && !info.branch_page_cross)
                &&& (info.dma_stall == 0 || info.dma_stall as int == 513 + old(self).cy as int % 2)
                &&& final(self).conditional_jump == spec_is_branch(info.opcode)
                &&& !final(self).nmi_pending || !old(self).nmi_pending
            },
            r matches Err(e) ==> (e matches EmuError::UnsupportedOpcode(_, o2) && !spec_op_supported(o2) && final(self).cy == old(self).cy),
            old(self).nmi_pending ==> !final(self).nmi_pending,
            ({
                let intr = old(self).nmi_pending || (old(self).irq_pending && !old(self).flag_i);
                !intr && old(self).pc >= 0x4020 ==> {
                    let ob = old(self).mem.mapper.spec_prg_read(old(self).pc);
                    &&& (r is Err <==> !spec_op_supported(ob))
                    &&& (r matches Ok(info) ==> info.opcode == ob)
                    &&& (r matches Err(e) ==> e == EmuError::UnsupportedOpcode(old(self).pc, ob))
                }
            }),
            ({
                let intr = old(self).nmi_pending || (old(self).irq_pending && !old(self).flag_i);
                !intr && old(self).pc < 0x2000 ==> {
                    let ob = old(self).mem.ram@[crate::mem::spec_ram_index(old(self).pc)];
                    &&& (r is Err <==> !spec_op_supported(ob))
                    &&& (r matches Ok(info) ==> info.opcode == ob)
                    &&& (r matches Err(e) ==> e == EmuError::UnsupportedOpcode(old(self).pc, ob))
                }
            }),
            r matches Ok(info) ==> (spec_is_branch(info.opcode) ==> info.branch_taken
                == spec_branch_cond(
                info.opcode,
                old(self).flag_c,
                old(self).flag_z,
                old(self).flag_v,
                old(self).flag_n,
            )),
    {
        self.conditional_jump = false;
        let mut int_cy: u64 = 0;
        if self.nmi_pending {
            self.nmi_pending = false;
            self.interrupt(0xFFFA, false);
            int_cy = 7;
        } else if self.irq_pending && !self.flag_i {
            self.irq_pending = false;
            self.interrupt(0xFFFE, false);
            int_cy = 7;
        }
        let pc0 = self.pc;
        let op = self.mem.loadb(pc0);
        self.pc = if pc0 == 0xFFFF {
            0
        } else {
            pc0 + 1
        };
        let base = base_cycles(op);
        if base == 0 {
            return Err(EmuError::UnsupportedOpcode(pc0, op));
        }
        let mut pen: u64 = 0;
        let mut btaken: bool = false;
        let mut bcross: bool = false;
        let mut stall: u64 = 0;
        let col: u8 = op % 4;
        let t: (u64, bool, bool, u64) = if col == 0 {
            if op < 0x80 { self.exec_c0_lo(op) } else { self.exec_c0_hi(op) }
        } else if col == 1 {
            if op < 0x80 { self.exec_c1_lo(op) } else { self.exec_c1_hi(op) }
        } else if col == 2 {
            if op <= 0x45 {
                self.exec_c2_lo_a(op)
            } else if op <= 0x7F {
                self.exec_c2_lo_b(op)
            } else if op <= 0xC1 {
                self.exec_c2_hi_a(op)
            } else {
                self.exec_c2_hi_b(op)
            }
        } else {
            if op <= 0x42 {
                self.exec_c3_lo_a(op)
            } else if op <= 0x7F {
                self.exec_c3_lo_b(op)
            } else if op <= 0xCE {
                self.exec_c3_hi_a(op)
            } else {
                self.exec_c3_hi_b(op)
            }
        };
        pen = t.0;
        btaken = t.1;
        bcross = t.2;
        stall = t.3;
        let extra_b: u64 = (if btaken {
            1u64
        } else {
            0u64
        }) + (if bcross {
            1u64
        } else {
            0u64
        });
        self.cy = self.cy + int_cy + base + pen + extra_b + stall;
        Ok(
            StepInfo {
                opcode: op,
                page_penalty: pen,
                branch_taken: btaken,
                branch_page_cross: bcross,
                interrupt_cycles: int_cy,
                dma_stall: stall,
            },
        )
    }
}

} // verus!
