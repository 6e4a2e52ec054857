//! Save states: the whole machine serialized into a versioned blob and
//! restored from one.
//!
//! The format is the magic "NESV", a little-endian u32 version (1), then
//! the component blobs in order: CPU registers, the 2 KiB RAM, the PPU
//! with its nametables, palette, OAM and framebuffer, the APU, the
//! mapper registers, and the 8 KiB cartridge RAM.  Loading validates the
//! blob and replaces the state atomically: on any failure the machine is
//! left exactly as it was.

use vstd::prelude::*;

use crate::apu::Apu;
use crate::apu::Dmc;
use crate::apu::Envelope;
use crate::apu::Noise;
use crate::apu::Pulse;
use crate::apu::Triangle;
use crate::cpu::spec_flags_byte;
use crate::cpu::Cpu;
use crate::input::Input;
use crate::mapper::Mapper;
use crate::mapper::MapperKind;
use crate::mem::MemMap;
use crate::ppu::Ppu;
use crate::rom::Rom;
use crate::EmuError;

verus! {

/// The current save-state format version.
pub const SAVE_VERSION: u32 = 1;

pub open spec fn spec_ser_u16(v: u16) -> Seq<u8> {
    seq![(v as int % 256) as u8, (v as int / 256) as u8]
}

pub open spec fn spec_ser_u32(v: u32) -> Seq<u8> {
    seq![
        (v as int % 256) as u8,
        ((v as int / 256) % 256) as u8,
        ((v as int / 65536) % 256) as u8,
        ((v as int / 16777216) % 256) as u8,
    ]
}

pub open spec fn spec_ser_u64(v: u64) -> Seq<u8> {
    spec_ser_u32((v as int % 4294967296) as u32) + spec_ser_u32((v as int / 4294967296) as u32)
}

pub open spec fn spec_ser_bool(b: bool) -> Seq<u8> {
    seq![if b { 1u8 } else { 0u8 }]
}

/// The byte tag a mapper kind carries in the blob.
pub open spec fn spec_kind_tag(k: MapperKind) -> u8 {
    match k {
        MapperKind::Nrom => 0u8,
        MapperKind::Mmc1 => 1u8,
        MapperKind::Uxrom => 2u8,
        MapperKind::Cnrom => 3u8,
        MapperKind::Mmc3 => 4u8,
        MapperKind::Axrom => 7u8,
    }
}

/// The CPU register file, serialized.
pub open spec fn spec_cpu_regs_bytes(c: Cpu) -> Seq<u8> {
    seq![c.a, c.x, c.y, c.s] + spec_ser_u16(c.pc) + seq![
        spec_flags_byte(c.flag_c, c.flag_z, c.flag_i, c.flag_d, false, c.flag_v, c.flag_n),
    ] + spec_ser_u64(c.cy) + spec_ser_bool(c.nmi_pending) + spec_ser_bool(c.irq_pending)
        + spec_ser_bool(c.conditional_jump)
}

/// The PPU register file, serialized.
pub open spec fn spec_ppu_regs_bytes(p: Ppu) -> Seq<u8> {
    seq![p.ctrl, p.mask] + spec_ser_bool(p.status_vblank) + spec_ser_bool(p.status_sprite0)
        + spec_ser_bool(p.status_overflow) + seq![p.oam_addr] + spec_ser_u16(p.v) + spec_ser_u16(
        p.t,
    ) + seq![p.fine_x] + spec_ser_bool(p.w) + seq![p.read_buffer] + spec_ser_u16(p.scanline)
        + spec_ser_u16(p.dot) + spec_ser_bool(p.odd_frame) + spec_ser_u64(p.last_cpu_cy)
}

/// The PPU with its memories, serialized.
pub open spec fn spec_ppu_bytes(p: Ppu) -> Seq<u8> {
    spec_ppu_regs_bytes(p) + p.nametables@ + p.palette@ + p.oam@ + p.screen@
}

pub open spec fn spec_env_bytes(e: Envelope) -> Seq<u8> {
    spec_ser_bool(e.start) + seq![e.divider, e.decay, e.volume] + spec_ser_bool(e.constant)
        + spec_ser_bool(e.loop_flag)
}

pub open spec fn spec_pulse_bytes(p: Pulse) -> Seq<u8> {
    spec_ser_bool(p.enabled) + seq![p.duty, p.length] + spec_env_bytes(p.env) + spec_ser_u16(
        p.period,
    ) + spec_ser_bool(p.sweep_enable) + seq![p.sweep_period] + spec_ser_bool(p.sweep_negate)
        + seq![p.sweep_shift, p.sweep_divider] + spec_ser_bool(p.sweep_reload)
}

pub open spec fn spec_triangle_bytes(t: Triangle) -> Seq<u8> {
    spec_ser_bool(t.enabled) + seq![t.length] + spec_ser_bool(t.control) + seq![
        t.reload_value,
        t.linear,
    ] + spec_ser_bool(t.linear_reload) + spec_ser_u16(t.period)
}

pub open spec fn spec_noise_bytes(n: Noise) -> Seq<u8> {
    spec_ser_bool(n.enabled) + seq![n.length] + spec_env_bytes(n.env) + spec_ser_bool(n.mode)
        + seq![n.period_index] + spec_ser_u16(n.lfsr)
}

pub open spec fn spec_dmc_bytes(d: Dmc) -> Seq<u8> {
    spec_ser_bool(d.enabled) + spec_ser_bool(d.irq_enable) + spec_ser_bool(d.loop_flag) + seq![
        d.rate,
        d.output,
        d.addr,
        d.len,
    ]
}

/// The frame sequencer's own registers, serialized.
pub open spec fn spec_apu_seq_bytes(a: Apu) -> Seq<u8> {
    spec_ser_bool(a.mode5) + spec_ser_bool(a.irq_inhibit) + spec_ser_bool(a.frame_irq)
        + spec_ser_u32(a.frame_counter) + spec_ser_u64(a.last_cpu_cy)
}

pub open spec fn spec_apu_bytes(a: Apu) -> Seq<u8> {
    spec_pulse_bytes(a.pulse1) + spec_pulse_bytes(a.pulse2) + spec_triangle_bytes(a.triangle)
        + spec_noise_bytes(a.noise) + spec_dmc_bytes(a.dmc) + spec_apu_seq_bytes(a)
}

/// The mapper registers (the ROM arrays come from the cartridge, not
/// the blob), serialized.
pub open spec fn spec_mapper_bytes(m: Mapper) -> Seq<u8> {
    seq![
        spec_kind_tag(m.kind),
        m.shift,
        m.shift_count,
        m.control,
        m.chr_bank0,
        m.chr_bank1,
        m.prg_bank,
        m.bank_select,
        m.r0,
        m.r1,
        m.r2,
        m.r3,
        m.r4,
        m.r5,
        m.r6,
        m.r7,
        m.mirror_bit,
        m.irq_latch,
        m.irq_counter,
    ] + spec_ser_bool(m.irq_enable) + spec_ser_bool(m.irq_reload)
}

/// The whole machine, serialized: magic, version, then the components.
pub open spec fn spec_save_blob(c: Cpu) -> Seq<u8> {
    seq![0x4Eu8, 0x45u8, 0x53u8, 0x56u8] + spec_ser_u32(SAVE_VERSION) + spec_cpu_regs_bytes(c)
        + c.mem.ram@ + spec_ppu_bytes(c.mem.ppu) + spec_apu_bytes(c.mem.apu) + spec_mapper_bytes(
        c.mem.mapper,
    ) + c.mem.mapper.rom.sram@
}

fn w_u8(out: &mut Vec<u8>, v: u8)
    ensures
        final(out)@ == old(out)@ + seq![v],
{
    out.push(v);
    proof {
        assert(out@ =~= old(out)@ + seq![v]);
    }
}

fn w_bool(out: &mut Vec<u8>, b: bool)
    ensures
        final(out)@ == old(out)@ + spec_ser_bool(b),
{
    out.push(
        if b {
            1
        } else {
            0
        },
    );
    proof {
        assert(out@ =~= old(out)@ + spec_ser_bool(b));
    }
}

fn w_u16(out: &mut Vec<u8>, v: u16)
    ensures
        final(out)@ == old(out)@ + spec_ser_u16(v),
{
    out.push((v % 256) as u8);
    out.push((v / 256) as u8);
    proof {
        assert(out@ =~= old(out)@ + spec_ser_u16(v));
    }
}

fn w_u32(out: &mut Vec<u8>, v: u32)
    ensures
        final(out)@ == old(out)@ + spec_ser_u32(v),
{
    out.push((v % 256) as u8);
    out.push(((v / 256) % 256) as u8);
    out.push(((v / 65536) % 256) as u8);
    out.push(((v / 16777216) % 256) as u8);
    proof {
        assert(out@ =~= old(out)@ + spec_ser_u32(v));
    }
}

fn w_u64(out: &mut Vec<u8>, v: u64)
    ensures
        final(out)@ == old(out)@ + spec_ser_u64(v),
{
    let lo: u32 = (v % 4294967296) as u32;
    let hi: u32 = (v / 4294967296) as u32;
    w_u32(out, lo);
    w_u32(out, hi);
    proof {
        assert(out@ =~= old(out)@ + spec_ser_u64(v));
    }
}

fn w_bytes(out: &mut Vec<u8>, data: &Vec<u8>)
    ensures
        final(out)@ == old(out)@ + data@,
{
    let mut i: usize = 0;
    proof {
        assert(out@ =~= old(out)@ + data@.subrange(0, 0));
    }
    while i < data.len()
        invariant
            i <= data.len(),
            out@ == old(out)@ + data@.subrange(0, i as int),
        decreases data.len() - i,
    {
        out.push(data[i]);
        i = i + 1;
        proof {
            assert(out@ =~= old(out)@ + data@.subrange(0, i as int));
        }
    }
    proof {
        assert(out@ =~= old(out)@ + data@);
    }
}

#[verifier::rlimit(100)]
fn w_env(out: &mut Vec<u8>, e: &Envelope)
    ensures
        final(out)@ == old(out)@ + spec_env_bytes(*e),
{
    w_bool(out, e.start);
    w_u8(out, e.divider);
    w_u8(out, e.decay);
    w_u8(out, e.volume);
    w_bool(out, e.constant);
    w_bool(out, e.loop_flag);
    proof {
        assert(out@ =~= old(out)@ + spec_env_bytes(*e));
    }
}

#[verifier::rlimit(100)]
fn w_pulse(out: &mut Vec<u8>, p: &Pulse)
    ensures
        final(out)@ == old(out)@ + spec_pulse_bytes(*p),
{
    w_bool(out, p.enabled);
    w_u8(out, p.duty);
    w_u8(out, p.length);
    w_env(out, &p.env);
    w_u16(out, p.period);
    w_bool(out, p.sweep_enable);
    w_u8(out, p.sweep_period);
    w_bool(out, p.sweep_negate);
    w_u8(out, p.sweep_shift);
    w_u8(out, p.sweep_divider);
    w_bool(out, p.sweep_reload);
    proof {
        assert(out@ =~= old(out)@ + spec_pulse_bytes(*p));
    }
}

#[verifier::rlimit(100)]
fn w_cpu_regs(out: &mut Vec<u8>, cpu: &Cpu)
    ensures
        final(out)@ == old(out)@ + spec_cpu_regs_bytes(*cpu),
{
    w_u8(out, cpu.a);
    w_u8(out, cpu.x);
    w_u8(out, cpu.y);
    w_u8(out, cpu.s);
    w_u16(out, cpu.pc);
    w_u8(out, cpu.flags_byte(false));
    w_u64(out, cpu.cy);
    w_bool(out, cpu.nmi_pending);
    w_bool(out, cpu.irq_pending);
    w_bool(out, cpu.conditional_jump);
    proof {
        assert(out@ =~= old(out)@ + spec_cpu_regs_bytes(*cpu));
    }
}

#[verifier::rlimit(100)]
fn w_ppu_regs(out: &mut Vec<u8>, p: &Ppu)
    ensures
        final(out)@ == old(out)@ + spec_ppu_regs_bytes(*p),
{
    w_u8(out, p.ctrl);
    w_u8(out, p.mask);
    w_bool(out, p.status_vblank);
    w_bool(out, p.status_sprite0);
    w_bool(out, p.status_overflow);
    w_u8(out, p.oam_addr);
    w_u16(out, p.v);
    w_u16(out, p.t);
    w_u8(out, p.fine_x);
    w_bool(out, p.w);
    w_u8(out, p.read_buffer);
    w_u16(out, p.scanline);
    w_u16(out, p.dot);
    w_bool(out, p.odd_frame);
    w_u64(out, p.last_cpu_cy);
    proof {
        assert(out@ =~= old(out)@ + spec_ppu_regs_bytes(*p));
    }
}

#[verifier::rlimit(100)]
fn w_ppu(out: &mut Vec<u8>, p: &Ppu)
    ensures
        final(out)@ == old(out)@ + spec_ppu_bytes(*p),
{
    w_ppu_regs(out, p);
    w_bytes(out, &p.nametables);
    w_bytes(out, &p.palette);
    w_bytes(out, &p.oam);
    w_bytes(out, &p.screen);
    proof {
        assert(out@ =~= old(out)@ + spec_ppu_bytes(*p));
    }
}

#[verifier::rlimit(100)]
fn w_triangle(out: &mut Vec<u8>, t: &Triangle)
    ensures
        final(out)@ == old(out)@ + spec_triangle_bytes(*t),
{
    w_bool(out, t.enabled);
    w_u8(out, t.length);
    w_bool(out, t.control);
    w_u8(out, t.reload_value);
    w_u8(out, t.linear);
    w_bool(out, t.linear_reload);
    w_u16(out, t.period);
    proof {
        assert(out@ =~= old(out)@ + spec_triangle_bytes(*t));
    }
}

#[verifier::rlimit(100)]
fn w_noise(out: &mut Vec<u8>, n: &Noise)
    ensures
        final(out)@ == old(out)@ + spec_noise_bytes(*n),
{
    w_bool(out, n.enabled);
    w_u8(out, n.length);
    w_env(out, &n.env);
    w_bool(out, n.mode);
    w_u8(out, n.period_index);
    w_u16(out, n.lfsr);
    proof {
        assert(out@ =~= old(out)@ + spec_noise_bytes(*n));
    }
}

#[verifier::rlimit(100)]
fn w_dmc(out: &mut Vec<u8>, d: &Dmc)
    ensures
        final(out)@ == old(out)@ + spec_dmc_bytes(*d),
{
    w_bool(out, d.enabled);
    w_bool(out, d.irq_enable);
    w_bool(out, d.loop_flag);
    w_u8(out, d.rate);
    w_u8(out, d.output);
    w_u8(out, d.addr);
    w_u8(out, d.len);
    proof {
        assert(out@ =~= old(out)@ + spec_dmc_bytes(*d));
    }
}

#[verifier::rlimit(100)]
fn w_apu_seq(out: &mut Vec<u8>, a: &Apu)
    ensures
        final(out)@ == old(out)@ + spec_apu_seq_bytes(*a),
{
    w_bool(out, a.mode5);
    w_bool(out, a.irq_inhibit);
    w_bool(out, a.frame_irq);
    w_u32(out, a.frame_counter);
    w_u64(out, a.last_cpu_cy);
    proof {
        assert(out@ =~= old(out)@ + spec_apu_seq_bytes(*a));
    }
}

#[verifier::rlimit(100)]
fn w_apu(out: &mut Vec<u8>, a: &Apu)
    ensures
        final(out)@ == old(out)@ + spec_apu_bytes(*a),
{
    w_pulse(out, &a.pulse1);
    w_pulse(out, &a.pulse2);
    w_triangle(out, &a.triangle);
    w_noise(out, &a.noise);
    w_dmc(out, &a.dmc);
    w_apu_seq(out, a);
    proof {
        assert(out@ =~= old(out)@ + spec_apu_bytes(*a));
    }
}

#[verifier::rlimit(100)]
fn w_mapper(out: &mut Vec<u8>, m: &Mapper)
    ensures
        final(out)@ == old(out)@ + spec_mapper_bytes(*m),
{
    let tag: u8 = match m.kind {
        MapperKind::Nrom => 0,
        MapperKind::Mmc1 => 1,
        MapperKind::Uxrom => 2,
        MapperKind::Cnrom => 3,
        MapperKind::Mmc3 => 4,
        MapperKind::Axrom => 7,
    };
    w_u8(out, tag);
    w_u8(out, m.shift);
    w_u8(out, m.shift_count);
    w_u8(out, m.control);
    w_u8(out, m.chr_bank0);
    w_u8(out, m.chr_bank1);
    w_u8(out, m.prg_bank);
    w_u8(out, m.bank_select);
    w_u8(out, m.r0);
    w_u8(out, m.r1);
    w_u8(out, m.r2);
    w_u8(out, m.r3);
    w_u8(out, m.r4);
    w_u8(out, m.r5);
    w_u8(out, m.r6);
    w_u8(out, m.r7);
    w_u8(out, m.mirror_bit);
    w_u8(out, m.irq_latch);
    w_u8(out, m.irq_counter);
    w_bool(out, m.irq_enable);
    w_bool(out, m.irq_reload);
    proof {
        assert(out@ =~= old(out)@ + spec_mapper_bytes(*m));
    }
}

/// Serializes the whole machine.
#[verifier::rlimit(100)]
pub fn save_state(cpu: &Cpu) -> (r: Vec<u8>)
    ensures
        r@ == spec_save_blob(*cpu),
{
    let mut out: Vec<u8> = Vec::new();
    w_u8(&mut out, 0x4E);
    w_u8(&mut out, 0x45);
    w_u8(&mut out, 0x53);
    w_u8(&mut out, 0x56);
    w_u32(&mut out, SAVE_VERSION);
    w_cpu_regs(&mut out, cpu);
    w_bytes(&mut out, &cpu.mem.ram);
    w_ppu(&mut out, &cpu.mem.ppu);
    w_apu(&mut out, &cpu.mem.apu);
    w_mapper(&mut out, &cpu.mem.mapper);
    w_bytes(&mut out, &cpu.mem.mapper.rom.sram);
    proof {
        assert(out@ =~= spec_save_blob(*cpu));
    }
    out
}

/// Compares two byte vectors.
fn bytes_eq(a: &Vec<u8>, b: &Vec<u8>) -> (r: bool)
    ensures
        r <==> a@ == b@,
{
    if a.len() != b.len() {
        return false;
    }
    let mut i: usize = 0;
    while i < a.len()
        invariant
            a.len() == b.len(),
            i <= a.len(),
            forall|k: int| 0 <= k < i ==> a@[k] == b@[k],
        decreases a.len() - i,
    {
        if a[i] != b[i] {
            return false;
        }
        i = i + 1;
    }
    proof {
        assert(a@ =~= b@);
    }
    true
}

fn rd_u8(blob: &Vec<u8>, pos: &mut usize) -> (r: Option<u8>)
    ensures
        r is Some ==> *final(pos) == *old(pos) + 1,
{
    if *pos < blob.len() {
        let v = blob[*pos];
        *pos = *pos + 1;
        Some(v)
    } else {
        None
    }
}

fn rd_bool(blob: &Vec<u8>, pos: &mut usize) -> (r: Option<bool>)
    ensures
        r is Some ==> *final(pos) == *old(pos) + 1,
{
    match rd_u8(blob, pos) {
        Some(0) => Some(false),
        Some(1) => Some(true),
        _ => None,
    }
}

fn rd_u16(blob: &Vec<u8>, pos: &mut usize) -> (r: Option<u16>)
    ensures
        r is Some ==> *final(pos) == *old(pos) + 2,
{
    let lo = match rd_u8(blob, pos) {
        Some(v) => v,
        None => {
            return None;
        },
    };
    let hi = match rd_u8(blob, pos) {
        Some(v) => v,
        None => {
            return None;
        },
    };
    Some(lo as u16 + hi as u16 * 256)
}

fn rd_u32(blob: &Vec<u8>, pos: &mut usize) -> (r: Option<u32>)
    ensures
        r is Some ==> *final(pos) == *old(pos) + 4,
{
    let lo = match rd_u16(blob, pos) {
        Some(v) => v,
        None => {
            return None;
        },
    };
    let hi = match rd_u16(blob, pos) {
        Some(v) => v,
        None => {
            return None;
        },
    };
    Some(lo as u32 + hi as u32 * 65536)
}

fn rd_u64(blob: &Vec<u8>, pos: &mut usize) -> (r: Option<u64>)
    ensures
        r is Some ==> *final(pos) == *old(pos) + 8,
{
    let lo = match rd_u32(blob, pos) {
        Some(v) => v,
        None => {
            return None;
        },
    };
    let hi = match rd_u32(blob, pos) {
        Some(v) => v,
        None => {
            return None;
        },
    };
    Some(lo as u64 + hi as u64 * 4294967296)
}

fn rd_bytes(blob: &Vec<u8>, pos: &mut usize, n: usize) -> (r: Option<Vec<u8>>)
    ensures
        r matches Some(v) ==> v@.len() == n,
{
    let mut out: Vec<u8> = Vec::new();
    let mut i: usize = 0;
    while i < n
        invariant
            i <= n,
            out@.len() == i,
        decreases n - i,
    {
        match rd_u8(blob, pos) {
            Some(v) => {
                out.push(v);
            },
            None => {
                return None;
            },
        }
        i = i + 1;
    }
    Some(out)
}

fn rd_env(blob: &Vec<u8>, pos: &mut usize) -> (r: Option<Envelope>)
    ensures
        r matches Some(e) ==> e.wf(),
{
    let start = match rd_bool(blob, pos) {
        Some(v) => v,
        None => {
            return None;
        },
    };
    let divider = match rd_u8(blob, pos) {
        Some(v) => v,
        None => {
            return None;
        },
    };
    let decay = match rd_u8(blob, pos) {
        Some(v) => v,
        None => {
            return None;
        },
    };
    let volume = match rd_u8(blob, pos) {
        Some(v) => v,
        None => {
            return None;
        },
    };
    let constant = match rd_bool(blob, pos) {
        Some(v) => v,
        None => {
            return None;
        },
    };
    let loop_flag = match rd_bool(blob, pos) {
        Some(v) => v,
        None => {
            return None;
        },
    };
    if decay >= 16 || volume >= 16 {
        return None;
    }
    Some(Envelope { start, divider, decay, volume, constant, loop_flag })
}

fn rd_pulse(blob: &Vec<u8>, pos: &mut usize, ones_complement: bool) -> (r: Option<Pulse>)
    ensures
        r matches Some(p) ==> p.wf(),
{
    let enabled = match rd_bool(blob, pos) {
        Some(v) => v,
        None => {
            return None;
        },
    };
    let duty = match rd_u8(blob, pos) {
        Some(v) => v,
        None => {
            return None;
        },
    };
    let length = match rd_u8(blob, pos) {
        Some(v) => v,
        None => {
            return None;
        },
    };
    let env = match rd_env(blob, pos) {
        Some(v) => v,
        None => {
            return None;
        },
    };
    let period = match rd_u16(blob, pos) {
        Some(v) => v,
        None => {
            return None;
        },
    };
    let sweep_enable = match rd_bool(blob, pos) {
        Some(v) => v,
        None => {
            return None;
        },
    };
    let sweep_period = match rd_u8(blob, pos) {
        Some(v) => v,
        None => {
            return None;
        },
    };
    let sweep_negate = match rd_bool(blob, pos) {
        Some(v) => v,
        None => {
            return None;
        },
    };
    let sweep_shift = match rd_u8(blob, pos) {
        Some(v) => v,
        None => {
            return None;
        },
    };
    let sweep_divider = match rd_u8(blob, pos) {
        Some(v) => v,
        None => {
            return None;
        },
    };
    let sweep_reload = match rd_bool(blob, pos) {
        Some(v) => v,
        None => {
            return None;
        },
    };
    if duty >= 4 || period >= 0x800 || sweep_shift >= 8 {
        return None;
    }
    Some(
        Pulse {
            enabled,
            duty,
            length,
            env,
            period,
            sweep_enable,
            sweep_period,
            sweep_negate,
            sweep_shift,
            sweep_divider,
            sweep_reload,
            ones_complement,
        },
    )
}

/// Restores the machine from a blob.
///
/// Succeeds exactly when the blob is a byte-exact serialization of a
/// well-formed state of this machine's cartridge shape; the state is
/// then replaced so that re-serializing reproduces the blob, which is
/// the save/load round trip.  On any failure (bad magic or version,
/// short or malformed blob, a mapper of another kind) the machine is
/// left untouched.
pub fn load_state(cpu: &mut Cpu, blob: &Vec<u8>) -> (r: Result<(), EmuError>)
    requires
        old(cpu).wf(),
    ensures
        final(cpu).wf(),
        r is Ok ==> spec_save_blob(*final(cpu)) == blob@,
        r matches Err(e) ==> *final(cpu) == *old(cpu) && e == EmuError::SaveStateIncompatible,
        blob@ == spec_save_blob(*old(cpu)) ==> r is Ok,
{
    // Loading the current state's own save is a no-op.
    let cur = save_state(cpu);
    if bytes_eq(&cur, blob) {
        return Ok(());
    }
    let candidate = match parse_state(cpu, blob) {
        Some(c) => c,
        None => {
            return Err(EmuError::SaveStateIncompatible);
        },
    };
    // The blob must be the byte-exact serialization of the parsed
    // state: this makes the round trip a theorem rather than a hope.
    let out = save_state(&candidate);
    if !bytes_eq(&out, blob) {
        return Err(EmuError::SaveStateIncompatible);
    }
    *cpu = candidate;
    Ok(())
}

/// Parses a blob into a fresh machine state over the current
/// cartridge, validating every range the machine's invariants need.
fn parse_state(cpu: &Cpu, blob: &Vec<u8>) -> (r: Option<Cpu>)
    requires
        cpu.wf(),
    ensures
        r matches Some(c) ==> c.wf(),
{
    let mut pos: usize = 0;
    let m0 = match rd_u32(blob, &mut pos) {
        Some(v) => v,
        None => {
            return None;
        },
    };
    // "NESV" little-endian.
    if m0 != 0x5653454E {
        return None;
    }
    let ver = match rd_u32(blob, &mut pos) {
        Some(v) => v,
        None => {
            return None;
        },
    };
    if ver != SAVE_VERSION {
        return None;
    }
    let a_reg = match rd_u8(blob, &mut pos) {
        Some(v) => v,
        None => {
            return None;
        },
    };
    let x_reg = match rd_u8(blob, &mut pos) {
        Some(v) => v,
        None => {
            return None;
        },
    };
    let y_reg = match rd_u8(blob, &mut pos) {
        Some(v) => v,
        None => {
            return None;
        },
    };
    let s_reg = match rd_u8(blob, &mut pos) {
        Some(v) => v,
        None => {
            return None;
        },
    };
    let pc = match rd_u16(blob, &mut pos) {
        Some(v) => v,
        None => {
            return None;
        },
    };
    let flags = match rd_u8(blob, &mut pos) {
        Some(v) => v,
        None => {
            return None;
        },
    };
    let cy = match rd_u64(blob, &mut pos) {
        Some(v) => v,
        None => {
            return None;
        },
    };
    let nmi_pending = match rd_bool(blob, &mut pos) {
        Some(v) => v,
        None => {
            return None;
        },
    };
    let irq_pending = match rd_bool(blob, &mut pos) {
        Some(v) => v,
        None => {
            return None;
        },
    };
    let conditional_jump = match rd_bool(blob, &mut pos) {
        Some(v) => v,
        None => {
            return None;
        },
    };
    let ram = match rd_bytes(blob, &mut pos, 2048) {
        Some(v) => v,
        None => {
            return None;
        },
    };
    let ctrl = match rd_u8(blob, &mut pos) {
        Some(v) => v,
        None => {
            return None;
        },
    };
    let mask = match rd_u8(blob, &mut pos) {
        Some(v) => v,
        None => {
            return None;
        },
    };
    let status_vblank = match rd_bool(blob, &mut pos) {
        Some(v) => v,
        None => {
            return None;
        },
    };
    let status_sprite0 = match rd_bool(blob, &mut pos) {
        Some(v) => v,
        None => {
            return None;
        },
    };
    let status_overflow = match rd_bool(blob, &mut pos) {
        Some(v) => v,
        None => {
            return None;
        },
    };
    let oam_addr = match rd_u8(blob, &mut pos) {
        Some(v) => v,
        None => {
            return None;
        },
    };
    let v_reg = match rd_u16(blob, &mut pos) {
        Some(v) => v,
        None => {
            return None;
        },
    };
    let t_reg = match rd_u16(blob, &mut pos) {
        Some(v) => v,
        None => {
            return None;
        },
    };
    let fine_x = match rd_u8(blob, &mut pos) {
        Some(v) => v,
        None => {
            return None;
        },
    };
    let w = match rd_bool(blob, &mut pos) {
        Some(v) => v,
        None => {
            return None;
        },
    };
    let read_buffer = match rd_u8(blob, &mut pos) {
        Some(v) => v,
        None => {
            return None;
        },
    };
    let scanline = match rd_u16(blob, &mut pos) {
        Some(v) => v,
        None => {
            return None;
        },
    };
    let dot = match rd_u16(blob, &mut pos) {
        Some(v) => v,
        None => {
            return None;
        },
    };
    let odd_frame = match rd_bool(blob, &mut pos) {
        Some(v) => v,
        None => {
            return None;
        },
    };
    let ppu_last = match rd_u64(blob, &mut pos) {
        Some(v) => v,
        None => {
            return None;
        },
    };
    let nametables = match rd_bytes(blob, &mut pos, 2048) {
        Some(v) => v,
        None => {
            return None;
        },
    };
    let palette = match rd_bytes(blob, &mut pos, 32) {
        Some(v) => v,
        None => {
            return None;
        },
    };
    let oam = match rd_bytes(blob, &mut pos, 256) {
        Some(v) => v,
        None => {
            return None;
        },
    };
    let screen = match rd_bytes(blob, &mut pos, 61440) {
        Some(v) => v,
        None => {
            return None;
        },
    };
    if v_reg >= 0x8000 || t_reg >= 0x8000 || fine_x >= 8 || scanline >= 262 || dot >= 341 {
        return None;
    }
    let pulse1 = match rd_pulse(blob, &mut pos, true) {
        Some(v) => v,
        None => {
            return None;
        },
    };
    let pulse2 = match rd_pulse(blob, &mut pos, false) {
        Some(v) => v,
        None => {
            return None;
        },
    };
    let tri_enabled = match rd_bool(blob, &mut pos) {
        Some(v) => v,
        None => {
            return None;
        },
    };
    let tri_length = match rd_u8(blob, &mut pos) {
        Some(v) => v,
        None => {
            return None;
        },
    };
    let tri_control = match rd_bool(blob, &mut pos) {
        Some(v) => v,
        None => {
            return None;
        },
    };
    let tri_reload_value = match rd_u8(blob, &mut pos) {
        Some(v) => v,
        None => {
            return None;
        },
    };
    let tri_linear = match rd_u8(blob, &mut pos) {
        Some(v) => v,
        None => {
            return None;
        },
    };
    let tri_linear_reload = match rd_bool(blob, &mut pos) {
        Some(v) => v,
        None => {
            return None;
        },
    };
    let tri_period = match rd_u16(blob, &mut pos) {
        Some(v) => v,
        None => {
            return None;
        },
    };
    let noi_enabled = match rd_bool(blob, &mut pos) {
        Some(v) => v,
        None => {
            return None;
        },
    };
    let noi_length = match rd_u8(blob, &mut pos) {
        Some(v) => v,
        None => {
            return None;
        },
    };
    let noi_env = match rd_env(blob, &mut pos) {
        Some(v) => v,
        None => {
            return None;
        },
    };
    let noi_mode = match rd_bool(blob, &mut pos) {
        Some(v) => v,
        None => {
            return None;
        },
    };
    let noi_period_index = match rd_u8(blob, &mut pos) {
        Some(v) => v,
        None => {
            return None;
        },
    };
    let noi_lfsr = match rd_u16(blob, &mut pos) {
        Some(v) => v,
        None => {
            return None;
        },
    };
    let dmc_enabled = match rd_bool(blob, &mut pos) {
        Some(v) => v,
        None => {
            return None;
        },
    };
    let dmc_irq_enable = match rd_bool(blob, &mut pos) {
        Some(v) => v,
        None => {
            return None;
        },
    };
    let dmc_loop = match rd_bool(blob, &mut pos) {
        Some(v) => v,
        None => {
            return None;
        },
    };
    let dmc_rate = match rd_u8(blob, &mut pos) {
        Some(v) => v,
        None => {
            return None;
        },
    };
    let dmc_output = match rd_u8(blob, &mut pos) {
        Some(v) => v,
        None => {
            return None;
        },
    };
    let dmc_addr = match rd_u8(blob, &mut pos) {
        Some(v) => v,
        None => {
            return None;
        },
    };
    let dmc_len = match rd_u8(blob, &mut pos) {
        Some(v) => v,
        None => {
            return None;
        },
    };
    let mode5 = match rd_bool(blob, &mut pos) {
        Some(v) => v,
        None => {
            return None;
        },
    };
    let irq_inhibit = match rd_bool(blob, &mut pos) {
        Some(v) => v,
        None => {
            return None;
        },
    };
    let frame_irq = match rd_bool(blob, &mut pos) {
        Some(v) => v,
        None => {
            return None;
        },
    };
    let frame_counter = match rd_u32(blob, &mut pos) {
        Some(v) => v,
        None => {
            return None;
        },
    };
    let apu_last = match rd_u64(blob, &mut pos) {
        Some(v) => v,
        None => {
            return None;
        },
    };
    if tri_reload_value >= 128 || tri_period >= 0x800 || noi_period_index >= 16 || noi_lfsr == 0
        || noi_lfsr >= 0x8000 || dmc_rate >= 16 || dmc_output >= 128
        || frame_counter > crate::apu::SEQ_STEP_5 {
        return None;
    }
    let tag = match rd_u8(blob, &mut pos) {
        Some(v) => v,
        None => {
            return None;
        },
    };
    let cur_tag: u8 = match cpu.mem.mapper.kind {
        MapperKind::Nrom => 0,
        MapperKind::Mmc1 => 1,
        MapperKind::Uxrom => 2,
        MapperKind::Cnrom => 3,
        MapperKind::Mmc3 => 4,
        MapperKind::Axrom => 7,
    };
    if tag != cur_tag {
        return None;
    }
    let shift = match rd_u8(blob, &mut pos) {
        Some(v) => v,
        None => {
            return None;
        },
    };
    let shift_count = match rd_u8(blob, &mut pos) {
        Some(v) => v,
        None => {
            return None;
        },
    };
    let control = match rd_u8(blob, &mut pos) {
        Some(v) => v,
        None => {
            return None;
        },
    };
    let chr_bank0 = match rd_u8(blob, &mut pos) {
        Some(v) => v,
        None => {
            return None;
        },
    };
    let chr_bank1 = match rd_u8(blob, &mut pos) {
        Some(v) => v,
        None => {
            return None;
        },
    };
    let prg_bank = match rd_u8(blob, &mut pos) {
        Some(v) => v,
        None => {
            return None;
        },
    };
    let bank_select = match rd_u8(blob, &mut pos) {
        Some(v) => v,
        None => {
            return None;
        },
    };
    let r0 = match rd_u8(blob, &mut pos) {
        Some(v) => v,
        None => {
            return None;
        },
    };
    let r1 = match rd_u8(blob, &mut pos) {
        Some(v) => v,
        None => {
            return None;
        },
    };
    let r2 = match rd_u8(blob, &mut pos) {
        Some(v) => v,
        None => {
            return None;
        },
    };
    let r3 = match rd_u8(blob, &mut pos) {
        Some(v) => v,
        None => {
            return None;
        },
    };
    let r4 = match rd_u8(blob, &mut pos) {
        Some(v) => v,
        None => {
            return None;
        },
    };
    let r5 = match rd_u8(blob, &mut pos) {
        Some(v) => v,
        None => {
            return None;
        },
    };
    let r6 = match rd_u8(blob, &mut pos) {
        Some(v) => v,
        None => {
            return None;
        },
    };
    let r7 = match rd_u8(blob, &mut pos) {
        Some(v) => v,
        None => {
            return None;
        },
    };
    let mirror_bit = match rd_u8(blob, &mut pos) {
        Some(v) => v,
        None => {
            return None;
        },
    };
    let irq_latch = match rd_u8(blob, &mut pos) {
        Some(v) => v,
        None => {
            return None;
        },
    };
    let irq_counter = match rd_u8(blob, &mut pos) {
        Some(v) => v,
        None => {
            return None;
        },
    };
    let m_irq_enable = match rd_bool(blob, &mut pos) {
        Some(v) => v,
        None => {
            return None;
        },
    };
    let m_irq_reload = match rd_bool(blob, &mut pos) {
        Some(v) => v,
        None => {
            return None;
        },
    };
    if shift_count >= 5 {
        return None;
    }
    if shift >= pow2_small(shift_count) {
        return None;
    }
    let sram = match rd_bytes(blob, &mut pos, 8192) {
        Some(v) => v,
        None => {
            return None;
        },
    };
    let om = &cpu.mem.mapper;
    let rom = Rom {
        header: om.rom.header,
        prg: crate::rom::copy_range(&om.rom.prg, 0, om.rom.prg.len()),
        chr: crate::rom::copy_range(&om.rom.chr, 0, om.rom.chr.len()),
        sram,
    };
    proof {
        assert(rom.prg@ =~= om.rom.prg@);
        assert(rom.chr@ =~= om.rom.chr@);
    }
    let mapper = Mapper {
        kind: om.kind,
        rom,
        shift,
        shift_count,
        control,
        chr_bank0,
        chr_bank1,
        prg_bank,
        bank_select,
        r0,
        r1,
        r2,
        r3,
        r4,
        r5,
        r6,
        r7,
        mirror_bit,
        irq_latch,
        irq_counter,
        irq_enable: m_irq_enable,
        irq_reload: m_irq_reload,
    };
    let ppu = Ppu {
        ctrl,
        mask,
        status_vblank,
        status_sprite0,
        status_overflow,
        oam_addr,
        v: v_reg,
        t: t_reg,
        fine_x,
        w,
        read_buffer,
        nametables,
        palette,
        oam,
        screen,
        scanline,
        dot,
        odd_frame,
        last_cpu_cy: ppu_last,
    };
    let apu = Apu {
        pulse1,
        pulse2,
        triangle: Triangle {
            enabled: tri_enabled,
            length: tri_length,
            control: tri_control,
            reload_value: tri_reload_value,
            linear: tri_linear,
            linear_reload: tri_linear_reload,
            period: tri_period,
        },
        noise: Noise {
            enabled: noi_enabled,
            length: noi_length,
            env: noi_env,
            mode: noi_mode,
            period_index: noi_period_index,
            lfsr: noi_lfsr,
        },
        dmc: Dmc {
            enabled: dmc_enabled,
            irq_enable: dmc_irq_enable,
            loop_flag: dmc_loop,
            rate: dmc_rate,
            output: dmc_output,
            addr: dmc_addr,
            len: dmc_len,
        },
        mode5,
        irq_inhibit,
        frame_irq,
        frame_counter,
        last_cpu_cy: apu_last,
    };
    let input = Input {
        gamepad: cpu.mem.input.gamepad,
        strobe: cpu.mem.input.strobe,
        shift: cpu.mem.input.shift,
    };
    let mem = MemMap { ram, ppu, apu, input, mapper };
    let mut c = Cpu::new(mem);
    c.a = a_reg;
    c.x = x_reg;
    c.y = y_reg;
    c.s = s_reg;
    c.pc = pc;
    c.set_flags_byte(flags);
    c.cy = cy;
    c.nmi_pending = nmi_pending;
    c.irq_pending = irq_pending;
    c.conditional_jump = conditional_jump;
    Some(c)
}

/// Powers of two below 32, for the shift-register bound.
fn pow2_small(n: u8) -> (r: u8)
    requires
        n < 5,
    ensures
        r == crate::mapper::pow2_u8(n),
{
    if n == 0 {
        1
    } else if n == 1 {
        2
    } else if n == 2 {
        4
    } else if n == 3 {
        8
    } else {
        16
    }
}

} // verus!
