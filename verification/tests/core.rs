use nes_core::apu::Apu;
use nes_core::cpu::Cpu;
use nes_core::input::Input;
use nes_core::mapper::Mapper;
use nes_core::mem::MemMap;
use nes_core::ppu::Ppu;
use nes_core::rom::Mirroring;
use nes_core::rom::Rom;
use nes_core::save::load_state;
use nes_core::save::save_state;
use nes_core::system_step;
use nes_core::EmuError;
use nes_core::RomParseKind;

/// A minimal iNES image: one PRG bank, CHR RAM, the given mapper.
fn image(mapper: u8) -> Vec<u8> {
    let mut d = vec![0x4E, 0x45, 0x53, 0x1A, 1, 0, (mapper % 16) << 4, mapper & 0xF0];
    d.resize(16, 0);
    d.resize(16 + 16384, 0);
    // A recognizable first PRG byte and reset vector at $FFFC -> $8000.
    d[16] = 0x77;
    d[16 + 0x3FFC] = 0x00;
    d[16 + 0x3FFD] = 0x80;
    d
}

fn machine(mapper_num: u8) -> Cpu {
    let rom = Rom::parse(&image(mapper_num)).unwrap();
    let mapper = Mapper::create(rom).unwrap();
    let mem = MemMap::new(Ppu::new(), Apu::new(), Input::new(), mapper);
    Cpu::new(mem)
}

#[test]
fn rom_parse_fields() {
    let rom = Rom::parse(&image(1)).unwrap();
    assert_eq!(rom.header.prg_count, 1);
    assert_eq!(rom.header.chr_count, 0);
    assert_eq!(rom.header.mapper, 1);
    assert_eq!(rom.header.mirroring, Mirroring::Horizontal);
    assert_eq!(rom.prg[0], 0x77);
    assert_eq!(rom.chr.len(), 8192);
}

#[test]
fn rom_parse_errors() {
    let mut bad = image(0);
    bad[0] = 0x4F;
    assert_eq!(
        Rom::parse(&bad).err(),
        Some(EmuError::RomParse(RomParseKind::BadMagic))
    );
    let short = image(0)[..100].to_vec();
    assert_eq!(
        Rom::parse(&short).err(),
        Some(EmuError::RomParse(RomParseKind::Truncated))
    );
    let mut none = image(0);
    none[4] = 0;
    assert_eq!(
        Rom::parse(&none).err(),
        Some(EmuError::RomParse(RomParseKind::UnsupportedHeader))
    );
    let rom = Rom::parse(&image(5)).unwrap();
    assert_eq!(Mapper::create(rom).err(), Some(EmuError::UnsupportedMapper(5)));
}

#[test]
fn ram_write_read_and_mirrors() {
    let mut cpu = machine(0);
    cpu.mem.storeb(0x0005, 0xAB);
    assert_eq!(cpu.mem.loadb(0x0005), 0xAB);
    assert_eq!(cpu.mem.loadb(0x0805), 0xAB);
    assert_eq!(cpu.mem.loadb(0x1005), 0xAB);
    assert_eq!(cpu.mem.loadb(0x1805), 0xAB);
    cpu.mem.storeb(0x1805, 0xCD);
    assert_eq!(cpu.mem.loadb(0x0005), 0xCD);
}

#[test]
fn mmc1_five_write_protocol_selects_control() {
    let mut cpu = machine(1);
    // LSBs 1,0,0,0,1 assemble 0b10001 = $11 into the control register.
    for bit in [1u8, 0, 0, 0, 1] {
        cpu.mem.storeb(0x8000, bit);
    }
    assert_eq!(cpu.mem.mapper.control, 0x11);
    // Control $11 is a 32 KiB PRG mode; bank register 0 maps PRG byte 0
    // to $8000.
    assert_eq!(cpu.mem.loadb(0x8000), 0x77);
}

#[test]
fn stack_push_pop_via_instructions() {
    let mut cpu = machine(0);
    // LDA #$42; PHA; PLA at $0000.
    cpu.mem.storeb(0x0000, 0xA9);
    cpu.mem.storeb(0x0001, 0x42);
    cpu.mem.storeb(0x0002, 0x48);
    cpu.mem.storeb(0x0003, 0x68);
    cpu.pc = 0;
    let s0 = cpu.s;
    cpu.step().unwrap();
    let cy_before = cpu.cy;
    let info = cpu.step().unwrap();
    assert_eq!(info.opcode, 0x48);
    assert_eq!(cpu.cy - cy_before, 3);
    assert_eq!(cpu.s, s0.wrapping_sub(1));
    assert_eq!(cpu.mem.loadb(0x0100 + s0 as u16), 0x42);
    cpu.a = 0;
    cpu.step().unwrap();
    assert_eq!(cpu.a, 0x42);
    assert_eq!(cpu.s, s0);
}

#[test]
fn cycle_costs_match_the_documented_table() {
    let mut cpu = machine(0);
    // LDA #$01 (2 cycles); BNE taken, same page (3); unsupported $02.
    cpu.mem.storeb(0x0000, 0xA9);
    cpu.mem.storeb(0x0001, 0x01);
    cpu.mem.storeb(0x0002, 0xD0);
    cpu.mem.storeb(0x0003, 0x02);
    cpu.mem.storeb(0x0006, 0x02);
    cpu.pc = 0;
    let info = cpu.step().unwrap();
    assert_eq!(info.opcode, 0xA9);
    assert_eq!(cpu.cy, 2);
    let info = cpu.step().unwrap();
    assert_eq!(info.opcode, 0xD0);
    assert!(info.branch_taken);
    assert!(!info.branch_page_cross);
    assert_eq!(cpu.cy, 5);
    assert_eq!(cpu.pc, 0x0006);
    assert_eq!(cpu.step(), Err(EmuError::UnsupportedOpcode(0x0006, 0x02)));
}

#[test]
fn reset_loads_the_vector() {
    let mut cpu = machine(0);
    cpu.reset();
    assert_eq!(cpu.pc, 0x8000);
    assert_eq!(cpu.s, 0xFD);
}

#[test]
fn ppu_vblank_and_status_read_clear() {
    let mut cpu = machine(0);
    // Enable NMI at VBlank.
    cpu.mem.storeb(0x2000, 0x80);
    let mut cy = 0u64;
    let mut saw_nmi = false;
    for _ in 0..200 {
        cy += 500;
        let r = cpu.mem.ppu.step(&mut cpu.mem.mapper, cy);
        if r.vblank_nmi {
            saw_nmi = true;
            break;
        }
    }
    assert!(saw_nmi);
    let status = cpu.mem.loadb(0x2002);
    assert_eq!(status & 0x80, 0x80);
    // The read cleared the flag.
    assert_eq!(cpu.mem.loadb(0x2002) & 0x80, 0);
}

#[test]
fn sprite0_hit_raised_by_overlap() {
    let mut cpu = machine(0);
    let ppu = &mut cpu.mem.ppu;
    // Both planes on.
    ppu.mask = 0x18;
    // Tile 0 row 0 is fully opaque in CHR RAM.
    cpu.mem.mapper.chr_write(0x0000, 0xFF);
    // Sprite 0 at the top-left: covers scanlines 1..=8.
    // (OAM is zeroed already: y=0, tile=0, attr=0, x=0.)
    cpu.mem.ppu.render_scanline(&cpu.mem.mapper, 1);
    // Background fine y is 1 on that call (v=0), so make the whole tile
    // opaque instead and re-check on a fresh machine.
    let mut cpu2 = machine(0);
    cpu2.mem.ppu.mask = 0x18;
    for row in 0..8 {
        cpu2.mem.mapper.chr_write(row, 0xFF);
    }
    cpu2.mem.ppu.render_scanline(&cpu2.mem.mapper, 1);
    assert!(cpu2.mem.ppu.status_sprite0);
    // The flag survives status reads and clears on the pre-render line.
    assert_eq!(cpu2.mem.loadb(0x2002) & 0x40, 0x40);
    assert_eq!(cpu2.mem.loadb(0x2002) & 0x40, 0x40);
}

#[test]
fn input_shifts_buttons_in_order() {
    let mut cpu = machine(0);
    cpu.mem.input.gamepad.a = true;
    cpu.mem.input.gamepad.start = true;
    cpu.mem.storeb(0x4016, 1);
    cpu.mem.storeb(0x4016, 0);
    let reads: Vec<u8> = (0..8).map(|_| cpu.mem.loadb(0x4016)).collect();
    assert_eq!(reads, vec![1, 0, 0, 1, 0, 0, 0, 0]);
}

#[test]
fn apu_status_reflects_length_counters() {
    let mut cpu = machine(0);
    cpu.mem.storeb(0x4015, 0x01);
    cpu.mem.storeb(0x4003, 0x08);
    // Length index 1 loads 254.
    assert_eq!(cpu.mem.apu.pulse1.length, 254);
    assert_eq!(cpu.mem.loadb(0x4015) & 0x01, 0x01);
    cpu.mem.storeb(0x4015, 0x00);
    assert_eq!(cpu.mem.apu.pulse1.length, 0);
    assert_eq!(cpu.mem.loadb(0x4015) & 0x01, 0);
}

#[test]
fn save_load_round_trip_is_byte_identical() {
    let mut cpu = machine(1);
    cpu.reset();
    cpu.mem.storeb(0x0005, 0x5A);
    cpu.mem.storeb(0x6000, 0x33);
    let s1 = save_state(&cpu);
    // Disturb the machine, then restore.
    cpu.a = 0x99;
    cpu.mem.storeb(0x0005, 0x00);
    assert_eq!(load_state(&mut cpu, &s1), Ok(()));
    let s2 = save_state(&cpu);
    assert_eq!(s1, s2);
    assert_eq!(cpu.mem.loadb(0x0005), 0x5A);
    assert_eq!(cpu.mem.loadb(0x6000), 0x33);
    // A truncated or corrupt blob is rejected and changes nothing.
    let before = save_state(&cpu);
    let truncated = s1[..100].to_vec();
    assert_eq!(
        load_state(&mut cpu, &truncated),
        Err(EmuError::SaveStateIncompatible)
    );
    assert_eq!(save_state(&cpu), before);
}

#[test]
fn executive_step_keeps_the_clocks_in_lockstep() {
    let mut cpu = machine(0);
    cpu.reset();
    // An infinite loop at the reset target: JMP $8000.
    // (PRG is ROM; the image already holds zeros, i.e. BRK, so place a
    // small RAM program instead.)
    cpu.pc = 0x0000;
    cpu.mem.storeb(0x0000, 0x4C);
    cpu.mem.storeb(0x0001, 0x00);
    cpu.mem.storeb(0x0002, 0x00);
    for _ in 0..1000 {
        let r = system_step(&mut cpu).unwrap();
        assert_eq!(cpu.mem.ppu.last_cpu_cy, cpu.cy);
        assert_eq!(cpu.mem.apu.last_cpu_cy, cpu.cy);
        let _ = r;
    }
    assert_eq!(cpu.cy, 3000);
}
