//! End-to-end scenarios through the whole system.

use nes::nes::NES;

/// A minimal NROM image: 16 KiB of NOPs with the reset vector at
/// `$8000`, and 8 KiB of character data.
fn nop_rom() -> Vec<u8> {
    let mut data = vec![0x4Eu8, 0x45, 0x53, 0x1A, 1, 1, 0, 0, 0, 0, 0, 0, 0, 0, 0, 0];
    let mut prg = vec![0xEAu8; 0x4000];
    // An infinite jump-to-self at $8000, so the CPU never strays.
    prg[0] = 0x4C;
    prg[1] = 0x00;
    prg[2] = 0x80;
    prg[0x3FFA] = 0x00;
    prg[0x3FFB] = 0x80;
    prg[0x3FFC] = 0x00;
    prg[0x3FFD] = 0x80;
    prg[0x3FFE] = 0x00;
    prg[0x3FFF] = 0x80;
    data.extend_from_slice(&prg);
    data.extend_from_slice(&vec![0u8; 0x2000]);
    data
}

fn booted() -> NES {
    let mut sys = NES::new();
    sys.load_rom(nop_rom()).unwrap();
    sys
}

#[test]
fn palette_write_mirror_read() {
    let mut sys = booted();
    sys.cpu_write(0x2006, 0x3F);
    sys.cpu_write(0x2006, 0x10);
    sys.cpu_write(0x2007, 0x2A);
    sys.cpu_write(0x2006, 0x3F);
    sys.cpu_write(0x2006, 0x00);
    // Palette reads are not buffered: the byte written through the
    // $3F10 alias comes straight back through $3F00.
    let value = sys.cpu_read(0x2007);
    assert_eq!(value, 0x2A);
    // And the other way round: written at $3F00, read at $3F10.
    sys.cpu_write(0x2006, 0x3F);
    sys.cpu_write(0x2006, 0x00);
    sys.cpu_write(0x2007, 0x51);
    sys.cpu_write(0x2006, 0x3F);
    sys.cpu_write(0x2006, 0x10);
    assert_eq!(sys.cpu_read(0x2007), 0x51);
}

#[test]
fn controller_strobe_shift_order() {
    let mut sys = booted();
    // Buttons A and Down pressed: A, B, Select, Start, Up, Down, Left, Right
    let buttons: u8 = 0b0010_0001;
    sys.cpu_write(0x4016, 0x01);
    assert!(sys.get_shift_strobe());
    sys.try_fill_controller_shift(buttons);
    sys.cpu_write(0x4016, 0x00);
    let mut reads = Vec::new();
    for _ in 0..8 {
        reads.push(sys.cpu_read(0x4016) & 1);
    }
    assert_eq!(reads, vec![1, 0, 0, 0, 0, 1, 0, 0]);
}

#[test]
fn controller_strobe_holds_shift() {
    let mut sys = booted();
    sys.cpu_write(0x4016, 0x01);
    sys.try_fill_controller_shift(0b0000_0011);
    // With the strobe still up, reads do not shift.
    assert_eq!(sys.cpu_read(0x4016) & 1, 1);
    assert_eq!(sys.cpu_read(0x4016) & 1, 1);
    sys.cpu_write(0x4016, 0x00);
    assert_eq!(sys.cpu_read(0x4016) & 1, 1);
    assert_eq!(sys.cpu_read(0x4016) & 1, 1);
    assert_eq!(sys.cpu_read(0x4016) & 1, 0);
}

#[test]
fn oamdma_cycle_count_even() {
    let mut sys = booted();
    for i in 0..256u16 {
        sys.cpu_write(0x0200 + i, i as u8);
    }
    sys.cpu_write(0x2003, 0x00);
    sys.cpu.cycles = 100;
    sys.cpu.wait_cycles = 0;
    sys.cpu_write(0x4014, 0x02);
    let before = sys.cpu.cycles;
    sys.tick();
    while sys.cpu.wait_cycles > 0 {
        sys.tick();
    }
    assert_eq!(sys.cpu.cycles - before, 513);
    for i in 0..256usize {
        assert_eq!(sys.cpu.memory.ppu.oam[i], i as u8);
    }
}

#[test]
fn oamdma_cycle_count_odd() {
    let mut sys = booted();
    sys.cpu_write(0x2003, 0x00);
    sys.cpu.cycles = 101;
    sys.cpu.wait_cycles = 0;
    sys.cpu_write(0x4014, 0x02);
    let before = sys.cpu.cycles;
    sys.tick();
    while sys.cpu.wait_cycles > 0 {
        sys.tick();
    }
    assert_eq!(sys.cpu.cycles - before, 514);
}

#[test]
fn oamdma_wraps_oamaddr() {
    let mut sys = booted();
    for i in 0..256u16 {
        sys.cpu_write(0x0200 + i, i as u8);
    }
    sys.cpu_write(0x2003, 0x10);
    sys.cpu_write(0x4014, 0x02);
    sys.tick();
    for i in 0..256usize {
        assert_eq!(sys.cpu.memory.ppu.oam[(0x10 + i) % 256], i as u8);
    }
}

#[test]
fn ppu_advances_three_dots_per_tick() {
    let mut sys = booted();
    let before = sys.cpu.memory.ppu.scan.total_cycles;
    sys.tick();
    assert_eq!(sys.cpu.memory.ppu.scan.total_cycles - before, 3);
    sys.tick();
    assert_eq!(sys.cpu.memory.ppu.scan.total_cycles - before, 6);
}

/// Dot counts between successive VBlank starts, measured one PPU dot
/// at a time on a bare PPU.
fn frame_lengths_in_dots(mask: u8) -> (u32, u32) {
    let mut ppu = nes::ppu::PPU::new();
    let mut cart = nes::cartridge::Cartridge::new();
    ppu.registers.ppumask.bits = mask;
    let mut marks = Vec::new();
    let mut dots = 0u32;
    while marks.len() < 3 {
        if ppu.scan.line == 241 && ppu.scan.cycle == 1 {
            marks.push(dots);
        }
        ppu.tick(&mut cart);
        dots += 1;
        assert!(dots < 300_000, "no frames produced");
    }
    (marks[1] - marks[0], marks[2] - marks[1])
}

#[test]
fn odd_frame_skip_with_rendering() {
    let (first, second) = frame_lengths_in_dots(0x08);
    let mut lens = vec![first, second];
    lens.sort();
    assert_eq!(lens, vec![89341, 89342]);
}

#[test]
fn no_frame_skip_without_rendering() {
    let (first, second) = frame_lengths_in_dots(0x00);
    assert_eq!(first, 89342);
    assert_eq!(second, 89342);
}

#[test]
fn jmp_indirect_page_wrap_bug() {
    let mut sys = booted();
    sys.cpu_write(0x10FF, 0x34);
    sys.cpu_write(0x1000, 0x12);
    sys.cpu_write(0x1100, 0x56);
    sys.cpu_write(0x0180, 0x6C);
    sys.cpu_write(0x0181, 0xFF);
    sys.cpu_write(0x0182, 0x10);
    sys.cpu.pc = 0x0180;
    sys.cpu.step();
    // The high byte comes from $1000, not $1100.
    assert_eq!(sys.cpu.pc, 0x1234);
}

#[test]
fn php_pla_roundtrip_scenario() {
    let mut sys = booted();
    sys.cpu_write(0x0180, 0x08); // PHP
    sys.cpu_write(0x0181, 0x68); // PLA
    sys.cpu.p.bits = 0b1100_1011;
    sys.cpu.pc = 0x0180;
    sys.cpu.step();
    sys.cpu.step();
    assert_eq!(sys.cpu.a, 0b1111_1011);
    assert_eq!(sys.cpu.a & 0x30, 0x30);
    assert_eq!(sys.cpu.a & 0xCF, 0b1100_1011 & 0xCF);
}

#[test]
fn nmi_enable_during_vblank_raises_immediate_nmi() {
    let mut sys = booted();
    let mut guard = 0u32;
    while sys.cpu.memory.ppu.registers.ppustatus.bits & 0x80 == 0 {
        sys.tick();
        guard += 1;
        assert!(guard < 100_000, "vblank never started");
    }
    assert!(!sys.cpu.memory.ppu.nmi);
    sys.cpu_write(0x2000, 0x80);
    assert!(sys.cpu.memory.ppu.nmi);
}

#[test]
fn one_nmi_per_vblank_when_enabled() {
    let mut sys = booted();
    // The VBlank flag powers on set; clear it so enabling NMI now
    // does not fire the immediate-NMI rule.
    let _ = sys.cpu_read(0x2002);
    sys.cpu_write(0x2000, 0x80);
    // The program is a jump-to-self, so the stack moves only when an
    // NMI enters its handler: three pushed bytes per VBlank.
    let s0 = sys.cpu.s;
    let mut frames = 0u32;
    let mut guard = 0u32;
    while frames < 3 {
        sys.tick();
        if sys.get_new_frame().is_some() {
            frames += 1;
        }
        guard += 1;
        assert!(guard < 400_000, "no frames produced");
    }
    assert_eq!(sys.cpu.s, s0.wrapping_sub(9));
}

#[test]
fn ppudata_increments_by_one() {
    let mut sys = booted();
    sys.cpu_write(0x2000, 0x00);
    sys.cpu_write(0x2006, 0x20);
    sys.cpu_write(0x2006, 0x00);
    assert_eq!(sys.cpu.memory.ppu.registers.curr_addr.raw, 0x2000);
    let _ = sys.cpu_read(0x2007);
    assert_eq!(sys.cpu.memory.ppu.registers.curr_addr.raw, 0x2001);
    let _ = sys.cpu_read(0x2007);
    assert_eq!(sys.cpu.memory.ppu.registers.curr_addr.raw, 0x2002);
}

#[test]
fn ppudata_increments_by_thirty_two() {
    let mut sys = booted();
    sys.cpu_write(0x2000, 0x04);
    sys.cpu_write(0x2006, 0x20);
    sys.cpu_write(0x2006, 0x00);
    let _ = sys.cpu_read(0x2007);
    assert_eq!(sys.cpu.memory.ppu.registers.curr_addr.raw, 0x2020);
}

#[test]
fn ppudata_nametable_write_read_roundtrip() {
    let mut sys = booted();
    sys.cpu_write(0x2006, 0x21);
    sys.cpu_write(0x2006, 0x08);
    sys.cpu_write(0x2007, 0x77);
    sys.cpu_write(0x2006, 0x21);
    sys.cpu_write(0x2006, 0x08);
    let _buffered = sys.cpu_read(0x2007);
    let value = sys.cpu_read(0x2007);
    assert_eq!(value, 0x77);
}

#[test]
fn ppustatus_read_clears_vblank_and_latch() {
    let mut sys = booted();
    let mut guard = 0u32;
    while sys.cpu.memory.ppu.registers.ppustatus.bits & 0x80 == 0 {
        sys.tick();
        guard += 1;
        assert!(guard < 100_000);
    }
    let status = sys.cpu_read(0x2002);
    assert_eq!(status & 0x80, 0x80);
    assert_eq!(sys.cpu.memory.ppu.registers.ppustatus.bits & 0x80, 0);
    assert!(!sys.cpu.memory.ppu.registers.write_latch);
}

#[test]
fn ram_is_mirrored_to_two_kib() {
    let mut sys = booted();
    sys.cpu_write(0x0005, 0xAB);
    assert_eq!(sys.cpu_read(0x0805), 0xAB);
    assert_eq!(sys.cpu_read(0x1005), 0xAB);
    assert_eq!(sys.cpu_read(0x1805), 0xAB);
}

#[test]
fn load_rom_rejects_bad_magic() {
    let mut sys = NES::new();
    let mut data = nop_rom();
    data[0] = 0x4D;
    assert!(sys.load_rom(data).is_err());
    assert!(!sys.has_cartridge());
}

#[test]
fn load_rom_rejects_truncated_image() {
    let mut sys = NES::new();
    let mut data = nop_rom();
    data.truncate(16 + 0x2000);
    assert!(sys.load_rom(data).is_err());
}

#[test]
fn trace_line_layout() {
    let mut sys = booted();
    // LDA #$42 at $0180.
    sys.cpu_write(0x0180, 0xA9);
    sys.cpu_write(0x0181, 0x42);
    sys.cpu.pc = 0x0180;
    sys.cpu.a = 0;
    sys.cpu.x = 0;
    sys.cpu.y = 0;
    sys.cpu.p.bits = 0x24;
    sys.cpu.s = 0xFD;
    sys.cpu.cycles = 7;
    let line = String::from_utf8(sys.cpu.trace_line()).unwrap();
    assert!(line.starts_with("0180  A9 42     LDA #$42"));
    assert_eq!(&line[48..], "A:00 X:00 Y:00 P:24 SP:FD CYC:7");
}

#[test]
fn trace_line_resolved_data() {
    let mut sys = booted();
    // LDA $10 with $10 holding $7F.
    sys.cpu_write(0x0010, 0x7F);
    sys.cpu_write(0x0180, 0xA5);
    sys.cpu_write(0x0181, 0x10);
    sys.cpu.pc = 0x0180;
    let line = String::from_utf8(sys.cpu.trace_line()).unwrap();
    assert!(line.contains("LDA $10 = 7F"), "line was: {line}");
}

#[test]
fn brk_pushes_two_past_opcode() {
    let mut sys = booted();
    sys.cpu_write(0x0180, 0x00); // BRK at $0180
    sys.cpu.pc = 0x0180;
    sys.cpu.p.bits = 0x24;
    let s0 = sys.cpu.s;
    sys.cpu.step();
    // Return address pushed is the BRK address plus 2.
    let hi = sys.cpu_peek(0x0100 + s0 as u16);
    let lo = sys.cpu_peek(0x0100 + s0.wrapping_sub(1) as u16);
    assert_eq!(((hi as u16) << 8) | lo as u16, 0x0182);
    let pushed_p = sys.cpu_peek(0x0100 + s0.wrapping_sub(2) as u16);
    assert_eq!(pushed_p, 0x24 | 0x30);
    assert_eq!(sys.cpu.pc, 0x8000);
}
