use nes_core::Bus;
use nes_core::Button;
use nes_core::Controller;
use nes_core::Cpu;
use nes_core::Flag;
use nes_core::Mirroring;
use nes_core::Rom;
use nes_core::RomError;

fn step_instruction(cpu: &mut Cpu) {
    cpu.tick();
    while !cpu.ready_to_execute_next_instruction() {
        cpu.tick();
    }
}

#[test]
fn status_byte_round_trip() {
    let mut f = Flag {
        flag_n: 1,
        flag_v: 0,
        flag_b: 1,
        flag_d: 0,
        flag_i: 1,
        flag_z: 0,
        flag_c: 1,
    };
    let sr = f.get_sr();
    assert_eq!(sr, 0x80 | 0x10 | 0x20 | 0x04 | 0x01);
    f.set_sr(0);
    assert_eq!(f.get_sr(), 0x20);
    f.set_sr(sr);
    assert_eq!(f.get_sr(), sr);
}

#[test]
fn controller_shift_order() {
    let mut c = Controller::new();
    c.pressed(Button::A);
    c.pressed(Button::START);
    c.write(1);
    c.write(0);
    let expected = [1u8, 0, 0, 1, 0, 0, 0, 0];
    for bit in expected {
        let v = c.read();
        assert_eq!(v & 1, bit);
        assert_eq!(v & 0x40, 0x40);
    }
    // every later read returns 1 until the strobe latches again
    assert_eq!(c.read() & 1, 1);
    assert_eq!(c.read() & 1, 1);
}

#[test]
fn rom_rejects_bad_magic() {
    let mut rom = Rom::new();
    let data = vec![0u8; 16];
    assert_eq!(rom.load_image(&data), Err(RomError::BadImage));
    let short = vec![0x4E, 0x45, 0x53];
    assert_eq!(rom.load_image(&short), Err(RomError::BadImage));
}

#[test]
fn rom_rejects_too_large_and_unsupported_mapper() {
    let mut header = vec![0x4E, 0x45, 0x53, 0x1A, 17, 0, 0, 0, 0, 0, 0, 0, 0, 0, 0, 0];
    let mut rom = Rom::new();
    assert_eq!(rom.load_image(&header), Err(RomError::TooLarge));
    header[4] = 1;
    header[6] = 0x10; // mapper low nibble = 1
    let mut image = header.clone();
    image.extend(std::iter::repeat(0u8).take(16384));
    assert_eq!(rom.load_image(&image), Err(RomError::UnsupportedMapper));
}

#[test]
fn rom_parses_minimal_image() {
    let mut image = vec![0x4E, 0x45, 0x53, 0x1A, 1, 0, 0x03, 0, 0, 0, 0, 0, 0, 0, 0, 0];
    let mut prg = vec![0u8; 16384];
    prg[0] = 0xEA;
    prg[16383] = 0x55;
    image.extend(prg);
    let mut rom = Rom::new();
    assert_eq!(rom.load_image(&image), Ok(()));
    assert_eq!(rom.prg_bank_count, 1);
    assert_eq!(rom.chr_bank_count, 0);
    assert_eq!(rom.mirroring, Mirroring::VERTICAL);
    assert!(rom.has_battery_ram);
    assert!(!rom.has_trainer);
    // one bank folds with mask 0x3FFF
    assert_eq!(rom.read_prg(0x8000), 0xEA);
    assert_eq!(rom.read_prg(0xC000), 0xEA);
    assert_eq!(rom.read_prg(0xFFFF), 0x55);
}

#[test]
fn hex_dump_loads_program_bytes() {
    let mut rom = Rom::new();
    let listing = "0600: a9 01 8d 00 02 # store\n0606: a9 05";
    assert_eq!(rom.load_hex_dump(0x600, listing), Ok(()));
    assert_eq!(rom.prg[0x600], 0xA9);
    assert_eq!(rom.prg[0x601], 0x01);
    assert_eq!(rom.prg[0x602], 0x8D);
    assert_eq!(rom.prg[0x605], 0xA9);
    assert_eq!(rom.prg[0x606], 0x05);
    // an odd number of digits is refused and leaves PRG untouched
    let mut rom2 = Rom::new();
    assert_eq!(rom2.load_hex_dump(0, "0: a9 1"), Err(RomError::BadImage));
    assert_eq!(rom2.prg[0], 0);
}

#[test]
fn ram_mirrors_every_0x800() {
    let mut bus = Bus::new();
    bus.write_ram(0x0005, 7);
    assert_eq!(bus.read_ram(0x0005), 7);
    assert_eq!(bus.read_ram(0x0805), 7);
    assert_eq!(bus.read_ram(0x1005), 7);
    assert_eq!(bus.read_ram(0x1805), 7);
    bus.write_ram(0x1806, 9);
    assert_eq!(bus.read_ram(0x0006), 9);
}

#[test]
fn palette_write_0x3f10_reads_back_at_0x3f00() {
    let mut bus = Bus::new();
    // PPUADDR high then low: 0x3F10, then write through PPUDATA
    bus.write_ram(0x2006, 0x3F);
    bus.write_ram(0x2006, 0x10);
    bus.write_ram(0x2007, 0x2A);
    // point at 0x3F00 and read PPUDATA: palette reads return directly
    bus.write_ram(0x2006, 0x3F);
    bus.write_ram(0x2006, 0x00);
    assert_eq!(bus.read_ram(0x2007), 0x2A);
}

#[test]
fn lda_immediate_sets_flags() {
    let mut cpu = Cpu::new();
    for (i, b) in [0xA9u8, 0x00, 0xA9, 0x80].iter().enumerate() {
        cpu.bus.write_ram(0x0600 + i as u16, *b);
    }
    cpu.pc = 0x0600;
    step_instruction(&mut cpu);
    assert_eq!(cpu.reg_a, 0);
    assert_eq!(cpu.flag.flag_z, 1);
    assert_eq!(cpu.flag.flag_n, 0);
    step_instruction(&mut cpu);
    assert_eq!(cpu.reg_a, 0x80);
    assert_eq!(cpu.flag.flag_z, 0);
    assert_eq!(cpu.flag.flag_n, 1);
}

#[test]
fn stack_push_pop_program() {
    let program = [
        0xA2u8, 0x00, 0xA0, 0x00, 0x8A, 0x99, 0x00, 0x02, 0x48, 0xE8, 0xC8, 0xC0, 0x10, 0xD0,
        0xF5, 0x68, 0x99, 0x00, 0x02, 0xC8, 0xC0, 0x20, 0xD0, 0xF7,
    ];
    let mut cpu = Cpu::new();
    for (i, b) in program.iter().enumerate() {
        cpu.bus.write_ram(0x0600 + i as u16, *b);
    }
    cpu.pc = 0x0600;
    for _ in 0..800 {
        cpu.tick();
        if cpu.pc >= 0x0618 && cpu.ready_to_execute_next_instruction() {
            break;
        }
    }
    for i in 0..16u16 {
        assert_eq!(cpu.bus.read_ram(0x0200 + i), i as u8);
    }
    for i in 0..15u16 {
        assert_eq!(cpu.bus.read_ram(0x0210 + i), 0x0F - i as u8);
    }
}

#[test]
fn page_cross_adc_costs_five_cycles() {
    let program = [0xA9u8, 0x02, 0x8D, 0x01, 0x02, 0xAA, 0x7D, 0xFF, 0x01];
    let mut cpu = Cpu::new();
    for (i, b) in program.iter().enumerate() {
        cpu.bus.write_ram(0x0600 + i as u16, *b);
    }
    cpu.pc = 0x0600;
    step_instruction(&mut cpu); // LDA #$02
    step_instruction(&mut cpu); // STA $0201
    step_instruction(&mut cpu); // TAX
    assert_eq!(cpu.reg_a, 2);
    assert_eq!(cpu.reg_x, 2);
    let before = cpu.tick_count;
    step_instruction(&mut cpu); // ADC $01FF,X crosses into page 2
    assert_eq!(cpu.tick_count - before, 5);
    assert_eq!(cpu.reg_a, 4);
}

#[test]
fn indirect_jmp_page_wrap_bug() {
    let mut cpu = Cpu::new();
    for (i, b) in [0x6Cu8, 0xFF, 0x02].iter().enumerate() {
        cpu.bus.write_ram(0x0600 + i as u16, *b);
    }
    cpu.bus.write_ram(0x02FF, 0x34);
    cpu.bus.write_ram(0x0200, 0x12);
    cpu.bus.write_ram(0x0300, 0x78);
    cpu.pc = 0x0600;
    step_instruction(&mut cpu);
    assert_eq!(cpu.pc, 0x1234);
}

#[test]
fn oam_dma_copies_a_page_and_stalls() {
    let mut cpu = Cpu::new();
    for i in 0..256u16 {
        cpu.bus.write_ram(0x0200 + i, (i as u8).wrapping_mul(3));
    }
    cpu.bus.write_ram(0x4014, 0x02);
    for i in 0..256usize {
        assert_eq!(cpu.bus.ppu.oam_ram[i], (i as u8).wrapping_mul(3));
    }
    assert_eq!(cpu.bus.dma_cycles, 513);
    // while the stall runs, the CPU retires nothing
    let ticks_before = cpu.tick_count;
    cpu.execute_cpu_ppu();
    assert_eq!(cpu.bus.dma_cycles, 512);
    assert_eq!(cpu.tick_count, ticks_before);
}

#[test]
fn frame_cadence_one_vblank_rise_per_frame() {
    let mut cpu = Cpu::new();
    let mut rises = 0;
    let mut dots = 0u32;
    // start at dot 0 of scanline 0; one frame is 341 * 262 dots
    for _ in 0..(341 * 262) {
        if cpu.bus.ppu.scanline == 241 && cpu.bus.ppu.pixel == 1 {
            rises += 1;
        }
        cpu.bus.ppu.tick(&cpu.bus.rom);
        dots += 1;
    }
    assert_eq!(rises, 1);
    assert_eq!(dots, 89342);
    assert_eq!(cpu.bus.ppu.scanline, 0);
    assert_eq!(cpu.bus.ppu.pixel, 0);
}

#[test]
fn vblank_nmi_vectors_with_b_clear() {
    let mut cpu = Cpu::new();
    // NMI vector 0x1200 lives in PRG space (one-bank fold of 0xFFFA)
    cpu.bus
        .rom
        .load_hex_dump(0x3FFA, "v: 00 12")
        .expect("vector bytes");
    // enable NMI generation and put the PPU just before the VBlank rise
    cpu.bus.ppu.reg_ctrl = 0x80;
    cpu.bus.ppu.scanline = 241;
    cpu.bus.ppu.pixel = 1;
    cpu.bus.ppu.tick(&cpu.bus.rom);
    assert!(cpu.bus.ppu.is_vblank());
    cpu.pc = 0x0700;
    cpu.flag.set_sr(0);
    let sp_before = cpu.reg_sp;
    cpu.execute_cpu_ppu();
    assert_eq!(cpu.pc & 0xFF00, 0x1200); // vectored, then ticked from 0x1200
    assert_eq!(cpu.flag.flag_i, 1);
    // pushed PC high, PC low, then status with B clear and bit 5 set
    assert_eq!(cpu.bus.read_ram(0x0100 + sp_before as u16), 0x07);
    assert_eq!(cpu.bus.read_ram(0x0100 + sp_before.wrapping_sub(1) as u16), 0x00);
    let pushed_sr = cpu.bus.read_ram(0x0100 + sp_before.wrapping_sub(2) as u16);
    assert_eq!(pushed_sr & 0x10, 0); // B clear
    assert_eq!(pushed_sr & 0x20, 0x20); // bit 5 reads 1
    assert_eq!(pushed_sr & 0x04, 0); // the pushed byte carries the old I flag
}

#[test]
fn apu_pulse_length_counter_and_output() {
    let mut ch = nes_core::PulseChannel::new();
    ch.set_enabled(true);
    ch.write_register(0, 0x9F); // duty 2, constant volume 15
    ch.write_register(2, 0xFF); // timer low
    ch.write_register(3, 0x08); // length index 1 -> 254, timer high 0
    assert!(ch.is_active());
    ch.clock_envelope();
    let mut saw_high = false;
    for _ in 0..8 {
        ch.clock();
        // force the sequencer ahead: timer reloads at 0x0FF
        for _ in 0..0x100 {
            ch.clock();
        }
        if ch.output() > 0 {
            saw_high = true;
        }
    }
    assert!(saw_high);
    ch.set_enabled(false);
    assert_eq!(ch.output(), 0);
}

#[test]
fn debugger_breakpoints_toggle() {
    let mut d = nes_core::Debugger::new();
    assert!(!d.hit_breakpoint_pc(0x1234));
    d.toggle_breakpoint_pc(0x1234, None);
    assert!(d.hit_breakpoint_pc(0x1234));
    d.toggle_breakpoint_pc(0x1234, None);
    assert!(!d.hit_breakpoint_pc(0x1234));
    d.set_breakpoint_memory_access(0x2002, Some(String::from("status")));
    assert!(d.hit_breakpoint_memory_access(0x2002));
    d.remove_breakpoint_memory_access(0x2002);
    assert!(!d.hit_breakpoint_memory_access(0x2002));
    d.add_symbol(0x8000, String::from("reset"));
    assert!(d.check_symbol_at_memory_access(0x8000));
    assert_eq!(d.get_symbol_at_memory_access(0x8000), "reset");
    assert_eq!(d.get_symbol_at_memory_access(0x8001), "");
}

#[test]
fn php_plp_restores_flags_ignoring_b() {
    let mut cpu = Cpu::new();
    cpu.pc = 0x0600;
    cpu.bus.write_ram(0x0600, 0x08); // PHP
    cpu.bus.write_ram(0x0601, 0x28); // PLP
    cpu.flag.set_sr(0x81); // N and C, B clear
    step_instruction(&mut cpu);
    // the pushed copy carries B set and bit 5 set
    let pushed = cpu.bus.read_ram(0x0100 + cpu.reg_sp.wrapping_add(1) as u16);
    assert_eq!(pushed, 0x81 | 0x10 | 0x20);
    step_instruction(&mut cpu);
    let sr = cpu.flag.get_sr();
    assert_eq!(sr & 0x81, 0x81);
    assert_eq!(sr & 0x20, 0x20);
    // bit 4 of the pulled byte is ignored: B keeps its old value
    assert_eq!(cpu.flag.flag_b, 0);
}

#[test]
fn pha_pla_restores_accumulator() {
    let mut cpu = Cpu::new();
    cpu.pc = 0x0600;
    cpu.bus.write_ram(0x0600, 0x48); // PHA
    cpu.bus.write_ram(0x0601, 0xA9); // LDA #$00
    cpu.bus.write_ram(0x0602, 0x00);
    cpu.bus.write_ram(0x0603, 0x68); // PLA
    cpu.reg_a = 0x9C;
    step_instruction(&mut cpu);
    step_instruction(&mut cpu);
    assert_eq!(cpu.reg_a, 0);
    step_instruction(&mut cpu);
    assert_eq!(cpu.reg_a, 0x9C);
    assert_eq!(cpu.flag.flag_n, 1);
    assert_eq!(cpu.flag.flag_z, 0);
}

#[test]
fn reset_reads_vector_and_clears_the_system() {
    let mut cpu = Cpu::new();
    cpu.bus.rom.load_hex_dump(0x3FFC, "v: 34 12").expect("vector");
    // leave a stall and a mid-frame PPU behind, which reset must clear
    cpu.bus.dma_cycles = 5;
    cpu.bus.ppu.scanline = 100;
    cpu.bus.ppu.pixel = 7;
    cpu.bus.ppu.bg_pattern_shift_low = 0x1234;
    cpu.reset();
    assert_eq!(cpu.pc, 0x1234);
    assert_eq!(cpu.reg_sp, 0xFD);
    assert_eq!(cpu.cycles, 7);
    assert_eq!(cpu.flag.flag_i, 1);
    assert_eq!(cpu.tick_count, 0);
    assert_eq!(cpu.bus.dma_cycles, 0);
    assert_eq!(cpu.bus.ppu.scanline, 0);
    assert_eq!(cpu.bus.ppu.pixel, 0);
    assert_eq!(cpu.bus.ppu.bg_pattern_shift_low, 0);
}

#[test]
fn sprite_zero_hit_sets_and_clears_at_prerender() {
    let mut cpu = Cpu::new();
    // opaque pattern rows for tile 0 in the pattern table, so both the
    // background (all nametable entries are tile 0) and sprite 0 render
    // solid pixels
    for row in 0..8 {
        cpu.bus.rom.chr[row] = 0xFF; // low plane
        cpu.bus.rom.chr[row + 8] = 0xFF; // high plane
    }
    // sprite 0: rows 28-35, covering dots 45-52, front priority, tile 0
    cpu.bus.ppu.oam_ram[0] = 27; // Y
    cpu.bus.ppu.oam_ram[1] = 0; // tile
    cpu.bus.ppu.oam_ram[2] = 0; // attributes
    cpu.bus.ppu.oam_ram[3] = 45; // X
    // show background and sprites, including the left eight columns
    cpu.bus.ppu.reg_mask = 0x1E;

    // run to just past dot 50 of scanline 30: the hit flag must be up
    while !(cpu.bus.ppu.scanline == 30 && cpu.bus.ppu.pixel == 51) {
        cpu.bus.ppu.tick(&cpu.bus.rom);
    }
    assert_eq!(cpu.bus.ppu.reg_status & 0x40, 0x40);

    // it stays up to the pre-render line and falls at dot 1 of it
    while !(cpu.bus.ppu.scanline == 261 && cpu.bus.ppu.pixel == 1) {
        cpu.bus.ppu.tick(&cpu.bus.rom);
    }
    assert_eq!(cpu.bus.ppu.reg_status & 0x40, 0x40);
    cpu.bus.ppu.tick(&cpu.bus.rom);
    assert_eq!(cpu.bus.ppu.reg_status & 0x40, 0x00);
}

#[test]
fn flag_text_lists_the_set_flags() {
    let mut f = Flag {
        flag_n: 1,
        flag_v: 0,
        flag_b: 0,
        flag_d: 0,
        flag_i: 1,
        flag_z: 0,
        flag_c: 1,
    };
    assert_eq!(f.get_formatted_str(), "[ N I C ]");
    f.set_sr(0);
    assert_eq!(f.get_formatted_str(), "[ ]");
}

#[test]
fn four_screen_keeps_all_nametables_distinct() {
    let mut cpu = Cpu::new();
    cpu.bus.ppu.set_mirroring(Mirroring::FOUR_SCREEN);
    // one write into each logical nametable slot through PPUADDR/PPUDATA
    for (slot, value) in [(0u16, 0x11u8), (1, 0x22), (2, 0x33), (3, 0x44)] {
        let addr = 0x2005 + slot * 0x400;
        cpu.bus.write_ram(0x2006, (addr >> 8) as u8);
        cpu.bus.write_ram(0x2006, (addr & 0xFF) as u8);
        cpu.bus.write_ram(0x2007, value);
    }
    for (slot, value) in [(0u16, 0x11u8), (1, 0x22), (2, 0x33), (3, 0x44)] {
        let addr = 0x2005 + slot * 0x400;
        cpu.bus.write_ram(0x2006, (addr >> 8) as u8);
        cpu.bus.write_ram(0x2006, (addr & 0xFF) as u8);
        cpu.bus.read_ram(0x2007); // buffered
        assert_eq!(cpu.bus.read_ram(0x2007), value);
    }
}

#[test]
fn run_frame_reports_a_scanline_wrap() {
    let mut cpu = Cpu::new();
    // the idle CPU executes BRK loops through zeroed vectors; the PPU
    // still advances three dots per step, so the frame completes
    assert!(cpu.run_frame());
    assert_eq!(cpu.bus.ppu.scanline, 0);
}

#[test]
fn memory_addr_accessed_reports_operands_and_branch_targets() {
    let mut cpu = Cpu::new();
    cpu.bus.write_ram(0x0600, 0x8D); // STA $0234
    cpu.bus.write_ram(0x0601, 0x34);
    cpu.bus.write_ram(0x0602, 0x02);
    cpu.bus.write_ram(0x0603, 0xD0); // BNE -2
    cpu.bus.write_ram(0x0604, 0xFE);
    cpu.bus.write_ram(0x0605, 0xA9); // LDA #$01
    cpu.bus.write_ram(0x0606, 0x01);
    let sta = cpu.get_optcode(0x0600);
    assert_eq!(sta.get_memory_addr_accessed(&cpu, 0x0600), Some(0x0234));
    let bne = cpu.get_optcode(0x0603);
    assert_eq!(bne.get_memory_addr_accessed(&cpu, 0x0603), Some(0x0603));
    let lda = cpu.get_optcode(0x0605);
    assert_eq!(lda.get_memory_addr_accessed(&cpu, 0x0605), None);
}

#[test]
fn load_bin_copies_a_full_memory_image() {
    let mut rom = Rom::new();
    assert_eq!(rom.load_bin(&vec![7u8; 100]), Err(RomError::BadImage));
    let mut image = vec![0u8; 0x10000];
    image[0] = 0xA9;
    image[0xFFFF] = 0x60;
    assert_eq!(rom.load_bin(&image), Ok(()));
    assert_eq!(rom.prg[0], 0xA9);
    assert_eq!(rom.prg[0xFFFF], 0x60);
    assert_eq!(rom.prg[0x10000], 0);
}

#[test]
fn debug_symbol_listing_parses_sym_lines() {
    let mut d = nes_core::Debugger::new();
    let listing = "version major=2\nsym id=0,name=\"reset\",val=0x850C,type=lab\nsym id=1, name=\"irq\" , val=12\nsym id=2,name=\"nohex\",val=0xZZ\n";
    d.load_debug_symbol(listing);
    assert!(d.check_symbol_at_memory_access(0x850C));
    assert_eq!(d.get_symbol_at_memory_access(0x850C), "reset");
    // a val without the 0x prefix still parses as hex
    assert_eq!(d.get_symbol_at_memory_access(0x0012), "irq");
    // a line whose val does not parse contributes nothing
    assert!(!d.check_symbol_at_memory_access(0x0000));
}

#[test]
fn debug_symbol_later_lines_override_earlier_ones() {
    let mut d = nes_core::Debugger::new();
    d.add_symbol(0x20, String::from("old"));
    d.load_debug_symbol("sym id=0,name=\"first\",val=0x20\nsym id=1,name=\"second\",val=0x20");
    assert_eq!(d.get_symbol_at_memory_access(0x20), "second");
}
