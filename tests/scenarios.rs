use nes_core::cpu::CPU;
use nes_core::mappers::get_mapper;
use nes_core::ppu::PPU;
use nes_core::ppu_bus::PpuMemoryMap;
use nes_core::nes::NES;
use nes_core::opcodes::{ADC_IMM, JMP_IND};
use nes_core::rom::{Mirroring, NESFile, RomError};

/// An iNES image with `prg_banks` PRG banks filled by `fill` and the reset
/// vector set to `reset`.
fn ines(prg_banks: u8, chr_banks: u8, flags6: u8, reset: u16, program: &[u8]) -> Vec<u8> {
    let mut data = vec![0x4e, 0x45, 0x53, 0x1a, prg_banks, chr_banks, flags6, 0, 0, 0, 0, 0, 0, 0, 0, 0];
    let mut prg = vec![0xeau8; 0x4000 * prg_banks as usize];
    let base = if prg_banks == 2 { 0x8000 } else { 0xc000 };
    let start = (reset as usize - base) % prg.len();
    prg[start..start + program.len()].copy_from_slice(program);
    let n = prg.len();
    prg[n - 4] = reset as u8;
    prg[n - 3] = (reset >> 8) as u8;
    data.extend_from_slice(&prg);
    data.extend(vec![0u8; 0x2000 * chr_banks as usize]);
    data
}

fn tick_until_cpu(nes: &mut NES) {
    nes.tick();
    nes.wait_until_cpu_ready();
}

#[test]
fn reset_loads_vector_and_state() {
    let rom = NESFile::load(&ines(1, 1, 0, 0xc000, &[])).expect("valid image");
    let nes = NES::new(rom).expect("NROM");
    assert_eq!(0xc000, nes.cpu.pc);
    assert_eq!(0xfd, nes.cpu.reg_s);
    assert!(nes.cpu.flag_interrupt_disable);
    assert_eq!(7 * 12, nes.total_ticks);
    assert_eq!(7, nes.get_total_cycles());
}

#[test]
fn adc_immediate_through_scheduler() {
    let rom = NESFile::load(&ines(1, 1, 0, 0xc000, &[ADC_IMM, 0x2a])).expect("valid image");
    let mut nes = NES::new(rom).expect("NROM");
    nes.wait_until_cpu_ready();
    let before = nes.get_total_cycles();
    tick_until_cpu(&mut nes);
    assert_eq!(42, nes.cpu.reg_a);
    assert!(!nes.cpu.flag_zero && !nes.cpu.flag_negative && !nes.cpu.flag_carry && !nes.cpu.flag_overflow);
    assert_eq!(2, nes.get_total_cycles() - before);
    assert_eq!(0xc002, nes.cpu.pc);
}

#[test]
fn adc_signed_overflow() {
    let mut mem = vec![0u8; 0x10000];
    mem[0] = ADC_IMM;
    mem[1] = 0x50;
    let mut cpu = CPU::new();
    cpu.reg_a = 0x50;
    assert_eq!(2, cpu.run_one(&mut mem));
    assert_eq!(0xa0, cpu.reg_a);
    assert!(cpu.flag_overflow && cpu.flag_negative && !cpu.flag_carry && !cpu.flag_zero);
}

#[test]
fn indirect_jmp_page_wrap_bug() {
    let mut mem = vec![0u8; 0x10000];
    mem[0x1000] = JMP_IND;
    mem[0x1001] = 0xff;
    mem[0x1002] = 0x02;
    mem[0x02ff] = 0x00;
    mem[0x0200] = 0x80;
    mem[0x0300] = 0x40;
    let mut cpu = CPU::new();
    cpu.pc = 0x1000;
    assert_eq!(5, cpu.run_one(&mut mem));
    assert_eq!(0x8000, cpu.pc);
}

#[test]
fn vblank_flag_read_and_cleared() {
    let rom = NESFile::load(&ines(1, 1, 0, 0xc000, &[0x4c, 0x00, 0xc0])).expect("valid image");
    let mut nes = NES::new(rom).expect("NROM");
    while !(nes.mmap.ppu.current_scanline == 241 && nes.mmap.ppu.current_cycle == 2) {
        nes.tick();
    }
    let first = nes.mmap.ppu.read_ppustatus();
    let second = nes.mmap.ppu.read_ppustatus();
    assert_ne!(0, first & 0x80);
    assert_eq!(0, second & 0x80);
}

#[test]
fn ppu_frame_lengths() {
    let bus = PpuMemoryMap::new(Mirroring::Horizontal, vec![vec![0u8; 0x2000]]);
    let mut ppu = PPU::new();
    let mut dots: u32 = 0;
    loop {
        ppu.run_one(&bus);
        dots += 1;
        if ppu.current_scanline == 0 && ppu.current_cycle == 0 {
            break;
        }
    }
    assert_eq!(89342, dots);
    // Background on: the odd frame is one dot shorter, the even one is not.
    ppu.write_ppumask(0x08);
    assert!(ppu.is_odd_frame);
    let mut odd: u32 = 0;
    loop {
        ppu.run_one(&bus);
        odd += 1;
        if ppu.current_scanline == 0 && ppu.current_cycle == 0 {
            break;
        }
    }
    assert_eq!(89341, odd);
    let mut even: u32 = 0;
    loop {
        ppu.run_one(&bus);
        even += 1;
        if ppu.current_scanline == 0 && ppu.current_cycle == 0 {
            break;
        }
    }
    assert_eq!(89342, even);
}

#[test]
fn ppu_scroll_then_address() {
    let mut ppu = PPU::new();
    ppu.write_ppuctrl(0x03);
    assert_eq!(0x0c00, ppu.reg_t);
    ppu.write_ppuscroll(0x7d);
    assert_eq!(0x0c0f, ppu.reg_t);
    assert_eq!(5, ppu.reg_x);
    ppu.write_ppuscroll(0x5e);
    assert_eq!(0x6d6f, ppu.reg_t);
    ppu.write_ppuaddr(0x3d);
    ppu.write_ppuaddr(0xf0);
    assert_eq!(0x3df0, ppu.reg_v);
    assert_eq!(0x3df0, ppu.reg_t);
    assert_eq!(5, ppu.reg_x);
    assert!(!ppu.reg_w);
}

#[test]
fn ppudata_reads_are_buffered() {
    let mut bus = PpuMemoryMap::new(Mirroring::Vertical, vec![]);
    let mut ppu = PPU::new();
    ppu.write_ppuaddr(0x21);
    ppu.write_ppuaddr(0x08);
    ppu.write_ppudata(&mut bus, 0xcc);
    ppu.write_ppuaddr(0x21);
    ppu.write_ppuaddr(0x08);
    assert_eq!(0x00, ppu.read_ppudata(&bus));
    assert_eq!(0xcc, ppu.read_ppudata(&bus));
    // Palette reads skip the buffer; $3F10 aliases $3F00.
    ppu.write_ppuaddr(0x3f);
    ppu.write_ppuaddr(0x10);
    ppu.write_ppudata(&mut bus, 0x21);
    ppu.write_ppuaddr(0x3f);
    ppu.write_ppuaddr(0x00);
    assert_eq!(0x21, ppu.read_ppudata(&bus));
    // Vertical mirroring: $2800 is $2000.
    assert_eq!(bus.read_u8(0x2108), bus.read_u8(0x2908));
}

#[test]
fn nrom_upper_bank_mapping() {
    let one = get_mapper(0, vec![vec![1u8; 0x4000]]).expect("NROM");
    assert_eq!(1, one.prg_get(0xc000));
    assert_eq!(1, one.prg_get(0x8000));
    let two = get_mapper(0, vec![vec![1u8; 0x4000], vec![2u8; 0x4000]]).expect("NROM");
    assert_eq!(2, two.prg_get(0xc000));
    assert_eq!(1, two.prg_get(0xbfff));
    assert_eq!(0xcc, two.prg_get(0x6000));
    assert!(get_mapper(1, vec![vec![0u8; 0x4000]]).is_none());
}

#[test]
fn rom_errors() {
    assert_eq!(Some(RomError::TooShort), NESFile::load(&[0x4e, 0x45]).err());
    let mut bad = ines(1, 1, 0, 0xc000, &[]);
    bad[0] = 0;
    assert_eq!(Some(RomError::BadMagic), NESFile::load(&bad).err());
    let mut v2 = ines(1, 1, 0, 0xc000, &[]);
    v2[7] = 0x08;
    assert_eq!(Some(RomError::UnsupportedFormat), NESFile::load(&v2).err());
    let mut pad = ines(1, 1, 0, 0xc000, &[]);
    pad[13] = 1;
    assert_eq!(Some(RomError::BadHeaderPadding), NESFile::load(&pad).err());
    let m1 = ines(1, 1, 0x10, 0xc000, &[]);
    assert_eq!(Some(RomError::UnsupportedMapper(1)), NESFile::load(&m1).err());
    let mut short = ines(1, 1, 0, 0xc000, &[]);
    short.truncate(100);
    assert_eq!(Some(RomError::Truncated), NESFile::load(&short).err());
    let mut long = ines(1, 1, 0, 0xc000, &[]);
    long.push(0);
    assert_eq!(Some(RomError::TrailingData), NESFile::load(&long).err());
    let ok = NESFile::load(&ines(2, 1, 0x01, 0x8000, &[])).expect("valid");
    assert_eq!(2, ok.prg_rom.len());
    assert_eq!(Mirroring::Vertical, ok.header.mirroring);
}

#[test]
fn status_pack_unpack_round_trip() {
    for b in 0..=255u8 {
        let mut mem = vec![0u8; 0x10000];
        mem[0] = 0x28; // PLP
        mem[0x01ff] = b;
        let mut cpu = CPU::new();
        cpu.reg_s = 0xfe;
        cpu.run_one(&mut mem);
        assert_eq!((b & 0xef) | 0x20, cpu.pack_flags());
    }
}

#[test]
fn sbc_equals_adc_of_complement() {
    for c in 0..=1u8 {
        for a in 0..=255u8 {
            for m in (0..=255u8).step_by(7) {
                let mut mem1 = vec![0u8; 0x10000];
                mem1[0] = 0xe9;
                mem1[1] = m;
                let mut s = CPU::new();
                s.reg_a = a;
                s.flag_carry = c == 1;
                s.run_one(&mut mem1);
                let mut mem2 = vec![0u8; 0x10000];
                mem2[0] = ADC_IMM;
                mem2[1] = !m;
                let mut d = CPU::new();
                d.reg_a = a;
                d.flag_carry = c == 1;
                d.run_one(&mut mem2);
                assert_eq!(d.reg_a, s.reg_a);
                assert_eq!(d.pack_flags(), s.pack_flags());
            }
        }
    }
}

#[test]
fn brk_pushes_status_with_b_and_bit5() {
    let mut mem = vec![0u8; 0x10000];
    mem[0xfffe] = 0x34;
    mem[0xffff] = 0x12;
    let mut cpu = CPU::new();
    cpu.pc = 0x0400;
    cpu.reg_s = 0xff;
    assert_eq!(7, cpu.run_one(&mut mem));
    assert_eq!(0x1234, cpu.pc);
    assert!(cpu.flag_interrupt_disable);
    assert_eq!(0x04, mem[0x1ff]);
    assert_eq!(0x01, mem[0x1fe]);
    assert_eq!(0x30, mem[0x1fd]);
}

#[test]
fn nmi_and_irq_entry() {
    let mut mem = vec![0u8; 0x10000];
    mem[0xfffa] = 0x00;
    mem[0xfffb] = 0x90;
    mem[0xfffe] = 0x00;
    mem[0xffff] = 0xa0;
    let mut cpu = CPU::new();
    cpu.pc = 0x1234;
    cpu.reg_s = 0xff;
    cpu.flag_interrupt_disable = true;
    assert_eq!(0, cpu.irq(&mut mem));
    assert_eq!(0x1234, cpu.pc);
    assert_eq!(7, cpu.nmi(&mut mem));
    assert_eq!(0x9000, cpu.pc);
    assert_eq!(0x24, mem[0x1fd]);
    cpu.flag_interrupt_disable = false;
    assert_eq!(7, cpu.irq(&mut mem));
    assert_eq!(0xa000, cpu.pc);
}

#[test]
fn illegal_opcode_is_reported_nop() {
    let mut mem = vec![0u8; 0x10000];
    mem[0] = 0x02;
    let mut cpu = CPU::new();
    assert_eq!(2, cpu.run_one(&mut mem));
    assert_eq!(1, cpu.pc);
    assert_eq!(Some(0x02), cpu.illegal_opcode);
}

#[test]
fn unofficial_lax_and_dcp() {
    let mut mem = vec![0u8; 0x10000];
    mem[0] = 0xa7; // LAX zp
    mem[1] = 0x10;
    mem[2] = 0xc7; // DCP zp
    mem[3] = 0x10;
    mem[0x10] = 0x42;
    let mut cpu = CPU::new();
    assert_eq!(3, cpu.run_one(&mut mem));
    assert_eq!(0x42, cpu.reg_a);
    assert_eq!(0x42, cpu.reg_x);
    assert_eq!(5, cpu.run_one(&mut mem));
    assert_eq!(0x41, mem[0x10]);
    assert!(cpu.flag_carry);
}
