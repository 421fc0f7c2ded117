use nes_core::cpu::CPU;
use nes_core::opcodes::{DEC_ABS, DEC_ABX, DEC_ZPG, DEC_ZPX, DEX_IMP, DEY_IMP, INC_ABS, INC_ABX, INC_ZPG, INC_ZPX, INX_IMP, INY_IMP};

fn test_cpu(program: &[u8]) -> (CPU, Vec<u8>) {
    let pc = 0x1000u16;
    let mut mem = vec![0; 0x10000];
    mem.splice(
        pc as usize..(pc as usize) + program.len(),
        program.iter().cloned(),
    );
    mem[0xfffc] = pc as u8;
    mem[0xfffd] = (pc >> 8) as u8;
    let mut cpu = CPU::new();
    cpu.reset(&mut mem);
    (cpu, mem)
}

fn lo(v: u16) -> u8 {
    v as u8
}

fn hi(v: u16) -> u8 {
    (v >> 8) as u8
}

#[test]
fn test_inc() {
    // Values/flags
    for i in 0..=0xff {
        let (mut cpu, mut ram) = test_cpu(&vec![INC_ZPG, 0x00]);
        ram[0x00] = i;
        let expected = i.wrapping_add(1);
        cpu.run_one(&mut ram);
        assert_eq!(expected, ram[0x00]);
        assert_eq!(expected == 0, cpu.flag_zero);
        assert_eq!(expected >= 0x80, cpu.flag_negative);
    }

    // Addressing
    let x = 0x10;
    let v = 0x40;
    let zpg = 0x80;
    let abs = 0x1234;
    let (mut cpu, mut ram) = test_cpu(&vec![
        INC_ZPG, zpg,
        INC_ZPX, zpg,
        INC_ABS, lo(abs), hi(abs),
        INC_ABX, lo(abs), hi(abs),
    ]);
    cpu.reg_x = x;
    ram[zpg as usize] = v + 0;
    ram[(zpg + x) as usize] = v + 1;
    ram[abs as usize] = v + 2;
    ram[(abs + x as u16) as usize] = v + 3;

    assert_eq!(5, cpu.run_one(&mut ram));
    assert_eq!(6, cpu.run_one(&mut ram));
    assert_eq!(6, cpu.run_one(&mut ram));
    assert_eq!(7, cpu.run_one(&mut ram));

    assert_eq!(v + 1, ram[zpg as usize]);
    assert_eq!(v + 2, ram[(zpg + x) as usize]);
    assert_eq!(v + 3, ram[abs as usize]);
    assert_eq!(v + 4, ram[(abs + x as u16) as usize]);
}

#[test]
fn test_inx() {
    // Values/flags
    for i in 0..=0xff {
        let (mut cpu, mut ram) = test_cpu(&vec![INX_IMP]);
        cpu.reg_x = i;
        let expected = i.wrapping_add(1);
        assert_eq!(2, cpu.run_one(&mut ram));
        assert_eq!(expected, cpu.reg_x);
        assert_eq!(expected == 0, cpu.flag_zero);
        assert_eq!(expected >= 0x80, cpu.flag_negative);
    }
}

#[test]
fn test_iny() {
    // Values/flags
    for i in 0..=0xff {
        let (mut cpu, mut ram) = test_cpu(&vec![INY_IMP]);
        cpu.reg_y = i;
        let expected = i.wrapping_add(1);
        assert_eq!(2, cpu.run_one(&mut ram));
        assert_eq!(expected, cpu.reg_y);
        assert_eq!(expected == 0, cpu.flag_zero);
        assert_eq!(expected >= 0x80, cpu.flag_negative);
    }
}

#[test]
fn test_dec() {
    // Values/flags
    for i in 0..=0xff {
        let (mut cpu, mut ram) = test_cpu(&vec![DEC_ZPG, 0x00]);
        ram[0x00] = i;
        let expected = i.wrapping_sub(1);
        cpu.run_one(&mut ram);
        assert_eq!(expected, ram[0x00]);
        assert_eq!(expected == 0, cpu.flag_zero);
        assert_eq!(expected >= 0x80, cpu.flag_negative);
    }

    // Addressing
    let x = 0x10;
    let v = 0x40;
    let zpg = 0x80;
    let abs = 0x1234;
    let (mut cpu, mut ram) = test_cpu(&vec![
        DEC_ZPG, zpg,
        DEC_ZPX, zpg,
        DEC_ABS, lo(abs), hi(abs),
        DEC_ABX, lo(abs), hi(abs),
    ]);
    cpu.reg_x = x;
    ram[zpg as usize] = v + 1;
    ram[(zpg + x) as usize] = v + 2;
    ram[abs as usize] = v + 3;
    ram[(abs + x as u16) as usize] = v + 4;

    assert_eq!(5, cpu.run_one(&mut ram));
    assert_eq!(6, cpu.run_one(&mut ram));
    assert_eq!(6, cpu.run_one(&mut ram));
    assert_eq!(7, cpu.run_one(&mut ram));

    assert_eq!(v + 0, ram[zpg as usize]);
    assert_eq!(v + 1, ram[(zpg + x) as usize]);
    assert_eq!(v + 2, ram[abs as usize]);
    assert_eq!(v + 3, ram[(abs + x as u16) as usize]);
}

#[test]
fn test_dex() {
    // Values/flags
    for i in 0..=0xff {
        let (mut cpu, mut ram) = test_cpu(&vec![DEX_IMP]);
        cpu.reg_x = i;
        let expected = i.wrapping_sub(1);
        assert_eq!(2, cpu.run_one(&mut ram));
        assert_eq!(expected, cpu.reg_x);
        assert_eq!(expected == 0, cpu.flag_zero);
        assert_eq!(expected >= 0x80, cpu.flag_negative);
    }
}

#[test]
fn test_dey() {
    // Values/flags
    for i in 0..=0xff {
        let (mut cpu, mut ram) = test_cpu(&vec![DEY_IMP]);
        cpu.reg_y = i;
        let expected = i.wrapping_sub(1);
        assert_eq!(2, cpu.run_one(&mut ram));
        assert_eq!(expected, cpu.reg_y);
        assert_eq!(expected == 0, cpu.flag_zero);
        assert_eq!(expected >= 0x80, cpu.flag_negative);
    }
}
