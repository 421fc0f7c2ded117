use nes_core::cpu::CPU;
use nes_core::rp2a03::{info, UNIT_A, UNIT_P, UNIT_S, UNIT_X, UNIT_Y};

fn start_state(seed: u8) -> CPU {
    let mut cpu = CPU::new();
    cpu.pc = 0x0200;
    cpu.reg_a = seed.wrapping_mul(37);
    cpu.reg_x = seed.wrapping_mul(11);
    cpu.reg_y = seed.wrapping_mul(5);
    cpu.reg_s = 0xf0;
    cpu.flag_carry = seed % 2 == 1;
    cpu.flag_zero = seed % 3 == 1;
    cpu.flag_overflow = seed % 5 == 1;
    cpu.flag_negative = seed % 7 == 1;
    cpu.flag_decimal_mode = seed % 11 == 1;
    cpu
}

#[test]
fn every_opcode_stays_within_its_masks() {
    for op in 0..=255u8 {
        let inf = info(op);
        for seed in [3u8, 50, 201] {
            let mut mem: Vec<u8> = (0..0x10000u32).map(|i| (i as u8).wrapping_mul(seed) ^ 0x5a).collect();
            mem[0x0200] = op;
            let before = start_state(seed);
            let mut cpu = before;
            let cycles = cpu.run_one(&mut mem);
            assert!(cycles >= inf.cycles && cycles <= inf.cycles + 2, "opcode {:02x}", op);
            if inf.affected_units & UNIT_P == 0 {
                assert_eq!(0x0200 + inf.bytes as u16, cpu.pc, "opcode {:02x}", op);
            }
            if inf.affected_units & UNIT_A == 0 {
                assert_eq!(before.reg_a, cpu.reg_a, "opcode {:02x}", op);
            }
            if inf.affected_units & UNIT_X == 0 {
                assert_eq!(before.reg_x, cpu.reg_x, "opcode {:02x}", op);
            }
            if inf.affected_units & UNIT_Y == 0 {
                assert_eq!(before.reg_y, cpu.reg_y, "opcode {:02x}", op);
            }
            if inf.affected_units & UNIT_S == 0 {
                assert_eq!(before.reg_s, cpu.reg_s, "opcode {:02x}", op);
            }
            let changed = before.pack_flags() ^ cpu.pack_flags();
            assert_eq!(0, changed & !inf.affected_flags, "opcode {:02x}", op);
            assert_ne!(0, cpu.pack_flags() & 0x20);
        }
    }
}

#[test]
fn branch_cycle_penalties() {
    // BNE with Z clear: taken; offset +0x10 stays in page, -0x80 from $0202 crosses.
    let mut mem = vec![0u8; 0x10000];
    mem[0x0200] = 0xd0;
    mem[0x0201] = 0x10;
    let mut cpu = CPU::new();
    cpu.pc = 0x0200;
    assert_eq!(3, cpu.run_one(&mut mem));
    assert_eq!(0x0212, cpu.pc);
    mem[0x0201] = 0x80;
    cpu.pc = 0x0200;
    assert_eq!(4, cpu.run_one(&mut mem));
    assert_eq!(0x0182, cpu.pc);
    cpu.pc = 0x0200;
    cpu.flag_zero = true;
    assert_eq!(2, cpu.run_one(&mut mem));
    assert_eq!(0x0202, cpu.pc);
}
