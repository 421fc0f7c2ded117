use nes_core::cpu::CPU;
use nes_core::memory::Memory;
use nes_core::mmap::CpuMemoryMap;
use nes_core::opcodes::{LDA_ABS, LDA_IMM, LDX_IMM, LDY_IMM, STA_ABS, STA_ZPG, STX_ABS, STY_ABS};
use nes_core::rom::Mirroring;

fn nrom_bus(chr_rom: Vec<Vec<u8>>) -> CpuMemoryMap {
    CpuMemoryMap::new(0, vec![vec![0; 0x4000]], chr_rom, Mirroring::Horizontal).expect("NROM")
}

#[test]
fn test_ram_mirroring() {
    let test = |range: std::ops::Range<u16>| {
        let mut mmap = nrom_bus(vec![]);
        for i in range {
            mmap.write_u8(i, i as u8);
        }
        for i in 0..0x2000u16 {
            assert_eq!(i as u8, mmap.read_u8(i));
        }
    };
    test(0x0000..0x0800);
    test(0x0800..0x1000);
    test(0x1000..0x1800);
    test(0x1800..0x2000);
}

#[test]
fn test_ppu_vram_access() {
    // CHR-RAM (no CHR banks), so that pattern-table writes land. $2007 reads
    // are buffered below the palette: the byte written comes back on the
    // second read there, and on the first read from the palette.
    let mut cpu = CPU::new();
    let mut mmap = nrom_bus(vec![]);
    cpu.reset(&mut mmap);

    for addr in 0..0x4000u16 {
        let code = vec![
            LDX_IMM, (addr >> 8) as u8,
            LDY_IMM, addr as u8,
            STX_ABS, 0x06, 0x20,
            STY_ABS, 0x06, 0x20,
            // Write 0xcc
            LDA_IMM, 0xcc,
            STA_ABS, 0x07, 0x20,
            STX_ABS, 0x06, 0x20,
            STY_ABS, 0x06, 0x20,
            LDA_ABS, 0x07, 0x20,
            STA_ZPG, 0x00,
            LDA_ABS, 0x07, 0x20,
            STA_ZPG, 0x01,
        ];
        for i in 0..code.len() {
            mmap.ram[0x200 + i] = code[i];
        }
        cpu.pc = 0x0200;
        mmap.ram[0x0000] = 0x00;
        mmap.ram[0x0001] = 0x00;
        for _ in 0..13 {
            cpu.run_one(&mut mmap);
        }
        if addr >= 0x3f00 {
            assert_eq!(0xcc, mmap.ram[0x0000], "address {:04x}", addr);
        } else if addr < 0x3eff {
            assert_eq!(0xcc, mmap.ram[0x0001], "address {:04x}", addr);
        } else {
            // The read after $3EFF is a palette read: the byte stays in the buffer.
            assert_eq!(0xcc, mmap.ppu.read_buffer);
        }
        assert_eq!(addr.wrapping_add(2), mmap.ppu.reg_v);
    }
}
