use vstd::prelude::*;

verus! {

/// Bits of the packed status byte, low to high: C, Z, I, D, B, (always 1), V, N.
pub const FLAG_C: u8 = 0x01;
pub const FLAG_Z: u8 = 0x02;
pub const FLAG_I: u8 = 0x04;
pub const FLAG_D: u8 = 0x08;
pub const FLAG_B: u8 = 0x10;
pub const FLAG_U: u8 = 0x20;
pub const FLAG_V: u8 = 0x40;
pub const FLAG_N: u8 = 0x80;

/// Bits of an instruction's affected-unit mask.
pub const UNIT_A: u8 = 0x01;
pub const UNIT_X: u8 = 0x02;
pub const UNIT_Y: u8 = 0x04;
pub const UNIT_P: u8 = 0x08;
pub const UNIT_S: u8 = 0x10;
pub const UNIT_M: u8 = 0x20;

#[allow(non_camel_case_types)]
#[derive(Debug, Clone, Copy, PartialEq, Eq, Structural)]
pub enum Instruction {
    /// Illegal (undefined) opcode
    ILL,
    /// Add with carry
    ADC,
    /// Logical AND
    AND,
    /// Arithmetic shift left
    ASL,
    /// Branch if carry clear
    BCC,
    /// Branch if carry set
    BCS,
    /// Branch if equal
    BEQ,
    /// Bit test
    BIT,
    /// Branch if minus
    BMI,
    /// Branch if not equal
    BNE,
    /// Branch if positive
    BPL,
    /// Force interrupt
    BRK,
    /// Branch if overflow clear
    BVC,
    /// Branch if overflow set
    BVS,
    /// Clear carry flag
    CLC,
    /// Clear decimal mode
    CLD,
    /// Clear interrupt disable
    CLI,
    /// Clear overflow flag
    CLV,
    /// Compare
    CMP,
    /// Compare X register
    CPX,
    /// Compare Y register
    CPY,
    /// Decrement memory
    DEC,
    /// Decrement X register
    DEX,
    /// Decrement Y register
    DEY,
    /// Exclusive OR
    EOR,
    /// Increment memory
    INC,
    /// Increment X register
    INX,
    /// Increment Y register
    INY,
    /// Jump
    JMP,
    /// Jump to subroutine
    JSR,
    /// Load accumulator
    LDA,
    /// Load X register
    LDX,
    /// Load Y register
    LDY,
    /// Logical shift right
    LSR,
    /// No operation
    NOP,
    /// Logical OR
    ORA,
    /// Push accumulator
    PHA,
    /// Push processor status
    PHP,
    /// Pull accumulator
    PLA,
    /// Pull processor status
    PLP,
    /// Rotate left
    ROL,
    /// Rotate right
    ROR,
    /// Return from interrupt
    RTI,
    /// Return from subroutine
    RTS,
    /// Subtract with carry
    SBC,
    /// Set carry flag
    SEC,
    /// Set decimal mode
    SED,
    /// Set interrupt disable
    SEI,
    /// Store accumulator
    STA,
    /// Store X register
    STX,
    /// Store Y register
    STY,
    /// Transfer A to X
    TAX,
    /// Transfer A to Y
    TAY,
    /// Transfer S to X
    TSX,
    /// Transfer X to A
    TXA,
    /// Transfer X to S
    TXS,
    /// Transfer Y to A
    TYA,
    /// Shift left, then OR (unofficial)
    SLO,
    /// Rotate left, then AND (unofficial)
    RLA,
    /// Shift right, then XOR (unofficial)
    SRE,
    /// Rotate right, then add (unofficial)
    RRA,
    /// Store A AND X (unofficial)
    SAX,
    /// Load A and X (unofficial)
    LAX,
    /// Decrement, then compare (unofficial)
    DCP,
    /// Increment, then subtract (unofficial)
    ISB,
}

#[derive(Debug, Clone, Copy, PartialEq, Eq, Structural)]
pub enum AddressingMode {
    Implicit,
    Accumulator,
    Immediate,
    ZeroPage,
    ZeroPageX,
    ZeroPageY,
    Relative,
    Absolute,
    AbsoluteX,
    AbsoluteY,
    Indirect,
    IndexedIndirect,
    IndirectIndexed,
}

/// Decoded metadata of one opcode.
#[derive(Debug, Clone, Copy, PartialEq, Eq, Structural)]
pub struct Info {
    pub opcode: u8,
    pub insn: Instruction,
    pub addressing: AddressingMode,
    /// Length of the instruction, opcode included.
    pub bytes: u8,
    /// Base cycle count, before page-crossing and branch penalties.
    pub cycles: u8,
    /// Units besides the normal PC advance that it may change (UNIT_*).
    pub affected_units: u8,
    /// Status flags that it may change (FLAG_*).
    pub affected_flags: u8,
}

/// Length in bytes of an instruction using the addressing mode.
pub open spec fn mode_bytes(mode: AddressingMode) -> u8 {
    match mode {
        AddressingMode::Implicit | AddressingMode::Accumulator => 1,
        AddressingMode::Absolute | AddressingMode::AbsoluteX | AddressingMode::AbsoluteY
        | AddressingMode::Indirect => 3,
        _ => 2,
    }
}

/// Whether the instruction may change A.
pub open spec fn changes_a(i: Instruction) -> bool {
    match i {
        Instruction::ADC | Instruction::AND | Instruction::ASL | Instruction::EOR | Instruction::LDA | Instruction::LSR | Instruction::ORA | Instruction::PLA | Instruction::ROL | Instruction::ROR | Instruction::SBC | Instruction::TXA | Instruction::TYA | Instruction::SLO | Instruction::RLA | Instruction::SRE | Instruction::RRA | Instruction::LAX | Instruction::ISB => true,
        _ => false,
    }
}

/// Whether the instruction may change X.
pub open spec fn changes_x(i: Instruction) -> bool {
    match i {
        Instruction::DEX | Instruction::INX | Instruction::LDX | Instruction::TAX | Instruction::TSX | Instruction::LAX => true,
        _ => false,
    }
}

/// Whether the instruction may change Y.
pub open spec fn changes_y(i: Instruction) -> bool {
    match i {
        Instruction::DEY | Instruction::INY | Instruction::LDY | Instruction::TAY => true,
        _ => false,
    }
}

/// Whether the instruction sets PC otherwise than by stepping over itself.
pub open spec fn changes_pc(i: Instruction) -> bool {
    match i {
        Instruction::BCC | Instruction::BCS | Instruction::BEQ | Instruction::BMI | Instruction::BNE | Instruction::BPL | Instruction::BRK | Instruction::BVC | Instruction::BVS | Instruction::JMP | Instruction::JSR | Instruction::RTI | Instruction::RTS => true,
        _ => false,
    }
}

/// Whether the instruction may change S.
pub open spec fn changes_s(i: Instruction) -> bool {
    match i {
        Instruction::BRK | Instruction::JSR | Instruction::PHA | Instruction::PHP | Instruction::PLA | Instruction::PLP | Instruction::RTI | Instruction::RTS | Instruction::TXS => true,
        _ => false,
    }
}

/// Whether the instruction may write memory.
pub open spec fn changes_mem(i: Instruction) -> bool {
    match i {
        Instruction::ASL | Instruction::BRK | Instruction::DEC | Instruction::INC | Instruction::JSR | Instruction::LSR | Instruction::PHA | Instruction::PHP | Instruction::ROL | Instruction::ROR | Instruction::STA | Instruction::STX | Instruction::STY | Instruction::SLO | Instruction::RLA | Instruction::SRE | Instruction::RRA | Instruction::SAX | Instruction::DCP | Instruction::ISB => true,
        _ => false,
    }
}

/// Whether the instruction may change flag C.
pub open spec fn changes_flag_carry(i: Instruction) -> bool {
    match i {
        Instruction::ADC | Instruction::ASL | Instruction::CLC | Instruction::CMP | Instruction::CPX | Instruction::CPY | Instruction::LSR | Instruction::PLP | Instruction::ROL | Instruction::ROR | Instruction::RTI | Instruction::SBC | Instruction::SEC | Instruction::SLO | Instruction::RLA | Instruction::SRE | Instruction::RRA | Instruction::DCP | Instruction::ISB => true,
        _ => false,
    }
}

/// Whether the instruction may change flag Z.
pub open spec fn changes_flag_zero(i: Instruction) -> bool {
    match i {
        Instruction::ADC | Instruction::AND | Instruction::ASL | Instruction::BIT | Instruction::CMP | Instruction::CPX | Instruction::CPY | Instruction::DEC | Instruction::DEX | Instruction::DEY | Instruction::EOR | Instruction::INC | Instruction::INX | Instruction::INY | Instruction::LDA | Instruction::LDX | Instruction::LDY | Instruction::LSR | Instruction::ORA | Instruction::PLA | Instruction::PLP | Instruction::ROL | Instruction::ROR | Instruction::RTI | Instruction::SBC | Instruction::TAX | Instruction::TAY | Instruction::TSX | Instruction::TXA | Instruction::TYA | Instruction::SLO | Instruction::RLA | Instruction::SRE | Instruction::RRA | Instruction::LAX | Instruction::DCP | Instruction::ISB => true,
        _ => false,
    }
}

/// Whether the instruction may change flag I.
pub open spec fn changes_flag_interrupt_disable(i: Instruction) -> bool {
    match i {
        Instruction::BRK | Instruction::CLI | Instruction::PLP | Instruction::RTI | Instruction::SEI => true,
        _ => false,
    }
}

/// Whether the instruction may change flag D.
pub open spec fn changes_flag_decimal_mode(i: Instruction) -> bool {
    match i {
        Instruction::CLD | Instruction::PLP | Instruction::RTI | Instruction::SED => true,
        _ => false,
    }
}

/// Whether the instruction may change flag B.
pub open spec fn changes_flag_break(i: Instruction) -> bool {
    match i {
        Instruction::BRK | Instruction::PLP | Instruction::RTI => true,
        _ => false,
    }
}

/// Whether the instruction may change flag V.
pub open spec fn changes_flag_overflow(i: Instruction) -> bool {
    match i {
        Instruction::ADC | Instruction::BIT | Instruction::CLV | Instruction::PLP | Instruction::RTI | Instruction::SBC | Instruction::RRA | Instruction::ISB => true,
        _ => false,
    }
}

/// Whether the instruction may change flag N.
pub open spec fn changes_flag_negative(i: Instruction) -> bool {
    match i {
        Instruction::ADC | Instruction::AND | Instruction::ASL | Instruction::BIT | Instruction::CMP | Instruction::CPX | Instruction::CPY | Instruction::DEC | Instruction::DEX | Instruction::DEY | Instruction::EOR | Instruction::INC | Instruction::INX | Instruction::INY | Instruction::LDA | Instruction::LDX | Instruction::LDY | Instruction::LSR | Instruction::ORA | Instruction::PLA | Instruction::PLP | Instruction::ROL | Instruction::ROR | Instruction::RTI | Instruction::SBC | Instruction::TAX | Instruction::TAY | Instruction::TSX | Instruction::TXA | Instruction::TYA | Instruction::SLO | Instruction::RLA | Instruction::SRE | Instruction::RRA | Instruction::LAX | Instruction::DCP | Instruction::ISB => true,
        _ => false,
    }
}

/// 1 for a set bit, 0 for a clear one, times its weight.
pub open spec fn bit_if(b: bool, weight: u8) -> int {
    if b { weight as int } else { 0 }
}

/// The affected-unit mask of an instruction.
pub open spec fn units_mask(i: Instruction) -> u8 {
    (bit_if(changes_a(i), UNIT_A) + bit_if(changes_x(i), UNIT_X) + bit_if(changes_y(i), UNIT_Y)
        + bit_if(changes_pc(i), UNIT_P) + bit_if(changes_s(i), UNIT_S) + bit_if(
        changes_mem(i),
        UNIT_M,
    )) as u8
}

/// The affected-flag mask of an instruction.
pub open spec fn flags_mask(i: Instruction) -> u8 {
    (bit_if(changes_flag_carry(i), FLAG_C) + bit_if(changes_flag_zero(i), FLAG_Z) + bit_if(
        changes_flag_interrupt_disable(i),
        FLAG_I,
    ) + bit_if(changes_flag_decimal_mode(i), FLAG_D) + bit_if(changes_flag_break(i), FLAG_B)
        + bit_if(changes_flag_overflow(i), FLAG_V) + bit_if(changes_flag_negative(i), FLAG_N)) as u8
}

/// Instruction, addressing mode and base cycles of each opcode; the
/// opcodes outside the table decode as a 2-cycle `ILL`.
#[verifier::opaque]
pub open spec fn opcode_entry(op: u8) -> (Instruction, AddressingMode, u8) {
    match op {
        0x00 => (Instruction::BRK, AddressingMode::Implicit, 7),
        0x01 => (Instruction::ORA, AddressingMode::IndexedIndirect, 6),
        0x03 => (Instruction::SLO, AddressingMode::IndexedIndirect, 8),
        0x04 => (Instruction::NOP, AddressingMode::ZeroPage, 3),
        0x05 => (Instruction::ORA, AddressingMode::ZeroPage, 3),
        0x06 => (Instruction::ASL, AddressingMode::ZeroPage, 5),
        0x07 => (Instruction::SLO, AddressingMode::ZeroPage, 5),
        0x08 => (Instruction::PHP, AddressingMode::Implicit, 3),
        0x09 => (Instruction::ORA, AddressingMode::Immediate, 2),
        0x0a => (Instruction::ASL, AddressingMode::Accumulator, 2),
        0x0c => (Instruction::NOP, AddressingMode::Absolute, 4),
        0x0d => (Instruction::ORA, AddressingMode::Absolute, 4),
        0x0e => (Instruction::ASL, AddressingMode::Absolute, 6),
        0x0f => (Instruction::SLO, AddressingMode::Absolute, 6),
        0x10 => (Instruction::BPL, AddressingMode::Relative, 2),
        0x11 => (Instruction::ORA, AddressingMode::IndirectIndexed, 5),
        0x13 => (Instruction::SLO, AddressingMode::IndirectIndexed, 8),
        0x14 => (Instruction::NOP, AddressingMode::ZeroPageX, 4),
        0x15 => (Instruction::ORA, AddressingMode::ZeroPageX, 4),
        0x16 => (Instruction::ASL, AddressingMode::ZeroPageX, 6),
        0x17 => (Instruction::SLO, AddressingMode::ZeroPageX, 6),
        0x18 => (Instruction::CLC, AddressingMode::Implicit, 2),
        0x19 => (Instruction::ORA, AddressingMode::AbsoluteY, 4),
        0x1a => (Instruction::NOP, AddressingMode::Implicit, 2),
        0x1b => (Instruction::SLO, AddressingMode::AbsoluteY, 7),
        0x1c => (Instruction::NOP, AddressingMode::AbsoluteX, 4),
        0x1d => (Instruction::ORA, AddressingMode::AbsoluteX, 4),
        0x1e => (Instruction::ASL, AddressingMode::AbsoluteX, 7),
        0x1f => (Instruction::SLO, AddressingMode::AbsoluteX, 7),
        0x20 => (Instruction::JSR, AddressingMode::Absolute, 6),
        0x21 => (Instruction::AND, AddressingMode::IndexedIndirect, 6),
        0x23 => (Instruction::RLA, AddressingMode::IndexedIndirect, 8),
        0x24 => (Instruction::BIT, AddressingMode::ZeroPage, 3),
        0x25 => (Instruction::AND, AddressingMode::ZeroPage, 3),
        0x26 => (Instruction::ROL, AddressingMode::ZeroPage, 5),
        0x27 => (Instruction::RLA, AddressingMode::ZeroPage, 5),
        0x28 => (Instruction::PLP, AddressingMode::Implicit, 4),
        0x29 => (Instruction::AND, AddressingMode::Immediate, 2),
        0x2a => (Instruction::ROL, AddressingMode::Accumulator, 2),
        0x2c => (Instruction::BIT, AddressingMode::Absolute, 4),
        0x2d => (Instruction::AND, AddressingMode::Absolute, 4),
        0x2e => (Instruction::ROL, AddressingMode::Absolute, 6),
        0x2f => (Instruction::RLA, AddressingMode::Absolute, 6),
        0x30 => (Instruction::BMI, AddressingMode::Relative, 2),
        0x31 => (Instruction::AND, AddressingMode::IndirectIndexed, 5),
        0x33 => (Instruction::RLA, AddressingMode::IndirectIndexed, 8),
        0x34 => (Instruction::NOP, AddressingMode::ZeroPageX, 4),
        0x35 => (Instruction::AND, AddressingMode::ZeroPageX, 4),
        0x36 => (Instruction::ROL, AddressingMode::ZeroPageX, 6),
        0x37 => (Instruction::RLA, AddressingMode::ZeroPageX, 6),
        0x38 => (Instruction::SEC, AddressingMode::Implicit, 2),
        0x39 => (Instruction::AND, AddressingMode::AbsoluteY, 4),
        0x3a => (Instruction::NOP, AddressingMode::Implicit, 2),
        0x3b => (Instruction::RLA, AddressingMode::AbsoluteY, 7),
        0x3c => (Instruction::NOP, AddressingMode::AbsoluteX, 4),
        0x3d => (Instruction::AND, AddressingMode::AbsoluteX, 4),
        0x3e => (Instruction::ROL, AddressingMode::AbsoluteX, 7),
        0x3f => (Instruction::RLA, AddressingMode::AbsoluteX, 7),
        0x40 => (Instruction::RTI, AddressingMode::Implicit, 6),
        0x41 => (Instruction::EOR, AddressingMode::IndexedIndirect, 6),
        0x43 => (Instruction::SRE, AddressingMode::IndexedIndirect, 8),
        0x44 => (Instruction::NOP, AddressingMode::ZeroPage, 3),
        0x45 => (Instruction::EOR, AddressingMode::ZeroPage, 3),
        0x46 => (Instruction::LSR, AddressingMode::ZeroPage, 5),
        0x47 => (Instruction::SRE, AddressingMode::ZeroPage, 5),
        0x48 => (Instruction::PHA, AddressingMode::Implicit, 3),
        0x49 => (Instruction::EOR, AddressingMode::Immediate, 2),
        0x4a => (Instruction::LSR, AddressingMode::Accumulator, 2),
        0x4c => (Instruction::JMP, AddressingMode::Absolute, 3),
        0x4d => (Instruction::EOR, AddressingMode::Absolute, 4),
        0x4e => (Instruction::LSR, AddressingMode::Absolute, 6),
        0x4f => (Instruction::SRE, AddressingMode::Absolute, 6),
        0x50 => (Instruction::BVC, AddressingMode::Relative, 2),
        0x51 => (Instruction::EOR, AddressingMode::IndirectIndexed, 5),
        0x53 => (Instruction::SRE, AddressingMode::IndirectIndexed, 8),
        0x54 => (Instruction::NOP, AddressingMode::ZeroPageX, 4),
        0x55 => (Instruction::EOR, AddressingMode::ZeroPageX, 4),
        0x56 => (Instruction::LSR, AddressingMode::ZeroPageX, 6),
        0x57 => (Instruction::SRE, AddressingMode::ZeroPageX, 6),
        0x58 => (Instruction::CLI, AddressingMode::Implicit, 2),
        0x59 => (Instruction::EOR, AddressingMode::AbsoluteY, 4),
        0x5a => (Instruction::NOP, AddressingMode::Implicit, 2),
        0x5b => (Instruction::SRE, AddressingMode::AbsoluteY, 7),
        0x5c => (Instruction::NOP, AddressingMode::AbsoluteX, 4),
        0x5d => (Instruction::EOR, AddressingMode::AbsoluteX, 4),
        0x5e => (Instruction::LSR, AddressingMode::AbsoluteX, 7),
        0x5f => (Instruction::SRE, AddressingMode::AbsoluteX, 7),
        0x60 => (Instruction::RTS, AddressingMode::Implicit, 6),
        0x61 => (Instruction::ADC, AddressingMode::IndexedIndirect, 6),
        0x63 => (Instruction::RRA, AddressingMode::IndexedIndirect, 8),
        0x64 => (Instruction::NOP, AddressingMode::ZeroPage, 3),
        0x65 => (Instruction::ADC, AddressingMode::ZeroPage, 3),
        0x66 => (Instruction::ROR, AddressingMode::ZeroPage, 5),
        0x67 => (Instruction::RRA, AddressingMode::ZeroPage, 5),
        0x68 => (Instruction::PLA, AddressingMode::Implicit, 4),
        0x69 => (Instruction::ADC, AddressingMode::Immediate, 2),
        0x6a => (Instruction::ROR, AddressingMode::Accumulator, 2),
        0x6c => (Instruction::JMP, AddressingMode::Indirect, 5),
        0x6d => (Instruction::ADC, AddressingMode::Absolute, 4),
        0x6e => (Instruction::ROR, AddressingMode::Absolute, 6),
        0x6f => (Instruction::RRA, AddressingMode::Absolute, 6),
        0x70 => (Instruction::BVS, AddressingMode::Relative, 2),
        0x71 => (Instruction::ADC, AddressingMode::IndirectIndexed, 5),
        0x73 => (Instruction::RRA, AddressingMode::IndirectIndexed, 8),
        0x74 => (Instruction::NOP, AddressingMode::ZeroPageX, 4),
        0x75 => (Instruction::ADC, AddressingMode::ZeroPageX, 4),
        0x76 => (Instruction::ROR, AddressingMode::ZeroPageX, 6),
        0x77 => (Instruction::RRA, AddressingMode::ZeroPageX, 6),
        0x78 => (Instruction::SEI, AddressingMode::Implicit, 2),
        0x79 => (Instruction::ADC, AddressingMode::AbsoluteY, 4),
        0x7a => (Instruction::NOP, AddressingMode::Implicit, 2),
        0x7b => (Instruction::RRA, AddressingMode::AbsoluteY, 7),
        0x7c => (Instruction::NOP, AddressingMode::AbsoluteX, 4),
        0x7d => (Instruction::ADC, AddressingMode::AbsoluteX, 4),
        0x7e => (Instruction::ROR, AddressingMode::AbsoluteX, 7),
        0x7f => (Instruction::RRA, AddressingMode::AbsoluteX, 7),
        0x80 => (Instruction::NOP, AddressingMode::Immediate, 2),
        0x81 => (Instruction::STA, AddressingMode::IndexedIndirect, 6),
        0x82 => (Instruction::NOP, AddressingMode::Immediate, 2),
        0x83 => (Instruction::SAX, AddressingMode::IndexedIndirect, 6),
        0x84 => (Instruction::STY, AddressingMode::ZeroPage, 3),
        0x85 => (Instruction::STA, AddressingMode::ZeroPage, 3),
        0x86 => (Instruction::STX, AddressingMode::ZeroPage, 3),
        0x87 => (Instruction::SAX, AddressingMode::ZeroPage, 3),
        0x88 => (Instruction::DEY, AddressingMode::Implicit, 2),
        0x89 => (Instruction::NOP, AddressingMode::Immediate, 2),
        0x8a => (Instruction::TXA, AddressingMode::Implicit, 2),
        0x8c => (Instruction::STY, AddressingMode::Absolute, 4),
        0x8d => (Instruction::STA, AddressingMode::Absolute, 4),
        0x8e => (Instruction::STX, AddressingMode::Absolute, 4),
        0x8f => (Instruction::SAX, AddressingMode::Absolute, 4),
        0x90 => (Instruction::BCC, AddressingMode::Relative, 2),
        0x91 => (Instruction::STA, AddressingMode::IndirectIndexed, 6),
        0x94 => (Instruction::STY, AddressingMode::ZeroPageX, 4),
        0x95 => (Instruction::STA, AddressingMode::ZeroPageX, 4),
        0x96 => (Instruction::STX, AddressingMode::ZeroPageY, 4),
        0x97 => (Instruction::SAX, AddressingMode::ZeroPageY, 4),
        0x98 => (Instruction::TYA, AddressingMode::Implicit, 2),
        0x99 => (Instruction::STA, AddressingMode::AbsoluteY, 5),
        0x9a => (Instruction::TXS, AddressingMode::Implicit, 2),
        0x9d => (Instruction::STA, AddressingMode::AbsoluteX, 5),
        0xa0 => (Instruction::LDY, AddressingMode::Immediate, 2),
        0xa1 => (Instruction::LDA, AddressingMode::IndexedIndirect, 6),
        0xa2 => (Instruction::LDX, AddressingMode::Immediate, 2),
        0xa3 => (Instruction::LAX, AddressingMode::IndexedIndirect, 6),
        0xa4 => (Instruction::LDY, AddressingMode::ZeroPage, 3),
        0xa5 => (Instruction::LDA, AddressingMode::ZeroPage, 3),
        0xa6 => (Instruction::LDX, AddressingMode::ZeroPage, 3),
        0xa7 => (Instruction::LAX, AddressingMode::ZeroPage, 3),
        0xa8 => (Instruction::TAY, AddressingMode::Implicit, 2),
        0xa9 => (Instruction::LDA, AddressingMode::Immediate, 2),
        0xaa => (Instruction::TAX, AddressingMode::Implicit, 2),
        0xab => (Instruction::LAX, AddressingMode::Immediate, 2),
        0xac => (Instruction::LDY, AddressingMode::Absolute, 4),
        0xad => (Instruction::LDA, AddressingMode::Absolute, 4),
        0xae => (Instruction::LDX, AddressingMode::Absolute, 4),
        0xaf => (Instruction::LAX, AddressingMode::Absolute, 4),
        0xb0 => (Instruction::BCS, AddressingMode::Relative, 2),
        0xb1 => (Instruction::LDA, AddressingMode::IndirectIndexed, 5),
        0xb3 => (Instruction::LAX, AddressingMode::IndirectIndexed, 5),
        0xb4 => (Instruction::LDY, AddressingMode::ZeroPageX, 4),
        0xb5 => (Instruction::LDA, AddressingMode::ZeroPageX, 4),
        0xb6 => (Instruction::LDX, AddressingMode::ZeroPageY, 4),
        0xb7 => (Instruction::LAX, AddressingMode::ZeroPageY, 4),
        0xb8 => (Instruction::CLV, AddressingMode::Implicit, 2),
        0xb9 => (Instruction::LDA, AddressingMode::AbsoluteY, 4),
        0xba => (Instruction::TSX, AddressingMode::Implicit, 2),
        0xbc => (Instruction::LDY, AddressingMode::AbsoluteX, 4),
        0xbd => (Instruction::LDA, AddressingMode::AbsoluteX, 4),
        0xbe => (Instruction::LDX, AddressingMode::AbsoluteY, 4),
        0xbf => (Instruction::LAX, AddressingMode::AbsoluteY, 4),
        0xc0 => (Instruction::CPY, AddressingMode::Immediate, 2),
        0xc1 => (Instruction::CMP, AddressingMode::IndexedIndirect, 6),
        0xc2 => (Instruction::NOP, AddressingMode::Immediate, 2),
        0xc3 => (Instruction::DCP, AddressingMode::IndexedIndirect, 8),
        0xc4 => (Instruction::CPY, AddressingMode::ZeroPage, 3),
        0xc5 => (Instruction::CMP, AddressingMode::ZeroPage, 3),
        0xc6 => (Instruction::DEC, AddressingMode::ZeroPage, 5),
        0xc7 => (Instruction::DCP, AddressingMode::ZeroPage, 5),
        0xc8 => (Instruction::INY, AddressingMode::Implicit, 2),
        0xc9 => (Instruction::CMP, AddressingMode::Immediate, 2),
        0xca => (Instruction::DEX, AddressingMode::Implicit, 2),
        0xcc => (Instruction::CPY, AddressingMode::Absolute, 4),
        0xcd => (Instruction::CMP, AddressingMode::Absolute, 4),
        0xce => (Instruction::DEC, AddressingMode::Absolute, 6),
        0xcf => (Instruction::DCP, AddressingMode::Absolute, 6),
        0xd0 => (Instruction::BNE, AddressingMode::Relative, 2),
        0xd1 => (Instruction::CMP, AddressingMode::IndirectIndexed, 5),
        0xd3 => (Instruction::DCP, AddressingMode::IndirectIndexed, 8),
        0xd4 => (Instruction::NOP, AddressingMode::ZeroPageX, 4),
        0xd5 => (Instruction::CMP, AddressingMode::ZeroPageX, 4),
        0xd6 => (Instruction::DEC, AddressingMode::ZeroPageX, 6),
        0xd7 => (Instruction::DCP, AddressingMode::ZeroPageX, 6),
        0xd8 => (Instruction::CLD, AddressingMode::Implicit, 2),
        0xd9 => (Instruction::CMP, AddressingMode::AbsoluteY, 4),
        0xda => (Instruction::NOP, AddressingMode::Implicit, 2),
        0xdb => (Instruction::DCP, AddressingMode::AbsoluteY, 7),
        0xdc => (Instruction::NOP, AddressingMode::AbsoluteX, 4),
        0xdd => (Instruction::CMP, AddressingMode::AbsoluteX, 4),
        0xde => (Instruction::DEC, AddressingMode::AbsoluteX, 7),
        0xdf => (Instruction::DCP, AddressingMode::AbsoluteX, 7),
        0xe0 => (Instruction::CPX, AddressingMode::Immediate, 2),
        0xe1 => (Instruction::SBC, AddressingMode::IndexedIndirect, 6),
        0xe2 => (Instruction::NOP, AddressingMode::Immediate, 2),
        0xe3 => (Instruction::ISB, AddressingMode::IndexedIndirect, 8),
        0xe4 => (Instruction::CPX, AddressingMode::ZeroPage, 3),
        0xe5 => (Instruction::SBC, AddressingMode::ZeroPage, 3),
        0xe6 => (Instruction::INC, AddressingMode::ZeroPage, 5),
        0xe7 => (Instruction::ISB, AddressingMode::ZeroPage, 5),
        0xe8 => (Instruction::INX, AddressingMode::Implicit, 2),
        0xe9 => (Instruction::SBC, AddressingMode::Immediate, 2),
        0xea => (Instruction::NOP, AddressingMode::Implicit, 2),
        0xeb => (Instruction::SBC, AddressingMode::Immediate, 2),
        0xec => (Instruction::CPX, AddressingMode::Absolute, 4),
        0xed => (Instruction::SBC, AddressingMode::Absolute, 4),
        0xee => (Instruction::INC, AddressingMode::Absolute, 6),
        0xef => (Instruction::ISB, AddressingMode::Absolute, 6),
        0xf0 => (Instruction::BEQ, AddressingMode::Relative, 2),
        0xf1 => (Instruction::SBC, AddressingMode::IndirectIndexed, 5),
        0xf3 => (Instruction::ISB, AddressingMode::IndirectIndexed, 8),
        0xf4 => (Instruction::NOP, AddressingMode::ZeroPageX, 4),
        0xf5 => (Instruction::SBC, AddressingMode::ZeroPageX, 4),
        0xf6 => (Instruction::INC, AddressingMode::ZeroPageX, 6),
        0xf7 => (Instruction::ISB, AddressingMode::ZeroPageX, 6),
        0xf8 => (Instruction::SED, AddressingMode::Implicit, 2),
        0xf9 => (Instruction::SBC, AddressingMode::AbsoluteY, 4),
        0xfa => (Instruction::NOP, AddressingMode::Implicit, 2),
        0xfb => (Instruction::ISB, AddressingMode::AbsoluteY, 7),
        0xfc => (Instruction::NOP, AddressingMode::AbsoluteX, 4),
        0xfd => (Instruction::SBC, AddressingMode::AbsoluteX, 4),
        0xfe => (Instruction::INC, AddressingMode::AbsoluteX, 7),
        0xff => (Instruction::ISB, AddressingMode::AbsoluteX, 7),
        _ => (Instruction::ILL, AddressingMode::Implicit, 2),
    }
}

/// The table entry of an opcode.
pub open spec fn info_spec(op: u8) -> Info {
    let (insn, mode, cycles) = opcode_entry(op);
    Info {
        opcode: op,
        insn,
        addressing: mode,
        bytes: mode_bytes(mode),
        cycles,
        affected_units: units_mask(insn),
        affected_flags: flags_mask(insn),
    }
}

fn entry(op: u8) -> (r: (Instruction, AddressingMode, u8))
    ensures
        r == opcode_entry(op),
        2 <= r.2 <= 8,
{
    reveal(opcode_entry);
    match op {
        0x00 => (Instruction::BRK, AddressingMode::Implicit, 7),
        0x01 => (Instruction::ORA, AddressingMode::IndexedIndirect, 6),
        0x03 => (Instruction::SLO, AddressingMode::IndexedIndirect, 8),
        0x04 => (Instruction::NOP, AddressingMode::ZeroPage, 3),
        0x05 => (Instruction::ORA, AddressingMode::ZeroPage, 3),
        0x06 => (Instruction::ASL, AddressingMode::ZeroPage, 5),
        0x07 => (Instruction::SLO, AddressingMode::ZeroPage, 5),
        0x08 => (Instruction::PHP, AddressingMode::Implicit, 3),
        0x09 => (Instruction::ORA, AddressingMode::Immediate, 2),
        0x0a => (Instruction::ASL, AddressingMode::Accumulator, 2),
        0x0c => (Instruction::NOP, AddressingMode::Absolute, 4),
        0x0d => (Instruction::ORA, AddressingMode::Absolute, 4),
        0x0e => (Instruction::ASL, AddressingMode::Absolute, 6),
        0x0f => (Instruction::SLO, AddressingMode::Absolute, 6),
        0x10 => (Instruction::BPL, AddressingMode::Relative, 2),
        0x11 => (Instruction::ORA, AddressingMode::IndirectIndexed, 5),
        0x13 => (Instruction::SLO, AddressingMode::IndirectIndexed, 8),
        0x14 => (Instruction::NOP, AddressingMode::ZeroPageX, 4),
        0x15 => (Instruction::ORA, AddressingMode::ZeroPageX, 4),
        0x16 => (Instruction::ASL, AddressingMode::ZeroPageX, 6),
        0x17 => (Instruction::SLO, AddressingMode::ZeroPageX, 6),
        0x18 => (Instruction::CLC, AddressingMode::Implicit, 2),
        0x19 => (Instruction::ORA, AddressingMode::AbsoluteY, 4),
        0x1a => (Instruction::NOP, AddressingMode::Implicit, 2),
        0x1b => (Instruction::SLO, AddressingMode::AbsoluteY, 7),
        0x1c => (Instruction::NOP, AddressingMode::AbsoluteX, 4),
        0x1d => (Instruction::ORA, AddressingMode::AbsoluteX, 4),
        0x1e => (Instruction::ASL, AddressingMode::AbsoluteX, 7),
        0x1f => (Instruction::SLO, AddressingMode::AbsoluteX, 7),
        0x20 => (Instruction::JSR, AddressingMode::Absolute, 6),
        0x21 => (Instruction::AND, AddressingMode::IndexedIndirect, 6),
        0x23 => (Instruction::RLA, AddressingMode::IndexedIndirect, 8),
        0x24 => (Instruction::BIT, AddressingMode::ZeroPage, 3),
        0x25 => (Instruction::AND, AddressingMode::ZeroPage, 3),
        0x26 => (Instruction::ROL, AddressingMode::ZeroPage, 5),
        0x27 => (Instruction::RLA, AddressingMode::ZeroPage, 5),
        0x28 => (Instruction::PLP, AddressingMode::Implicit, 4),
        0x29 => (Instruction::AND, AddressingMode::Immediate, 2),
        0x2a => (Instruction::ROL, AddressingMode::Accumulator, 2),
        0x2c => (Instruction::BIT, AddressingMode::Absolute, 4),
        0x2d => (Instruction::AND, AddressingMode::Absolute, 4),
        0x2e => (Instruction::ROL, AddressingMode::Absolute, 6),
        0x2f => (Instruction::RLA, AddressingMode::Absolute, 6),
        0x30 => (Instruction::BMI, AddressingMode::Relative, 2),
        0x31 => (Instruction::AND, AddressingMode::IndirectIndexed, 5),
        0x33 => (Instruction::RLA, AddressingMode::IndirectIndexed, 8),
        0x34 => (Instruction::NOP, AddressingMode::ZeroPageX, 4),
        0x35 => (Instruction::AND, AddressingMode::ZeroPageX, 4),
        0x36 => (Instruction::ROL, AddressingMode::ZeroPageX, 6),
        0x37 => (Instruction::RLA, AddressingMode::ZeroPageX, 6),
        0x38 => (Instruction::SEC, AddressingMode::Implicit, 2),
        0x39 => (Instruction::AND, AddressingMode::AbsoluteY, 4),
        0x3a => (Instruction::NOP, AddressingMode::Implicit, 2),
        0x3b => (Instruction::RLA, AddressingMode::AbsoluteY, 7),
        0x3c => (Instruction::NOP, AddressingMode::AbsoluteX, 4),
        0x3d => (Instruction::AND, AddressingMode::AbsoluteX, 4),
        0x3e => (Instruction::ROL, AddressingMode::AbsoluteX, 7),
        0x3f => (Instruction::RLA, AddressingMode::AbsoluteX, 7),
        0x40 => (Instruction::RTI, AddressingMode::Implicit, 6),
        0x41 => (Instruction::EOR, AddressingMode::IndexedIndirect, 6),
        0x43 => (Instruction::SRE, AddressingMode::IndexedIndirect, 8),
        0x44 => (Instruction::NOP, AddressingMode::ZeroPage, 3),
        0x45 => (Instruction::EOR, AddressingMode::ZeroPage, 3),
        0x46 => (Instruction::LSR, AddressingMode::ZeroPage, 5),
        0x47 => (Instruction::SRE, AddressingMode::ZeroPage, 5),
        0x48 => (Instruction::PHA, AddressingMode::Implicit, 3),
        0x49 => (Instruction::EOR, AddressingMode::Immediate, 2),
        0x4a => (Instruction::LSR, AddressingMode::Accumulator, 2),
        0x4c => (Instruction::JMP, AddressingMode::Absolute, 3),
        0x4d => (Instruction::EOR, AddressingMode::Absolute, 4),
        0x4e => (Instruction::LSR, AddressingMode::Absolute, 6),
        0x4f => (Instruction::SRE, AddressingMode::Absolute, 6),
        0x50 => (Instruction::BVC, AddressingMode::Relative, 2),
        0x51 => (Instruction::EOR, AddressingMode::IndirectIndexed, 5),
        0x53 => (Instruction::SRE, AddressingMode::IndirectIndexed, 8),
        0x54 => (Instruction::NOP, AddressingMode::ZeroPageX, 4),
        0x55 => (Instruction::EOR, AddressingMode::ZeroPageX, 4),
        0x56 => (Instruction::LSR, AddressingMode::ZeroPageX, 6),
        0x57 => (Instruction::SRE, AddressingMode::ZeroPageX, 6),
        0x58 => (Instruction::CLI, AddressingMode::Implicit, 2),
        0x59 => (Instruction::EOR, AddressingMode::AbsoluteY, 4),
        0x5a => (Instruction::NOP, AddressingMode::Implicit, 2),
        0x5b => (Instruction::SRE, AddressingMode::AbsoluteY, 7),
        0x5c => (Instruction::NOP, AddressingMode::AbsoluteX, 4),
        0x5d => (Instruction::EOR, AddressingMode::AbsoluteX, 4),
        0x5e => (Instruction::LSR, AddressingMode::AbsoluteX, 7),
        0x5f => (Instruction::SRE, AddressingMode::AbsoluteX, 7),
        0x60 => (Instruction::RTS, AddressingMode::Implicit, 6),
        0x61 => (Instruction::ADC, AddressingMode::IndexedIndirect, 6),
        0x63 => (Instruction::RRA, AddressingMode::IndexedIndirect, 8),
        0x64 => (Instruction::NOP, AddressingMode::ZeroPage, 3),
        0x65 => (Instruction::ADC, AddressingMode::ZeroPage, 3),
        0x66 => (Instruction::ROR, AddressingMode::ZeroPage, 5),
        0x67 => (Instruction::RRA, AddressingMode::ZeroPage, 5),
        0x68 => (Instruction::PLA, AddressingMode::Implicit, 4),
        0x69 => (Instruction::ADC, AddressingMode::Immediate, 2),
        0x6a => (Instruction::ROR, AddressingMode::Accumulator, 2),
        0x6c => (Instruction::JMP, AddressingMode::Indirect, 5),
        0x6d => (Instruction::ADC, AddressingMode::Absolute, 4),
        0x6e => (Instruction::ROR, AddressingMode::Absolute, 6),
        0x6f => (Instruction::RRA, AddressingMode::Absolute, 6),
        0x70 => (Instruction::BVS, AddressingMode::Relative, 2),
        0x71 => (Instruction::ADC, AddressingMode::IndirectIndexed, 5),
        0x73 => (Instruction::RRA, AddressingMode::IndirectIndexed, 8),
        0x74 => (Instruction::NOP, AddressingMode::ZeroPageX, 4),
        0x75 => (Instruction::ADC, AddressingMode::ZeroPageX, 4),
        0x76 => (Instruction::ROR, AddressingMode::ZeroPageX, 6),
        0x77 => (Instruction::RRA, AddressingMode::ZeroPageX, 6),
        0x78 => (Instruction::SEI, AddressingMode::Implicit, 2),
        0x79 => (Instruction::ADC, AddressingMode::AbsoluteY, 4),
        0x7a => (Instruction::NOP, AddressingMode::Implicit, 2),
        0x7b => (Instruction::RRA, AddressingMode::AbsoluteY, 7),
        0x7c => (Instruction::NOP, AddressingMode::AbsoluteX, 4),
        0x7d => (Instruction::ADC, AddressingMode::AbsoluteX, 4),
        0x7e => (Instruction::ROR, AddressingMode::AbsoluteX, 7),
        0x7f => (Instruction::RRA, AddressingMode::AbsoluteX, 7),
        0x80 => (Instruction::NOP, AddressingMode::Immediate, 2),
        0x81 => (Instruction::STA, AddressingMode::IndexedIndirect, 6),
        0x82 => (Instruction::NOP, AddressingMode::Immediate, 2),
        0x83 => (Instruction::SAX, AddressingMode::IndexedIndirect, 6),
        0x84 => (Instruction::STY, AddressingMode::ZeroPage, 3),
        0x85 => (Instruction::STA, AddressingMode::ZeroPage, 3),
        0x86 => (Instruction::STX, AddressingMode::ZeroPage, 3),
        0x87 => (Instruction::SAX, AddressingMode::ZeroPage, 3),
        0x88 => (Instruction::DEY, AddressingMode::Implicit, 2),
        0x89 => (Instruction::NOP, AddressingMode::Immediate, 2),
        0x8a => (Instruction::TXA, AddressingMode::Implicit, 2),
        0x8c => (Instruction::STY, AddressingMode::Absolute, 4),
        0x8d => (Instruction::STA, AddressingMode::Absolute, 4),
        0x8e => (Instruction::STX, AddressingMode::Absolute, 4),
        0x8f => (Instruction::SAX, AddressingMode::Absolute, 4),
        0x90 => (Instruction::BCC, AddressingMode::Relative, 2),
        0x91 => (Instruction::STA, AddressingMode::IndirectIndexed, 6),
        0x94 => (Instruction::STY, AddressingMode::ZeroPageX, 4),
        0x95 => (Instruction::STA, AddressingMode::ZeroPageX, 4),
        0x96 => (Instruction::STX, AddressingMode::ZeroPageY, 4),
        0x97 => (Instruction::SAX, AddressingMode::ZeroPageY, 4),
        0x98 => (Instruction::TYA, AddressingMode::Implicit, 2),
        0x99 => (Instruction::STA, AddressingMode::AbsoluteY, 5),
        0x9a => (Instruction::TXS, AddressingMode::Implicit, 2),
        0x9d => (Instruction::STA, AddressingMode::AbsoluteX, 5),
        0xa0 => (Instruction::LDY, AddressingMode::Immediate, 2),
        0xa1 => (Instruction::LDA, AddressingMode::IndexedIndirect, 6),
        0xa2 => (Instruction::LDX, AddressingMode::Immediate, 2),
        0xa3 => (Instruction::LAX, AddressingMode::IndexedIndirect, 6),
        0xa4 => (Instruction::LDY, AddressingMode::ZeroPage, 3),
        0xa5 => (Instruction::LDA, AddressingMode::ZeroPage, 3),
        0xa6 => (Instruction::LDX, AddressingMode::ZeroPage, 3),
        0xa7 => (Instruction::LAX, AddressingMode::ZeroPage, 3),
        0xa8 => (Instruction::TAY, AddressingMode::Implicit, 2),
        0xa9 => (Instruction::LDA, AddressingMode::Immediate, 2),
        0xaa => (Instruction::TAX, AddressingMode::Implicit, 2),
        0xab => (Instruction::LAX, AddressingMode::Immediate, 2),
        0xac => (Instruction::LDY, AddressingMode::Absolute, 4),
        0xad => (Instruction::LDA, AddressingMode::Absolute, 4),
        0xae => (Instruction::LDX, AddressingMode::Absolute, 4),
        0xaf => (Instruction::LAX, AddressingMode::Absolute, 4),
        0xb0 => (Instruction::BCS, AddressingMode::Relative, 2),
        0xb1 => (Instruction::LDA, AddressingMode::IndirectIndexed, 5),
        0xb3 => (Instruction::LAX, AddressingMode::IndirectIndexed, 5),
        0xb4 => (Instruction::LDY, AddressingMode::ZeroPageX, 4),
        0xb5 => (Instruction::LDA, AddressingMode::ZeroPageX, 4),
        0xb6 => (Instruction::LDX, AddressingMode::ZeroPageY, 4),
        0xb7 => (Instruction::LAX, AddressingMode::ZeroPageY, 4),
        0xb8 => (Instruction::CLV, AddressingMode::Implicit, 2),
        0xb9 => (Instruction::LDA, AddressingMode::AbsoluteY, 4),
        0xba => (Instruction::TSX, AddressingMode::Implicit, 2),
        0xbc => (Instruction::LDY, AddressingMode::AbsoluteX, 4),
        0xbd => (Instruction::LDA, AddressingMode::AbsoluteX, 4),
        0xbe => (Instruction::LDX, AddressingMode::AbsoluteY, 4),
        0xbf => (Instruction::LAX, AddressingMode::AbsoluteY, 4),
        0xc0 => (Instruction::CPY, AddressingMode::Immediate, 2),
        0xc1 => (Instruction::CMP, AddressingMode::IndexedIndirect, 6),
        0xc2 => (Instruction::NOP, AddressingMode::Immediate, 2),
        0xc3 => (Instruction::DCP, AddressingMode::IndexedIndirect, 8),
        0xc4 => (Instruction::CPY, AddressingMode::ZeroPage, 3),
        0xc5 => (Instruction::CMP, AddressingMode::ZeroPage, 3),
        0xc6 => (Instruction::DEC, AddressingMode::ZeroPage, 5),
        0xc7 => (Instruction::DCP, AddressingMode::ZeroPage, 5),
        0xc8 => (Instruction::INY, AddressingMode::Implicit, 2),
        0xc9 => (Instruction::CMP, AddressingMode::Immediate, 2),
        0xca => (Instruction::DEX, AddressingMode::Implicit, 2),
        0xcc => (Instruction::CPY, AddressingMode::Absolute, 4),
        0xcd => (Instruction::CMP, AddressingMode::Absolute, 4),
        0xce => (Instruction::DEC, AddressingMode::Absolute, 6),
        0xcf => (Instruction::DCP, AddressingMode::Absolute, 6),
        0xd0 => (Instruction::BNE, AddressingMode::Relative, 2),
        0xd1 => (Instruction::CMP, AddressingMode::IndirectIndexed, 5),
        0xd3 => (Instruction::DCP, AddressingMode::IndirectIndexed, 8),
        0xd4 => (Instruction::NOP, AddressingMode::ZeroPageX, 4),
        0xd5 => (Instruction::CMP, AddressingMode::ZeroPageX, 4),
        0xd6 => (Instruction::DEC, AddressingMode::ZeroPageX, 6),
        0xd7 => (Instruction::DCP, AddressingMode::ZeroPageX, 6),
        0xd8 => (Instruction::CLD, AddressingMode::Implicit, 2),
        0xd9 => (Instruction::CMP, AddressingMode::AbsoluteY, 4),
        0xda => (Instruction::NOP, AddressingMode::Implicit, 2),
        0xdb => (Instruction::DCP, AddressingMode::AbsoluteY, 7),
        0xdc => (Instruction::NOP, AddressingMode::AbsoluteX, 4),
        0xdd => (Instruction::CMP, AddressingMode::AbsoluteX, 4),
        0xde => (Instruction::DEC, AddressingMode::AbsoluteX, 7),
        0xdf => (Instruction::DCP, AddressingMode::AbsoluteX, 7),
        0xe0 => (Instruction::CPX, AddressingMode::Immediate, 2),
        0xe1 => (Instruction::SBC, AddressingMode::IndexedIndirect, 6),
        0xe2 => (Instruction::NOP, AddressingMode::Immediate, 2),
        0xe3 => (Instruction::ISB, AddressingMode::IndexedIndirect, 8),
        0xe4 => (Instruction::CPX, AddressingMode::ZeroPage, 3),
        0xe5 => (Instruction::SBC, AddressingMode::ZeroPage, 3),
        0xe6 => (Instruction::INC, AddressingMode::ZeroPage, 5),
        0xe7 => (Instruction::ISB, AddressingMode::ZeroPage, 5),
        0xe8 => (Instruction::INX, AddressingMode::Implicit, 2),
        0xe9 => (Instruction::SBC, AddressingMode::Immediate, 2),
        0xea => (Instruction::NOP, AddressingMode::Implicit, 2),
        0xeb => (Instruction::SBC, AddressingMode::Immediate, 2),
        0xec => (Instruction::CPX, AddressingMode::Absolute, 4),
        0xed => (Instruction::SBC, AddressingMode::Absolute, 4),
        0xee => (Instruction::INC, AddressingMode::Absolute, 6),
        0xef => (Instruction::ISB, AddressingMode::Absolute, 6),
        0xf0 => (Instruction::BEQ, AddressingMode::Relative, 2),
        0xf1 => (Instruction::SBC, AddressingMode::IndirectIndexed, 5),
        0xf3 => (Instruction::ISB, AddressingMode::IndirectIndexed, 8),
        0xf4 => (Instruction::NOP, AddressingMode::ZeroPageX, 4),
        0xf5 => (Instruction::SBC, AddressingMode::ZeroPageX, 4),
        0xf6 => (Instruction::INC, AddressingMode::ZeroPageX, 6),
        0xf7 => (Instruction::ISB, AddressingMode::ZeroPageX, 6),
        0xf8 => (Instruction::SED, AddressingMode::Implicit, 2),
        0xf9 => (Instruction::SBC, AddressingMode::AbsoluteY, 4),
        0xfa => (Instruction::NOP, AddressingMode::Implicit, 2),
        0xfb => (Instruction::ISB, AddressingMode::AbsoluteY, 7),
        0xfc => (Instruction::NOP, AddressingMode::AbsoluteX, 4),
        0xfd => (Instruction::SBC, AddressingMode::AbsoluteX, 4),
        0xfe => (Instruction::INC, AddressingMode::AbsoluteX, 7),
        0xff => (Instruction::ISB, AddressingMode::AbsoluteX, 7),
        _ => (Instruction::ILL, AddressingMode::Implicit, 2),
    }
}

fn bytes_of(mode: AddressingMode) -> (r: u8)
    ensures
        r == mode_bytes(mode),
{
    match mode {
        AddressingMode::Implicit | AddressingMode::Accumulator => 1,
        AddressingMode::Absolute | AddressingMode::AbsoluteX | AddressingMode::AbsoluteY
        | AddressingMode::Indirect => 3,
        _ => 2,
    }
}

fn units_of(i: Instruction) -> (r: u8)
    ensures
        r == units_mask(i),
{
    match i {
        Instruction::ILL => 0x00,
        Instruction::ADC => 0x01,
        Instruction::AND => 0x01,
        Instruction::ASL => 0x21,
        Instruction::BCC => 0x08,
        Instruction::BCS => 0x08,
        Instruction::BEQ => 0x08,
        Instruction::BIT => 0x00,
        Instruction::BMI => 0x08,
        Instruction::BNE => 0x08,
        Instruction::BPL => 0x08,
        Instruction::BRK => 0x38,
        Instruction::BVC => 0x08,
        Instruction::BVS => 0x08,
        Instruction::CLC => 0x00,
        Instruction::CLD => 0x00,
        Instruction::CLI => 0x00,
        Instruction::CLV => 0x00,
        Instruction::CMP => 0x00,
        Instruction::CPX => 0x00,
        Instruction::CPY => 0x00,
        Instruction::DEC => 0x20,
        Instruction::DEX => 0x02,
        Instruction::DEY => 0x04,
        Instruction::EOR => 0x01,
        Instruction::INC => 0x20,
        Instruction::INX => 0x02,
        Instruction::INY => 0x04,
        Instruction::JMP => 0x08,
        Instruction::JSR => 0x38,
        Instruction::LDA => 0x01,
        Instruction::LDX => 0x02,
        Instruction::LDY => 0x04,
        Instruction::LSR => 0x21,
        Instruction::NOP => 0x00,
        Instruction::ORA => 0x01,
        Instruction::PHA => 0x30,
        Instruction::PHP => 0x30,
        Instruction::PLA => 0x11,
        Instruction::PLP => 0x10,
        Instruction::ROL => 0x21,
        Instruction::ROR => 0x21,
        Instruction::RTI => 0x18,
        Instruction::RTS => 0x18,
        Instruction::SBC => 0x01,
        Instruction::SEC => 0x00,
        Instruction::SED => 0x00,
        Instruction::SEI => 0x00,
        Instruction::STA => 0x20,
        Instruction::STX => 0x20,
        Instruction::STY => 0x20,
        Instruction::TAX => 0x02,
        Instruction::TAY => 0x04,
        Instruction::TSX => 0x02,
        Instruction::TXA => 0x01,
        Instruction::TXS => 0x10,
        Instruction::TYA => 0x01,
        Instruction::SLO => 0x21,
        Instruction::RLA => 0x21,
        Instruction::SRE => 0x21,
        Instruction::RRA => 0x21,
        Instruction::SAX => 0x20,
        Instruction::LAX => 0x03,
        Instruction::DCP => 0x20,
        Instruction::ISB => 0x21,
    }
}

fn flags_of(i: Instruction) -> (r: u8)
    ensures
        r == flags_mask(i),
{
    match i {
        Instruction::ILL => 0x00,
        Instruction::ADC => 0xc3,
        Instruction::AND => 0x82,
        Instruction::ASL => 0x83,
        Instruction::BCC => 0x00,
        Instruction::BCS => 0x00,
        Instruction::BEQ => 0x00,
        Instruction::BIT => 0xc2,
        Instruction::BMI => 0x00,
        Instruction::BNE => 0x00,
        Instruction::BPL => 0x00,
        Instruction::BRK => 0x14,
        Instruction::BVC => 0x00,
        Instruction::BVS => 0x00,
        Instruction::CLC => 0x01,
        Instruction::CLD => 0x08,
        Instruction::CLI => 0x04,
        Instruction::CLV => 0x40,
        Instruction::CMP => 0x83,
        Instruction::CPX => 0x83,
        Instruction::CPY => 0x83,
        Instruction::DEC => 0x82,
        Instruction::DEX => 0x82,
        Instruction::DEY => 0x82,
        Instruction::EOR => 0x82,
        Instruction::INC => 0x82,
        Instruction::INX => 0x82,
        Instruction::INY => 0x82,
        Instruction::JMP => 0x00,
        Instruction::JSR => 0x00,
        Instruction::LDA => 0x82,
        Instruction::LDX => 0x82,
        Instruction::LDY => 0x82,
        Instruction::LSR => 0x83,
        Instruction::NOP => 0x00,
        Instruction::ORA => 0x82,
        Instruction::PHA => 0x00,
        Instruction::PHP => 0x00,
        Instruction::PLA => 0x82,
        Instruction::PLP => 0xdf,
        Instruction::ROL => 0x83,
        Instruction::ROR => 0x83,
        Instruction::RTI => 0xdf,
        Instruction::RTS => 0x00,
        Instruction::SBC => 0xc3,
        Instruction::SEC => 0x01,
        Instruction::SED => 0x08,
        Instruction::SEI => 0x04,
        Instruction::STA => 0x00,
        Instruction::STX => 0x00,
        Instruction::STY => 0x00,
        Instruction::TAX => 0x82,
        Instruction::TAY => 0x82,
        Instruction::TSX => 0x82,
        Instruction::TXA => 0x82,
        Instruction::TXS => 0x00,
        Instruction::TYA => 0x82,
        Instruction::SLO => 0x83,
        Instruction::RLA => 0x83,
        Instruction::SRE => 0x83,
        Instruction::RRA => 0xc3,
        Instruction::SAX => 0x00,
        Instruction::LAX => 0x82,
        Instruction::DCP => 0x83,
        Instruction::ISB => 0xc3,
    }
}

/// Decodes an opcode.
pub fn info(op: u8) -> (r: Info)
    ensures
        r == info_spec(op),
        2 <= r.cycles <= 8,
{
    let (insn, mode, cycles) = entry(op);
    Info {
        opcode: op,
        insn,
        addressing: mode,
        bytes: bytes_of(mode),
        cycles,
        affected_units: units_of(insn),
        affected_flags: flags_of(insn),
    }
}

proof fn lemma_six_bits(a: bool, b: bool, c: bool, d: bool, e: bool, f: bool, k: u8)
    requires
        k == (if a { 1u8 } else { 0u8 }) + (if b { 2u8 } else { 0u8 }) + (if c { 4u8 } else { 0u8 })
            + (if d { 8u8 } else { 0u8 }) + (if e { 0x10u8 } else { 0u8 }) + (if f { 0x20u8 } else { 0u8 }),
    ensures
        (k & 0x01 != 0) == a,
        (k & 0x02 != 0) == b,
        (k & 0x04 != 0) == c,
        (k & 0x08 != 0) == d,
        (k & 0x10 != 0) == e,
        (k & 0x20 != 0) == f,
{
    assert(k == (if a { 1u8 } else { 0u8 }) + (if b { 2u8 } else { 0u8 }) + (if c { 4u8 } else { 0u8 })
        + (if d { 8u8 } else { 0u8 }) + (if e { 0x10u8 } else { 0u8 }) + (if f { 0x20u8 } else { 0u8 })
        ==> (k & 0x01 != 0) == a && (k & 0x02 != 0) == b && (k & 0x04 != 0) == c && (k & 0x08 != 0)
        == d && (k & 0x10 != 0) == e && (k & 0x20 != 0) == f) by (bit_vector);
}

proof fn lemma_seven_bits(c: bool, z: bool, i: bool, d: bool, b: bool, v: bool, n: bool, k: u8)
    requires
        k == (if c { 1u8 } else { 0u8 }) + (if z { 2u8 } else { 0u8 }) + (if i { 4u8 } else { 0u8 })
            + (if d { 8u8 } else { 0u8 }) + (if b { 0x10u8 } else { 0u8 }) + (if v { 0x40u8 } else { 0u8 })
            + (if n { 0x80u8 } else { 0u8 }),
    ensures
        (k & FLAG_C != 0) == c,
        (k & FLAG_Z != 0) == z,
        (k & FLAG_I != 0) == i,
        (k & FLAG_D != 0) == d,
        (k & FLAG_B != 0) == b,
        (k & FLAG_V != 0) == v,
        (k & FLAG_N != 0) == n,
{
    assert(k == (if c { 1u8 } else { 0u8 }) + (if z { 2u8 } else { 0u8 }) + (if i { 4u8 } else { 0u8 })
        + (if d { 8u8 } else { 0u8 }) + (if b { 0x10u8 } else { 0u8 }) + (if v { 0x40u8 } else { 0u8 })
        + (if n { 0x80u8 } else { 0u8 }) ==> (k & 0x01 != 0) == c && (k & 0x02 != 0) == z && (k
        & 0x04 != 0) == i && (k & 0x08 != 0) == d && (k & 0x10 != 0) == b && (k & 0x40 != 0) == v
        && (k & 0x80 != 0) == n) by (bit_vector);
}

/// Each bit of an instruction's affected-unit and affected-flag masks is
/// set exactly when the instruction may change that unit or flag.
pub proof fn lemma_masks_match(i: Instruction)
    ensures
        (units_mask(i) & UNIT_A != 0) == changes_a(i),
        (units_mask(i) & UNIT_X != 0) == changes_x(i),
        (units_mask(i) & UNIT_Y != 0) == changes_y(i),
        (units_mask(i) & UNIT_P != 0) == changes_pc(i),
        (units_mask(i) & UNIT_S != 0) == changes_s(i),
        (units_mask(i) & UNIT_M != 0) == changes_mem(i),
        (flags_mask(i) & FLAG_C != 0) == changes_flag_carry(i),
        (flags_mask(i) & FLAG_Z != 0) == changes_flag_zero(i),
        (flags_mask(i) & FLAG_I != 0) == changes_flag_interrupt_disable(i),
        (flags_mask(i) & FLAG_D != 0) == changes_flag_decimal_mode(i),
        (flags_mask(i) & FLAG_B != 0) == changes_flag_break(i),
        (flags_mask(i) & FLAG_V != 0) == changes_flag_overflow(i),
        (flags_mask(i) & FLAG_N != 0) == changes_flag_negative(i),
{
    let ku: u8 = ((if changes_a(i) { 1u8 } else { 0u8 }) + (if changes_x(i) { 2u8 } else { 0u8 }) + (
    if changes_y(i) { 4u8 } else { 0u8 }) + (if changes_pc(i) { 8u8 } else { 0u8 }) + (if changes_s(i) {
        0x10u8
    } else {
        0u8
    }) + (if changes_mem(i) { 0x20u8 } else { 0u8 })) as u8;
    assert(units_mask(i) == ku);
    lemma_six_bits(changes_a(i), changes_x(i), changes_y(i), changes_pc(i), changes_s(i), changes_mem(i), ku);
    let kf: u8 = ((if changes_flag_carry(i) { 1u8 } else { 0u8 }) + (if changes_flag_zero(i) { 2u8 } else { 0u8 })
        + (if changes_flag_interrupt_disable(i) { 4u8 } else { 0u8 }) + (if changes_flag_decimal_mode(i) {
        8u8
    } else {
        0u8
    }) + (if changes_flag_break(i) { 0x10u8 } else { 0u8 }) + (if changes_flag_overflow(i) {
        0x40u8
    } else {
        0u8
    }) + (if changes_flag_negative(i) { 0x80u8 } else { 0u8 })) as u8;
    assert(flags_mask(i) == kf);
    lemma_seven_bits(
        changes_flag_carry(i),
        changes_flag_zero(i),
        changes_flag_interrupt_disable(i),
        changes_flag_decimal_mode(i),
        changes_flag_break(i),
        changes_flag_overflow(i),
        changes_flag_negative(i),
        kf,
    );
}

} // verus!
