use vstd::prelude::*;
use crate::alu::{
    adc, adc_spec, asl, asl_spec, cmp_spec, compare, lsr, lsr_spec, rol, rol_spec, ror, ror_spec,
    sbc, sbc_spec,
};
use crate::memory::{make_word, read_u16, word, Memory};
use crate::rp2a03::{
    bit_if, changes_a, changes_flag_break, changes_flag_carry, changes_flag_decimal_mode,
    changes_flag_interrupt_disable, changes_flag_negative, changes_flag_overflow, changes_flag_zero,
    changes_pc, changes_s, changes_x, changes_y, info, info_spec, mode_bytes, AddressingMode, Info,
    Instruction, FLAG_B, FLAG_C, FLAG_D, FLAG_I, FLAG_N, FLAG_V, FLAG_Z,
};

verus! {

/// Registers and status flags of the 2A03's 6502 core.
#[derive(Debug, Clone, Copy)]
pub struct CPU {
    pub pc: u16,
    pub reg_a: u8,
    pub reg_x: u8,
    pub reg_y: u8,
    pub reg_s: u8,
    pub flag_carry: bool,
    pub flag_zero: bool,
    pub flag_interrupt_disable: bool,
    pub flag_decimal_mode: bool,
    pub flag_break: bool,
    pub flag_overflow: bool,
    pub flag_negative: bool,
    /// The last undefined opcode executed (run as a 2-cycle no-op), if any.
    pub illegal_opcode: Option<u8>,
}

/// An effective address with the prefetched byte there and whether
/// indexing crossed a page.
pub struct AddressedByte {
    pub addr: u16,
    pub prefetched_byte: u8,
    pub has_crossed_page: bool,
}

impl AddressedByte {
    pub fn new(addr: u16, byte: u8, has_crossed_page: bool) -> (r: Self)
        ensures
            r.addr == addr,
            r.prefetched_byte == byte,
            r.has_crossed_page == has_crossed_page,
    {
        AddressedByte { addr, prefetched_byte: byte, has_crossed_page }
    }
}

/// The target of a read-modify-write: memory at `addr`, or the accumulator
/// when `addr` is `None`, with the byte it held before.
pub struct AddressedByteMut {
    pub addr: Option<u16>,
    pub prefetched_byte: u8,
}

impl AddressedByteMut {
    pub fn new(addr: Option<u16>, byte: u8) -> (r: Self)
        ensures
            r.addr == addr,
            r.prefetched_byte == byte,
    {
        AddressedByteMut { addr, prefetched_byte: byte }
    }
}

pub open spec fn wrap16(x: int) -> u16 {
    (x % 65536) as u16
}

pub open spec fn wrap8(x: int) -> u8 {
    (x % 256) as u8
}

/// Address of stack slot `s`.
pub open spec fn stack_addr(s: int) -> u16 {
    (0x100 + (s % 256)) as u16
}

pub open spec fn with_zn(c: CPU, v: u8) -> CPU {
    CPU { flag_zero: v == 0, flag_negative: v >= 0x80, ..c }
}

/// The packed status byte: C, Z, I, D, B, 1, V, N from bit 0 up.
pub open spec fn pack_spec(c: CPU) -> u8 {
    (bit_if(c.flag_carry, FLAG_C) + bit_if(c.flag_zero, FLAG_Z) + bit_if(
        c.flag_interrupt_disable,
        FLAG_I,
    ) + bit_if(c.flag_decimal_mode, FLAG_D) + bit_if(c.flag_break, FLAG_B) + 0x20 + bit_if(
        c.flag_overflow,
        FLAG_V,
    ) + bit_if(c.flag_negative, FLAG_N)) as u8
}

/// Loads the flags from a status byte; B is not a stored flag and reads as clear.
pub open spec fn unpack_spec(c: CPU, p: u8) -> CPU {
    CPU {
        flag_carry: p & FLAG_C != 0,
        flag_zero: p & FLAG_Z != 0,
        flag_interrupt_disable: p & FLAG_I != 0,
        flag_decimal_mode: p & FLAG_D != 0,
        flag_break: false,
        flag_overflow: p & FLAG_V != 0,
        flag_negative: p & FLAG_N != 0,
        ..c
    }
}

/// The status byte that PHP and BRK push: B set.
pub open spec fn pushed_status(c: CPU) -> u8 {
    pack_spec(c) | FLAG_B
}

/// Effective address and page-crossing bit of an addressing mode; `c.pc`
/// points at the first operand byte.
pub open spec fn operand<M: Memory>(c: CPU, m: M, mode: AddressingMode) -> (u16, bool) {
    let b1 = m.peek(c.pc);
    let b2 = m.peek(wrap16(c.pc + 1));
    match mode {
        AddressingMode::Immediate => (c.pc, false),
        AddressingMode::ZeroPage => (b1 as u16, false),
        AddressingMode::ZeroPageX => (wrap8(b1 + c.reg_x) as u16, false),
        AddressingMode::ZeroPageY => (wrap8(b1 + c.reg_y) as u16, false),
        AddressingMode::Absolute => (word(b1, b2), false),
        AddressingMode::AbsoluteX => (wrap16(word(b1, b2) + c.reg_x), b1 + c.reg_x >= 256),
        AddressingMode::AbsoluteY => (wrap16(word(b1, b2) + c.reg_y), b1 + c.reg_y >= 256),
        AddressingMode::Indirect => (
            word(m.peek(word(b1, b2)), m.peek(word(wrap8(b1 + 1), b2))),
            false,
        ),
        AddressingMode::IndexedIndirect => {
            let p = wrap8(b1 + c.reg_x);
            (word(m.peek(p as u16), m.peek(wrap8(p + 1) as u16)), false)
        },
        AddressingMode::IndirectIndexed => {
            let lo = m.peek(b1 as u16);
            let hi = m.peek(wrap8(b1 + 1) as u16);
            (wrap16(word(lo, hi) + c.reg_y), lo + c.reg_y >= 256)
        },
        AddressingMode::Relative => {
            let next = wrap16(c.pc + 1);
            let target = wrap16(next + crate::alu::signed(b1));
            (target, next / 256 != target / 256)
        },
        _ => (0, false),
    }
}

pub open spec fn branch_taken(c: CPU, i: Instruction) -> bool {
    match i {
        Instruction::BCC => !c.flag_carry,
        Instruction::BCS => c.flag_carry,
        Instruction::BEQ => c.flag_zero,
        Instruction::BNE => !c.flag_zero,
        Instruction::BMI => c.flag_negative,
        Instruction::BPL => !c.flag_negative,
        Instruction::BVS => c.flag_overflow,
        Instruction::BVC => !c.flag_overflow,
        _ => false,
    }
}

pub open spec fn is_branch(i: Instruction) -> bool {
    matches!(i, Instruction::BCC | Instruction::BCS | Instruction::BEQ | Instruction::BNE
        | Instruction::BMI | Instruction::BPL | Instruction::BVS | Instruction::BVC)
}

pub open spec fn with_adc(c: CPU, r: (u8, bool, bool)) -> CPU {
    with_zn(CPU { reg_a: r.0, flag_carry: r.1, flag_overflow: r.2, ..c }, r.0)
}

pub open spec fn with_cmp(c: CPU, r: (u8, bool)) -> CPU {
    with_zn(CPU { flag_carry: r.1, ..c }, r.0)
}

/// Result of a shift or rotate on the operand: new CPU and the byte to write
/// back (to A when the mode is Accumulator).
pub open spec fn shifted(c: CPU, i: Instruction, v: u8) -> (u8, bool) {
    match i {
        Instruction::ASL | Instruction::SLO => asl_spec(v),
        Instruction::LSR | Instruction::SRE => lsr_spec(v),
        Instruction::ROL | Instruction::RLA => rol_spec(v, c.flag_carry),
        _ => ror_spec(v, c.flag_carry),
    }
}

/// Instructions that only change registers and flags: the new CPU and the
/// extra cycles. `v` is the operand value, `op` the opcode.
pub open spec fn register_spec(c: CPU, i: Instruction, crossed: bool, v: u8, op: u8) -> (CPU, u8) {
    let pen: u8 = if crossed { 1 } else { 0 };
    match i {
        Instruction::LDA => (with_zn(CPU { reg_a: v, ..c }, v), pen),
        Instruction::LDX => (with_zn(CPU { reg_x: v, ..c }, v), pen),
        Instruction::LDY => (with_zn(CPU { reg_y: v, ..c }, v), pen),
        Instruction::LAX => (with_zn(CPU { reg_a: v, reg_x: v, ..c }, v), pen),
        Instruction::TAX => (with_zn(CPU { reg_x: c.reg_a, ..c }, c.reg_a), 0),
        Instruction::TAY => (with_zn(CPU { reg_y: c.reg_a, ..c }, c.reg_a), 0),
        Instruction::TXA => (with_zn(CPU { reg_a: c.reg_x, ..c }, c.reg_x), 0),
        Instruction::TYA => (with_zn(CPU { reg_a: c.reg_y, ..c }, c.reg_y), 0),
        Instruction::TSX => (with_zn(CPU { reg_x: c.reg_s, ..c }, c.reg_s), 0),
        Instruction::TXS => (CPU { reg_s: c.reg_x, ..c }, 0),
        Instruction::AND => (with_zn(CPU { reg_a: c.reg_a & v, ..c }, c.reg_a & v), pen),
        Instruction::EOR => (with_zn(CPU { reg_a: c.reg_a ^ v, ..c }, c.reg_a ^ v), pen),
        Instruction::ORA => (with_zn(CPU { reg_a: c.reg_a | v, ..c }, c.reg_a | v), pen),
        Instruction::BIT => (
            CPU {
                flag_zero: c.reg_a & v == 0,
                flag_overflow: v & 0x40 != 0,
                flag_negative: v & 0x80 != 0,
                ..c
            },
            0,
        ),
        Instruction::ADC => (with_adc(c, adc_spec(c.reg_a, v, c.flag_carry)), pen),
        Instruction::SBC => (with_adc(c, sbc_spec(c.reg_a, v, c.flag_carry)), pen),
        Instruction::CMP => (with_cmp(c, cmp_spec(c.reg_a, v)), pen),
        Instruction::CPX => (with_cmp(c, cmp_spec(c.reg_x, v)), pen),
        Instruction::CPY => (with_cmp(c, cmp_spec(c.reg_y, v)), pen),
        Instruction::INX => (with_zn(CPU { reg_x: wrap8(c.reg_x + 1), ..c }, wrap8(c.reg_x + 1)), 0),
        Instruction::INY => (with_zn(CPU { reg_y: wrap8(c.reg_y + 1), ..c }, wrap8(c.reg_y + 1)), 0),
        Instruction::DEX => (with_zn(CPU { reg_x: wrap8(c.reg_x - 1), ..c }, wrap8(c.reg_x - 1)), 0),
        Instruction::DEY => (with_zn(CPU { reg_y: wrap8(c.reg_y - 1), ..c }, wrap8(c.reg_y - 1)), 0),
        Instruction::CLC => (CPU { flag_carry: false, ..c }, 0),
        Instruction::CLD => (CPU { flag_decimal_mode: false, ..c }, 0),
        Instruction::CLI => (CPU { flag_interrupt_disable: false, ..c }, 0),
        Instruction::CLV => (CPU { flag_overflow: false, ..c }, 0),
        Instruction::SEC => (CPU { flag_carry: true, ..c }, 0),
        Instruction::SED => (CPU { flag_decimal_mode: true, ..c }, 0),
        Instruction::SEI => (CPU { flag_interrupt_disable: true, ..c }, 0),
        Instruction::NOP => (c, pen),
        _ => (CPU { illegal_opcode: Some(op), ..c }, 0),
    }
}

/// Stores and read-modify-write instructions: the new CPU and the byte
/// written back to the operand's address, if any (a shift in Accumulator mode
/// writes A instead). No extra cycles.
pub open spec fn rmw_spec(c: CPU, i: Instruction, mode: AddressingMode, v: u8) -> (CPU, Option<u8>) {
    match i {
        Instruction::STA => (c, Some(c.reg_a)),
        Instruction::STX => (c, Some(c.reg_x)),
        Instruction::STY => (c, Some(c.reg_y)),
        Instruction::SAX => (c, Some(c.reg_a & c.reg_x)),
        Instruction::INC => (with_zn(c, wrap8(v + 1)), Some(wrap8(v + 1))),
        Instruction::DEC => (with_zn(c, wrap8(v - 1)), Some(wrap8(v - 1))),
        Instruction::ASL | Instruction::LSR | Instruction::ROL | Instruction::ROR => {
            let (r, cy) = shifted(c, i, v);
            if mode == AddressingMode::Accumulator {
                (with_zn(CPU { reg_a: r, flag_carry: cy, ..c }, r), None)
            } else {
                (with_zn(CPU { flag_carry: cy, ..c }, r), Some(r))
            }
        },
        Instruction::SLO | Instruction::RLA | Instruction::SRE => {
            let (r, cy) = shifted(c, i, v);
            let a = if i == Instruction::SLO {
                c.reg_a | r
            } else if i == Instruction::RLA {
                c.reg_a & r
            } else {
                c.reg_a ^ r
            };
            (with_zn(CPU { reg_a: a, flag_carry: cy, ..c }, a), Some(r))
        },
        Instruction::RRA => {
            let (r, cy) = ror_spec(v, c.flag_carry);
            (with_adc(c, adc_spec(c.reg_a, r, cy)), Some(r))
        },
        Instruction::DCP => (with_cmp(c, cmp_spec(c.reg_a, wrap8(v - 1))), Some(wrap8(v - 1))),
        _ => (with_adc(c, sbc_spec(c.reg_a, wrap8(v + 1), c.flag_carry)), Some(wrap8(v + 1))),
    }
}

/// The writes of a store or read-modify-write instruction.
pub open spec fn memory_spec(c: CPU, i: Instruction, mode: AddressingMode, addr: u16, v: u8) -> (
    CPU,
    Map<u16, u8>,
) {
    let (c2, w) = rmw_spec(c, i, mode, v);
    (c2, match w {
        Some(b) => map![addr => b],
        None => Map::empty(),
    })
}

/// Stack, jump, return, interrupt and branch instructions: the new CPU, the
/// extra cycles and the bytes written.
pub open spec fn flow_spec<M: Memory>(c: CPU, m: M, i: Instruction, addr: u16, crossed: bool) -> (
    CPU,
    u8,
    Map<u16, u8>,
) {
    let none = Map::<u16, u8>::empty();
    let s1 = wrap8(c.reg_s + 1);
    match i {
        Instruction::PHA => (
            CPU { reg_s: wrap8(c.reg_s - 1), ..c },
            0,
            map![stack_addr(c.reg_s as int) => c.reg_a],
        ),
        Instruction::PHP => (
            CPU { reg_s: wrap8(c.reg_s - 1), ..c },
            0,
            map![stack_addr(c.reg_s as int) => pushed_status(c)],
        ),
        Instruction::PLA => {
            let a = m.peek(stack_addr(s1 as int));
            (with_zn(CPU { reg_a: a, reg_s: s1, ..c }, a), 0, none)
        },
        Instruction::PLP => (
            unpack_spec(CPU { reg_s: s1, ..c }, m.peek(stack_addr(s1 as int))),
            0,
            none,
        ),
        Instruction::JMP => (CPU { pc: addr, ..c }, 0, none),
        Instruction::JSR => {
            let ret = wrap16(c.pc - 1);
            (
                CPU { pc: addr, reg_s: wrap8(c.reg_s - 2), ..c },
                0,
                map![
                    stack_addr(c.reg_s as int) => (ret / 256) as u8,
                    stack_addr(c.reg_s - 1) => (ret % 256) as u8
                ],
            )
        },
        Instruction::RTS => {
            let lo = m.peek(stack_addr(c.reg_s + 1));
            let hi = m.peek(stack_addr(c.reg_s + 2));
            (CPU { pc: wrap16(word(lo, hi) + 1), reg_s: wrap8(c.reg_s + 2), ..c }, 0, none)
        },
        Instruction::RTI => {
            let p = m.peek(stack_addr(c.reg_s + 1));
            let lo = m.peek(stack_addr(c.reg_s + 2));
            let hi = m.peek(stack_addr(c.reg_s + 3));
            (unpack_spec(CPU { pc: word(lo, hi), reg_s: wrap8(c.reg_s + 3), ..c }, p), 0, none)
        },
        Instruction::BRK => (
            CPU {
                pc: word(m.peek(0xfffe), m.peek(0xffff)),
                reg_s: wrap8(c.reg_s - 3),
                flag_interrupt_disable: true,
                ..c
            },
            0,
            map![
                stack_addr(c.reg_s as int) => (c.pc / 256) as u8,
                stack_addr(c.reg_s - 1) => (c.pc % 256) as u8,
                stack_addr(c.reg_s - 2) => pushed_status(c)
            ],
        ),
        _ => {
            if branch_taken(c, i) {
                (CPU { pc: addr, ..c }, (if crossed { 2u8 } else { 1u8 }), none)
            } else {
                (c, 0, none)
            }
        },
    }
}

/// What a stack, jump or branch instruction guarantees: for any memory the
/// registers it leaves alone, and on a plain memory its exact effect.
pub open spec fn flow_post<M: Memory>(
    o: CPU,
    n: CPU,
    om: M,
    nm: M,
    i: Instruction,
    addr: u16,
    crossed: bool,
    r: u8,
) -> bool {
    &&& r <= 2
    &&& n.reg_x == o.reg_x
    &&& n.reg_y == o.reg_y
    &&& n.illegal_opcode == o.illegal_opcode
    &&& om.inv() ==> nm.inv()
    &&& (i == Instruction::PHA || i == Instruction::PHP || i == Instruction::PLA || i
        == Instruction::PLP) ==> n.pc == o.pc
    &&& i != Instruction::PLA ==> n.reg_a == o.reg_a
    &&& i == Instruction::JMP || is_branch(i) ==> n.reg_s == o.reg_s
    &&& i != Instruction::PLP && i != Instruction::RTI ==> {
        &&& n.flag_carry == o.flag_carry
        &&& n.flag_decimal_mode == o.flag_decimal_mode
        &&& n.flag_break == o.flag_break
        &&& n.flag_overflow == o.flag_overflow
    }
    &&& i != Instruction::PLP && i != Instruction::RTI && i != Instruction::BRK
        ==> n.flag_interrupt_disable == o.flag_interrupt_disable
    &&& i != Instruction::PLP && i != Instruction::RTI && i != Instruction::PLA ==> {
        &&& n.flag_zero == o.flag_zero
        &&& n.flag_negative == o.flag_negative
    }
    &&& om.plain() ==> ({
        let (c, e, w) = flow_spec(o, om, i, addr, crossed);
        &&& n == c
        &&& r == e
        &&& nm.plain()
        &&& forall|a: u16| #[trigger] nm.peek(a) == written(om, w, a)
    })
}

/// Semantics of one instruction once its operand is known: `c` has PC past
/// the instruction, `addr`/`crossed` come from `operand`, `v` is the operand
/// value and `op` the opcode. Returns the new CPU, the extra cycles and the
/// bytes written.
#[verifier::opaque]
pub open spec fn execute_spec<M: Memory>(
    c: CPU,
    m: M,
    i: Instruction,
    mode: AddressingMode,
    addr: u16,
    crossed: bool,
    v: u8,
    op: u8,
) -> (CPU, u8, Map<u16, u8>) {
    if is_register_op(i) {
        let (c2, e) = register_spec(c, i, crossed, v, op);
        (c2, e, Map::empty())
    } else if is_memory_op(i) {
        let (c2, w) = memory_spec(c, i, mode, addr, v);
        (c2, 0, w)
    } else {
        flow_spec(c, m, i, addr, crossed)
    }
}

/// An NMI or IRQ: pushes PC and the status with B clear, sets I and jumps
/// through `vector`.
pub open spec fn interrupt_spec<M: Memory>(c: CPU, m: M, vector: u16) -> (CPU, Map<u16, u8>) {
    (
        CPU {
            pc: word(m.peek(vector), m.peek(wrap16(vector + 1))),
            reg_s: wrap8(c.reg_s - 3),
            flag_interrupt_disable: true,
            ..c
        },
        map![
            stack_addr(c.reg_s as int) => (c.pc / 256) as u8,
            stack_addr(c.reg_s - 1) => (c.pc % 256) as u8,
            stack_addr(c.reg_s - 2) => pack_spec(c) & 0xef
        ],
    )
}

/// Instructions that read their operand (loads, ALU, compares, read-modify-write).
pub open spec fn uses_value(i: Instruction) -> bool {
    matches!(i, Instruction::LDA | Instruction::LDX | Instruction::LDY | Instruction::LAX
        | Instruction::AND | Instruction::EOR | Instruction::ORA | Instruction::BIT
        | Instruction::ADC | Instruction::SBC | Instruction::CMP | Instruction::CPX
        | Instruction::CPY | Instruction::INC | Instruction::DEC | Instruction::ASL
        | Instruction::LSR | Instruction::ROL | Instruction::ROR | Instruction::SLO
        | Instruction::RLA | Instruction::SRE | Instruction::RRA | Instruction::DCP
        | Instruction::ISB)
}

/// The operand value: A in Accumulator mode, the byte at the effective
/// address for an instruction that reads it, else unused (0).
pub open spec fn operand_value<M: Memory>(
    c: CPU,
    m: M,
    i: Instruction,
    mode: AddressingMode,
    addr: u16,
) -> u8 {
    if mode == AddressingMode::Accumulator {
        c.reg_a
    } else if uses_value(i) && mode != AddressingMode::Implicit {
        m.peek(addr)
    } else {
        0
    }
}

/// Instructions that write no memory and set PC only by stepping over themselves.
pub open spec fn is_register_op(i: Instruction) -> bool {
    matches!(i, Instruction::LDA | Instruction::LDX | Instruction::LDY | Instruction::LAX
        | Instruction::TAX | Instruction::TAY | Instruction::TXA | Instruction::TYA
        | Instruction::TSX | Instruction::TXS | Instruction::AND | Instruction::EOR
        | Instruction::ORA | Instruction::BIT | Instruction::ADC | Instruction::SBC
        | Instruction::CMP | Instruction::CPX | Instruction::CPY | Instruction::INX
        | Instruction::INY | Instruction::DEX | Instruction::DEY | Instruction::CLC
        | Instruction::CLD | Instruction::CLI | Instruction::CLV | Instruction::SEC
        | Instruction::SED | Instruction::SEI | Instruction::NOP | Instruction::ILL)
}

/// Instructions that write the operand back (stores and read-modify-write).
pub open spec fn is_memory_op(i: Instruction) -> bool {
    matches!(i, Instruction::STA | Instruction::STX | Instruction::STY | Instruction::SAX
        | Instruction::INC | Instruction::DEC | Instruction::ASL | Instruction::LSR
        | Instruction::ROL | Instruction::ROR | Instruction::SLO | Instruction::RLA
        | Instruction::SRE | Instruction::RRA | Instruction::DCP | Instruction::ISB)
}

/// One instruction from state `c` on memory `m`: the new CPU, the cycles it
/// took and the bytes it wrote.
pub open spec fn step<M: Memory>(c: CPU, m: M) -> (CPU, u8, Map<u16, u8>) {
    let op = m.peek(c.pc);
    let inf = info_spec(op);
    let (addr, crossed) = operand(CPU { pc: wrap16(c.pc + 1), ..c }, m, inf.addressing);
    let v = operand_value(c, m, inf.insn, inf.addressing, addr);
    let next = CPU { pc: wrap16(c.pc + inf.bytes), ..c };
    let (c2, extra, w) = execute_spec(next, m, inf.insn, inf.addressing, addr, crossed, v, op);
    (c2, (inf.cycles + extra) as u8, w)
}

/// What an instruction leaves alone: registers and flags outside its masks,
/// and PC, which only steps over the instruction unless it is a PC unit.
pub open spec fn frame(o: CPU, n: CPU, inf: Info) -> bool {
    &&& keeps(o, n, inf.insn)
    &&& !changes_pc(inf.insn) ==> n.pc == wrap16(o.pc + inf.bytes)
}

/// Registers and flags outside the instruction's masks are unchanged.
pub open spec fn keeps(o: CPU, n: CPU, i: Instruction) -> bool {
    &&& !changes_a(i) ==> n.reg_a == o.reg_a
    &&& !changes_x(i) ==> n.reg_x == o.reg_x
    &&& !changes_y(i) ==> n.reg_y == o.reg_y
    &&& !changes_s(i) ==> n.reg_s == o.reg_s
    &&& !changes_flag_carry(i) ==> n.flag_carry == o.flag_carry
    &&& !changes_flag_zero(i) ==> n.flag_zero == o.flag_zero
    &&& !changes_flag_interrupt_disable(i) ==> n.flag_interrupt_disable
        == o.flag_interrupt_disable
    &&& !changes_flag_decimal_mode(i) ==> n.flag_decimal_mode == o.flag_decimal_mode
    &&& !changes_flag_break(i) ==> n.flag_break == o.flag_break
    &&& !changes_flag_overflow(i) ==> n.flag_overflow == o.flag_overflow
    &&& !changes_flag_negative(i) ==> n.flag_negative == o.flag_negative
}

/// A memory after the writes `w` to memory `m`.
pub open spec fn written<M: Memory>(m: M, w: Map<u16, u8>, a: u16) -> u8 {
    if w.contains_key(a) {
        w[a]
    } else {
        m.peek(a)
    }
}

pub proof fn lemma_pack_unpack_bits(b: u8)
    ensures
        (if b & 0x01 != 0 { 1u8 } else { 0u8 }) + (if b & 0x02 != 0 { 2u8 } else { 0u8 }) + (if b
            & 0x04 != 0 { 4u8 } else { 0u8 }) + (if b & 0x08 != 0 { 8u8 } else { 0u8 }) + 0x20u8
            + (if b & 0x40 != 0 { 0x40u8 } else { 0u8 }) + (if b & 0x80 != 0 { 0x80u8 } else { 0u8 })
            == (b & 0xef) | 0x20,
{
    assert((if b & 0x01 != 0 { 1u8 } else { 0u8 }) + (if b & 0x02 != 0 { 2u8 } else { 0u8 }) + (if b
        & 0x04 != 0 { 4u8 } else { 0u8 }) + (if b & 0x08 != 0 { 8u8 } else { 0u8 }) + 0x20u8 + (if b
        & 0x40 != 0 { 0x40u8 } else { 0u8 }) + (if b & 0x80 != 0 { 0x80u8 } else { 0u8 }) == (b
        & 0xef) | 0x20) by (bit_vector);
}

/// Unpacking a status byte and packing it again gives the byte with B
/// cleared and bit 5 set.
pub proof fn lemma_unpack_pack_round_trip(c: CPU, b: u8)
    ensures
        pack_spec(unpack_spec(c, b)) == (b & 0xef) | 0x20,
{
    lemma_pack_unpack_bits(b);
}

/// Bit 5 of every packed status byte, pushed ones included, is set.
pub proof fn lemma_pack_bit5(c: CPU)
    ensures
        pack_spec(c) & 0x20 != 0,
        pushed_status(c) & 0x20 != 0,
        pushed_status(c) & FLAG_B != 0,
{
    let p = pack_spec(c);
    let k: u8 = (bit_if(c.flag_carry, FLAG_C) + bit_if(c.flag_zero, FLAG_Z) + bit_if(
        c.flag_interrupt_disable,
        FLAG_I,
    ) + bit_if(c.flag_decimal_mode, FLAG_D) + bit_if(c.flag_break, FLAG_B)) as u8;
    let h: u8 = (bit_if(c.flag_overflow, FLAG_V) + bit_if(c.flag_negative, FLAG_N)) as u8;
    let q: u8 = (k + 0x20u8 + h) as u8;
    assert(p == q);
    assert(k < 0x20 && (h == 0 || h == 0x40 || h == 0x80 || h == 0xc0) && q == (k + 0x20u8 + h)
        as u8 ==> q & 0x20 != 0 && (q | 0x10) & 0x20 != 0 && (q | 0x10) & 0x10 != 0) by (bit_vector);
}

impl CPU {
    /// All registers and flags zero.
    pub open spec fn new_spec() -> CPU {
        CPU {
            pc: 0,
            reg_a: 0,
            reg_x: 0,
            reg_y: 0,
            reg_s: 0,
            flag_carry: false,
            flag_zero: false,
            flag_interrupt_disable: false,
            flag_decimal_mode: false,
            flag_break: false,
            flag_overflow: false,
            flag_negative: false,
            illegal_opcode: None,
        }
    }

    pub fn new() -> (r: Self)
        ensures
            r == Self::new_spec(),
            r == (CPU {
                pc: 0,
                reg_a: 0,
                reg_x: 0,
                reg_y: 0,
                reg_s: 0,
                flag_carry: false,
                flag_zero: false,
                flag_interrupt_disable: false,
                flag_decimal_mode: false,
                flag_break: false,
                flag_overflow: false,
                flag_negative: false,
                illegal_opcode: None,
            }),
    {
        CPU {
            pc: 0,
            reg_a: 0,
            reg_x: 0,
            reg_y: 0,
            reg_s: 0,
            flag_carry: false,
            flag_zero: false,
            flag_interrupt_disable: false,
            flag_decimal_mode: false,
            flag_break: false,
            flag_overflow: false,
            flag_negative: false,
            illegal_opcode: None,
        }
    }

    /// RESET: registers cleared, three suppressed stack pushes (S = 0xFD),
    /// I set, PC loaded from $FFFC/D.
    pub fn reset<M: Memory>(&mut self, mem: &mut M)
        ensures
            old(mem).inv() ==> final(mem).inv(),
            final(self).reg_a == 0 && final(self).reg_x == 0 && final(self).reg_y == 0,
            final(self).reg_s == 0xfd,
            final(self).flag_interrupt_disable,
            !final(self).flag_carry && !final(self).flag_zero && !final(self).flag_decimal_mode,
            !final(self).flag_break && !final(self).flag_overflow && !final(self).flag_negative,
            final(self).illegal_opcode == None::<u8>,
            old(mem).plain() ==> final(self).pc == word(old(mem).peek(0xfffc), old(mem).peek(0xfffd)),
            old(mem).plain() ==> *final(mem) == *old(mem),
    {
        let vector = read_u16(mem, 0xfffc);
        self.reset_with_vector(vector);
    }

    /// The RESET state with PC = `vector`.
    pub fn reset_with_vector(&mut self, vector: u16)
        ensures
            *final(self) == (CPU {
                pc: vector,
                reg_s: 0xfd,
                flag_interrupt_disable: true,
                ..CPU::new_spec()
            }),
    {
        *self = CPU::new();
        self.flag_interrupt_disable = true;
        self.reg_s = self.reg_s.wrapping_sub(3);
        self.pc = vector;
    }

    pub fn pack_flags(&self) -> (r: u8)
        ensures
            r == pack_spec(*self),
            r & 0x20 != 0,
    {
        proof {
            lemma_pack_bit5(*self);
        }
        let p: u8 = 0x20 + if self.flag_carry { FLAG_C } else { 0 } + if self.flag_zero {
            FLAG_Z
        } else {
            0
        } + if self.flag_interrupt_disable { FLAG_I } else { 0 } + if self.flag_decimal_mode {
            FLAG_D
        } else {
            0
        } + if self.flag_break { FLAG_B } else { 0 } + if self.flag_overflow {
            FLAG_V
        } else {
            0
        } + if self.flag_negative { FLAG_N } else { 0 };
        p
    }

    pub fn unpack_flags(&mut self, p: u8)
        ensures
            *final(self) == unpack_spec(*old(self), p),
    {
        self.flag_carry = p & FLAG_C != 0;
        self.flag_zero = p & FLAG_Z != 0;
        self.flag_interrupt_disable = p & FLAG_I != 0;
        self.flag_decimal_mode = p & FLAG_D != 0;
        self.flag_break = false;
        self.flag_overflow = p & FLAG_V != 0;
        self.flag_negative = p & FLAG_N != 0;
    }

    fn update_zn_flags(&mut self, v: u8)
        ensures
            *final(self) == with_zn(*old(self), v),
    {
        self.flag_zero = v == 0;
        self.flag_negative = v >= 0x80;
    }

    fn get_next_byte<M: Memory>(&mut self, mem: &mut M) -> (r: u8)
        ensures
            old(mem).inv() ==> final(mem).inv(),
            *final(self) == (CPU { pc: wrap16(old(self).pc + 1), ..*old(self) }),
            r == old(mem).peek(old(self).pc),
            old(mem).plain() ==> *final(mem) == *old(mem),
    {
        let b = mem.read_u8(self.pc);
        self.pc = self.pc.wrapping_add(1);
        b
    }

    fn push_byte<M: Memory>(&mut self, mem: &mut M, b: u8)
        ensures
            old(mem).inv() ==> final(mem).inv(),
            *final(self) == (CPU { reg_s: wrap8(old(self).reg_s - 1), ..*old(self) }),
            old(mem).plain() ==> final(mem).plain(),
            old(mem).plain() ==> forall|a: u16| #[trigger]
                final(mem).peek(a) == if a == stack_addr(old(self).reg_s as int) {
                    b
                } else {
                    old(mem).peek(a)
                },
    {
        mem.write_u8(0x100 + self.reg_s as u16, b);
        self.reg_s = self.reg_s.wrapping_sub(1);
    }

    fn pull_byte<M: Memory>(&mut self, mem: &mut M) -> (r: u8)
        ensures
            old(mem).inv() ==> final(mem).inv(),
            *final(self) == (CPU { reg_s: wrap8(old(self).reg_s + 1), ..*old(self) }),
            r == old(mem).peek(stack_addr(old(self).reg_s + 1)),
            old(mem).plain() ==> *final(mem) == *old(mem),
    {
        self.reg_s = self.reg_s.wrapping_add(1);
        mem.read_u8(0x100 + self.reg_s as u16)
    }

    /// Reads the two bytes of an absolute operand.
    fn get_abs_operand<M: Memory>(&mut self, mem: &mut M) -> (r: (u8, u8))
        ensures
            old(mem).inv() ==> final(mem).inv(),
            *final(self) == (CPU { pc: wrap16(old(self).pc + 2), ..*old(self) }),
            r.0 == old(mem).peek(old(self).pc),
            old(mem).plain() ==> r.1 == old(mem).peek(wrap16(old(self).pc + 1)),
            old(mem).plain() ==> *final(mem) == *old(mem),
    {
        let lo = self.get_next_byte(mem);
        let hi = self.get_next_byte(mem);
        (lo, hi)
    }

    fn get_indirect<M: Memory>(&mut self, mem: &mut M) -> (r: (u16, bool))
        ensures
            old(mem).inv() ==> final(mem).inv(),
            *final(self) == (CPU { pc: wrap16(old(self).pc + 2), ..*old(self) }),
            old(mem).plain() ==> r == operand(*old(self), *old(mem), AddressingMode::Indirect),
            old(mem).plain() ==> *final(mem) == *old(mem),
    {
        // The pointer's high byte comes from the same page as its low byte,
        // as on the 6502.
        let (lo, hi) = self.get_abs_operand(mem);
        let a_lo = mem.read_u8(make_word(lo, hi));
        let a_hi = mem.read_u8(make_word(lo.wrapping_add(1), hi));
        (make_word(a_lo, a_hi), false)
    }

    fn get_indexed_indirect<M: Memory>(&mut self, mem: &mut M) -> (r: (u16, bool))
        ensures
            old(mem).inv() ==> final(mem).inv(),
            *final(self) == (CPU { pc: wrap16(old(self).pc + 1), ..*old(self) }),
            old(mem).plain() ==> r == operand(*old(self), *old(mem), AddressingMode::IndexedIndirect),
            old(mem).plain() ==> *final(mem) == *old(mem),
    {
        let b = self.get_next_byte(mem);
        let p = b.wrapping_add(self.reg_x);
        let a_lo = mem.read_u8(p as u16);
        let a_hi = mem.read_u8(p.wrapping_add(1) as u16);
        (make_word(a_lo, a_hi), false)
    }

    fn get_indirect_indexed<M: Memory>(&mut self, mem: &mut M) -> (r: (u16, bool))
        ensures
            old(mem).inv() ==> final(mem).inv(),
            *final(self) == (CPU { pc: wrap16(old(self).pc + 1), ..*old(self) }),
            old(mem).plain() ==> r == operand(*old(self), *old(mem), AddressingMode::IndirectIndexed),
            old(mem).plain() ==> *final(mem) == *old(mem),
    {
        let b = self.get_next_byte(mem);
        let a_lo = mem.read_u8(b as u16);
        let a_hi = mem.read_u8(b.wrapping_add(1) as u16);
        let base = make_word(a_lo, a_hi);
        (base.wrapping_add(self.reg_y as u16), a_lo as u16 + self.reg_y as u16 >= 256)
    }

    fn get_relative<M: Memory>(&mut self, mem: &mut M) -> (r: (u16, bool))
        ensures
            old(mem).inv() ==> final(mem).inv(),
            *final(self) == (CPU { pc: wrap16(old(self).pc + 1), ..*old(self) }),
            old(mem).plain() ==> r == operand(*old(self), *old(mem), AddressingMode::Relative),
            old(mem).plain() ==> *final(mem) == *old(mem),
    {
        let b = self.get_next_byte(mem);
        let next = self.pc;
        let target = if b < 128 {
            next.wrapping_add(b as u16)
        } else {
            next.wrapping_sub(256 - b as u16)
        };
        (target, next / 256 != target / 256)
    }

    fn get_absolute<M: Memory>(&mut self, mode: AddressingMode, mem: &mut M) -> (r: (u16, bool))
        requires
            mode == AddressingMode::Absolute || mode == AddressingMode::AbsoluteX || mode
                == AddressingMode::AbsoluteY,
        ensures
            old(mem).inv() ==> final(mem).inv(),
            *final(self) == (CPU { pc: wrap16(old(self).pc + 2), ..*old(self) }),
            old(mem).plain() ==> r == operand(*old(self), *old(mem), mode),
            old(mem).plain() ==> *final(mem) == *old(mem),
    {
        let (lo, hi) = self.get_abs_operand(mem);
        let base = make_word(lo, hi);
        let index = if mode == AddressingMode::AbsoluteX {
            self.reg_x
        } else if mode == AddressingMode::AbsoluteY {
            self.reg_y
        } else {
            0
        };
        (base.wrapping_add(index as u16), mode != AddressingMode::Absolute && lo as u16 + index as u16
            >= 256)
    }

    /// Effective address and page-crossing bit; PC moves past the operand bytes.
    fn get_address<M: Memory>(&mut self, mode: AddressingMode, mem: &mut M) -> (r: (u16, bool))
        ensures
            old(mem).inv() ==> final(mem).inv(),
            *final(self) == (CPU {
                pc: wrap16(old(self).pc + mode_bytes(mode) - 1),
                ..*old(self)
            }),
            old(mem).plain() ==> r == operand(*old(self), *old(mem), mode),
            old(mem).plain() ==> *final(mem) == *old(mem),
    {
        match mode {
            AddressingMode::Implicit | AddressingMode::Accumulator => (0, false),
            AddressingMode::Immediate => {
                let a = self.pc;
                self.pc = self.pc.wrapping_add(1);
                (a, false)
            },
            AddressingMode::ZeroPage => {
                let b = self.get_next_byte(mem);
                (b as u16, false)
            },
            AddressingMode::ZeroPageX => {
                let b = self.get_next_byte(mem);
                (b.wrapping_add(self.reg_x) as u16, false)
            },
            AddressingMode::ZeroPageY => {
                let b = self.get_next_byte(mem);
                (b.wrapping_add(self.reg_y) as u16, false)
            },
            AddressingMode::Absolute | AddressingMode::AbsoluteX | AddressingMode::AbsoluteY => {
                self.get_absolute(mode, mem)
            },
            AddressingMode::Indirect => self.get_indirect(mem),
            AddressingMode::IndexedIndirect => self.get_indexed_indirect(mem),
            AddressingMode::IndirectIndexed => self.get_indirect_indexed(mem),
            AddressingMode::Relative => self.get_relative(mem),
        }
    }

    /// Instructions that touch no memory beyond reading their operand.
    #[verifier::spinoff_prover]
    #[verifier::rlimit(100)]
    fn execute_register_op(&mut self, i: Instruction, crossed: bool, v: u8, op: u8) -> (r: u8)
        requires
            is_register_op(i),
        ensures
            (*final(self), r) == register_spec(*old(self), i, crossed, v, op),
    {
        let pen: u8 = if crossed { 1 } else { 0 };
        match i {
            Instruction::LDA => { self.reg_a = v; self.update_zn_flags(v); pen },
            Instruction::LDX => { self.reg_x = v; self.update_zn_flags(v); pen },
            Instruction::LDY => { self.reg_y = v; self.update_zn_flags(v); pen },
            Instruction::LAX => { self.reg_a = v; self.reg_x = v; self.update_zn_flags(v); pen },
            Instruction::TAX => { self.reg_x = self.reg_a; self.update_zn_flags(self.reg_a); 0 },
            Instruction::TAY => { self.reg_y = self.reg_a; self.update_zn_flags(self.reg_a); 0 },
            Instruction::TXA => { self.reg_a = self.reg_x; self.update_zn_flags(self.reg_x); 0 },
            Instruction::TYA => { self.reg_a = self.reg_y; self.update_zn_flags(self.reg_y); 0 },
            Instruction::TSX => { self.reg_x = self.reg_s; self.update_zn_flags(self.reg_s); 0 },
            Instruction::TXS => { self.reg_s = self.reg_x; 0 },
            Instruction::AND => {
                self.reg_a = self.reg_a & v;
                self.update_zn_flags(self.reg_a);
                pen
            },
            Instruction::EOR => {
                self.reg_a = self.reg_a ^ v;
                self.update_zn_flags(self.reg_a);
                pen
            },
            Instruction::ORA => {
                self.reg_a = self.reg_a | v;
                self.update_zn_flags(self.reg_a);
                pen
            },
            Instruction::BIT => {
                self.flag_zero = self.reg_a & v == 0;
                self.flag_overflow = v & 0x40 != 0;
                self.flag_negative = v & 0x80 != 0;
                0
            },
            Instruction::ADC | Instruction::SBC => {
                let (r, c, o) = if i == Instruction::ADC {
                    adc(self.reg_a, v, self.flag_carry)
                } else {
                    sbc(self.reg_a, v, self.flag_carry)
                };
                self.reg_a = r;
                self.flag_carry = c;
                self.flag_overflow = o;
                self.update_zn_flags(r);
                pen
            },
            Instruction::CMP | Instruction::CPX | Instruction::CPY => {
                let reg = if i == Instruction::CMP {
                    self.reg_a
                } else if i == Instruction::CPX {
                    self.reg_x
                } else {
                    self.reg_y
                };
                let (r, c) = compare(reg, v);
                self.flag_carry = c;
                self.update_zn_flags(r);
                pen
            },
            Instruction::INX => {
                self.reg_x = self.reg_x.wrapping_add(1);
                self.update_zn_flags(self.reg_x);
                0
            },
            Instruction::INY => {
                self.reg_y = self.reg_y.wrapping_add(1);
                self.update_zn_flags(self.reg_y);
                0
            },
            Instruction::DEX => {
                self.reg_x = self.reg_x.wrapping_sub(1);
                self.update_zn_flags(self.reg_x);
                0
            },
            Instruction::DEY => {
                self.reg_y = self.reg_y.wrapping_sub(1);
                self.update_zn_flags(self.reg_y);
                0
            },
            Instruction::CLC => { self.flag_carry = false; 0 },
            Instruction::CLD => { self.flag_decimal_mode = false; 0 },
            Instruction::CLI => { self.flag_interrupt_disable = false; 0 },
            Instruction::CLV => { self.flag_overflow = false; 0 },
            Instruction::SEC => { self.flag_carry = true; 0 },
            Instruction::SED => { self.flag_decimal_mode = true; 0 },
            Instruction::SEI => { self.flag_interrupt_disable = true; 0 },
            Instruction::NOP => pen,
            _ => {
                // Undefined opcode: run as a no-op and report it.
                self.illegal_opcode = Some(op);
                0
            },
        }
    }

    /// Stores and read-modify-write instructions.
    fn execute_memory_op<M: Memory>(
        &mut self,
        mem: &mut M,
        i: Instruction,
        mode: AddressingMode,
        addr: u16,
        v: u8,
    ) -> (r: u8)
        requires
            is_memory_op(i),
        ensures
            old(mem).inv() ==> final(mem).inv(),
            r == 0,
            *final(self) == memory_spec(*old(self), i, mode, addr, v).0,
            old(mem).plain() ==> final(mem).plain(),
            old(mem).plain() ==> forall|a: u16| #[trigger]
                final(mem).peek(a) == written(*old(mem), memory_spec(*old(self), i, mode, addr, v).1, a),
    {
        let w = self.modify(i, mode, v);
        match w {
            Some(b) => mem.write_u8(addr, b),
            None => {},
        }
        0
    }

    /// The register side of a store or read-modify-write; returns the byte to write.
    #[verifier::spinoff_prover]
    #[verifier::rlimit(100)]
    fn modify(&mut self, i: Instruction, mode: AddressingMode, v: u8) -> (r: Option<u8>)
        requires
            is_memory_op(i),
        ensures
            (*final(self), r) == rmw_spec(*old(self), i, mode, v),
    {
        match i {
            Instruction::STA => Some(self.reg_a),
            Instruction::STX => Some(self.reg_x),
            Instruction::STY => Some(self.reg_y),
            Instruction::SAX => Some(self.reg_a & self.reg_x),
            Instruction::INC => {
                let r = v.wrapping_add(1);
                self.update_zn_flags(r);
                Some(r)
            },
            Instruction::DEC => {
                let r = v.wrapping_sub(1);
                self.update_zn_flags(r);
                Some(r)
            },
            Instruction::ASL | Instruction::LSR | Instruction::ROL | Instruction::ROR => {
                let (r, cy) = self.shift_op(i, v);
                self.flag_carry = cy;
                self.update_zn_flags(r);
                if mode == AddressingMode::Accumulator {
                    self.reg_a = r;
                    None
                } else {
                    Some(r)
                }
            },
            Instruction::SLO | Instruction::RLA | Instruction::SRE => {
                let (r, cy) = self.shift_op(i, v);
                self.reg_a = if i == Instruction::SLO {
                    self.reg_a | r
                } else if i == Instruction::RLA {
                    self.reg_a & r
                } else {
                    self.reg_a ^ r
                };
                self.flag_carry = cy;
                self.update_zn_flags(self.reg_a);
                Some(r)
            },
            Instruction::RRA => {
                let (r, cy) = ror(v, self.flag_carry);
                let (a, c, o) = adc(self.reg_a, r, cy);
                self.reg_a = a;
                self.flag_carry = c;
                self.flag_overflow = o;
                self.update_zn_flags(a);
                Some(r)
            },
            Instruction::DCP => {
                let r = v.wrapping_sub(1);
                let (d, c) = compare(self.reg_a, r);
                self.flag_carry = c;
                self.update_zn_flags(d);
                Some(r)
            },
            _ => {
                let r = v.wrapping_add(1);
                let (a, c, o) = sbc(self.reg_a, r, self.flag_carry);
                self.reg_a = a;
                self.flag_carry = c;
                self.flag_overflow = o;
                self.update_zn_flags(a);
                Some(r)
            },
        }
    }

    fn shift_op(&self, i: Instruction, v: u8) -> (r: (u8, bool))
        ensures
            r == shifted(*self, i, v),
    {
        match i {
            Instruction::ASL | Instruction::SLO => asl(v),
            Instruction::LSR | Instruction::SRE => lsr(v),
            Instruction::ROL | Instruction::RLA => rol(v, self.flag_carry),
            _ => ror(v, self.flag_carry),
        }
    }

    #[verifier::spinoff_prover]
    #[verifier::rlimit(100)]
    fn push_addr<M: Memory>(&mut self, mem: &mut M, addr: u16)
        ensures
            old(mem).inv() ==> final(mem).inv(),
            *final(self) == (CPU { reg_s: wrap8(old(self).reg_s - 2), ..*old(self) }),
            old(mem).plain() ==> final(mem).plain(),
            old(mem).plain() ==> forall|a: u16| #[trigger]
                final(mem).peek(a) == written(
                    *old(mem),
                    map![
                        stack_addr(old(self).reg_s as int) => (addr / 256) as u8,
                        stack_addr(old(self).reg_s - 1) => (addr % 256) as u8
                    ],
                    a,
                ),
    {
        self.push_byte(mem, (addr / 256) as u8);
        self.push_byte(mem, (addr % 256) as u8);
    }

    #[verifier::spinoff_prover]
    #[verifier::rlimit(100)]
    fn pull_addr<M: Memory>(&mut self, mem: &mut M) -> (r: u16)
        ensures
            old(mem).inv() ==> final(mem).inv(),
            *final(self) == (CPU { reg_s: wrap8(old(self).reg_s + 2), ..*old(self) }),
            old(mem).plain() ==> r == word(
                old(mem).peek(stack_addr(old(self).reg_s + 1)),
                old(mem).peek(stack_addr(old(self).reg_s + 2)),
            ),
            old(mem).plain() ==> *final(mem) == *old(mem),
    {
        let lo = self.pull_byte(mem);
        let hi = self.pull_byte(mem);
        make_word(lo, hi)
    }

    /// Stack, jump, return, interrupt and branch instructions.
    fn execute_flow_op<M: Memory>(&mut self, mem: &mut M, i: Instruction, addr: u16, crossed: bool) -> (r: u8)
        requires
            !is_register_op(i),
            !is_memory_op(i),
        ensures
            old(mem).inv() ==> final(mem).inv(),
            flow_post(*old(self), *final(self), *old(mem), *final(mem), i, addr, crossed, r),
    {
        match i {
            Instruction::PHA | Instruction::PHP => self.exec_push(mem, i),
            Instruction::PLA | Instruction::PLP => self.exec_pull(mem, i),
            Instruction::JSR => self.exec_jsr(mem, addr),
            Instruction::RTS => self.exec_rts(mem),
            Instruction::RTI => self.exec_rti(mem),
            Instruction::BRK => self.exec_brk(mem),
            _ => self.exec_jump(mem, i, addr, crossed),
        }
    }

    #[verifier::spinoff_prover]
    #[verifier::rlimit(100)]
    fn exec_push<M: Memory>(&mut self, mem: &mut M, i: Instruction) -> (r: u8)
        requires
            i == Instruction::PHA || i == Instruction::PHP,
        ensures
            old(mem).inv() ==> final(mem).inv(),
            flow_post(*old(self), *final(self), *old(mem), *final(mem), i, 0, false, r),
    {
        let b = if i == Instruction::PHA {
            self.reg_a
        } else {
            self.pack_flags() | FLAG_B
        };
        self.push_byte(mem, b);
        0
    }

    #[verifier::spinoff_prover]
    #[verifier::rlimit(100)]
    fn exec_pull<M: Memory>(&mut self, mem: &mut M, i: Instruction) -> (r: u8)
        requires
            i == Instruction::PLA || i == Instruction::PLP,
        ensures
            old(mem).inv() ==> final(mem).inv(),
            flow_post(*old(self), *final(self), *old(mem), *final(mem), i, 0, false, r),
    {
        let b = self.pull_byte(mem);
        if i == Instruction::PLA {
            self.reg_a = b;
            self.update_zn_flags(b);
        } else {
            self.unpack_flags(b);
        }
        0
    }

    #[verifier::spinoff_prover]
    #[verifier::rlimit(100)]
    fn exec_jsr<M: Memory>(&mut self, mem: &mut M, addr: u16) -> (r: u8)
        ensures
            old(mem).inv() ==> final(mem).inv(),
            flow_post(*old(self), *final(self), *old(mem), *final(mem), Instruction::JSR, addr, false, r),
    {
        let ret = self.pc.wrapping_sub(1);
        self.push_addr(mem, ret);
        self.pc = addr;
        0
    }

    #[verifier::spinoff_prover]
    #[verifier::rlimit(100)]
    fn exec_rts<M: Memory>(&mut self, mem: &mut M) -> (r: u8)
        ensures
            old(mem).inv() ==> final(mem).inv(),
            flow_post(*old(self), *final(self), *old(mem), *final(mem), Instruction::RTS, 0, false, r),
    {
        let ret = self.pull_addr(mem);
        self.pc = ret.wrapping_add(1);
        0
    }

    #[verifier::spinoff_prover]
    #[verifier::rlimit(100)]
    fn exec_rti<M: Memory>(&mut self, mem: &mut M) -> (r: u8)
        ensures
            old(mem).inv() ==> final(mem).inv(),
            flow_post(*old(self), *final(self), *old(mem), *final(mem), Instruction::RTI, 0, false, r),
    {
        let ghost s0 = self.reg_s as int;
        let p = self.pull_byte(mem);
        assert(stack_addr(wrap8(s0 + 1) + 1) == stack_addr(s0 + 2));
        assert(stack_addr(wrap8(s0 + 1) + 2) == stack_addr(s0 + 3));
        assert(wrap8(wrap8(s0 + 1) + 2) == wrap8(s0 + 3));
        self.unpack_flags(p);
        self.pc = self.pull_addr(mem);
        0
    }

    #[verifier::spinoff_prover]
    #[verifier::rlimit(100)]
    fn exec_brk<M: Memory>(&mut self, mem: &mut M) -> (r: u8)
        ensures
            old(mem).inv() ==> final(mem).inv(),
            flow_post(*old(self), *final(self), *old(mem), *final(mem), Instruction::BRK, 0, false, r),
    {
        // The vector is fetched first; the pushes go to the stack page only.
        let target = read_u16(mem, 0xfffe);
        let p = self.pack_flags() | FLAG_B;
        self.push_addr(mem, self.pc);
        self.push_byte(mem, p);
        self.flag_interrupt_disable = true;
        self.pc = target;
        0
    }

    #[verifier::spinoff_prover]
    #[verifier::rlimit(100)]
    fn exec_jump<M: Memory>(&mut self, mem: &mut M, i: Instruction, addr: u16, crossed: bool) -> (r: u8)
        requires
            i == Instruction::JMP || is_branch(i),
        ensures
            old(mem).inv() ==> final(mem).inv(),
            flow_post(*old(self), *final(self), *old(mem), *final(mem), i, addr, crossed, r),
    {
        if i == Instruction::JMP {
            self.pc = addr;
            0
        } else if self.branch_condition(i) {
            self.pc = addr;
            if crossed {
                2
            } else {
                1
            }
        } else {
            0
        }
    }

    fn branch_condition(&self, i: Instruction) -> (r: bool)
        ensures
            r == branch_taken(*self, i),
    {
        match i {
            Instruction::BCC => !self.flag_carry,
            Instruction::BCS => self.flag_carry,
            Instruction::BEQ => self.flag_zero,
            Instruction::BNE => !self.flag_zero,
            Instruction::BMI => self.flag_negative,
            Instruction::BPL => !self.flag_negative,
            Instruction::BVS => self.flag_overflow,
            Instruction::BVC => !self.flag_overflow,
            _ => false,
        }
    }

    /// The register side of entering an interrupt handler at `target`:
    /// returns the bytes to push at S, S-1 and S-2 (PC high, PC low, status
    /// with B clear).
    pub fn enter_interrupt(&mut self, target: u16) -> (r: (u8, u8, u8))
        ensures
            *final(self) == (CPU {
                pc: target,
                reg_s: wrap8(old(self).reg_s - 3),
                flag_interrupt_disable: true,
                ..*old(self)
            }),
            r == ((old(self).pc / 256) as u8, (old(self).pc % 256) as u8, pack_spec(*old(self)) & 0xef),
    {
        let p = self.pack_flags() & 0xef;
        let r = ((self.pc / 256) as u8, (self.pc % 256) as u8, p);
        self.reg_s = self.reg_s.wrapping_sub(3);
        self.flag_interrupt_disable = true;
        self.pc = target;
        r
    }

    /// Enters an interrupt handler through `vector` ($FFFA for NMI, $FFFE
    /// for IRQ); takes 7 cycles.
    #[verifier::spinoff_prover]
    #[verifier::rlimit(100)]
    pub fn execute_interrupt<M: Memory>(&mut self, mem: &mut M, vector: u16) -> (r: u8)
        ensures
            old(mem).inv() ==> final(mem).inv(),
            r == 7,
            final(self).reg_a == old(self).reg_a,
            final(self).reg_x == old(self).reg_x,
            final(self).reg_y == old(self).reg_y,
            final(self).flag_interrupt_disable,
            old(mem).plain() ==> ({
                let (c, w) = interrupt_spec(*old(self), *old(mem), vector);
                &&& *final(self) == c
                &&& final(mem).plain()
                &&& forall|a: u16| #[trigger] final(mem).peek(a) == written(*old(mem), w, a)
            }),
    {
        let target = read_u16(mem, vector);
        let p = self.pack_flags() & 0xef;
        self.push_addr(mem, self.pc);
        self.push_byte(mem, p);
        self.flag_interrupt_disable = true;
        self.pc = target;
        7
    }

    /// A non-maskable interrupt.
    pub fn nmi<M: Memory>(&mut self, mem: &mut M) -> (r: u8)
        ensures
            old(mem).inv() ==> final(mem).inv(),
            r == 7,
            final(self).flag_interrupt_disable,
            old(mem).plain() ==> *final(self) == interrupt_spec(*old(self), *old(mem), 0xfffa).0,
    {
        self.execute_interrupt(mem, 0xfffa)
    }

    /// A maskable interrupt request: ignored (0 cycles) while I is set.
    pub fn irq<M: Memory>(&mut self, mem: &mut M) -> (r: u8)
        ensures
            old(mem).inv() ==> final(mem).inv(),
            old(self).flag_interrupt_disable ==> r == 0 && *final(self) == *old(self),
            !old(self).flag_interrupt_disable ==> r == 7,
            !old(self).flag_interrupt_disable && old(mem).plain() ==> *final(self)
                == interrupt_spec(*old(self), *old(mem), 0xfffe).0,
    {
        if self.flag_interrupt_disable {
            0
        } else {
            self.execute_interrupt(mem, 0xfffe)
        }
    }

    /// Performs a decoded instruction; returns its extra cycles.
    #[verifier::spinoff_prover]
    #[verifier::rlimit(100)]
    fn execute<M: Memory>(
        &mut self,
        mem: &mut M,
        i: Instruction,
        mode: AddressingMode,
        addr: u16,
        crossed: bool,
        v: u8,
        op: u8,
    ) -> (r: u8)
        ensures
            old(mem).inv() ==> final(mem).inv(),
            r <= 2,
            keeps(*old(self), *final(self), i),
            !changes_pc(i) ==> final(self).pc == old(self).pc,
            old(mem).plain() ==> ({
                let (c, e, w) = execute_spec(*old(self), *old(mem), i, mode, addr, crossed, v, op);
                &&& *final(self) == c
                &&& r == e
                &&& final(mem).plain()
                &&& forall|a: u16| #[trigger] final(mem).peek(a) == written(*old(mem), w, a)
            }),
    {
        reveal(execute_spec);
        if register_op(i) {
            proof {
                lemma_register_keeps(*self, i, crossed, v, op);
            }
            self.execute_register_op(i, crossed, v, op)
        } else if memory_op(i) {
            proof {
                lemma_memory_keeps(*self, i, mode, addr, v);
            }
            self.execute_memory_op(mem, i, mode, addr, v)
        } else {
            let ghost c0 = *self;
            let ghost m0 = *mem;
            let r = self.execute_flow_op(mem, i, addr, crossed);
            proof {
                lemma_flow_keeps(c0, *self, m0, *mem, i, addr, crossed, r);
            }
            r
        }
    }

    /// Executes one instruction and returns the cycles it took.
    ///
    /// On any memory it changes only the registers and flags in the
    /// instruction's masks, and moves PC past the instruction unless it is a
    /// jump, branch, call, return or interrupt. On a plain memory it does
    /// exactly what `step` says.
    #[verifier::spinoff_prover]
    #[verifier::rlimit(100)]
    pub fn run_one<M: Memory>(&mut self, mem: &mut M) -> (r: u8)
        ensures
            2 <= r <= 10,
            old(mem).inv() ==> final(mem).inv(),
            frame(*old(self), *final(self), info_spec(old(mem).peek(old(self).pc))),
            old(mem).plain() ==> ({
                let (c, cy, w) = step(*old(self), *old(mem));
                &&& *final(self) == c
                &&& r == cy
                &&& final(mem).plain()
                &&& forall|a: u16| #[trigger] final(mem).peek(a) == written(*old(mem), w, a)
            }),
    {
        let ghost c0 = *self;
        let ghost m0 = *mem;
        let op = mem.read_u8(self.pc);
        let inf = info(op);
        self.pc = self.pc.wrapping_add(1);
        let (addr, crossed) = self.get_address(inf.addressing, mem);
        let v = if inf.addressing == AddressingMode::Accumulator {
            self.reg_a
        } else if reads_operand(inf.insn) && inf.addressing != AddressingMode::Implicit {
            mem.read_u8(addr)
        } else {
            0
        };
        let ghost c1 = *self;
        assert(c1 == CPU { pc: wrap16(c0.pc + inf.bytes), ..c0 });
        let extra = self.execute(mem, inf.insn, inf.addressing, addr, crossed, v, op);
        inf.cycles + extra
    }
}

fn reads_operand(i: Instruction) -> (r: bool)
    ensures
        r == uses_value(i),
{
    matches!(i, Instruction::LDA | Instruction::LDX | Instruction::LDY | Instruction::LAX
        | Instruction::AND | Instruction::EOR | Instruction::ORA | Instruction::BIT
        | Instruction::ADC | Instruction::SBC | Instruction::CMP | Instruction::CPX
        | Instruction::CPY | Instruction::INC | Instruction::DEC | Instruction::ASL
        | Instruction::LSR | Instruction::ROL | Instruction::ROR | Instruction::SLO
        | Instruction::RLA | Instruction::SRE | Instruction::RRA | Instruction::DCP
        | Instruction::ISB)
}

fn register_op(i: Instruction) -> (r: bool)
    ensures
        r == is_register_op(i),
{
    matches!(i, Instruction::LDA | Instruction::LDX | Instruction::LDY | Instruction::LAX
        | Instruction::TAX | Instruction::TAY | Instruction::TXA | Instruction::TYA
        | Instruction::TSX | Instruction::TXS | Instruction::AND | Instruction::EOR
        | Instruction::ORA | Instruction::BIT | Instruction::ADC | Instruction::SBC
        | Instruction::CMP | Instruction::CPX | Instruction::CPY | Instruction::INX
        | Instruction::INY | Instruction::DEX | Instruction::DEY | Instruction::CLC
        | Instruction::CLD | Instruction::CLI | Instruction::CLV | Instruction::SEC
        | Instruction::SED | Instruction::SEI | Instruction::NOP | Instruction::ILL)
}

fn memory_op(i: Instruction) -> (r: bool)
    ensures
        r == is_memory_op(i),
{
    matches!(i, Instruction::STA | Instruction::STX | Instruction::STY | Instruction::SAX
        | Instruction::INC | Instruction::DEC | Instruction::ASL | Instruction::LSR
        | Instruction::ROL | Instruction::ROR | Instruction::SLO | Instruction::RLA
        | Instruction::SRE | Instruction::RRA | Instruction::DCP | Instruction::ISB)
}

/// Register-only instructions stay within their masks, keep PC and add at
/// most one cycle.
#[verifier::spinoff_prover]
#[verifier::rlimit(100)]
pub proof fn lemma_register_keeps(c: CPU, i: Instruction, crossed: bool, v: u8, op: u8)
    requires
        is_register_op(i),
    ensures
        keeps(c, register_spec(c, i, crossed, v, op).0, i),
        register_spec(c, i, crossed, v, op).0.pc == c.pc,
        register_spec(c, i, crossed, v, op).1 <= 1,
{
}

/// Stack, jump and branch instructions stay within their masks.
#[verifier::spinoff_prover]
#[verifier::rlimit(100)]
pub proof fn lemma_flow_keeps<M: Memory>(
    o: CPU,
    n: CPU,
    om: M,
    nm: M,
    i: Instruction,
    addr: u16,
    crossed: bool,
    r: u8,
)
    requires
        !is_register_op(i),
        !is_memory_op(i),
        flow_post(o, n, om, nm, i, addr, crossed, r),
    ensures
        keeps(o, n, i),
        !changes_pc(i) ==> n.pc == o.pc,
{
}

/// Stores and read-modify-write instructions stay within their masks and keep PC.
#[verifier::spinoff_prover]
#[verifier::rlimit(100)]
pub proof fn lemma_memory_keeps(c: CPU, i: Instruction, mode: AddressingMode, addr: u16, v: u8)
    requires
        is_memory_op(i),
    ensures
        keeps(c, memory_spec(c, i, mode, addr, v).0, i),
        memory_spec(c, i, mode, addr, v).0.pc == c.pc,
{
}

/// Every branch opcode is a 2-cycle relative instruction.
pub proof fn lemma_branch_entries(op: u8)
    requires
        is_branch(info_spec(op).insn),
    ensures
        info_spec(op).addressing == AddressingMode::Relative,
        info_spec(op).cycles == 2,
{
    reveal(crate::rp2a03::opcode_entry);
}

/// Branch timing: 2 cycles when not taken, 3 when taken within the page of
/// the next instruction, 4 when taken across a page.
#[verifier::spinoff_prover]
#[verifier::rlimit(100)]
pub proof fn lemma_branch_cycles<M: Memory>(c: CPU, m: M)
    requires
        is_branch(info_spec(m.peek(c.pc)).insn),
    ensures
        ({
            let i = info_spec(m.peek(c.pc)).insn;
            let next = wrap16(c.pc + 2);
            let target = wrap16(next + crate::alu::signed(m.peek(wrap16(c.pc + 1))));
            step(c, m).1 == if !branch_taken(c, i) {
                2u8
            } else if next / 256 == target / 256 {
                3u8
            } else {
                4u8
            }
        }),
        step(c, m).0.pc == if branch_taken(c, info_spec(m.peek(c.pc)).insn) {
            wrap16(wrap16(c.pc + 2) + crate::alu::signed(m.peek(wrap16(c.pc + 1))))
        } else {
            wrap16(c.pc + 2)
        },
{
    let op = m.peek(c.pc);
    lemma_branch_entries(op);
    let inf = info_spec(op);
    let i = inf.insn;
    assert(!is_register_op(i) && !is_memory_op(i));
    let c1 = CPU { pc: wrap16(c.pc + 1), ..c };
    let (addr, crossed) = operand(c1, m, AddressingMode::Relative);
    assert(wrap16(wrap16(c.pc + 1) + 1) == wrap16(c.pc + 2));
    let next = CPU { pc: wrap16(c.pc + 2), ..c };
    assert(branch_taken(next, i) == branch_taken(c, i));
    reveal(execute_spec);
    assert(execute_spec(next, m, i, AddressingMode::Relative, addr, crossed, 0, op) == flow_spec(
        next,
        m,
        i,
        addr,
        crossed,
    ));
}

/// JMP ($xxFF) takes the high byte of its target from $xx00, on the same page
/// as the low byte, not from the next page.
pub proof fn lemma_indirect_jmp_page_wrap<M: Memory>(c: CPU, m: M)
    requires
        m.peek(c.pc) == 0xff,
    ensures
        operand(c, m, AddressingMode::Indirect).0 == word(
            m.peek(word(0xff, m.peek(wrap16(c.pc + 1)))),
            m.peek(word(0x00, m.peek(wrap16(c.pc + 1)))),
        ),
{
}

} // verus!
