use vstd::prelude::*;

verus! {

/// The 8-bit two's-complement reading of a byte.
pub open spec fn signed(b: u8) -> int {
    if b >= 128 {
        b as int - 256
    } else {
        b as int
    }
}

/// ADC: `sum = a + m + c`; result byte, carry out, signed overflow.
pub open spec fn adc_spec(a: u8, m: u8, c: bool) -> (u8, bool, bool) {
    let sum = a as int + m as int + if c { 1int } else { 0 };
    let r = (sum % 256) as u8;
    (r, sum > 255, ((a ^ r) & (m ^ r) & 0x80) != 0)
}

/// SBC: `a - m - (1 - c)`; result byte, carry (no borrow), signed overflow.
pub open spec fn sbc_spec(a: u8, m: u8, c: bool) -> (u8, bool, bool) {
    let diff = a as int - m as int - if c { 0int } else { 1 };
    let r = (diff % 256) as u8;
    (r, diff >= 0, ((a ^ r) & (!m ^ r) & 0x80) != 0)
}

/// Compare: the wrapped difference `reg - m` (for Z and N) and C = `reg >= m`.
pub open spec fn cmp_spec(reg: u8, m: u8) -> (u8, bool) {
    (((reg as int - m as int) % 256) as u8, reg >= m)
}

/// Shift left: result and the bit shifted out.
pub open spec fn asl_spec(v: u8) -> (u8, bool) {
    (((v as int * 2) % 256) as u8, v >= 0x80)
}

/// Logical shift right: result and the bit shifted out.
pub open spec fn lsr_spec(v: u8) -> (u8, bool) {
    ((v / 2) as u8, v % 2 == 1)
}

/// Rotate left through carry.
pub open spec fn rol_spec(v: u8, c: bool) -> (u8, bool) {
    (((v as int * 2) % 256 + if c { 1int } else { 0 }) as u8, v >= 0x80)
}

/// Rotate right through carry.
pub open spec fn ror_spec(v: u8, c: bool) -> (u8, bool) {
    ((v / 2 + if c { 128int } else { 0 }) as u8, v % 2 == 1)
}

pub fn adc(a: u8, m: u8, c: bool) -> (r: (u8, bool, bool))
    ensures
        r == adc_spec(a, m, c),
{
    let sum: u16 = a as u16 + m as u16 + if c { 1u16 } else { 0u16 };
    let r = (sum % 256) as u8;
    (r, sum > 255, ((a ^ r) & (m ^ r) & 0x80) != 0)
}

/// SBC is ADC of the complemented operand.
pub fn sbc(a: u8, m: u8, c: bool) -> (r: (u8, bool, bool))
    ensures
        r == sbc_spec(a, m, c),
{
    proof {
        lemma_sbc_is_adc_of_complement(a, m, c);
    }
    adc(a, !m, c)
}

pub fn compare(reg: u8, m: u8) -> (r: (u8, bool))
    ensures
        r == cmp_spec(reg, m),
{
    (reg.wrapping_sub(m), reg >= m)
}

pub fn asl(v: u8) -> (r: (u8, bool))
    ensures
        r == asl_spec(v),
{
    (((v as u16 * 2) % 256) as u8, v >= 0x80)
}

pub fn lsr(v: u8) -> (r: (u8, bool))
    ensures
        r == lsr_spec(v),
{
    (v / 2, v % 2 == 1)
}

pub fn rol(v: u8, c: bool) -> (r: (u8, bool))
    ensures
        r == rol_spec(v, c),
{
    (((v as u16 * 2) % 256 + if c { 1u16 } else { 0u16 }) as u8, v >= 0x80)
}

pub fn ror(v: u8, c: bool) -> (r: (u8, bool))
    ensures
        r == ror_spec(v, c),
{
    (v / 2 + if c { 128u8 } else { 0u8 }, v % 2 == 1)
}

proof fn lemma_not_u8(m: u8)
    ensures
        (!m) as int == 255 - m as int,
{
    assert((!m) as int == 255 - m as int) by (bit_vector);
}

/// SBC(a, m, c) and ADC(a, !m, c) agree on the result byte and on every flag.
pub proof fn lemma_sbc_is_adc_of_complement(a: u8, m: u8, c: bool)
    ensures
        sbc_spec(a, m, c) == adc_spec(a, !m, c),
{
    lemma_not_u8(m);
    let cv: int = if c { 1 } else { 0 };
    let diff = a as int - m as int - (1 - cv);
    let sum = a as int + (!m) as int + cv;
    assert(sum == diff + 256);
    assert(sum % 256 == diff % 256);
    assert((sum > 255) == (diff >= 0));
}

/// ADC's V flag is set exactly when the signed sum leaves [-128, 127].
pub proof fn lemma_adc_overflow_is_signed_overflow(a: u8, m: u8, c: bool)
    ensures
        adc_spec(a, m, c).2 == {
            let s = signed(a) + signed(m) + if c { 1int } else { 0 };
            s < -128 || s > 127
        },
{
    let cv: u16 = if c { 1 } else { 0 };
    let r = adc_spec(a, m, c).0;
    assert(r as u16 == (a as u16 + m as u16 + cv) % 256);
    assert(cv <= 1 && r as u16 == (a as u16 + m as u16 + cv) % 256 ==> ((((a ^ r) & (m ^ r) & 0x80)
        != 0) == (((a < 128) == (m < 128)) && ((r < 128) != (a < 128))))) by (bit_vector);
}

} // verus!
