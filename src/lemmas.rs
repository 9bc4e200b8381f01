//! Facts about the instruction semantics, stated over the model of
//! `semantics` that the methods of `CPU` are proved against.
use vstd::prelude::*;
use crate::flags::{C_FLAG, N_FLAG, V_FLAG, Z_FLAG};
use crate::mode::AddressingMode;
use crate::semantics::{
    add_spec, add_status, carry_out, lda_spec, lda_status, reset_spec, signed_overflow,
    wrapping_sum, CpuView,
};

verus! {

/// Bits of `lda_status`: Z from zero, N from bit 7, V cleared, the rest kept.
proof fn lemma_lda_status_bits(status: u8, v: u8)
    by (bit_vector)
    ensures
        (lda_status(status, v) & Z_FLAG != 0) == (v == 0),
        (lda_status(status, v) & N_FLAG != 0) == (v >> 7 == 1),
        lda_status(status, v) & V_FLAG == 0,
        lda_status(status, v) & C_FLAG == status & C_FLAG,
        lda_status(status, v) & 0xF0 == status & 0xF0,
{
}

/// Bits of `add_status`: C and V from the bit-7 identities, Z and N from the
/// sum, the rest kept.
proof fn lemma_add_status_bits(status: u8, a: u8, m: u8, r: u8)
    by (bit_vector)
    requires
        r == wrapping_sum(a, m),
    ensures
        (add_status(status, a, m) & C_FLAG != 0) == carry_out(a, m, r),
        (add_status(status, a, m) & V_FLAG != 0) == signed_overflow(a, m, r),
        (add_status(status, a, m) & Z_FLAG != 0) == (r == 0),
        (add_status(status, a, m) & N_FLAG != 0) == (r >> 7 == 1),
        add_status(status, a, m) & 0xF0 == status & 0xF0,
{
}

/// The carry identity holds exactly when the unsigned sum exceeds a byte.
proof fn lemma_carry_out_meaning(a: u8, m: u8, r: u8)
    by (bit_vector)
    requires
        r == wrapping_sum(a, m),
    ensures
        carry_out(a, m, r) == (a + m > 255),
{
}

/// The overflow identity holds exactly when the sum of the operands read as
/// signed bytes leaves the range of a signed byte.
proof fn lemma_signed_overflow_meaning(a: u8, m: u8, r: u8)
    by (bit_vector)
    requires
        r == wrapping_sum(a, m),
    ensures
        signed_overflow(a, m, r) == ((a as i8) + (m as i8) > 127 || (a as i8) + (m as i8) < -128),
{
}

/// LDA with an immediate operand `v` leaves `v` in the accumulator, sets Z
/// exactly when `v` is zero and N exactly when its bit 7 is set, clears V,
/// and keeps C and the upper four flags.
pub proof fn lemma_lda_immediate(s: CpuView, v: u8)
    requires
        s.wf(),
        s.read(s.program_counter) == v,
    ensures
        lda_spec(s, AddressingMode::Immediate) is Ok,
        ({
            let t = lda_spec(s, AddressingMode::Immediate)->Ok_0;
            &&& t.register_a == v
            &&& (t.status & Z_FLAG != 0) == (v == 0)
            &&& (t.status & N_FLAG != 0) == (v >> 7 == 1)
            &&& t.status & V_FLAG == 0
            &&& t.status & C_FLAG == s.status & C_FLAG
            &&& t.status & 0xF0 == s.status & 0xF0
        }),
{
    lemma_lda_status_bits(s.status, v);
}

/// ADD with an immediate operand `m` to an accumulator holding `a` leaves
/// `(a + m) mod 256`, sets C and V by the bit-7 identities (C exactly when
/// the unsigned sum exceeds 255, V exactly when the signed sum leaves
/// -128..=127), Z and N from the sum, and keeps the upper four flags.
pub proof fn lemma_add_immediate(s: CpuView, m: u8)
    requires
        s.wf(),
        s.read(s.program_counter) == m,
    ensures
        add_spec(s, AddressingMode::Immediate) is Ok,
        ({
            let a = s.register_a;
            let t = add_spec(s, AddressingMode::Immediate)->Ok_0;
            let r = t.register_a;
            &&& r == (a + m) % 256
            &&& (t.status & C_FLAG != 0) == carry_out(a, m, r)
            &&& (t.status & V_FLAG != 0) == signed_overflow(a, m, r)
            &&& (t.status & C_FLAG != 0) == (a + m > 255)
            &&& (t.status & V_FLAG != 0) == ((a as i8) + (m as i8) > 127 || (a as i8) + (m as i8)
                < -128)
            &&& (t.status & Z_FLAG != 0) == (r == 0)
            &&& (t.status & N_FLAG != 0) == (r >> 7 == 1)
            &&& t.status & 0xF0 == s.status & 0xF0
        }),
{
    let a = s.register_a;
    let r = wrapping_sum(a, m);
    lemma_add_status_bits(s.status, a, m, r);
    lemma_carry_out_meaning(a, m, r);
    lemma_signed_overflow_meaning(a, m, r);
}

/// Resetting twice gives the same state as resetting once.
pub proof fn lemma_reset_idempotent(s: CpuView)
    ensures
        reset_spec(reset_spec(s)) == reset_spec(s),
{
}

} // verus!
