//! The carry computation that the flag-setting instructions share.
use vstd::prelude::*;

use crate::cpu::Cpu;
use crate::state::{wrap16, wrap8};

verus! {

/// Bit `p` of `a ^ b ^ r`, where `r` agrees with `a + b` on the bits up to `p`, is the carry
/// out of the `p` low bits of `a + b`.
#[verifier::rlimit(100)]
proof fn lemma_xor_carry(a: u16, b: u16, r: u16, p: u16)
    requires
        p < 16,
        r == wrap16(a + b) || (p < 8 && r % 256 == wrap8(a + b)),
    ensures
        ((a ^ b ^ r) & (1u16 << p) != 0u16) == (a % (1u16 << p) + b % (1u16 << p) >= (1u16 << p)),
{
    assert(((a ^ b ^ r) & (1u16 << p) != 0u16) == ((a % (1u16 << p)) + (b % (1u16 << p)) >= (1u16
        << p))) by (bit_vector)
        requires
            r == ((a + b) % 65536) as u16 || (p < 8u16 && r % 256 == (a + b) % 256),
            p < 16u16,
    ;
}

/// Bit `p` of `a ^ b ^ r`, where `r` agrees with `a - b` on the bits up to `p`, is the borrow
/// out of the `p` low bits of `a - b`.
#[verifier::rlimit(100)]
proof fn lemma_xor_borrow(a: u16, b: u16, r: u16, p: u16)
    requires
        p < 16,
        r == wrap16(a - b) || (p < 8 && r % 256 == wrap8(a - b)),
    ensures
        ((a ^ b ^ r) & (1u16 << p) != 0u16) == (a % (1u16 << p) < b % (1u16 << p)),
{
    if r == wrap16(a - b) {
        assert(a == ((r + b) % 65536) as u16);
    } else {
        assert(a % 256 == (r + b) % 256);
    }
    assert(((a ^ b ^ r) & (1u16 << p) != 0u16) == ((a % (1u16 << p)) < (b % (1u16 << p))))
        by (bit_vector)
        requires
            a == ((r + b) % 65536) as u16 || (p < 8u16 && a % 256 == (r + b) % 256),
            p < 16u16,
    ;
}

/// The bit weights that the instructions use: bits 4, 8 and 12.
pub proof fn lemma_carry_weights()
    ensures
        1u16 << 4u8 == 16,
        1u16 << 8u8 == 256,
        1u16 << 12u8 == 4096,
{
    assert(1u16 << 4u8 == 16 && 1u16 << 8u8 == 256 && 1u16 << 12u8 == 4096) by (bit_vector);
}

impl Cpu {
    /// Whether bit `position` of `operand1 ^ operand2 ^ result` is set.
    ///
    /// When `result` is the sum `operand1 + operand2` (modulo 2^16, or modulo 2^8 for a position
    /// below 8), this is the carry into bit `position` (the carry out of the bits below it); when
    /// it is the difference `operand1 - operand2`, it is the borrow into that bit. Both readings
    /// are in the contract.
    pub fn compute_carry_flag(operand1: u16, operand2: u16, result: u16, carry_position: u8) -> (carry:
        bool)
        requires
            carry_position < 16,
        ensures
            carry == ((operand1 ^ operand2 ^ result) & (1u16 << carry_position) != 0),
            result == wrap16(operand1 + operand2) || (carry_position < 8 && result % 256 == wrap8(
                operand1 + operand2,
            )) ==> carry == (operand1 % (1u16 << carry_position) + operand2 % (1u16 << carry_position)
                >= (1u16 << carry_position)),
            result == wrap16(operand1 - operand2) || (carry_position < 8 && result % 256 == wrap8(
                operand1 - operand2,
            )) ==> carry == (operand1 % (1u16 << carry_position) < operand2 % (1u16
                << carry_position)),
    {
        let carry = (operand1 ^ operand2 ^ result) & (1u16 << carry_position) > 0;
        proof {
            let p = carry_position as u16;
            assert(1u16 << carry_position == 1u16 << p) by (bit_vector)
                requires
                    p == carry_position as u16,
                    carry_position < 16u8,
            ;
            if result == wrap16(operand1 + operand2) || (carry_position < 8 && result % 256 == wrap8(
                operand1 + operand2,
            )) {
                lemma_xor_carry(operand1, operand2, result, p);
            }
            if result == wrap16(operand1 - operand2) || (carry_position < 8 && result % 256 == wrap8(
                operand1 - operand2,
            )) {
                lemma_xor_borrow(operand1, operand2, result, p);
            }
        }
        carry
    }

}

} // verus!
