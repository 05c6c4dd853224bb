//! What each instruction does to the processor state.
//!
//! Each function takes the state in which the instruction starts (its bytes already in memory
//! at the program counter) and gives the state after it. Except for the jumps, calls, restarts
//! and returns, the program counter first moves past the instruction, and the instruction then
//! acts on that state.
use vstd::prelude::*;

use crate::registers::{Flag, Reg16, Reg8};
use crate::state::{signed8, wrap16, wrap8, CpuState};

verus! {

/// Where an instruction reads or writes its 8-bit operand: a register, or the byte that
/// `HL` points at.
#[derive(Copy, Clone, Debug, PartialEq, Eq, Structural)]
pub enum Target8 {
    Reg(Reg8),
    IndirectHL,
}

/// The second operand of an 8-bit arithmetic or logic instruction.
#[derive(Copy, Clone, Debug, PartialEq, Eq, Structural)]
pub enum Source8 {
    Reg(Reg8),
    IndirectHL,
    Immediate(u8),
}

/// The 8-bit arithmetic and logic operations on `A`.
#[derive(Copy, Clone, Debug, PartialEq, Eq, Structural)]
pub enum AluOp {
    Add,
    Adc,
    Sub,
    Sbc,
    And,
    Xor,
    Or,
    Cp,
}

/// The rotations and shifts of the `0xCB` prefix.
#[derive(Copy, Clone, Debug, PartialEq, Eq, Structural)]
pub enum ShiftOp {
    Rlc,
    Rrc,
    Rl,
    Rr,
    Sla,
    Sra,
    Swap,
    Srl,
}

/// The instructions that the processor executes.
#[derive(Copy, Clone)]
pub enum Instruction {
    LdRN(Reg8, u8),
    LdRR(Reg8, Reg8),
    LdRIrr(Reg8, Reg16),
    LdIrrR(Reg16, Reg8),
    LdIhlN(u8),
    LdAInn(u16),
    LdInnA(u16),
    LdAIc,
    LdIcA,
    LddAIhl,
    LddIhlA,
    LdiAIhl,
    LdiIhlA,
    LdhInA(u8),
    LdhAIn(u8),
    LdRrNn(Reg16, u16),
    LdSpHl,
    LdhlSpN(u8),
    LdInnSp(u16),
    Push(Reg16),
    Pop(Reg16),
    PopAf,
    Alu(AluOp, Source8),
    Inc(Target8),
    Dec(Target8),
    AddHlRr(Reg16),
    AddSpN(u8),
    IncRr(Reg16),
    DecRr(Reg16),
    Daa,
    Cpl,
    Ccf,
    Scf,
    Nop,
    Rlca,
    Rla,
    Rrca,
    Rra,
    Shift(ShiftOp, Target8),
    TestBit(u8, Target8),
    SetBit(u8, Target8),
    ResetBit(u8, Target8),
    JpNn(u16),
    JpCcNn(Flag, bool, u16),
    JpIhl,
    JrN(u8),
    JrCcN(Flag, bool, u8),
    CallNn(u16),
    CallCcNn(Flag, bool, u16),
    Rst,
    Ret,
    RetCc(Flag, bool),
}

impl CpuState {
    pub open spec fn target(self, target: Target8) -> u8 {
        match target {
            Target8::Reg(r) => self.reg8(r),
            Target8::IndirectHL => self.byte(self.hl() as int),
        }
    }

    pub open spec fn with_target(self, target: Target8, value: u8) -> CpuState {
        match target {
            Target8::Reg(r) => self.with_reg8(r, value),
            Target8::IndirectHL => self.with_byte(self.hl() as int, value),
        }
    }

    pub open spec fn source(self, source: Source8) -> u8 {
        match source {
            Source8::Reg(r) => self.reg8(r),
            Source8::IndirectHL => self.byte(self.hl() as int),
            Source8::Immediate(n) => n,
        }
    }

    /// Whether the flag holds the expected value (the condition of a conditional jump).
    pub open spec fn condition(self, flag: Flag, expected: bool) -> bool {
        self.flag(flag) == expected
    }
}

/// The carry out of bit 3 of `x + y`.
pub open spec fn half_carry(x: int, y: int) -> bool {
    x % 16 + y % 16 >= 16
}

/// The borrow into bit 4 of `x - y`.
pub open spec fn half_borrow(x: int, y: int) -> bool {
    x % 16 < y % 16
}

/// The value of the carry flag as a number.
pub open spec fn carry_value(s: CpuState) -> int {
    if s.cf {
        1
    } else {
        0
    }
}

// ---------------------------------------------------------------------------------------------
// Loads
// ---------------------------------------------------------------------------------------------

pub open spec fn ld_r_n(s: CpuState, r: Reg8, n: u8) -> CpuState {
    s.advance(2).with_reg8(r, n)
}

pub open spec fn ld_r_r(s: CpuState, dst: Reg8, src: Reg8) -> CpuState {
    let t = s.advance(1);
    t.with_reg8(dst, t.reg8(src))
}

pub open spec fn ld_r_irr(s: CpuState, dst: Reg8, src: Reg16) -> CpuState {
    let t = s.advance(1);
    t.with_reg8(dst, t.byte(t.reg16(src) as int))
}

pub open spec fn ld_irr_r(s: CpuState, dst: Reg16, src: Reg8) -> CpuState {
    let t = s.advance(1);
    t.with_byte(t.reg16(dst) as int, t.reg8(src))
}

pub open spec fn ld_ihl_n(s: CpuState, n: u8) -> CpuState {
    let t = s.advance(2);
    t.with_byte(t.hl() as int, n)
}

pub open spec fn ld_a_inn(s: CpuState, nn: u16) -> CpuState {
    let t = s.advance(3);
    t.with_reg8(Reg8::A, t.byte(nn as int))
}

pub open spec fn ld_inn_a(s: CpuState, nn: u16) -> CpuState {
    let t = s.advance(3);
    t.with_byte(nn as int, t.a)
}

pub open spec fn ld_a_ic(s: CpuState) -> CpuState {
    let t = s.advance(1);
    t.with_reg8(Reg8::A, t.byte(0xFF00 + t.c))
}

pub open spec fn ld_ic_a(s: CpuState) -> CpuState {
    let t = s.advance(1);
    t.with_byte(0xFF00 + t.c, t.a)
}

/// `LDD A, (HL)` and `LDI A, (HL)`: load `A` from `(HL)`, then move `HL` by `delta`.
pub open spec fn ld_a_ihl_move(s: CpuState, delta: int) -> CpuState {
    let t = s.advance(1);
    let u = t.with_reg8(Reg8::A, t.byte(t.hl() as int));
    u.with_reg16(Reg16::HL, wrap16(u.hl() + delta))
}

/// `LDD (HL), A` and `LDI (HL), A`: store `A` at `(HL)`, then move `HL` by `delta`.
pub open spec fn ld_ihl_a_move(s: CpuState, delta: int) -> CpuState {
    let t = s.advance(1);
    let u = t.with_byte(t.hl() as int, t.a);
    u.with_reg16(Reg16::HL, wrap16(u.hl() + delta))
}

pub open spec fn ldh_in_a(s: CpuState, n: u8) -> CpuState {
    let t = s.advance(2);
    t.with_byte(0xFF00 + n, t.a)
}

pub open spec fn ldh_a_in(s: CpuState, n: u8) -> CpuState {
    let t = s.advance(2);
    t.with_reg8(Reg8::A, t.byte(0xFF00 + n))
}

pub open spec fn ld_rr_nn(s: CpuState, dst: Reg16, nn: u16) -> CpuState {
    s.advance(3).with_reg16(dst, nn)
}

pub open spec fn ld_sp_hl(s: CpuState) -> CpuState {
    let t = s.advance(1);
    t.with_sp(t.hl())
}

/// The flags of `LDHL SP, n` and `ADD SP, n` (`n` signed): `z` and `n` cleared, `h` and `c`
/// the carries out of bits 3 and 7 of the unsigned addition of `n` to the low byte of `sp`.
pub open spec fn sp_plus_n_flags(t: CpuState, sp: u16, n: u8) -> CpuState {
    t.with_flags(false, false, half_carry(sp as int, n as int), sp % 256 + n >= 256)
}

pub open spec fn ldhl_sp_n(s: CpuState, n: u8) -> CpuState {
    let t = s.advance(2);
    sp_plus_n_flags(t.with_reg16(Reg16::HL, wrap16(t.sp + signed8(n))), t.sp, n)
}

pub open spec fn ld_inn_sp(s: CpuState, nn: u16) -> CpuState {
    let t = s.advance(3);
    t.with_word_at(nn as int, t.sp)
}

pub open spec fn push_rr(s: CpuState, src: Reg16) -> CpuState {
    let t = s.advance(1);
    let u = t.with_sp(wrap16(t.sp - 2));
    u.with_word_at(u.sp as int, u.reg16(src))
}

pub open spec fn pop_rr(s: CpuState, dst: Reg16) -> CpuState {
    let t = s.advance(1);
    let u = t.with_reg16(dst, t.word_at(t.sp as int));
    u.with_sp(wrap16(u.sp + 2))
}

/// `POP AF`: the low nibble of `F` cannot be set, and reads as zero afterwards.
pub open spec fn pop_af(s: CpuState) -> CpuState {
    let t = s.advance(1);
    let w = t.word_at(t.sp as int);
    let u = t.with_reg16(Reg16::AF, (w - w % 16) as u16);
    u.with_sp(wrap16(u.sp + 2))
}

// ---------------------------------------------------------------------------------------------
// 8-bit arithmetic and logic
// ---------------------------------------------------------------------------------------------

// The operations on `A` below act on the state `t` in which the program counter has already
// moved past the instruction.

/// `ADD A, x`.
pub open spec fn add_a(t: CpuState, x: u8) -> CpuState {
    let sum = t.a + x;
    t.with_reg8(Reg8::A, wrap8(sum)).with_flags(
        wrap8(sum) == 0,
        false,
        half_carry(t.a as int, x as int),
        sum >= 256,
    )
}

/// `ADC A, x`: the carry is added to `x` first, and `z` tells whether the whole (9-bit) sum is
/// zero.
pub open spec fn adc_a(t: CpuState, x: u8) -> CpuState {
    let operand = x + carry_value(t);
    let sum = t.a + operand;
    t.with_reg8(Reg8::A, wrap8(sum)).with_flags(
        sum == 0,
        false,
        half_carry(t.a as int, operand),
        sum >= 256,
    )
}

/// `SUB A, x`.
pub open spec fn sub_a(t: CpuState, x: u8) -> CpuState {
    let difference = t.a - x;
    t.with_reg8(Reg8::A, wrap8(difference)).with_flags(
        wrap8(difference) == 0,
        true,
        half_borrow(t.a as int, x as int),
        t.a < x,
    )
}

/// `SBC A, x`: the carry is added to `x` first, and `z` tells whether the whole difference is
/// zero.
pub open spec fn sbc_a(t: CpuState, x: u8) -> CpuState {
    let operand = x + carry_value(t);
    let difference = t.a - operand;
    t.with_reg8(Reg8::A, wrap8(difference)).with_flags(
        difference == 0,
        true,
        half_borrow(t.a as int, operand),
        t.a < operand,
    )
}

/// `AND`, `OR` and `XOR` on `A`: `h` is set for `AND` only.
pub open spec fn logic_a(t: CpuState, result: u8, h: bool) -> CpuState {
    t.with_reg8(Reg8::A, result).with_flags(result == 0, false, h, false)
}

pub open spec fn and_a(t: CpuState, x: u8) -> CpuState {
    logic_a(t, t.a & x, true)
}

pub open spec fn or_a(t: CpuState, x: u8) -> CpuState {
    logic_a(t, t.a | x, false)
}

pub open spec fn xor_a(t: CpuState, x: u8) -> CpuState {
    logic_a(t, t.a ^ x, false)
}

/// `CP A, x`: the flags of `SUB A, x`, with `A` left as it is.
pub open spec fn cp_a(t: CpuState, x: u8) -> CpuState {
    let difference = t.a - x;
    t.with_flags(wrap8(difference) == 0, true, half_borrow(t.a as int, x as int), t.a < x)
}

pub open spec fn alu(t: CpuState, op: AluOp, x: u8) -> CpuState {
    match op {
        AluOp::Add => add_a(t, x),
        AluOp::Adc => adc_a(t, x),
        AluOp::Sub => sub_a(t, x),
        AluOp::Sbc => sbc_a(t, x),
        AluOp::And => and_a(t, x),
        AluOp::Xor => xor_a(t, x),
        AluOp::Or => or_a(t, x),
        AluOp::Cp => cp_a(t, x),
    }
}

/// The size in bytes of an 8-bit arithmetic instruction.
pub open spec fn source_size(source: Source8) -> int {
    match source {
        Source8::Immediate(_) => 2,
        _ => 1,
    }
}

/// `INC r` and `INC (HL)`; the carry is left as it is.
pub open spec fn inc8(s: CpuState, target: Target8) -> CpuState {
    let t = s.advance(1);
    let v = t.target(target);
    let result = wrap8(v + 1);
    let u = t.with_target(target, result);
    CpuState { zf: result == 0, nf: false, hf: half_carry(v as int, 1), ..u }
}

/// `DEC r` and `DEC (HL)`; the carry is left as it is.
pub open spec fn dec8(s: CpuState, target: Target8) -> CpuState {
    let t = s.advance(1);
    let v = t.target(target);
    let result = wrap8(v - 1);
    let u = t.with_target(target, result);
    CpuState { zf: result == 0, nf: true, hf: half_borrow(v as int, 1), ..u }
}

// ---------------------------------------------------------------------------------------------
// 16-bit arithmetic
// ---------------------------------------------------------------------------------------------

/// `ADD HL, rr`: `h` is the carry out of bit 11; `z` is left as it is.
pub open spec fn add_hl_rr(s: CpuState, src: Reg16) -> CpuState {
    let t = s.advance(1);
    let x = t.hl();
    let y = t.reg16(src);
    let u = t.with_reg16(Reg16::HL, wrap16(x + y));
    CpuState { nf: false, hf: x % 4096 + y % 4096 >= 4096, cf: x + y >= 65536, ..u }
}

pub open spec fn add_sp_n(s: CpuState, n: u8) -> CpuState {
    let t = s.advance(2);
    sp_plus_n_flags(t.with_sp(wrap16(t.sp + signed8(n))), t.sp, n)
}

pub open spec fn inc_rr(s: CpuState, r: Reg16) -> CpuState {
    let t = s.advance(1);
    t.with_reg16(r, wrap16(t.reg16(r) + 1))
}

pub open spec fn dec_rr(s: CpuState, r: Reg16) -> CpuState {
    let t = s.advance(1);
    t.with_reg16(r, wrap16(t.reg16(r) - 1))
}

// ---------------------------------------------------------------------------------------------
// Miscellaneous
// ---------------------------------------------------------------------------------------------

/// The value that `DAA` computes from `A` and the flags, before it is cut to a byte.
pub open spec fn daa_value(a: u8, n: bool, h: bool, c: bool) -> int {
    if n {
        let adjusted = if h {
            a - 0x06
        } else {
            a as int
        };
        if c {
            adjusted - 0x60
        } else {
            adjusted
        }
    } else {
        let adjusted = if h || a % 16 > 9 {
            a + 0x06
        } else {
            a as int
        };
        if c || adjusted > 0x9F {
            adjusted + 0x60
        } else {
            adjusted
        }
    }
}

/// Whether `DAA` stays within the range of its 16-bit intermediate value; outside it, the
/// adjustment after a subtraction underflows.
pub open spec fn daa_defined(s: CpuState) -> bool {
    s.nf ==> {
        &&& (s.hf ==> s.a >= 0x06)
        &&& (s.cf ==> (if s.hf {
            s.a - 0x06
        } else {
            s.a as int
        }) >= 0x60)
    }
}

/// `DAA`: the zero flag always ends set, and `c` is set when the adjustment carries out.
pub open spec fn daa(s: CpuState) -> CpuState {
    let t = s.advance(1);
    let v = daa_value(t.a, t.nf, t.hf, t.cf);
    t.with_reg8(Reg8::A, wrap8(v)).with_flags(true, t.nf, false, t.cf || v >= 256)
}

pub open spec fn cpl(s: CpuState) -> CpuState {
    let t = s.advance(1);
    CpuState { a: (255 - t.a) as u8, nf: true, hf: true, ..t }
}

pub open spec fn ccf(s: CpuState) -> CpuState {
    let t = s.advance(1);
    CpuState { cf: !t.cf, nf: false, hf: false, ..t }
}

pub open spec fn scf(s: CpuState) -> CpuState {
    let t = s.advance(1);
    CpuState { cf: true, nf: false, hf: false, ..t }
}

pub open spec fn nop(s: CpuState) -> CpuState {
    s.advance(1)
}

// ---------------------------------------------------------------------------------------------
// Rotations and shifts
// ---------------------------------------------------------------------------------------------

/// `v` rotated left by one bit.
pub open spec fn rotate_left(v: u8) -> u8 {
    ((v * 2) % 256 + v / 128) as u8
}

/// `v` rotated right by one bit.
pub open spec fn rotate_right(v: u8) -> u8 {
    (v / 2 + (v % 2) * 128) as u8
}

/// `v` shifted left by one bit, with `low` entering bit 0.
pub open spec fn shift_left_in(v: u8, low: bool) -> u8 {
    ((v * 2) % 256 + (if low {
        1int
    } else {
        0int
    })) as u8
}

/// `v` shifted right by one bit, with `high` entering bit 7.
pub open spec fn shift_right_in(v: u8, high: bool) -> u8 {
    (v / 2 + (if high {
        128int
    } else {
        0int
    })) as u8
}

/// `v` with its two nibbles exchanged.
pub open spec fn swap_nibbles(v: u8) -> u8 {
    ((v % 16) * 16 + v / 16) as u8
}

/// Stores a rotated or shifted value and sets the flags: `z` from the value, `n` and `h`
/// cleared, `c` given.
pub open spec fn store_shifted(t: CpuState, target: Target8, result: u8, carry: bool) -> CpuState {
    t.with_target(target, result).with_flags(result == 0, false, false, carry)
}

/// `RLC`: the carry takes bit 7 before the target is read and rotated left.
pub open spec fn rlc(t: CpuState, target: Target8) -> CpuState {
    let u = t.with_flag(Flag::c, t.target(target) >= 128);
    let result = rotate_left(u.target(target));
    let w = u.with_target(target, result);
    CpuState { zf: result == 0, nf: false, hf: false, ..w }
}

/// `RL`: rotates left through the carry.
pub open spec fn rl(t: CpuState, target: Target8) -> CpuState {
    let v = t.target(target);
    store_shifted(t, target, shift_left_in(v, t.cf), v >= 128)
}

/// `RR` (and `RRC`, which behaves the same): rotates right through the carry.
pub open spec fn rr(t: CpuState, target: Target8) -> CpuState {
    let v = t.target(target);
    store_shifted(t, target, shift_right_in(v, t.cf), v % 2 == 1)
}

/// `SLA` (and `SRL`, which behaves the same): shifts left, bit 7 going to the carry.
pub open spec fn sla(t: CpuState, target: Target8) -> CpuState {
    let v = t.target(target);
    store_shifted(t, target, shift_left_in(v, false), v >= 128)
}

/// `SRA`: shifts right keeping bit 7, bit 0 going to the carry.
pub open spec fn sra(t: CpuState, target: Target8) -> CpuState {
    let v = t.target(target);
    store_shifted(t, target, shift_right_in(v, v >= 128), v % 2 == 1)
}

/// `SWAP`: exchanges the nibbles, clearing the carry.
pub open spec fn swap(t: CpuState, target: Target8) -> CpuState {
    store_shifted(t, target, swap_nibbles(t.target(target)), false)
}

/// The `0xCB`-prefixed rotations and shifts (two bytes long).
pub open spec fn shift(s: CpuState, op: ShiftOp, target: Target8) -> CpuState {
    let t = s.advance(2);
    match op {
        ShiftOp::Rlc => rlc(t, target),
        ShiftOp::Rrc => rr(t, target),
        ShiftOp::Rl => rl(t, target),
        ShiftOp::Rr => rr(t, target),
        ShiftOp::Sla => sla(t, target),
        ShiftOp::Sra => sra(t, target),
        ShiftOp::Swap => swap(t, target),
        ShiftOp::Srl => sla(t, target),
    }
}

/// The accumulator rotations `RLCA`, `RLA`, `RRCA` and `RRA` (one byte long).
pub open spec fn rlca(s: CpuState) -> CpuState {
    rlc(s.advance(1), Target8::Reg(Reg8::A))
}

pub open spec fn rla(s: CpuState) -> CpuState {
    rl(s.advance(1), Target8::Reg(Reg8::A))
}

pub open spec fn rrca(s: CpuState) -> CpuState {
    let t = s.advance(1);
    let u = t.with_flag(Flag::c, t.a % 2 == 1);
    let result = rotate_right(u.a);
    CpuState { a: result, zf: result == 0, nf: false, hf: false, ..u }
}

pub open spec fn rra(s: CpuState) -> CpuState {
    rr(s.advance(1), Target8::Reg(Reg8::A))
}

// ---------------------------------------------------------------------------------------------
// Single bits (the bit number is the third byte of the instruction)
// ---------------------------------------------------------------------------------------------

pub open spec fn test_bit(s: CpuState, n: u8, target: Target8) -> CpuState {
    let t = s.advance(2);
    CpuState { zf: t.target(target) & (1u8 << n) == 0, nf: false, hf: true, ..t }
}

pub open spec fn set_bit(s: CpuState, n: u8, target: Target8) -> CpuState {
    let t = s.advance(2);
    t.with_target(target, t.target(target) | (1u8 << n))
}

pub open spec fn reset_bit(s: CpuState, n: u8, target: Target8) -> CpuState {
    let t = s.advance(2);
    t.with_target(target, t.target(target) & !(1u8 << n))
}

// ---------------------------------------------------------------------------------------------
// Jumps, calls and returns
// ---------------------------------------------------------------------------------------------

pub open spec fn jp_nn(s: CpuState, nn: u16) -> CpuState {
    s.with_pc(nn)
}

pub open spec fn jp_cc_nn(s: CpuState, flag: Flag, expected: bool, nn: u16) -> CpuState {
    if s.condition(flag, expected) {
        s.with_pc(nn)
    } else {
        s.advance(3)
    }
}

pub open spec fn jp_ihl(s: CpuState) -> CpuState {
    s.with_pc(s.hl())
}

/// `JR n`: the signed offset is added to the address of the jump instruction itself.
pub open spec fn jr_n(s: CpuState, n: u8) -> CpuState {
    s.with_pc(wrap16(s.pc + signed8(n)))
}

pub open spec fn jr_cc_n(s: CpuState, flag: Flag, expected: bool, n: u8) -> CpuState {
    if s.condition(flag, expected) {
        jr_n(s, n)
    } else {
        s.advance(2)
    }
}

/// `CALL nn`: pushes the address of the next instruction and jumps.
pub open spec fn call_nn(s: CpuState, nn: u16) -> CpuState {
    let u = s.with_sp(wrap16(s.sp - 2));
    u.with_word_at(u.sp as int, wrap16(s.pc + 3)).with_pc(nn)
}

pub open spec fn call_cc_nn(s: CpuState, flag: Flag, expected: bool, nn: u16) -> CpuState {
    if s.condition(flag, expected) {
        call_nn(s, nn)
    } else {
        s.advance(3)
    }
}

/// Whether a byte is one of the eight `RST` opcodes (`0xC7`, `0xCF`, ..., `0xFF`).
pub open spec fn is_rst_opcode(op: u8) -> bool {
    op >= 0xC7 && op % 8 == 7
}

/// The address that an `RST` opcode jumps to.
pub open spec fn rst_vector(op: u8) -> u16 {
    (op - 0xC7) as u16
}

/// The state of `RST` after it pushed the program counter.
pub open spec fn rst_pushed(s: CpuState) -> CpuState {
    let u = s.with_sp(wrap16(s.sp - 2));
    u.with_word_at(u.sp as int, s.pc)
}

/// `RST`: pushes the address of the `RST` instruction itself and jumps to the vector of the
/// opcode found at the program counter once the push is done.
pub open spec fn rst(s: CpuState) -> CpuState {
    let u = rst_pushed(s);
    u.with_pc(rst_vector(u.byte(u.pc as int)))
}

pub open spec fn ret(s: CpuState) -> CpuState {
    let u = s.with_pc(s.word_at(s.sp as int));
    u.with_sp(wrap16(u.sp + 2))
}

pub open spec fn ret_cc(s: CpuState, flag: Flag, expected: bool) -> CpuState {
    if s.condition(flag, expected) {
        ret(s)
    } else {
        s.advance(1)
    }
}

// ---------------------------------------------------------------------------------------------
// Whole instructions
// ---------------------------------------------------------------------------------------------

/// The state after `instruction`, started in `s`.
pub open spec fn run(s: CpuState, instruction: Instruction) -> CpuState {
    match instruction {
        Instruction::LdRN(r, n) => ld_r_n(s, r, n),
        Instruction::LdRR(dst, src) => ld_r_r(s, dst, src),
        Instruction::LdRIrr(dst, src) => ld_r_irr(s, dst, src),
        Instruction::LdIrrR(dst, src) => ld_irr_r(s, dst, src),
        Instruction::LdIhlN(n) => ld_ihl_n(s, n),
        Instruction::LdAInn(nn) => ld_a_inn(s, nn),
        Instruction::LdInnA(nn) => ld_inn_a(s, nn),
        Instruction::LdAIc => ld_a_ic(s),
        Instruction::LdIcA => ld_ic_a(s),
        Instruction::LddAIhl => ld_a_ihl_move(s, -1),
        Instruction::LddIhlA => ld_ihl_a_move(s, -1),
        Instruction::LdiAIhl => ld_a_ihl_move(s, 1),
        Instruction::LdiIhlA => ld_ihl_a_move(s, 1),
        Instruction::LdhInA(n) => ldh_in_a(s, n),
        Instruction::LdhAIn(n) => ldh_a_in(s, n),
        Instruction::LdRrNn(dst, nn) => ld_rr_nn(s, dst, nn),
        Instruction::LdSpHl => ld_sp_hl(s),
        Instruction::LdhlSpN(n) => ldhl_sp_n(s, n),
        Instruction::LdInnSp(nn) => ld_inn_sp(s, nn),
        Instruction::Push(r) => push_rr(s, r),
        Instruction::Pop(r) => pop_rr(s, r),
        Instruction::PopAf => pop_af(s),
        Instruction::Alu(op, source) => alu(s.advance(source_size(source)), op, s.source(source)),
        Instruction::Inc(target) => inc8(s, target),
        Instruction::Dec(target) => dec8(s, target),
        Instruction::AddHlRr(r) => add_hl_rr(s, r),
        Instruction::AddSpN(n) => add_sp_n(s, n),
        Instruction::IncRr(r) => inc_rr(s, r),
        Instruction::DecRr(r) => dec_rr(s, r),
        Instruction::Daa => daa(s),
        Instruction::Cpl => cpl(s),
        Instruction::Ccf => ccf(s),
        Instruction::Scf => scf(s),
        Instruction::Nop => nop(s),
        Instruction::Rlca => rlca(s),
        Instruction::Rla => rla(s),
        Instruction::Rrca => rrca(s),
        Instruction::Rra => rra(s),
        Instruction::Shift(op, target) => shift(s, op, target),
        Instruction::TestBit(n, target) => test_bit(s, n, target),
        Instruction::SetBit(n, target) => set_bit(s, n, target),
        Instruction::ResetBit(n, target) => reset_bit(s, n, target),
        Instruction::JpNn(nn) => jp_nn(s, nn),
        Instruction::JpCcNn(flag, expected, nn) => jp_cc_nn(s, flag, expected, nn),
        Instruction::JpIhl => jp_ihl(s),
        Instruction::JrN(n) => jr_n(s, n),
        Instruction::JrCcN(flag, expected, n) => jr_cc_n(s, flag, expected, n),
        Instruction::CallNn(nn) => call_nn(s, nn),
        Instruction::CallCcNn(flag, expected, nn) => call_cc_nn(s, flag, expected, nn),
        Instruction::Rst => rst(s),
        Instruction::Ret => ret(s),
        Instruction::RetCc(flag, expected) => ret_cc(s, flag, expected),
    }
}

/// The stack can take a push: the two bytes below `SP` lie inside memory.
pub open spec fn can_push(s: CpuState) -> bool {
    wrap16(s.sp - 2) <= 0xFFFE
}

/// The stack can give a pop: the two bytes at `SP` lie inside memory.
pub open spec fn can_pop(s: CpuState) -> bool {
    s.sp <= 0xFFFE
}

/// Whether `instruction`, started in `s`, runs to its end: its program counter moves stay
/// below the end of memory, its two-byte accesses stay inside memory, its bit numbers name a
/// bit of a byte, and `DAA` stays in range.
pub open spec fn defined(s: CpuState, instruction: Instruction) -> bool {
    match instruction {
        Instruction::LdRN(_, _) | Instruction::LdIhlN(_) | Instruction::LdhInA(_)
        | Instruction::LdhAIn(_) | Instruction::LdhlSpN(_) | Instruction::AddSpN(_)
        | Instruction::Shift(_, _) => s.can_advance(2),
        Instruction::LdAInn(_) | Instruction::LdInnA(_) | Instruction::LdRrNn(_, _) => s.can_advance(3),
        Instruction::LdInnSp(nn) => s.can_advance(3) && nn < 0xFFFF,
        Instruction::Push(_) => s.can_advance(1) && can_push(s),
        Instruction::Pop(_) | Instruction::PopAf => s.can_advance(1) && can_pop(s),
        Instruction::Alu(_, source) => s.can_advance(source_size(source)),
        Instruction::Daa => s.can_advance(1) && daa_defined(s),
        Instruction::TestBit(n, _) | Instruction::SetBit(n, _) | Instruction::ResetBit(n, _) => {
            s.can_advance(2) && n < 8
        },
        Instruction::JpNn(_) | Instruction::JpIhl | Instruction::JrN(_) => true,
        Instruction::JpCcNn(flag, expected, _) => s.condition(flag, expected) || s.can_advance(3),
        Instruction::JrCcN(flag, expected, _) => s.condition(flag, expected) || s.can_advance(2),
        Instruction::CallNn(_) => can_push(s),
        Instruction::CallCcNn(flag, expected, _) => if s.condition(flag, expected) {
            can_push(s)
        } else {
            s.can_advance(3)
        },
        Instruction::Rst => can_push(s) && is_rst_opcode(
            rst_pushed(s).byte(s.pc as int),
        ),
        Instruction::Ret => can_pop(s),
        Instruction::RetCc(flag, expected) => if s.condition(flag, expected) {
            can_pop(s)
        } else {
            s.can_advance(1)
        },
        _ => s.can_advance(1),
    }
}

/// The clock ticks that an instruction takes.
pub open spec fn cycles(instruction: Instruction) -> u8 {
    match instruction {
        Instruction::LdRN(_, _) => 8,
        Instruction::LdRR(_, _) => 4,
        Instruction::LdRIrr(_, _) | Instruction::LdIrrR(_, _) => 8,
        Instruction::LdIhlN(_) => 12,
        Instruction::LdAInn(_) | Instruction::LdInnA(_) => 16,
        Instruction::LdAIc | Instruction::LdIcA => 8,
        Instruction::LddAIhl | Instruction::LddIhlA | Instruction::LdiAIhl
        | Instruction::LdiIhlA => 8,
        Instruction::LdhInA(_) | Instruction::LdhAIn(_) => 12,
        Instruction::LdRrNn(_, _) => 12,
        Instruction::LdSpHl => 8,
        Instruction::LdhlSpN(_) => 12,
        Instruction::LdInnSp(_) => 20,
        Instruction::Push(_) => 16,
        Instruction::Pop(_) | Instruction::PopAf => 12,
        Instruction::Alu(_, source) => match source {
            Source8::Reg(_) => 4,
            _ => 8,
        },
        Instruction::Inc(target) | Instruction::Dec(target) => match target {
            Target8::Reg(_) => 4,
            Target8::IndirectHL => 12,
        },
        Instruction::AddHlRr(_) => 8,
        Instruction::AddSpN(_) => 16,
        Instruction::IncRr(_) | Instruction::DecRr(_) => 8,
        Instruction::Daa | Instruction::Cpl | Instruction::Ccf | Instruction::Scf
        | Instruction::Nop => 4,
        Instruction::Rlca | Instruction::Rla | Instruction::Rrca | Instruction::Rra => 4,
        Instruction::Shift(_, target) => match target {
            Target8::Reg(_) => 8,
            Target8::IndirectHL => 16,
        },
        Instruction::TestBit(_, target) => match target {
            Target8::Reg(_) => 8,
            Target8::IndirectHL => 12,
        },
        Instruction::SetBit(_, target) | Instruction::ResetBit(_, target) => match target {
            Target8::Reg(_) => 8,
            Target8::IndirectHL => 16,
        },
        Instruction::JpNn(_) | Instruction::JpCcNn(_, _, _) => 16,
        Instruction::JpIhl => 4,
        Instruction::JrN(_) | Instruction::JrCcN(_, _, _) => 12,
        Instruction::CallNn(_) | Instruction::CallCcNn(_, _, _) => 24,
        Instruction::Rst => 16,
        Instruction::Ret => 16,
        Instruction::RetCc(_, _) => 20,
    }
}

} // verus!
