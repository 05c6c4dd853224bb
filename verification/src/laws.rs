//! Properties that hold across the operations of the processor.
use vstd::prelude::*;

use crate::registers::{Flag, Reg16, Reg8};
use crate::decode::{decode, decode_one, decode_three, decode_two, reg_operand, stack_pair_operand};
use crate::execute::{can_execute, lemma_load, load, step};
use crate::semantics::{can_pop, can_push, defined, run, AluOp, Instruction, Source8, Target8};
use crate::state::{lemma_f_byte_round_trip, wrap16, CpuState};

verus! {

/// Reading an 8-bit register gives back what was written to it, and the other 8-bit
/// registers, the stack pointer, the program counter and the memory are left as they were.
pub proof fn law_reg8_write_then_read(s: CpuState, r: Reg8, v: u8)
    requires
        s.wf(),
    ensures
        s.with_reg8(r, v).reg8(r) == v,
        forall|other: Reg8| other != r ==> s.with_reg8(r, v).reg8(other) == s.reg8(other),
        s.with_reg8(r, v).sp == s.sp,
        s.with_reg8(r, v).pc == s.pc,
        s.with_reg8(r, v).mem == s.mem,
        s.with_reg8(r, v).wf(),
{
    lemma_f_byte_round_trip(v);
}

/// Reading a 16-bit register gives back what was written to it, and the 16-bit registers
/// that share no byte with it are left as they were.
pub proof fn law_reg16_write_then_read(s: CpuState, r: Reg16, v: u16)
    requires
        s.wf(),
    ensures
        s.with_reg16(r, v).reg16(r) == v,
        forall|other: Reg16| other != r ==> s.with_reg16(r, v).reg16(other) == s.reg16(other),
        s.with_reg16(r, v).mem == s.mem,
        s.with_reg16(r, v).wf(),
{
    lemma_f_byte_round_trip((v % 256) as u8);
}

/// A register pair holds its first register as the high byte and its second as the low
/// byte; writing the pair writes both registers.
pub proof fn law_register_pairs(s: CpuState, v: u16)
    requires
        s.wf(),
    ensures
        s.reg16(Reg16::AF) == s.reg8(Reg8::A) * 256 + s.reg8(Reg8::F),
        s.reg16(Reg16::BC) == s.reg8(Reg8::B) * 256 + s.reg8(Reg8::C),
        s.reg16(Reg16::DE) == s.reg8(Reg8::D) * 256 + s.reg8(Reg8::E),
        s.reg16(Reg16::HL) == s.reg8(Reg8::H) * 256 + s.reg8(Reg8::L),
        s.with_reg16(Reg16::BC, v).reg8(Reg8::B) == v / 256,
        s.with_reg16(Reg16::BC, v).reg8(Reg8::C) == v % 256,
        s.with_reg16(Reg16::DE, v).reg8(Reg8::D) == v / 256,
        s.with_reg16(Reg16::DE, v).reg8(Reg8::E) == v % 256,
        s.with_reg16(Reg16::HL, v).reg8(Reg8::H) == v / 256,
        s.with_reg16(Reg16::HL, v).reg8(Reg8::L) == v % 256,
        s.with_reg16(Reg16::AF, v).reg8(Reg8::A) == v / 256,
        s.with_reg16(Reg16::AF, v).reg8(Reg8::F) == v % 256,
{
    lemma_f_byte_round_trip((v % 256) as u8);
}

/// A flag reads back what was written to it; writing it leaves the other flags, the unused
/// low nibble of `F`, and everything else as it was. In `F`, `z`, `n`, `h` and `c` are bits
/// 7, 6, 5 and 4.
pub proof fn law_flag_write_then_read(s: CpuState, f: Flag, b: bool)
    requires
        s.wf(),
    ensures
        s.with_flag(f, b).flag(f) == b,
        forall|other: Flag| other != f ==> s.with_flag(f, b).flag(other) == s.flag(other),
        s.with_flag(f, b).reg8(Reg8::F) % 16 == s.reg8(Reg8::F) % 16,
        s.with_flag(f, b).a == s.a,
        s.with_flag(f, b).mem == s.mem,
        (s.reg8(Reg8::F) / 128) % 2 == 1 <==> s.zf,
        (s.reg8(Reg8::F) / 64) % 2 == 1 <==> s.nf,
        (s.reg8(Reg8::F) / 32) % 2 == 1 <==> s.hf,
        (s.reg8(Reg8::F) / 16) % 2 == 1 <==> s.cf,
{
}

/// `PUSH rr` followed by `POP rr'` (both among `BC`, `DE`, `HL`) copies `rr` into `rr'` and
/// leaves the stack pointer where it was, provided the byte of the `POP` instruction is not
/// one of the two bytes that the push wrote.
pub proof fn law_push_then_pop(s: CpuState, p: u8, q: u8)
    requires
        s.wf(),
        p < 3,
        q < 3,
        s.pc + 2 <= u16::MAX,
        can_push(s),
        s.pc + 1 != wrap16(s.sp - 2),
        s.pc + 1 != wrap16(s.sp - 2) + 1,
    ensures
        ({
            let push = seq![(0xC5 + 16 * p) as u8];
            let pop = seq![(0xC1 + 16 * q) as u8];
            &&& can_execute(s, push)
            &&& can_execute(step(s, push), pop)
            &&& step(step(s, push), pop).reg16(stack_pair_operand(q as int)) == s.reg16(
                stack_pair_operand(p as int),
            )
            &&& step(step(s, push), pop).sp == s.sp
            &&& step(step(s, push), pop).pc == s.pc + 2
        }),
{
    let push = seq![(0xC5 + 16 * p) as u8];
    let pop = seq![(0xC1 + 16 * q) as u8];
    assert(decode(push) == Some(Instruction::Push(stack_pair_operand(p as int))));
    assert(decode(pop) == Some(Instruction::Pop(stack_pair_operand(q as int))));
    lemma_load(s, push);
    let s1 = step(s, push);
    lemma_load(s1, pop);
}

/// `CALL nn` followed, at `nn`, by `RET` comes back to the instruction after the call, with
/// the stack pointer where it was, provided the `RET` byte is not one of the two bytes that
/// the call pushed.
pub proof fn law_call_then_ret(s: CpuState, nn: u16)
    requires
        s.wf(),
        s.pc + 3 <= 65536,
        can_push(s),
        nn != wrap16(s.sp - 2),
        nn != wrap16(s.sp - 2) + 1,
    ensures
        ({
            let call = seq![0xCDu8, (nn % 256) as u8, (nn / 256) as u8];
            let ret = seq![0xC9u8];
            &&& can_execute(s, call)
            &&& step(s, call).pc == nn
            &&& can_execute(step(s, call), ret)
            &&& step(step(s, call), ret).pc == wrap16(s.pc + 3)
            &&& step(step(s, call), ret).sp == s.sp
        }),
{
    let call = seq![0xCDu8, (nn % 256) as u8, (nn / 256) as u8];
    let ret = seq![0xC9u8];
    assert(decode(call) == Some(Instruction::CallNn(nn)));
    assert(decode(ret) == Some(Instruction::Ret));
    lemma_load(s, call);
    let s1 = step(s, call);
    lemma_load(s1, ret);
    assert(can_pop(s1));
}

/// `CPL` twice leaves `A` as it was.
pub proof fn law_cpl_twice(s: CpuState)
    requires
        s.wf(),
        s.pc + 2 <= u16::MAX,
    ensures
        ({
            let cpl = seq![0x2Fu8];
            &&& can_execute(s, cpl)
            &&& can_execute(step(s, cpl), cpl)
            &&& step(step(s, cpl), cpl).a == s.a
        }),
{
    let cpl = seq![0x2Fu8];
    assert(decode(cpl) == Some(Instruction::Cpl));
    lemma_load(s, cpl);
    lemma_load(step(s, cpl), cpl);
}

/// The opcodes `0x04 + 8 * code` and `0x05 + 8 * code` are `INC` and `DEC` of register `code`.
#[verifier::spinoff_prover]
proof fn lemma_decode_inc_dec(code: u8)
    requires
        code < 8,
        code != 6,
    ensures
        decode(seq![(0x04 + 8 * code) as u8]) == Some(
            Instruction::Inc(Target8::Reg(reg_operand(code as int))),
        ),
        decode(seq![(0x05 + 8 * code) as u8]) == Some(
            Instruction::Dec(Target8::Reg(reg_operand(code as int))),
        ),
        reg_operand(code as int) != Reg8::F,
{
    let op = (0x04 + 8 * code) as u8;
    assert(op / 64 == 0 && (op / 8) % 8 == code && op % 8 == 4);
    let op = (0x05 + 8 * code) as u8;
    assert(op / 64 == 0 && (op / 8) % 8 == code && op % 8 == 5);
}

/// `INC r` followed by `DEC r`, executed from `s`, on register `r` (not `F`) given by the
/// instructions `inc` and `dec`.
proof fn lemma_inc_then_dec_register(s: CpuState, inc: Seq<u8>, dec: Seq<u8>, r: Reg8)
    requires
        s.wf(),
        r != Reg8::F,
        s.pc + 2 <= u16::MAX,
        inc.len() == 1,
        dec.len() == 1,
        decode(inc) == Some(Instruction::Inc(Target8::Reg(r))),
        decode(dec) == Some(Instruction::Dec(Target8::Reg(r))),
    ensures
        can_execute(s, inc),
        can_execute(step(s, inc), dec),
        step(step(s, inc), dec).reg8(r) == s.reg8(r),
        step(step(s, inc), dec).cf == s.cf,
{
    lemma_load(s, inc);
    let s1 = step(s, inc);
    lemma_load(s1, dec);
}

/// `INC r` followed by `DEC r` leaves the register as it was, and the carry too.
pub proof fn law_inc_then_dec(s: CpuState, code: u8)
    requires
        s.wf(),
        code < 8,
        code != 6,
        s.pc + 2 <= u16::MAX,
    ensures
        ({
            let inc = seq![(0x04 + 8 * code) as u8];
            let dec = seq![(0x05 + 8 * code) as u8];
            &&& can_execute(s, inc)
            &&& can_execute(step(s, inc), dec)
            &&& step(step(s, inc), dec).reg8(reg_operand(code as int)) == s.reg8(
                reg_operand(code as int),
            )
            &&& step(step(s, inc), dec).cf == s.cf
        }),
{
    lemma_decode_inc_dec(code);
    lemma_inc_then_dec_register(
        s,
        seq![(0x04 + 8 * code) as u8],
        seq![(0x05 + 8 * code) as u8],
        reg_operand(code as int),
    );
}

/// `ADD A, n` followed by `SUB A, n` leaves `A` as it was; the carry of the subtraction is
/// the carry of the addition.
pub proof fn law_add_then_sub(s: CpuState, n: u8)
    requires
        s.wf(),
        s.pc + 4 <= u16::MAX,
    ensures
        ({
            let add = seq![0xC6u8, n];
            let sub = seq![0xD6u8, n];
            &&& can_execute(s, add)
            &&& can_execute(step(s, add), sub)
            &&& step(step(s, add), sub).a == s.a
            &&& step(step(s, add), sub).cf == step(s, add).cf
        }),
{
    let add = seq![0xC6u8, n];
    let sub = seq![0xD6u8, n];
    assert(decode(add) == Some(Instruction::Alu(AluOp::Add, Source8::Immediate(n))));
    assert(decode(sub) == Some(Instruction::Alu(AluOp::Sub, Source8::Immediate(n))));
    lemma_load(s, add);
    lemma_load(step(s, add), sub);
}

/// `POP AF` leaves the unused low nibble of `F` cleared.
pub proof fn law_pop_af_clears_low_nibble(s: CpuState)
    requires
        s.wf(),
        s.pc + 1 <= u16::MAX,
        s.sp <= 0xFFFE,
    ensures
        can_execute(s, seq![0xF1u8]),
        step(s, seq![0xF1u8]).reg8(Reg8::F) % 16 == 0,
{
    assert(decode(seq![0xF1u8]) == Some(Instruction::PopAf));
    lemma_load(s, seq![0xF1u8]);
    let t = step(s, seq![0xF1u8]);
    lemma_f_byte_round_trip((t.reg16(Reg16::AF) % 256) as u8);
}

/// Whether an instruction sets the program counter itself: a jump, call, restart or return.
pub open spec fn is_control_transfer(instruction: Instruction) -> bool {
    match instruction {
        Instruction::JpNn(_) | Instruction::JpCcNn(_, _, _) | Instruction::JpIhl
        | Instruction::JrN(_) | Instruction::JrCcN(_, _, _) | Instruction::CallNn(_)
        | Instruction::CallCcNn(_, _, _) | Instruction::Rst | Instruction::Ret
        | Instruction::RetCc(_, _) => true,
        _ => false,
    }
}

/// Whether an instruction is one of `BIT`, `SET` and `RES`, which take three bytes here.
pub open spec fn is_bit_operation(instruction: Instruction) -> bool {
    match instruction {
        Instruction::TestBit(_, _) | Instruction::SetBit(_, _) | Instruction::ResetBit(_, _) => true,
        _ => false,
    }
}

/// The program counter after a one-byte instruction that does not set it itself.
#[verifier::spinoff_prover]
proof fn lemma_pc_after_one_byte(t: CpuState, op: u8)
    requires
        decode_one(op) is Some,
        defined(t, decode_one(op).unwrap()),
        !is_control_transfer(decode_one(op).unwrap()),
    ensures
        run(t, decode_one(op).unwrap()).pc == t.pc + 1,
{
    let x = op / 64;
    let z = op % 8;
    if x == 0 {
        if z == 1 || z == 3 {
            assert(run(t, decode_one(op).unwrap()).pc == t.pc + 1);
        } else {
            assert(run(t, decode_one(op).unwrap()).pc == t.pc + 1);
        }
    } else if x == 1 {
        assert(run(t, decode_one(op).unwrap()).pc == t.pc + 1);
    } else if x == 2 {
        assert(run(t, decode_one(op).unwrap()).pc == t.pc + 1);
    } else {
        assert(run(t, decode_one(op).unwrap()).pc == t.pc + 1);
    }
}

/// The program counter after a two-byte instruction that does not set it itself.
#[verifier::spinoff_prover]
proof fn lemma_pc_after_two_bytes(t: CpuState, op: u8, n: u8)
    requires
        decode_two(op, n) is Some,
        defined(t, decode_two(op, n).unwrap()),
        !is_control_transfer(decode_two(op, n).unwrap()),
    ensures
        run(t, decode_two(op, n).unwrap()).pc == t.pc + 2,
{
    if op == 0xCB {
        assert(run(t, decode_two(op, n).unwrap()).pc == t.pc + 2);
    } else {
        assert(run(t, decode_two(op, n).unwrap()).pc == t.pc + 2);
    }
}

/// The program counter after a three-byte instruction that does not set it itself.
#[verifier::spinoff_prover]
proof fn lemma_pc_after_three_bytes(t: CpuState, op: u8, low: u8, high: u8)
    requires
        decode_three(op, low, high) is Some,
        defined(t, decode_three(op, low, high).unwrap()),
        !is_control_transfer(decode_three(op, low, high).unwrap()),
    ensures
        run(t, decode_three(op, low, high).unwrap()).pc == t.pc + 3 - (if is_bit_operation(
            decode_three(op, low, high).unwrap(),
        ) {
            1int
        } else {
            0int
        }),
{
    if op == 0xCB {
        assert(run(t, decode_three(op, low, high).unwrap()).pc == t.pc + 2);
    } else {
        assert(run(t, decode_three(op, low, high).unwrap()).pc == t.pc + 3);
    }
}

/// Every instruction that does not set the program counter itself leaves it just past its
/// bytes; `BIT`, `SET` and `RES` move it by two bytes although they take three.
pub proof fn law_pc_moves_past_instruction(s: CpuState, bytes: Seq<u8>)
    requires
        s.wf(),
        can_execute(s, bytes),
        !is_control_transfer(decode(bytes).unwrap()),
    ensures
        step(s, bytes).pc == s.pc + bytes.len() - (if is_bit_operation(decode(bytes).unwrap()) {
            1int
        } else {
            0int
        }),
{
    lemma_load(s, bytes);
    let t = load(s, bytes);
    if bytes.len() == 1 {
        lemma_pc_after_one_byte(t, bytes[0]);
    } else if bytes.len() == 2 {
        lemma_pc_after_two_bytes(t, bytes[0], bytes[1]);
    } else {
        lemma_pc_after_three_bytes(t, bytes[0], bytes[1], bytes[2]);
    }
}

} // verus!
