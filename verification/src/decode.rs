//! The encoding of the instructions that the processor executes.
//!
//! An opcode byte splits into three fields: `x` (bits 7-6), `y` (bits 5-3) and `z` (bits 2-0);
//! `y` in turn splits into `p` (bits 5-4) and `q` (bit 3). Register operands are numbered
//! `B, C, D, E, H, L, (HL), A`.
use vstd::prelude::*;

use crate::registers::{Flag, Reg16, Reg8};
use crate::semantics::{AluOp, Instruction, ShiftOp, Source8, Target8};
use crate::state::word_of;

verus! {

/// The register numbered `code` (`6`, which names `(HL)`, is not a register).
pub open spec fn reg_operand(code: int) -> Reg8 {
    if code == 0 {
        Reg8::B
    } else if code == 1 {
        Reg8::C
    } else if code == 2 {
        Reg8::D
    } else if code == 3 {
        Reg8::E
    } else if code == 4 {
        Reg8::H
    } else if code == 5 {
        Reg8::L
    } else {
        Reg8::A
    }
}

/// The 8-bit operand numbered `code`: a register, or `(HL)` for `6`.
pub open spec fn target_operand(code: int) -> Target8 {
    if code == 6 {
        Target8::IndirectHL
    } else {
        Target8::Reg(reg_operand(code))
    }
}

pub open spec fn source_operand(code: int) -> Source8 {
    if code == 6 {
        Source8::IndirectHL
    } else {
        Source8::Reg(reg_operand(code))
    }
}

/// The register pair numbered `code` in the 16-bit loads and arithmetic: `BC, DE, HL, SP`.
pub open spec fn pair_operand(code: int) -> Reg16 {
    if code == 0 {
        Reg16::BC
    } else if code == 1 {
        Reg16::DE
    } else if code == 2 {
        Reg16::HL
    } else {
        Reg16::SP
    }
}

/// The register pair numbered `code` in `PUSH` and `POP`: `BC, DE, HL, AF`.
pub open spec fn stack_pair_operand(code: int) -> Reg16 {
    if code == 0 {
        Reg16::BC
    } else if code == 1 {
        Reg16::DE
    } else if code == 2 {
        Reg16::HL
    } else {
        Reg16::AF
    }
}

pub open spec fn alu_operation(code: int) -> AluOp {
    if code == 0 {
        AluOp::Add
    } else if code == 1 {
        AluOp::Adc
    } else if code == 2 {
        AluOp::Sub
    } else if code == 3 {
        AluOp::Sbc
    } else if code == 4 {
        AluOp::And
    } else if code == 5 {
        AluOp::Xor
    } else if code == 6 {
        AluOp::Or
    } else {
        AluOp::Cp
    }
}

pub open spec fn shift_operation(code: int) -> ShiftOp {
    if code == 0 {
        ShiftOp::Rlc
    } else if code == 1 {
        ShiftOp::Rrc
    } else if code == 2 {
        ShiftOp::Rl
    } else if code == 3 {
        ShiftOp::Rr
    } else if code == 4 {
        ShiftOp::Sla
    } else if code == 5 {
        ShiftOp::Sra
    } else if code == 6 {
        ShiftOp::Swap
    } else {
        ShiftOp::Srl
    }
}

/// The flag that condition `code` tests: `NZ, Z, NC, C`.
pub open spec fn condition_flag(code: int) -> Flag {
    if code < 2 {
        Flag::z
    } else {
        Flag::c
    }
}

/// The value that condition `code` expects of its flag.
pub open spec fn condition_value(code: int) -> bool {
    code % 2 == 1
}

/// The one-byte instructions.
pub open spec fn decode_one(op: u8) -> Option<Instruction> {
    let x = op / 64;
    let y = (op / 8) % 8;
    let z = op % 8;
    let p = y / 2;
    let q = y % 2;
    if x == 1 {
        if y == 6 && z == 6 {
            None
        } else if y == 6 {
            Some(Instruction::LdIrrR(Reg16::HL, reg_operand(z as int)))
        } else if z == 6 {
            Some(Instruction::LdRIrr(reg_operand(y as int), Reg16::HL))
        } else {
            Some(Instruction::LdRR(reg_operand(y as int), reg_operand(z as int)))
        }
    } else if x == 2 {
        Some(Instruction::Alu(alu_operation(y as int), source_operand(z as int)))
    } else if x == 0 {
        if z == 4 {
            Some(Instruction::Inc(target_operand(y as int)))
        } else if z == 5 {
            Some(Instruction::Dec(target_operand(y as int)))
        } else if z == 3 && q == 0 {
            Some(Instruction::IncRr(pair_operand(p as int)))
        } else if z == 3 {
            Some(Instruction::DecRr(pair_operand(p as int)))
        } else if z == 1 && q == 1 {
            Some(Instruction::AddHlRr(pair_operand(p as int)))
        } else if z == 2 {
            if y == 0 {
                Some(Instruction::LdIrrR(Reg16::BC, Reg8::A))
            } else if y == 1 {
                Some(Instruction::LdRIrr(Reg8::A, Reg16::BC))
            } else if y == 2 {
                Some(Instruction::LdIrrR(Reg16::DE, Reg8::A))
            } else if y == 3 {
                Some(Instruction::LdRIrr(Reg8::A, Reg16::DE))
            } else if y == 4 {
                Some(Instruction::LdiIhlA)
            } else if y == 5 {
                Some(Instruction::LdiAIhl)
            } else if y == 6 {
                Some(Instruction::LddIhlA)
            } else {
                Some(Instruction::LddAIhl)
            }
        } else if z == 7 {
            if y == 0 {
                Some(Instruction::Rlca)
            } else if y == 1 {
                Some(Instruction::Rrca)
            } else if y == 2 {
                Some(Instruction::Rla)
            } else if y == 3 {
                Some(Instruction::Rra)
            } else if y == 4 {
                Some(Instruction::Daa)
            } else if y == 5 {
                Some(Instruction::Cpl)
            } else if y == 6 {
                Some(Instruction::Scf)
            } else {
                Some(Instruction::Ccf)
            }
        } else if op == 0x00 {
            Some(Instruction::Nop)
        } else {
            None
        }
    } else {
        if z == 7 {
            Some(Instruction::Rst)
        } else if z == 5 && q == 0 {
            Some(Instruction::Push(stack_pair_operand(p as int)))
        } else if z == 1 && q == 0 && p == 3 {
            Some(Instruction::PopAf)
        } else if z == 1 && q == 0 {
            Some(Instruction::Pop(stack_pair_operand(p as int)))
        } else if z == 0 && y < 4 {
            Some(Instruction::RetCc(condition_flag(y as int), condition_value(y as int)))
        } else if op == 0xC9 {
            Some(Instruction::Ret)
        } else if op == 0xE9 {
            Some(Instruction::JpIhl)
        } else if op == 0xF9 {
            Some(Instruction::LdSpHl)
        } else if op == 0xE2 {
            Some(Instruction::LdIcA)
        } else if op == 0xF2 {
            Some(Instruction::LdAIc)
        } else {
            None
        }
    }
}

/// The two-byte instructions: an opcode and an immediate byte, or a `0xCB`-prefixed rotation
/// or shift.
pub open spec fn decode_two(op: u8, n: u8) -> Option<Instruction> {
    let x = op / 64;
    let y = (op / 8) % 8;
    let z = op % 8;
    if op == 0xCB {
        if n < 0x40 {
            Some(Instruction::Shift(shift_operation(((n / 8) % 8) as int), target_operand((n % 8) as int)))
        } else {
            None
        }
    } else if x == 0 && z == 6 && y == 6 {
        Some(Instruction::LdIhlN(n))
    } else if x == 0 && z == 6 {
        Some(Instruction::LdRN(reg_operand(y as int), n))
    } else if x == 3 && z == 6 {
        Some(Instruction::Alu(alu_operation(y as int), Source8::Immediate(n)))
    } else if op == 0x18 {
        Some(Instruction::JrN(n))
    } else if x == 0 && z == 0 && y >= 4 {
        Some(Instruction::JrCcN(condition_flag(y - 4), condition_value(y - 4), n))
    } else if op == 0xE0 {
        Some(Instruction::LdhInA(n))
    } else if op == 0xF0 {
        Some(Instruction::LdhAIn(n))
    } else if op == 0xF8 {
        Some(Instruction::LdhlSpN(n))
    } else if op == 0xE8 {
        Some(Instruction::AddSpN(n))
    } else {
        None
    }
}

/// The three-byte instructions: an opcode and a little-endian 16-bit immediate, or a
/// `0xCB`-prefixed `BIT`, `RES` or `SET` (second byte `0x40`-`0x47`, `0x80`-`0x87` or
/// `0xC0`-`0xC7`) followed by the bit number.
pub open spec fn decode_three(op: u8, low: u8, high: u8) -> Option<Instruction> {
    let x = op / 64;
    let y = (op / 8) % 8;
    let z = op % 8;
    let p = y / 2;
    let q = y % 2;
    let nn = word_of(high, low);
    if op == 0xCB {
        let target = target_operand((low % 8) as int);
        if (low / 8) % 8 != 0 {
            None
        } else if low / 64 == 1 {
            Some(Instruction::TestBit(high, target))
        } else if low / 64 == 2 {
            Some(Instruction::ResetBit(high, target))
        } else if low / 64 == 3 {
            Some(Instruction::SetBit(high, target))
        } else {
            None
        }
    } else if x == 0 && z == 1 && q == 0 {
        Some(Instruction::LdRrNn(pair_operand(p as int), nn))
    } else if x == 3 && z == 2 && y < 4 {
        Some(Instruction::JpCcNn(condition_flag(y as int), condition_value(y as int), nn))
    } else if x == 3 && z == 4 && y < 4 {
        Some(Instruction::CallCcNn(condition_flag(y as int), condition_value(y as int), nn))
    } else if op == 0xFA {
        Some(Instruction::LdAInn(nn))
    } else if op == 0xEA {
        Some(Instruction::LdInnA(nn))
    } else if op == 0x08 {
        Some(Instruction::LdInnSp(nn))
    } else if op == 0xC3 {
        Some(Instruction::JpNn(nn))
    } else if op == 0xCD {
        Some(Instruction::CallNn(nn))
    } else {
        None
    }
}

/// The instruction that `bytes` encode, if they encode one.
pub open spec fn decode(bytes: Seq<u8>) -> Option<Instruction> {
    if bytes.len() == 1 {
        decode_one(bytes[0])
    } else if bytes.len() == 2 {
        decode_two(bytes[0], bytes[1])
    } else if bytes.len() == 3 {
        decode_three(bytes[0], bytes[1], bytes[2])
    } else {
        None
    }
}

// ---------------------------------------------------------------------------------------------
// Decoding in executable code
// ---------------------------------------------------------------------------------------------

fn reg_operand_of(code: u8) -> (r: Reg8)
    ensures
        r == reg_operand(code as int),
{
    if code == 0 {
        Reg8::B
    } else if code == 1 {
        Reg8::C
    } else if code == 2 {
        Reg8::D
    } else if code == 3 {
        Reg8::E
    } else if code == 4 {
        Reg8::H
    } else if code == 5 {
        Reg8::L
    } else {
        Reg8::A
    }
}

fn target_operand_of(code: u8) -> (t: Target8)
    ensures
        t == target_operand(code as int),
{
    if code == 6 {
        Target8::IndirectHL
    } else {
        Target8::Reg(reg_operand_of(code))
    }
}

fn source_operand_of(code: u8) -> (s: Source8)
    ensures
        s == source_operand(code as int),
{
    if code == 6 {
        Source8::IndirectHL
    } else {
        Source8::Reg(reg_operand_of(code))
    }
}

fn pair_operand_of(code: u8) -> (r: Reg16)
    ensures
        r == pair_operand(code as int),
{
    if code == 0 {
        Reg16::BC
    } else if code == 1 {
        Reg16::DE
    } else if code == 2 {
        Reg16::HL
    } else {
        Reg16::SP
    }
}

fn stack_pair_operand_of(code: u8) -> (r: Reg16)
    ensures
        r == stack_pair_operand(code as int),
{
    if code == 0 {
        Reg16::BC
    } else if code == 1 {
        Reg16::DE
    } else if code == 2 {
        Reg16::HL
    } else {
        Reg16::AF
    }
}

fn alu_operation_of(code: u8) -> (op: AluOp)
    ensures
        op == alu_operation(code as int),
{
    if code == 0 {
        AluOp::Add
    } else if code == 1 {
        AluOp::Adc
    } else if code == 2 {
        AluOp::Sub
    } else if code == 3 {
        AluOp::Sbc
    } else if code == 4 {
        AluOp::And
    } else if code == 5 {
        AluOp::Xor
    } else if code == 6 {
        AluOp::Or
    } else {
        AluOp::Cp
    }
}

fn shift_operation_of(code: u8) -> (op: ShiftOp)
    ensures
        op == shift_operation(code as int),
{
    if code == 0 {
        ShiftOp::Rlc
    } else if code == 1 {
        ShiftOp::Rrc
    } else if code == 2 {
        ShiftOp::Rl
    } else if code == 3 {
        ShiftOp::Rr
    } else if code == 4 {
        ShiftOp::Sla
    } else if code == 5 {
        ShiftOp::Sra
    } else if code == 6 {
        ShiftOp::Swap
    } else {
        ShiftOp::Srl
    }
}

fn condition_flag_of(code: u8) -> (flag: Flag)
    ensures
        flag == condition_flag(code as int),
{
    if code < 2 {
        Flag::z
    } else {
        Flag::c
    }
}

fn decode_one_byte(op: u8) -> (decoded: Option<Instruction>)
    ensures
        decoded == decode_one(op),
{
    let x = op / 64;
    let y = (op / 8) % 8;
    let z = op % 8;
    let p = y / 2;
    let q = y % 2;
    if x == 1 {
        if y == 6 && z == 6 {
            None
        } else if y == 6 {
            Some(Instruction::LdIrrR(Reg16::HL, reg_operand_of(z)))
        } else if z == 6 {
            Some(Instruction::LdRIrr(reg_operand_of(y), Reg16::HL))
        } else {
            Some(Instruction::LdRR(reg_operand_of(y), reg_operand_of(z)))
        }
    } else if x == 2 {
        Some(Instruction::Alu(alu_operation_of(y), source_operand_of(z)))
    } else if x == 0 {
        if z == 4 {
            Some(Instruction::Inc(target_operand_of(y)))
        } else if z == 5 {
            Some(Instruction::Dec(target_operand_of(y)))
        } else if z == 3 && q == 0 {
            Some(Instruction::IncRr(pair_operand_of(p)))
        } else if z == 3 {
            Some(Instruction::DecRr(pair_operand_of(p)))
        } else if z == 1 && q == 1 {
            Some(Instruction::AddHlRr(pair_operand_of(p)))
        } else if z == 2 {
            if y == 0 {
                Some(Instruction::LdIrrR(Reg16::BC, Reg8::A))
            } else if y == 1 {
                Some(Instruction::LdRIrr(Reg8::A, Reg16::BC))
            } else if y == 2 {
                Some(Instruction::LdIrrR(Reg16::DE, Reg8::A))
            } else if y == 3 {
                Some(Instruction::LdRIrr(Reg8::A, Reg16::DE))
            } else if y == 4 {
                Some(Instruction::LdiIhlA)
            } else if y == 5 {
                Some(Instruction::LdiAIhl)
            } else if y == 6 {
                Some(Instruction::LddIhlA)
            } else {
                Some(Instruction::LddAIhl)
            }
        } else if z == 7 {
            if y == 0 {
                Some(Instruction::Rlca)
            } else if y == 1 {
                Some(Instruction::Rrca)
            } else if y == 2 {
                Some(Instruction::Rla)
            } else if y == 3 {
                Some(Instruction::Rra)
            } else if y == 4 {
                Some(Instruction::Daa)
            } else if y == 5 {
                Some(Instruction::Cpl)
            } else if y == 6 {
                Some(Instruction::Scf)
            } else {
                Some(Instruction::Ccf)
            }
        } else if op == 0x00 {
            Some(Instruction::Nop)
        } else {
            None
        }
    } else {
        if z == 7 {
            Some(Instruction::Rst)
        } else if z == 5 && q == 0 {
            Some(Instruction::Push(stack_pair_operand_of(p)))
        } else if z == 1 && q == 0 && p == 3 {
            Some(Instruction::PopAf)
        } else if z == 1 && q == 0 {
            Some(Instruction::Pop(stack_pair_operand_of(p)))
        } else if z == 0 && y < 4 {
            Some(Instruction::RetCc(condition_flag_of(y), y % 2 == 1))
        } else if op == 0xC9 {
            Some(Instruction::Ret)
        } else if op == 0xE9 {
            Some(Instruction::JpIhl)
        } else if op == 0xF9 {
            Some(Instruction::LdSpHl)
        } else if op == 0xE2 {
            Some(Instruction::LdIcA)
        } else if op == 0xF2 {
            Some(Instruction::LdAIc)
        } else {
            None
        }
    }
}

fn decode_two_bytes(op: u8, n: u8) -> (decoded: Option<Instruction>)
    ensures
        decoded == decode_two(op, n),
{
    let x = op / 64;
    let y = (op / 8) % 8;
    let z = op % 8;
    if op == 0xCB {
        if n < 0x40 {
            Some(Instruction::Shift(shift_operation_of((n / 8) % 8), target_operand_of(n % 8)))
        } else {
            None
        }
    } else if x == 0 && z == 6 && y == 6 {
        Some(Instruction::LdIhlN(n))
    } else if x == 0 && z == 6 {
        Some(Instruction::LdRN(reg_operand_of(y), n))
    } else if x == 3 && z == 6 {
        Some(Instruction::Alu(alu_operation_of(y), Source8::Immediate(n)))
    } else if op == 0x18 {
        Some(Instruction::JrN(n))
    } else if x == 0 && z == 0 && y >= 4 {
        Some(Instruction::JrCcN(condition_flag_of(y - 4), (y - 4) % 2 == 1, n))
    } else if op == 0xE0 {
        Some(Instruction::LdhInA(n))
    } else if op == 0xF0 {
        Some(Instruction::LdhAIn(n))
    } else if op == 0xF8 {
        Some(Instruction::LdhlSpN(n))
    } else if op == 0xE8 {
        Some(Instruction::AddSpN(n))
    } else {
        None
    }
}

fn decode_three_bytes(op: u8, low: u8, high: u8) -> (decoded: Option<Instruction>)
    ensures
        decoded == decode_three(op, low, high),
{
    let x = op / 64;
    let y = (op / 8) % 8;
    let z = op % 8;
    let p = y / 2;
    let q = y % 2;
    let nn: u16 = high as u16 * 256 + low as u16;
    if op == 0xCB {
        let target = target_operand_of(low % 8);
        if (low / 8) % 8 != 0 {
            None
        } else if low / 64 == 1 {
            Some(Instruction::TestBit(high, target))
        } else if low / 64 == 2 {
            Some(Instruction::ResetBit(high, target))
        } else if low / 64 == 3 {
            Some(Instruction::SetBit(high, target))
        } else {
            None
        }
    } else if x == 0 && z == 1 && q == 0 {
        Some(Instruction::LdRrNn(pair_operand_of(p), nn))
    } else if x == 3 && z == 2 && y < 4 {
        Some(Instruction::JpCcNn(condition_flag_of(y), y % 2 == 1, nn))
    } else if x == 3 && z == 4 && y < 4 {
        Some(Instruction::CallCcNn(condition_flag_of(y), y % 2 == 1, nn))
    } else if op == 0xFA {
        Some(Instruction::LdAInn(nn))
    } else if op == 0xEA {
        Some(Instruction::LdInnA(nn))
    } else if op == 0x08 {
        Some(Instruction::LdInnSp(nn))
    } else if op == 0xC3 {
        Some(Instruction::JpNn(nn))
    } else if op == 0xCD {
        Some(Instruction::CallNn(nn))
    } else {
        None
    }
}

/// Decodes the instruction that `bytes` encode.
pub fn decode_instruction(bytes: &[u8]) -> (decoded: Option<Instruction>)
    ensures
        decoded == decode(bytes@),
{
    if bytes.len() == 1 {
        decode_one_byte(bytes[0])
    } else if bytes.len() == 2 {
        decode_two_bytes(bytes[0], bytes[1])
    } else if bytes.len() == 3 {
        decode_three_bytes(bytes[0], bytes[1], bytes[2])
    } else {
        None
    }
}

} // verus!
