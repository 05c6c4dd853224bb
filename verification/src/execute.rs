//! Execution of an instruction given by its bytes.
use vstd::prelude::*;

use crate::cpu::Cpu;
use crate::decode::{decode, decode_instruction, decode_one, decode_three, decode_two};
use crate::registers::{Flag, Reg16, Reg8};
use crate::semantics::{
    can_pop, can_push, cycles, daa_defined, defined, rst_pushed, run, Instruction,
    Source8,
};
use crate::state::{CpuState, MEMORY_SIZE};

verus! {

/// The state with `bytes` written to memory from the program counter on.
#[verifier::opaque]
pub open spec fn load(s: CpuState, bytes: Seq<u8>) -> CpuState {
    CpuState {
        mem: Seq::new(
            s.mem.len(),
            |address: int|
                if s.pc <= address < s.pc + bytes.len() {
                    bytes[address - s.pc]
                } else {
                    s.mem[address]
                },
        ),
        ..s
    }
}

/// Loading bytes changes nothing but the memory, and the memory only from the program counter
/// on, for as many bytes as there are.
pub proof fn lemma_load(s: CpuState, bytes: Seq<u8>)
    ensures
        load(s, bytes) == (CpuState { mem: load(s, bytes).mem, ..s }),
        load(s, bytes).mem.len() == s.mem.len(),
        forall|address: int|
            0 <= address < s.mem.len() ==> #[trigger] load(s, bytes).mem[address] == if s.pc
                <= address < s.pc + bytes.len() {
                bytes[address - s.pc]
            } else {
                s.mem[address]
            },
{
    reveal(load);
}

/// Whether the processor, in state `s`, executes `bytes`: they fit in memory from the program
/// counter on, they encode a supported instruction, and that instruction runs to its end once
/// the bytes are in memory.
pub open spec fn can_execute(s: CpuState, bytes: Seq<u8>) -> bool {
    &&& s.pc + bytes.len() <= MEMORY_SIZE
    &&& decode(bytes) is Some
    &&& defined(load(s, bytes), decode(bytes).unwrap())
}

/// The state after the processor, in state `s`, executed `bytes`.
pub open spec fn step(s: CpuState, bytes: Seq<u8>) -> CpuState {
    run(load(s, bytes), decode(bytes).unwrap())
}

/// The clock ticks that executing `bytes` takes.
pub open spec fn step_cycles(bytes: Seq<u8>) -> u8 {
    cycles(decode(bytes).unwrap())
}

impl Cpu {
    /// Executes an instruction.
    ///
    /// The instruction bytes are first copied to memory at the program counter, then the
    /// instruction runs; the result is the number of clock ticks spent.
    pub fn execute(&mut self, instruction_bytes: &[u8]) -> (ticks: u8)
        requires
            can_execute(old(self)@, instruction_bytes@),
        ensures
            final(self)@ == step(old(self)@, instruction_bytes@),
            ticks == step_cycles(instruction_bytes@),
    {
        proof {
            self.lemma_view_wf();
        }
        let ghost start = self@;
        proof {
            reveal(load);
            assert(start.mem =~= load(start, instruction_bytes@.subrange(0, 0)).mem);
        }
        let pc = self.reg16(Reg16::PC);
        let length = instruction_bytes.len();
        let mut i: usize = 0;
        while i < length
            invariant
                0 <= i <= length,
                length == instruction_bytes@.len(),
                start.pc + length <= MEMORY_SIZE,
                pc == start.pc,
                start.mem.len() == MEMORY_SIZE,
                self@ == load(start, instruction_bytes@.subrange(0, i as int)),
            decreases length - i,
        {
            self.write_byte(pc + i as u16, instruction_bytes[i]);
            proof {
                reveal(load);
                assert(self@.mem =~= load(start, instruction_bytes@.subrange(0, i + 1)).mem);
            }
            i = i + 1;
        }
        proof {
            assert(instruction_bytes@.subrange(0, length as int) =~= instruction_bytes@);
        }
        if length == 1 {
            self.execute_one_byte(instruction_bytes[0])
        } else if length == 2 {
            self.execute_two_bytes(instruction_bytes[0], instruction_bytes[1])
        } else {
            self.execute_three_bytes(instruction_bytes[0], instruction_bytes[1], instruction_bytes[2])
        }
    }

    fn execute_one_byte(&mut self, x: u8) -> (ticks: u8)
        requires
            decode_one(x) is Some,
            defined(old(self)@, decode_one(x).unwrap()),
        ensures
            final(self)@ == run(old(self)@, decode_one(x).unwrap()),
            ticks == cycles(decode_one(x).unwrap()),
    {
        if x <= 0x1F {
            self.execute_one_byte_00_1f(x)
        } else if x <= 0x3F {
            self.execute_one_byte_20_3f(x)
        } else if x <= 0x5F {
            self.execute_one_byte_40_5f(x)
        } else if x <= 0x7F {
            self.execute_one_byte_60_7f(x)
        } else if x <= 0x9F {
            self.execute_one_byte_80_9f(x)
        } else if x <= 0xBF {
            self.execute_one_byte_a0_bf(x)
        } else if x <= 0xDF {
            self.execute_one_byte_c0_df(x)
        } else {
            self.execute_one_byte_e0_ff(x)
        }
    }

    #[verifier::rlimit(100)]
    #[verifier::spinoff_prover]
    fn execute_two_bytes(&mut self, opcode: u8, immediate: u8) -> (ticks: u8)
        requires
            decode_two(opcode, immediate) is Some,
            defined(old(self)@, decode_two(opcode, immediate).unwrap()),
        ensures
            final(self)@ == run(old(self)@, decode_two(opcode, immediate).unwrap()),
            ticks == cycles(decode_two(opcode, immediate).unwrap()),
    {
        if opcode == 0xCB {
            if immediate <= 0x1F {
                self.execute_prefixed_00_1f(immediate)
            } else if immediate <= 0x2F {
                self.execute_prefixed_20_2f(immediate)
            } else if immediate <= 0x37 {
                self.execute_prefixed_30_37(immediate)
            } else {
                self.execute_prefixed_38_3f(immediate)
            }
        } else {
            match opcode {
                0x06 => {
                    self.execute_LD_r_n(Reg8::B, &immediate);
                    8
                },
                0x0E => {
                    self.execute_LD_r_n(Reg8::C, &immediate);
                    8
                },
                0x16 => {
                    self.execute_LD_r_n(Reg8::D, &immediate);
                    8
                },
                0x1E => {
                    self.execute_LD_r_n(Reg8::E, &immediate);
                    8
                },
                0x26 => {
                    self.execute_LD_r_n(Reg8::H, &immediate);
                    8
                },
                0x2E => {
                    self.execute_LD_r_n(Reg8::L, &immediate);
                    8
                },
                0x3E => {
                    self.execute_LD_r_n(Reg8::A, &immediate);
                    8
                },
                0x36 => {
                    self.execute_LD_IHL_n(&immediate);
                    12
                },
                0xE0 => {
                    self.execute_LDH_In_A(&immediate);
                    12
                },
                0xF0 => {
                    self.execute_LDH_A_In(&immediate);
                    12
                },
                0xF8 => {
                    self.execute_LDHL_SP_n(&immediate);
                    12
                },
                0xC6 => {
                    self.execute_ADD_A_n(&immediate);
                    8
                },
                0xCE => {
                    self.execute_ADC_A_n(&immediate);
                    8
                },
                0xD6 => {
                    self.execute_SUB_A_n(&immediate);
                    8
                },
                0xDE => {
                    self.execute_SBC_A_n(&immediate);
                    8
                },
                0xE6 => {
                    self.execute_AND_A_n(&immediate);
                    8
                },
                0xF6 => {
                    self.execute_OR_A_n(&immediate);
                    8
                },
                0xEE => {
                    self.execute_XOR_A_n(&immediate);
                    8
                },
                0xFE => {
                    self.execute_CP_A_n(&immediate);
                    8
                },
                0xE8 => {
                    self.execute_ADD_SP_n(&immediate);
                    16
                },
                0x18 => {
                    self.execute_JR_n(&immediate);
                    12
                },
                0x20 => {
                    self.execute_JR_cc_n(Flag::z, false, &immediate);
                    12
                },
                0x28 => {
                    self.execute_JR_cc_n(Flag::z, true, &immediate);
                    12
                },
                0x30 => {
                    self.execute_JR_cc_n(Flag::c, false, &immediate);
                    12
                },
                0x38 => {
                    self.execute_JR_cc_n(Flag::c, true, &immediate);
                    12
                },
                _ => {
                    proof {
                        assert(false);
                    }
                    0
                },
            }
        }
    }

    #[verifier::rlimit(100)]
    #[verifier::spinoff_prover]
    fn execute_three_bytes(&mut self, opcode: u8, low: u8, high: u8) -> (ticks: u8)
        requires
            decode_three(opcode, low, high) is Some,
            defined(old(self)@, decode_three(opcode, low, high).unwrap()),
        ensures
            final(self)@ == run(old(self)@, decode_three(opcode, low, high).unwrap()),
            ticks == cycles(decode_three(opcode, low, high).unwrap()),
    {
        if opcode == 0xCB {
            let bit_number = high;
            match low {
                0x47 => {
                    self.execute_BIT_n_r(&bit_number, Reg8::A);
                    8
                },
                0x40 => {
                    self.execute_BIT_n_r(&bit_number, Reg8::B);
                    8
                },
                0x41 => {
                    self.execute_BIT_n_r(&bit_number, Reg8::C);
                    8
                },
                0x42 => {
                    self.execute_BIT_n_r(&bit_number, Reg8::D);
                    8
                },
                0x43 => {
                    self.execute_BIT_n_r(&bit_number, Reg8::E);
                    8
                },
                0x44 => {
                    self.execute_BIT_n_r(&bit_number, Reg8::H);
                    8
                },
                0x45 => {
                    self.execute_BIT_n_r(&bit_number, Reg8::L);
                    8
                },
                0x46 => {
                    self.execute_BIT_n_IHL(&bit_number);
                    12
                },
                0xC7 => {
                    self.execute_SET_n_r(&bit_number, Reg8::A);
                    8
                },
                0xC0 => {
                    self.execute_SET_n_r(&bit_number, Reg8::B);
                    8
                },
                0xC1 => {
                    self.execute_SET_n_r(&bit_number, Reg8::C);
                    8
                },
                0xC2 => {
                    self.execute_SET_n_r(&bit_number, Reg8::D);
                    8
                },
                0xC3 => {
                    self.execute_SET_n_r(&bit_number, Reg8::E);
                    8
                },
                0xC4 => {
                    self.execute_SET_n_r(&bit_number, Reg8::H);
                    8
                },
                0xC5 => {
                    self.execute_SET_n_r(&bit_number, Reg8::L);
                    8
                },
                0xC6 => {
                    self.execute_SET_n_IHL(&bit_number);
                    16
                },
                0x87 => {
                    self.execute_RES_n_r(&bit_number, Reg8::A);
                    8
                },
                0x80 => {
                    self.execute_RES_n_r(&bit_number, Reg8::B);
                    8
                },
                0x81 => {
                    self.execute_RES_n_r(&bit_number, Reg8::C);
                    8
                },
                0x82 => {
                    self.execute_RES_n_r(&bit_number, Reg8::D);
                    8
                },
                0x83 => {
                    self.execute_RES_n_r(&bit_number, Reg8::E);
                    8
                },
                0x84 => {
                    self.execute_RES_n_r(&bit_number, Reg8::H);
                    8
                },
                0x85 => {
                    self.execute_RES_n_r(&bit_number, Reg8::L);
                    8
                },
                0x86 => {
                    self.execute_RES_n_IHL(&bit_number);
                    16
                },
                _ => {
                    proof {
                        assert(false);
                    }
                    0
                },
            }
        } else {
            let immediate: u16 = high as u16 * 256 + low as u16;
            match opcode {
                0xFA => {
                    self.execute_LD_A_Inn(&immediate);
                    16
                },
                0xEA => {
                    self.execute_LD_Inn_A(&immediate);
                    16
                },
                0x01 => {
                    self.execute_LD_rr_nn(Reg16::BC, &immediate);
                    12
                },
                0x11 => {
                    self.execute_LD_rr_nn(Reg16::DE, &immediate);
                    12
                },
                0x21 => {
                    self.execute_LD_rr_nn(Reg16::HL, &immediate);
                    12
                },
                0x31 => {
                    self.execute_LD_rr_nn(Reg16::SP, &immediate);
                    12
                },
                0x08 => {
                    self.execute_LD_Inn_SP(&immediate);
                    20
                },
                0xC3 => {
                    self.execute_JP_nn(&immediate);
                    16
                },
                0xC2 => {
                    self.execute_JP_cc_nn(Flag::z, false, &immediate);
                    16
                },
                0xCA => {
                    self.execute_JP_cc_nn(Flag::z, true, &immediate);
                    16
                },
                0xD2 => {
                    self.execute_JP_cc_nn(Flag::c, false, &immediate);
                    16
                },
                0xDA => {
                    self.execute_JP_cc_nn(Flag::c, true, &immediate);
                    16
                },
                0xCD => {
                    self.execute_CALL_nn(&immediate);
                    24
                },
                0xC4 => {
                    self.execute_CALL_cc_nn(Flag::z, false, &immediate);
                    24
                },
                0xCC => {
                    self.execute_CALL_cc_nn(Flag::z, true, &immediate);
                    24
                },
                0xD4 => {
                    self.execute_CALL_cc_nn(Flag::c, false, &immediate);
                    24
                },
                0xDC => {
                    self.execute_CALL_cc_nn(Flag::c, true, &immediate);
                    24
                },
                _ => {
                    proof {
                        assert(false);
                    }
                    0
                },
            }
        }
    }

    /// Whether the program counter can move forward by `size` bytes.
    fn pc_can_advance(&self, size: u16) -> (fits: bool)
        ensures
            fits == self@.can_advance(size as int),
    {
        self.reg16(Reg16::PC) as u32 + size as u32 <= 0xFFFF
    }

    /// Whether the stack can take a push.
    fn stack_can_push(&self) -> (fits: bool)
        ensures
            fits == can_push(self@),
    {
        self.reg16(Reg16::SP).wrapping_sub(2) <= 0xFFFE
    }

    /// Whether the stack can give a pop.
    fn stack_can_pop(&self) -> (fits: bool)
        ensures
            fits == can_pop(self@),
    {
        self.reg16(Reg16::SP) <= 0xFFFE
    }

    /// Whether `DAA` stays in range.
    fn daa_runs(&self) -> (runs: bool)
        ensures
            runs == daa_defined(self@),
    {
        let a = self.reg8(Reg8::A);
        let h = self.get_flag(Flag::h);
        if self.get_flag(Flag::n) {
            let adjusted: u8 = if h {
                if a < 0x06 {
                    return false;
                }
                a - 0x06
            } else {
                a
            };
            !self.get_flag(Flag::c) || adjusted >= 0x60
        } else {
            true
        }
    }

    /// Whether `instruction`, encoded by `bytes`, runs to its end once `bytes` are in memory
    /// at the program counter.
    fn instruction_runs(&self, instruction_bytes: &[u8], instruction: Instruction) -> (runs: bool)
        requires
            decode(instruction_bytes@) == Some(instruction),
            self@.pc + instruction_bytes@.len() <= MEMORY_SIZE,
        ensures
            runs == defined(load(self@, instruction_bytes@), instruction),
    {
        proof {
            lemma_load(self@, instruction_bytes@);
            self.lemma_view_wf();
        }
        match instruction {
            Instruction::LdRN(_, _) | Instruction::LdIhlN(_) | Instruction::LdhInA(_)
            | Instruction::LdhAIn(_) | Instruction::LdhlSpN(_) | Instruction::AddSpN(_)
            | Instruction::Shift(_, _) => self.pc_can_advance(2),
            Instruction::LdAInn(_) | Instruction::LdInnA(_) | Instruction::LdRrNn(_, _) => {
                self.pc_can_advance(3)
            },
            Instruction::LdInnSp(nn) => self.pc_can_advance(3) && nn < 0xFFFF,
            Instruction::Push(_) => self.pc_can_advance(1) && self.stack_can_push(),
            Instruction::Pop(_) | Instruction::PopAf => self.pc_can_advance(1)
                && self.stack_can_pop(),
            Instruction::Alu(_, source) => match source {
                Source8::Immediate(_) => self.pc_can_advance(2),
                _ => self.pc_can_advance(1),
            },
            Instruction::Daa => self.pc_can_advance(1) && self.daa_runs(),
            Instruction::TestBit(n, _) | Instruction::SetBit(n, _) | Instruction::ResetBit(n, _) => {
                self.pc_can_advance(2) && n < 8
            },
            Instruction::JpNn(_) | Instruction::JpIhl | Instruction::JrN(_) => true,
            Instruction::JpCcNn(flag, expected, _) => self.get_flag(flag) == expected
                || self.pc_can_advance(3),
            Instruction::JrCcN(flag, expected, _) => self.get_flag(flag) == expected
                || self.pc_can_advance(2),
            Instruction::CallNn(_) => self.stack_can_push(),
            Instruction::CallCcNn(flag, expected, _) => if self.get_flag(flag) == expected {
                self.stack_can_push()
            } else {
                self.pc_can_advance(3)
            },
            Instruction::Rst => {
                if !self.stack_can_push() {
                    return false;
                }
                let pc = self.reg16(Reg16::PC);
                let new_sp = self.reg16(Reg16::SP).wrapping_sub(2);
                // The opcode as it reads once the push is done.
                let opcode: u8 = if pc == new_sp + 1 {
                    (pc / 256) as u8
                } else if pc == new_sp {
                    (pc % 256) as u8
                } else {
                    instruction_bytes[0]
                };
                proof {
                    let t = load(self@, instruction_bytes@);
                    assert(rst_pushed(t).byte(t.pc as int) == opcode);
                }
                opcode >= 0xC7 && opcode % 8 == 7
            },
            Instruction::Ret => self.stack_can_pop(),
            Instruction::RetCc(flag, expected) => if self.get_flag(flag) == expected {
                self.stack_can_pop()
            } else {
                self.pc_can_advance(1)
            },
            _ => self.pc_can_advance(1),
        }
    }

    /// Executes an instruction when the processor can: the bytes fit in memory from the
    /// program counter on, encode a supported instruction, and the instruction runs to its end.
    /// Then it is `execute`, and the result holds the clock ticks spent; otherwise the result
    /// is `None` and nothing changes.
    pub fn try_execute(&mut self, instruction_bytes: &[u8]) -> (ticks: Option<u8>)
        ensures
            can_execute(old(self)@, instruction_bytes@) ==> final(self)@ == step(
                old(self)@,
                instruction_bytes@,
            ) && ticks == Some(step_cycles(instruction_bytes@)),
            !can_execute(old(self)@, instruction_bytes@) ==> final(self)@ == old(self)@
                && ticks is None,
    {
        let pc = self.reg16(Reg16::PC) as usize;
        if instruction_bytes.len() > 65536 - pc {
            return None;
        }
        match decode_instruction(instruction_bytes) {
            None => None,
            Some(instruction) => {
                if self.instruction_runs(instruction_bytes, instruction) {
                    Some(self.execute(instruction_bytes))
                } else {
                    None
                }
            },
        }
    }

    #[verifier::rlimit(100)]
    #[verifier::spinoff_prover]
    fn execute_one_byte_00_1f(&mut self, x: u8) -> (ticks: u8)
        requires
            0x00 <= x <= 0x1F,
            decode_one(x) is Some,
            defined(old(self)@, decode_one(x).unwrap()),
        ensures
            final(self)@ == run(old(self)@, decode_one(x).unwrap()),
            ticks == cycles(decode_one(x).unwrap()),
    {
        match x {
            0x0A => {
                self.execute_LD_r1_Irr2(Reg8::A, Reg16::BC);
                8
            },
            0x1A => {
                self.execute_LD_r1_Irr2(Reg8::A, Reg16::DE);
                8
            },
            0x02 => {
                self.execute_LD_Irr1_r2(Reg16::BC, Reg8::A);
                8
            },
            0x12 => {
                self.execute_LD_Irr1_r2(Reg16::DE, Reg8::A);
                8
            },
            0x04 => {
                self.execute_INC_r(Reg8::B);
                4
            },
            0x0C => {
                self.execute_INC_r(Reg8::C);
                4
            },
            0x14 => {
                self.execute_INC_r(Reg8::D);
                4
            },
            0x1C => {
                self.execute_INC_r(Reg8::E);
                4
            },
            0x05 => {
                self.execute_DEC_r(Reg8::B);
                4
            },
            0x0D => {
                self.execute_DEC_r(Reg8::C);
                4
            },
            0x15 => {
                self.execute_DEC_r(Reg8::D);
                4
            },
            0x1D => {
                self.execute_DEC_r(Reg8::E);
                4
            },
            0x09 => {
                self.execute_ADD_HL_rr(Reg16::BC);
                8
            },
            0x19 => {
                self.execute_ADD_HL_rr(Reg16::DE);
                8
            },
            0x03 => {
                self.execute_INC_rr(Reg16::BC);
                8
            },
            0x13 => {
                self.execute_INC_rr(Reg16::DE);
                8
            },
            0x0B => {
                self.execute_DEC_rr(Reg16::BC);
                8
            },
            0x1B => {
                self.execute_DEC_rr(Reg16::DE);
                8
            },
            0x00 => {
                self.execute_NOP();
                4
            },
            0x07 => {
                self.execute_RLCA();
                4
            },
            0x17 => {
                self.execute_RLA();
                4
            },
            0x0F => {
                self.execute_RRCA();
                4
            },
            0x1F => {
                self.execute_RRA();
                4
            },
            _ => {
                proof {
                    assert(false);
                }
                0
            },
        }
    }

    #[verifier::rlimit(100)]
    #[verifier::spinoff_prover]
    fn execute_one_byte_20_3f(&mut self, x: u8) -> (ticks: u8)
        requires
            0x20 <= x <= 0x3F,
            decode_one(x) is Some,
            defined(old(self)@, decode_one(x).unwrap()),
        ensures
            final(self)@ == run(old(self)@, decode_one(x).unwrap()),
            ticks == cycles(decode_one(x).unwrap()),
    {
        match x {
            0x3A => {
                self.execute_LDD_A_IHL();
                8
            },
            0x32 => {
                self.execute_LDD_IHL_A();
                8
            },
            0x2A => {
                self.execute_LDI_A_IHL();
                8
            },
            0x22 => {
                self.execute_LDI_IHL_A();
                8
            },
            0x3C => {
                self.execute_INC_r(Reg8::A);
                4
            },
            0x24 => {
                self.execute_INC_r(Reg8::H);
                4
            },
            0x2C => {
                self.execute_INC_r(Reg8::L);
                4
            },
            0x34 => {
                self.execute_INC_IHL();
                12
            },
            0x3D => {
                self.execute_DEC_r(Reg8::A);
                4
            },
            0x25 => {
                self.execute_DEC_r(Reg8::H);
                4
            },
            0x2D => {
                self.execute_DEC_r(Reg8::L);
                4
            },
            0x35 => {
                self.execute_DEC_IHL();
                12
            },
            0x29 => {
                self.execute_ADD_HL_rr(Reg16::HL);
                8
            },
            0x39 => {
                self.execute_ADD_HL_rr(Reg16::SP);
                8
            },
            0x23 => {
                self.execute_INC_rr(Reg16::HL);
                8
            },
            0x33 => {
                self.execute_INC_rr(Reg16::SP);
                8
            },
            0x2B => {
                self.execute_DEC_rr(Reg16::HL);
                8
            },
            0x3B => {
                self.execute_DEC_rr(Reg16::SP);
                8
            },
            0x27 => {
                self.execute_DAA();
                4
            },
            0x2F => {
                self.execute_CPL();
                4
            },
            0x3F => {
                self.execute_CCF();
                4
            },
            0x37 => {
                self.execute_SCF();
                4
            },
            _ => {
                proof {
                    assert(false);
                }
                0
            },
        }
    }

    #[verifier::rlimit(100)]
    #[verifier::spinoff_prover]
    fn execute_one_byte_40_5f(&mut self, x: u8) -> (ticks: u8)
        requires
            0x40 <= x <= 0x5F,
            decode_one(x) is Some,
            defined(old(self)@, decode_one(x).unwrap()),
        ensures
            final(self)@ == run(old(self)@, decode_one(x).unwrap()),
            ticks == cycles(decode_one(x).unwrap()),
    {
        match x {
            0x41 => {
                self.execute_LD_r1_r2(Reg8::B, Reg8::C);
                4
            },
            0x42 => {
                self.execute_LD_r1_r2(Reg8::B, Reg8::D);
                4
            },
            0x43 => {
                self.execute_LD_r1_r2(Reg8::B, Reg8::E);
                4
            },
            0x44 => {
                self.execute_LD_r1_r2(Reg8::B, Reg8::H);
                4
            },
            0x45 => {
                self.execute_LD_r1_r2(Reg8::B, Reg8::L);
                4
            },
            0x48 => {
                self.execute_LD_r1_r2(Reg8::C, Reg8::B);
                4
            },
            0x4A => {
                self.execute_LD_r1_r2(Reg8::C, Reg8::D);
                4
            },
            0x4B => {
                self.execute_LD_r1_r2(Reg8::C, Reg8::E);
                4
            },
            0x4C => {
                self.execute_LD_r1_r2(Reg8::C, Reg8::H);
                4
            },
            0x4D => {
                self.execute_LD_r1_r2(Reg8::C, Reg8::L);
                4
            },
            0x50 => {
                self.execute_LD_r1_r2(Reg8::D, Reg8::B);
                4
            },
            0x51 => {
                self.execute_LD_r1_r2(Reg8::D, Reg8::C);
                4
            },
            0x53 => {
                self.execute_LD_r1_r2(Reg8::D, Reg8::E);
                4
            },
            0x54 => {
                self.execute_LD_r1_r2(Reg8::D, Reg8::H);
                4
            },
            0x55 => {
                self.execute_LD_r1_r2(Reg8::D, Reg8::L);
                4
            },
            0x58 => {
                self.execute_LD_r1_r2(Reg8::E, Reg8::B);
                4
            },
            0x59 => {
                self.execute_LD_r1_r2(Reg8::E, Reg8::C);
                4
            },
            0x5A => {
                self.execute_LD_r1_r2(Reg8::E, Reg8::D);
                4
            },
            0x5C => {
                self.execute_LD_r1_r2(Reg8::E, Reg8::H);
                4
            },
            0x5D => {
                self.execute_LD_r1_r2(Reg8::E, Reg8::L);
                4
            },
            0x47 => {
                self.execute_LD_r1_r2(Reg8::B, Reg8::A);
                4
            },
            0x4F => {
                self.execute_LD_r1_r2(Reg8::C, Reg8::A);
                4
            },
            0x57 => {
                self.execute_LD_r1_r2(Reg8::D, Reg8::A);
                4
            },
            0x5F => {
                self.execute_LD_r1_r2(Reg8::E, Reg8::A);
                4
            },
            0x40 => {
                self.execute_LD_r1_r2(Reg8::B, Reg8::B);
                4
            },
            0x49 => {
                self.execute_LD_r1_r2(Reg8::C, Reg8::C);
                4
            },
            0x52 => {
                self.execute_LD_r1_r2(Reg8::D, Reg8::D);
                4
            },
            0x5B => {
                self.execute_LD_r1_r2(Reg8::E, Reg8::E);
                4
            },
            0x46 => {
                self.execute_LD_r1_Irr2(Reg8::B, Reg16::HL);
                8
            },
            0x4E => {
                self.execute_LD_r1_Irr2(Reg8::C, Reg16::HL);
                8
            },
            0x56 => {
                self.execute_LD_r1_Irr2(Reg8::D, Reg16::HL);
                8
            },
            0x5E => {
                self.execute_LD_r1_Irr2(Reg8::E, Reg16::HL);
                8
            },
            _ => {
                proof {
                    assert(false);
                }
                0
            },
        }
    }

    #[verifier::rlimit(100)]
    #[verifier::spinoff_prover]
    fn execute_one_byte_60_7f(&mut self, x: u8) -> (ticks: u8)
        requires
            0x60 <= x <= 0x7F,
            decode_one(x) is Some,
            defined(old(self)@, decode_one(x).unwrap()),
        ensures
            final(self)@ == run(old(self)@, decode_one(x).unwrap()),
            ticks == cycles(decode_one(x).unwrap()),
    {
        match x {
            0x78 => {
                self.execute_LD_r1_r2(Reg8::A, Reg8::B);
                4
            },
            0x79 => {
                self.execute_LD_r1_r2(Reg8::A, Reg8::C);
                4
            },
            0x7A => {
                self.execute_LD_r1_r2(Reg8::A, Reg8::D);
                4
            },
            0x7B => {
                self.execute_LD_r1_r2(Reg8::A, Reg8::E);
                4
            },
            0x7C => {
                self.execute_LD_r1_r2(Reg8::A, Reg8::H);
                4
            },
            0x7D => {
                self.execute_LD_r1_r2(Reg8::A, Reg8::L);
                4
            },
            0x60 => {
                self.execute_LD_r1_r2(Reg8::H, Reg8::B);
                4
            },
            0x61 => {
                self.execute_LD_r1_r2(Reg8::H, Reg8::C);
                4
            },
            0x62 => {
                self.execute_LD_r1_r2(Reg8::H, Reg8::D);
                4
            },
            0x63 => {
                self.execute_LD_r1_r2(Reg8::H, Reg8::E);
                4
            },
            0x65 => {
                self.execute_LD_r1_r2(Reg8::H, Reg8::L);
                4
            },
            0x68 => {
                self.execute_LD_r1_r2(Reg8::L, Reg8::B);
                4
            },
            0x69 => {
                self.execute_LD_r1_r2(Reg8::L, Reg8::C);
                4
            },
            0x6A => {
                self.execute_LD_r1_r2(Reg8::L, Reg8::D);
                4
            },
            0x6B => {
                self.execute_LD_r1_r2(Reg8::L, Reg8::E);
                4
            },
            0x6C => {
                self.execute_LD_r1_r2(Reg8::L, Reg8::H);
                4
            },
            0x67 => {
                self.execute_LD_r1_r2(Reg8::H, Reg8::A);
                4
            },
            0x6F => {
                self.execute_LD_r1_r2(Reg8::L, Reg8::A);
                4
            },
            0x7F => {
                self.execute_LD_r1_r2(Reg8::A, Reg8::A);
                4
            },
            0x64 => {
                self.execute_LD_r1_r2(Reg8::H, Reg8::H);
                4
            },
            0x6D => {
                self.execute_LD_r1_r2(Reg8::L, Reg8::L);
                4
            },
            0x7E => {
                self.execute_LD_r1_Irr2(Reg8::A, Reg16::HL);
                8
            },
            0x66 => {
                self.execute_LD_r1_Irr2(Reg8::H, Reg16::HL);
                8
            },
            0x6E => {
                self.execute_LD_r1_Irr2(Reg8::L, Reg16::HL);
                8
            },
            0x70 => {
                self.execute_LD_Irr1_r2(Reg16::HL, Reg8::B);
                8
            },
            0x71 => {
                self.execute_LD_Irr1_r2(Reg16::HL, Reg8::C);
                8
            },
            0x72 => {
                self.execute_LD_Irr1_r2(Reg16::HL, Reg8::D);
                8
            },
            0x73 => {
                self.execute_LD_Irr1_r2(Reg16::HL, Reg8::E);
                8
            },
            0x74 => {
                self.execute_LD_Irr1_r2(Reg16::HL, Reg8::H);
                8
            },
            0x75 => {
                self.execute_LD_Irr1_r2(Reg16::HL, Reg8::L);
                8
            },
            0x77 => {
                self.execute_LD_Irr1_r2(Reg16::HL, Reg8::A);
                8
            },
            _ => {
                proof {
                    assert(false);
                }
                0
            },
        }
    }

    #[verifier::rlimit(100)]
    #[verifier::spinoff_prover]
    fn execute_one_byte_80_9f(&mut self, x: u8) -> (ticks: u8)
        requires
            0x80 <= x <= 0x9F,
            decode_one(x) is Some,
            defined(old(self)@, decode_one(x).unwrap()),
        ensures
            final(self)@ == run(old(self)@, decode_one(x).unwrap()),
            ticks == cycles(decode_one(x).unwrap()),
    {
        match x {
            0x87 => {
                self.execute_ADD_A_r(Reg8::A);
                4
            },
            0x80 => {
                self.execute_ADD_A_r(Reg8::B);
                4
            },
            0x81 => {
                self.execute_ADD_A_r(Reg8::C);
                4
            },
            0x82 => {
                self.execute_ADD_A_r(Reg8::D);
                4
            },
            0x83 => {
                self.execute_ADD_A_r(Reg8::E);
                4
            },
            0x84 => {
                self.execute_ADD_A_r(Reg8::H);
                4
            },
            0x85 => {
                self.execute_ADD_A_r(Reg8::L);
                4
            },
            0x86 => {
                self.execute_ADD_A_IHL();
                8
            },
            0x8F => {
                self.execute_ADC_A_r(Reg8::A);
                4
            },
            0x88 => {
                self.execute_ADC_A_r(Reg8::B);
                4
            },
            0x89 => {
                self.execute_ADC_A_r(Reg8::C);
                4
            },
            0x8A => {
                self.execute_ADC_A_r(Reg8::D);
                4
            },
            0x8B => {
                self.execute_ADC_A_r(Reg8::E);
                4
            },
            0x8C => {
                self.execute_ADC_A_r(Reg8::H);
                4
            },
            0x8D => {
                self.execute_ADC_A_r(Reg8::L);
                4
            },
            0x8E => {
                self.execute_ADC_A_IHL();
                8
            },
            0x97 => {
                self.execute_SUB_A_r(Reg8::A);
                4
            },
            0x90 => {
                self.execute_SUB_A_r(Reg8::B);
                4
            },
            0x91 => {
                self.execute_SUB_A_r(Reg8::C);
                4
            },
            0x92 => {
                self.execute_SUB_A_r(Reg8::D);
                4
            },
            0x93 => {
                self.execute_SUB_A_r(Reg8::E);
                4
            },
            0x94 => {
                self.execute_SUB_A_r(Reg8::H);
                4
            },
            0x95 => {
                self.execute_SUB_A_r(Reg8::L);
                4
            },
            0x96 => {
                self.execute_SUB_A_IHL();
                8
            },
            0x9F => {
                self.execute_SBC_A_r(Reg8::A);
                4
            },
            0x98 => {
                self.execute_SBC_A_r(Reg8::B);
                4
            },
            0x99 => {
                self.execute_SBC_A_r(Reg8::C);
                4
            },
            0x9A => {
                self.execute_SBC_A_r(Reg8::D);
                4
            },
            0x9B => {
                self.execute_SBC_A_r(Reg8::E);
                4
            },
            0x9C => {
                self.execute_SBC_A_r(Reg8::H);
                4
            },
            0x9D => {
                self.execute_SBC_A_r(Reg8::L);
                4
            },
            0x9E => {
                self.execute_SBC_A_IHL();
                8
            },
            _ => {
                proof {
                    assert(false);
                }
                0
            },
        }
    }

    #[verifier::rlimit(100)]
    #[verifier::spinoff_prover]
    fn execute_one_byte_a0_bf(&mut self, x: u8) -> (ticks: u8)
        requires
            0xA0 <= x <= 0xBF,
            decode_one(x) is Some,
            defined(old(self)@, decode_one(x).unwrap()),
        ensures
            final(self)@ == run(old(self)@, decode_one(x).unwrap()),
            ticks == cycles(decode_one(x).unwrap()),
    {
        match x {
            0xA7 => {
                self.execute_AND_A_r(Reg8::A);
                4
            },
            0xA0 => {
                self.execute_AND_A_r(Reg8::B);
                4
            },
            0xA1 => {
                self.execute_AND_A_r(Reg8::C);
                4
            },
            0xA2 => {
                self.execute_AND_A_r(Reg8::D);
                4
            },
            0xA3 => {
                self.execute_AND_A_r(Reg8::E);
                4
            },
            0xA4 => {
                self.execute_AND_A_r(Reg8::H);
                4
            },
            0xA5 => {
                self.execute_AND_A_r(Reg8::L);
                4
            },
            0xA6 => {
                self.execute_AND_A_IHL();
                8
            },
            0xB7 => {
                self.execute_OR_A_r(Reg8::A);
                4
            },
            0xB0 => {
                self.execute_OR_A_r(Reg8::B);
                4
            },
            0xB1 => {
                self.execute_OR_A_r(Reg8::C);
                4
            },
            0xB2 => {
                self.execute_OR_A_r(Reg8::D);
                4
            },
            0xB3 => {
                self.execute_OR_A_r(Reg8::E);
                4
            },
            0xB4 => {
                self.execute_OR_A_r(Reg8::H);
                4
            },
            0xB5 => {
                self.execute_OR_A_r(Reg8::L);
                4
            },
            0xB6 => {
                self.execute_OR_A_IHL();
                8
            },
            0xAF => {
                self.execute_XOR_A_r(Reg8::A);
                4
            },
            0xA8 => {
                self.execute_XOR_A_r(Reg8::B);
                4
            },
            0xA9 => {
                self.execute_XOR_A_r(Reg8::C);
                4
            },
            0xAA => {
                self.execute_XOR_A_r(Reg8::D);
                4
            },
            0xAB => {
                self.execute_XOR_A_r(Reg8::E);
                4
            },
            0xAC => {
                self.execute_XOR_A_r(Reg8::H);
                4
            },
            0xAD => {
                self.execute_XOR_A_r(Reg8::L);
                4
            },
            0xAE => {
                self.execute_XOR_A_IHL();
                8
            },
            0xBF => {
                self.execute_CP_A_r(Reg8::A);
                4
            },
            0xB8 => {
                self.execute_CP_A_r(Reg8::B);
                4
            },
            0xB9 => {
                self.execute_CP_A_r(Reg8::C);
                4
            },
            0xBA => {
                self.execute_CP_A_r(Reg8::D);
                4
            },
            0xBB => {
                self.execute_CP_A_r(Reg8::E);
                4
            },
            0xBC => {
                self.execute_CP_A_r(Reg8::H);
                4
            },
            0xBD => {
                self.execute_CP_A_r(Reg8::L);
                4
            },
            0xBE => {
                self.execute_CP_A_IHL();
                8
            },
            _ => {
                proof {
                    assert(false);
                }
                0
            },
        }
    }

    #[verifier::rlimit(100)]
    #[verifier::spinoff_prover]
    fn execute_one_byte_c0_df(&mut self, x: u8) -> (ticks: u8)
        requires
            0xC0 <= x <= 0xDF,
            decode_one(x) is Some,
            defined(old(self)@, decode_one(x).unwrap()),
        ensures
            final(self)@ == run(old(self)@, decode_one(x).unwrap()),
            ticks == cycles(decode_one(x).unwrap()),
    {
        match x {
            0xC5 => {
                self.execute_PUSH_rr(Reg16::BC);
                16
            },
            0xD5 => {
                self.execute_PUSH_rr(Reg16::DE);
                16
            },
            0xC1 => {
                self.execute_POP_rr(Reg16::BC);
                12
            },
            0xD1 => {
                self.execute_POP_rr(Reg16::DE);
                12
            },
            0xC7 => {
                self.execute_RST();
                16
            },
            0xCF => {
                self.execute_RST();
                16
            },
            0xD7 => {
                self.execute_RST();
                16
            },
            0xDF => {
                self.execute_RST();
                16
            },
            0xC9 => {
                self.execute_RET();
                16
            },
            0xC0 => {
                self.execute_RET_cc(Flag::z, false);
                20
            },
            0xC8 => {
                self.execute_RET_cc(Flag::z, true);
                20
            },
            0xD0 => {
                self.execute_RET_cc(Flag::c, false);
                20
            },
            0xD8 => {
                self.execute_RET_cc(Flag::c, true);
                20
            },
            _ => {
                proof {
                    assert(false);
                }
                0
            },
        }
    }

    #[verifier::rlimit(100)]
    #[verifier::spinoff_prover]
    fn execute_one_byte_e0_ff(&mut self, x: u8) -> (ticks: u8)
        requires
            0xE0 <= x <= 0xFF,
            decode_one(x) is Some,
            defined(old(self)@, decode_one(x).unwrap()),
        ensures
            final(self)@ == run(old(self)@, decode_one(x).unwrap()),
            ticks == cycles(decode_one(x).unwrap()),
    {
        match x {
            0xF2 => {
                self.execute_LD_A_IC();
                8
            },
            0xE2 => {
                self.execute_LD_IC_A();
                8
            },
            0xF9 => {
                self.execute_LD_SP_HL();
                8
            },
            0xF5 => {
                self.execute_PUSH_rr(Reg16::AF);
                16
            },
            0xE5 => {
                self.execute_PUSH_rr(Reg16::HL);
                16
            },
            0xE1 => {
                self.execute_POP_rr(Reg16::HL);
                12
            },
            0xF1 => {
                self.execute_POP_AF();
                12
            },
            0xE9 => {
                self.execute_JP_IHL();
                4
            },
            0xE7 => {
                self.execute_RST();
                16
            },
            0xEF => {
                self.execute_RST();
                16
            },
            0xF7 => {
                self.execute_RST();
                16
            },
            0xFF => {
                self.execute_RST();
                16
            },
            _ => {
                proof {
                    assert(false);
                }
                0
            },
        }
    }

    #[verifier::rlimit(100)]
    #[verifier::spinoff_prover]
    fn execute_prefixed_00_1f(&mut self, x: u8) -> (ticks: u8)
        requires
            0x00 <= x <= 0x1F,
            decode_two(0xCB, x) is Some,
            defined(old(self)@, decode_two(0xCB, x).unwrap()),
        ensures
            final(self)@ == run(old(self)@, decode_two(0xCB, x).unwrap()),
            ticks == cycles(decode_two(0xCB, x).unwrap()),
    {
        match x {
            0x07 => {
                self.execute_RLC_r(Reg8::A);
                8
            },
            0x00 => {
                self.execute_RLC_r(Reg8::B);
                8
            },
            0x01 => {
                self.execute_RLC_r(Reg8::C);
                8
            },
            0x02 => {
                self.execute_RLC_r(Reg8::D);
                8
            },
            0x03 => {
                self.execute_RLC_r(Reg8::E);
                8
            },
            0x04 => {
                self.execute_RLC_r(Reg8::H);
                8
            },
            0x05 => {
                self.execute_RLC_r(Reg8::L);
                8
            },
            0x06 => {
                self.execute_RLC_IHL();
                16
            },
            0x17 => {
                self.execute_RL_r(Reg8::A);
                8
            },
            0x10 => {
                self.execute_RL_r(Reg8::B);
                8
            },
            0x11 => {
                self.execute_RL_r(Reg8::C);
                8
            },
            0x12 => {
                self.execute_RL_r(Reg8::D);
                8
            },
            0x13 => {
                self.execute_RL_r(Reg8::E);
                8
            },
            0x14 => {
                self.execute_RL_r(Reg8::H);
                8
            },
            0x15 => {
                self.execute_RL_r(Reg8::L);
                8
            },
            0x16 => {
                self.execute_RL_IHL();
                16
            },
            0x0F => {
                self.execute_RRC_r(Reg8::A);
                8
            },
            0x08 => {
                self.execute_RRC_r(Reg8::B);
                8
            },
            0x09 => {
                self.execute_RRC_r(Reg8::C);
                8
            },
            0x0A => {
                self.execute_RRC_r(Reg8::D);
                8
            },
            0x0B => {
                self.execute_RRC_r(Reg8::E);
                8
            },
            0x0C => {
                self.execute_RRC_r(Reg8::H);
                8
            },
            0x0D => {
                self.execute_RRC_r(Reg8::L);
                8
            },
            0x0E => {
                self.execute_RRC_IHL();
                16
            },
            0x1F => {
                self.execute_RR_r(Reg8::A);
                8
            },
            0x18 => {
                self.execute_RR_r(Reg8::B);
                8
            },
            0x19 => {
                self.execute_RR_r(Reg8::C);
                8
            },
            0x1A => {
                self.execute_RR_r(Reg8::D);
                8
            },
            0x1B => {
                self.execute_RR_r(Reg8::E);
                8
            },
            0x1C => {
                self.execute_RR_r(Reg8::H);
                8
            },
            0x1D => {
                self.execute_RR_r(Reg8::L);
                8
            },
            0x1E => {
                self.execute_RR_IHL();
                16
            },
            _ => {
                proof {
                    assert(false);
                }
                0
            },
        }
    }

    #[verifier::rlimit(100)]
    #[verifier::spinoff_prover]
    fn execute_prefixed_20_2f(&mut self, x: u8) -> (ticks: u8)
        requires
            0x20 <= x <= 0x2F,
            decode_two(0xCB, x) is Some,
            defined(old(self)@, decode_two(0xCB, x).unwrap()),
        ensures
            final(self)@ == run(old(self)@, decode_two(0xCB, x).unwrap()),
            ticks == cycles(decode_two(0xCB, x).unwrap()),
    {
        match x {
            0x27 => {
                self.execute_SLA_r(Reg8::A);
                8
            },
            0x20 => {
                self.execute_SLA_r(Reg8::B);
                8
            },
            0x21 => {
                self.execute_SLA_r(Reg8::C);
                8
            },
            0x22 => {
                self.execute_SLA_r(Reg8::D);
                8
            },
            0x23 => {
                self.execute_SLA_r(Reg8::E);
                8
            },
            0x24 => {
                self.execute_SLA_r(Reg8::H);
                8
            },
            0x25 => {
                self.execute_SLA_r(Reg8::L);
                8
            },
            0x26 => {
                self.execute_SLA_IHL();
                16
            },
            0x2F => {
                self.execute_SRA_r(Reg8::A);
                8
            },
            0x28 => {
                self.execute_SRA_r(Reg8::B);
                8
            },
            0x29 => {
                self.execute_SRA_r(Reg8::C);
                8
            },
            0x2A => {
                self.execute_SRA_r(Reg8::D);
                8
            },
            0x2B => {
                self.execute_SRA_r(Reg8::E);
                8
            },
            0x2C => {
                self.execute_SRA_r(Reg8::H);
                8
            },
            0x2D => {
                self.execute_SRA_r(Reg8::L);
                8
            },
            0x2E => {
                self.execute_SRA_IHL();
                16
            },
            _ => {
                proof {
                    assert(false);
                }
                0
            },
        }
    }

    #[verifier::rlimit(100)]
    #[verifier::spinoff_prover]
    fn execute_prefixed_30_37(&mut self, x: u8) -> (ticks: u8)
        requires
            0x30 <= x <= 0x37,
            decode_two(0xCB, x) is Some,
            defined(old(self)@, decode_two(0xCB, x).unwrap()),
        ensures
            final(self)@ == run(old(self)@, decode_two(0xCB, x).unwrap()),
            ticks == cycles(decode_two(0xCB, x).unwrap()),
    {
        match x {
            0x37 => {
                self.execute_SWAP_r(Reg8::A);
                8
            },
            0x30 => {
                self.execute_SWAP_r(Reg8::B);
                8
            },
            0x31 => {
                self.execute_SWAP_r(Reg8::C);
                8
            },
            0x32 => {
                self.execute_SWAP_r(Reg8::D);
                8
            },
            0x33 => {
                self.execute_SWAP_r(Reg8::E);
                8
            },
            0x34 => {
                self.execute_SWAP_r(Reg8::H);
                8
            },
            0x35 => {
                self.execute_SWAP_r(Reg8::L);
                8
            },
            0x36 => {
                self.execute_SWAP_IHL();
                16
            },
            _ => {
                proof {
                    assert(false);
                }
                0
            },
        }
    }

    #[verifier::rlimit(100)]
    #[verifier::spinoff_prover]
    fn execute_prefixed_38_3f(&mut self, x: u8) -> (ticks: u8)
        requires
            0x38 <= x <= 0x3F,
            decode_two(0xCB, x) is Some,
            defined(old(self)@, decode_two(0xCB, x).unwrap()),
        ensures
            final(self)@ == run(old(self)@, decode_two(0xCB, x).unwrap()),
            ticks == cycles(decode_two(0xCB, x).unwrap()),
    {
        match x {
            0x3F => {
                self.execute_SRL_r(Reg8::A);
                8
            },
            0x38 => {
                self.execute_SRL_r(Reg8::B);
                8
            },
            0x39 => {
                self.execute_SRL_r(Reg8::C);
                8
            },
            0x3A => {
                self.execute_SRL_r(Reg8::D);
                8
            },
            0x3B => {
                self.execute_SRL_r(Reg8::E);
                8
            },
            0x3C => {
                self.execute_SRL_r(Reg8::H);
                8
            },
            0x3D => {
                self.execute_SRL_r(Reg8::L);
                8
            },
            0x3E => {
                self.execute_SRL_IHL();
                16
            },
            _ => {
                proof {
                    assert(false);
                }
                0
            },
        }
    }
}

} // verus!
