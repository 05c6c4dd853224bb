use rand::RngCore;
use vstd::prelude::*;

use crate::registers::{Flag, Reg16, Reg8, Registers8Pair};
use crate::state::{lemma_f_byte_round_trip, CpuState, MEMORY_SIZE};

verus! {

/// The Sharp LR35902 processor: its registers and its 64 KiB of internal RAM.
///
/// The flags live in the high nibble of `F`, as on the hardware; registers and flags are read
/// and written through the accessors below.
pub struct Cpu {
    af: Registers8Pair,
    bc: Registers8Pair,
    de: Registers8Pair,
    hl: Registers8Pair,
    sp: u16,
    pc: u16,
    /// Internal RAM, covering the whole address space.
    pub internal_ram: [u8; 65536],
}

impl View for Cpu {
    type V = CpuState;

    closed spec fn view(&self) -> CpuState {
        CpuState {
            a: self.af.h,
            b: self.bc.h,
            c: self.bc.l,
            d: self.de.h,
            e: self.de.l,
            h: self.hl.h,
            l: self.hl.l,
            zf: (self.af.l / 128) % 2 == 1,
            nf: (self.af.l / 64) % 2 == 1,
            hf: (self.af.l / 32) % 2 == 1,
            cf: (self.af.l / 16) % 2 == 1,
            f_low: self.af.l % 16,
            sp: self.sp,
            pc: self.pc,
            mem: self.internal_ram@,
        }
    }
}

/// Fills `ram` with bytes from `rand::thread_rng()`, through `rand::RngCore::fill_bytes`.
///
/// The bytes come from a random number generator: nothing is stated of them.
#[verifier::external_body]
fn fill_random(ram: &mut [u8; 65536]) {
    rand::thread_rng().fill_bytes(ram);
}

impl Cpu {
    /// A processor with all registers and flags cleared, and its RAM filled with random bytes.
    pub fn new() -> (cpu: Cpu)
        ensures
            cpu@ == (CpuState {
                a: 0,
                b: 0,
                c: 0,
                d: 0,
                e: 0,
                h: 0,
                l: 0,
                zf: false,
                nf: false,
                hf: false,
                cf: false,
                f_low: 0,
                sp: 0,
                pc: 0,
                mem: cpu@.mem,
            }),
            cpu@.mem.len() == MEMORY_SIZE,
    {
        let mut internal_ram = [0u8; 65536];
        fill_random(&mut internal_ram);
        Cpu::with_ram(internal_ram)
    }

    /// A processor with all registers and flags cleared, and `ram` as its RAM.
    pub fn with_ram(ram: [u8; 65536]) -> (cpu: Cpu)
        ensures
            cpu@ == (CpuState {
                a: 0,
                b: 0,
                c: 0,
                d: 0,
                e: 0,
                h: 0,
                l: 0,
                zf: false,
                nf: false,
                hf: false,
                cf: false,
                f_low: 0,
                sp: 0,
                pc: 0,
                mem: ram@,
            }),
            cpu@.mem.len() == MEMORY_SIZE,
    {
        let cpu = Cpu {
            af: Registers8Pair { l: 0, h: 0 },
            bc: Registers8Pair { l: 0, h: 0 },
            de: Registers8Pair { l: 0, h: 0 },
            hl: Registers8Pair { l: 0, h: 0 },
            sp: 0,
            pc: 0,
            internal_ram: ram,
        };
        proof {
            cpu.lemma_view_wf();
        }
        cpu
    }

    /// Every view of a processor is a well-formed state.
    pub proof fn lemma_view_wf(&self)
        ensures
            self@.wf(),
    {
        assert(self.internal_ram@.len() == MEMORY_SIZE);
    }

    /// Reads an 8-bit register.
    pub fn reg8(&self, register: Reg8) -> (value: u8)
        ensures
            value == self@.reg8(register),
    {
        proof {
            lemma_f_byte_round_trip(self.af.l);
        }
        match register {
            Reg8::A => self.af.h,
            Reg8::F => self.af.l,
            Reg8::B => self.bc.h,
            Reg8::C => self.bc.l,
            Reg8::D => self.de.h,
            Reg8::E => self.de.l,
            Reg8::H => self.hl.h,
            Reg8::L => self.hl.l,
        }
    }

    /// Writes an 8-bit register.
    pub fn set_reg8(&mut self, register: Reg8, value: u8)
        ensures
            final(self)@ == old(self)@.with_reg8(register, value),
    {
        match register {
            Reg8::A => self.af.h = value,
            Reg8::F => self.af.l = value,
            Reg8::B => self.bc.h = value,
            Reg8::C => self.bc.l = value,
            Reg8::D => self.de.h = value,
            Reg8::E => self.de.l = value,
            Reg8::H => self.hl.h = value,
            Reg8::L => self.hl.l = value,
        }
    }

    /// Reads a 16-bit register; the pairs read their first register as the high byte.
    pub fn reg16(&self, register: Reg16) -> (value: u16)
        ensures
            value == self@.reg16(register),
    {
        proof {
            lemma_f_byte_round_trip(self.af.l);
        }
        match register {
            Reg16::AF => self.af.r16(),
            Reg16::BC => self.bc.r16(),
            Reg16::DE => self.de.r16(),
            Reg16::HL => self.hl.r16(),
            Reg16::SP => self.sp,
            Reg16::PC => self.pc,
        }
    }

    /// Writes a 16-bit register; the pairs take the high byte in their first register.
    pub fn set_reg16(&mut self, register: Reg16, value: u16)
        ensures
            final(self)@ == old(self)@.with_reg16(register, value),
    {
        match register {
            Reg16::AF => self.af = Registers8Pair::from_r16(value),
            Reg16::BC => self.bc = Registers8Pair::from_r16(value),
            Reg16::DE => self.de = Registers8Pair::from_r16(value),
            Reg16::HL => self.hl = Registers8Pair::from_r16(value),
            Reg16::SP => self.sp = value,
            Reg16::PC => self.pc = value,
        }
    }

    /// Reads a flag: `z`, `n`, `h` and `c` are bits 7, 6, 5 and 4 of `F`.
    pub fn get_flag(&self, flag: Flag) -> (value: bool)
        ensures
            value == self@.flag(flag),
    {
        let f = self.af.l;
        proof {
            assert((f & 0b1000_0000 > 0) == ((f / 128) % 2 == 1)) by (bit_vector);
            assert((f & 0b0100_0000 > 0) == ((f / 64) % 2 == 1)) by (bit_vector);
            assert((f & 0b0010_0000 > 0) == ((f / 32) % 2 == 1)) by (bit_vector);
            assert((f & 0b0001_0000 > 0) == ((f / 16) % 2 == 1)) by (bit_vector);
        }
        match flag {
            Flag::z => f & 0b1000_0000 > 0,
            Flag::n => f & 0b0100_0000 > 0,
            Flag::h => f & 0b0010_0000 > 0,
            Flag::c => f & 0b0001_0000 > 0,
        }
    }

    /// Writes a flag, leaving the other bits of `F` as they are.
    pub fn set_flag(&mut self, flag: Flag, value: bool)
        ensures
            final(self)@ == old(self)@.with_flag(flag, value),
    {
        let bit_position: u8 = match flag {
            Flag::z => 7,
            Flag::n => 6,
            Flag::h => 5,
            Flag::c => 4,
        };
        let bit: u8 = if value {
            1
        } else {
            0
        };
        let f = self.af.l;
        let new_f: u8 = (f & !(1u8 << bit_position)) | (bit << bit_position);
        proof {
            assert(bit_position == 7 ==> {
                &&& (new_f / 128) % 2 == bit
                &&& (new_f / 64) % 2 == (f / 64) % 2
                &&& (new_f / 32) % 2 == (f / 32) % 2
                &&& (new_f / 16) % 2 == (f / 16) % 2
                &&& new_f % 16 == f % 16
            }) by (bit_vector)
                requires
                    new_f == (f & !(1u8 << bit_position)) | (bit << bit_position),
                    bit <= 1,
            ;
            assert(bit_position == 6 ==> {
                &&& (new_f / 128) % 2 == (f / 128) % 2
                &&& (new_f / 64) % 2 == bit
                &&& (new_f / 32) % 2 == (f / 32) % 2
                &&& (new_f / 16) % 2 == (f / 16) % 2
                &&& new_f % 16 == f % 16
            }) by (bit_vector)
                requires
                    new_f == (f & !(1u8 << bit_position)) | (bit << bit_position),
                    bit <= 1,
            ;
            assert(bit_position == 5 ==> {
                &&& (new_f / 128) % 2 == (f / 128) % 2
                &&& (new_f / 64) % 2 == (f / 64) % 2
                &&& (new_f / 32) % 2 == bit
                &&& (new_f / 16) % 2 == (f / 16) % 2
                &&& new_f % 16 == f % 16
            }) by (bit_vector)
                requires
                    new_f == (f & !(1u8 << bit_position)) | (bit << bit_position),
                    bit <= 1,
            ;
            assert(bit_position == 4 ==> {
                &&& (new_f / 128) % 2 == (f / 128) % 2
                &&& (new_f / 64) % 2 == (f / 64) % 2
                &&& (new_f / 32) % 2 == (f / 32) % 2
                &&& (new_f / 16) % 2 == bit
                &&& new_f % 16 == f % 16
            }) by (bit_vector)
                requires
                    new_f == (f & !(1u8 << bit_position)) | (bit << bit_position),
                    bit <= 1,
            ;
        }
        self.af.l = new_f;
    }

    /// Reads the byte at `address`.
    pub fn read_byte(&self, address: u16) -> (value: u8)
        ensures
            value == self@.byte(address as int),
    {
        self.internal_ram[address as usize]
    }

    /// Writes the byte at `address`.
    pub fn write_byte(&mut self, address: u16, value: u8)
        ensures
            final(self)@ == old(self)@.with_byte(address as int, value),
    {
        self.internal_ram[address as usize] = value;
    }
}

} // verus!
