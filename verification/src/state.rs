use vstd::prelude::*;

use crate::registers::{Flag, Reg16, Reg8};

verus! {

/// Size of the addressable memory, in bytes.
pub const MEMORY_SIZE: usize = 65536;

/// The 16-bit value made of a high and a low byte.
pub open spec fn word_of(high: u8, low: u8) -> u16 {
    (high as int * 256 + low as int) as u16
}

/// Reduces an integer modulo 2^16.
pub open spec fn wrap16(x: int) -> u16 {
    (x % 65536) as u16
}

/// Reduces an integer modulo 2^8.
pub open spec fn wrap8(x: int) -> u8 {
    (x % 256) as u8
}

/// The value of a byte read as a two's complement signed number.
pub open spec fn signed8(x: u8) -> int {
    if x < 128 {
        x as int
    } else {
        x as int - 256
    }
}

/// The processor as the instructions see it: the 8-bit registers, the four flags (with the
/// low nibble of `F`, which no flag uses), the stack pointer, the program counter and the
/// memory.
pub struct CpuState {
    pub a: u8,
    pub b: u8,
    pub c: u8,
    pub d: u8,
    pub e: u8,
    pub h: u8,
    pub l: u8,
    pub zf: bool,
    pub nf: bool,
    pub hf: bool,
    pub cf: bool,
    pub f_low: u8,
    pub sp: u16,
    pub pc: u16,
    pub mem: Seq<u8>,
}

/// The `F` byte splits into its flag bits and its low nibble, and is rebuilt from them.
pub proof fn lemma_f_byte_round_trip(v: u8)
    ensures
        forall|s: CpuState| #[trigger] s.with_f_byte(v).f_byte() == v,
        forall|s: CpuState| #[trigger] s.with_f_byte(v).f_low < 16,
{
    assert(((if (v / 128) % 2 == 1 { 128u64 } else { 0u64 }) + (if (v / 64) % 2 == 1 {
        64u64
    } else {
        0u64
    }) + (if (v / 32) % 2 == 1 { 32u64 } else { 0u64 }) + (if (v / 16) % 2 == 1 {
        16u64
    } else {
        0u64
    }) + (v % 16) as u64) == v as u64) by (bit_vector);
}

impl CpuState {
    /// A state that a processor can be in: the unused nibble of `F` fits in four bits, and
    /// the memory covers the whole address space.
    pub open spec fn wf(self) -> bool {
        &&& self.f_low < 16
        &&& self.mem.len() == MEMORY_SIZE
    }

    /// The `F` register: `z`, `n`, `h`, `c` in bits 7 to 4, then the unused low nibble.
    pub open spec fn f_byte(self) -> u8 {
        ((if self.zf { 128int } else { 0int }) + (if self.nf { 64int } else { 0int }) + (if self.hf {
            32int
        } else {
            0int
        }) + (if self.cf { 16int } else { 0int }) + self.f_low) as u8
    }

    /// The state whose `F` register holds `value`.
    pub open spec fn with_f_byte(self, value: u8) -> CpuState {
        CpuState {
            zf: (value / 128) % 2 == 1,
            nf: (value / 64) % 2 == 1,
            hf: (value / 32) % 2 == 1,
            cf: (value / 16) % 2 == 1,
            f_low: value % 16,
            ..self
        }
    }

    pub open spec fn flag(self, flag: Flag) -> bool {
        match flag {
            Flag::z => self.zf,
            Flag::n => self.nf,
            Flag::h => self.hf,
            Flag::c => self.cf,
        }
    }

    pub open spec fn with_flag(self, flag: Flag, value: bool) -> CpuState {
        match flag {
            Flag::z => CpuState { zf: value, ..self },
            Flag::n => CpuState { nf: value, ..self },
            Flag::h => CpuState { hf: value, ..self },
            Flag::c => CpuState { cf: value, ..self },
        }
    }

    /// The state with all four flags replaced.
    pub open spec fn with_flags(self, z: bool, n: bool, h: bool, c: bool) -> CpuState {
        CpuState { zf: z, nf: n, hf: h, cf: c, ..self }
    }

    pub open spec fn reg8(self, register: Reg8) -> u8 {
        match register {
            Reg8::A => self.a,
            Reg8::F => self.f_byte(),
            Reg8::B => self.b,
            Reg8::C => self.c,
            Reg8::D => self.d,
            Reg8::E => self.e,
            Reg8::H => self.h,
            Reg8::L => self.l,
        }
    }

    pub open spec fn with_reg8(self, register: Reg8, value: u8) -> CpuState {
        match register {
            Reg8::A => CpuState { a: value, ..self },
            Reg8::F => self.with_f_byte(value),
            Reg8::B => CpuState { b: value, ..self },
            Reg8::C => CpuState { c: value, ..self },
            Reg8::D => CpuState { d: value, ..self },
            Reg8::E => CpuState { e: value, ..self },
            Reg8::H => CpuState { h: value, ..self },
            Reg8::L => CpuState { l: value, ..self },
        }
    }

    /// A 16-bit register; a pair reads its first register as the high byte.
    pub open spec fn reg16(self, register: Reg16) -> u16 {
        match register {
            Reg16::AF => word_of(self.a, self.f_byte()),
            Reg16::BC => word_of(self.b, self.c),
            Reg16::DE => word_of(self.d, self.e),
            Reg16::HL => word_of(self.h, self.l),
            Reg16::SP => self.sp,
            Reg16::PC => self.pc,
        }
    }

    pub open spec fn with_reg16(self, register: Reg16, value: u16) -> CpuState {
        let high = (value / 256) as u8;
        let low = (value % 256) as u8;
        match register {
            Reg16::AF => CpuState { a: high, ..self }.with_f_byte(low),
            Reg16::BC => CpuState { b: high, c: low, ..self },
            Reg16::DE => CpuState { d: high, e: low, ..self },
            Reg16::HL => CpuState { h: high, l: low, ..self },
            Reg16::SP => CpuState { sp: value, ..self },
            Reg16::PC => CpuState { pc: value, ..self },
        }
    }

    pub open spec fn hl(self) -> u16 {
        word_of(self.h, self.l)
    }

    /// The byte at `address`.
    pub open spec fn byte(self, address: int) -> u8 {
        self.mem[address]
    }

    pub open spec fn with_byte(self, address: int, value: u8) -> CpuState {
        CpuState { mem: self.mem.update(address, value), ..self }
    }

    /// The little-endian 16-bit value at `address`.
    pub open spec fn word_at(self, address: int) -> u16 {
        word_of(self.mem[address + 1], self.mem[address])
    }

    /// The state with the little-endian 16-bit `value` at `address`.
    pub open spec fn with_word_at(self, address: int, value: u16) -> CpuState {
        self.with_byte(address, (value % 256) as u8).with_byte(address + 1, (value / 256) as u8)
    }

    pub open spec fn with_pc(self, value: u16) -> CpuState {
        CpuState { pc: value, ..self }
    }

    pub open spec fn with_sp(self, value: u16) -> CpuState {
        CpuState { sp: value, ..self }
    }

    /// The state with the program counter moved forward by `size` bytes.
    pub open spec fn advance(self, size: int) -> CpuState {
        self.with_pc((self.pc + size) as u16)
    }

    /// Whether the program counter can move forward by `size` bytes without passing the
    /// end of the address space.
    pub open spec fn can_advance(self, size: int) -> bool {
        self.pc + size <= u16::MAX
    }
}

} // verus!
