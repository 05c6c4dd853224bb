use vstd::prelude::*;

verus! {

/// The two halves of a 16-bit register pair; `l` is the low byte, `h` the high one.
#[derive(Copy, Clone)]
pub struct Registers8Pair {
    pub l: u8,
    pub h: u8,
}

impl Registers8Pair {
    /// The 16-bit value that the pair holds (little endian: `l` is the low byte).
    pub open spec fn word(self) -> u16 {
        (self.h as int * 256 + self.l as int) as u16
    }

    /// Reads the pair as a 16-bit value.
    pub fn r16(&self) -> (value: u16)
        ensures
            value == self.word(),
            value as int == self.h as int * 256 + self.l as int,
    {
        self.h as u16 * 256 + self.l as u16
    }

    /// Builds the pair that holds the 16-bit `value`.
    pub fn from_r16(value: u16) -> (pair: Registers8Pair)
        ensures
            pair.h as int == value as int / 256,
            pair.l as int == value as int % 256,
            pair.word() == value,
    {
        Registers8Pair { l: (value % 256) as u8, h: (value / 256) as u8 }
    }
}

/// The 8-bit registers.
#[derive(Copy, Clone, Debug, PartialEq, Eq, Structural)]
pub enum Reg8 {
    A,
    F,
    B,
    C,
    D,
    E,
    H,
    L,
}

/// The 16-bit registers; all but `SP` and `PC` are pairs of 8-bit registers.
#[derive(Copy, Clone, Debug, PartialEq, Eq, Structural)]
pub enum Reg16 {
    AF,
    BC,
    DE,
    HL,
    SP,
    PC,
}

/// The flags, stored in the high nibble of the `F` register.
#[derive(Copy, Clone, Debug, PartialEq, Eq, Structural)]
pub enum Flag {
    z,
    n,
    h,
    c,
}

} // verus!
