//! Core registers, the program status register and condition codes.
use vstd::prelude::*;

use crate::common::Word;

verus! {

/// An ARM core register.
#[derive(Clone, Copy, PartialEq, Eq, Structural, Debug)]
pub enum RegisterID {
    R0,
    R1,
    R2,
    R3,
    R4,
    R5,
    R6,
    R7,
    R8,
    R9,
    R10,
    R11,
    R12,
    SP,
    LR,
    PC,
}

impl RegisterID {
    /// The register number (R13 is SP, R14 is LR, R15 is PC).
    pub open spec fn index_of(self) -> nat {
        match self {
            RegisterID::R0 => 0,
            RegisterID::R1 => 1,
            RegisterID::R2 => 2,
            RegisterID::R3 => 3,
            RegisterID::R4 => 4,
            RegisterID::R5 => 5,
            RegisterID::R6 => 6,
            RegisterID::R7 => 7,
            RegisterID::R8 => 8,
            RegisterID::R9 => 9,
            RegisterID::R10 => 10,
            RegisterID::R11 => 11,
            RegisterID::R12 => 12,
            RegisterID::SP => 13,
            RegisterID::LR => 14,
            RegisterID::PC => 15,
        }
    }

    /// The register with the given number (R15 for numbers from 15 on).
    pub open spec fn numbered(index: u32) -> RegisterID {
        if index == 0 {
            RegisterID::R0
        } else if index == 1 {
            RegisterID::R1
        } else if index == 2 {
            RegisterID::R2
        } else if index == 3 {
            RegisterID::R3
        } else if index == 4 {
            RegisterID::R4
        } else if index == 5 {
            RegisterID::R5
        } else if index == 6 {
            RegisterID::R6
        } else if index == 7 {
            RegisterID::R7
        } else if index == 8 {
            RegisterID::R8
        } else if index == 9 {
            RegisterID::R9
        } else if index == 10 {
            RegisterID::R10
        } else if index == 11 {
            RegisterID::R11
        } else if index == 12 {
            RegisterID::R12
        } else if index == 13 {
            RegisterID::SP
        } else if index == 14 {
            RegisterID::LR
        } else {
            RegisterID::PC
        }
    }

    /// The register with the given number.
    pub fn from_index(index: u32) -> (r: RegisterID)
        requires
            index < 16,
        ensures
            r.index_of() == index,
            r == Self::numbered(index),
    {
        match index {
            0 => RegisterID::R0,
            1 => RegisterID::R1,
            2 => RegisterID::R2,
            3 => RegisterID::R3,
            4 => RegisterID::R4,
            5 => RegisterID::R5,
            6 => RegisterID::R6,
            7 => RegisterID::R7,
            8 => RegisterID::R8,
            9 => RegisterID::R9,
            10 => RegisterID::R10,
            11 => RegisterID::R11,
            12 => RegisterID::R12,
            13 => RegisterID::SP,
            14 => RegisterID::LR,
            _ => RegisterID::PC,
        }
    }

    /// The register number.
    pub fn index(self) -> (r: u32)
        ensures
            r == self.index_of(),
    {
        match self {
            RegisterID::R0 => 0,
            RegisterID::R1 => 1,
            RegisterID::R2 => 2,
            RegisterID::R3 => 3,
            RegisterID::R4 => 4,
            RegisterID::R5 => 5,
            RegisterID::R6 => 6,
            RegisterID::R7 => 7,
            RegisterID::R8 => 8,
            RegisterID::R9 => 9,
            RegisterID::R10 => 10,
            RegisterID::R11 => 11,
            RegisterID::R12 => 12,
            RegisterID::SP => 13,
            RegisterID::LR => 14,
            RegisterID::PC => 15,
        }
    }
}

/// A set of core registers, bit `n` standing for register `n`.
#[derive(Clone, Copy, PartialEq, Eq, Structural, Debug)]
pub struct RegisterBitmap(pub u16);

/// Number of registers in the set.
pub open spec fn bits_set(bits: u16, n: nat) -> nat
    decreases n,
{
    if n == 0 {
        0
    } else {
        bits_set(bits, (n - 1) as nat) + (if (bits >> ((n - 1) as u16)) & 1 == 1 {
            1nat
        } else {
            0nat
        })
    }
}

impl RegisterBitmap {
    /// Whether the register belongs to the set.
    pub open spec fn has(self, reg: RegisterID) -> bool {
        (self.0 >> (reg.index_of() as u16)) & 1 == 1
    }

    /// Number of registers in the set.
    pub open spec fn size(self) -> nat {
        bits_set(self.0, 16)
    }

    /// The empty set.
    pub fn new() -> (r: RegisterBitmap)
        ensures
            r.0 == 0,
    {
        RegisterBitmap(0)
    }

    /// Whether the register belongs to the set.
    pub fn get(self, reg: RegisterID) -> (r: bool)
        ensures
            r == self.has(reg),
    {
        let i = reg.index() as u16;
        (self.0 >> i) & 1 == 1
    }

    /// The set that holds just the given register.
    pub fn singleton(reg: RegisterID) -> (r: RegisterBitmap)
        ensures
            r.0 == 1u16 << (reg.index_of() as u16),
    {
        let i = reg.index() as u16;
        RegisterBitmap(1u16 << i)
    }

    /// The set with the given register added (`true`) or removed (`false`).
    pub fn with(self, reg: RegisterID, present: bool) -> (r: RegisterBitmap)
        ensures
            present ==> r.0 == self.0 | (1u16 << (reg.index_of() as u16)),
            !present ==> r.0 == self.0 & !(1u16 << (reg.index_of() as u16)),
    {
        let i = reg.index() as u16;
        if present {
            RegisterBitmap(self.0 | (1u16 << i))
        } else {
            RegisterBitmap(self.0 & !(1u16 << i))
        }
    }

    /// Number of registers in the set.
    pub fn count(self) -> (r: u32)
        ensures
            r == self.size(),
            r <= 16,
    {
        let mut n: u32 = 0;
        let mut i: u16 = 0;
        while i < 16
            invariant
                i <= 16,
                n == bits_set(self.0, i as nat),
                n <= i,
            decreases 16 - i,
        {
            if (self.0 >> i) & 1 == 1 {
                n = n + 1;
            }
            i = i + 1;
        }
        n
    }
}

/// A condition code, in the low 4 bits.
#[derive(Clone, Copy, PartialEq, Eq, Structural, Debug)]
pub struct Condition(pub u8);

/// The program status register: the APSR flags and the IT state of the EPSR.
#[derive(Clone, Copy, PartialEq, Eq, Structural, Debug)]
pub struct XPSR {
    pub negative: bool,
    pub zero: bool,
    pub carry: bool,
    pub overflow: bool,
    pub saturation: bool,
    /// ITSTATE<7:0>: the base condition in bits 7:5, the mask in bits 4:0.
    pub itstate: u8,
}

impl Condition {
    /// Whether the flags satisfy the condition.
    pub open spec fn holds(self, xpsr: XPSR) -> bool {
        let base = (self.0 / 2) % 8;
        let result = if base == 0 {
            xpsr.zero
        } else if base == 1 {
            xpsr.carry
        } else if base == 2 {
            xpsr.negative
        } else if base == 3 {
            xpsr.overflow
        } else if base == 4 {
            xpsr.carry && !xpsr.zero
        } else if base == 5 {
            xpsr.negative == xpsr.overflow
        } else if base == 6 {
            xpsr.negative == xpsr.overflow && !xpsr.zero
        } else {
            true
        };
        if self.0 % 2 == 1 && self.0 % 16 != 15 {
            !result
        } else {
            result
        }
    }

    /// Whether the flags satisfy the condition.
    pub fn passed(self, xpsr: XPSR) -> (r: bool)
        ensures
            r == self.holds(xpsr),
    {
        let base = (self.0 / 2) % 8;
        let result = match base {
            0 => xpsr.zero,
            1 => xpsr.carry,
            2 => xpsr.negative,
            3 => xpsr.overflow,
            4 => xpsr.carry && !xpsr.zero,
            5 => xpsr.negative == xpsr.overflow,
            6 => xpsr.negative == xpsr.overflow && !xpsr.zero,
            _ => true,
        };
        if self.0 % 2 == 1 && self.0 % 16 != 15 {
            !result
        } else {
            result
        }
    }

    /// Whether this is the "always" condition (0b1110).
    pub fn is_al(self) -> (r: bool)
        ensures
            r == (self.0 == 14),
    {
        self.0 == 14
    }
}

impl XPSR {
    /// `InITBlock()`: ITSTATE<3:0> is not zero.
    pub open spec fn in_it(self) -> bool {
        self.itstate % 16 != 0
    }

    /// `LastInITBlock()`: ITSTATE<3:0> is 0b1000.
    pub open spec fn last_in_it(self) -> bool {
        self.itstate % 16 == 8
    }

    /// The condition of the current instruction of an IT block: ITSTATE<7:4>.
    pub open spec fn it_condition(self) -> Condition {
        Condition(self.itstate / 16)
    }

    pub fn in_it_block(self) -> (r: bool)
        ensures
            r == self.in_it(),
    {
        self.itstate % 16 != 0
    }

    pub fn last_in_it_block(self) -> (r: bool)
        ensures
            r == self.last_in_it(),
    {
        self.itstate % 16 == 8
    }

    /// Whether the current condition of the IT block holds.
    pub fn it_condition_passed(self) -> (r: bool)
        ensures
            r == self.it_condition().holds(self),
    {
        Condition(self.itstate / 16).passed(self)
    }

    pub fn carry_flag(self) -> (r: bool)
        ensures
            r == self.carry,
    {
        self.carry
    }
}

/// Shift types of the immediate- and register-shifted operands.
#[derive(Clone, Copy, PartialEq, Eq, Structural, Debug)]
pub enum SRType {
    LSL,
    LSR,
    ASR,
    ROR,
    RRX,
}

/// A shift of a register operand.
#[derive(Clone, Copy, PartialEq, Eq, Structural, Debug)]
pub struct Shift {
    pub srtype: SRType,
    pub amount: u8,
}

impl Shift {
    /// A logical left shift by the given amount.
    #[allow(non_snake_case)]
    pub fn LSL(amount: u8) -> (r: Shift)
        ensures
            r == (Shift { srtype: SRType::LSL, amount }),
    {
        Shift { srtype: SRType::LSL, amount }
    }

    /// `DecodeImmShift`: the 2-bit type and 5-bit immediate of an
    /// encoding give the shift.
    pub open spec fn spec_decode_imm_shift(srtype: u8, imm5: u8) -> Shift {
        if srtype == 0 {
            Shift { srtype: SRType::LSL, amount: imm5 }
        } else if srtype == 1 {
            Shift { srtype: SRType::LSR, amount: if imm5 == 0 { 32 } else { imm5 } }
        } else if srtype == 2 {
            Shift { srtype: SRType::ASR, amount: if imm5 == 0 { 32 } else { imm5 } }
        } else if imm5 == 0 {
            Shift { srtype: SRType::RRX, amount: 1 }
        } else {
            Shift { srtype: SRType::ROR, amount: imm5 }
        }
    }

    pub fn decode_imm_shift(srtype: u8, imm5: u8) -> (r: Shift)
        requires
            srtype < 4,
            imm5 < 32,
        ensures
            r == Self::spec_decode_imm_shift(srtype, imm5),
    {
        match srtype {
            0 => Shift { srtype: SRType::LSL, amount: imm5 },
            1 => Shift {
                srtype: SRType::LSR,
                amount: if imm5 == 0 {
                    32
                } else {
                    imm5
                },
            },
            2 => Shift {
                srtype: SRType::ASR,
                amount: if imm5 == 0 {
                    32
                } else {
                    imm5
                },
            },
            _ => if imm5 == 0 {
                Shift { srtype: SRType::RRX, amount: 1 }
            } else {
                Shift { srtype: SRType::ROR, amount: imm5 }
            },
        }
    }
}

} // verus!
