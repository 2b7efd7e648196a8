//! The x86-64 register file: the sixteen general-purpose registers plus the
//! RIP pseudo-register, the sixteen XMM registers, and the one-bit / three-bit
//! decomposition of a register number that REX prefixes and ModR/M bytes use.

use vstd::prelude::*;

verus! {

/// A general-purpose register. `RIP` is a pseudo-register: it may only be
/// used as the base of a RIP-relative addressing mode, never encoded as an
/// ordinary operand.
#[derive(Clone, Copy, Debug, PartialEq, Eq, Structural)]
pub enum Register {
    RAX,
    RCX,
    RDX,
    RBX,
    RSP,
    RBP,
    RSI,
    RDI,
    R8,
    R9,
    R10,
    R11,
    R12,
    R13,
    R14,
    R15,
    RIP,
}

impl Register {
    /// The hardware number of the register, 0 through 15; 16 for `RIP`.
    pub open spec fn value(self) -> u8 {
        match self {
            Register::RAX => 0,
            Register::RCX => 1,
            Register::RDX => 2,
            Register::RBX => 3,
            Register::RSP => 4,
            Register::RBP => 5,
            Register::RSI => 6,
            Register::RDI => 7,
            Register::R8 => 8,
            Register::R9 => 9,
            Register::R10 => 10,
            Register::R11 => 11,
            Register::R12 => 12,
            Register::R13 => 13,
            Register::R14 => 14,
            Register::R15 => 15,
            Register::RIP => 16,
        }
    }

    /// The hardware number, as executable code.
    pub fn num(self) -> (r: u8)
        ensures
            r == self.value(),
    {
        match self {
            Register::RAX => 0,
            Register::RCX => 1,
            Register::RDX => 2,
            Register::RBX => 3,
            Register::RSP => 4,
            Register::RBP => 5,
            Register::RSI => 6,
            Register::RDI => 7,
            Register::R8 => 8,
            Register::R9 => 9,
            Register::R10 => 10,
            Register::R11 => 11,
            Register::R12 => 12,
            Register::R13 => 13,
            Register::R14 => 14,
            Register::R15 => 15,
            Register::RIP => 16,
        }
    }

    /// True for the four registers whose 8-bit forms exist without a REX
    /// prefix (AL, BL, CL, DL).
    pub fn is_basic_reg(self) -> (r: bool)
        ensures
            r == (self.value() < 4),
    {
        match self {
            Register::RAX | Register::RBX | Register::RCX | Register::RDX => true,
            _ => false,
        }
    }

    /// The most significant bit of the register number: the bit that goes
    /// into REX.R, REX.X or REX.B.
    pub open spec fn spec_msb(self) -> u8 {
        if self.value() >= 8 {
            1
        } else {
            0
        }
    }

    /// The low three bits of the register number: the field that goes into
    /// ModR/M or SIB.
    pub open spec fn spec_and7(self) -> u8 {
        (self.value() % 8) as u8
    }

    /// The REX extension bit of the register number.
    pub fn msb(self) -> (r: u8)
        requires
            self != Register::RIP,
        ensures
            r == self.spec_msb(),
    {
        if self.num() >= 8 {
            1
        } else {
            0
        }
    }

    /// The low three bits of the register number.
    pub fn and7(self) -> (r: u8)
        requires
            self != Register::RIP,
        ensures
            r == self.spec_and7(),
    {
        self.num() % 8
    }

    /// Same as `msb`.
    pub fn high_bit(&self) -> (r: u8)
        requires
            *self != Register::RIP,
        ensures
            r == self.spec_msb(),
    {
        self.msb()
    }

    /// Same as `and7`.
    pub fn low_bit(&self) -> (r: u8)
        requires
            *self != Register::RIP,
        ensures
            r == self.spec_and7(),
    {
        self.and7()
    }
}

/// An SSE register, XMM0 through XMM15.
#[derive(Clone, Copy, Debug, PartialEq, Eq, Structural)]
pub enum XMMRegister {
    XMM0,
    XMM1,
    XMM2,
    XMM3,
    XMM4,
    XMM5,
    XMM6,
    XMM7,
    XMM8,
    XMM9,
    XMM10,
    XMM11,
    XMM12,
    XMM13,
    XMM14,
    XMM15,
}

impl XMMRegister {
    /// The hardware number of the register, 0 through 15.
    pub open spec fn value(self) -> u8 {
        match self {
            XMMRegister::XMM0 => 0,
            XMMRegister::XMM1 => 1,
            XMMRegister::XMM2 => 2,
            XMMRegister::XMM3 => 3,
            XMMRegister::XMM4 => 4,
            XMMRegister::XMM5 => 5,
            XMMRegister::XMM6 => 6,
            XMMRegister::XMM7 => 7,
            XMMRegister::XMM8 => 8,
            XMMRegister::XMM9 => 9,
            XMMRegister::XMM10 => 10,
            XMMRegister::XMM11 => 11,
            XMMRegister::XMM12 => 12,
            XMMRegister::XMM13 => 13,
            XMMRegister::XMM14 => 14,
            XMMRegister::XMM15 => 15,
        }
    }

    /// The hardware number, as executable code.
    pub fn num(self) -> (r: u8)
        ensures
            r == self.value(),
    {
        match self {
            XMMRegister::XMM0 => 0,
            XMMRegister::XMM1 => 1,
            XMMRegister::XMM2 => 2,
            XMMRegister::XMM3 => 3,
            XMMRegister::XMM4 => 4,
            XMMRegister::XMM5 => 5,
            XMMRegister::XMM6 => 6,
            XMMRegister::XMM7 => 7,
            XMMRegister::XMM8 => 8,
            XMMRegister::XMM9 => 9,
            XMMRegister::XMM10 => 10,
            XMMRegister::XMM11 => 11,
            XMMRegister::XMM12 => 12,
            XMMRegister::XMM13 => 13,
            XMMRegister::XMM14 => 14,
            XMMRegister::XMM15 => 15,
        }
    }

    /// The REX extension bit of the register number.
    pub open spec fn spec_msb(self) -> u8 {
        if self.value() >= 8 {
            1
        } else {
            0
        }
    }

    /// The low three bits of the register number.
    pub open spec fn spec_and7(self) -> u8 {
        (self.value() % 8) as u8
    }

    /// The REX extension bit of the register number.
    pub fn msb(self) -> (r: u8)
        ensures
            r == self.spec_msb(),
    {
        if self.num() >= 8 {
            1
        } else {
            0
        }
    }

    /// The low three bits of the register number.
    pub fn and7(self) -> (r: u8)
        ensures
            r == self.spec_and7(),
    {
        self.num() % 8
    }

    /// Same as `msb`.
    pub fn high_bit(&self) -> (r: u8)
        ensures
            r == self.spec_msb(),
    {
        self.msb()
    }

    /// Same as `and7`.
    pub fn low_bit(&self) -> (r: u8)
        ensures
            r == self.spec_and7(),
    {
        self.and7()
    }
}

/// A floating-point register; an alias kept for readers used to the
/// FPU-flavoured name.
pub type FpuRegister = XMMRegister;

/// The general-purpose register with the same hardware number as the given
/// XMM register; the encoders use it to reuse the ModR/M helpers, which only
/// read the number.
pub fn gp_for_xmm(x: XMMRegister) -> (r: Register)
    ensures
        r.value() == x.value(),
        r != Register::RIP,
        r.spec_msb() == x.spec_msb(),
        r.spec_and7() == x.spec_and7(),
{
    match x {
        XMMRegister::XMM0 => Register::RAX,
        XMMRegister::XMM1 => Register::RCX,
        XMMRegister::XMM2 => Register::RDX,
        XMMRegister::XMM3 => Register::RBX,
        XMMRegister::XMM4 => Register::RSP,
        XMMRegister::XMM5 => Register::RBP,
        XMMRegister::XMM6 => Register::RSI,
        XMMRegister::XMM7 => Register::RDI,
        XMMRegister::XMM8 => Register::R8,
        XMMRegister::XMM9 => Register::R9,
        XMMRegister::XMM10 => Register::R10,
        XMMRegister::XMM11 => Register::R11,
        XMMRegister::XMM12 => Register::R12,
        XMMRegister::XMM13 => Register::R13,
        XMMRegister::XMM14 => Register::R14,
        XMMRegister::XMM15 => Register::R15,
    }
}

/// Scratch register reserved for lowering a single operation.
pub const TMP: Register = Register::R11;

/// Second scratch register reserved for lowering a single operation.
pub const TMP2: Register = Register::R10;

/// Stack pointer register.
pub const SPREG: Register = Register::RSP;

/// Frame pointer register.
pub const FPREG: Register = Register::RBP;

/// Either a general-purpose or a floating-point register.
#[derive(Clone, Copy, Debug, PartialEq, Eq, Structural)]
pub enum Reg {
    Gpr(Register),
    Float(XMMRegister),
}

impl Reg {
    /// The general-purpose register held in this value.
    pub fn reg(&self) -> (r: Register)
        requires
            self is Gpr,
        ensures
            *self == Reg::Gpr(r),
    {
        match self {
            Reg::Gpr(reg) => *reg,
            Reg::Float(_) => unreached(),
        }
    }

    /// The floating-point register held in this value.
    pub fn freg(&self) -> (r: XMMRegister)
        requires
            self is Float,
        ensures
            *self == Reg::Float(r),
    {
        match self {
            Reg::Float(f) => *f,
            Reg::Gpr(_) => unreached(),
        }
    }
}

/// Wraps a general-purpose register.
pub fn reg_gpr(reg: Register) -> (r: Reg)
    ensures
        r == Reg::Gpr(reg),
{
    Reg::Gpr(reg)
}

/// Wraps a floating-point register.
pub fn reg_fpr(reg: XMMRegister) -> (r: Reg)
    ensures
        r == Reg::Float(reg),
{
    Reg::Float(reg)
}

/// The bits of a REX prefix byte, by name.
#[allow(non_camel_case_types)]
#[derive(Clone, Copy, Debug, PartialEq, Eq, Structural)]
pub enum RexBits {
    REX_NONE,
    REX_B,
    REX_X,
    REX_R,
    REX_W,
    REX_PREFIX,
}

impl RexBits {
    /// The numeric mask each bit name stands for.
    pub open spec fn value(self) -> i32 {
        match self {
            RexBits::REX_NONE => 0,
            RexBits::REX_B => 1,
            RexBits::REX_X => 2,
            RexBits::REX_R => 4,
            RexBits::REX_W => 8,
            RexBits::REX_PREFIX => 64,
        }
    }

    /// The numeric mask, as executable code.
    pub fn mask(self) -> (r: i32)
        ensures
            r == self.value(),
    {
        match self {
            RexBits::REX_NONE => 0,
            RexBits::REX_B => 1,
            RexBits::REX_X => 2,
            RexBits::REX_R => 4,
            RexBits::REX_W => 8,
            RexBits::REX_PREFIX => 64,
        }
    }
}

} // verus!
