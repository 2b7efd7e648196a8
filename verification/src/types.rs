//! The type vocabulary of the code generator: machine-level operand widths,
//! the builder's value kinds, and the condition codes of comparisons and
//! conditional jumps.

use vstd::prelude::*;

verus! {

/// A machine-level operand width. `Ptr` aliases the 64-bit width.
#[derive(Clone, Copy, Debug, PartialEq, Eq, Structural)]
pub enum MachineMode {
    Int8,
    Int32,
    Int64,
    Float32,
    Float64,
    Ptr,
}

impl MachineMode {
    /// The width in bytes.
    pub open spec fn spec_size(self) -> usize {
        match self {
            MachineMode::Int8 => 1,
            MachineMode::Int32 => 4,
            MachineMode::Int64 => 8,
            MachineMode::Ptr => 8,
            MachineMode::Float32 => 4,
            MachineMode::Float64 => 8,
        }
    }

    /// The width in bytes.
    pub fn size(self) -> (r: usize)
        ensures
            r == self.spec_size(),
    {
        match self {
            MachineMode::Int8 => 1,
            MachineMode::Int32 => 4,
            MachineMode::Int64 => 8,
            MachineMode::Ptr => 8,
            MachineMode::Float32 => 4,
            MachineMode::Float64 => 8,
        }
    }

    /// True for the two floating-point widths.
    pub open spec fn spec_is_float(self) -> bool {
        self == MachineMode::Float32 || self == MachineMode::Float64
    }

    /// The REX.W selector for this width: 1 for the 64-bit widths, 0 else.
    pub open spec fn spec_x64(self) -> u8 {
        match self {
            MachineMode::Int64 | MachineMode::Ptr | MachineMode::Float64 => 1,
            _ => 0,
        }
    }
}

/// The kind of a builder value: its width, signedness role and register
/// class. Pointers travel in 64-bit general-purpose registers.
#[derive(Clone, Copy, Debug, PartialEq, Eq, Structural)]
pub enum Kind {
    Int64,
    Int32,
    Float64,
    Float32,
    Bool32,
    Bool64,
    Pointer,
}

impl Kind {
    /// The machine width a value of this kind occupies.
    pub open spec fn spec_to_machine(self) -> MachineMode {
        match self {
            Kind::Int64 | Kind::Bool64 | Kind::Pointer => MachineMode::Int64,
            Kind::Int32 | Kind::Bool32 => MachineMode::Int32,
            Kind::Float32 => MachineMode::Float32,
            Kind::Float64 => MachineMode::Float64,
        }
    }

    /// The machine width a value of this kind occupies.
    pub fn to_machine(&self) -> (r: MachineMode)
        ensures
            r == self.spec_to_machine(),
    {
        match self {
            Kind::Int64 | Kind::Bool64 | Kind::Pointer => MachineMode::Int64,
            Kind::Int32 | Kind::Bool32 => MachineMode::Int32,
            Kind::Float32 => MachineMode::Float32,
            Kind::Float64 => MachineMode::Float64,
        }
    }

    /// The REX.W selector for an integer kind: 1 for 64-bit kinds, 0 for
    /// 32-bit kinds. Not defined for floating-point kinds.
    pub open spec fn spec_x64(self) -> u8 {
        match self {
            Kind::Int32 | Kind::Bool32 => 0,
            _ => 1,
        }
    }

    /// The REX.W selector for an integer kind.
    pub fn x64(&self) -> (r: u8)
        requires
            self.spec_is_int(),
        ensures
            r == self.spec_x64(),
    {
        match self {
            Kind::Int32 | Kind::Bool32 => 0,
            Kind::Int64 | Kind::Pointer | Kind::Bool64 => 1,
            _ => unreached(),
        }
    }

    /// True for every kind that lives in a general-purpose register.
    pub open spec fn spec_is_int(self) -> bool {
        match self {
            Kind::Int32 | Kind::Int64 | Kind::Bool32 | Kind::Bool64 | Kind::Pointer => true,
            Kind::Float32 | Kind::Float64 => false,
        }
    }

    /// True for every kind that lives in a general-purpose register.
    pub fn is_int(&self) -> (r: bool)
        ensures
            r == self.spec_is_int(),
    {
        match self {
            Kind::Int32 | Kind::Int64 | Kind::Bool32 | Kind::Bool64 | Kind::Pointer => true,
            Kind::Float32 | Kind::Float64 => false,
        }
    }
}

/// The source-level operand types of the lowering layer.
#[derive(Clone, Copy, Debug, PartialEq, Eq, Structural)]
pub enum Type {
    I8,
    I32,
    I64,
    F32,
    F64,
    Pointer,
    Void,
}

impl Type {
    /// The machine width of the type. `Void` has none.
    pub open spec fn spec_to_machine(self) -> MachineMode {
        match self {
            Type::I8 => MachineMode::Int8,
            Type::I32 => MachineMode::Int32,
            Type::I64 => MachineMode::Int64,
            Type::Pointer => MachineMode::Ptr,
            Type::F32 => MachineMode::Float32,
            Type::F64 => MachineMode::Float64,
            Type::Void => MachineMode::Int32,
        }
    }

    /// The machine width of the type.
    pub fn to_machine(&self) -> (r: MachineMode)
        requires
            *self != Type::Void,
        ensures
            r == self.spec_to_machine(),
    {
        match self {
            Type::I8 => MachineMode::Int8,
            Type::I32 => MachineMode::Int32,
            Type::I64 => MachineMode::Int64,
            Type::Pointer => MachineMode::Ptr,
            Type::F32 => MachineMode::Float32,
            Type::F64 => MachineMode::Float64,
            Type::Void => unreached(),
        }
    }

    /// The REX.W selector: 1 for the 64-bit types, 0 otherwise.
    pub fn x64(&self) -> (r: u8)
        ensures
            r == if *self == Type::I64 || *self == Type::F64 {
                1u8
            } else {
                0u8
            },
    {
        if *self == Type::I64 || *self == Type::F64 {
            1
        } else {
            0
        }
    }

    /// True for the two floating-point types.
    pub open spec fn spec_is_float(self) -> bool {
        self == Type::F32 || self == Type::F64
    }

    /// True for the two floating-point types.
    pub fn is_float(&self) -> (r: bool)
        ensures
            r == self.spec_is_float(),
    {
        if *self == Type::F32 || *self == Type::F64 {
            true
        } else {
            false
        }
    }
}

/// A condition code for comparisons, conditional jumps, `setcc` and `cmov`.
#[derive(Clone, Copy, Debug, PartialEq, Eq, Structural)]
pub enum CondCode {
    Zero,
    NonZero,
    Equal,
    NotEqual,
    Greater,
    GreaterEq,
    Less,
    LessEq,
    UnsignedGreater,
    UnsignedGreaterEq,
    UnsignedLess,
    UnsignedLessEq,
}

impl CondCode {
    /// The low nibble of the opcode family this condition selects: `jcc` is
    /// `0F (0x80 | n)`, `setcc` is `0F (0x90 | n)`, `cmovcc` is `0F (0x40 | n)`.
    pub open spec fn cc_nibble(self) -> u8 {
        match self {
            CondCode::Zero | CondCode::Equal => 0x4,
            CondCode::NonZero | CondCode::NotEqual => 0x5,
            CondCode::Greater => 0xF,
            CondCode::GreaterEq => 0xD,
            CondCode::Less => 0xC,
            CondCode::LessEq => 0xE,
            CondCode::UnsignedGreater => 0x7,
            CondCode::UnsignedGreaterEq => 0x3,
            CondCode::UnsignedLess => 0x2,
            CondCode::UnsignedLessEq => 0x6,
        }
    }

    /// The low nibble of the condition, as executable code.
    pub fn nibble(self) -> (r: u8)
        ensures
            r == self.cc_nibble(),
    {
        match self {
            CondCode::Zero | CondCode::Equal => 0x4,
            CondCode::NonZero | CondCode::NotEqual => 0x5,
            CondCode::Greater => 0xF,
            CondCode::GreaterEq => 0xD,
            CondCode::Less => 0xC,
            CondCode::LessEq => 0xE,
            CondCode::UnsignedGreater => 0x7,
            CondCode::UnsignedGreaterEq => 0x3,
            CondCode::UnsignedLess => 0x2,
            CondCode::UnsignedLessEq => 0x6,
        }
    }
}

} // verus!
