//! An instruction as it stands before its arguments are read: an opcode, and
//! argument values that start out as [`InstructionArgs::Uninitialized`].
pub use crate::opcode::Opcode;
pub use crate::opcode::U24;
use vstd::prelude::*;

verus! {

/// The argument values of an instruction, or the mark that none were read yet.
#[derive(Debug, PartialEq, Eq, Clone, Copy)]
pub enum InstructionArgs {
    /// The arguments have not been read.
    Uninitialized,
    /// No argument.
    NoArgs,
    /// One unsigned 8-bit argument.
    U8(u8),
    /// One unsigned 16-bit argument.
    U16(u16),
    /// One signed 16-bit argument.
    I16(i16),
    /// One 24-bit argument.
    U24(U24),
    /// Two unsigned 8-bit arguments.
    U8U8(u8, u8),
    /// An unsigned 8-bit argument, then a signed 8-bit one.
    U8I8(u8, i8),
    /// An unsigned 16-bit argument, then an unsigned 8-bit one.
    U16U8(u16, u8),
    /// An unsigned 8-bit argument, then an unsigned 16-bit one.
    U8U16(u8, u16),
    /// An unsigned 8-bit argument, then a signed 16-bit one.
    U8I16(u8, i16),
    /// Two unsigned 16-bit arguments.
    U16U16(u16, u16),
    /// Three unsigned 8-bit arguments.
    U8U8U8(u8, u8, u8),
}

/// An opcode with its argument values.
#[derive(Debug, PartialEq, Eq, Clone, Copy)]
pub struct Instruction {
    pub opcode: Opcode,
    pub args: InstructionArgs,
}

impl Instruction {
    /// An instruction with the given opcode whose arguments have not been read.
    pub fn new(opcode: Opcode) -> (instruction: Instruction)
        ensures
            instruction == (Instruction { opcode, args: InstructionArgs::Uninitialized }),
    {
        Instruction { opcode: opcode, args: InstructionArgs::Uninitialized }
    }
}

} // verus!
