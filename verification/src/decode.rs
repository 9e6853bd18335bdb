//! The instruction format, as a function from the bytes of a program and a
//! cursor to the instruction that stands there.
//!
//! An instruction is one opcode byte, the bytes of its arguments, and
//! possibly one extension byte in front. 16-bit arguments are big-endian; a
//! 24-bit argument is three bytes that are handed on as they are.
//! [`decode`] says what the decoder of [`crate::vm::VM`] returns and where it
//! leaves the cursor, for every program and every cursor.
use crate::opcode::{Opcode, OpcodeArgs, OpcodeArity, U24};
use crate::vm::{Failure, Instruction};
use vstd::prelude::*;

verus! {

/// The 16-bit value whose high byte is `high` and whose low byte is `low`.
pub open spec fn be16(high: u8, low: u8) -> u16 {
    (high * 256 + low) as u16
}

/// The byte read as a signed number in two's complement.
pub open spec fn signed8(v: u8) -> i8 {
    if v < 0x80 {
        v as i8
    } else {
        (v - 0x100) as i8
    }
}

/// The 16-bit value read as a signed number in two's complement.
pub open spec fn signed16(v: u16) -> i16 {
    if v < 0x8000 {
        v as i16
    } else {
        (v - 0x1_0000) as i16
    }
}

/// The byte at `at`, if there is one.
pub open spec fn read_u8(bytes: Seq<u8>, at: int) -> Option<u8> {
    if 0 <= at < bytes.len() {
        Some(bytes[at])
    } else {
        None
    }
}

/// The big-endian 16-bit value at `at`, if two bytes are left there.
pub open spec fn read_u16(bytes: Seq<u8>, at: int) -> Option<u16> {
    if 0 <= at && at + 1 < bytes.len() {
        Some(be16(bytes[at], bytes[at + 1]))
    } else {
        None
    }
}

/// The three bytes at `at`, if three bytes are left there.
pub open spec fn read_u24(bytes: Seq<u8>, at: int) -> Option<U24> {
    if 0 <= at && at + 2 < bytes.len() {
        Some((bytes[at], bytes[at + 1], bytes[at + 2]))
    } else {
        None
    }
}

impl OpcodeArity {
    /// The number of bytes that the argument at `index`, counted from 1,
    /// takes up in a program; 0 for an argument that the shape does not have.
    pub open spec fn bytes_of(self, index: int) -> int {
        if 1 <= index <= self.argc {
            self.size_of(index) as int / 8
        } else {
            0
        }
    }

    /// The number of bytes that all the arguments take up.
    pub open spec fn byte_len(self) -> int {
        self.bytes_of(1) + self.bytes_of(2) + self.bytes_of(3)
    }

    /// The number of bytes that the leading arguments take up which fit
    /// whole into `room` bytes, one after the other.
    pub open spec fn fitting(self, room: int) -> int {
        if room < self.bytes_of(1) {
            0
        } else if room < self.bytes_of(1) + self.bytes_of(2) {
            self.bytes_of(1)
        } else if room < self.byte_len() {
            self.bytes_of(1) + self.bytes_of(2)
        } else {
            self.byte_len()
        }
    }

    /// Whether a form of [`OpcodeArgs`] stands for the shape.
    ///
    /// A single argument is 8 or 24 bits wide and unsigned, or 16 bits wide.
    /// Of two arguments each is 8 or 16 bits wide, and the first is
    /// unsigned. Of three arguments the first two are 8 or 16 bits wide, the
    /// third is 8 bits wide, and all are unsigned.
    pub open spec fn resolves(self) -> bool {
        let narrow1 = self.arg1_size == 8 || self.arg1_size == 16;
        let narrow2 = self.arg2_size == 8 || self.arg2_size == 16;
        ||| self.argc == 0
        ||| self.argc == 1 && (self.arg1_size == 16 || !self.arg1_signed && (self.arg1_size == 8
            || self.arg1_size == 24))
        ||| self.argc == 2 && narrow1 && !self.arg1_signed && narrow2
        ||| self.argc == 3 && narrow1 && !self.arg1_signed && narrow2 && !self.arg2_signed
            && self.arg3_size == 8 && !self.arg3_signed
    }

    /// The argument values that the shape reads from `bytes` at `at`: each
    /// argument from the bytes behind the one before it, a 16-bit argument
    /// big-endian, a signed one in two's complement.
    ///
    /// The values mean something for a shape that
    /// [`OpcodeArity::resolves`], and where `bytes` holds
    /// [`OpcodeArity::byte_len`] bytes from `at` on.
    pub open spec fn args_at(self, bytes: Seq<u8>, at: int) -> OpcodeArgs
        recommends
            self.resolves(),
            0 <= at,
            at + self.byte_len() <= bytes.len(),
    {
        let second = at + self.bytes_of(1);
        let third = second + self.bytes_of(2);
        let wide1 = be16(bytes[at], bytes[at + 1]);
        let wide2 = be16(bytes[second], bytes[second + 1]);
        if self.argc == 0 {
            OpcodeArgs::NoArgs
        } else if self.argc == 1 {
            if self.arg1_size == 8 {
                OpcodeArgs::U8(bytes[at])
            } else if self.arg1_size == 24 {
                OpcodeArgs::U24((bytes[at], bytes[at + 1], bytes[at + 2]))
            } else if self.arg1_signed {
                OpcodeArgs::I16(signed16(wide1))
            } else {
                OpcodeArgs::U16(wide1)
            }
        } else if self.argc == 2 {
            if self.arg1_size == 8 && self.arg2_size == 8 {
                if self.arg2_signed {
                    OpcodeArgs::U8I8(bytes[at], signed8(bytes[second]))
                } else {
                    OpcodeArgs::U8U8(bytes[at], bytes[second])
                }
            } else if self.arg1_size == 8 {
                if self.arg2_signed {
                    OpcodeArgs::U8I16(bytes[at], signed16(wide2))
                } else {
                    OpcodeArgs::U8U16(bytes[at], wide2)
                }
            } else if self.arg2_size == 8 {
                if self.arg2_signed {
                    OpcodeArgs::U16I8(wide1, signed8(bytes[second]))
                } else {
                    OpcodeArgs::U16U8(wide1, bytes[second])
                }
            } else {
                if self.arg2_signed {
                    OpcodeArgs::U16I16(wide1, signed16(wide2))
                } else {
                    OpcodeArgs::U16U16(wide1, wide2)
                }
            }
        } else {
            if self.arg1_size == 8 && self.arg2_size == 8 {
                OpcodeArgs::U8U8U8(bytes[at], bytes[second], bytes[third])
            } else if self.arg1_size == 8 {
                OpcodeArgs::U8U16U8(bytes[at], wide2, bytes[third])
            } else if self.arg2_size == 8 {
                OpcodeArgs::U16U8U8(wide1, bytes[second], bytes[third])
            } else {
                OpcodeArgs::U16U16U8(wide1, wide2, bytes[third])
            }
        }
    }

    /// The shape after the extension opcode `ext` was applied to it.
    ///
    /// [`Opcode::EXT1`] widens the first argument from 8 to 16 bits,
    /// [`Opcode::EXT2`] the second, [`Opcode::EXT3`] both. An argument that
    /// is absent or not 8 bits wide stays as it is, and so do the count and
    /// the signedness. Any other opcode changes nothing.
    pub open spec fn widened(self, ext: Opcode) -> OpcodeArity {
        let first = ext == Opcode::EXT1 || ext == Opcode::EXT3;
        let second = ext == Opcode::EXT2 || ext == Opcode::EXT3;
        OpcodeArity {
            arg1_size: if first && self.arg1_size == 8 {
                16
            } else {
                self.arg1_size
            },
            arg2_size: if second && self.arg2_size == 8 {
                16
            } else {
                self.arg2_size
            },
            ..self
        }
    }
}

impl OpcodeArgs {
    /// The shape that the values have: how many they are, and the width and
    /// the signedness of each.
    pub open spec fn shape(self) -> OpcodeArity {
        match self {
            OpcodeArgs::NoArgs => OpcodeArity::nullary(),
            OpcodeArgs::U8(_) => OpcodeArity::unary(8, false),
            OpcodeArgs::U16(_) => OpcodeArity::unary(16, false),
            OpcodeArgs::I16(_) => OpcodeArity::unary(16, true),
            OpcodeArgs::U24(_) => OpcodeArity::unary(24, false),
            OpcodeArgs::U8U8(_, _) => OpcodeArity::binary(8, false),
            OpcodeArgs::U8I8(_, _) => OpcodeArity::binary(8, true),
            OpcodeArgs::U8U16(_, _) => OpcodeArity::binary(16, false),
            OpcodeArgs::U8I16(_, _) => OpcodeArity::binary(16, true),
            OpcodeArgs::U16U8(_, _) => OpcodeArity {
                arg1_size: 16,
                ..OpcodeArity::binary(8, false)
            },
            OpcodeArgs::U16I8(_, _) => OpcodeArity {
                arg1_size: 16,
                ..OpcodeArity::binary(8, true)
            },
            OpcodeArgs::U16U16(_, _) => OpcodeArity {
                arg1_size: 16,
                ..OpcodeArity::binary(16, false)
            },
            OpcodeArgs::U16I16(_, _) => OpcodeArity {
                arg1_size: 16,
                ..OpcodeArity::binary(16, true)
            },
            OpcodeArgs::U8U8U8(_, _, _) => OpcodeArity::ternary(),
            OpcodeArgs::U16U8U8(_, _, _) => OpcodeArity { arg1_size: 16, ..OpcodeArity::ternary() },
            OpcodeArgs::U8U16U8(_, _, _) => OpcodeArity { arg2_size: 16, ..OpcodeArity::ternary() },
            OpcodeArgs::U16U16U8(_, _, _) => OpcodeArity {
                arg1_size: 16,
                arg2_size: 16,
                ..OpcodeArity::ternary()
            },
        }
    }
}

/// What decoding gives: the instruction or the reason why there is none, and
/// the place of the cursor afterwards.
pub struct Decoding {
    pub outcome: Result<Instruction, Failure>,
    pub cursor: int,
}

/// Reads the arguments of `opcode`, whose shape was resolved to `shape`,
/// from `bytes` at `at`.
///
/// The arguments are read if all their bytes are there, and the cursor ends
/// behind them. If bytes are missing, no instruction comes back, and the
/// cursor ends behind the leading arguments that were there in full.
pub open spec fn decode_args(bytes: Seq<u8>, at: int, opcode: Opcode, shape: OpcodeArity)
    -> Decoding
    recommends
        shape.resolves(),
        0 <= at <= bytes.len(),
{
    if at + shape.byte_len() <= bytes.len() {
        Decoding {
            outcome: Ok(Instruction { opcode, args: shape.args_at(bytes, at) }),
            cursor: at + shape.byte_len(),
        }
    } else {
        Decoding {
            outcome: Err(Failure::TruncatedInstruction { opcode, argc: shape.argc }),
            cursor: at + shape.fitting(bytes.len() - at),
        }
    }
}

/// Decodes the instruction at `pc`.
///
/// With no byte at `pc` there is nothing to decode. An extension opcode is
/// not decoded by itself: it widens the shape of the opcode in the byte
/// behind it, and that opcode is the one decoded. Every byte is an opcode;
/// one that names no real opcode is [`Opcode::INVALID`], which takes no
/// argument.
pub open spec fn decode(bytes: Seq<u8>, pc: int) -> Decoding {
    if !(0 <= pc < bytes.len()) {
        Decoding { outcome: Err(Failure::EndOfProgram), cursor: pc }
    } else {
        let first = Opcode::of_byte(bytes[pc]);
        if !first.is_extension() {
            decode_args(bytes, pc + 1, first, first.shape())
        } else if pc + 1 >= bytes.len() {
            Decoding { outcome: Err(Failure::EndOfProgram), cursor: pc + 1 }
        } else {
            let opcode = Opcode::of_byte(bytes[pc + 1]);
            decode_args(bytes, pc + 2, opcode, opcode.shape().widened(first))
        }
    }
}

/// Widening keeps the count and the signedness of every argument. It
/// changes a width only from 8 to 16 bits, only for the arguments that the
/// extension opcode names, and so keeps widths that agree with the count.
/// An opcode that is no extension opcode widens nothing.
pub proof fn lemma_widened(shape: OpcodeArity, ext: Opcode)
    ensures
        shape.widened(ext).argc == shape.argc,
        shape.widened(ext).arg1_signed == shape.arg1_signed,
        shape.widened(ext).arg2_signed == shape.arg2_signed,
        shape.widened(ext).arg3_signed == shape.arg3_signed,
        shape.widened(ext).arg3_size == shape.arg3_size,
        shape.widened(ext).arg1_size == if shape.arg1_size == 8 && (ext == Opcode::EXT1 || ext
            == Opcode::EXT3) {
            16u8
        } else {
            shape.arg1_size
        },
        shape.widened(ext).arg2_size == if shape.arg2_size == 8 && (ext == Opcode::EXT2 || ext
            == Opcode::EXT3) {
            16u8
        } else {
            shape.arg2_size
        },
        !ext.is_extension() ==> shape.widened(ext) == shape,
        shape.consistent() ==> shape.widened(ext).consistent(),
{
    let wide = shape.widened(ext);
    if shape.consistent() {
        assert forall|index: int| 1 <= index <= 3 implies if index <= wide.argc {
            let size = #[trigger] wide.size_of(index);
            size == 8 || size == 16 || size == 24
        } else {
            wide.size_of(index) == 0
        } by {
            let size = shape.size_of(index);
            assert(size != 8 ==> wide.size_of(index) == size);
            assert(size == 8 ==> wide.size_of(index) == 8 || wide.size_of(index) == 16);
        }
    }
}

/// A form of [`OpcodeArgs`] stands for every shape of the table, and for
/// every shape that an extension opcode makes of one.
pub proof fn lemma_widened_resolves(shape: OpcodeArity, ext: Opcode)
    requires
        shape.in_table(),
    ensures
        shape.resolves(),
        shape.widened(ext).resolves(),
{
}

/// Arguments of which bytes are missing are not decoded: with fewer bytes
/// left at `at` than the shape needs, decoding fails and names the opcode
/// and the number of its arguments, and the cursor stays within the program.
/// With all the bytes there, an instruction comes back.
pub proof fn lemma_truncated_args(bytes: Seq<u8>, at: int, opcode: Opcode, shape: OpcodeArity)
    requires
        0 <= at <= bytes.len(),
    ensures
        bytes.len() - at < shape.byte_len() ==> {
            &&& decode_args(bytes, at, opcode, shape).outcome == Err::<Instruction, Failure>(
                Failure::TruncatedInstruction { opcode, argc: shape.argc },
            )
            &&& at <= decode_args(bytes, at, opcode, shape).cursor <= bytes.len()
        },
        bytes.len() - at >= shape.byte_len() ==> decode_args(
            bytes,
            at,
            opcode,
            shape,
        ).outcome is Ok,
{
}

/// Truncation as the decoder meets it. Where fewer bytes follow the opcode
/// at `pc` than its arguments need, decoding fails with
/// [`Failure::TruncatedInstruction`], which names the opcode and the number
/// of its arguments. The same holds of the opcode behind an extension
/// opcode, with its widened shape.
pub proof fn lemma_truncated_instruction(bytes: Seq<u8>, pc: int)
    requires
        0 <= pc < bytes.len(),
    ensures
        ({
            let opcode = Opcode::of_byte(bytes[pc]);
            !opcode.is_extension() && bytes.len() - (pc + 1) < opcode.shape().byte_len() ==> {
                &&& decode(bytes, pc).outcome == Err::<Instruction, Failure>(
                    Failure::TruncatedInstruction { opcode, argc: opcode.shape().argc },
                )
                &&& pc < decode(bytes, pc).cursor <= bytes.len()
            }
        }),
        ({
            let ext = Opcode::of_byte(bytes[pc]);
            let opcode = Opcode::of_byte(bytes[pc + 1]);
            let shape = opcode.shape().widened(ext);
            ext.is_extension() && pc + 1 < bytes.len() && bytes.len() - (pc + 2)
                < shape.byte_len() ==> {
                &&& decode(bytes, pc).outcome == Err::<Instruction, Failure>(
                    Failure::TruncatedInstruction { opcode, argc: opcode.shape().argc },
                )
                &&& pc < decode(bytes, pc).cursor <= bytes.len()
            }
        }),
{
}

/// Decoding fails for want of bytes and for no other reason: with no byte
/// under the cursor, or none behind an extension opcode, nothing is there
/// to decode; with fewer bytes behind the opcode than its arguments need,
/// the instruction is truncated; every other program decodes.
pub proof fn lemma_decode_outcome(bytes: Seq<u8>, pc: int)
    ensures
        ({
            let first = Opcode::of_byte(bytes[pc]);
            let prefix: int = if first.is_extension() {
                1
            } else {
                0
            };
            let opcode = Opcode::of_byte(bytes[pc + prefix]);
            let shape = opcode.shape().widened(first);
            let at = pc + prefix + 1;
            if !(0 <= pc && pc + prefix < bytes.len()) {
                decode(bytes, pc).outcome == Err::<Instruction, Failure>(Failure::EndOfProgram)
            } else if at + shape.byte_len() > bytes.len() {
                decode(bytes, pc).outcome == Err::<Instruction, Failure>(
                    Failure::TruncatedInstruction { opcode, argc: shape.argc },
                )
            } else {
                &&& decode(bytes, pc).outcome == Ok::<Instruction, Failure>(
                    Instruction { opcode, args: shape.args_at(bytes, at) },
                )
                &&& decode(bytes, pc).cursor == at + shape.byte_len()
            }
        }),
{
}

/// The argument values of a decoded instruction have the shape that the
/// opcode has in the table, widened by the extension opcode in front of it
/// if there is one.
pub proof fn lemma_decoded_args_match_shape(bytes: Seq<u8>, pc: int)
    requires
        decode(bytes, pc).outcome is Ok,
    ensures
        ({
            let instruction = decode(bytes, pc).outcome->Ok_0;
            let first = Opcode::of_byte(bytes[pc]);
            instruction.args.shape() == instruction.opcode.shape().widened(first)
        }),
{
    let first = Opcode::of_byte(bytes[pc]);
    crate::opcode::lemma_shape_in_table(first);
    if first.is_extension() && pc + 1 < bytes.len() {
        crate::opcode::lemma_shape_in_table(Opcode::of_byte(bytes[pc + 1]));
    }
}

/// An extension opcode is not decoded by itself: the instruction that comes
/// back has an extension opcode only where the byte behind an extension
/// opcode holds one too.
pub proof fn lemma_extension_is_consumed(bytes: Seq<u8>, pc: int)
    requires
        decode(bytes, pc).outcome is Ok,
        decode(bytes, pc).outcome->Ok_0.opcode.is_extension(),
    ensures
        0 <= pc && pc + 1 < bytes.len(),
        Opcode::of_byte(bytes[pc]).is_extension(),
        Opcode::of_byte(bytes[pc + 1]) == decode(bytes, pc).outcome->Ok_0.opcode,
        decode(bytes, pc).cursor == pc + 2,
{
}

/// Decoding moves the cursor forward only, and never past the end of a
/// program that the cursor was within. With a byte at `pc` it moves the
/// cursor by at least one byte; with none it leaves the cursor where it is.
pub proof fn lemma_decode_cursor(bytes: Seq<u8>, pc: int)
    ensures
        pc <= decode(bytes, pc).cursor,
        pc <= bytes.len() ==> decode(bytes, pc).cursor <= bytes.len(),
        0 <= pc < bytes.len() ==> pc < decode(bytes, pc).cursor,
        !(0 <= pc < bytes.len()) ==> decode(bytes, pc).cursor == pc,
{
    if 0 <= pc < bytes.len() {
        let first = Opcode::of_byte(bytes[pc]);
        crate::opcode::lemma_shape_in_table(first);
        if first.is_extension() && pc + 1 < bytes.len() {
            let opcode = Opcode::of_byte(bytes[pc + 1]);
            crate::opcode::lemma_shape_in_table(opcode);
            lemma_widened(opcode.shape(), first);
        }
    }
}

} // verus!
