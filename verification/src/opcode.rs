//! The opcode table: the number of every opcode and the shape of its arguments.
//!
//! An opcode takes zero to three arguments. An argument is 8, 16 or 24 bits
//! wide, and an 8- or 16-bit argument is signed or unsigned. Three opcodes,
//! [`Opcode::EXT1`], [`Opcode::EXT2`] and [`Opcode::EXT3`], take no argument of
//! their own: they widen arguments of the opcode that follows them.
use vstd::prelude::*;

verus! {

/// A 24-bit argument, kept as its three bytes in the order in which they were read.
pub type U24 = (u8, u8, u8);

/// What an instruction asks the machine to do.
///
/// The opcodes are numbered from 0 in the order in which they are listed, up
/// to [`Opcode::STOP`]. [`Opcode::MAX`] takes the next number and marks the
/// end of the real opcodes. [`Opcode::INVALID`] has the number 255 and stands
/// for every byte that names no real opcode.
#[derive(Debug, PartialEq, Eq, Clone, Copy, Structural)]
#[allow(non_camel_case_types)]
pub enum Opcode {
    /// Does nothing.
    NOP,
    /// Copies one register into another.
    MOVE,
    /// Loads a literal from the pool into a register.
    LOADL,
    /// Loads an integer immediate into a register.
    LOADI,
    /// Loads the integer 0 into a register.
    LOADI_0,
    /// Loads the integer 1 into a register.
    LOADI_1,
    /// Loads the integer 2 into a register.
    LOADI_2,
    /// Loads the integer 3 into a register.
    LOADI_3,
    /// Loads a symbol into a register.
    LOADSYM,
    /// Loads nil into a register.
    LOADNIL,
    /// Loads the receiver into a register.
    LOADSELF,
    /// Loads true into a register.
    LOADT,
    /// Loads false into a register.
    LOADF,
    GETGV,
    SETGV,
    GETSV,
    SETSV,
    GETIV,
    SETIV,
    GETCV,
    SETCV,
    GETCONST,
    SETCONST,
    GETMCNST,
    SETMCNST,
    GETUPVAR,
    SETUPVAR,
    JMP,
    JMPIF,
    JMPNOT,
    ONERR,
    EXCEPT,
    RESCUE,
    POPERR,
    RAISE,
    EPUSH,
    EPOP,
    SENDV,
    SENDVB,
    SEND,
    SENDB,
    CALL,
    SUPER,
    ARGARY,
    ENTER,
    KARG,
    KARG2,
    RETURN,
    RETURN_BLK,
    BREAK,
    BLKPUSH,
    ADD,
    ADDI,
    SUB,
    SUBI,
    MUL,
    DIV,
    EQ,
    LT,
    LE,
    GT,
    GE,
    ARRAY,
    ARRAY2,
    ARYCAT,
    ARYPUSH,
    AREF,
    ASET,
    APOST,
    STRING,
    STRCAT,
    HASH,
    HASHADD,
    LAMBDA,
    BLOCK,
    METHOD,
    RANGE_INC,
    RANGE_EXC,
    OCLASS,
    CLASS,
    MODULE,
    EXEC,
    DEF,
    ALIAS,
    UNDEF,
    SCLASS,
    TCLASS,
    ERR,
    /// Widens the first argument of the opcode that follows to 16 bits.
    EXT1,
    /// Widens the second argument of the opcode that follows to 16 bits.
    EXT2,
    /// Widens the first and the second argument of the opcode that follows to 16 bits.
    EXT3,
    /// Halts the machine.
    STOP,
    /// Boundary marker, one past the last real opcode; never executable.
    MAX,
    /// Out-of-range marker: what every byte at or above the boundary converts to.
    INVALID,
}

/// How many arguments an opcode takes, and the width in bits and the
/// signedness of each.
///
/// A width of 0 means that the argument is absent.
#[derive(Debug, PartialEq, Eq, Clone, Copy, Structural)]
pub struct OpcodeArity {
    pub argc: u8,
    pub arg1_size: u8,
    pub arg1_signed: bool,
    pub arg2_size: u8,
    pub arg2_signed: bool,
    pub arg3_size: u8,
    pub arg3_signed: bool,
}

/// The argument values of one decoded instruction.
///
/// There is one form for each shape of the table, and one for each shape
/// that an extension opcode makes of a shape of the table.
#[derive(Debug, PartialEq, Eq, Clone, Copy)]
pub enum OpcodeArgs {
    /// No argument.
    NoArgs,
    /// One unsigned 8-bit argument.
    U8(u8),
    /// One unsigned 16-bit argument.
    U16(u16),
    /// One signed 16-bit argument.
    I16(i16),
    /// One 24-bit argument.
    U24(U24),
    /// Two unsigned 8-bit arguments.
    U8U8(u8, u8),
    /// An unsigned 8-bit argument, then a signed 8-bit one.
    U8I8(u8, i8),
    /// An unsigned 8-bit argument, then an unsigned 16-bit one.
    U8U16(u8, u16),
    /// An unsigned 8-bit argument, then a signed 16-bit one.
    U8I16(u8, i16),
    /// An unsigned 16-bit argument, then an unsigned 8-bit one.
    U16U8(u16, u8),
    /// An unsigned 16-bit argument, then a signed 8-bit one.
    U16I8(u16, i8),
    /// Two unsigned 16-bit arguments.
    U16U16(u16, u16),
    /// An unsigned 16-bit argument, then a signed 16-bit one.
    U16I16(u16, i16),
    /// Three unsigned 8-bit arguments.
    U8U8U8(u8, u8, u8),
    /// An unsigned 16-bit argument, then two unsigned 8-bit ones.
    U16U8U8(u16, u8, u8),
    /// An unsigned 8-bit argument, an unsigned 16-bit one, and an unsigned
    /// 8-bit one.
    U8U16U8(u8, u16, u8),
    /// Two unsigned 16-bit arguments, then an unsigned 8-bit one.
    U16U16U8(u16, u16, u8),
}

impl OpcodeArity {
    /// The shape without arguments.
    pub open spec fn nullary() -> OpcodeArity {
        OpcodeArity {
            argc: 0,
            arg1_size: 0,
            arg1_signed: false,
            arg2_size: 0,
            arg2_signed: false,
            arg3_size: 0,
            arg3_signed: false,
        }
    }

    /// The shape with one argument of the given width and signedness.
    pub open spec fn unary(size: u8, signed: bool) -> OpcodeArity {
        OpcodeArity { argc: 1, arg1_size: size, arg1_signed: signed, ..OpcodeArity::nullary() }
    }

    /// The shape with an unsigned 8-bit argument, then one of the given width
    /// and signedness.
    pub open spec fn binary(size: u8, signed: bool) -> OpcodeArity {
        OpcodeArity {
            argc: 2,
            arg1_size: 8,
            arg2_size: size,
            arg2_signed: signed,
            ..OpcodeArity::nullary()
        }
    }

    /// The shape with three unsigned 8-bit arguments.
    pub open spec fn ternary() -> OpcodeArity {
        OpcodeArity { argc: 3, arg1_size: 8, arg2_size: 8, arg3_size: 8, ..OpcodeArity::nullary() }
    }

    /// The shapes that the table hands out.
    pub open spec fn in_table(self) -> bool {
        ||| self == OpcodeArity::nullary()
        ||| self == OpcodeArity::unary(8, false)
        ||| self == OpcodeArity::unary(16, false)
        ||| self == OpcodeArity::unary(16, true)
        ||| self == OpcodeArity::unary(24, false)
        ||| self == OpcodeArity::binary(8, false)
        ||| self == OpcodeArity::binary(8, true)
        ||| self == OpcodeArity::binary(16, false)
        ||| self == OpcodeArity::ternary()
    }

    /// The width of the argument at `index`, counted from 1; 0 for any other index.
    pub open spec fn size_of(self, index: int) -> u8 {
        if index == 1 {
            self.arg1_size
        } else if index == 2 {
            self.arg2_size
        } else if index == 3 {
            self.arg3_size
        } else {
            0
        }
    }

    /// The widths agree with the count: each of the first `argc` arguments
    /// is 8, 16 or 24 bits wide, and every argument beyond them has width 0.
    pub open spec fn consistent(self) -> bool {
        &&& self.argc <= 3
        &&& forall|index: int|
            1 <= index <= 3 ==> if index <= self.argc {
                let size = #[trigger] self.size_of(index);
                size == 8 || size == 16 || size == 24
            } else {
                self.size_of(index) == 0
            }
    }
}

impl Default for OpcodeArity {
    fn default() -> (shape: OpcodeArity)
        ensures
            shape == OpcodeArity::nullary(),
    {
        OpcodeArity {
            argc: 0,
            arg1_size: 0,
            arg1_signed: false,
            arg2_size: 0,
            arg2_signed: false,
            arg3_size: 0,
            arg3_signed: false,
        }
    }
}

impl Opcode {
    /// The number of the opcode.
    pub open spec fn id(self) -> u8 {
        match self {
            Opcode::NOP => 0,
            Opcode::MOVE => 1,
            Opcode::LOADL => 2,
            Opcode::LOADI => 3,
            Opcode::LOADI_0 => 4,
            Opcode::LOADI_1 => 5,
            Opcode::LOADI_2 => 6,
            Opcode::LOADI_3 => 7,
            Opcode::LOADSYM => 8,
            Opcode::LOADNIL => 9,
            Opcode::LOADSELF => 10,
            Opcode::LOADT => 11,
            Opcode::LOADF => 12,
            Opcode::GETGV => 13,
            Opcode::SETGV => 14,
            Opcode::GETSV => 15,
            Opcode::SETSV => 16,
            Opcode::GETIV => 17,
            Opcode::SETIV => 18,
            Opcode::GETCV => 19,
            Opcode::SETCV => 20,
            Opcode::GETCONST => 21,
            Opcode::SETCONST => 22,
            Opcode::GETMCNST => 23,
            Opcode::SETMCNST => 24,
            Opcode::GETUPVAR => 25,
            Opcode::SETUPVAR => 26,
            Opcode::JMP => 27,
            Opcode::JMPIF => 28,
            Opcode::JMPNOT => 29,
            Opcode::ONERR => 30,
            Opcode::EXCEPT => 31,
            Opcode::RESCUE => 32,
            Opcode::POPERR => 33,
            Opcode::RAISE => 34,
            Opcode::EPUSH => 35,
            Opcode::EPOP => 36,
            Opcode::SENDV => 37,
            Opcode::SENDVB => 38,
            Opcode::SEND => 39,
            Opcode::SENDB => 40,
            Opcode::CALL => 41,
            Opcode::SUPER => 42,
            Opcode::ARGARY => 43,
            Opcode::ENTER => 44,
            Opcode::KARG => 45,
            Opcode::KARG2 => 46,
            Opcode::RETURN => 47,
            Opcode::RETURN_BLK => 48,
            Opcode::BREAK => 49,
            Opcode::BLKPUSH => 50,
            Opcode::ADD => 51,
            Opcode::ADDI => 52,
            Opcode::SUB => 53,
            Opcode::SUBI => 54,
            Opcode::MUL => 55,
            Opcode::DIV => 56,
            Opcode::EQ => 57,
            Opcode::LT => 58,
            Opcode::LE => 59,
            Opcode::GT => 60,
            Opcode::GE => 61,
            Opcode::ARRAY => 62,
            Opcode::ARRAY2 => 63,
            Opcode::ARYCAT => 64,
            Opcode::ARYPUSH => 65,
            Opcode::AREF => 66,
            Opcode::ASET => 67,
            Opcode::APOST => 68,
            Opcode::STRING => 69,
            Opcode::STRCAT => 70,
            Opcode::HASH => 71,
            Opcode::HASHADD => 72,
            Opcode::LAMBDA => 73,
            Opcode::BLOCK => 74,
            Opcode::METHOD => 75,
            Opcode::RANGE_INC => 76,
            Opcode::RANGE_EXC => 77,
            Opcode::OCLASS => 78,
            Opcode::CLASS => 79,
            Opcode::MODULE => 80,
            Opcode::EXEC => 81,
            Opcode::DEF => 82,
            Opcode::ALIAS => 83,
            Opcode::UNDEF => 84,
            Opcode::SCLASS => 85,
            Opcode::TCLASS => 86,
            Opcode::ERR => 87,
            Opcode::EXT1 => 88,
            Opcode::EXT2 => 89,
            Opcode::EXT3 => 90,
            Opcode::STOP => 91,
            Opcode::MAX => 92,
            Opcode::INVALID => 255,
        }
    }

    /// The opcode that a byte stands for: the one with that number, or
    /// [`Opcode::INVALID`] where the byte is not below the number of
    /// [`Opcode::MAX`].
    pub open spec fn of_byte(v: u8) -> Opcode {
        match v {
            0 => Opcode::NOP,
            1 => Opcode::MOVE,
            2 => Opcode::LOADL,
            3 => Opcode::LOADI,
            4 => Opcode::LOADI_0,
            5 => Opcode::LOADI_1,
            6 => Opcode::LOADI_2,
            7 => Opcode::LOADI_3,
            8 => Opcode::LOADSYM,
            9 => Opcode::LOADNIL,
            10 => Opcode::LOADSELF,
            11 => Opcode::LOADT,
            12 => Opcode::LOADF,
            13 => Opcode::GETGV,
            14 => Opcode::SETGV,
            15 => Opcode::GETSV,
            16 => Opcode::SETSV,
            17 => Opcode::GETIV,
            18 => Opcode::SETIV,
            19 => Opcode::GETCV,
            20 => Opcode::SETCV,
            21 => Opcode::GETCONST,
            22 => Opcode::SETCONST,
            23 => Opcode::GETMCNST,
            24 => Opcode::SETMCNST,
            25 => Opcode::GETUPVAR,
            26 => Opcode::SETUPVAR,
            27 => Opcode::JMP,
            28 => Opcode::JMPIF,
            29 => Opcode::JMPNOT,
            30 => Opcode::ONERR,
            31 => Opcode::EXCEPT,
            32 => Opcode::RESCUE,
            33 => Opcode::POPERR,
            34 => Opcode::RAISE,
            35 => Opcode::EPUSH,
            36 => Opcode::EPOP,
            37 => Opcode::SENDV,
            38 => Opcode::SENDVB,
            39 => Opcode::SEND,
            40 => Opcode::SENDB,
            41 => Opcode::CALL,
            42 => Opcode::SUPER,
            43 => Opcode::ARGARY,
            44 => Opcode::ENTER,
            45 => Opcode::KARG,
            46 => Opcode::KARG2,
            47 => Opcode::RETURN,
            48 => Opcode::RETURN_BLK,
            49 => Opcode::BREAK,
            50 => Opcode::BLKPUSH,
            51 => Opcode::ADD,
            52 => Opcode::ADDI,
            53 => Opcode::SUB,
            54 => Opcode::SUBI,
            55 => Opcode::MUL,
            56 => Opcode::DIV,
            57 => Opcode::EQ,
            58 => Opcode::LT,
            59 => Opcode::LE,
            60 => Opcode::GT,
            61 => Opcode::GE,
            62 => Opcode::ARRAY,
            63 => Opcode::ARRAY2,
            64 => Opcode::ARYCAT,
            65 => Opcode::ARYPUSH,
            66 => Opcode::AREF,
            67 => Opcode::ASET,
            68 => Opcode::APOST,
            69 => Opcode::STRING,
            70 => Opcode::STRCAT,
            71 => Opcode::HASH,
            72 => Opcode::HASHADD,
            73 => Opcode::LAMBDA,
            74 => Opcode::BLOCK,
            75 => Opcode::METHOD,
            76 => Opcode::RANGE_INC,
            77 => Opcode::RANGE_EXC,
            78 => Opcode::OCLASS,
            79 => Opcode::CLASS,
            80 => Opcode::MODULE,
            81 => Opcode::EXEC,
            82 => Opcode::DEF,
            83 => Opcode::ALIAS,
            84 => Opcode::UNDEF,
            85 => Opcode::SCLASS,
            86 => Opcode::TCLASS,
            87 => Opcode::ERR,
            88 => Opcode::EXT1,
            89 => Opcode::EXT2,
            90 => Opcode::EXT3,
            91 => Opcode::STOP,
            _ => Opcode::INVALID,
        }
    }

    /// Whether the opcode is one of the three that widen the arguments of
    /// the opcode that follows.
    pub open spec fn is_extension(self) -> bool {
        self == Opcode::EXT1 || self == Opcode::EXT2 || self == Opcode::EXT3
    }

    /// The table itself: the shape of the arguments of each opcode.
    pub open spec fn shape(self) -> OpcodeArity {
        match self {
            // no argument
            Opcode::NOP | Opcode::EXT1 | Opcode::EXT2 | Opcode::EXT3 | Opcode::STOP
            | Opcode::MAX | Opcode::INVALID => OpcodeArity::nullary(),
            // one unsigned 8-bit argument
            Opcode::LOADI_0 | Opcode::LOADI_1 | Opcode::LOADI_2 | Opcode::LOADI_3
            | Opcode::LOADNIL | Opcode::LOADSELF | Opcode::LOADT | Opcode::LOADF
            | Opcode::EXCEPT | Opcode::POPERR | Opcode::RAISE | Opcode::EPUSH | Opcode::EPOP
            | Opcode::CALL | Opcode::RETURN | Opcode::RETURN_BLK | Opcode::BREAK
            | Opcode::ARYCAT | Opcode::ARYPUSH | Opcode::STRCAT | Opcode::RANGE_INC
            | Opcode::RANGE_EXC | Opcode::OCLASS | Opcode::ALIAS | Opcode::SCLASS
            | Opcode::TCLASS | Opcode::ERR => OpcodeArity::unary(8, false),
            // one unsigned 16-bit argument
            Opcode::JMP => OpcodeArity::unary(16, false),
            // one signed 16-bit argument
            Opcode::ONERR => OpcodeArity::unary(16, true),
            // one 24-bit argument
            Opcode::ENTER => OpcodeArity::unary(24, false),
            // two unsigned 8-bit arguments
            Opcode::MOVE | Opcode::LOADL | Opcode::LOADSYM | Opcode::GETGV | Opcode::SETGV
            | Opcode::GETSV | Opcode::SETSV | Opcode::GETIV | Opcode::SETIV | Opcode::GETCV
            | Opcode::SETCV | Opcode::GETCONST | Opcode::SETCONST | Opcode::GETMCNST
            | Opcode::SETMCNST | Opcode::RESCUE | Opcode::SENDV | Opcode::SENDVB
            | Opcode::SUPER | Opcode::KARG | Opcode::KARG2 | Opcode::ADD | Opcode::SUB
            | Opcode::SUBI | Opcode::MUL | Opcode::DIV | Opcode::EQ | Opcode::LT | Opcode::LE
            | Opcode::GT | Opcode::GE | Opcode::ARRAY | Opcode::ARRAY2 | Opcode::AREF
            | Opcode::ASET | Opcode::APOST | Opcode::STRING | Opcode::HASH | Opcode::HASHADD
            | Opcode::LAMBDA | Opcode::BLOCK | Opcode::METHOD | Opcode::CLASS | Opcode::MODULE
            | Opcode::EXEC | Opcode::DEF | Opcode::UNDEF => OpcodeArity::binary(8, false),
            // an unsigned 8-bit argument, then a signed 8-bit one
            Opcode::LOADI => OpcodeArity::binary(8, true),
            // an unsigned 8-bit argument, then an unsigned 16-bit one
            Opcode::JMPIF | Opcode::JMPNOT | Opcode::ARGARY | Opcode::BLKPUSH => {
                OpcodeArity::binary(16, false)
            },
            // three unsigned 8-bit arguments
            Opcode::GETUPVAR | Opcode::SETUPVAR | Opcode::SEND | Opcode::SENDB | Opcode::ADDI => {
                OpcodeArity::ternary()
            },
        }
    }

    /// Looks the opcode up in the table.
    pub fn arity(&self) -> (shape: OpcodeArity)
        ensures
            shape == self.shape(),
            shape.in_table(),
            shape.consistent(),
    {
        match self {
            // no argument
            Opcode::NOP | Opcode::EXT1 | Opcode::EXT2 | Opcode::EXT3 | Opcode::STOP
            | Opcode::MAX | Opcode::INVALID => OpcodeArity::default(),
            // one unsigned 8-bit argument
            Opcode::LOADI_0 | Opcode::LOADI_1 | Opcode::LOADI_2 | Opcode::LOADI_3
            | Opcode::LOADNIL | Opcode::LOADSELF | Opcode::LOADT | Opcode::LOADF
            | Opcode::EXCEPT | Opcode::POPERR | Opcode::RAISE | Opcode::EPUSH | Opcode::EPOP
            | Opcode::CALL | Opcode::RETURN | Opcode::RETURN_BLK | Opcode::BREAK
            | Opcode::ARYCAT | Opcode::ARYPUSH | Opcode::STRCAT | Opcode::RANGE_INC
            | Opcode::RANGE_EXC | Opcode::OCLASS | Opcode::ALIAS | Opcode::SCLASS
            | Opcode::TCLASS | Opcode::ERR => {
                OpcodeArity { argc: 1, arg1_size: 8, ..OpcodeArity::default() }
            },
            // one unsigned 16-bit argument
            Opcode::JMP => OpcodeArity { argc: 1, arg1_size: 16, ..OpcodeArity::default() },
            // one signed 16-bit argument
            Opcode::ONERR => {
                OpcodeArity {
                    argc: 1,
                    arg1_size: 16,
                    arg1_signed: true,
                    ..OpcodeArity::default()
                }
            },
            // one 24-bit argument
            Opcode::ENTER => OpcodeArity { argc: 1, arg1_size: 24, ..OpcodeArity::default() },
            // two unsigned 8-bit arguments
            Opcode::MOVE | Opcode::LOADL | Opcode::LOADSYM | Opcode::GETGV | Opcode::SETGV
            | Opcode::GETSV | Opcode::SETSV | Opcode::GETIV | Opcode::SETIV | Opcode::GETCV
            | Opcode::SETCV | Opcode::GETCONST | Opcode::SETCONST | Opcode::GETMCNST
            | Opcode::SETMCNST | Opcode::RESCUE | Opcode::SENDV | Opcode::SENDVB
            | Opcode::SUPER | Opcode::KARG | Opcode::KARG2 | Opcode::ADD | Opcode::SUB
            | Opcode::SUBI | Opcode::MUL | Opcode::DIV | Opcode::EQ | Opcode::LT | Opcode::LE
            | Opcode::GT | Opcode::GE | Opcode::ARRAY | Opcode::ARRAY2 | Opcode::AREF
            | Opcode::ASET | Opcode::APOST | Opcode::STRING | Opcode::HASH | Opcode::HASHADD
            | Opcode::LAMBDA | Opcode::BLOCK | Opcode::METHOD | Opcode::CLASS | Opcode::MODULE
            | Opcode::EXEC | Opcode::DEF | Opcode::UNDEF => {
                OpcodeArity { argc: 2, arg1_size: 8, arg2_size: 8, ..OpcodeArity::default() }
            },
            // an unsigned 8-bit argument, then a signed 8-bit one
            Opcode::LOADI => {
                OpcodeArity {
                    argc: 2,
                    arg1_size: 8,
                    arg2_size: 8,
                    arg2_signed: true,
                    ..OpcodeArity::default()
                }
            },
            // an unsigned 8-bit argument, then an unsigned 16-bit one
            Opcode::JMPIF | Opcode::JMPNOT | Opcode::ARGARY | Opcode::BLKPUSH => {
                OpcodeArity { argc: 2, arg1_size: 8, arg2_size: 16, ..OpcodeArity::default() }
            },
            // three unsigned 8-bit arguments
            Opcode::GETUPVAR | Opcode::SETUPVAR | Opcode::SEND | Opcode::SENDB | Opcode::ADDI => {
                OpcodeArity {
                    argc: 3,
                    arg1_size: 8,
                    arg2_size: 8,
                    arg3_size: 8,
                    ..OpcodeArity::default()
                }
            },
        }
    }
}

impl From<u8> for Opcode {
    /// The opcode with the number `v`, or [`Opcode::INVALID`] where `v` is
    /// not below the number of [`Opcode::MAX`]. Every byte converts.
    fn from(v: u8) -> (opcode: Opcode) {
        match v {
            0 => Opcode::NOP,
            1 => Opcode::MOVE,
            2 => Opcode::LOADL,
            3 => Opcode::LOADI,
            4 => Opcode::LOADI_0,
            5 => Opcode::LOADI_1,
            6 => Opcode::LOADI_2,
            7 => Opcode::LOADI_3,
            8 => Opcode::LOADSYM,
            9 => Opcode::LOADNIL,
            10 => Opcode::LOADSELF,
            11 => Opcode::LOADT,
            12 => Opcode::LOADF,
            13 => Opcode::GETGV,
            14 => Opcode::SETGV,
            15 => Opcode::GETSV,
            16 => Opcode::SETSV,
            17 => Opcode::GETIV,
            18 => Opcode::SETIV,
            19 => Opcode::GETCV,
            20 => Opcode::SETCV,
            21 => Opcode::GETCONST,
            22 => Opcode::SETCONST,
            23 => Opcode::GETMCNST,
            24 => Opcode::SETMCNST,
            25 => Opcode::GETUPVAR,
            26 => Opcode::SETUPVAR,
            27 => Opcode::JMP,
            28 => Opcode::JMPIF,
            29 => Opcode::JMPNOT,
            30 => Opcode::ONERR,
            31 => Opcode::EXCEPT,
            32 => Opcode::RESCUE,
            33 => Opcode::POPERR,
            34 => Opcode::RAISE,
            35 => Opcode::EPUSH,
            36 => Opcode::EPOP,
            37 => Opcode::SENDV,
            38 => Opcode::SENDVB,
            39 => Opcode::SEND,
            40 => Opcode::SENDB,
            41 => Opcode::CALL,
            42 => Opcode::SUPER,
            43 => Opcode::ARGARY,
            44 => Opcode::ENTER,
            45 => Opcode::KARG,
            46 => Opcode::KARG2,
            47 => Opcode::RETURN,
            48 => Opcode::RETURN_BLK,
            49 => Opcode::BREAK,
            50 => Opcode::BLKPUSH,
            51 => Opcode::ADD,
            52 => Opcode::ADDI,
            53 => Opcode::SUB,
            54 => Opcode::SUBI,
            55 => Opcode::MUL,
            56 => Opcode::DIV,
            57 => Opcode::EQ,
            58 => Opcode::LT,
            59 => Opcode::LE,
            60 => Opcode::GT,
            61 => Opcode::GE,
            62 => Opcode::ARRAY,
            63 => Opcode::ARRAY2,
            64 => Opcode::ARYCAT,
            65 => Opcode::ARYPUSH,
            66 => Opcode::AREF,
            67 => Opcode::ASET,
            68 => Opcode::APOST,
            69 => Opcode::STRING,
            70 => Opcode::STRCAT,
            71 => Opcode::HASH,
            72 => Opcode::HASHADD,
            73 => Opcode::LAMBDA,
            74 => Opcode::BLOCK,
            75 => Opcode::METHOD,
            76 => Opcode::RANGE_INC,
            77 => Opcode::RANGE_EXC,
            78 => Opcode::OCLASS,
            79 => Opcode::CLASS,
            80 => Opcode::MODULE,
            81 => Opcode::EXEC,
            82 => Opcode::DEF,
            83 => Opcode::ALIAS,
            84 => Opcode::UNDEF,
            85 => Opcode::SCLASS,
            86 => Opcode::TCLASS,
            87 => Opcode::ERR,
            88 => Opcode::EXT1,
            89 => Opcode::EXT2,
            90 => Opcode::EXT3,
            91 => Opcode::STOP,
            _ => Opcode::INVALID,
        }
    }
}

impl vstd::std_specs::convert::FromSpecImpl<u8> for Opcode {
    open spec fn obeys_from_spec() -> bool {
        true
    }

    open spec fn from_spec(v: u8) -> Opcode {
        Opcode::of_byte(v)
    }
}

impl From<Opcode> for u8 {
    /// The number of the opcode.
    fn from(opcode: Opcode) -> (v: u8) {
        match opcode {
            Opcode::NOP => 0,
            Opcode::MOVE => 1,
            Opcode::LOADL => 2,
            Opcode::LOADI => 3,
            Opcode::LOADI_0 => 4,
            Opcode::LOADI_1 => 5,
            Opcode::LOADI_2 => 6,
            Opcode::LOADI_3 => 7,
            Opcode::LOADSYM => 8,
            Opcode::LOADNIL => 9,
            Opcode::LOADSELF => 10,
            Opcode::LOADT => 11,
            Opcode::LOADF => 12,
            Opcode::GETGV => 13,
            Opcode::SETGV => 14,
            Opcode::GETSV => 15,
            Opcode::SETSV => 16,
            Opcode::GETIV => 17,
            Opcode::SETIV => 18,
            Opcode::GETCV => 19,
            Opcode::SETCV => 20,
            Opcode::GETCONST => 21,
            Opcode::SETCONST => 22,
            Opcode::GETMCNST => 23,
            Opcode::SETMCNST => 24,
            Opcode::GETUPVAR => 25,
            Opcode::SETUPVAR => 26,
            Opcode::JMP => 27,
            Opcode::JMPIF => 28,
            Opcode::JMPNOT => 29,
            Opcode::ONERR => 30,
            Opcode::EXCEPT => 31,
            Opcode::RESCUE => 32,
            Opcode::POPERR => 33,
            Opcode::RAISE => 34,
            Opcode::EPUSH => 35,
            Opcode::EPOP => 36,
            Opcode::SENDV => 37,
            Opcode::SENDVB => 38,
            Opcode::SEND => 39,
            Opcode::SENDB => 40,
            Opcode::CALL => 41,
            Opcode::SUPER => 42,
            Opcode::ARGARY => 43,
            Opcode::ENTER => 44,
            Opcode::KARG => 45,
            Opcode::KARG2 => 46,
            Opcode::RETURN => 47,
            Opcode::RETURN_BLK => 48,
            Opcode::BREAK => 49,
            Opcode::BLKPUSH => 50,
            Opcode::ADD => 51,
            Opcode::ADDI => 52,
            Opcode::SUB => 53,
            Opcode::SUBI => 54,
            Opcode::MUL => 55,
            Opcode::DIV => 56,
            Opcode::EQ => 57,
            Opcode::LT => 58,
            Opcode::LE => 59,
            Opcode::GT => 60,
            Opcode::GE => 61,
            Opcode::ARRAY => 62,
            Opcode::ARRAY2 => 63,
            Opcode::ARYCAT => 64,
            Opcode::ARYPUSH => 65,
            Opcode::AREF => 66,
            Opcode::ASET => 67,
            Opcode::APOST => 68,
            Opcode::STRING => 69,
            Opcode::STRCAT => 70,
            Opcode::HASH => 71,
            Opcode::HASHADD => 72,
            Opcode::LAMBDA => 73,
            Opcode::BLOCK => 74,
            Opcode::METHOD => 75,
            Opcode::RANGE_INC => 76,
            Opcode::RANGE_EXC => 77,
            Opcode::OCLASS => 78,
            Opcode::CLASS => 79,
            Opcode::MODULE => 80,
            Opcode::EXEC => 81,
            Opcode::DEF => 82,
            Opcode::ALIAS => 83,
            Opcode::UNDEF => 84,
            Opcode::SCLASS => 85,
            Opcode::TCLASS => 86,
            Opcode::ERR => 87,
            Opcode::EXT1 => 88,
            Opcode::EXT2 => 89,
            Opcode::EXT3 => 90,
            Opcode::STOP => 91,
            Opcode::MAX => 92,
            Opcode::INVALID => 255,
        }
    }
}

impl vstd::std_specs::convert::FromSpecImpl<Opcode> for u8 {
    open spec fn obeys_from_spec() -> bool {
        true
    }

    open spec fn from_spec(opcode: Opcode) -> u8 {
        opcode.id()
    }
}

/// Every byte converts to an opcode. A byte below the number of
/// [`Opcode::MAX`] converts to the opcode with that number; every other byte
/// converts to [`Opcode::INVALID`].
pub proof fn lemma_byte_to_opcode(v: u8)
    ensures
        v < Opcode::MAX.id() ==> Opcode::of_byte(v).id() == v,
        v >= Opcode::MAX.id() ==> Opcode::of_byte(v) == Opcode::INVALID,
{
}

/// Converting an opcode to its number and back gives the opcode again, for
/// every opcode but [`Opcode::MAX`], which comes back as [`Opcode::INVALID`].
/// In particular [`Opcode::INVALID`] comes back as itself.
pub proof fn lemma_opcode_round_trip(opcode: Opcode)
    ensures
        opcode != Opcode::MAX ==> Opcode::of_byte(opcode.id()) == opcode,
        Opcode::of_byte(Opcode::MAX.id()) == Opcode::INVALID,
        Opcode::of_byte(Opcode::INVALID.id()) == Opcode::INVALID,
{
}

/// No two opcodes share a number.
pub proof fn lemma_id_injective(a: Opcode, b: Opcode)
    requires
        a.id() == b.id(),
    ensures
        a == b,
{
}

/// Every shape in the table is one of the nine that [`OpcodeArity::in_table`]
/// lists, and its widths agree with its count.
pub proof fn lemma_shape_in_table(opcode: Opcode)
    ensures
        opcode.shape().in_table(),
        opcode.shape().consistent(),
{
    lemma_in_table_consistent(opcode.shape());
}

/// The widths of a shape of the table agree with its count.
pub proof fn lemma_in_table_consistent(shape: OpcodeArity)
    requires
        shape.in_table(),
    ensures
        shape.consistent(),
{
}

} // verus!
