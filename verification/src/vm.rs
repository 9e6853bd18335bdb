//! The machine: a register file, a cursor into a program, and a status.
//!
//! [`Machine`] is the mathematical model of a [`VM`], and [`Machine::step`]
//! and [`Machine::run`] say what one instruction and a whole run do to it.
//! The functions of [`VM`] are stated against them.
use crate::decode::{
    decode, decode_args, lemma_decode_cursor, lemma_widened_resolves, read_u16, read_u24, read_u8,
    signed16, signed8,
};
use crate::opcode::{Opcode, OpcodeArgs, OpcodeArity, U24};
use vstd::prelude::*;

verus! {

/// One decoded instruction: an opcode and the values of its arguments.
#[derive(Debug, PartialEq, Eq, Clone, Copy)]
pub struct Instruction {
    pub opcode: Opcode,
    pub args: OpcodeArgs,
}

/// Why a machine stopped without halting.
#[derive(Debug, PartialEq, Eq, Clone, Copy, Structural)]
pub enum Failure {
    /// An opcode was to be read and no byte was left.
    EndOfProgram,
    /// The program ended inside the arguments of `opcode`, which takes
    /// `argc` of them.
    TruncatedInstruction { opcode: Opcode, argc: u8 },
    /// The instruction was decoded, and the machine has nothing to run it with.
    UnsupportedOpcode { opcode: Opcode },
    /// The instruction names a register that the machine does not have.
    RegisterIndexOutOfRange { index: u8 },
    /// The arguments of the instruction are not of the form that `opcode` is
    /// run with.
    ArgumentShapeMismatch { opcode: Opcode },
}

/// Whether a machine is running, and if not, why.
#[derive(Debug, PartialEq, Eq, Clone, Copy, Structural)]
pub enum Status {
    Running,
    Halted,
    Failed(Failure),
}

/// The number of registers of a machine.
pub const REGISTER_COUNT: usize = 32;

/// A machine with its program.
///
/// `pc` is the cursor: the offset into `program` of the byte that is
/// decoded next.
#[derive(Debug, PartialEq)]
pub struct VM {
    pub registers: [i32; 32],
    pub pc: usize,
    pub program: Vec<u8>,
    pub status: Status,
}

/// The model of a [`VM`].
pub struct Machine {
    pub registers: Seq<i32>,
    pub pc: int,
    pub program: Seq<u8>,
    pub status: Status,
}

impl View for VM {
    type V = Machine;

    open spec fn view(&self) -> Machine {
        Machine {
            registers: self.registers@,
            pc: self.pc as int,
            program: self.program@,
            status: self.status,
        }
    }
}

impl Machine {
    /// The machine before the first instruction of `program`: every
    /// register is 0, the cursor is at the start, and the machine is running.
    pub open spec fn fresh(program: Seq<u8>) -> Machine {
        Machine {
            registers: Seq::new(REGISTER_COUNT as nat, |i: int| 0i32),
            pc: 0,
            program,
            status: Status::Running,
        }
    }

    /// The cursor is within the program or at its end, and the registers
    /// are as many as a machine has.
    pub open spec fn wf(self) -> bool {
        0 <= self.pc <= self.program.len() && self.registers.len() == REGISTER_COUNT
    }

    /// Whether no byte is under the cursor.
    pub open spec fn eof(self) -> bool {
        !(0 <= self.pc < self.program.len())
    }

    /// The same machine with the cursor at `pc`.
    pub open spec fn at(self, pc: int) -> Machine {
        Machine { pc, ..self }
    }

    /// The same machine, stopped for the reason `failure`.
    pub open spec fn failed(self, failure: Failure) -> Machine {
        Machine { status: Status::Failed(failure), ..self }
    }

    /// What running `instruction` does to a machine whose cursor is already
    /// behind it. A machine that is not running stays as it is.
    ///
    /// [`Opcode::STOP`] halts. [`Opcode::NOP`] and [`Opcode::MOVE`] change
    /// nothing. [`Opcode::LOADI`] with a register index and a signed 16-bit
    /// value puts the value, sign-extended, into that register; it fails
    /// for an index that names no register, and for arguments of any other
    /// form. Every other opcode fails as unsupported.
    pub open spec fn dispatch(self, instruction: Instruction) -> Machine {
        if self.status != Status::Running {
            self
        } else {
            match instruction.opcode {
                Opcode::NOP | Opcode::MOVE => self,
                Opcode::STOP => Machine { status: Status::Halted, ..self },
                Opcode::LOADI => match instruction.args {
                    OpcodeArgs::U8I16(index, value) => if index < REGISTER_COUNT {
                        Machine {
                            registers: self.registers.update(index as int, value as i32),
                            ..self
                        }
                    } else {
                        self.failed(Failure::RegisterIndexOutOfRange { index })
                    },
                    _ => self.failed(
                        Failure::ArgumentShapeMismatch { opcode: instruction.opcode },
                    ),
                },
                opcode => self.failed(Failure::UnsupportedOpcode { opcode }),
            }
        }
    }

    /// The instruction that the next step runs: the one under the cursor of
    /// a running machine, if it decodes.
    pub open spec fn fetched(self) -> Option<Instruction> {
        if self.status != Status::Running {
            None
        } else {
            match decode(self.program, self.pc).outcome {
                Ok(instruction) => Some(instruction),
                Err(_) => None,
            }
        }
    }

    /// One step: a machine that is not running stays as it is. A running
    /// machine decodes the instruction under its cursor, moves the cursor as
    /// the decoder leaves it, and runs the instruction, or fails for the
    /// decoder's reason.
    pub open spec fn step(self) -> Machine {
        if self.status != Status::Running {
            self
        } else {
            let decoding = decode(self.program, self.pc);
            match decoding.outcome {
                Ok(instruction) => self.at(decoding.cursor).dispatch(instruction),
                Err(failure) => self.at(decoding.cursor).failed(failure),
            }
        }
    }

    /// A bound on the number of steps that a run of the machine takes: one
    /// for each byte from the cursor on, and one more while it is running.
    pub open spec fn budget(self) -> int {
        (if self.status == Status::Running {
            1int
        } else {
            0int
        }) + (if self.pc <= self.program.len() {
            self.program.len() - self.pc
        } else {
            0int
        })
    }

    /// A run: steps for as long as the machine is running. It ends halted
    /// or failed; a program that runs out fails the machine with
    /// [`Failure::EndOfProgram`].
    pub open spec fn run(self) -> Machine
        decreases self.budget(),
    {
        if self.status == Status::Running {
            proof {
                lemma_decode_cursor(self.program, self.pc);
            }
            self.step().run()
        } else {
            self
        }
    }
}

/// A step keeps the program and moves the cursor forward only, and never
/// past the end of a program that the cursor was within. It never sets a
/// stopped machine running again: a machine that is not running is left as
/// it is. A running machine with a byte under its cursor moves its cursor;
/// one with no byte under its cursor fails with [`Failure::EndOfProgram`]
/// and is otherwise left as it is. Every step of a running machine uses up
/// some of its budget.
pub proof fn lemma_step(machine: Machine)
    ensures
        machine.step().program == machine.program,
        machine.pc <= machine.step().pc,
        machine.wf() ==> machine.step().wf(),
        machine.status != Status::Running ==> machine.step() == machine,
        machine.status == Status::Running && !machine.eof() ==> machine.pc < machine.step().pc,
        machine.status == Status::Running && machine.eof() ==> machine.step() == machine.failed(
            Failure::EndOfProgram,
        ),
        machine.status == Status::Running ==> 0 <= machine.step().budget() < machine.budget(),
{
    lemma_decode_cursor(machine.program, machine.pc);
}

/// A run keeps the program and moves the cursor forward only, and never past
/// the end of a program that the cursor was within. It never sets a stopped
/// machine running again: a machine that is not running is left as it is.
/// A run always ends with the machine halted or failed, so that a second
/// run changes nothing. A running machine with no byte under its cursor
/// fails with [`Failure::EndOfProgram`] and is otherwise left as it is.
pub proof fn lemma_run(machine: Machine)
    ensures
        machine.run().program == machine.program,
        machine.pc <= machine.run().pc,
        machine.wf() ==> machine.run().wf(),
        machine.status != Status::Running ==> machine.run() == machine,
        machine.run().status != Status::Running,
        machine.run().run() == machine.run(),
        machine.status == Status::Running && machine.eof() ==> machine.run() == machine.failed(
            Failure::EndOfProgram,
        ),
    decreases machine.budget(),
{
    if machine.status == Status::Running {
        lemma_step(machine);
        lemma_run(machine.step());
    }
}

/// The signed number that a byte stands for in two's complement.
fn to_signed_8(v: u8) -> (signed: i8)
    ensures
        signed == signed8(v),
{
    if v < 0x80 {
        v as i8
    } else {
        (v as i16 - 0x100) as i8
    }
}

/// The signed number that a 16-bit value stands for in two's complement.
fn to_signed_16(v: u16) -> (signed: i16)
    ensures
        signed == signed16(v),
{
    if v < 0x8000 {
        v as i16
    } else {
        (v as i32 - 0x1_0000) as i16
    }
}

/// Applies the extension opcode `ext` to `arity`.
fn widen(arity: OpcodeArity, ext: Opcode) -> (wide: OpcodeArity)
    ensures
        wide == arity.widened(ext),
{
    let mut wide = arity;
    match ext {
        Opcode::EXT1 => {
            if wide.arg1_size == 8 {
                wide.arg1_size = 16;
            }
        },
        Opcode::EXT2 => {
            if wide.arg2_size == 8 {
                wide.arg2_size = 16;
            }
        },
        Opcode::EXT3 => {
            if wide.arg1_size == 8 {
                wide.arg1_size = 16;
            }
            if wide.arg2_size == 8 {
                wide.arg2_size = 16;
            }
        },
        _ => {},
    }
    wide
}

impl VM {
    /// A machine with an empty program.
    pub fn new() -> (vm: VM)
        ensures
            vm@ == Machine::fresh(Seq::empty()),
            vm@.wf(),
    {
        let vm = VM { registers: [0; 32], pc: 0, program: Vec::new(), status: Status::Running };
        assert(vm@.registers =~= Machine::fresh(Seq::empty()).registers);
        vm
    }

    /// Takes a new program: the machine starts over with it, every register
    /// 0 and the cursor at the start.
    pub fn load(&mut self, program: Vec<u8>)
        ensures
            final(self)@ == Machine::fresh(program@),
            final(self)@.wf(),
    {
        self.registers = [0; 32];
        self.pc = 0;
        self.program = program;
        self.status = Status::Running;
        assert(self@.registers =~= Machine::fresh(program@).registers);
    }

    /// Whether the machine has halted.
    pub fn halted(&self) -> (halted: bool)
        ensures
            halted == (self.status == Status::Halted),
    {
        match self.status {
            Status::Halted => true,
            _ => false,
        }
    }

    /// The reason for which the machine failed, if it has.
    pub fn last_error(&self) -> (reason: Option<Failure>)
        ensures
            reason == match self.status {
                Status::Failed(failure) => Some(failure),
                _ => None,
            },
    {
        match self.status {
            Status::Failed(failure) => Some(failure),
            _ => None,
        }
    }

    /// Whether the cursor has reached the end of the program: no byte is
    /// left to read.
    pub fn eof(&self) -> (eof: bool)
        ensures
            eof == (self.pc >= self.program.len()),
            eof == self@.eof(),
    {
        self.eof_with_offset(0)
    }

    /// Whether the cursor, moved by `offset` bytes, would be at the end of
    /// the program or beyond it. A negative offset may not lead to before
    /// the start of the program.
    pub fn eof_with_offset(&self, offset: isize) -> (eof: bool)
        requires
            self.pc + offset >= 0,
        ensures
            eof == (self.pc + offset >= self.program.len()),
    {
        let len = self.program.len();
        if offset < 0 {
            let back: usize = ((-(offset + 1)) as usize) + 1;
            self.pc - back >= len
        } else {
            let ahead: usize = offset as usize;
            ahead >= len || self.pc >= len - ahead
        }
    }

    /// The failure of an instruction whose arguments are cut off by the end
    /// of the program.
    fn decode_error(&self, opcode: Opcode, arity: OpcodeArity) -> (error: Result<
        Instruction,
        Failure,
    >)
        ensures
            error == Err::<Instruction, Failure>(
                Failure::TruncatedInstruction { opcode, argc: arity.argc },
            ),
    {
        Err(Failure::TruncatedInstruction { opcode, argc: arity.argc })
    }

    /// Decodes the instruction under the cursor and moves the cursor behind
    /// what was read of it.
    ///
    /// An extension opcode is taken together with the opcode behind it. When
    /// decoding fails, no instruction comes back, and registers and status
    /// are as they were.
    pub fn decode_instruction(&mut self) -> (outcome: Result<Instruction, Failure>)
        ensures
            outcome == decode(old(self).program@, old(self).pc as int).outcome,
            final(self)@ == old(self)@.at(decode(old(self).program@, old(self).pc as int).cursor),
            old(self).pc <= final(self).pc,
            old(self)@.wf() ==> final(self)@.wf(),
    {
        proof {
            lemma_decode_cursor(self.program@, self.pc as int);
        }
        let first = match self.decode_opcode() {
            Some(opcode) => opcode,
            None => {
                return Err(Failure::EndOfProgram);
            },
        };
        match first {
            Opcode::EXT1 | Opcode::EXT2 | Opcode::EXT3 => match self.decode_opcode() {
                Some(opcode) => {
                    let arity = widen(opcode.arity(), first);
                    proof {
                        lemma_widened_resolves(opcode.shape(), first);
                    }
                    self.decode_arguments(opcode, arity)
                },
                None => Err(Failure::EndOfProgram),
            },
            _ => {
                let arity = first.arity();
                proof {
                    lemma_widened_resolves(first.shape(), first);
                }
                self.decode_arguments(first, arity)
            },
        }
    }

    /// Reads the arguments of `opcode`, whose shape was resolved to `arity`,
    /// and moves the cursor behind what was read of them. The arguments are
    /// read one after the other, and the first that is cut off by the end of
    /// the program ends the reading.
    fn decode_arguments(&mut self, opcode: Opcode, arity: OpcodeArity) -> (outcome: Result<
        Instruction,
        Failure,
    >)
        requires
            old(self).pc <= old(self).program.len(),
            arity.resolves(),
        ensures
            outcome == decode_args(old(self).program@, old(self).pc as int, opcode, arity).outcome,
            final(self)@ == old(self)@.at(
                decode_args(old(self).program@, old(self).pc as int, opcode, arity).cursor,
            ),
    {
        let args = if arity.argc == 0 {
            OpcodeArgs::NoArgs
        } else if arity.argc == 1 {
            if arity.arg1_size == 8 {
                match self.next_8_bits() {
                    Some(arg1) => OpcodeArgs::U8(arg1),
                    None => {
                        return self.decode_error(opcode, arity);
                    },
                }
            } else if arity.arg1_size == 24 {
                match self.next_24_bits() {
                    Some(arg1) => OpcodeArgs::U24(arg1),
                    None => {
                        return self.decode_error(opcode, arity);
                    },
                }
            } else {
                match self.next_16_bits() {
                    Some(arg1) => if arity.arg1_signed {
                        OpcodeArgs::I16(to_signed_16(arg1))
                    } else {
                        OpcodeArgs::U16(arg1)
                    },
                    None => {
                        return self.decode_error(opcode, arity);
                    },
                }
            }
        } else if arity.arg1_size == 8 {
            let arg1 = match self.next_8_bits() {
                Some(value) => value,
                None => {
                    return self.decode_error(opcode, arity);
                },
            };
            if arity.arg2_size == 8 {
                let arg2 = match self.next_8_bits() {
                    Some(value) => value,
                    None => {
                        return self.decode_error(opcode, arity);
                    },
                };
                if arity.argc == 2 {
                    if arity.arg2_signed {
                        OpcodeArgs::U8I8(arg1, to_signed_8(arg2))
                    } else {
                        OpcodeArgs::U8U8(arg1, arg2)
                    }
                } else {
                    match self.next_8_bits() {
                        Some(arg3) => OpcodeArgs::U8U8U8(arg1, arg2, arg3),
                        None => {
                            return self.decode_error(opcode, arity);
                        },
                    }
                }
            } else {
                let arg2 = match self.next_16_bits() {
                    Some(value) => value,
                    None => {
                        return self.decode_error(opcode, arity);
                    },
                };
                if arity.argc == 2 {
                    if arity.arg2_signed {
                        OpcodeArgs::U8I16(arg1, to_signed_16(arg2))
                    } else {
                        OpcodeArgs::U8U16(arg1, arg2)
                    }
                } else {
                    match self.next_8_bits() {
                        Some(arg3) => OpcodeArgs::U8U16U8(arg1, arg2, arg3),
                        None => {
                            return self.decode_error(opcode, arity);
                        },
                    }
                }
            }
        } else {
            let arg1 = match self.next_16_bits() {
                Some(value) => value,
                None => {
                    return self.decode_error(opcode, arity);
                },
            };
            if arity.arg2_size == 8 {
                let arg2 = match self.next_8_bits() {
                    Some(value) => value,
                    None => {
                        return self.decode_error(opcode, arity);
                    },
                };
                if arity.argc == 2 {
                    if arity.arg2_signed {
                        OpcodeArgs::U16I8(arg1, to_signed_8(arg2))
                    } else {
                        OpcodeArgs::U16U8(arg1, arg2)
                    }
                } else {
                    match self.next_8_bits() {
                        Some(arg3) => OpcodeArgs::U16U8U8(arg1, arg2, arg3),
                        None => {
                            return self.decode_error(opcode, arity);
                        },
                    }
                }
            } else {
                let arg2 = match self.next_16_bits() {
                    Some(value) => value,
                    None => {
                        return self.decode_error(opcode, arity);
                    },
                };
                if arity.argc == 2 {
                    if arity.arg2_signed {
                        OpcodeArgs::U16I16(arg1, to_signed_16(arg2))
                    } else {
                        OpcodeArgs::U16U16(arg1, arg2)
                    }
                } else {
                    match self.next_8_bits() {
                        Some(arg3) => OpcodeArgs::U16U16U8(arg1, arg2, arg3),
                        None => {
                            return self.decode_error(opcode, arity);
                        },
                    }
                }
            }
        };
        Ok(Instruction { opcode: opcode, args: args })
    }

    /// Runs one decoded instruction on a machine whose cursor is already
    /// behind it. Returns whether the machine is still running afterwards.
    /// A machine that is not running is left as it is.
    pub fn dispatch(&mut self, instruction: &Instruction) -> (running: bool)
        ensures
            final(self)@ == old(self)@.dispatch(*instruction),
            running == (final(self).status == Status::Running),
            old(self).status != Status::Running ==> final(self)@ == old(self)@,
            old(self)@.wf() ==> final(self)@.wf(),
    {
        match self.status {
            Status::Running => {},
            _ => {
                return false;
            },
        }
        match instruction.opcode {
            Opcode::NOP => {},
            Opcode::MOVE => {},
            Opcode::STOP => {
                self.status = Status::Halted;
                return false;
            },
            Opcode::LOADI => match instruction.args {
                OpcodeArgs::U8I16(a, b) => {
                    if (a as usize) < REGISTER_COUNT {
                        self.registers[a as usize] = b as i32;
                    } else {
                        self.status = Status::Failed(Failure::RegisterIndexOutOfRange { index: a });
                        return false;
                    }
                },
                _ => {
                    self.status = Status::Failed(
                        Failure::ArgumentShapeMismatch { opcode: instruction.opcode },
                    );
                    return false;
                },
            },
            _ => {
                self.status = Status::Failed(
                    Failure::UnsupportedOpcode { opcode: instruction.opcode },
                );
                return false;
            },
        }
        true
    }

    /// Executes the instruction under the cursor, and hands back the
    /// instruction that it ran, for a caller that keeps a trace.
    ///
    /// A machine that is not running is left as it is. A failure to decode
    /// becomes the status of the machine, and so does a failure of the
    /// instruction.
    pub fn step(&mut self) -> (executed: Option<Instruction>)
        ensures
            final(self)@ == old(self)@.step(),
            executed == old(self)@.fetched(),
            old(self).status != Status::Running ==> final(self)@ == old(self)@,
            old(self).pc <= final(self).pc,
            old(self)@.wf() ==> final(self)@.wf(),
    {
        proof {
            lemma_step(self@);
        }
        match self.status {
            Status::Running => {},
            _ => {
                return None;
            },
        }
        match self.decode_instruction() {
            Ok(instruction) => {
                self.dispatch(&instruction);
                Some(instruction)
            },
            Err(reason) => {
                self.status = Status::Failed(reason);
                None
            },
        }
    }

    /// Executes the instruction under the cursor, as [`VM::step`] does.
    /// Returns whether the machine is still running afterwards.
    pub fn execute_instruction(&mut self) -> (running: bool)
        ensures
            final(self)@ == old(self)@.step(),
            running == (final(self).status == Status::Running),
            old(self).status != Status::Running ==> final(self)@ == old(self)@,
            old(self).pc <= final(self).pc,
            old(self)@.wf() ==> final(self)@.wf(),
    {
        self.step();
        match self.status {
            Status::Running => true,
            _ => false,
        }
    }

    /// Executes one instruction, as [`VM::execute_instruction`] does.
    pub fn run_once(&mut self) -> (running: bool)
        ensures
            final(self)@ == old(self)@.step(),
            running == (final(self).status == Status::Running),
            old(self).status != Status::Running ==> final(self)@ == old(self)@,
            old(self).pc <= final(self).pc,
            old(self)@.wf() ==> final(self)@.wf(),
    {
        self.execute_instruction()
    }

    /// Executes instructions until the machine halts or fails. Returns the
    /// status that the machine is left with, which is never
    /// [`Status::Running`].
    ///
    /// A program that runs out without halting fails the machine with
    /// [`Failure::EndOfProgram`]: so does an empty program, at once.
    pub fn run(&mut self) -> (status: Status)
        ensures
            final(self)@ == old(self)@.run(),
            status == final(self).status,
            status != Status::Running,
            old(self).status != Status::Running ==> final(self)@ == old(self)@,
            old(self).status == Status::Running && old(self)@.eof() ==> final(self)@ == old(
                self,
            )@.failed(Failure::EndOfProgram),
            old(self).pc <= final(self).pc,
            old(self)@.wf() ==> final(self)@.wf(),
    {
        proof {
            lemma_run(self@);
        }
        while self.status == Status::Running
            invariant
                self@.run() == old(self)@.run(),
            decreases self@.budget(),
        {
            proof {
                lemma_step(self@);
            }
            self.execute_instruction();
        }
        self.status
    }

    /// Reads the byte under the cursor as an opcode and moves the cursor
    /// behind it.
    fn decode_opcode(&mut self) -> (opcode: Option<Opcode>)
        ensures
            opcode == match read_u8(old(self).program@, old(self).pc as int) {
                Some(byte) => Some(Opcode::of_byte(byte)),
                None => None,
            },
            final(self)@ == old(self)@.at(
                if opcode is Some {
                    old(self).pc + 1
                } else {
                    old(self).pc as int
                },
            ),
    {
        if let Some(opcode) = self.next_8_bits() {
            Some(Opcode::from(opcode))
        } else {
            None
        }
    }

    /// Reads the byte under the cursor and moves the cursor behind it.
    fn next_8_bits(&mut self) -> (value: Option<u8>)
        ensures
            value == read_u8(old(self).program@, old(self).pc as int),
            final(self)@ == old(self)@.at(
                if value is Some {
                    old(self).pc + 1
                } else {
                    old(self).pc as int
                },
            ),
    {
        if self.eof() {
            return None;
        }
        let result = self.program[self.pc];
        self.pc += 1;
        Some(result)
    }

    /// Reads the two bytes under the cursor as a big-endian value and moves
    /// the cursor behind them.
    fn next_16_bits(&mut self) -> (value: Option<u16>)
        ensures
            value == read_u16(old(self).program@, old(self).pc as int),
            final(self)@ == old(self)@.at(
                if value is Some {
                    old(self).pc + 2
                } else {
                    old(self).pc as int
                },
            ),
    {
        if self.eof_with_offset(1) {
            return None;
        }
        let high = self.program[self.pc];
        let low = self.program[self.pc + 1];
        self.pc += 2;
        Some((high as u16) * 256 + (low as u16))
    }

    /// Reads the three bytes under the cursor and moves the cursor behind them.
    fn next_24_bits(&mut self) -> (value: Option<U24>)
        ensures
            value == read_u24(old(self).program@, old(self).pc as int),
            final(self)@ == old(self)@.at(
                if value is Some {
                    old(self).pc + 3
                } else {
                    old(self).pc as int
                },
            ),
    {
        if self.eof_with_offset(2) {
            return None;
        }
        let result = (self.program[self.pc], self.program[self.pc + 1], self.program[self.pc + 2]);
        self.pc += 3;
        Some(result)
    }
}

} // verus!
