//! Decode and dispatch core of a register-based bytecode machine.
//!
//! A program is a flat sequence of bytes. [`opcode`] is the table that gives
//! every opcode its number and the shape of its arguments. [`decode`] states
//! the instruction format: which instruction stands at a cursor, and where
//! the cursor is afterwards. [`vm`] holds the machine, which decodes the
//! instruction under its cursor and runs it, one after the other, until it
//! halts or fails; to run out of program is to fail. [`instruction`] is a
//! small holder for an opcode whose arguments have not been read yet.
pub mod decode;
pub mod instruction;
pub mod opcode;
pub mod vm;
