//! A minimal register-based virtual machine: a fixed 14-opcode instruction
//! set executed over a 1024-byte address space that is partitioned into an
//! instruction region, a data-memory region and a stack region.
//!
//! Instructions have a fixed-width binary encoding (one opcode byte followed
//! by that opcode's operand bytes); encoding and decoding are proved to be
//! inverse to one another. The fetch-execute loop and every instruction's
//! effect on the machine state are specified against a mathematical view of
//! the machine and verified.

pub mod registers;

pub mod instruction;

pub mod vm;
