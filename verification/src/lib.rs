//! Static recovery of the instruction set of an obfuscated, versioned virtual
//! machine embedded in a script. The engine consumes a simplified syntax tree
//! of the interpreter source and reconstructs, per numeric opcode slot, which
//! instruction kind it implements, its operand bits, a decryption key and
//! offset, and the bytecode payload strings.

pub mod ast;
pub mod bits;
pub mod challenge;
pub mod disassemble;
pub mod encoding;
pub mod extract;
pub mod fold;
pub mod functions;
pub mod itable;
pub mod magic_bits;
pub mod offset;
pub mod opcodes;
pub mod smap;
pub mod solver;
pub mod strutil;
pub mod vm;
pub mod webgl;
