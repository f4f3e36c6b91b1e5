//! Codec primitives for a stack-machine script language: assembling the
//! textual ("ASM") form into its canonical binary encoding, the minimal
//! variable-length signed-integer encoding used for stack numbers, and the
//! bit-packed relative-lock-time decoding.
#![verifier::loop_isolation(false)]

pub mod assemble;
pub mod builder;
pub mod hex;
pub mod locktime;
pub mod numparse;
pub mod opcodes;
pub mod tokenize;
pub mod scriptint;

pub use assemble::AsmParseErrorKind;
pub use assemble::ParseAsmError;
pub use assemble::parse_asm;
pub use assemble::parse_asm_checked;
pub use locktime::LockTime;
pub use locktime::from_num;
pub use tokenize::Word;
pub use tokenize::iter_words;
pub use opcodes::OP_PUSHDATA1_CODE;
pub use opcodes::is_push_bytes;
pub use opcodes::is_push_data;
pub use opcodes::opcode_from_name;

pub use scriptint::ExecError;
pub use scriptint::ScriptIntError;
pub use scriptint::read_scriptint;
pub use scriptint::read_scriptint_size;
pub use scriptint::scriptint_parse;
pub use scriptint::scriptint_vec;
pub use scriptint::write_scriptint;
