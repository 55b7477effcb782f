//! Decoder for 6502 machine code.
//!
//! A byte stream is decoded one instruction at a time: the opcode byte is
//! classified by the opcode table, the operand bytes are read as the
//! addressing mode demands, and the instruction is handed to a consumer
//! through one method per mnemonic.

pub mod decode;
pub mod dispatch;
pub mod error;
pub mod interp;
pub mod mnemonic;
pub mod mode;
pub mod operand;
pub mod stream;
pub mod table;

pub use decode::decode_instruction;
pub use interp::InterpretInstruction;
pub use operand::{Arg, InterpretArg};
pub use stream::ByteStream;
