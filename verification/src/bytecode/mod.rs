pub mod chunk;
pub mod opcode;
pub mod text;
pub mod values;
