pub mod cache;
pub mod compiler;
pub mod enums;
pub mod error;
pub mod expr;
pub mod fingerprint;
pub mod function;
pub mod layout;
pub mod lifetime;
pub mod structs;
pub mod syntax;
pub mod tuple;
pub mod types;
pub mod variable;
