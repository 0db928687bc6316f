//! Semantic core of the Ferrum toolchain: the type model, generic
//! instantiation, aggregate layout, and the ownership and borrow tracking
//! that the compiler applies to every variable; the reader of the surface
//! syntax; and the bytecode that the compiler writes, with the stack
//! machine that runs it.

pub mod bytecode;
pub mod lang;
pub mod vm;
