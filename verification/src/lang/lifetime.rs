use vstd::prelude::*;

verus! {

/// Index of a scope in the chain of lexical scopes.
pub type ScopeLoc = usize;

/// How long the data behind a variable stays valid.
///
/// `Dynamic` data lives on the heap and is not analysed at compile time.
/// `Static` data lives for the whole run of the program, as constants do.
/// `Scoped` data lives on the stack between the two given scope positions,
/// so its validity can be decided while compiling.
#[derive(Clone, Copy, Debug, PartialEq, Eq, Structural)]
pub enum LifeTime {
    Dynamic,
    Static,
    Scoped(ScopeLoc, ScopeLoc),
}

} // verus!
