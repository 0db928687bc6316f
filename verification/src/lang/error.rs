use vstd::prelude::*;
use vstd::string::StringExecFns;
use crate::lang::types::FerrumType;
use crate::lang::variable::VarLoc;

verus! {

/// Why a compilation stopped. Every one of them ends the current
/// compilation unit.
#[derive(Debug)]
pub enum CompileError {
    /// A borrow, an assignment or a move between types that do not line up:
    /// the type that was there, and the type that was asked for.
    DataTypeMismatch(FerrumType, FerrumType),
    /// A scoped reference would outlive what it refers to.
    LifetimeMismatch,
    IllegalMutBorrow,
    IllegalSharedBorrow,
    /// The borrow bookkeeping is in a state that no program can cause: a
    /// defect of the compiler.
    IllegalBorrowState,
    DataNotMutable(VarLoc),
    AlreadyAssigned(VarLoc),
    /// A data source of another kind than the named one was found: a
    /// defect of the compiler.
    IllegalDataSource(String),
    VariableNotInitialized(VarLoc),
    ModifiedBorrowedData(VarLoc),
    UnknownVariable(VarLoc),
}

pub type CompileResult<T> = Result<T, CompileError>;

/// A `CompileError` with its text as a sequence of characters.
pub enum Failure {
    DataTypeMismatch(FerrumType, FerrumType),
    LifetimeMismatch,
    IllegalMutBorrow,
    IllegalSharedBorrow,
    IllegalBorrowState,
    DataNotMutable(VarLoc),
    AlreadyAssigned(VarLoc),
    IllegalDataSource(Seq<char>),
    VariableNotInitialized(VarLoc),
    ModifiedBorrowedData(VarLoc),
    UnknownVariable(VarLoc),
}

impl View for CompileError {
    type V = Failure;

    open spec fn view(&self) -> Failure {
        match self {
            CompileError::DataTypeMismatch(got, expected) => Failure::DataTypeMismatch(
                *got,
                *expected,
            ),
            CompileError::LifetimeMismatch => Failure::LifetimeMismatch,
            CompileError::IllegalMutBorrow => Failure::IllegalMutBorrow,
            CompileError::IllegalSharedBorrow => Failure::IllegalSharedBorrow,
            CompileError::IllegalBorrowState => Failure::IllegalBorrowState,
            CompileError::DataNotMutable(v) => Failure::DataNotMutable(*v),
            CompileError::AlreadyAssigned(v) => Failure::AlreadyAssigned(*v),
            CompileError::IllegalDataSource(kind) => Failure::IllegalDataSource(kind@),
            CompileError::VariableNotInitialized(v) => Failure::VariableNotInitialized(*v),
            CompileError::ModifiedBorrowedData(v) => Failure::ModifiedBorrowedData(*v),
            CompileError::UnknownVariable(v) => Failure::UnknownVariable(*v),
        }
    }
}

/// How an operation ended: done, or stopped by the given failure.
pub open spec fn verdict(r: CompileResult<()>) -> Result<(), Failure> {
    match r {
        Ok(_) => Ok(()),
        Err(e) => Err(e@),
    }
}

/// How `{:?}` shows a `VarLoc` with this depth and this name.
pub uninterp spec fn var_loc_debug(stack_frame: usize, name: Seq<char>) -> Seq<char>;

/// `format!` of std with `{:?}` on a `VarLoc`: the text that the derived
/// `Debug` gives, which depends on the depth and the name alone.
#[verifier::external_body]
fn debug_var_loc(loc: &VarLoc) -> (r: String)
    ensures
        r@ == var_loc_debug(loc.stack_frame, loc.name@),
{
    format!("{:?}", loc)
}

/// `format!` of std with `{:?}` on a `FerrumType`: the text that the
/// derived `Debug` gives. Nothing is said of it.
#[verifier::external_body]
fn debug_type(ty: &FerrumType) -> (r: String) {
    format!("{:?}", ty)
}

/// What is said of two types that do not line up, given how each is shown.
pub open spec fn mismatch_text(got: Seq<char>, expected: Seq<char>) -> Seq<char> {
    "got "@ + got + " while "@ + expected + " was expected"@
}

/// What is said of two types that do not line up, given how each is shown.
pub fn mismatch_message(got: &str, expected: &str) -> (r: String)
    ensures
        r@ == mismatch_text(got@, expected@),
{
    let mut r = String::from_str("got ");
    r.append(got);
    r.append(" while ");
    r.append(expected);
    r.append(" was expected");
    r
}

impl Failure {
    /// What the message says. For `DataTypeMismatch` it depends on how the
    /// two types are shown, which is not said here.
    pub open spec fn text(self) -> Option<Seq<char>> {
        match self {
            Failure::DataTypeMismatch(_, _) => None,
            Failure::LifetimeMismatch => Some("Variable does not life long enough"@),
            Failure::IllegalMutBorrow => Some("Cannot borrow as mut"@),
            Failure::IllegalSharedBorrow => Some("Cannot borrow shared"@),
            Failure::IllegalBorrowState => Some(
                "Illegal borrow checker state. This is a compiler error"@,
            ),
            Failure::DataNotMutable(v) => Some(
                "Variable "@ + var_loc_debug(v.stack_frame, v.name@) + " is not mutable"@,
            ),
            Failure::AlreadyAssigned(v) => Some(
                "Cannot assign data to "@ + var_loc_debug(v.stack_frame, v.name@) + " twice"@,
            ),
            Failure::IllegalDataSource(kind) => Some("Expected "@ + kind + " data source"@),
            Failure::VariableNotInitialized(v) => Some(
                "Tried to assign data to uninitialized variable "@ + var_loc_debug(
                    v.stack_frame,
                    v.name@,
                ),
            ),
            Failure::ModifiedBorrowedData(v) => Some(
                "Cannot modify "@ + var_loc_debug(v.stack_frame, v.name@) + " while it is borrowed"@,
            ),
            Failure::UnknownVariable(v) => Some(
                "Variable "@ + var_loc_debug(v.stack_frame, v.name@)
                    + " not found in current scope"@,
            ),
        }
    }
}

impl CompileError {
    /// The error in words.
    pub fn message(&self) -> (r: String)
        ensures
            match self@.text() {
                Some(text) => r@ == text,
                None => exists|got: Seq<char>, expected: Seq<char>|
                    r@ == mismatch_text(got, expected),
            },
    {
        match self {
            CompileError::DataTypeMismatch(got, expected) => {
                let got = debug_type(got);
                let expected = debug_type(expected);
                mismatch_message(got.as_str(), expected.as_str())
            },
            CompileError::LifetimeMismatch => String::from_str("Variable does not life long enough"),
            CompileError::IllegalMutBorrow => String::from_str("Cannot borrow as mut"),
            CompileError::IllegalSharedBorrow => String::from_str("Cannot borrow shared"),
            CompileError::IllegalBorrowState => String::from_str(
                "Illegal borrow checker state. This is a compiler error",
            ),
            CompileError::DataNotMutable(v) => {
                let mut r = String::from_str("Variable ");
                r.append(debug_var_loc(v).as_str());
                r.append(" is not mutable");
                r
            },
            CompileError::AlreadyAssigned(v) => {
                let mut r = String::from_str("Cannot assign data to ");
                r.append(debug_var_loc(v).as_str());
                r.append(" twice");
                r
            },
            CompileError::IllegalDataSource(kind) => {
                let mut r = String::from_str("Expected ");
                r.append(kind.as_str());
                r.append(" data source");
                r
            },
            CompileError::VariableNotInitialized(v) => {
                let mut r = String::from_str("Tried to assign data to uninitialized variable ");
                r.append(debug_var_loc(v).as_str());
                r
            },
            CompileError::ModifiedBorrowedData(v) => {
                let mut r = String::from_str("Cannot modify ");
                r.append(debug_var_loc(v).as_str());
                r.append(" while it is borrowed");
                r
            },
            CompileError::UnknownVariable(v) => {
                let mut r = String::from_str("Variable ");
                r.append(debug_var_loc(v).as_str());
                r.append(" not found in current scope");
                r
            },
        }
    }
}

} // verus!
