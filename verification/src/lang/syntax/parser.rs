use vstd::prelude::*;
use crate::lang::expr::{
    Block,
    Enum,
    Function,
    Struct,
    Trait,
};
use crate::lang::syntax::grammar::{
    p_enum_def,
    p_fn_block,
    p_function,
    p_struct_def,
    p_trait,
    Outcome,
};
use crate::lang::syntax::reader::Source;
use crate::lang::syntax::tree::{
    block_tree,
    enum_tree,
    function_tree,
    struct_tree,
    trait_tree,
    Tree,
};

verus! {

/// Why a text could not be read.
#[derive(Debug)]
pub enum SyntaxError {
    /// The text, from its start to its end, is not what was asked for.
    Mismatch,
    /// A number has a suffix that names no number type; this says which.
    NumberType(String),
}

/// What reading a whole text of `len` characters gives, seen from the
/// grammar: the tree, if the text was read to its end; nothing, if it was
/// not; the complaint, if there was one.
pub open spec fn whole(o: Outcome, len: nat) -> Result<Tree, Option<Seq<char>>> {
    match o {
        Outcome::Matched(tree, end) => if end == len {
            Ok(tree)
        } else {
            Err(None)
        },
        Outcome::Failed => Err(None),
        Outcome::Aborted(text) => Err(Some(text)),
    }
}

/// What reading a whole text of `len` characters gives, seen from the
/// grammar, where no complaint is possible.
pub open spec fn whole_plain(o: Option<(Tree, int)>, len: nat) -> Option<Tree> {
    match o {
        Some((tree, end)) => if end == len {
            Some(tree)
        } else {
            None
        },
        None => None,
    }
}

/// Reads a function: the text must be a function from start to end.
pub fn function(text: &str) -> (r: Result<Function, SyntaxError>)
    ensures
        match r {
            Ok(f) => whole(p_function(text@, 0), text@.len()) == Ok::<Tree, Option<Seq<char>>>(
                function_tree(f),
            ),
            Err(SyntaxError::Mismatch) => whole(p_function(text@, 0), text@.len()) == Err::<
                Tree,
                Option<Seq<char>>,
            >(None),
            Err(SyntaxError::NumberType(complaint)) => whole(p_function(text@, 0), text@.len())
                == Err::<Tree, Option<Seq<char>>>(Some(complaint@)),
        },
{
    let source = Source::new(text);
    match source.function(0) {
        Ok(Some((f, end))) => if end == source.len() {
            Ok(f)
        } else {
            Err(SyntaxError::Mismatch)
        },
        Ok(None) => Err(SyntaxError::Mismatch),
        Err(complaint) => Err(SyntaxError::NumberType(complaint)),
    }
}

/// Reads the body of a function: the text must be one from start to end.
pub fn fn_block(text: &str) -> (r: Result<Block, SyntaxError>)
    ensures
        match r {
            Ok(b) => whole(p_fn_block(text@, 0), text@.len()) == Ok::<Tree, Option<Seq<char>>>(
                block_tree(b),
            ),
            Err(SyntaxError::Mismatch) => whole(p_fn_block(text@, 0), text@.len()) == Err::<
                Tree,
                Option<Seq<char>>,
            >(None),
            Err(SyntaxError::NumberType(complaint)) => whole(p_fn_block(text@, 0), text@.len())
                == Err::<Tree, Option<Seq<char>>>(Some(complaint@)),
        },
{
    let source = Source::new(text);
    match source.fn_block(0) {
        Ok(Some((b, end))) => if end == source.len() {
            Ok(b)
        } else {
            Err(SyntaxError::Mismatch)
        },
        Ok(None) => Err(SyntaxError::Mismatch),
        Err(complaint) => Err(SyntaxError::NumberType(complaint)),
    }
}

/// Reads an enum declaration: the text must be one from start to end.
pub fn enum_def(text: &str) -> (r: Result<Enum, SyntaxError>)
    ensures
        match r {
            Ok(e) => whole_plain(p_enum_def(text@, 0), text@.len()) == Some(enum_tree(e)),
            Err(e) => e is Mismatch && whole_plain(p_enum_def(text@, 0), text@.len()) is None,
        },
{
    let source = Source::new(text);
    match source.enum_def(0) {
        Some((e, end)) => if end == source.len() {
            Ok(e)
        } else {
            Err(SyntaxError::Mismatch)
        },
        None => Err(SyntaxError::Mismatch),
    }
}

/// Reads a struct declaration: the text must be one from start to end.
pub fn struct_def(text: &str) -> (r: Result<Struct, SyntaxError>)
    ensures
        match r {
            Ok(s) => whole_plain(p_struct_def(text@, 0), text@.len()) == Some(struct_tree(s)),
            Err(e) => e is Mismatch && whole_plain(p_struct_def(text@, 0), text@.len()) is None,
        },
{
    let source = Source::new(text);
    match source.struct_def(0) {
        Some((s, end)) => if end == source.len() {
            Ok(s)
        } else {
            Err(SyntaxError::Mismatch)
        },
        None => Err(SyntaxError::Mismatch),
    }
}

/// Reads a trait declaration: the text must be one from start to end.
pub fn tr(text: &str) -> (r: Result<Trait, SyntaxError>)
    ensures
        match r {
            Ok(t) => whole_plain(p_trait(text@, 0), text@.len()) == Some(trait_tree(t)),
            Err(e) => e is Mismatch && whole_plain(p_trait(text@, 0), text@.len()) is None,
        },
{
    let source = Source::new(text);
    match source.trait_def(0) {
        Some((t, end)) => if end == source.len() {
            Ok(t)
        } else {
            Err(SyntaxError::Mismatch)
        },
        None => Err(SyntaxError::Mismatch),
    }
}

} // verus!
