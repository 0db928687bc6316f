use vstd::prelude::*;
use vstd::string::StringExecFns;
use crate::lang::expr::{
    Block,
    Expr,
    If,
};
use crate::lang::syntax::grammar::{
    p_block,
    p_exp_block,
    p_expr,
    p_if_expr,
    p_if_head,
    p_if_stat,
    Head,
};
use crate::lang::syntax::reader::{
    agrees,
    Attempt,
    Source,
};
use crate::lang::syntax::tree::{
    node1,
    block_tree,
    expr_tree,
    if_tree,
    Kind,
};

verus! {

impl<'a> Source<'a> {
    /// Reads `if`, a condition and a block.
    pub(crate) fn if_head(&self, pos: usize, with_value: bool) -> (r: Attempt<(Expr, Block)>)
        requires
            pos <= self@.len(),
        ensures
            match r {
                Ok(Some(((condition, body), end))) => p_if_head(self@, pos as int, with_value)
                    == Head::Matched(expr_tree(condition), block_tree(body), end as int) && pos
                    < end <= self@.len(),
                Ok(None) => p_if_head(self@, pos as int, with_value) is Failed,
                Err(text) => p_if_head(self@, pos as int, with_value) == Head::Aborted(text@),
            },
        decreases self@.len() - pos, 1nat, 0nat,
    {
        proof {
            reveal(p_if_head);
            reveal(p_expr);
            reveal(p_exp_block);
            reveal(p_block);
            reveal_strlit("if");
        }
        let behind = match self.lit(pos, "if") {
            Some(behind) => behind,
            None => {
                return Ok(None);
            },
        };
        let (condition, end) = match self.expr(self.ws(behind), 0) {
            Ok(Some(found)) => found,
            Ok(None) => {
                return Ok(None);
            },
            Err(text) => {
                return Err(text);
            },
        };
        let from = self.ws(end);
        let block = if with_value {
            self.exp_block(from)
        } else {
            self.block(from)
        };
        match block {
            Ok(Some((body, last))) => Ok(Some(((condition, body), last))),
            Ok(None) => Ok(None),
            Err(text) => Err(text),
        }
    }

    /// Reads a condition of which every block has a value.
    pub fn if_expr(&self, pos: usize) -> (r: Attempt<If>)
        requires
            pos <= self@.len(),
        ensures
            agrees(r, |i: If| if_tree(i), p_if_expr(self@, pos as int), pos, self@.len()),
        decreases self@.len() - pos, 2nat, 0nat,
    {
        proof {
            reveal(p_if_expr);
            reveal(p_if_head);
            reveal(p_exp_block);
            reveal_strlit("else");
        }
        let ((condition, body), end) = match self.if_head(pos, true) {
            Ok(Some(found)) => found,
            Ok(None) => {
                return Ok(None);
            },
            Err(text) => {
                return Err(text);
            },
        };
        let from = match self.spaced(end, "else") {
            Some(from) => from,
            None => {
                return Ok(None);
            },
        };
        match self.exp_block(from) {
            Ok(Some((other, last))) => {
                assert(if_tree(If::Else(other)) == node1(Kind::IfElse, block_tree(other)));
                return Ok(Some((If::If(condition, body, Some(Box::new(If::Else(other)))), last)));
            },
            Ok(None) => {},
            Err(text) => {
                return Err(text);
            },
        }
        match self.if_expr(from) {
            Ok(Some((next, last))) => Ok(Some((If::If(condition, body, Some(Box::new(next))), last))),
            Ok(None) => Ok(None),
            Err(text) => Err(text),
        }
    }

    /// Reads a condition as a statement.
    pub fn if_stat(&self, pos: usize) -> (r: Attempt<If>)
        requires
            pos <= self@.len(),
        ensures
            agrees(r, |i: If| if_tree(i), p_if_stat(self@, pos as int), pos, self@.len()),
        decreases self@.len() - pos, 2nat, 0nat,
    {
        proof {
            reveal(p_if_stat);
            reveal(p_if_head);
            reveal(p_block);
            reveal_strlit("else");
        }
        let ((condition, body), end) = match self.if_head(pos, false) {
            Ok(Some(found)) => found,
            Ok(None) => {
                return Ok(None);
            },
            Err(text) => {
                return Err(text);
            },
        };
        match self.spaced(end, "else") {
            Some(from) => {
                match self.if_stat(from) {
                    Ok(Some((next, last))) => {
                        return Ok(
                            Some((If::If(condition, body, Some(Box::new(next))), last)),
                        );
                    },
                    Ok(None) => {},
                    Err(text) => {
                        return Err(text);
                    },
                }
                match self.block(from) {
                    Ok(Some((other, last))) => {
                        assert(if_tree(If::Else(other)) == node1(Kind::IfElse, block_tree(other)));
                        return Ok(
                            Some(
                                (If::If(condition, body, Some(Box::new(If::Else(other)))), last),
                            ),
                        );
                    },
                    Ok(None) => {},
                    Err(text) => {
                        return Err(text);
                    },
                }
            },
            None => {},
        }
        Ok(Some((If::If(condition, body, None), end)))
    }
}

} // verus!
