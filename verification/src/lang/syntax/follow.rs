use vstd::prelude::*;
use vstd::string::StringExecFns;
use crate::lang::expr::Expr;
use crate::lang::syntax::grammar::{
    p_expr,
    p_list,
    p_post_rule,
    post_rule,
    Separator,
};
use crate::lang::syntax::ops::{
    agrees_tried,
    infix_rank,
    infix_word,
    make_binary,
    Tried,
};
use crate::lang::syntax::reader::Source;
use crate::lang::syntax::tree::{
    expr_tree,
    PostRule,
};

verus! {

impl<'a> Source<'a> {
    /// Tries one thing that may follow the expression `acc`.
    pub(crate) fn post_rule(&self, pos: usize, acc: Expr, rule: PostRule) -> (r: Result<Tried, String>)
        requires
            pos <= self@.len(),
        ensures
            agrees_tried(
                r,
                p_post_rule(self@, pos as int, expr_tree(acc), rule),
                acc,
                pos,
                self@.len(),
            ),
        decreases self@.len() - pos, 7nat, 0nat,
    {
        proof {
            reveal(p_post_rule);
            reveal(p_expr);
            reveal(p_list);
            reveal_strlit("as");
            reveal_strlit("?");
            reveal_strlit("[");
            reveal_strlit("]");
            reveal_strlit(".");
            reveal_strlit("(");
            reveal_strlit(")");
        }
        match rule {
            PostRule::Binary(op) => {
                let from = match self.spaced(pos, infix_word(op)) {
                    Some(from) => from,
                    None => {
                        return Ok(Tried::Back(acc));
                    },
                };
                match self.expr(from, infix_rank(op)) {
                    Ok(Some((right, end))) => Ok(Tried::Done(make_binary(op, acc, right), end)),
                    Ok(None) => Ok(Tried::Back(acc)),
                    Err(text) => Err(text),
                }
            },
            PostRule::Cast => {
                let from = match self.spaced(pos, "as") {
                    Some(from) => from,
                    None => {
                        return Ok(Tried::Back(acc));
                    },
                };
                match self.ty(from) {
                    Some((ty, end)) => Ok(Tried::Done(Expr::Cast(Box::new(acc), ty), end)),
                    None => Ok(Tried::Back(acc)),
                }
            },
            PostRule::Unwrap => match self.token(pos, "?") {
                Some(end) => Ok(Tried::Done(Expr::Unwrap(Box::new(acc)), end)),
                None => Ok(Tried::Back(acc)),
            },
            PostRule::Index => {
                let from = match self.spaced(pos, "[") {
                    Some(from) => from,
                    None => {
                        return Ok(Tried::Back(acc));
                    },
                };
                match self.expr(from, 0) {
                    Ok(Some((index, end))) => match self.lit(end, "]") {
                        Some(closed) => Ok(
                            Tried::Done(Expr::Index(Box::new(acc), Box::new(index)), closed),
                        ),
                        None => Ok(Tried::Back(acc)),
                    },
                    Ok(None) => Ok(Tried::Back(acc)),
                    Err(text) => Err(text),
                }
            },
            PostRule::Dot => {
                let from = match self.spaced(pos, ".") {
                    Some(from) => from,
                    None => {
                        return Ok(Tried::Back(acc));
                    },
                };
                match self.identifier(from) {
                    Some((name, end)) => Ok(Tried::Done(Expr::DotOp(Box::new(acc), name), end)),
                    None => Ok(Tried::Back(acc)),
                }
            },
            PostRule::Call => {
                let from = match self.token(pos, "(") {
                    Some(from) => from,
                    None => {
                        return Ok(Tried::Back(acc));
                    },
                };
                match self.exprs(from, Separator::Comma) {
                    Ok((args, end)) => match self.lit(end, ")") {
                        Some(closed) => Ok(Tried::Done(Expr::Call(Box::new(acc), args), closed)),
                        None => Ok(Tried::Back(acc)),
                    },
                    Err(text) => Err(text),
                }
            },
        }
    }
}

} // verus!
