use vstd::prelude::*;
use vstd::string::StringExecFns;
use crate::lang::expr::{
    Block,
    Expr,
    If,
    Match,
};
use crate::lang::syntax::grammar::{
    p_alternative,
    p_atom,
    p_exp_block,
    p_expr,
    p_if_expr,
    p_match,
    p_post,
    p_post_rule,
    p_post_step,
    p_prefix,
    p_struct_init,
    post_rule,
    Outcome,
};
use crate::lang::syntax::ops::{
    agrees_tried,
    make_unary,
    post_rank,
    post_rule_at,
    prefix_op_at,
    prefix_word,
    Tried,
};
use crate::lang::syntax::reader::{
    agrees,
    Attempt,
    Source,
};
use crate::lang::syntax::tree::{
    expr_tree,
    Prefix,
};

verus! {

impl<'a> Source<'a> {
    /// Reads an expression of which every operator binds at least as
    /// tightly as `min`.
    pub fn expr(&self, pos: usize, min: u8) -> (r: Attempt<Expr>)
        requires
            pos <= self@.len(),
        ensures
            agrees(
                r,
                |e: Expr| expr_tree(e),
                p_expr(self@, pos as int, min as int),
                pos,
                self@.len(),
            ),
        decreases self@.len() - pos, 10nat, 0nat,
    {
        proof {
            reveal(p_expr);
            reveal(p_atom);
            reveal(p_post);
        }
        let (first, end) = match self.atom(pos) {
            Ok(Some(found)) => found,
            Ok(None) => {
                return Ok(None);
            },
            Err(text) => {
                return Err(text);
            },
        };
        match self.post(end, min, first) {
            Ok((e, last)) => Ok(Some((e, last))),
            Err(text) => Err(text),
        }
    }

    /// Reads the beginning of an expression.
    pub(crate) fn atom(&self, pos: usize) -> (r: Attempt<Expr>)
        requires
            pos <= self@.len(),
        ensures
            agrees(r, |e: Expr| expr_tree(e), p_atom(self@, pos as int, 0), pos, self@.len()),
        decreases self@.len() - pos, 9nat, 19nat,
    {
        proof {
            reveal(p_atom);
            reveal(p_alternative);
        }
        let mut index: usize = 0;
        while index < 19
            invariant
                index <= 19,
                pos <= self@.len(),
                p_atom(self@, pos as int, 0) == p_atom(self@, pos as int, index as int),
            decreases 19 - index,
        {
            proof {
                reveal(p_atom);
                reveal(p_alternative);
            }
            match self.alternative(pos, index) {
                Ok(Some(found)) => {
                    return Ok(Some(found));
                },
                Ok(None) => {},
                Err(text) => {
                    return Err(text);
                },
            }
            index += 1;
        }
        Ok(None)
    }

    /// Reads one way in which an expression may begin.
    pub(crate) fn alternative(&self, pos: usize, index: usize) -> (r: Attempt<Expr>)
        requires
            pos <= self@.len(),
            index < 19,
        ensures
            agrees(
                r,
                |e: Expr| expr_tree(e),
                p_alternative(self@, pos as int, index as int),
                pos,
                self@.len(),
            ),
        decreases self@.len() - pos, 8nat, 0nat,
    {
        proof {
            reveal(p_alternative);
            reveal(p_prefix);
            reveal(p_struct_init);
            reveal(p_if_expr);
            reveal(p_match);
            reveal(p_exp_block);
        }
        if index < 6 {
            self.prefix(pos, prefix_op_at(index))
        } else if index == 6 {
            self.num_lit(pos)
        } else if index == 7 {
            self.bracketed(pos)
        } else if index == 8 {
            self.tuple(pos)
        } else if index == 9 {
            self.array(pos)
        } else if index == 10 {
            self.repeated(pos)
        } else if index == 11 {
            self.struct_init(pos)
        } else if index == 12 {
            match self.if_expr(pos) {
                Ok(Some((i, end))) => Ok(Some((Expr::If(Box::new(i)), end))),
                Ok(None) => Ok(None),
                Err(text) => Err(text),
            }
        } else if index == 13 {
            match self.match_expr(pos) {
                Ok(Some((m, end))) => Ok(Some((Expr::Match(Box::new(m)), end))),
                Ok(None) => Ok(None),
                Err(text) => Err(text),
            }
        } else if index == 14 {
            match self.exp_block(pos) {
                Ok(Some((b, end))) => Ok(Some((Expr::Block(Box::new(b)), end))),
                Ok(None) => Ok(None),
                Err(text) => Err(text),
            }
        } else if index == 15 {
            Ok(self.bool_lit(pos))
        } else if index == 16 {
            match self.path(pos) {
                Some((path, end)) => Ok(Some((Expr::Path(path), end))),
                None => Ok(None),
            }
        } else if index == 17 {
            Ok(self.str_lit(pos))
        } else {
            Ok(self.char_lit(pos))
        }
    }

    /// Reads an operator in front and its operand.
    pub(crate) fn prefix(&self, pos: usize, op: Prefix) -> (r: Attempt<Expr>)
        requires
            pos <= self@.len(),
        ensures
            agrees(r, |e: Expr| expr_tree(e), p_prefix(self@, pos as int, op), pos, self@.len()),
        decreases self@.len() - pos, 2nat, 0nat,
    {
        proof {
            reveal(p_prefix);
            reveal(p_expr);
            reveal_strlit("mut");
        }
        let behind = match self.lit(pos, prefix_word(op)) {
            Some(behind) => behind,
            None => {
                return Ok(None);
            },
        };
        let operand = match op {
            Prefix::RefMut => match self.spaced(behind, "mut") {
                Some(from) => from,
                None => {
                    return Ok(None);
                },
            },
            _ => self.ws(behind),
        };
        match self.expr(operand, 13) {
            Ok(Some((e, end))) => Ok(Some((make_unary(op, e), end))),
            Ok(None) => Ok(None),
            Err(text) => Err(text),
        }
    }

    /// Reads whatever follows the expression `acc`.
    pub(crate) fn post(&self, pos: usize, min: u8, acc: Expr) -> (r: Result<(Expr, usize), String>)
        requires
            pos <= self@.len(),
        ensures
            match r {
                Ok((e, end)) => p_post(self@, pos as int, min as int, expr_tree(acc))
                    == Outcome::Matched(expr_tree(e), end as int) && pos <= end <= self@.len(),
                Err(text) => p_post(self@, pos as int, min as int, expr_tree(acc))
                    == Outcome::Aborted(text@),
            },
        decreases self@.len() - pos, 9nat, 0nat,
    {
        proof {
            reveal(p_post);
            reveal(p_post_step);
        }
        let mut current = acc;
        let mut at = pos;
        loop
            invariant
                pos <= at <= self@.len(),
                p_post(self@, pos as int, min as int, expr_tree(acc)) == p_post(
                    self@,
                    at as int,
                    min as int,
                    expr_tree(current),
                ),
            ensures
                pos <= at <= self@.len(),
                p_post(self@, pos as int, min as int, expr_tree(acc)) == Outcome::Matched(
                    expr_tree(current),
                    at as int,
                ),
            decreases self@.len() - at,
        {
            proof {
                reveal(p_post);
                reveal(p_post_step);
            }
            match self.post_step(at, min, current) {
                Ok(Tried::Done(e, end)) => {
                    current = e;
                    at = end;
                },
                Ok(Tried::Back(e)) => {
                    current = e;
                    break ;
                },
                Err(text) => {
                    return Err(text);
                },
            }
        }
        Ok((current, at))
    }

    /// Tries everything that may follow the expression `acc`, in order.
    pub(crate) fn post_step(&self, pos: usize, min: u8, acc: Expr) -> (r: Result<Tried, String>)
        requires
            pos <= self@.len(),
        ensures
            agrees_tried(
                r,
                p_post_step(self@, pos as int, min as int, expr_tree(acc), 0),
                acc,
                pos,
                self@.len(),
            ),
        decreases self@.len() - pos, 8nat, 35nat,
    {
        proof {
            reveal(p_post_step);
            reveal(p_post_rule);
        }
        let mut current = acc;
        let mut index: usize = 0;
        while index < 35
            invariant
                index <= 35,
                pos <= self@.len(),
                current == acc,
                p_post_step(self@, pos as int, min as int, expr_tree(acc), 0) == p_post_step(
                    self@,
                    pos as int,
                    min as int,
                    expr_tree(acc),
                    index as int,
                ),
            decreases 35 - index,
        {
            proof {
                reveal(p_post_step);
                reveal(p_post_rule);
            }
            let rule = post_rule_at(index);
            if post_rank(rule) >= min {
                match self.post_rule(pos, current, rule) {
                    Ok(Tried::Done(e, end)) => {
                        return Ok(Tried::Done(e, end));
                    },
                    Ok(Tried::Back(e)) => {
                        current = e;
                    },
                    Err(text) => {
                        return Err(text);
                    },
                }
            }
            index += 1;
        }
        Ok(Tried::Back(current))
    }
}

} // verus!
