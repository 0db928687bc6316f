use vstd::prelude::*;
use vstd::string::StringExecFns;
use crate::lang::expr::{
    Block,
    Expr,
    Stat,
};
use crate::lang::syntax::grammar::{
    p_block,
    p_block_stats,
    p_exp_block,
    p_expr,
    p_fn_block,
    p_list,
    p_return_val,
    Items,
    Separator,
};
use crate::lang::syntax::ops::stat_item;
use crate::lang::syntax::reader::{
    agrees,
    Attempt,
    Source,
};
use crate::lang::syntax::tree::{
    block_tree,
    expr_tree,
    stat_trees,
};

verus! {

impl<'a> Source<'a> {
    /// Reads the opening bracket of a block and the statements behind it.
    pub(crate) fn block_stats(&self, pos: usize, noret: bool) -> (r: Result<Option<(Vec<Stat>, usize)>, String>)
        requires
            pos <= self@.len(),
        ensures
            match r {
                Ok(Some((stats, end))) => p_block_stats(self@, pos as int, stat_item(noret))
                    == Items::Matched(stat_trees(stats@), end as int) && pos < end <= self@.len(),
                Ok(None) => p_block_stats(self@, pos as int, stat_item(noret)) == Items::Matched(
                    Seq::empty(),
                    pos as int,
                ),
                Err(text) => p_block_stats(self@, pos as int, stat_item(noret)) == Items::Aborted(
                    text@,
                ),
            },
        decreases self@.len() - pos, 4nat, 0nat,
    {
        proof {
            reveal(p_block_stats);
            reveal(p_list);
            reveal_strlit("{");
        }
        let behind = match self.lit(pos, "{") {
            Some(behind) => behind,
            None => {
                return Ok(None);
            },
        };
        let from = self.ws(behind);
        let found = if noret {
            self.stats_noret(from, Separator::Space)
        } else {
            self.stats(from, Separator::Space)
        };
        match found {
            Ok((stats, end)) => Ok(Some((stats, end))),
            Err(text) => Err(text),
        }
    }

    /// Reads a block.
    pub fn block(&self, pos: usize) -> (r: Attempt<Block>)
        requires
            pos <= self@.len(),
        ensures
            agrees(r, |b: Block| block_tree(b), p_block(self@, pos as int), pos, self@.len()),
        decreases self@.len() - pos, 6nat, 0nat,
    {
        proof {
            reveal(p_block);
            reveal(p_block_stats);
            reveal(p_exp_block);
            reveal_strlit("}");
        }
        let (stats, end) = match self.block_stats(pos, false) {
            Ok(Some(found)) => found,
            Ok(None) => {
                return Ok(None);
            },
            Err(text) => {
                return Err(text);
            },
        };
        match self.token(end, "}") {
            Some(closed) => Ok(Some((Block { content: stats, return_value: None }, closed))),
            None => self.exp_block(pos),
        }
    }

    /// Reads a block that ends with an expression.
    pub fn exp_block(&self, pos: usize) -> (r: Attempt<Block>)
        requires
            pos <= self@.len(),
        ensures
            agrees(r, |b: Block| block_tree(b), p_exp_block(self@, pos as int), pos, self@.len()),
        decreases self@.len() - pos, 5nat, 0nat,
    {
        proof {
            reveal(p_exp_block);
            reveal(p_block_stats);
            reveal(p_expr);
            reveal_strlit("}");
        }
        let (stats, end) = match self.block_stats(pos, false) {
            Ok(Some(found)) => found,
            Ok(None) => {
                return Ok(None);
            },
            Err(text) => {
                return Err(text);
            },
        };
        let (value, last) = match self.expr(end, 0) {
            Ok(Some(found)) => found,
            Ok(None) => {
                return Ok(None);
            },
            Err(text) => {
                return Err(text);
            },
        };
        match self.token(last, "}") {
            Some(closed) => Ok(
                Some((Block { content: stats, return_value: Some(value) }, closed)),
            ),
            None => Ok(None),
        }
    }

    /// Reads `return`, an expression and a semicolon.
    pub(crate) fn return_val(&self, pos: usize) -> (r: Attempt<Expr>)
        requires
            pos <= self@.len(),
        ensures
            agrees(r, |e: Expr| expr_tree(e), p_return_val(self@, pos as int), pos, self@.len()),
        decreases self@.len() - pos, 2nat, 0nat,
    {
        proof {
            reveal(p_return_val);
            reveal(p_expr);
            reveal_strlit("return");
            reveal_strlit(";");
        }
        let behind = match self.lit(pos, "return") {
            Some(behind) => behind,
            None => {
                return Ok(None);
            },
        };
        match self.expr(self.ws(behind), 0) {
            Ok(Some((value, end))) => match self.token(end, ";") {
                Some(last) => Ok(Some((value, last))),
                None => Ok(None),
            },
            Ok(None) => Ok(None),
            Err(text) => Err(text),
        }
    }

    /// Reads the body of a function.
    pub fn fn_block(&self, pos: usize) -> (r: Attempt<Block>)
        requires
            pos <= self@.len(),
        ensures
            agrees(r, |b: Block| block_tree(b), p_fn_block(self@, pos as int), pos, self@.len()),
        decreases self@.len() - pos, 32nat, 0nat,
    {
        proof {
            reveal(p_fn_block);
            reveal(p_block_stats);
            reveal(p_expr);
            reveal(p_return_val);
            reveal_strlit("}");
        }
        let from = self.ws(pos);
        let (stats, end) = match self.block_stats(from, true) {
            Ok(Some(found)) => found,
            Ok(None) => {
                return Ok(None);
            },
            Err(text) => {
                return Err(text);
            },
        };
        match self.expr(end, 0) {
            Ok(Some((value, last))) => match self.spaced(last, "}") {
                Some(closed) => {
                    return Ok(
                        Some((Block { content: stats, return_value: Some(value) }, closed)),
                    );
                },
                None => {},
            },
            Ok(None) => {},
            Err(text) => {
                return Err(text);
            },
        }
        match self.return_val(end) {
            Ok(Some((value, last))) => match self.spaced(last, "}") {
                Some(closed) => {
                    return Ok(
                        Some((Block { content: stats, return_value: Some(value) }, closed)),
                    );
                },
                None => {},
            },
            Ok(None) => {},
            Err(text) => {
                return Err(text);
            },
        }
        match self.spaced(end, "}") {
            Some(closed) => Ok(Some((Block { content: stats, return_value: None }, closed))),
            None => Ok(None),
        }
    }
}

} // verus!
