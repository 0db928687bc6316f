use vstd::prelude::*;
use vstd::string::StringExecFns;
use crate::lang::expr::{
    Block,
    Function,
    If,
    Match,
    Return,
    Stat,
};
use crate::lang::syntax::grammar::{
    p_binding,
    p_block,
    p_break,
    p_define,
    p_expr,
    p_fn_block,
    p_for,
    p_function,
    p_if_stat,
    p_match,
    p_return_val,
    p_stat,
    p_stat_noret,
    p_while,
};
use crate::lang::syntax::reader::{
    agrees,
    Attempt,
    Source,
};
use crate::lang::syntax::tree::{
    function_tree,
    stat_tree,
};

verus! {

impl<'a> Source<'a> {
    /// Reads a statement.
    pub fn stat(&self, pos: usize) -> (r: Attempt<Stat>)
        requires
            pos <= self@.len(),
        ensures
            agrees(r, |s: Stat| stat_tree(s), p_stat(self@, pos as int), pos, self@.len()),
        decreases self@.len() - pos, 16nat, 0nat,
    {
        proof {
            reveal(p_stat);
            reveal(p_stat_noret);
            reveal(p_return_val);
        }
        match self.stat_noret(pos) {
            Ok(Some(found)) => {
                return Ok(Some(found));
            },
            Ok(None) => {},
            Err(text) => {
                return Err(text);
            },
        }
        match self.return_val(pos) {
            Ok(Some((val, end))) => Ok(Some((Stat::Return(Return { val }), end))),
            Ok(None) => Ok(None),
            Err(text) => Err(text),
        }
    }

    /// Reads a statement that is no `return`.
    pub fn stat_noret(&self, pos: usize) -> (r: Attempt<Stat>)
        requires
            pos <= self@.len(),
        ensures
            agrees(r, |s: Stat| stat_tree(s), p_stat_noret(self@, pos as int), pos, self@.len()),
        decreases self@.len() - pos, 15nat, 0nat,
    {
        proof {
            reveal(p_stat_noret);
            reveal(p_define);
            reveal(p_break);
            reveal(p_while);
            reveal(p_for);
            reveal(p_block);
            reveal(p_if_stat);
            reveal(p_match);
            reveal(p_expr);
            reveal_strlit(";");
        }
        match self.define(pos) {
            Ok(Some(found)) => {
                return Ok(Some(found));
            },
            Ok(None) => {},
            Err(text) => {
                return Err(text);
            },
        }
        match self.break_stat(pos) {
            Ok(Some(found)) => {
                return Ok(Some(found));
            },
            Ok(None) => {},
            Err(text) => {
                return Err(text);
            },
        }
        match self.while_stat(pos) {
            Ok(Some(found)) => {
                return Ok(Some(found));
            },
            Ok(None) => {},
            Err(text) => {
                return Err(text);
            },
        }
        match self.for_stat(pos) {
            Ok(Some(found)) => {
                return Ok(Some(found));
            },
            Ok(None) => {},
            Err(text) => {
                return Err(text);
            },
        }
        match self.block(pos) {
            Ok(Some((b, end))) => {
                return Ok(Some((Stat::Block(Box::new(b)), end)));
            },
            Ok(None) => {},
            Err(text) => {
                return Err(text);
            },
        }
        match self.if_stat(pos) {
            Ok(Some((i, end))) => {
                return Ok(Some((Stat::If(Box::new(i)), end)));
            },
            Ok(None) => {},
            Err(text) => {
                return Err(text);
            },
        }
        match self.match_stat(pos) {
            Ok(Some((m, end))) => {
                return Ok(Some((Stat::Match(Box::new(m)), end)));
            },
            Ok(None) => {},
            Err(text) => {
                return Err(text);
            },
        }
        match self.expr(pos, 0) {
            Ok(Some((e, end))) => match self.token(end, ";") {
                Some(last) => Ok(Some((Stat::ExprStat(e), last))),
                None => Ok(None),
            },
            Ok(None) => Ok(None),
            Err(text) => Err(text),
        }
    }

    /// Reads what a definition binds.
    pub(crate) fn binding(&self, pos: usize, origin: usize, mutable: bool) -> (r: Attempt<Stat>)
        requires
            origin <= pos <= self@.len(),
        ensures
            agrees(
                r,
                |s: Stat| stat_tree(s),
                p_binding(self@, pos as int, origin as int, mutable),
                origin,
                self@.len(),
            ),
        decreases self@.len() - origin, 1nat, 0nat,
    {
        proof {
            reveal(p_binding);
            reveal(p_expr);
            reveal_strlit("=");
            reveal_strlit(";");
        }
        let (name, end) = match self.identifier(pos) {
            Some(found) => found,
            None => {
                return Ok(None);
            },
        };
        let from = match self.spaced(end, "=") {
            Some(from) => from,
            None => {
                return Ok(None);
            },
        };
        match self.expr(from, 0) {
            Ok(Some((value, last))) => match self.token(last, ";") {
                Some(done) => Ok(Some((Stat::Define(name, Box::new(value), mutable), done))),
                None => Ok(None),
            },
            Ok(None) => Ok(None),
            Err(text) => Err(text),
        }
    }

    /// Reads a definition.
    pub(crate) fn define(&self, pos: usize) -> (r: Attempt<Stat>)
        requires
            pos <= self@.len(),
        ensures
            agrees(r, |s: Stat| stat_tree(s), p_define(self@, pos as int), pos, self@.len()),
        decreases self@.len() - pos, 2nat, 0nat,
    {
        proof {
            reveal(p_define);
            reveal(p_binding);
            reveal_strlit("let");
            reveal_strlit("mut");
        }
        let behind = match self.lit(pos, "let") {
            Some(behind) => behind,
            None => {
                return Ok(None);
            },
        };
        match self.spaced(behind, "mut") {
            Some(from) => match self.binding(from, pos, true) {
                Ok(Some(found)) => {
                    return Ok(Some(found));
                },
                Ok(None) => {},
                Err(text) => {
                    return Err(text);
                },
            },
            None => {},
        }
        self.binding(self.ws(behind), pos, false)
    }

    /// Reads a `break`.
    pub(crate) fn break_stat(&self, pos: usize) -> (r: Attempt<Stat>)
        requires
            pos <= self@.len(),
        ensures
            agrees(r, |s: Stat| stat_tree(s), p_break(self@, pos as int), pos, self@.len()),
        decreases self@.len() - pos, 2nat, 0nat,
    {
        proof {
            reveal(p_break);
            reveal(p_expr);
            reveal_strlit("break");
            reveal_strlit(";");
        }
        let behind = match self.lit(pos, "break") {
            Some(behind) => behind,
            None => {
                return Ok(None);
            },
        };
        match self.expr(self.ws(behind), 0) {
            Ok(Some((value, end))) => match self.token(end, ";") {
                Some(last) => {
                    return Ok(Some((Stat::Break(Some(Box::new(value))), last)));
                },
                None => {},
            },
            Ok(None) => {},
            Err(text) => {
                return Err(text);
            },
        }
        match self.token(behind, ";") {
            Some(last) => Ok(Some((Stat::Break(None), last))),
            None => Ok(None),
        }
    }

    /// Reads a `while` loop.
    pub(crate) fn while_stat(&self, pos: usize) -> (r: Attempt<Stat>)
        requires
            pos <= self@.len(),
        ensures
            agrees(r, |s: Stat| stat_tree(s), p_while(self@, pos as int), pos, self@.len()),
        decreases self@.len() - pos, 2nat, 0nat,
    {
        proof {
            reveal(p_while);
            reveal(p_expr);
            reveal(p_block);
            reveal_strlit("while");
        }
        let behind = match self.lit(pos, "while") {
            Some(behind) => behind,
            None => {
                return Ok(None);
            },
        };
        let (condition, end) = match self.expr(self.ws(behind), 0) {
            Ok(Some(found)) => found,
            Ok(None) => {
                return Ok(None);
            },
            Err(text) => {
                return Err(text);
            },
        };
        match self.block(self.ws(end)) {
            Ok(Some((body, last))) => Ok(Some((Stat::While(Box::new(condition), body), last))),
            Ok(None) => Ok(None),
            Err(text) => Err(text),
        }
    }

    /// Reads a `for` loop.
    pub(crate) fn for_stat(&self, pos: usize) -> (r: Attempt<Stat>)
        requires
            pos <= self@.len(),
        ensures
            agrees(r, |s: Stat| stat_tree(s), p_for(self@, pos as int), pos, self@.len()),
        decreases self@.len() - pos, 2nat, 0nat,
    {
        proof {
            reveal(p_for);
            reveal(p_expr);
            reveal(p_block);
            reveal_strlit("for");
            reveal_strlit("in");
            reveal_strlit(",");
        }
        let behind = match self.lit(pos, "for") {
            Some(behind) => behind,
            None => {
                return Ok(None);
            },
        };
        let (names, end) = self.names(self.ws(behind), ",");
        if names.len() == 0 {
            return Ok(None);
        }
        let from = match self.spaced(end, "in") {
            Some(from) => from,
            None => {
                return Ok(None);
            },
        };
        let (iter, last) = match self.expr(from, 0) {
            Ok(Some(found)) => found,
            Ok(None) => {
                return Ok(None);
            },
            Err(text) => {
                return Err(text);
            },
        };
        match self.block(self.ws(last)) {
            Ok(Some((body, done))) => Ok(Some((Stat::For(names, Box::new(iter), body), done))),
            Ok(None) => Ok(None),
            Err(text) => Err(text),
        }
    }

    /// Reads a function.
    pub fn function(&self, pos: usize) -> (r: Attempt<Function>)
        requires
            pos <= self@.len(),
        ensures
            agrees(
                r,
                |f: Function| function_tree(f),
                p_function(self@, pos as int),
                pos,
                self@.len(),
            ),
    {
        proof {
            reveal(p_fn_block);
        }
        let (header, end) = match self.fn_header(self.ws(pos)) {
            Some(found) => found,
            None => {
                return Ok(None);
            },
        };
        match self.fn_block(end) {
            Ok(Some((body, last))) => Ok(Some((Function { header, body }, last))),
            Ok(None) => Ok(None),
            Err(text) => Err(text),
        }
    }}

} // verus!
