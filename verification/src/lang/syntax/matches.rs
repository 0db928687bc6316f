use vstd::prelude::*;
use vstd::string::StringExecFns;
use crate::lang::expr::{
    Expr,
    Match,
    MatchBranch,
    Stat,
};
use crate::lang::syntax::grammar::{
    p_branch,
    p_case,
    p_expr,
    p_list,
    p_match,
    p_stat,
    Separator,
};
use crate::lang::syntax::ops::{
    expr_branch_tree,
    stat_branch_tree,
};
use crate::lang::syntax::reader::{
    agrees,
    Attempt,
    Source,
};
use crate::lang::syntax::tree::{
    expr_match_tree,
    stat_match_tree,
};

verus! {

impl<'a> Source<'a> {
    /// Reads a match whose branches are expressions.
    pub fn match_expr(&self, pos: usize) -> (r: Attempt<Match<Expr>>)
        requires
            pos <= self@.len(),
        ensures
            agrees(
                r,
                |m: Match<Expr>| expr_match_tree(m),
                p_match(self@, pos as int, false),
                pos,
                self@.len(),
            ),
        decreases self@.len() - pos, 2nat, 0nat,
    {
        proof {
            reveal(p_match);
            reveal(p_expr);
            reveal(p_list);
            reveal_strlit("match");
            reveal_strlit("{");
            reveal_strlit("}");
        }
        let behind = match self.lit(pos, "match") {
            Some(behind) => behind,
            None => {
                return Ok(None);
            },
        };
        let (subject, end) = match self.expr(self.ws(behind), 0) {
            Ok(Some(found)) => found,
            Ok(None) => {
                return Ok(None);
            },
            Err(text) => {
                return Err(text);
            },
        };
        let inside = match self.spaced(end, "{") {
            Some(inside) => inside,
            None => {
                return Ok(None);
            },
        };
        let (branches, last) = match self.expr_branches(inside, Separator::Comma) {
            Ok(found) => found,
            Err(text) => {
                return Err(text);
            },
        };
        match self.closing(last, "}") {
            Some(closed) => {
                return Ok(Some((Match { expr: subject, cases: branches }, closed)));
            },
            None => {},
        }
        let (loose, last) = match self.expr_branches(inside, Separator::Space) {
            Ok(found) => found,
            Err(text) => {
                return Err(text);
            },
        };
        match self.token(last, "}") {
            Some(closed) => Ok(Some((Match { expr: subject, cases: loose }, closed))),
            None => Ok(None),
        }
    }

    /// Reads a branch of a match: a case, `=>`, and an expression.
    pub fn expr_branch(&self, pos: usize) -> (r: Attempt<MatchBranch<Expr>>)
        requires
            pos <= self@.len(),
        ensures
            agrees(
                r,
                |b: MatchBranch<Expr>| expr_branch_tree(b),
                p_branch(self@, pos as int, false),
                pos,
                self@.len(),
            ),
        decreases self@.len() - pos, 14nat, 0nat,
    {
        proof {
            reveal(p_branch);
            reveal(p_case);
            reveal(p_expr);
            reveal_strlit("=>");
        }
        let (case, end) = match self.case(pos) {
            Ok(Some(found)) => found,
            Ok(None) => {
                return Ok(None);
            },
            Err(text) => {
                return Err(text);
            },
        };
        let from = match self.spaced(end, "=>") {
            Some(from) => from,
            None => {
                return Ok(None);
            },
        };
        match self.expr(from, 0) {
            Ok(Some((block, last))) => Ok(Some((MatchBranch { case, block }, last))),
            Ok(None) => Ok(None),
            Err(text) => Err(text),
        }
    }

    /// Reads a match whose branches are statements.
    pub fn match_stat(&self, pos: usize) -> (r: Attempt<Match<Stat>>)
        requires
            pos <= self@.len(),
        ensures
            agrees(
                r,
                |m: Match<Stat>| stat_match_tree(m),
                p_match(self@, pos as int, true),
                pos,
                self@.len(),
            ),
        decreases self@.len() - pos, 2nat, 0nat,
    {
        proof {
            reveal(p_match);
            reveal(p_expr);
            reveal(p_list);
            reveal_strlit("match");
            reveal_strlit("{");
            reveal_strlit("}");
        }
        let behind = match self.lit(pos, "match") {
            Some(behind) => behind,
            None => {
                return Ok(None);
            },
        };
        let (subject, end) = match self.expr(self.ws(behind), 0) {
            Ok(Some(found)) => found,
            Ok(None) => {
                return Ok(None);
            },
            Err(text) => {
                return Err(text);
            },
        };
        let inside = match self.spaced(end, "{") {
            Some(inside) => inside,
            None => {
                return Ok(None);
            },
        };
        let (branches, last) = match self.stat_branches(inside, Separator::Comma) {
            Ok(found) => found,
            Err(text) => {
                return Err(text);
            },
        };
        match self.closing(last, "}") {
            Some(closed) => {
                return Ok(Some((Match { expr: subject, cases: branches }, closed)));
            },
            None => {},
        }
        let (loose, last) = match self.stat_branches(inside, Separator::Space) {
            Ok(found) => found,
            Err(text) => {
                return Err(text);
            },
        };
        match self.token(last, "}") {
            Some(closed) => Ok(Some((Match { expr: subject, cases: loose }, closed))),
            None => Ok(None),
        }
    }

    /// Reads a branch of a match: a case, `=>`, and a statement.
    pub fn stat_branch(&self, pos: usize) -> (r: Attempt<MatchBranch<Stat>>)
        requires
            pos <= self@.len(),
        ensures
            agrees(
                r,
                |b: MatchBranch<Stat>| stat_branch_tree(b),
                p_branch(self@, pos as int, true),
                pos,
                self@.len(),
            ),
        decreases self@.len() - pos, 14nat, 0nat,
    {
        proof {
            reveal(p_branch);
            reveal(p_case);
            reveal(p_stat);
            reveal_strlit("=>");
        }
        let (case, end) = match self.case(pos) {
            Ok(Some(found)) => found,
            Ok(None) => {
                return Ok(None);
            },
            Err(text) => {
                return Err(text);
            },
        };
        let from = match self.spaced(end, "=>") {
            Some(from) => from,
            None => {
                return Ok(None);
            },
        };
        match self.stat(from) {
            Ok(Some((block, last))) => Ok(Some((MatchBranch { case, block }, last))),
            Ok(None) => Ok(None),
            Err(text) => Err(text),
        }
    }
}

} // verus!
