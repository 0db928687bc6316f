use vstd::prelude::*;
use vstd::string::StringExecFns;
use crate::lang::expr::MatchCase;
use crate::lang::syntax::grammar::{
    p_case,
    p_case_atom,
    p_case_data,
    p_case_tuple,
    p_case_post,
    p_expr,
    p_list,
    Outcome,
    Separator,
};
use crate::lang::syntax::reader::{
    agrees,
    Attempt,
    Source,
};
use crate::lang::syntax::tree::case_tree;

verus! {

impl<'a> Source<'a> {
    /// Reads a case of a match.
    pub fn case(&self, pos: usize) -> (r: Attempt<MatchCase>)
        requires
            pos <= self@.len(),
        ensures
            agrees(r, |c: MatchCase| case_tree(c), p_case(self@, pos as int), pos, self@.len()),
        decreases self@.len() - pos, 13nat, 0nat,
    {
        proof {
            reveal(p_case);
            reveal(p_case_atom);
            reveal(p_case_post);
        }
        let (first, end) = match self.case_atom(pos) {
            Ok(Some(found)) => found,
            Ok(None) => {
                return Ok(None);
            },
            Err(text) => {
                return Err(text);
            },
        };
        match self.case_post(end, first) {
            Ok((c, last)) => Ok(Some((c, last))),
            Err(text) => Err(text),
        }
    }

    /// Reads a type with cases in round brackets.
    pub(crate) fn case_data(&self, pos: usize) -> (r: Attempt<MatchCase>)
        requires
            pos <= self@.len(),
        ensures
            agrees(
                r,
                |c: MatchCase| case_tree(c),
                p_case_data(self@, pos as int),
                pos,
                self@.len(),
            ),
        decreases self@.len() - pos, 11nat, 0nat,
    {
        proof {
            reveal(p_case_data);
            reveal(p_list);
            reveal_strlit("(");
            reveal_strlit(")");
        }
        let (ty, end) = match self.ty(pos) {
            Some(found) => found,
            None => {
                return Ok(None);
            },
        };
        let inside = match self.spaced(end, "(") {
            Some(inside) => inside,
            None => {
                return Ok(None);
            },
        };
        let (params, last) = match self.cases(inside, Separator::Comma) {
            Ok(found) => found,
            Err(text) => {
                return Err(text);
            },
        };
        match self.token(last, ")") {
            Some(closed) => Ok(Some((MatchCase::Data(ty, params), closed))),
            None => Ok(None),
        }
    }

    /// Reads cases in round brackets.
    pub(crate) fn case_tuple(&self, pos: usize) -> (r: Attempt<MatchCase>)
        requires
            pos <= self@.len(),
        ensures
            agrees(
                r,
                |c: MatchCase| case_tree(c),
                p_case_tuple(self@, pos as int),
                pos,
                self@.len(),
            ),
        decreases self@.len() - pos, 11nat, 0nat,
    {
        proof {
            reveal(p_case_tuple);
            reveal(p_list);
            reveal_strlit("(");
            reveal_strlit(")");
        }
        let behind = match self.lit(pos, "(") {
            Some(behind) => behind,
            None => {
                return Ok(None);
            },
        };
        let (params, last) = match self.cases(self.ws(behind), Separator::Comma) {
            Ok(found) => found,
            Err(text) => {
                return Err(text);
            },
        };
        match self.token(last, ")") {
            Some(closed) => Ok(Some((MatchCase::Tuple(params), closed))),
            None => Ok(None),
        }
    }

    /// Reads one case.
    pub(crate) fn case_atom(&self, pos: usize) -> (r: Attempt<MatchCase>)
        requires
            pos <= self@.len(),
        ensures
            agrees(
                r,
                |c: MatchCase| case_tree(c),
                p_case_atom(self@, pos as int),
                pos,
                self@.len(),
            ),
        decreases self@.len() - pos, 12nat, 0nat,
    {
        proof {
            reveal(p_case_atom);
            reveal(p_case_data);
            reveal(p_case_tuple);
            reveal(p_expr);
            reveal_strlit("..");
        }
        match self.case_data(pos) {
            Ok(Some(found)) => {
                return Ok(Some(found));
            },
            Ok(None) => {},
            Err(text) => {
                return Err(text);
            },
        }
        match self.case_tuple(pos) {
            Ok(Some(found)) => {
                return Ok(Some(found));
            },
            Ok(None) => {},
            Err(text) => {
                return Err(text);
            },
        }
        let first = match self.expr(pos, 0) {
            Ok(first) => first,
            Err(text) => {
                return Err(text);
            },
        };
        let first = match first {
            Some((from, end)) => match self.spaced(end, "..") {
                Some(at) => match self.expr(at, 0) {
                    Ok(Some((to, last))) => {
                        return Ok(Some((MatchCase::Range(from, to), last)));
                    },
                    Ok(None) => Some((from, end)),
                    Err(text) => {
                        return Err(text);
                    },
                },
                None => Some((from, end)),
            },
            None => None,
        };
        match self.identifier(pos) {
            Some((name, end)) => {
                return Ok(Some((MatchCase::Param(name), end)));
            },
            None => {},
        }
        match first {
            Some((e, end)) => Ok(Some((MatchCase::Literal(e), end))),
            None => Ok(None),
        }
    }

    /// Reads the cases behind `|` that follow the case `acc`.
    pub(crate) fn case_post(&self, pos: usize, acc: MatchCase) -> (r: Result<(MatchCase, usize), String>)
        requires
            pos <= self@.len(),
        ensures
            match r {
                Ok((c, end)) => p_case_post(self@, pos as int, case_tree(acc))
                    == Outcome::Matched(case_tree(c), end as int) && pos <= end <= self@.len(),
                Err(text) => p_case_post(self@, pos as int, case_tree(acc)) == Outcome::Aborted(
                    text@,
                ),
            },
        decreases self@.len() - pos, 31nat, 0nat,
    {
        proof {
            reveal(p_case_post);
            reveal(p_list);
            reveal_strlit("|");
        }
        let mut current = acc;
        let mut at = pos;
        loop
            invariant
                pos <= at <= self@.len(),
                p_case_post(self@, pos as int, case_tree(acc)) == p_case_post(
                    self@,
                    at as int,
                    case_tree(current),
                ),
            ensures
                pos <= at <= self@.len(),
                p_case_post(self@, pos as int, case_tree(acc)) == Outcome::Matched(
                    case_tree(current),
                    at as int,
                ),
            decreases self@.len() - at,
        {
            proof {
                reveal(p_case_post);
                reveal(p_list);
                reveal_strlit("|");
            }
            let from = match self.spaced(at, "|") {
                Some(from) => from,
                None => {
                    break ;
                },
            };
            let (more, last) = match self.cases(from, Separator::Bar) {
                Ok(found) => found,
                Err(text) => {
                    return Err(text);
                },
            };
            if more.len() == 0 {
                break ;
            }
            current = MatchCase::Multi(Box::new(current), more);
            at = last;
        }
        Ok((current, at))
    }
}

} // verus!
