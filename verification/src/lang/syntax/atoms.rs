use vstd::prelude::*;
use vstd::string::StringExecFns;
use crate::lang::expr::{
    Expr,
    Trail,
};
use crate::lang::syntax::grammar::{
    p_alternative,
    p_expr,
    p_field,
    p_list,
    p_struct_init,
    Separator,
};
use crate::lang::syntax::ops::field_tree;
use crate::lang::syntax::reader::{
    agrees,
    Attempt,
    Source,
};
use crate::lang::syntax::tree::{
    expr_tree,
    texts,
    Tree,
};

verus! {

impl<'a> Source<'a> {
    /// Reads an expression in round brackets.
    pub(crate) fn bracketed(&self, pos: usize) -> (r: Attempt<Expr>)
        requires
            pos <= self@.len(),
        ensures
            agrees(
                r,
                |e: Expr| expr_tree(e),
                p_alternative(self@, pos as int, 7),
                pos,
                self@.len(),
            ),
        decreases self@.len() - pos, 7nat, 0nat,
    {
        proof {
            reveal(p_alternative);
            reveal(p_expr);
            reveal_strlit("(");
            reveal_strlit(")");
        }
        let behind = match self.lit(pos, "(") {
            Some(behind) => behind,
            None => {
                return Ok(None);
            },
        };
        match self.expr(self.ws(behind), 0) {
            Ok(Some((e, end))) => match self.token(end, ")") {
                Some(closed) => Ok(Some((e, closed))),
                None => Ok(None),
            },
            Ok(None) => Ok(None),
            Err(text) => Err(text),
        }
    }

    /// Reads a tuple.
    pub(crate) fn tuple(&self, pos: usize) -> (r: Attempt<Expr>)
        requires
            pos <= self@.len(),
        ensures
            agrees(
                r,
                |e: Expr| expr_tree(e),
                p_alternative(self@, pos as int, 8),
                pos,
                self@.len(),
            ),
        decreases self@.len() - pos, 7nat, 0nat,
    {
        proof {
            reveal(p_alternative);
            reveal(p_list);
            reveal_strlit("(");
            reveal_strlit(")");
            reveal_strlit(",");
        }
        let behind = match self.lit(pos, "(") {
            Some(behind) => behind,
            None => {
                return Ok(None);
            },
        };
        let (items, end) = match self.exprs(self.ws(behind), Separator::Comma) {
            Ok(found) => found,
            Err(text) => {
                return Err(text);
            },
        };
        if items.len() == 0 {
            return Ok(None);
        }
        match self.lit(end, ")") {
            Some(closed) => {
                return Ok(Some((Expr::Tuple(items), closed)));
            },
            None => {},
        }
        match self.lit(end, ",") {
            Some(comma) => match self.token(comma, ")") {
                Some(closed) => Ok(Some((Expr::Tuple(items), closed))),
                None => Ok(None),
            },
            None => Ok(None),
        }
    }

    /// Reads an array of which every item is written.
    pub(crate) fn array(&self, pos: usize) -> (r: Attempt<Expr>)
        requires
            pos <= self@.len(),
        ensures
            agrees(
                r,
                |e: Expr| expr_tree(e),
                p_alternative(self@, pos as int, 9),
                pos,
                self@.len(),
            ),
        decreases self@.len() - pos, 7nat, 0nat,
    {
        proof {
            reveal(p_alternative);
            reveal(p_list);
            reveal_strlit("[");
            reveal_strlit("]");
        }
        let behind = match self.lit(pos, "[") {
            Some(behind) => behind,
            None => {
                return Ok(None);
            },
        };
        let (items, end) = match self.exprs(behind, Separator::Comma) {
            Ok(found) => found,
            Err(text) => {
                return Err(text);
            },
        };
        match self.lit(end, "]") {
            Some(closed) => Ok(Some((Expr::ArrayExplicit(items), closed))),
            None => Ok(None),
        }
    }

    /// Reads an array of a value and a length.
    pub(crate) fn repeated(&self, pos: usize) -> (r: Attempt<Expr>)
        requires
            pos <= self@.len(),
        ensures
            agrees(
                r,
                |e: Expr| expr_tree(e),
                p_alternative(self@, pos as int, 10),
                pos,
                self@.len(),
            ),
        decreases self@.len() - pos, 7nat, 0nat,
    {
        proof {
            reveal(p_alternative);
            reveal(p_expr);
            reveal_strlit("[");
            reveal_strlit("]");
            reveal_strlit(";");
        }
        let behind = match self.lit(pos, "[") {
            Some(behind) => behind,
            None => {
                return Ok(None);
            },
        };
        let (value, end) = match self.expr(self.ws(behind), 0) {
            Ok(Some(found)) => found,
            Ok(None) => {
                return Ok(None);
            },
            Err(text) => {
                return Err(text);
            },
        };
        let from = match self.spaced(end, ";") {
            Some(from) => from,
            None => {
                return Ok(None);
            },
        };
        let (len, last) = match self.expr(from, 0) {
            Ok(Some(found)) => found,
            Ok(None) => {
                return Ok(None);
            },
            Err(text) => {
                return Err(text);
            },
        };
        match self.token(last, "]") {
            Some(closed) => Ok(Some((Expr::ArrayInit(Box::new(value), Box::new(len)), closed))),
            None => Ok(None),
        }
    }

    /// Reads a struct literal.
    pub(crate) fn struct_init(&self, pos: usize) -> (r: Attempt<Expr>)
        requires
            pos <= self@.len(),
        ensures
            agrees(r, |e: Expr| expr_tree(e), p_struct_init(self@, pos as int), pos, self@.len()),
        decreases self@.len() - pos, 2nat, 0nat,
    {
        proof {
            reveal(p_struct_init);
            reveal(p_list);
            reveal_strlit("{");
            reveal_strlit("}");
        }
        let (ty, end) = match self.ty(pos) {
            Some(found) => found,
            None => {
                return Ok(None);
            },
        };
        let inside = match self.spaced(end, "{") {
            Some(inside) => inside,
            None => {
                return Ok(None);
            },
        };
        let (fields, last) = match self.fields(inside, Separator::Comma) {
            Ok(found) => found,
            Err(text) => {
                return Err(text);
            },
        };
        match self.closing(last, "}") {
            Some(closed) => Ok(Some((Expr::StructInit(ty, fields), closed))),
            None => Ok(None),
        }
    }

    /// Reads a field of a struct literal.
    pub fn field(&self, pos: usize) -> (r: Attempt<(String, Expr)>)
        requires
            pos <= self@.len(),
        ensures
            agrees(
                r,
                |f: (String, Expr)| field_tree(f),
                p_field(self@, pos as int),
                pos,
                self@.len(),
            ),
        decreases self@.len() - pos, 11nat, 0nat,
    {
        proof {
            reveal(p_field);
            reveal(p_expr);
            reveal_strlit(":");
        }
        let (name, end) = match self.identifier(pos) {
            Some(found) => found,
            None => {
                return Ok(None);
            },
        };
        match self.spaced(end, ":") {
            Some(from) => match self.expr(from, 0) {
                Ok(Some((value, last))) => {
                    return Ok(Some(((name, value), last)));
                },
                Ok(None) => {},
                Err(text) => {
                    return Err(text);
                },
            },
            None => {},
        }
        let short = Trail { head: name.clone(), trail: Vec::new() };
        assert(texts(short.trail@) =~= Seq::<Tree>::empty());
        assert(seq![Tree::Text(name@)] + texts(short.trail@) =~= seq![Tree::Text(name@)]);
        Ok(Some(((name, Expr::Path(short)), end)))
    }
}

} // verus!
