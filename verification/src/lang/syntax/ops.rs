use vstd::prelude::*;
use vstd::string::StringExecFns;
use crate::lang::expr::{
    Expr,
    MatchBranch,
    Stat,
};
use crate::lang::syntax::grammar::{
    infix_level,
    infix_text,
    post_level,
    post_rule,
    prefix_at,
    prefix_text,
    Item,
    Outcome,
};
use crate::lang::syntax::tree::{
    node2,
    binary,
    case_tree,
    expr_tree,
    stat_tree,
    unary,
    Infix,
    Kind,
    PostRule,
    Prefix,
    Tree,
};

verus! {


/// How the operator is written.
pub(crate) fn infix_word(op: Infix) -> (r: &'static str)
    ensures
        r@ == infix_text(op),
        r@.len() >= 1,
{
    proof {
        reveal_strlit("&=");
        reveal_strlit("|=");
        reveal_strlit("^=");
        reveal_strlit("<<=");
        reveal_strlit(">>=");
        reveal_strlit("=");
        reveal_strlit("+=");
        reveal_strlit("-=");
        reveal_strlit("*=");
        reveal_strlit("/=");
        reveal_strlit("%=");
        reveal_strlit("||");
        reveal_strlit("&&");
        reveal_strlit("==");
        reveal_strlit("!=");
        reveal_strlit("<");
        reveal_strlit(">");
        reveal_strlit("<=");
        reveal_strlit(">=");
        reveal_strlit("|");
        reveal_strlit("^");
        reveal_strlit("&");
        reveal_strlit("<<");
        reveal_strlit(">>");
        reveal_strlit("+");
        reveal_strlit("-");
        reveal_strlit("*");
        reveal_strlit("/");
        reveal_strlit("%");
        reveal_strlit("..");
    }
    match op {
        Infix::AssignAnd => "&=",
        Infix::AssignOr => "|=",
        Infix::AssignXor => "^=",
        Infix::AssignLShift => "<<=",
        Infix::AssignRShift => ">>=",
        Infix::Assign => "=",
        Infix::AssignAdd => "+=",
        Infix::AssignSub => "-=",
        Infix::AssignMul => "*=",
        Infix::AssignDiv => "/=",
        Infix::AssignMod => "%=",
        Infix::LOr => "||",
        Infix::LAnd => "&&",
        Infix::Eq => "==",
        Infix::Ne => "!=",
        Infix::Lt => "<",
        Infix::Gt => ">",
        Infix::Le => "<=",
        Infix::Ge => ">=",
        Infix::Or => "|",
        Infix::Xor => "^",
        Infix::And => "&",
        Infix::LShift => "<<",
        Infix::RShift => ">>",
        Infix::Add => "+",
        Infix::Sub => "-",
        Infix::Mul => "*",
        Infix::Div => "/",
        Infix::Mod => "%",
        Infix::Range => "..",
    }
}

/// How tightly the operator binds.
pub(crate) fn infix_rank(op: Infix) -> (r: u8)
    ensures
        r == infix_level(op),
{
    match op {
        Infix::AssignAnd | Infix::AssignOr | Infix::AssignXor | Infix::AssignLShift
        | Infix::AssignRShift => 0,
        Infix::Assign | Infix::AssignAdd | Infix::AssignSub | Infix::AssignMul
        | Infix::AssignDiv | Infix::AssignMod => 1,
        Infix::LOr => 2,
        Infix::LAnd => 3,
        Infix::Eq | Infix::Ne | Infix::Lt | Infix::Gt | Infix::Le | Infix::Ge => 4,
        Infix::Or => 5,
        Infix::Xor => 6,
        Infix::And => 7,
        Infix::LShift | Infix::RShift => 8,
        Infix::Add | Infix::Sub => 9,
        Infix::Mul | Infix::Div | Infix::Mod => 10,
        Infix::Range => 15,
    }
}

/// How tightly what follows an expression binds to it.
pub(crate) fn post_rank(rule: PostRule) -> (r: u8)
    ensures
        r == post_level(rule),
{
    match rule {
        PostRule::Binary(op) => infix_rank(op),
        PostRule::Cast => 11,
        PostRule::Unwrap => 13,
        PostRule::Index => 15,
        PostRule::Dot => 16,
        PostRule::Call => 16,
    }
}

/// What may follow an expression, in the order in which it is tried.
pub(crate) fn post_rule_at(index: usize) -> (r: PostRule)
    requires
        index < 35,
    ensures
        r == post_rule(index as int),
{
    if index == 0 {
        PostRule::Binary(Infix::AssignAnd)
    } else if index == 1 {
        PostRule::Binary(Infix::AssignOr)
    } else if index == 2 {
        PostRule::Binary(Infix::AssignXor)
    } else if index == 3 {
        PostRule::Binary(Infix::AssignLShift)
    } else if index == 4 {
        PostRule::Binary(Infix::AssignRShift)
    } else if index == 5 {
        PostRule::Binary(Infix::Assign)
    } else if index == 6 {
        PostRule::Binary(Infix::AssignAdd)
    } else if index == 7 {
        PostRule::Binary(Infix::AssignSub)
    } else if index == 8 {
        PostRule::Binary(Infix::AssignMul)
    } else if index == 9 {
        PostRule::Binary(Infix::AssignDiv)
    } else if index == 10 {
        PostRule::Binary(Infix::AssignMod)
    } else if index == 11 {
        PostRule::Binary(Infix::LOr)
    } else if index == 12 {
        PostRule::Binary(Infix::LAnd)
    } else if index == 13 {
        PostRule::Binary(Infix::Eq)
    } else if index == 14 {
        PostRule::Binary(Infix::Ne)
    } else if index == 15 {
        PostRule::Binary(Infix::Lt)
    } else if index == 16 {
        PostRule::Binary(Infix::Gt)
    } else if index == 17 {
        PostRule::Binary(Infix::Le)
    } else if index == 18 {
        PostRule::Binary(Infix::Ge)
    } else if index == 19 {
        PostRule::Binary(Infix::Or)
    } else if index == 20 {
        PostRule::Binary(Infix::Xor)
    } else if index == 21 {
        PostRule::Binary(Infix::And)
    } else if index == 22 {
        PostRule::Binary(Infix::LShift)
    } else if index == 23 {
        PostRule::Binary(Infix::RShift)
    } else if index == 24 {
        PostRule::Binary(Infix::Add)
    } else if index == 25 {
        PostRule::Binary(Infix::Sub)
    } else if index == 26 {
        PostRule::Binary(Infix::Mul)
    } else if index == 27 {
        PostRule::Binary(Infix::Div)
    } else if index == 28 {
        PostRule::Binary(Infix::Mod)
    } else if index == 29 {
        PostRule::Cast
    } else if index == 30 {
        PostRule::Unwrap
    } else if index == 31 {
        PostRule::Binary(Infix::Range)
    } else if index == 32 {
        PostRule::Index
    } else if index == 33 {
        PostRule::Dot
    } else {
        PostRule::Call
    }
}

/// The operators in front, in the order in which they are tried.
pub(crate) fn prefix_op_at(index: usize) -> (r: Prefix)
    ensures
        r == prefix_at(index as int),
{
    if index == 0 {
        Prefix::Negate
    } else if index == 1 {
        Prefix::Deref
    } else if index == 2 {
        Prefix::Not
    } else if index == 3 {
        Prefix::Inv
    } else if index == 4 {
        Prefix::Ref
    } else {
        Prefix::RefMut
    }
}

/// How the operator in front is written.
pub(crate) fn prefix_word(op: Prefix) -> (r: &'static str)
    ensures
        r@ == prefix_text(op),
        r@.len() == 1,
{
    proof {
        reveal_strlit("-");
        reveal_strlit("*");
        reveal_strlit("!");
        reveal_strlit("~");
        reveal_strlit("&");
    }
    match op {
        Prefix::Negate => "-",
        Prefix::Deref => "*",
        Prefix::Not => "!",
        Prefix::Inv => "~",
        Prefix::Ref => "&",
        Prefix::RefMut => "&",
    }
}

/// The expression of an operator between two operands.
pub(crate) fn make_binary(op: Infix, a: Expr, b: Expr) -> (r: Expr)
    ensures
        expr_tree(r) == binary(op, expr_tree(a), expr_tree(b)),
{
    let a = Box::new(a);
    let b = Box::new(b);
    match op {
        Infix::AssignAnd => Expr::AssignAnd(a, b),
        Infix::AssignOr => Expr::AssignOr(a, b),
        Infix::AssignXor => Expr::AssignXor(a, b),
        Infix::AssignLShift => Expr::AssignLShift(a, b),
        Infix::AssignRShift => Expr::AssignRShift(a, b),
        Infix::Assign => Expr::Assign(a, b),
        Infix::AssignAdd => Expr::AssignAdd(a, b),
        Infix::AssignSub => Expr::AssignSub(a, b),
        Infix::AssignMul => Expr::AssignMul(a, b),
        Infix::AssignDiv => Expr::AssignDiv(a, b),
        Infix::AssignMod => Expr::AssignMod(a, b),
        Infix::LOr => Expr::LOr(a, b),
        Infix::LAnd => Expr::LAnd(a, b),
        Infix::Eq => Expr::Eq(a, b),
        Infix::Ne => Expr::Ne(a, b),
        Infix::Lt => Expr::Lt(a, b),
        Infix::Gt => Expr::Gt(a, b),
        Infix::Le => Expr::Le(a, b),
        Infix::Ge => Expr::Ge(a, b),
        Infix::Or => Expr::Or(a, b),
        Infix::Xor => Expr::Xor(a, b),
        Infix::And => Expr::And(a, b),
        Infix::LShift => Expr::LShift(a, b),
        Infix::RShift => Expr::RShift(a, b),
        Infix::Add => Expr::Add(a, b),
        Infix::Sub => Expr::Sub(a, b),
        Infix::Mul => Expr::Mul(a, b),
        Infix::Div => Expr::Div(a, b),
        Infix::Mod => Expr::Mod(a, b),
        Infix::Range => Expr::Range(a, b),
    }
}

/// The expression of an operator in front of its operand.
pub(crate) fn make_unary(op: Prefix, a: Expr) -> (r: Expr)
    ensures
        expr_tree(r) == unary(op, expr_tree(a)),
{
    let a = Box::new(a);
    match op {
        Prefix::Negate => Expr::Negate(a),
        Prefix::Deref => Expr::Deref(a),
        Prefix::Not => Expr::Not(a),
        Prefix::Inv => Expr::Inv(a),
        Prefix::Ref => Expr::Ref(a),
        Prefix::RefMut => Expr::RefMut(a),
    }
}

/// How an attempt to make a larger expression of an expression ends: with
/// the larger expression and the position behind it, or with the
/// expression as it was.
pub enum Tried {
    Done(Expr, usize),
    Back(Expr),
}

/// Whether the attempt ended as the grammar says.
pub open spec fn agrees_tried(
    r: Result<Tried, String>,
    o: Outcome,
    acc: Expr,
    from: usize,
    len: nat,
) -> bool {
    match r {
        Ok(Tried::Done(e, end)) => o == Outcome::Matched(expr_tree(e), end as int) && from < end
            <= len,
        Ok(Tried::Back(e)) => o is Failed && e == acc,
        Err(text) => o == Outcome::Aborted(text@),
    }
}

/// What a field of a struct literal is.
pub open spec fn field_tree(field: (String, Expr)) -> Tree {
    node2(Kind::Field, Tree::Text(field.0@), expr_tree(field.1))
}

/// What a branch of a match on expressions is.
pub open spec fn expr_branch_tree(branch: MatchBranch<Expr>) -> Tree {
    node2(Kind::MatchBranch, case_tree(branch.case), expr_tree(branch.block))
}

/// What a branch of a match on statements is.
pub open spec fn stat_branch_tree(branch: MatchBranch<Stat>) -> Tree {
    node2(Kind::MatchBranch, case_tree(branch.case), stat_tree(branch.block))
}


/// The kind of statement that a block holds.
pub open spec fn stat_item(noret: bool) -> Item {
    if noret {
        Item::StatNoRet
    } else {
        Item::Stat
    }
}

} // verus!
