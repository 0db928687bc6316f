use vstd::prelude::*;
use crate::lang::expr::{
    Block,
    Enum,
    EnumMember,
    Expr,
    FnArg,
    FnHeader,
    Function,
    If,
    Match,
    MatchBranch,
    MatchCase,
    NumType,
    Return,
    Stat,
    Struct,
    StructMember,
    Trail,
    Trait,
    Type,
};

verus! {

/// The operators that stand between two operands.
#[derive(Clone, Copy, Debug, PartialEq, Eq, Structural)]
pub enum Infix {
    AssignAnd,
    AssignOr,
    AssignXor,
    AssignLShift,
    AssignRShift,
    Assign,
    AssignAdd,
    AssignSub,
    AssignMul,
    AssignDiv,
    AssignMod,
    LOr,
    LAnd,
    Eq,
    Ne,
    Lt,
    Gt,
    Le,
    Ge,
    Or,
    Xor,
    And,
    LShift,
    RShift,
    Add,
    Sub,
    Mul,
    Div,
    Mod,
    Range,
}

/// The operators that stand in front of their operand.
#[derive(Clone, Copy, Debug, PartialEq, Eq, Structural)]
pub enum Prefix {
    Negate,
    Deref,
    Not,
    Inv,
    Ref,
    RefMut,
}

/// What may follow an expression and make a larger expression of it.
#[derive(Clone, Copy, Debug, PartialEq, Eq, Structural)]
pub enum PostRule {
    /// An operator and a second operand.
    Binary(Infix),
    /// `as` and a type.
    Cast,
    /// A question mark.
    Unwrap,
    /// An index in square brackets.
    Index,
    /// A dot and a name.
    Dot,
    /// Arguments in round brackets.
    Call,
}

/// The kinds of nodes of a syntax tree.
pub enum Kind {
    List,
    Absent,
    Present,
    Trail,
    TypeUnit,
    TypePlain,
    TypeRef,
    TypeMutRef,
    TypePtr,
    TypeMutPtr,
    TypeTuple,
    Enum,
    EnumMember,
    Struct,
    StructMember,
    Function,
    FnHeader,
    FnArg(bool),
    Trait,
    Block,
    IfThen,
    IfElse,
    Match,
    MatchBranch,
    CaseLiteral,
    CaseMulti,
    CaseRange,
    CaseData,
    CaseTuple,
    CaseParam,
    Literal,
    NumLit(NumType),
    FloatLit(NumType),
    CharLit(char),
    BoolLit(bool),
    Path,
    DotOp,
    Identifier,
    Binary(Infix),
    Unary(Prefix),
    Unwrap,
    Call,
    ExprBlock,
    ExprIf,
    ExprMatch,
    Index,
    ArrayInit,
    ArrayExplicit,
    Cast,
    Tuple,
    StructInit,
    Field,
    Define(bool),
    ExprStat,
    Return,
    Break,
    Continue,
    StatIf,
    StatMatch,
    While,
    Loop,
    For,
    StatBlock,
}

/// What a piece of syntax is, apart from how it is held in memory: a text,
/// or a node of some kind over its parts, in order.
pub enum Tree {
    Text(Seq<char>),
    Node(Kind, Seq<Tree>),
}

/// A node over one part.
pub open spec fn node1(kind: Kind, a: Tree) -> Tree {
    Tree::Node(kind, seq![a])
}

/// A node over two parts.
pub open spec fn node2(kind: Kind, a: Tree, b: Tree) -> Tree {
    Tree::Node(kind, seq![a, b])
}

/// A node over three parts.
pub open spec fn node3(kind: Kind, a: Tree, b: Tree, c: Tree) -> Tree {
    Tree::Node(kind, seq![a, b, c])
}

/// A node without parts.
pub open spec fn leaf(kind: Kind) -> Tree {
    Tree::Node(kind, Seq::empty())
}

/// A list of parts as one part.
pub open spec fn list(items: Seq<Tree>) -> Tree {
    Tree::Node(Kind::List, items)
}

/// A part that may be missing.
pub open spec fn optional(item: Option<Tree>) -> Tree {
    match item {
        None => leaf(Kind::Absent),
        Some(tree) => node1(Kind::Present, tree),
    }
}

/// The texts as trees, in order.
pub open spec fn texts(items: Seq<String>) -> Seq<Tree> {
    Seq::new(items.len(), |i: int| Tree::Text(items[i]@))
}

/// What a path is.
pub open spec fn trail_tree(t: Trail) -> Tree {
    Tree::Node(Kind::Trail, seq![Tree::Text(t.head@)] + texts(t.trail@))
}

/// What a type annotation is.
pub open spec fn type_tree(t: Type) -> Tree
    decreases t,
{
    match t {
        Type::Unit => leaf(Kind::TypeUnit),
        Type::Plain(p) => node1(Kind::TypePlain, trail_tree(p)),
        Type::Ref(inner) => node1(Kind::TypeRef, type_tree(*inner)),
        Type::MutRef(inner) => node1(Kind::TypeMutRef, type_tree(*inner)),
        Type::Ptr(inner) => node1(Kind::TypePtr, type_tree(*inner)),
        Type::MutPtr(inner) => node1(Kind::TypeMutPtr, type_tree(*inner)),
        Type::Tuple(items) => Tree::Node(Kind::TypeTuple, type_trees(items@)),
    }
}

/// What the type annotations are, in order.
pub open spec fn type_trees(items: Seq<Type>) -> Seq<Tree>
    decreases items,
{
    Seq::new(
        items.len(),
        |i: int|
            if 0 <= i < items.len() {
                type_tree(items[i])
            } else {
                arbitrary()
            },
    )
}

/// What a variant of an enum declaration is.
pub open spec fn enum_member_tree(m: EnumMember) -> Tree {
    node2(Kind::EnumMember, Tree::Text(m.name@), list(type_trees(m.args@)))
}

/// What the variants are, in order.
pub open spec fn enum_member_trees(items: Seq<EnumMember>) -> Seq<Tree> {
    Seq::new(items.len(), |i: int| enum_member_tree(items[i]))
}

/// What an enum declaration is.
pub open spec fn enum_tree(e: Enum) -> Tree {
    node2(Kind::Enum, Tree::Text(e.name@), list(enum_member_trees(e.m@)))
}

/// What a field of a struct declaration is.
pub open spec fn struct_member_tree(m: StructMember) -> Tree {
    node2(Kind::StructMember, Tree::Text(m.name@), type_tree(m.ty))
}

/// What the fields are, in order.
pub open spec fn struct_member_trees(items: Seq<StructMember>) -> Seq<Tree> {
    Seq::new(items.len(), |i: int| struct_member_tree(items[i]))
}

/// What a struct declaration is.
pub open spec fn struct_tree(s: Struct) -> Tree {
    node2(Kind::Struct, Tree::Text(s.name@), list(struct_member_trees(s.m@)))
}

/// What a parameter of a function is.
pub open spec fn fn_arg_tree(a: FnArg) -> Tree {
    node2(Kind::FnArg(a.md), Tree::Text(a.name@), type_tree(a.ty))
}

/// What the type of a function's result is, if the function names one.
pub open spec fn return_type_tree(t: Option<Type>) -> Tree {
    match t {
        None => optional(None),
        Some(ty) => optional(Some(type_tree(ty))),
    }
}

/// What the parameters are, in order.
pub open spec fn fn_arg_trees(items: Seq<FnArg>) -> Seq<Tree> {
    Seq::new(items.len(), |i: int| fn_arg_tree(items[i]))
}

/// What the header of a function is.
pub open spec fn fn_header_tree(h: FnHeader) -> Tree {
    node3(Kind::FnHeader, Tree::Text(h.name@), list(fn_arg_trees(h.args@)), return_type_tree(h.ret_val))
}

/// What the headers are, in order.
pub open spec fn fn_header_trees(items: Seq<FnHeader>) -> Seq<Tree> {
    Seq::new(items.len(), |i: int| fn_header_tree(items[i]))
}

/// What a trait declaration is.
pub open spec fn trait_tree(t: Trait) -> Tree {
    node2(Kind::Trait, Tree::Text(t.name@), list(fn_header_trees(t.fns@)))
}

/// What a function is.
pub open spec fn function_tree(f: Function) -> Tree {
    node2(Kind::Function, fn_header_tree(f.header), block_tree(f.body))
}

/// What an expression that may be missing is.
pub open spec fn optional_expr_tree(e: Option<Expr>) -> Tree
    decreases e,
{
    match e {
        None => optional(None),
        Some(expr) => optional(Some(expr_tree(expr))),
    }
}

/// What a block is.
pub open spec fn block_tree(b: Block) -> Tree
    decreases b,
{
    node2(Kind::Block, list(stat_trees(b.content@)), optional_expr_tree(b.return_value))
}

/// What the statements are, in order.
pub open spec fn stat_trees(items: Seq<Stat>) -> Seq<Tree>
    decreases items,
{
    Seq::new(
        items.len(),
        |i: int|
            if 0 <= i < items.len() {
                stat_tree(items[i])
            } else {
                arbitrary()
            },
    )
}

/// What the expressions are, in order.
pub open spec fn expr_trees(items: Seq<Expr>) -> Seq<Tree>
    decreases items,
{
    Seq::new(
        items.len(),
        |i: int|
            if 0 <= i < items.len() {
                expr_tree(items[i])
            } else {
                arbitrary()
            },
    )
}

/// What the cases are, in order.
pub open spec fn case_trees(items: Seq<MatchCase>) -> Seq<Tree>
    decreases items,
{
    Seq::new(
        items.len(),
        |i: int|
            if 0 <= i < items.len() {
                case_tree(items[i])
            } else {
                arbitrary()
            },
    )
}

/// What a chain of conditions is.
pub open spec fn if_tree(i: If) -> Tree
    decreases i,
{
    match i {
        If::If(condition, block, rest) => node3(Kind::IfThen, expr_tree(condition), block_tree(block), match rest {
                    None => optional(None),
                    Some(next) => optional(Some(if_tree(*next))),
                }),
        If::Else(block) => node1(Kind::IfElse, block_tree(block)),
    }
}

/// What a case of a match is.
pub open spec fn case_tree(c: MatchCase) -> Tree
    decreases c,
{
    match c {
        MatchCase::Literal(e) => node1(Kind::CaseLiteral, expr_tree(e)),
        MatchCase::Multi(first, rest) => node2(Kind::CaseMulti, case_tree(*first), list(case_trees(rest@))),
        MatchCase::Range(from, to) => node2(Kind::CaseRange, expr_tree(from), expr_tree(to)),
        MatchCase::Data(ty, params) => node2(Kind::CaseData, type_tree(ty), list(case_trees(params@))),
        MatchCase::Tuple(params) => Tree::Node(Kind::CaseTuple, case_trees(params@)),
        MatchCase::Param(name) => node1(Kind::CaseParam, Tree::Text(name@)),
    }
}

/// What the branches of a match on expressions are, in order.
pub open spec fn expr_branch_trees(items: Seq<MatchBranch<Expr>>) -> Seq<Tree>
    decreases items,
{
    Seq::new(
        items.len(),
        |i: int|
            if 0 <= i < items.len() {
                node2(Kind::MatchBranch, case_tree(items[i].case), expr_tree(items[i].block))
            } else {
                arbitrary()
            },
    )
}

/// What the branches of a match on statements are, in order.
pub open spec fn stat_branch_trees(items: Seq<MatchBranch<Stat>>) -> Seq<Tree>
    decreases items,
{
    Seq::new(
        items.len(),
        |i: int|
            if 0 <= i < items.len() {
                node2(Kind::MatchBranch, case_tree(items[i].case), stat_tree(items[i].block))
            } else {
                arbitrary()
            },
    )
}

/// What a match with expressions as its branches is.
pub open spec fn expr_match_tree(m: Match<Expr>) -> Tree
    decreases m,
{
    node2(Kind::Match, expr_tree(m.expr), list(expr_branch_trees(m.cases@)))
}

/// What a match with statements as its branches is.
pub open spec fn stat_match_tree(m: Match<Stat>) -> Tree
    decreases m,
{
    node2(Kind::Match, expr_tree(m.expr), list(stat_branch_trees(m.cases@)))
}

/// What the fields of a struct literal are, in order.
pub open spec fn field_trees(items: Seq<(String, Expr)>) -> Seq<Tree>
    decreases items,
{
    Seq::new(
        items.len(),
        |i: int|
            if 0 <= i < items.len() {
                node2(Kind::Field, Tree::Text(items[i].0@), expr_tree(items[i].1))
            } else {
                arbitrary()
            },
    )
}

/// A node over two expressions.
pub open spec fn binary(op: Infix, left: Tree, right: Tree) -> Tree {
    node2(Kind::Binary(op), left, right)
}

/// A node over one expression.
pub open spec fn unary(op: Prefix, operand: Tree) -> Tree {
    node1(Kind::Unary(op), operand)
}

/// What an expression is.
pub open spec fn expr_tree(e: Expr) -> Tree
    decreases e,
{
    match e {
        Expr::Literal(text) => node1(Kind::Literal, Tree::Text(text@)),
        Expr::NumLit(text, ty) => node1(Kind::NumLit(ty), Tree::Text(text@)),
        Expr::FloatLit(text, ty) => node1(Kind::FloatLit(ty), Tree::Text(text@)),
        Expr::CharLit(c) => leaf(Kind::CharLit(c)),
        Expr::BoolLit(b) => leaf(Kind::BoolLit(b)),
        Expr::Path(p) => node1(Kind::Path, trail_tree(p)),
        Expr::DotOp(a, name) => node2(Kind::DotOp, expr_tree(*a), Tree::Text(name@)),
        Expr::Identifier(name) => node1(Kind::Identifier, Tree::Text(name@)),
        Expr::Assign(a, b) => binary(Infix::Assign, expr_tree(*a), expr_tree(*b)),
        Expr::AssignAdd(a, b) => binary(Infix::AssignAdd, expr_tree(*a), expr_tree(*b)),
        Expr::AssignSub(a, b) => binary(Infix::AssignSub, expr_tree(*a), expr_tree(*b)),
        Expr::AssignMul(a, b) => binary(Infix::AssignMul, expr_tree(*a), expr_tree(*b)),
        Expr::AssignDiv(a, b) => binary(Infix::AssignDiv, expr_tree(*a), expr_tree(*b)),
        Expr::AssignMod(a, b) => binary(Infix::AssignMod, expr_tree(*a), expr_tree(*b)),
        Expr::AssignAnd(a, b) => binary(Infix::AssignAnd, expr_tree(*a), expr_tree(*b)),
        Expr::AssignOr(a, b) => binary(Infix::AssignOr, expr_tree(*a), expr_tree(*b)),
        Expr::AssignXor(a, b) => binary(Infix::AssignXor, expr_tree(*a), expr_tree(*b)),
        Expr::AssignLShift(a, b) => binary(Infix::AssignLShift, expr_tree(*a), expr_tree(*b)),
        Expr::AssignRShift(a, b) => binary(Infix::AssignRShift, expr_tree(*a), expr_tree(*b)),
        Expr::Eq(a, b) => binary(Infix::Eq, expr_tree(*a), expr_tree(*b)),
        Expr::Ne(a, b) => binary(Infix::Ne, expr_tree(*a), expr_tree(*b)),
        Expr::Lt(a, b) => binary(Infix::Lt, expr_tree(*a), expr_tree(*b)),
        Expr::Le(a, b) => binary(Infix::Le, expr_tree(*a), expr_tree(*b)),
        Expr::Gt(a, b) => binary(Infix::Gt, expr_tree(*a), expr_tree(*b)),
        Expr::Ge(a, b) => binary(Infix::Ge, expr_tree(*a), expr_tree(*b)),
        Expr::Add(a, b) => binary(Infix::Add, expr_tree(*a), expr_tree(*b)),
        Expr::Sub(a, b) => binary(Infix::Sub, expr_tree(*a), expr_tree(*b)),
        Expr::Mul(a, b) => binary(Infix::Mul, expr_tree(*a), expr_tree(*b)),
        Expr::Div(a, b) => binary(Infix::Div, expr_tree(*a), expr_tree(*b)),
        Expr::Negate(a) => unary(Prefix::Negate, expr_tree(*a)),
        Expr::LShift(a, b) => binary(Infix::LShift, expr_tree(*a), expr_tree(*b)),
        Expr::RShift(a, b) => binary(Infix::RShift, expr_tree(*a), expr_tree(*b)),
        Expr::And(a, b) => binary(Infix::And, expr_tree(*a), expr_tree(*b)),
        Expr::Or(a, b) => binary(Infix::Or, expr_tree(*a), expr_tree(*b)),
        Expr::Xor(a, b) => binary(Infix::Xor, expr_tree(*a), expr_tree(*b)),
        Expr::Inv(a) => unary(Prefix::Inv, expr_tree(*a)),
        Expr::Mod(a, b) => binary(Infix::Mod, expr_tree(*a), expr_tree(*b)),
        Expr::LAnd(a, b) => binary(Infix::LAnd, expr_tree(*a), expr_tree(*b)),
        Expr::LOr(a, b) => binary(Infix::LOr, expr_tree(*a), expr_tree(*b)),
        Expr::Not(a) => unary(Prefix::Not, expr_tree(*a)),
        Expr::Unwrap(a) => node1(Kind::Unwrap, expr_tree(*a)),
        Expr::Call(callee, args) => node2(Kind::Call, expr_tree(*callee), list(expr_trees(args@))),
        Expr::Block(block) => node1(Kind::ExprBlock, block_tree(*block)),
        Expr::If(i) => node1(Kind::ExprIf, if_tree(*i)),
        Expr::Match(m) => node1(Kind::ExprMatch, expr_match_tree(*m)),
        Expr::Range(a, b) => binary(Infix::Range, expr_tree(*a), expr_tree(*b)),
        Expr::Index(a, index) => node2(Kind::Index, expr_tree(*a), expr_tree(*index)),
        Expr::ArrayInit(value, len) => node2(Kind::ArrayInit, expr_tree(*value), expr_tree(*len)),
        Expr::ArrayExplicit(items) => Tree::Node(Kind::ArrayExplicit, expr_trees(items@)),
        Expr::Ref(a) => unary(Prefix::Ref, expr_tree(*a)),
        Expr::RefMut(a) => unary(Prefix::RefMut, expr_tree(*a)),
        Expr::Deref(a) => unary(Prefix::Deref, expr_tree(*a)),
        Expr::Cast(a, ty) => node2(Kind::Cast, expr_tree(*a), type_tree(ty)),
        Expr::Tuple(items) => Tree::Node(Kind::Tuple, expr_trees(items@)),
        Expr::StructInit(ty, fields) => node2(Kind::StructInit, type_tree(ty), list(field_trees(fields@))),
    }
}

/// What a return statement is.
pub open spec fn return_tree(r: Return) -> Tree
    decreases r,
{
    node1(Kind::Return, expr_tree(r.val))
}

/// What a statement is.
pub open spec fn stat_tree(s: Stat) -> Tree
    decreases s,
{
    match s {
        Stat::Define(name, value, mutable) => node2(Kind::Define(mutable), Tree::Text(name@), expr_tree(*value)),
        Stat::ExprStat(e) => node1(Kind::ExprStat, expr_tree(e)),
        Stat::Return(r) => return_tree(r),
        Stat::Break(value) => node1(Kind::Break, match value {
                    None => optional(None),
                    Some(e) => optional(Some(expr_tree(*e))),
                }),
        Stat::Continue => leaf(Kind::Continue),
        Stat::If(i) => node1(Kind::StatIf, if_tree(*i)),
        Stat::Match(m) => node1(Kind::StatMatch, stat_match_tree(*m)),
        Stat::While(condition, body) => node2(Kind::While, expr_tree(*condition), block_tree(body)),
        Stat::Loop(body) => node1(Kind::Loop, block_tree(body)),
        Stat::For(names, iter, body) => node3(Kind::For, list(texts(names@)), expr_tree(*iter), block_tree(body)),
        Stat::Block(block) => node1(Kind::StatBlock, block_tree(*block)),
    }
}

} // verus!
