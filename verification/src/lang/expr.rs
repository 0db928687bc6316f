use vstd::prelude::*;
use vstd::std_specs::convert::TryFromSpecImpl;
use vstd::string::StringExecFns;
use crate::lang::types::same_text;

verus! {

/// The number type that a literal names with its suffix.
#[derive(Clone, Copy, Debug, PartialEq, Eq, Structural)]
pub enum NumType {
    I8,
    I16,
    I32,
    I64,
    I128,
    U8,
    U16,
    U32,
    U64,
    U128,
    F32,
    F64,
    /// The literal has no suffix.
    Unspecified,
}

impl NumType {
    /// The suffix that names the type; the empty text for `Unspecified`.
    pub open spec fn spec_name(self) -> Seq<char> {
        match self {
            NumType::I8 => "i8"@,
            NumType::I16 => "i16"@,
            NumType::I32 => "i32"@,
            NumType::I64 => "i64"@,
            NumType::I128 => "i128"@,
            NumType::U8 => "u8"@,
            NumType::U16 => "u16"@,
            NumType::U32 => "u32"@,
            NumType::U64 => "u64"@,
            NumType::U128 => "u128"@,
            NumType::F32 => "f32"@,
            NumType::F64 => "f64"@,
            NumType::Unspecified => ""@,
        }
    }

    /// The type that the suffix names, if it names one.
    pub open spec fn named(text: Seq<char>) -> Option<NumType> {
        if text == "i8"@ {
            Some(NumType::I8)
        } else if text == "i16"@ {
            Some(NumType::I16)
        } else if text == "i32"@ {
            Some(NumType::I32)
        } else if text == "i64"@ {
            Some(NumType::I64)
        } else if text == "i128"@ {
            Some(NumType::I128)
        } else if text == "u8"@ {
            Some(NumType::U8)
        } else if text == "u16"@ {
            Some(NumType::U16)
        } else if text == "u32"@ {
            Some(NumType::U32)
        } else if text == "u64"@ {
            Some(NumType::U64)
        } else if text == "u128"@ {
            Some(NumType::U128)
        } else if text == "f32"@ {
            Some(NumType::F32)
        } else if text == "f64"@ {
            Some(NumType::F64)
        } else if text == ""@ {
            Some(NumType::Unspecified)
        } else {
            None
        }
    }

    /// What is said of a suffix that names no type.
    pub open spec fn complaint(text: Seq<char>) -> Seq<char> {
        "'"@ + text + "' is not a valid number type"@
    }

    /// The suffix of a type names that type.
    pub proof fn lemma_name_round_trip(self)
        ensures
            Self::named(self.spec_name()) == Some(self),
    {
        reveal_strlit("i8");
        reveal_strlit("i16");
        reveal_strlit("i32");
        reveal_strlit("i64");
        reveal_strlit("i128");
        reveal_strlit("u8");
        reveal_strlit("u16");
        reveal_strlit("u32");
        reveal_strlit("u64");
        reveal_strlit("u128");
        reveal_strlit("f32");
        reveal_strlit("f64");
        reveal_strlit("");
        let text = self.spec_name();
        assert("i8"@.len() == 2 && "i8"@[0] == 'i' && "i8"@[1] == '8');
        assert("u8"@.len() == 2 && "u8"@[0] == 'u' && "u8"@[1] == '8');
        assert("i16"@.len() == 3 && "i16"@[0] == 'i' && "i16"@[1] == '1');
        assert("i32"@.len() == 3 && "i32"@[0] == 'i' && "i32"@[1] == '3');
        assert("i64"@.len() == 3 && "i64"@[0] == 'i' && "i64"@[1] == '6');
        assert("u16"@.len() == 3 && "u16"@[0] == 'u' && "u16"@[1] == '1');
        assert("u32"@.len() == 3 && "u32"@[0] == 'u' && "u32"@[1] == '3');
        assert("u64"@.len() == 3 && "u64"@[0] == 'u' && "u64"@[1] == '6');
        assert("f32"@.len() == 3 && "f32"@[0] == 'f' && "f32"@[1] == '3');
        assert("f64"@.len() == 3 && "f64"@[0] == 'f' && "f64"@[1] == '6');
        assert("i128"@.len() == 4 && "i128"@[0] == 'i');
        assert("u128"@.len() == 4 && "u128"@[0] == 'u');
        assert(""@.len() == 0);
    }

    /// The suffix that names the type.
    pub fn name(&self) -> (r: &'static str)
        ensures
            r@ == self.spec_name(),
    {
        match self {
            NumType::I8 => "i8",
            NumType::I16 => "i16",
            NumType::I32 => "i32",
            NumType::I64 => "i64",
            NumType::I128 => "i128",
            NumType::U8 => "u8",
            NumType::U16 => "u16",
            NumType::U32 => "u32",
            NumType::U64 => "u64",
            NumType::U128 => "u128",
            NumType::F32 => "f32",
            NumType::F64 => "f64",
            NumType::Unspecified => "",
        }
    }

    /// The type that the suffix names; for a suffix that names none, the
    /// complaint about it.
    pub fn parse(ty: &str) -> (r: Result<NumType, String>)
        ensures
            match Self::named(ty@) {
                Some(named) => r == Ok::<NumType, String>(named),
                None => r matches Err(text) && text@ == Self::complaint(ty@),
            },
    {
        if same_text(ty, "i8") {
            Ok(NumType::I8)
        } else if same_text(ty, "i16") {
            Ok(NumType::I16)
        } else if same_text(ty, "i32") {
            Ok(NumType::I32)
        } else if same_text(ty, "i64") {
            Ok(NumType::I64)
        } else if same_text(ty, "i128") {
            Ok(NumType::I128)
        } else if same_text(ty, "u8") {
            Ok(NumType::U8)
        } else if same_text(ty, "u16") {
            Ok(NumType::U16)
        } else if same_text(ty, "u32") {
            Ok(NumType::U32)
        } else if same_text(ty, "u64") {
            Ok(NumType::U64)
        } else if same_text(ty, "u128") {
            Ok(NumType::U128)
        } else if same_text(ty, "f32") {
            Ok(NumType::F32)
        } else if same_text(ty, "f64") {
            Ok(NumType::F64)
        } else if same_text(ty, "") {
            Ok(NumType::Unspecified)
        } else {
            let mut text = String::from_str("'");
            text.append(ty);
            text.append("' is not a valid number type");
            Err(text)
        }
    }
}

impl<'a> TryFrom<&'a str> for NumType {
    type Error = String;

    /// The type that the suffix names; for a suffix that names none, the
    /// complaint about it.
    fn try_from(ty: &'a str) -> (r: Result<Self, String>)
        ensures
            match NumType::named(ty@) {
                Some(named) => r == Ok::<NumType, String>(named),
                None => r matches Err(text) && text@ == NumType::complaint(ty@),
            },
    {
        NumType::parse(ty)
    }
}

impl<'a> TryFromSpecImpl<&'a str> for NumType {
    /// The complaint is a `String`, of which only the characters can be
    /// said; `try_from` says them in its own contract.
    open spec fn obeys_try_from_spec() -> bool {
        false
    }

    open spec fn try_from_spec(ty: &'a str) -> Result<Self, String> {
        match NumType::named(ty@) {
            Some(named) => Ok(named),
            None => arbitrary(),
        }
    }
}

/// A variant of an enum declaration.
#[derive(Debug)]
pub struct EnumMember {
    pub name: String,
    pub args: Vec<Type>,
}

/// An enum declaration.
#[derive(Debug)]
pub struct Enum {
    pub name: String,
    pub m: Vec<EnumMember>,
}

/// A field of a struct declaration.
#[derive(Debug)]
pub struct StructMember {
    pub name: String,
    pub ty: Type,
}

/// A struct declaration.
#[derive(Debug)]
pub struct Struct {
    pub name: String,
    pub m: Vec<StructMember>,
}

/// A function: header and body.
#[derive(Debug)]
pub struct Function {
    pub header: FnHeader,
    pub body: Block,
}

/// A parameter of a function; `md` says that it may be changed.
#[derive(Debug)]
pub struct FnArg {
    pub name: String,
    pub ty: Type,
    pub md: bool,
}

/// The header of a function.
#[derive(Debug)]
pub struct FnHeader {
    pub name: String,
    pub args: Vec<FnArg>,
    pub ret_val: Option<Type>,
}

/// An implementation block.
#[derive(Debug)]
pub struct Impl {
    /// The trait that is implemented, if any.
    pub tr: Option<Trail>,
    /// The type that it is implemented for.
    pub ty: Type,
    /// The functions.
    pub fns: Vec<Function>,
}

/// A trait declaration.
#[derive(Debug)]
pub struct Trait {
    /// The name of the trait.
    pub name: String,
    /// The headers of the functions that it declares.
    pub fns: Vec<FnHeader>,
}

/// A block: statements, and the expression that is its value, if any.
#[derive(Debug)]
pub struct Block {
    pub content: Vec<Stat>,
    pub return_value: Option<Expr>,
}

/// A return statement.
#[derive(Debug)]
pub struct Return {
    pub val: Expr,
}

/// A chain of conditions.
#[derive(Debug)]
pub enum If {
    If(Expr, Block, Option<Box<If>>),
    Else(Block),
}

/// A path: its first name and the names after it.
#[derive(Debug)]
pub struct Trail {
    pub head: String,
    pub trail: Vec<String>,
}

/// A match on an expression, with branches of expressions or of
/// statements.
#[derive(Debug)]
pub struct Match<T> {
    pub expr: Expr,
    pub cases: Vec<MatchBranch<T>>,
}

/// One branch of a match.
#[derive(Debug)]
pub struct MatchBranch<T> {
    pub case: MatchCase,
    pub block: T,
}

/// What a branch of a match is taken for.
#[derive(Debug)]
pub enum MatchCase {
    /// A literal or a constant.
    Literal(Expr),
    /// One of several cases.
    Multi(Box<MatchCase>, Vec<MatchCase>),
    /// A range.
    Range(Expr, Expr),
    /// A data type with its parameters.
    Data(Type, Vec<MatchCase>),
    Tuple(Vec<MatchCase>),
    /// A name that is bound to whatever is there.
    Param(String),
}

/// An expression.
#[derive(Debug)]
pub enum Expr {
    Literal(String),
    NumLit(String, NumType),
    FloatLit(String, NumType),
    CharLit(char),
    BoolLit(bool),
    Path(Trail),
    DotOp(Box<Expr>, String),
    Identifier(String),
    Assign(Box<Expr>, Box<Expr>),
    AssignAdd(Box<Expr>, Box<Expr>),
    AssignSub(Box<Expr>, Box<Expr>),
    AssignMul(Box<Expr>, Box<Expr>),
    AssignDiv(Box<Expr>, Box<Expr>),
    AssignMod(Box<Expr>, Box<Expr>),
    AssignAnd(Box<Expr>, Box<Expr>),
    AssignOr(Box<Expr>, Box<Expr>),
    AssignXor(Box<Expr>, Box<Expr>),
    AssignLShift(Box<Expr>, Box<Expr>),
    AssignRShift(Box<Expr>, Box<Expr>),
    Eq(Box<Expr>, Box<Expr>),
    Ne(Box<Expr>, Box<Expr>),
    Lt(Box<Expr>, Box<Expr>),
    Le(Box<Expr>, Box<Expr>),
    Gt(Box<Expr>, Box<Expr>),
    Ge(Box<Expr>, Box<Expr>),
    Add(Box<Expr>, Box<Expr>),
    Sub(Box<Expr>, Box<Expr>),
    Mul(Box<Expr>, Box<Expr>),
    Div(Box<Expr>, Box<Expr>),
    Negate(Box<Expr>),
    LShift(Box<Expr>, Box<Expr>),
    RShift(Box<Expr>, Box<Expr>),
    And(Box<Expr>, Box<Expr>),
    Or(Box<Expr>, Box<Expr>),
    Xor(Box<Expr>, Box<Expr>),
    Inv(Box<Expr>),
    Mod(Box<Expr>, Box<Expr>),
    LAnd(Box<Expr>, Box<Expr>),
    LOr(Box<Expr>, Box<Expr>),
    Not(Box<Expr>),
    Unwrap(Box<Expr>),
    Call(Box<Expr>, Vec<Expr>),
    Block(Box<Block>),
    If(Box<If>),
    Match(Box<Match<Expr>>),
    Range(Box<Expr>, Box<Expr>),
    Index(Box<Expr>, Box<Expr>),
    ArrayInit(Box<Expr>, Box<Expr>),
    ArrayExplicit(Vec<Expr>),
    Ref(Box<Expr>),
    RefMut(Box<Expr>),
    Deref(Box<Expr>),
    Cast(Box<Expr>, Type),
    Tuple(Vec<Expr>),
    StructInit(Type, Vec<(String, Expr)>),
}

/// A statement.
#[derive(Debug)]
pub enum Stat {
    Define(String, Box<Expr>, bool),
    ExprStat(Expr),
    Return(Return),
    Break(Option<Box<Expr>>),
    Continue,
    If(Box<If>),
    Match(Box<Match<Stat>>),
    While(Box<Expr>, Block),
    Loop(Block),
    For(Vec<String>, Box<Expr>, Block),
    Block(Box<Block>),
}

/// A type as the source names it.
#[derive(Debug)]
pub enum Type {
    /// The type `()`.
    Unit,
    Plain(Trail),
    Ref(Box<Type>),
    MutRef(Box<Type>),
    Ptr(Box<Type>),
    MutPtr(Box<Type>),
    Tuple(Vec<Type>),
}

} // verus!
