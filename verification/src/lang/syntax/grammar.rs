use vstd::prelude::*;
use crate::lang::expr::NumType;
use crate::lang::syntax::tree::{
    node1,
    node2,
    node3,
    binary,
    leaf,
    list,
    optional,
    unary,
    Infix,
    Kind,
    PostRule,
    Prefix,
    Tree,
};

verus! {

/// How an attempt to read a piece of syntax at a position ends: with what
/// was read and the position behind it; with nothing, so that something
/// else may be tried at the same position; or with a complaint that ends
/// the reading altogether.
pub enum Outcome {
    Matched(Tree, int),
    Failed,
    Aborted(Seq<char>),
}

/// How an attempt to read a run of pieces ends: with the pieces and the
/// position behind them, or with a complaint that ends the reading.
pub enum Items {
    Matched(Seq<Tree>, int),
    Aborted(Seq<char>),
}

/// A match that may be missing, as an outcome.
pub open spec fn found(o: Option<(Tree, int)>) -> Outcome {
    match o {
        Some((tree, end)) => Outcome::Matched(tree, end),
        None => Outcome::Failed,
    }
}

/// Whether the text goes on with `word` at `pos`; then the position behind
/// the word.
pub open spec fn lit(s: Seq<char>, pos: int, word: Seq<char>) -> Option<int> {
    if 0 <= pos && pos + word.len() <= s.len() && s.subrange(pos, pos + word.len()) == word {
        Some(pos + word.len())
    } else {
        None
    }
}

pub open spec fn is_space(c: char) -> bool {
    c == ' ' || c == '\t' || c == '\n' || c == '\r'
}

/// The position behind the white space at `pos`.
pub open spec fn ws(s: Seq<char>, pos: int) -> int
    decreases s.len() - pos,
{
    if 0 <= pos < s.len() && is_space(s[pos]) {
        ws(s, pos + 1)
    } else {
        pos
    }
}

/// White space never leads backwards nor beyond the text.
pub proof fn lemma_ws(s: Seq<char>, pos: int)
    ensures
        pos <= ws(s, pos),
        pos <= s.len() ==> ws(s, pos) <= s.len(),
    decreases s.len() - pos,
{
    if 0 <= pos < s.len() && is_space(s[pos]) {
        lemma_ws(s, pos + 1);
    }
}

/// `word` behind white space: the position behind the word.
pub open spec fn token(s: Seq<char>, pos: int, word: Seq<char>) -> Option<int> {
    lit(s, ws(s, pos), word)
}

/// `word` between white space: the position behind the white space that
/// follows the word.
pub open spec fn spaced(s: Seq<char>, pos: int, word: Seq<char>) -> Option<int> {
    match lit(s, ws(s, pos), word) {
        Some(end) => Some(ws(s, end)),
        None => None,
    }
}

pub open spec fn is_lower(c: char) -> bool {
    'a' <= c && c <= 'z'
}

pub open spec fn is_digit(c: char) -> bool {
    '0' <= c && c <= '9'
}

pub open spec fn is_ident_start(c: char) -> bool {
    is_lower(c) || ('A' <= c && c <= 'Z') || c == '_'
}

pub open spec fn is_ident_part(c: char) -> bool {
    is_ident_start(c) || is_digit(c)
}

/// The characters of which the digits of a number are made.
pub open spec fn is_number_part(c: char) -> bool {
    is_digit(c) || c == '_'
}

/// The characters that the suffix of a number goes on with.
pub open spec fn is_suffix_part(c: char) -> bool {
    is_lower(c) || is_digit(c)
}

/// The characters that may stand between the quotes of a string.
pub open spec fn is_string_part(c: char) -> bool {
    is_ident_part(c) || c == ' ' || c == '\n' || c == '\t' || c == '\r' || c == '@' || c == '\''
        || c == '-' || c == '+' || c == '*' || c == '/' || c == '[' || c == ']' || c == '('
        || c == ')' || c == '{' || c == '}' || c == '?' || c == '!' || c == '.' || c == ','
        || c == ';' || c == ':' || c == '#' || c == '=' || c == '\\' || c == '%' || c == '$'
        || c == '§' || c == '~' || c == '>' || c == '<' || c == '|' || c == '`' || c == '^'
        || c == '°' || c == '€'
}

/// The classes of characters of which runs are read.
#[derive(Clone, Copy, Debug, PartialEq, Eq, Structural)]
pub enum Class {
    IdentPart,
    NumberPart,
    SuffixPart,
    StringPart,
}

pub open spec fn in_class(class: Class, c: char) -> bool {
    match class {
        Class::IdentPart => is_ident_part(c),
        Class::NumberPart => is_number_part(c),
        Class::SuffixPart => is_suffix_part(c),
        Class::StringPart => is_string_part(c),
    }
}

/// The position behind the run of characters of the class at `pos`.
pub open spec fn run(s: Seq<char>, pos: int, class: Class) -> int
    decreases s.len() - pos,
{
    if 0 <= pos < s.len() && in_class(class, s[pos]) {
        run(s, pos + 1, class)
    } else {
        pos
    }
}

/// A run never leads backwards nor beyond the text.
pub proof fn lemma_run(s: Seq<char>, pos: int, class: Class)
    ensures
        pos <= run(s, pos, class),
        pos <= s.len() ==> run(s, pos, class) <= s.len(),
    decreases s.len() - pos,
{
    if 0 <= pos < s.len() && in_class(class, s[pos]) {
        lemma_run(s, pos + 1, class);
    }
}

/// An identifier at `pos`: its text and the position behind it.
pub open spec fn p_identifier(s: Seq<char>, pos: int) -> Option<(Seq<char>, int)> {
    if 0 <= pos < s.len() && is_ident_start(s[pos]) {
        let end = run(s, pos + 1, Class::IdentPart);
        Some((s.subrange(pos, end), end))
    } else {
        None
    }
}

/// Names between white space, with `::` between one and the next, from
/// `pos` on; `first` says that no name was read yet.
pub open spec fn p_names(s: Seq<char>, pos: int, first: bool, separator: Seq<char>) -> (
    Seq<Tree>,
    int,
)
    decreases s.len() - pos,
{
    let start = if first {
        Some(pos)
    } else {
        lit(s, pos, separator)
    };
    match start {
        None => (Seq::empty(), pos),
        Some(from) => match p_identifier(s, ws(s, from)) {
            None => (Seq::empty(), pos),
            Some((name, end)) => {
                let next = ws(s, end);
                if pos < next <= s.len() {
                    let rest = p_names(s, next, false, separator);
                    (seq![Tree::Text(name)] + rest.0, rest.1)
                } else {
                    (Seq::empty(), pos)
                }
            },
        },
    }
}

/// A path at `pos`: a name, and after `::` more names with `::` between
/// them.
pub open spec fn p_path(s: Seq<char>, pos: int) -> Option<(Tree, int)> {
    match p_identifier(s, pos) {
        None => None,
        Some((head, end)) => match spaced(s, end, "::"@) {
            Some(from) => {
                let rest = p_names(s, from, true, "::"@);
                Some((Tree::Node(Kind::Trail, seq![Tree::Text(head)] + rest.0), rest.1))
            },
            None => Some((node1(Kind::Trail, Tree::Text(head)), end)),
        },
    }
}

/// What closes a list in brackets: the closing bracket behind white space,
/// with or without a comma in front of it.
pub open spec fn closing(s: Seq<char>, pos: int, bracket: Seq<char>) -> Option<int> {
    match spaced(s, pos, ","@) {
        Some(behind) => match lit(s, behind, bracket) {
            Some(end) => Some(end),
            None => token(s, pos, bracket),
        },
        None => token(s, pos, bracket),
    }
}

/// Type annotations between white space, with commas between one and the
/// next.
pub open spec fn p_types(s: Seq<char>, pos: int, first: bool) -> (Seq<Tree>, int)
    decreases s.len() - pos, 3nat,
{
    let start = if first {
        Some(pos)
    } else {
        lit(s, pos, ","@)
    };
    match start {
        None => (Seq::empty(), pos),
        Some(from) => {
            if pos <= ws(s, from) <= s.len() {
                match p_type(s, ws(s, from)) {
                    None => (Seq::empty(), pos),
                    Some((tree, end)) => {
                        let next = ws(s, end);
                        if pos < next <= s.len() {
                            let rest = p_types(s, next, false);
                            (seq![tree] + rest.0, rest.1)
                        } else {
                            (Seq::empty(), pos)
                        }
                    },
                }
            } else {
                (Seq::empty(), pos)
            }
        },
    }
}

/// A reference or pointer type: the sign, `mut` if it is there, and the
/// type that it leads to.
pub open spec fn p_indirect(s: Seq<char>, pos: int, sign: Seq<char>, plain: Kind, mutable: Kind) -> Option<
    (Tree, int),
>
    decreases s.len() - pos, 0nat,
{
    match lit(s, pos, sign) {
        None => None,
        Some(behind) => {
            let exclusive = match spaced(s, behind, "mut"@) {
                None => None,
                Some(from) => if pos < from <= s.len() {
                    p_type(s, from)
                } else {
                    None
                },
            };
            match exclusive {
                Some((inner, end)) => Some((node1(mutable, inner), end)),
                None => if pos < ws(s, behind) <= s.len() {
                    match p_type(s, ws(s, behind)) {
                        Some((inner, end)) => Some((node1(plain, inner), end)),
                        None => None,
                    }
                } else {
                    None
                },
            }
        },
    }
}

/// A type annotation at `pos`: `()`, a tuple of types, a reference, a
/// pointer, or a path.
pub open spec fn p_type(s: Seq<char>, pos: int) -> Option<(Tree, int)>
    decreases s.len() - pos, 2nat,
{
    if lit(s, pos, "()"@) is Some {
        Some((leaf(Kind::TypeUnit), pos + 2))
    } else {
        let tuple = match lit(s, pos, "("@) {
            None => None,
            Some(behind) => {
                if pos < ws(s, behind) <= s.len() {
                    let items = p_types(s, ws(s, behind), true);
                    if items.0.len() > 0 {
                        match closing(s, items.1, ")"@) {
                            Some(end) => Some((Tree::Node(Kind::TypeTuple, items.0), end)),
                            None => None,
                        }
                    } else {
                        None
                    }
                } else {
                    None
                }
            },
        };
        if tuple is Some {
            tuple
        } else {
            let reference = p_indirect(s, pos, "&"@, Kind::TypeRef, Kind::TypeMutRef);
            if reference is Some {
                reference
            } else {
                let pointer = p_indirect(s, pos, "*"@, Kind::TypePtr, Kind::TypeMutPtr);
                if pointer is Some {
                    pointer
                } else {
                    match p_path(s, pos) {
                        Some((path, end)) => Some((node1(Kind::TypePlain, path), end)),
                        None => None,
                    }
                }
            }
        }
    }
}

/// Whether `next` lies behind `pos` and within the text. Every rule ends
/// behind the position at which it starts; where one rule is read behind
/// another, the grammar asks for it, so that every reading ends.
pub open spec fn ahead(s: Seq<char>, pos: int, next: int) -> bool {
    pos < next <= s.len()
}

/// A variant of an enum declaration: its name, and in round brackets the
/// types of its parameters, if it has any.
pub open spec fn p_enum_member(s: Seq<char>, pos: int) -> Option<(Tree, int)> {
    match p_identifier(s, pos) {
        None => None,
        Some((name, end)) => {
            let with_args = match spaced(s, end, "("@) {
                None => None,
                Some(from) => {
                    let args = p_types(s, from, true);
                    match token(s, args.1, ")"@) {
                        Some(last) => Some(
                            (
                                node2(Kind::EnumMember, Tree::Text(name), list(args.0)),
                                last,
                            ),
                        ),
                        None => None,
                    }
                },
            };
            if with_args is Some {
                with_args
            } else {
                Some(
                    (
                        node2(Kind::EnumMember, Tree::Text(name), list(Seq::empty())),
                        end,
                    ),
                )
            }
        },
    }
}

/// A name, a colon and a type: the name, the type, and the position
/// behind it.
pub open spec fn p_typed_name(s: Seq<char>, pos: int) -> Option<(Seq<char>, Tree, int)> {
    match p_identifier(s, pos) {
        None => None,
        Some((name, end)) => match spaced(s, end, ":"@) {
            None => None,
            Some(from) => match p_type(s, from) {
                None => None,
                Some((ty, last)) => Some((name, ty, last)),
            },
        },
    }
}

/// A field of a struct declaration: its name, a colon, its type.
pub open spec fn p_struct_member(s: Seq<char>, pos: int) -> Option<(Tree, int)> {
    match p_typed_name(s, pos) {
        Some((name, ty, end)) => Some((node2(Kind::StructMember, Tree::Text(name), ty), end)),
        None => None,
    }
}

/// A parameter of a function: `mut` if it may be changed, its name, a
/// colon, its type.
pub open spec fn p_fn_arg(s: Seq<char>, pos: int) -> Option<(Tree, int)> {
    let mutable = match lit(s, pos, "mut"@) {
        None => None,
        Some(behind) => p_typed_name(s, ws(s, behind)),
    };
    match mutable {
        Some((name, ty, end)) => Some((node2(Kind::FnArg(true), Tree::Text(name), ty), end)),
        None => match p_typed_name(s, pos) {
            Some((name, ty, end)) => Some((node2(Kind::FnArg(false), Tree::Text(name), ty), end)),
            None => None,
        },
    }
}

/// The kinds of items of which lists are read.
#[derive(Clone, Copy, Debug, PartialEq, Eq, Structural)]
pub enum Item {
    EnumMember,
    StructMember,
    FnArg,
    Expr,
    Case,
    Field,
    Stat,
    StatNoRet,
    ExprBranch,
    StatBranch,
}

/// What stands between the items of a list.
#[derive(Clone, Copy, Debug, PartialEq, Eq, Structural)]
pub enum Separator {
    Comma,
    Bar,
    Space,
}

/// The position behind the separator at `pos`, if it is there.
pub open spec fn separated(s: Seq<char>, pos: int, separator: Separator) -> Option<int> {
    match separator {
        Separator::Comma => lit(s, pos, ","@),
        Separator::Bar => lit(s, pos, "|"@),
        Separator::Space => Some(ws(s, pos)),
    }
}

/// The header of a function: `fn`, the name, the parameters in round
/// brackets, and behind `->` the type that is returned, if one is named.
pub open spec fn p_fn_header(s: Seq<char>, pos: int) -> Option<(Tree, int)> {
    match lit(s, pos, "fn"@) {
        None => None,
        Some(behind) => match p_identifier(s, ws(s, behind)) {
            None => None,
            Some((name, end)) => match token(s, end, "("@) {
                None => None,
                Some(from) => match p_plain_list(s, from, true, Item::FnArg) {
                    (args, last) => match lit(s, last, ")"@) {
                        None => None,
                        Some(closed) => {
                            let result = match spaced(s, closed, "->"@) {
                                None => None,
                                Some(at) => p_type(s, at),
                            };
                            match result {
                                Some((ty, done)) => Some(
                                    (
                                        node3(Kind::FnHeader, Tree::Text(name), list(args), optional(Some(ty))),
                                        done,
                                    ),
                                ),
                                None => Some(
                                    (
                                        node3(Kind::FnHeader, Tree::Text(name), list(args), optional(None)),
                                        closed,
                                    ),
                                ),
                            }
                        },
                    },
                },
            },
        },
    }
}

/// One item of a list of declarations, between white space. A function
/// header in a trait ends with a semicolon.
pub open spec fn p_plain_item(s: Seq<char>, pos: int, item: Item) -> Option<(Tree, int)> {
    let from = ws(s, pos);
    match item {
        Item::EnumMember => match p_enum_member(s, from) {
            Some((tree, end)) => Some((tree, ws(s, end))),
            None => None,
        },
        Item::StructMember => match p_struct_member(s, from) {
            Some((tree, end)) => Some((tree, ws(s, end))),
            None => None,
        },
        Item::FnArg => match p_fn_arg(s, from) {
            Some((tree, end)) => Some((tree, ws(s, end))),
            None => None,
        },
        _ => None,
    }
}

/// Items of declarations with commas between them.
pub open spec fn p_plain_list(s: Seq<char>, pos: int, first: bool, item: Item) -> (Seq<Tree>, int)
    decreases s.len() - pos,
{
    let start = if first {
        Some(pos)
    } else {
        lit(s, pos, ","@)
    };
    match start {
        None => (Seq::empty(), pos),
        Some(from) => match p_plain_item(s, from, item) {
            None => (Seq::empty(), pos),
            Some((tree, end)) => if ahead(s, pos, end) {
                let rest = p_plain_list(s, end, false, item);
                (seq![tree] + rest.0, rest.1)
            } else {
                (Seq::empty(), pos)
            },
        },
    }
}

/// Function headers, each between white space and with a semicolon behind
/// it.
pub open spec fn p_trait_fns(s: Seq<char>, pos: int, first: bool) -> (Seq<Tree>, int)
    decreases s.len() - pos,
{
    let start = if first {
        pos
    } else {
        ws(s, pos)
    };
    match p_fn_header(s, ws(s, start)) {
        None => (Seq::empty(), pos),
        Some((tree, end)) => match spaced(s, end, ";"@) {
            None => (Seq::empty(), pos),
            Some(next) => if ahead(s, pos, next) {
                let rest = p_trait_fns(s, next, false);
                (seq![tree] + rest.0, rest.1)
            } else {
                (Seq::empty(), pos)
            },
        },
    }
}

/// What a declaration with a body starts with, between white space: the
/// keyword, the name and the opening bracket. This gives the name and the
/// position behind the white space that follows the bracket.
pub open spec fn p_declared(s: Seq<char>, pos: int, keyword: Seq<char>) -> Option<(Seq<char>, int)> {
    match spaced(s, pos, keyword) {
        None => None,
        Some(from) => match p_identifier(s, from) {
            None => None,
            Some((name, end)) => match spaced(s, end, "{"@) {
                None => None,
                Some(inside) => Some((name, inside)),
            },
        },
    }
}

/// A declaration with a body in curly brackets: the keyword, the name, and
/// between the brackets the members, with commas between them and, if one
/// likes, behind the last.
pub open spec fn p_declaration(s: Seq<char>, pos: int, keyword: Seq<char>, kind: Kind, item: Item) -> Option<
    (Tree, int),
> {
    match p_declared(s, pos, keyword) {
        None => None,
        Some((name, inside)) => {
            let members = p_plain_list(s, inside, true, item);
            match closing(s, members.1, "}"@) {
                None => None,
                Some(closed) => Some(
                    (node2(kind, Tree::Text(name), list(members.0)), ws(s, closed)),
                ),
            }
        },
    }
}

/// An enum declaration.
pub open spec fn p_enum_def(s: Seq<char>, pos: int) -> Option<(Tree, int)> {
    p_declaration(s, pos, "enum"@, Kind::Enum, Item::EnumMember)
}

/// A struct declaration.
pub open spec fn p_struct_def(s: Seq<char>, pos: int) -> Option<(Tree, int)> {
    p_declaration(s, pos, "struct"@, Kind::Struct, Item::StructMember)
}

/// A trait declaration: the keyword, the name, and between curly brackets
/// the headers of its functions, each with a semicolon behind it.
pub open spec fn p_trait(s: Seq<char>, pos: int) -> Option<(Tree, int)> {
    match p_declared(s, pos, "trait"@) {
        None => None,
        Some((name, inside)) => {
            let fns = p_trait_fns(s, inside, true);
            match lit(s, fns.1, "}"@) {
                None => None,
                Some(closed) => Some(
                    (node2(Kind::Trait, Tree::Text(name), list(fns.0)), ws(s, closed)),
                ),
            }
        },
    }
}

/// The suffix of a number at `pos`: a lower-case letter and what letters
/// and digits follow it, or nothing.
pub open spec fn p_suffix(s: Seq<char>, pos: int) -> (Seq<char>, int) {
    if 0 <= pos < s.len() && is_lower(s[pos]) {
        let end = run(s, pos + 1, Class::SuffixPart);
        (s.subrange(pos, end), end)
    } else {
        (Seq::empty(), pos)
    }
}

/// A number whose digits, written `text`, end at `end`: the suffix is
/// read, and it must name a number type.
pub open spec fn p_number_end(s: Seq<char>, text: Seq<char>, end: int, float: bool) -> Outcome {
    let suffix = p_suffix(s, end);
    match NumType::named(suffix.0) {
        Some(ty) => Outcome::Matched(
            node1(if float {
                    Kind::FloatLit(ty)
                } else {
                    Kind::NumLit(ty)
                }, Tree::Text(text)),
            suffix.1,
        ),
        None => Outcome::Aborted(NumType::complaint(suffix.0)),
    }
}

/// At least one digit behind `mark` at `pos`: the position behind the
/// digits.
pub open spec fn p_digits_after(s: Seq<char>, pos: int, mark: Seq<char>) -> Option<int> {
    match lit(s, pos, mark) {
        None => None,
        Some(from) => if run(s, from, Class::NumberPart) > from {
            Some(run(s, from, Class::NumberPart))
        } else {
            None
        },
    }
}

/// The exponent of a number at `pos`, tried as `e-`, `e+` and `e`, in
/// this order: the position behind its digits.
pub open spec fn p_exponent(s: Seq<char>, pos: int) -> Option<int> {
    if p_digits_after(s, pos, "e-"@) is Some {
        p_digits_after(s, pos, "e-"@)
    } else if p_digits_after(s, pos, "e+"@) is Some {
        p_digits_after(s, pos, "e+"@)
    } else {
        p_digits_after(s, pos, "e"@)
    }
}

/// The exponent of a number without a fraction, tried as `e`, `e-` and
/// `e+`, in this order.
pub open spec fn p_bare_exponent(s: Seq<char>, pos: int) -> Option<int> {
    if p_digits_after(s, pos, "e"@) is Some {
        p_digits_after(s, pos, "e"@)
    } else if p_digits_after(s, pos, "e-"@) is Some {
        p_digits_after(s, pos, "e-"@)
    } else {
        p_digits_after(s, pos, "e+"@)
    }
}

/// A number at `pos`. Digits may be missing in front of a fraction or an
/// exponent; a number with a fraction or an exponent is a float.
pub open spec fn p_num_lit(s: Seq<char>, pos: int) -> Outcome {
    if 0 <= pos <= s.len() {
        let whole = run(s, pos, Class::NumberPart);
        match p_digits_after(s, whole, "."@) {
            Some(fraction) => match p_exponent(s, fraction) {
                Some(end) => p_number_end(s, s.subrange(pos, end), end, true),
                None => p_number_end(s, s.subrange(pos, fraction), fraction, true),
            },
            None => match p_bare_exponent(s, whole) {
                Some(end) => p_number_end(s, s.subrange(pos, end), end, true),
                None => if whole > pos {
                    p_number_end(s, s.subrange(pos, whole), whole, false)
                } else {
                    Outcome::Failed
                },
            },
        }
    } else {
        Outcome::Failed
    }
}

/// A string at `pos`: between double quotes, characters that a string may
/// hold.
pub open spec fn p_str_lit(s: Seq<char>, pos: int) -> Option<(Tree, int)> {
    match lit(s, pos, "\""@) {
        None => None,
        Some(from) => match lit(s, run(s, from, Class::StringPart), "\""@) {
            None => None,
            Some(end) => Some(
                (
                    node1(Kind::Literal, Tree::Text(s.subrange(from, run(s, from, Class::StringPart)))),
                    end,
                ),
            ),
        },
    }
}

/// `true` or `false` at `pos`.
pub open spec fn p_bool_lit(s: Seq<char>, pos: int) -> Option<(Tree, int)> {
    if lit(s, pos, "true"@) is Some {
        Some((leaf(Kind::BoolLit(true)), pos + 4))
    } else if lit(s, pos, "false"@) is Some {
        Some((leaf(Kind::BoolLit(false)), pos + 5))
    } else {
        None
    }
}

/// A character between single quotes at `pos`: one that can be seen.
pub open spec fn p_char_lit(s: Seq<char>, pos: int) -> Option<(Tree, int)> {
    if 0 <= pos && pos + 3 <= s.len() && s[pos] == '\'' && '!' <= s[pos + 1] && s[pos + 1] <= '~'
        && s[pos + 2] == '\'' {
        Some((leaf(Kind::CharLit(s[pos + 1])), pos + 3))
    } else {
        None
    }
}

/// How the operator is written.
pub open spec fn infix_text(op: Infix) -> Seq<char> {
    match op {
        Infix::AssignAnd => "&="@,
        Infix::AssignOr => "|="@,
        Infix::AssignXor => "^="@,
        Infix::AssignLShift => "<<="@,
        Infix::AssignRShift => ">>="@,
        Infix::Assign => "="@,
        Infix::AssignAdd => "+="@,
        Infix::AssignSub => "-="@,
        Infix::AssignMul => "*="@,
        Infix::AssignDiv => "/="@,
        Infix::AssignMod => "%="@,
        Infix::LOr => "||"@,
        Infix::LAnd => "&&"@,
        Infix::Eq => "=="@,
        Infix::Ne => "!="@,
        Infix::Lt => "<"@,
        Infix::Gt => ">"@,
        Infix::Le => "<="@,
        Infix::Ge => ">="@,
        Infix::Or => "|"@,
        Infix::Xor => "^"@,
        Infix::And => "&"@,
        Infix::LShift => "<<"@,
        Infix::RShift => ">>"@,
        Infix::Add => "+"@,
        Infix::Sub => "-"@,
        Infix::Mul => "*"@,
        Infix::Div => "/"@,
        Infix::Mod => "%"@,
        Infix::Range => ".."@,
    }
}

/// How tightly the operator binds: a larger number binds tighter.
pub open spec fn infix_level(op: Infix) -> int {
    match op {
        Infix::AssignAnd | Infix::AssignOr | Infix::AssignXor | Infix::AssignLShift
        | Infix::AssignRShift => 0,
        Infix::Assign | Infix::AssignAdd | Infix::AssignSub | Infix::AssignMul
        | Infix::AssignDiv | Infix::AssignMod => 1,
        Infix::LOr => 2,
        Infix::LAnd => 3,
        Infix::Eq | Infix::Ne | Infix::Lt | Infix::Gt | Infix::Le | Infix::Ge => 4,
        Infix::Or => 5,
        Infix::Xor => 6,
        Infix::And => 7,
        Infix::LShift | Infix::RShift => 8,
        Infix::Add | Infix::Sub => 9,
        Infix::Mul | Infix::Div | Infix::Mod => 10,
        Infix::Range => 15,
    }
}

/// How tightly what follows an expression binds to it.
pub open spec fn post_level(rule: PostRule) -> int {
    match rule {
        PostRule::Binary(op) => infix_level(op),
        PostRule::Cast => 11,
        PostRule::Unwrap => 13,
        PostRule::Index => 15,
        PostRule::Dot => 16,
        PostRule::Call => 16,
    }
}

/// How tightly the operand of an operator in front binds.
pub open spec fn prefix_level() -> int {
    13
}

/// How many things may follow an expression.
pub open spec fn post_rules() -> int {
    35
}

/// What may follow an expression, in the order in which it is tried:
/// the loosest first, and within one level as listed.
pub open spec fn post_rule(index: int) -> PostRule {
    if index == 0 {
        PostRule::Binary(Infix::AssignAnd)
    } else if index == 1 {
        PostRule::Binary(Infix::AssignOr)
    } else if index == 2 {
        PostRule::Binary(Infix::AssignXor)
    } else if index == 3 {
        PostRule::Binary(Infix::AssignLShift)
    } else if index == 4 {
        PostRule::Binary(Infix::AssignRShift)
    } else if index == 5 {
        PostRule::Binary(Infix::Assign)
    } else if index == 6 {
        PostRule::Binary(Infix::AssignAdd)
    } else if index == 7 {
        PostRule::Binary(Infix::AssignSub)
    } else if index == 8 {
        PostRule::Binary(Infix::AssignMul)
    } else if index == 9 {
        PostRule::Binary(Infix::AssignDiv)
    } else if index == 10 {
        PostRule::Binary(Infix::AssignMod)
    } else if index == 11 {
        PostRule::Binary(Infix::LOr)
    } else if index == 12 {
        PostRule::Binary(Infix::LAnd)
    } else if index == 13 {
        PostRule::Binary(Infix::Eq)
    } else if index == 14 {
        PostRule::Binary(Infix::Ne)
    } else if index == 15 {
        PostRule::Binary(Infix::Lt)
    } else if index == 16 {
        PostRule::Binary(Infix::Gt)
    } else if index == 17 {
        PostRule::Binary(Infix::Le)
    } else if index == 18 {
        PostRule::Binary(Infix::Ge)
    } else if index == 19 {
        PostRule::Binary(Infix::Or)
    } else if index == 20 {
        PostRule::Binary(Infix::Xor)
    } else if index == 21 {
        PostRule::Binary(Infix::And)
    } else if index == 22 {
        PostRule::Binary(Infix::LShift)
    } else if index == 23 {
        PostRule::Binary(Infix::RShift)
    } else if index == 24 {
        PostRule::Binary(Infix::Add)
    } else if index == 25 {
        PostRule::Binary(Infix::Sub)
    } else if index == 26 {
        PostRule::Binary(Infix::Mul)
    } else if index == 27 {
        PostRule::Binary(Infix::Div)
    } else if index == 28 {
        PostRule::Binary(Infix::Mod)
    } else if index == 29 {
        PostRule::Cast
    } else if index == 30 {
        PostRule::Unwrap
    } else if index == 31 {
        PostRule::Binary(Infix::Range)
    } else if index == 32 {
        PostRule::Index
    } else if index == 33 {
        PostRule::Dot
    } else {
        PostRule::Call
    }
}

/// How the operator in front is written; `&mut` is `&`, then `mut`.
pub open spec fn prefix_text(op: Prefix) -> Seq<char> {
    match op {
        Prefix::Negate => "-"@,
        Prefix::Deref => "*"@,
        Prefix::Not => "!"@,
        Prefix::Inv => "~"@,
        Prefix::Ref => "&"@,
        Prefix::RefMut => "&"@,
    }
}

/// The operators in front, in the order in which they are tried.
pub open spec fn prefix_at(index: int) -> Prefix {
    if index == 0 {
        Prefix::Negate
    } else if index == 1 {
        Prefix::Deref
    } else if index == 2 {
        Prefix::Not
    } else if index == 3 {
        Prefix::Inv
    } else if index == 4 {
        Prefix::Ref
    } else {
        Prefix::RefMut
    }
}

/// In how many ways an expression may begin.
pub open spec fn atoms() -> int {
    19
}

/// An expression at `pos` of which every operator binds at least as
/// tightly as `min`: a beginning, and then whatever may follow it, as long
/// as something does.
#[verifier::opaque]
pub open spec fn p_expr(s: Seq<char>, pos: int, min: int) -> Outcome
    decreases s.len() - pos, 10nat, 0nat,
{
    match p_atom(s, pos, 0) {
        Outcome::Matched(tree, end) => if ahead(s, pos, end) {
            p_post(s, end, min, tree)
        } else {
            Outcome::Failed
        },
        o => o,
    }
}

/// The first of the beginnings from `index` on that is found at `pos`.
#[verifier::opaque]
pub open spec fn p_atom(s: Seq<char>, pos: int, index: int) -> Outcome
    decreases s.len() - pos, 9nat, atoms() - index,
{
    if index < 0 || index >= atoms() {
        Outcome::Failed
    } else {
        match p_alternative(s, pos, index) {
            Outcome::Failed => p_atom(s, pos, index + 1),
            o => o,
        }
    }
}

/// One way in which an expression may begin: an operator in front and its
/// operand, a number, an expression in round brackets, a tuple, an array,
/// a struct literal, a condition, a match, a block, `true` or `false`, a
/// path, a string, a character. They are tried in this order.
#[verifier::opaque]
pub open spec fn p_alternative(s: Seq<char>, pos: int, index: int) -> Outcome
    decreases s.len() - pos, 8nat, 0nat,
{
    if index < 6 {
        p_prefix(s, pos, prefix_at(index))
    } else if index == 6 {
        p_num_lit(s, pos)
    } else if index == 7 {
        match lit(s, pos, "("@) {
            None => Outcome::Failed,
            Some(behind) => if ahead(s, pos, ws(s, behind)) {
                match p_expr(s, ws(s, behind), 0) {
                    Outcome::Matched(tree, end) => match token(s, end, ")"@) {
                        Some(closed) => Outcome::Matched(tree, closed),
                        None => Outcome::Failed,
                    },
                    o => o,
                }
            } else {
                Outcome::Failed
            },
        }
    } else if index == 8 {
        match lit(s, pos, "("@) {
            None => Outcome::Failed,
            Some(behind) => if ahead(s, pos, ws(s, behind)) {
                match p_list(s, ws(s, behind), true, Item::Expr, Separator::Comma) {
                    Items::Aborted(text) => Outcome::Aborted(text),
                    Items::Matched(items, end) => if items.len() == 0 {
                        Outcome::Failed
                    } else if lit(s, end, ")"@) is Some {
                        Outcome::Matched(Tree::Node(Kind::Tuple, items), end + 1)
                    } else {
                        match lit(s, end, ","@) {
                            None => Outcome::Failed,
                            Some(comma) => match token(s, comma, ")"@) {
                                Some(closed) => Outcome::Matched(
                                    Tree::Node(Kind::Tuple, items),
                                    closed,
                                ),
                                None => Outcome::Failed,
                            },
                        }
                    },
                }
            } else {
                Outcome::Failed
            },
        }
    } else if index == 9 {
        match lit(s, pos, "["@) {
            None => Outcome::Failed,
            Some(behind) => if ahead(s, pos, behind) {
                match p_list(s, behind, true, Item::Expr, Separator::Comma) {
                    Items::Aborted(text) => Outcome::Aborted(text),
                    Items::Matched(items, end) => match lit(s, end, "]"@) {
                        Some(closed) => Outcome::Matched(
                            Tree::Node(Kind::ArrayExplicit, items),
                            closed,
                        ),
                        None => Outcome::Failed,
                    },
                }
            } else {
                Outcome::Failed
            },
        }
    } else if index == 10 {
        match lit(s, pos, "["@) {
            None => Outcome::Failed,
            Some(behind) => if ahead(s, pos, ws(s, behind)) {
                match p_expr(s, ws(s, behind), 0) {
                    Outcome::Matched(value, end) => match spaced(s, end, ";"@) {
                        None => Outcome::Failed,
                        Some(from) => if ahead(s, pos, from) {
                            match p_expr(s, from, 0) {
                                Outcome::Matched(len, last) => match token(s, last, "]"@) {
                                    Some(closed) => Outcome::Matched(
                                        node2(Kind::ArrayInit, value, len),
                                        closed,
                                    ),
                                    None => Outcome::Failed,
                                },
                                o => o,
                            }
                        } else {
                            Outcome::Failed
                        },
                    },
                    o => o,
                }
            } else {
                Outcome::Failed
            },
        }
    } else if index == 11 {
        p_struct_init(s, pos)
    } else if index == 12 {
        match p_if_expr(s, pos) {
            Outcome::Matched(tree, end) => Outcome::Matched(
                node1(Kind::ExprIf, tree),
                end,
            ),
            o => o,
        }
    } else if index == 13 {
        match p_match(s, pos, false) {
            Outcome::Matched(tree, end) => Outcome::Matched(
                node1(Kind::ExprMatch, tree),
                end,
            ),
            o => o,
        }
    } else if index == 14 {
        match p_exp_block(s, pos) {
            Outcome::Matched(tree, end) => Outcome::Matched(
                node1(Kind::ExprBlock, tree),
                end,
            ),
            o => o,
        }
    } else if index == 15 {
        found(p_bool_lit(s, pos))
    } else if index == 16 {
        match p_path(s, pos) {
            Some((path, end)) => Outcome::Matched(node1(Kind::Path, path), end),
            None => Outcome::Failed,
        }
    } else if index == 17 {
        found(p_str_lit(s, pos))
    } else {
        found(p_char_lit(s, pos))
    }
}

/// An operator in front and its operand.
#[verifier::opaque]
pub open spec fn p_prefix(s: Seq<char>, pos: int, op: Prefix) -> Outcome
    decreases s.len() - pos, 2nat, 0nat,
{
    match lit(s, pos, prefix_text(op)) {
        None => Outcome::Failed,
        Some(behind) => {
            let from = if op == Prefix::RefMut {
                spaced(s, behind, "mut"@)
            } else {
                Some(ws(s, behind))
            };
            match from {
                None => Outcome::Failed,
                Some(operand) => if ahead(s, pos, operand) {
                    match p_expr(s, operand, prefix_level()) {
                        Outcome::Matched(tree, end) => Outcome::Matched(unary(op, tree), end),
                        o => o,
                    }
                } else {
                    Outcome::Failed
                },
            }
        },
    }
}

/// Whatever follows the expression `acc` that ends at `pos`, as long as
/// something follows that binds at least as tightly as `min`.
#[verifier::opaque]
pub open spec fn p_post(s: Seq<char>, pos: int, min: int, acc: Tree) -> Outcome
    decreases s.len() - pos, 9nat, 0nat,
{
    match p_post_step(s, pos, min, acc, 0) {
        Outcome::Matched(tree, end) => if ahead(s, pos, end) {
            p_post(s, end, min, tree)
        } else {
            Outcome::Matched(acc, pos)
        },
        Outcome::Failed => Outcome::Matched(acc, pos),
        Outcome::Aborted(text) => Outcome::Aborted(text),
    }
}

/// The first thing from `index` on that follows the expression `acc` and
/// binds at least as tightly as `min`.
#[verifier::opaque]
pub open spec fn p_post_step(s: Seq<char>, pos: int, min: int, acc: Tree, index: int) -> Outcome
    decreases s.len() - pos, 8nat, post_rules() - index,
{
    if index < 0 || index >= post_rules() {
        Outcome::Failed
    } else if post_level(post_rule(index)) < min {
        p_post_step(s, pos, min, acc, index + 1)
    } else {
        match p_post_rule(s, pos, acc, post_rule(index)) {
            Outcome::Failed => p_post_step(s, pos, min, acc, index + 1),
            o => o,
        }
    }
}

/// One thing that may follow the expression `acc`. An operator takes as
/// its second operand an expression that binds as tightly as itself, so
/// that operators of one level group from the right.
#[verifier::opaque]
pub open spec fn p_post_rule(s: Seq<char>, pos: int, acc: Tree, rule: PostRule) -> Outcome
    decreases s.len() - pos, 7nat, 0nat,
{
    match rule {
        PostRule::Binary(op) => match spaced(s, pos, infix_text(op)) {
            None => Outcome::Failed,
            Some(from) => if ahead(s, pos, from) {
                match p_expr(s, from, infix_level(op)) {
                    Outcome::Matched(right, end) => Outcome::Matched(binary(op, acc, right), end),
                    o => o,
                }
            } else {
                Outcome::Failed
            },
        },
        PostRule::Cast => match spaced(s, pos, "as"@) {
            None => Outcome::Failed,
            Some(from) => match p_type(s, from) {
                Some((ty, end)) => Outcome::Matched(node2(Kind::Cast, acc, ty), end),
                None => Outcome::Failed,
            },
        },
        PostRule::Unwrap => match token(s, pos, "?"@) {
            Some(end) => Outcome::Matched(node1(Kind::Unwrap, acc), end),
            None => Outcome::Failed,
        },
        PostRule::Index => match spaced(s, pos, "["@) {
            None => Outcome::Failed,
            Some(from) => if ahead(s, pos, from) {
                match p_expr(s, from, 0) {
                    Outcome::Matched(index, end) => match lit(s, end, "]"@) {
                        Some(closed) => Outcome::Matched(
                            node2(Kind::Index, acc, index),
                            closed,
                        ),
                        None => Outcome::Failed,
                    },
                    o => o,
                }
            } else {
                Outcome::Failed
            },
        },
        PostRule::Dot => match spaced(s, pos, "."@) {
            None => Outcome::Failed,
            Some(from) => match p_identifier(s, from) {
                Some((name, end)) => Outcome::Matched(
                    node2(Kind::DotOp, acc, Tree::Text(name)),
                    end,
                ),
                None => Outcome::Failed,
            },
        },
        PostRule::Call => match token(s, pos, "("@) {
            None => Outcome::Failed,
            Some(from) => if ahead(s, pos, from) {
                match p_list(s, from, true, Item::Expr, Separator::Comma) {
                    Items::Aborted(text) => Outcome::Aborted(text),
                    Items::Matched(args, end) => match lit(s, end, ")"@) {
                        Some(closed) => Outcome::Matched(
                            node2(Kind::Call, acc, list(args)),
                            closed,
                        ),
                        None => Outcome::Failed,
                    },
                }
            } else {
                Outcome::Failed
            },
        },
    }
}

/// One item of a list at `pos`, between white space.
#[verifier::opaque]
pub open spec fn p_item(s: Seq<char>, pos: int, item: Item) -> Outcome
    decreases s.len() - pos, 29nat, 0nat,
{
    let from = ws(s, pos);
    if pos <= from <= s.len() {
        let inner = match item {
            Item::Expr => p_expr(s, from, 0),
            Item::Case => p_case(s, from),
            Item::Field => p_field(s, from),
            Item::Stat => p_stat(s, from),
            Item::StatNoRet => p_stat_noret(s, from),
            Item::ExprBranch => p_branch(s, from, false),
            Item::StatBranch => p_branch(s, from, true),
            _ => Outcome::Failed,
        };
        match inner {
            Outcome::Matched(tree, end) => Outcome::Matched(tree, ws(s, end)),
            o => o,
        }
    } else {
        Outcome::Failed
    }
}

/// Items with separators between them, as many as there are; `first` says
/// that no item was read yet.
#[verifier::opaque]
pub open spec fn p_list(s: Seq<char>, pos: int, first: bool, item: Item, separator: Separator) -> Items
    decreases s.len() - pos, 30nat, 0nat,
{
    let start = if first {
        Some(pos)
    } else {
        separated(s, pos, separator)
    };
    match start {
        None => Items::Matched(Seq::empty(), pos),
        Some(from) => if pos <= from <= s.len() {
            match p_item(s, from, item) {
                Outcome::Failed => Items::Matched(Seq::empty(), pos),
                Outcome::Aborted(text) => Items::Aborted(text),
                Outcome::Matched(tree, end) => if ahead(s, pos, end) {
                    match p_list(s, end, false, item, separator) {
                        Items::Matched(rest, last) => Items::Matched(seq![tree] + rest, last),
                        Items::Aborted(text) => Items::Aborted(text),
                    }
                } else {
                    Items::Matched(Seq::empty(), pos)
                },
            }
        } else {
            Items::Matched(Seq::empty(), pos)
        },
    }
}

/// A struct literal: the type, and between curly brackets the fields,
/// with commas between them and, if one likes, behind the last.
#[verifier::opaque]
pub open spec fn p_struct_init(s: Seq<char>, pos: int) -> Outcome
    decreases s.len() - pos, 2nat, 0nat,
{
    match p_type(s, pos) {
        None => Outcome::Failed,
        Some((ty, end)) => match spaced(s, end, "{"@) {
            None => Outcome::Failed,
            Some(inside) => if ahead(s, pos, inside) {
                match p_list(s, inside, true, Item::Field, Separator::Comma) {
                    Items::Aborted(text) => Outcome::Aborted(text),
                    Items::Matched(fields, last) => match closing(s, last, "}"@) {
                        Some(closed) => Outcome::Matched(
                            node2(Kind::StructInit, ty, list(fields)),
                            closed,
                        ),
                        None => Outcome::Failed,
                    },
                }
            } else {
                Outcome::Failed
            },
        },
    }
}

/// A field of a struct literal: a name, and behind a colon its value; a
/// name alone stands for the variable of that name.
#[verifier::opaque]
pub open spec fn p_field(s: Seq<char>, pos: int) -> Outcome
    decreases s.len() - pos, 11nat, 0nat,
{
    match p_identifier(s, pos) {
        None => Outcome::Failed,
        Some((name, end)) => {
            let short = Outcome::Matched(
                node2(Kind::Field, Tree::Text(name), node1(Kind::Path, node1(Kind::Trail, Tree::Text(name)))),
                end,
            );
            match spaced(s, end, ":"@) {
                None => short,
                Some(from) => if ahead(s, pos, from) {
                    match p_expr(s, from, 0) {
                        Outcome::Matched(value, last) => Outcome::Matched(
                            node2(Kind::Field, Tree::Text(name), value),
                            last,
                        ),
                        Outcome::Failed => short,
                        Outcome::Aborted(text) => Outcome::Aborted(text),
                    }
                } else {
                    short
                },
            }
        },
    }
}

/// How an attempt to read the start of a condition ends: with the
/// condition, the block and the position behind the block; with nothing;
/// or with a complaint.
pub enum Head {
    Matched(Tree, Tree, int),
    Failed,
    Aborted(Seq<char>),
}

/// `if`, a condition and a block, up to the position behind the block.
#[verifier::opaque]
pub open spec fn p_if_head(s: Seq<char>, pos: int, with_value: bool) -> Head
    decreases s.len() - pos, 1nat, 0nat,
{
    match lit(s, pos, "if"@) {
        None => Head::Failed,
        Some(behind) => if ahead(s, pos, ws(s, behind)) {
            match p_expr(s, ws(s, behind), 0) {
                Outcome::Matched(condition, end) => if ahead(s, pos, ws(s, end)) {
                    let block = if with_value {
                        p_exp_block(s, ws(s, end))
                    } else {
                        p_block(s, ws(s, end))
                    };
                    match block {
                        Outcome::Matched(body, last) => Head::Matched(condition, body, last),
                        Outcome::Failed => Head::Failed,
                        Outcome::Aborted(text) => Head::Aborted(text),
                    }
                } else {
                    Head::Failed
                },
                Outcome::Failed => Head::Failed,
                Outcome::Aborted(text) => Head::Aborted(text),
            }
        } else {
            Head::Failed
        },
    }
}

/// A condition with blocks: it has a part for every case, and every block
/// of it ends with an expression.
#[verifier::opaque]
pub open spec fn p_if_expr(s: Seq<char>, pos: int) -> Outcome
    decreases s.len() - pos, 2nat, 0nat,
{
    match p_if_head(s, pos, true) {
        Head::Matched(condition, body, end) => match spaced(s, end, "else"@) {
            None => Outcome::Failed,
            Some(from) => if ahead(s, pos, from) {
                match p_exp_block(s, from) {
                    Outcome::Matched(other, last) => Outcome::Matched(
                        node3(
                            Kind::IfThen,
                            condition,
                            body,
                            optional(Some(node1(Kind::IfElse, other))),
                        ),
                        last,
                    ),
                    Outcome::Aborted(text) => Outcome::Aborted(text),
                    Outcome::Failed => match p_if_expr(s, from) {
                        Outcome::Matched(next, last) => Outcome::Matched(
                            node3(Kind::IfThen, condition, body, optional(Some(next))),
                            last,
                        ),
                        o => o,
                    },
                }
            } else {
                Outcome::Failed
            },
        },
        Head::Failed => Outcome::Failed,
        Head::Aborted(text) => Outcome::Aborted(text),
    }
}

/// A condition as a statement: what follows `else`, if anything, is
/// another condition or a block.
#[verifier::opaque]
pub open spec fn p_if_stat(s: Seq<char>, pos: int) -> Outcome
    decreases s.len() - pos, 2nat, 0nat,
{
    match p_if_head(s, pos, false) {
        Head::Matched(condition, body, end) => {
            let alone = Outcome::Matched(
                node3(Kind::IfThen, condition, body, optional(None)),
                end,
            );
            match spaced(s, end, "else"@) {
                None => alone,
                Some(from) => if ahead(s, pos, from) {
                    match p_if_stat(s, from) {
                        Outcome::Matched(next, last) => Outcome::Matched(
                            node3(Kind::IfThen, condition, body, optional(Some(next))),
                            last,
                        ),
                        Outcome::Aborted(text) => Outcome::Aborted(text),
                        Outcome::Failed => match p_block(s, from) {
                            Outcome::Matched(other, last) => Outcome::Matched(
                                node3(
                                    Kind::IfThen,
                                    condition,
                                    body,
                                    optional(Some(node1(Kind::IfElse, other))),
                                ),
                                last,
                            ),
                            Outcome::Aborted(text) => Outcome::Aborted(text),
                            Outcome::Failed => alone,
                        },
                    }
                } else {
                    alone
                },
            }
        },
        Head::Failed => Outcome::Failed,
        Head::Aborted(text) => Outcome::Aborted(text),
    }
}

/// A match: the keyword, what is matched, and between curly brackets the
/// branches, with commas between them and, if one likes, behind the last,
/// or with white space between them. The branches are expressions, or
/// statements if `stats` says so.
#[verifier::opaque]
pub open spec fn p_match(s: Seq<char>, pos: int, stats: bool) -> Outcome
    decreases s.len() - pos, 2nat, 0nat,
{
    let item = if stats {
        Item::StatBranch
    } else {
        Item::ExprBranch
    };
    match lit(s, pos, "match"@) {
        None => Outcome::Failed,
        Some(behind) => if ahead(s, pos, ws(s, behind)) {
            match p_expr(s, ws(s, behind), 0) {
                Outcome::Matched(subject, end) => match spaced(s, end, "{"@) {
                    None => Outcome::Failed,
                    Some(inside) => if ahead(s, pos, inside) {
                        match p_list(s, inside, true, item, Separator::Comma) {
                            Items::Aborted(text) => Outcome::Aborted(text),
                            Items::Matched(branches, last) => match closing(s, last, "}"@) {
                                Some(closed) => Outcome::Matched(
                                    node2(Kind::Match, subject, list(branches)),
                                    closed,
                                ),
                                None => match p_list(s, inside, true, item, Separator::Space) {
                                    Items::Aborted(text) => Outcome::Aborted(text),
                                    Items::Matched(loose, end2) => match token(s, end2, "}"@) {
                                        Some(closed) => Outcome::Matched(
                                            node2(Kind::Match, subject, list(loose)),
                                            closed,
                                        ),
                                        None => Outcome::Failed,
                                    },
                                },
                            },
                        }
                    } else {
                        Outcome::Failed
                    },
                },
                o => o,
            }
        } else {
            Outcome::Failed
        },
    }
}

/// A branch of a match: a case, `=>`, and what is done in that case.
#[verifier::opaque]
pub open spec fn p_branch(s: Seq<char>, pos: int, stats: bool) -> Outcome
    decreases s.len() - pos, 14nat, 0nat,
{
    match p_case(s, pos) {
        Outcome::Matched(case, end) => match spaced(s, end, "=>"@) {
            None => Outcome::Failed,
            Some(from) => if ahead(s, pos, from) {
                let body = if stats {
                    p_stat(s, from)
                } else {
                    p_expr(s, from, 0)
                };
                match body {
                    Outcome::Matched(tree, last) => Outcome::Matched(
                        node2(Kind::MatchBranch, case, tree),
                        last,
                    ),
                    o => o,
                }
            } else {
                Outcome::Failed
            },
        },
        o => o,
    }
}

/// A case of a match: one case, and behind `|` more of them, as long as
/// there are more.
#[verifier::opaque]
pub open spec fn p_case(s: Seq<char>, pos: int) -> Outcome
    decreases s.len() - pos, 13nat, 0nat,
{
    match p_case_atom(s, pos) {
        Outcome::Matched(tree, end) => if ahead(s, pos, end) {
            p_case_post(s, end, tree)
        } else {
            Outcome::Failed
        },
        o => o,
    }
}

/// A case that is a type with cases in round brackets.
#[verifier::opaque]
pub open spec fn p_case_data(s: Seq<char>, pos: int) -> Outcome
    decreases s.len() - pos, 11nat, 0nat,
{
    match p_type(s, pos) {
        None => Outcome::Failed,
        Some((ty, end)) => match spaced(s, end, "("@) {
            None => Outcome::Failed,
            Some(inside) => if ahead(s, pos, inside) {
                match p_list(s, inside, true, Item::Case, Separator::Comma) {
                    Items::Aborted(text) => Outcome::Aborted(text),
                    Items::Matched(params, last) => match token(s, last, ")"@) {
                        Some(closed) => Outcome::Matched(
                            node2(Kind::CaseData, ty, list(params)),
                            closed,
                        ),
                        None => Outcome::Failed,
                    },
                }
            } else {
                Outcome::Failed
            },
        },
    }
}

/// A case that is cases in round brackets.
#[verifier::opaque]
pub open spec fn p_case_tuple(s: Seq<char>, pos: int) -> Outcome
    decreases s.len() - pos, 11nat, 0nat,
{
    match lit(s, pos, "("@) {
        None => Outcome::Failed,
        Some(behind) => if ahead(s, pos, ws(s, behind)) {
            match p_list(s, ws(s, behind), true, Item::Case, Separator::Comma) {
                Items::Aborted(text) => Outcome::Aborted(text),
                Items::Matched(params, last) => match token(s, last, ")"@) {
                    Some(closed) => Outcome::Matched(Tree::Node(Kind::CaseTuple, params), closed),
                    None => Outcome::Failed,
                },
            }
        } else {
            Outcome::Failed
        },
    }
}

/// One case: a type with cases in round brackets, cases in round
/// brackets, two expressions with `..` between them, a name, or an
/// expression. They are tried in this order.
#[verifier::opaque]
pub open spec fn p_case_atom(s: Seq<char>, pos: int) -> Outcome
    decreases s.len() - pos, 12nat, 0nat,
{
    let data = p_case_data(s, pos);
    if data !is Failed {
        data
    } else {
        let tuple = p_case_tuple(s, pos);
        if tuple !is Failed {
            tuple
        } else {
            let first = p_expr(s, pos, 0);
            let range = match first {
                Outcome::Matched(from, end) => match spaced(s, end, ".."@) {
                    None => Outcome::Failed,
                    Some(at) => if ahead(s, pos, at) {
                        match p_expr(s, at, 0) {
                            Outcome::Matched(to, last) => Outcome::Matched(
                                node2(Kind::CaseRange, from, to),
                                last,
                            ),
                            o => o,
                        }
                    } else {
                        Outcome::Failed
                    },
                },
                o => o,
            };
            if range !is Failed {
                range
            } else {
                match p_identifier(s, pos) {
                    Some((name, end)) => Outcome::Matched(
                        node1(Kind::CaseParam, Tree::Text(name)),
                        end,
                    ),
                    None => match first {
                        Outcome::Matched(tree, end) => Outcome::Matched(
                            node1(Kind::CaseLiteral, tree),
                            end,
                        ),
                        o => o,
                    },
                }
            }
        }
    }
}

/// The cases behind `|` that follow the case `acc`, as long as there are
/// more.
#[verifier::opaque]
pub open spec fn p_case_post(s: Seq<char>, pos: int, acc: Tree) -> Outcome
    decreases s.len() - pos, 31nat, 0nat,
{
    match spaced(s, pos, "|"@) {
        None => Outcome::Matched(acc, pos),
        Some(from) => if ahead(s, pos, from) {
            match p_list(s, from, true, Item::Case, Separator::Bar) {
                Items::Aborted(text) => Outcome::Aborted(text),
                Items::Matched(more, last) => if more.len() > 0 && ahead(s, pos, last) {
                    p_case_post(s, last, node2(Kind::CaseMulti, acc, list(more)))
                } else {
                    Outcome::Matched(acc, pos)
                },
            }
        } else {
            Outcome::Matched(acc, pos)
        },
    }
}

/// The statements at the start of a block, behind its opening bracket.
/// Where no block starts, this is the empty run that ends at `pos`.
#[verifier::opaque]
pub open spec fn p_block_stats(s: Seq<char>, pos: int, item: Item) -> Items
    decreases s.len() - pos, 4nat, 0nat,
{
    match lit(s, pos, "{"@) {
        None => Items::Matched(Seq::empty(), pos),
        Some(behind) => if ahead(s, pos, ws(s, behind)) {
            p_list(s, ws(s, behind), true, item, Separator::Space)
        } else {
            Items::Matched(Seq::empty(), pos)
        },
    }
}

/// A block: statements between curly brackets, and behind them, if one
/// likes, an expression that is the value of the block.
#[verifier::opaque]
pub open spec fn p_block(s: Seq<char>, pos: int) -> Outcome
    decreases s.len() - pos, 6nat, 0nat,
{
    match p_block_stats(s, pos, Item::Stat) {
        Items::Aborted(text) => Outcome::Aborted(text),
        Items::Matched(stats, end) => if ahead(s, pos, end) {
            match token(s, end, "}"@) {
                Some(closed) => Outcome::Matched(
                    node2(Kind::Block, list(stats), optional(None)),
                    closed,
                ),
                None => p_exp_block(s, pos),
            }
        } else {
            Outcome::Failed
        },
    }
}

/// A block with a value: statements between curly brackets, and behind
/// them an expression.
#[verifier::opaque]
pub open spec fn p_exp_block(s: Seq<char>, pos: int) -> Outcome
    decreases s.len() - pos, 5nat, 0nat,
{
    match p_block_stats(s, pos, Item::Stat) {
        Items::Aborted(text) => Outcome::Aborted(text),
        Items::Matched(stats, end) => if ahead(s, pos, end) {
            match p_expr(s, end, 0) {
                Outcome::Matched(value, last) => match token(s, last, "}"@) {
                    Some(closed) => Outcome::Matched(
                        node2(Kind::Block, list(stats), optional(Some(value))),
                        closed,
                    ),
                    None => Outcome::Failed,
                },
                o => o,
            }
        } else {
            Outcome::Failed
        },
    }
}

/// `return`, an expression and a semicolon: the expression.
#[verifier::opaque]
pub open spec fn p_return_val(s: Seq<char>, pos: int) -> Outcome
    decreases s.len() - pos, 2nat, 0nat,
{
    match lit(s, pos, "return"@) {
        None => Outcome::Failed,
        Some(behind) => if ahead(s, pos, ws(s, behind)) {
            match p_expr(s, ws(s, behind), 0) {
                Outcome::Matched(value, end) => match token(s, end, ";"@) {
                    Some(last) => Outcome::Matched(value, last),
                    None => Outcome::Failed,
                },
                o => o,
            }
        } else {
            Outcome::Failed
        },
    }
}

/// The end of the body of a function: what is its value, and the closing
/// bracket between white space.
pub open spec fn p_fn_block_end(s: Seq<char>, end: int, stats: Seq<Tree>, value: Outcome) -> Outcome {
    match value {
        Outcome::Matched(tree, last) => match spaced(s, last, "}"@) {
            Some(closed) => Outcome::Matched(
                node2(Kind::Block, list(stats), optional(Some(tree))),
                closed,
            ),
            None => Outcome::Failed,
        },
        o => o,
    }
}

/// The body of a function, between white space: statements between curly
/// brackets, none of them a `return`, and behind them, if one likes, an
/// expression or a `return`, which is the value of the function.
#[verifier::opaque]
pub open spec fn p_fn_block(s: Seq<char>, pos: int) -> Outcome
    decreases s.len() - pos, 32nat, 0nat,
{
    let from = ws(s, pos);
    if pos <= from <= s.len() {
        match p_block_stats(s, from, Item::StatNoRet) {
            Items::Aborted(text) => Outcome::Aborted(text),
            Items::Matched(stats, end) => if ahead(s, from, end) {
                let with_expr = p_fn_block_end(s, end, stats, p_expr(s, end, 0));
                if with_expr !is Failed {
                    with_expr
                } else {
                    let with_return = p_fn_block_end(s, end, stats, p_return_val(s, end));
                    if with_return !is Failed {
                        with_return
                    } else {
                        match spaced(s, end, "}"@) {
                            Some(closed) => Outcome::Matched(
                                node2(Kind::Block, list(stats), optional(None)),
                                closed,
                            ),
                            None => Outcome::Failed,
                        }
                    }
                }
            } else {
                Outcome::Failed
            },
        }
    } else {
        Outcome::Failed
    }
}

/// A statement: anything but a `return`, or a `return`.
#[verifier::opaque]
pub open spec fn p_stat(s: Seq<char>, pos: int) -> Outcome
    decreases s.len() - pos, 16nat, 0nat,
{
    match p_stat_noret(s, pos) {
        Outcome::Failed => match p_return_val(s, pos) {
            Outcome::Matched(value, end) => Outcome::Matched(
                node1(Kind::Return, value),
                end,
            ),
            o => o,
        },
        o => o,
    }
}

/// A statement that is no `return`: a definition, a `break`, a loop, a
/// block, a condition, a match, or an expression with a semicolon. They
/// are tried in this order.
#[verifier::opaque]
pub open spec fn p_stat_noret(s: Seq<char>, pos: int) -> Outcome
    decreases s.len() - pos, 15nat, 0nat,
{
    let define = p_define(s, pos);
    if define !is Failed {
        define
    } else {
        let broke = p_break(s, pos);
        if broke !is Failed {
            broke
        } else {
            let looped = p_while(s, pos);
            if looped !is Failed {
                looped
            } else {
                let iterated = p_for(s, pos);
                if iterated !is Failed {
                    iterated
                } else {
                    match p_block(s, pos) {
                        Outcome::Matched(tree, end) => Outcome::Matched(
                            node1(Kind::StatBlock, tree),
                            end,
                        ),
                        Outcome::Aborted(text) => Outcome::Aborted(text),
                        Outcome::Failed => match p_if_stat(s, pos) {
                            Outcome::Matched(tree, end) => Outcome::Matched(
                                node1(Kind::StatIf, tree),
                                end,
                            ),
                            Outcome::Aborted(text) => Outcome::Aborted(text),
                            Outcome::Failed => match p_match(s, pos, true) {
                                Outcome::Matched(tree, end) => Outcome::Matched(
                                    node1(Kind::StatMatch, tree),
                                    end,
                                ),
                                Outcome::Aborted(text) => Outcome::Aborted(text),
                                Outcome::Failed => match p_expr(s, pos, 0) {
                                    Outcome::Matched(tree, end) => match token(s, end, ";"@) {
                                        Some(last) => Outcome::Matched(
                                            node1(Kind::ExprStat, tree),
                                            last,
                                        ),
                                        None => Outcome::Failed,
                                    },
                                    o => o,
                                },
                            },
                        },
                    }
                }
            }
        }
    }
}

/// What a definition binds: a name, `=`, an expression and a semicolon.
#[verifier::opaque]
pub open spec fn p_binding(s: Seq<char>, pos: int, origin: int, mutable: bool) -> Outcome
    decreases s.len() - origin, 1nat, 0nat,
{
    match p_identifier(s, pos) {
        None => Outcome::Failed,
        Some((name, end)) => match spaced(s, end, "="@) {
            None => Outcome::Failed,
            Some(from) => if ahead(s, origin, from) {
                match p_expr(s, from, 0) {
                    Outcome::Matched(value, last) => match token(s, last, ";"@) {
                        Some(done) => Outcome::Matched(
                            node2(Kind::Define(mutable), Tree::Text(name), value),
                            done,
                        ),
                        None => Outcome::Failed,
                    },
                    o => o,
                }
            } else {
                Outcome::Failed
            },
        },
    }
}

/// A definition: `let`, `mut` if the variable may be changed, and what is
/// bound.
#[verifier::opaque]
pub open spec fn p_define(s: Seq<char>, pos: int) -> Outcome
    decreases s.len() - pos, 2nat, 0nat,
{
    match lit(s, pos, "let"@) {
        None => Outcome::Failed,
        Some(behind) => {
            let mutable = match spaced(s, behind, "mut"@) {
                None => Outcome::Failed,
                Some(from) => p_binding(s, from, pos, true),
            };
            match mutable {
                Outcome::Failed => p_binding(s, ws(s, behind), pos, false),
                o => o,
            }
        },
    }
}

/// A `break`, with a value or without.
#[verifier::opaque]
pub open spec fn p_break(s: Seq<char>, pos: int) -> Outcome
    decreases s.len() - pos, 2nat, 0nat,
{
    match lit(s, pos, "break"@) {
        None => Outcome::Failed,
        Some(behind) => {
            let with_value = if ahead(s, pos, ws(s, behind)) {
                match p_expr(s, ws(s, behind), 0) {
                    Outcome::Matched(value, end) => match token(s, end, ";"@) {
                        Some(last) => Outcome::Matched(
                            node1(Kind::Break, optional(Some(value))),
                            last,
                        ),
                        None => Outcome::Failed,
                    },
                    o => o,
                }
            } else {
                Outcome::Failed
            };
            match with_value {
                Outcome::Failed => match token(s, behind, ";"@) {
                    Some(last) => Outcome::Matched(
                        node1(Kind::Break, optional(None)),
                        last,
                    ),
                    None => Outcome::Failed,
                },
                o => o,
            }
        },
    }
}

/// A `while` loop: the keyword, a condition, a block.
#[verifier::opaque]
pub open spec fn p_while(s: Seq<char>, pos: int) -> Outcome
    decreases s.len() - pos, 2nat, 0nat,
{
    match lit(s, pos, "while"@) {
        None => Outcome::Failed,
        Some(behind) => if ahead(s, pos, ws(s, behind)) {
            match p_expr(s, ws(s, behind), 0) {
                Outcome::Matched(condition, end) => if ahead(s, pos, ws(s, end)) {
                    match p_block(s, ws(s, end)) {
                        Outcome::Matched(body, last) => Outcome::Matched(
                            node2(Kind::While, condition, body),
                            last,
                        ),
                        o => o,
                    }
                } else {
                    Outcome::Failed
                },
                o => o,
            }
        } else {
            Outcome::Failed
        },
    }
}

/// A `for` loop: the keyword, one name or more with commas between them,
/// `in`, what is gone through, a block.
#[verifier::opaque]
pub open spec fn p_for(s: Seq<char>, pos: int) -> Outcome
    decreases s.len() - pos, 2nat, 0nat,
{
    match lit(s, pos, "for"@) {
        None => Outcome::Failed,
        Some(behind) => {
            let names = p_names(s, ws(s, behind), true, ","@);
            if names.0.len() == 0 {
                Outcome::Failed
            } else {
                match spaced(s, names.1, "in"@) {
                    None => Outcome::Failed,
                    Some(from) => if ahead(s, pos, from) {
                        match p_expr(s, from, 0) {
                            Outcome::Matched(iter, end) => if ahead(s, pos, ws(s, end)) {
                                match p_block(s, ws(s, end)) {
                                    Outcome::Matched(body, last) => Outcome::Matched(
                                        node3(Kind::For, list(names.0), iter, body),
                                        last,
                                    ),
                                    o => o,
                                }
                            } else {
                                Outcome::Failed
                            },
                            o => o,
                        }
                    } else {
                        Outcome::Failed
                    },
                }
            }
        },
    }
}

/// A function, behind white space: its header and its body.
pub open spec fn p_function(s: Seq<char>, pos: int) -> Outcome {
    match p_fn_header(s, ws(s, pos)) {
        None => Outcome::Failed,
        Some((header, end)) => match p_fn_block(s, end) {
            Outcome::Matched(body, last) => Outcome::Matched(
                node2(Kind::Function, header, body),
                last,
            ),
            o => o,
        },
    }
}

} // verus!
