use vstd::prelude::*;
use vstd::string::{
    StringExecFns,
    StrSliceExecFns,
};
use crate::lang::expr::{
    Enum,
    EnumMember,
    Expr,
    FnArg,
    FnHeader,
    NumType,
    Struct,
    StructMember,
    Trail,
    Trait,
    Type,
};
use crate::lang::syntax::grammar::{
    closing,
    p_bool_lit,
    p_char_lit,
    p_declared,
    p_digits_after,
    p_enum_def,
    p_enum_member,
    p_fn_arg,
    p_fn_header,
    p_num_lit,
    p_number_end,
    p_plain_list,
    p_str_lit,
    p_struct_def,
    p_struct_member,
    p_suffix,
    p_trait,
    p_trait_fns,
    p_typed_name,
    Item,
    Items,
    Outcome,
    in_class,
    is_digit,
    is_ident_part,
    is_ident_start,
    is_lower,
    is_space,
    is_string_part,
    lit,
    p_identifier,
    p_indirect,
    p_names,
    p_path,
    p_type,
    p_types,
    run,
    spaced,
    token,
    ws,
    Class,
};
use crate::lang::syntax::tree::{
    enum_member_tree,
    enum_member_trees,
    enum_tree,
    expr_tree,
    fn_arg_tree,
    fn_arg_trees,
    fn_header_tree,
    fn_header_trees,
    struct_member_tree,
    struct_member_trees,
    struct_tree,
    texts,
    trail_tree,
    trait_tree,
    type_tree,
    type_trees,
    Kind,
    Tree,
};

verus! {

/// The text as characters.
pub fn chars_of(text: &str) -> (r: Vec<char>)
    ensures
        r@ == text@,
{
    let mut r: Vec<char> = Vec::new();
    for c in rest: text.chars()
        invariant
            rest.seq() == text@,
            r@ == rest.seq().take(rest.index() as int),
    {
        r.push(c);
        assert(r@ =~= rest.seq().take(rest.index() + 1));
    }
    assert(r@ =~= text@);
    r
}

fn is_space_char(c: char) -> (r: bool)
    ensures
        r == is_space(c),
{
    c == ' ' || c == '\t' || c == '\n' || c == '\r'
}

fn is_lower_char(c: char) -> (r: bool)
    ensures
        r == is_lower(c),
{
    'a' <= c && c <= 'z'
}

fn is_digit_char(c: char) -> (r: bool)
    ensures
        r == is_digit(c),
{
    '0' <= c && c <= '9'
}

fn is_ident_start_char(c: char) -> (r: bool)
    ensures
        r == is_ident_start(c),
{
    is_lower_char(c) || ('A' <= c && c <= 'Z') || c == '_'
}

fn is_ident_part_char(c: char) -> (r: bool)
    ensures
        r == is_ident_part(c),
{
    is_ident_start_char(c) || is_digit_char(c)
}

fn is_string_part_char(c: char) -> (r: bool)
    ensures
        r == is_string_part(c),
{
    is_ident_part_char(c) || c == ' ' || c == '\n' || c == '\t' || c == '\r' || c == '@' || c
        == '\'' || c == '-' || c == '+' || c == '*' || c == '/' || c == '[' || c == ']' || c == '('
        || c == ')' || c == '{' || c == '}' || c == '?' || c == '!' || c == '.' || c == ','
        || c == ';' || c == ':' || c == '#' || c == '=' || c == '\\' || c == '%' || c == '$'
        || c == '§' || c == '~' || c == '>' || c == '<' || c == '|' || c == '`' || c == '^'
        || c == '°' || c == '€'
}

fn in_class_char(class: &Class, c: char) -> (r: bool)
    ensures
        r == in_class(*class, c),
{
    match class {
        Class::IdentPart => is_ident_part_char(c),
        Class::NumberPart => is_digit_char(c) || c == '_',
        Class::SuffixPart => is_lower_char(c) || is_digit_char(c),
        Class::StringPart => is_string_part_char(c),
    }
}

/// How an attempt to read something at a position ends: with what was
/// read and the position behind it, with nothing, or with a complaint.
pub type Attempt<T> = Result<Option<(T, usize)>, String>;

/// Whether the attempt ended as the grammar says: with something that is
/// the tree in question and ends behind `from` within the text, with
/// nothing, or with the same complaint.
pub open spec fn agrees<T>(
    r: Attempt<T>,
    tree: spec_fn(T) -> Tree,
    o: Outcome,
    from: usize,
    len: nat,
) -> bool {
    match r {
        Ok(Some((item, end))) => o == Outcome::Matched(tree(item), end as int) && from < end
            <= len,
        Ok(None) => o is Failed,
        Err(text) => o == Outcome::Aborted(text@),
    }
}

/// Whether the run that was read is the run that the grammar says.
pub open spec fn agrees_items<T>(
    r: Result<(Vec<T>, usize), String>,
    trees: spec_fn(Seq<T>) -> Seq<Tree>,
    o: Items,
    from: usize,
    len: nat,
) -> bool {
    match r {
        Ok((items, end)) => o == Items::Matched(trees(items@), end as int) && from <= end <= len,
        Err(text) => o == Items::Aborted(text@),
    }
}

/// The run with `front` in front of it.
pub open spec fn joined(front: Seq<Tree>, rest: Items) -> Items {
    match rest {
        Items::Matched(trees, end) => Items::Matched(front + trees, end),
        Items::Aborted(text) => Items::Aborted(text),
    }
}

/// A reference type or a pointer type at `pos`.
pub open spec fn indirect_at(s: Seq<char>, pos: int, reference: bool) -> Option<(Tree, int)> {
    if reference {
        p_indirect(s, pos, "&"@, Kind::TypeRef, Kind::TypeMutRef)
    } else {
        p_indirect(s, pos, "*"@, Kind::TypePtr, Kind::TypeMutPtr)
    }
}

/// The text that is read: as it was given, and as characters.
pub struct Source<'a> {
    text: &'a str,
    chars: Vec<char>,
}

impl<'a> View for Source<'a> {
    type V = Seq<char>;

    closed spec fn view(&self) -> Seq<char> {
        self.chars@
    }
}

impl<'a> Source<'a> {
    /// Both forms of the text hold the same characters.
    #[verifier::type_invariant]
    spec fn wf(&self) -> bool {
        self.text@ == self.chars@
    }

    /// The given text, to be read.
    pub fn new(text: &'a str) -> (r: Self)
        ensures
            r@ == text@,
    {
        Source { text, chars: chars_of(text) }
    }

    /// How many characters the text has.
    pub fn len(&self) -> (r: usize)
        ensures
            r == self@.len(),
    {
        self.chars.len()
    }

    /// The character at `pos`.
    pub fn at(&self, pos: usize) -> (r: char)
        requires
            pos < self@.len(),
        ensures
            r == self@[pos as int],
    {
        self.chars[pos]
    }

    /// Whether the character `c` stands at `pos`.
    pub fn has(&self, pos: usize, c: char) -> (r: bool)
        ensures
            r == (pos < self@.len() && self@[pos as int] == c),
    {
        pos < self.chars.len() && self.chars[pos] == c
    }

    /// The characters from `from` up to `to`, as a text.
    pub fn slice(&self, from: usize, to: usize) -> (r: String)
        requires
            from <= to <= self@.len(),
        ensures
            r@ == self@.subrange(from as int, to as int),
    {
        proof {
            use_type_invariant(self);
        }
        String::from_str(self.text.substring_char(from, to))
    }

    /// Reads `word` at `pos`.
    pub fn lit(&self, pos: usize, word: &str) -> (r: Option<usize>)
        requires
            pos <= self@.len(),
        ensures
            match r {
                Some(end) => lit(self@, pos as int, word@) == Some(end as int) && end == pos
                    + word@.len() && end <= self@.len(),
                None => lit(self@, pos as int, word@) is None,
            },
    {
        let n = word.unicode_len();
        if n > self.chars.len() - pos {
            return None;
        }
        let mut i: usize = 0;
        assert(self.chars@.subrange(pos as int, pos + 0) =~= word@.take(0));
        while i < n
            invariant
                i <= n,
                n == word@.len(),
                pos + n <= self.chars@.len() <= usize::MAX,
                self.chars@.subrange(pos as int, pos + i) == word@.take(i as int),
            decreases n - i,
        {
            if self.chars[pos + i] != word.get_char(i) {
                assert(self.chars@.subrange(pos as int, pos + n)[i as int] != word@[i as int]);
                return None;
            }
            i += 1;
            assert(self.chars@.subrange(pos as int, pos + i) =~= word@.take(i as int));
        }
        assert(word@.take(n as int) =~= word@);
        Some(pos + n)
    }

    /// Skips the white space at `pos`.
    pub fn ws(&self, pos: usize) -> (r: usize)
        requires
            pos <= self@.len(),
        ensures
            r == ws(self@, pos as int),
            pos <= r <= self@.len(),
    {
        let mut p = pos;
        while p < self.chars.len() && is_space_char(self.chars[p])
            invariant
                pos <= p <= self.chars@.len(),
                ws(self@, pos as int) == ws(self@, p as int),
            decreases self.chars@.len() - p,
        {
            p += 1;
        }
        p
    }

    /// Reads `word` behind white space.
    pub fn token(&self, pos: usize, word: &str) -> (r: Option<usize>)
        requires
            pos <= self@.len(),
        ensures
            match r {
                Some(end) => token(self@, pos as int, word@) == Some(end as int) && pos
                    + word@.len() <= end <= self@.len(),
                None => token(self@, pos as int, word@) is None,
            },
    {
        let from = self.ws(pos);
        self.lit(from, word)
    }

    /// Reads `word` between white space.
    pub fn spaced(&self, pos: usize, word: &str) -> (r: Option<usize>)
        requires
            pos <= self@.len(),
        ensures
            match r {
                Some(end) => spaced(self@, pos as int, word@) == Some(end as int) && pos
                    + word@.len() <= end <= self@.len(),
                None => spaced(self@, pos as int, word@) is None,
            },
    {
        let from = self.ws(pos);
        match self.lit(from, word) {
            Some(end) => Some(self.ws(end)),
            None => None,
        }
    }

    /// Skips the run of characters of the class at `pos`.
    pub fn run(&self, pos: usize, class: Class) -> (r: usize)
        requires
            pos <= self@.len(),
        ensures
            r == run(self@, pos as int, class),
            pos <= r <= self@.len(),
    {
        let mut p = pos;
        while p < self.chars.len() && in_class_char(&class, self.chars[p])
            invariant
                pos <= p <= self.chars@.len(),
                run(self@, pos as int, class) == run(self@, p as int, class),
            decreases self.chars@.len() - p,
        {
            p += 1;
        }
        p
    }

    /// Reads an identifier at `pos`.
    pub fn identifier(&self, pos: usize) -> (r: Option<(String, usize)>)
        requires
            pos <= self@.len(),
        ensures
            match r {
                Some((name, end)) => p_identifier(self@, pos as int) == Some((name@, end as int))
                    && pos < end <= self@.len(),
                None => p_identifier(self@, pos as int) is None,
            },
    {
        if pos < self.chars.len() && is_ident_start_char(self.chars[pos]) {
            let end = self.run(pos + 1, Class::IdentPart);
            Some((self.slice(pos, end), end))
        } else {
            None
        }
    }

    /// Reads names with `separator` between them.
    pub fn names(&self, pos: usize, separator: &str) -> (r: (Vec<String>, usize))
        requires
            pos <= self@.len(),
        ensures
            (texts(r.0@), r.1 as int) == p_names(self@, pos as int, true, separator@),
            pos <= r.1 <= self@.len(),
    {
        let mut names: Vec<String> = Vec::new();
        let mut at = pos;
        let ghost whole = p_names(self@, pos as int, true, separator@);
        assert(texts(names@) + whole.0 =~= whole.0);
        loop
            invariant
                pos <= at <= self@.len(),
                names@.len() == 0 ==> at == pos,
                whole == p_names(self@, pos as int, true, separator@),
                whole == (
                    texts(names@) + p_names(self@, at as int, names@.len() == 0, separator@).0,
                    p_names(self@, at as int, names@.len() == 0, separator@).1,
                ),
            ensures
                pos <= at <= self@.len(),
                whole == (texts(names@), at as int),
            decreases self@.len() - at, (if names@.len() == 0 { 1int } else { 0int }),
        {
            let start = if names.len() == 0 {
                at
            } else {
                match self.lit(at, separator) {
                    Some(p) => p,
                    None => {
                        assert(texts(names@) + Seq::<Tree>::empty() =~= texts(names@));
                        break ;
                    },
                }
            };
            let from = self.ws(start);
            let (name, end) = match self.identifier(from) {
                Some(found) => found,
                None => {
                    assert(texts(names@) + Seq::<Tree>::empty() =~= texts(names@));
                    break ;
                },
            };
            let next = self.ws(end);
            let ghost before = names@;
            names.push(name);
            proof {
                let rest = p_names(self@, next as int, false, separator@);
                assert(texts(names@) + rest.0 =~= texts(before) + (seq![Tree::Text(name@)]
                    + rest.0));
            }
            at = next;
        }
        (names, at)
    }

    /// Reads a path at `pos`.
    pub fn path(&self, pos: usize) -> (r: Option<(Trail, usize)>)
        requires
            pos <= self@.len(),
        ensures
            match r {
                Some((path, end)) => p_path(self@, pos as int) == Some(
                    (trail_tree(path), end as int),
                ) && pos < end <= self@.len(),
                None => p_path(self@, pos as int) is None,
            },
    {
        let (head, end) = match self.identifier(pos) {
            Some(found) => found,
            None => {
                return None;
            },
        };
        match self.spaced(end, "::") {
            None => {
                let t = Trail { head, trail: Vec::new() };
                assert(trail_tree(t)->Node_1 =~= seq![Tree::Text(head@)]);
                Some((t, end))
            },
            Some(from) => {
                let (trail, last) = self.names(from, "::");
                Some((Trail { head, trail }, last))
            },
        }
    }

    /// Reads what closes a list in brackets.
    pub fn closing(&self, pos: usize, bracket: &str) -> (r: Option<usize>)
        requires
            pos <= self@.len(),
        ensures
            match r {
                Some(end) => closing(self@, pos as int, bracket@) == Some(end as int) && pos
                    + bracket@.len() <= end <= self@.len(),
                None => closing(self@, pos as int, bracket@) is None,
            },
    {
        proof {
            reveal_strlit(",");
        }
        match self.spaced(pos, ",") {
            Some(behind) => match self.lit(behind, bracket) {
                Some(end) => Some(end),
                None => self.token(pos, bracket),
            },
            None => self.token(pos, bracket),
        }
    }

    /// Reads type annotations with commas between them.
    pub fn types(&self, pos: usize) -> (r: (Vec<Type>, usize))
        requires
            pos <= self@.len(),
        ensures
            (type_trees(r.0@), r.1 as int) == p_types(self@, pos as int, true),
            pos <= r.1 <= self@.len(),
        decreases self@.len() - pos, 3nat,
    {
        let mut items: Vec<Type> = Vec::new();
        let mut at = pos;
        let ghost whole = p_types(self@, pos as int, true);
        assert(type_trees(items@) + whole.0 =~= whole.0);
        loop
            invariant
                pos <= at <= self@.len(),
                items@.len() == 0 ==> at == pos,
                whole == p_types(self@, pos as int, true),
                whole == (
                    type_trees(items@) + p_types(self@, at as int, items@.len() == 0).0,
                    p_types(self@, at as int, items@.len() == 0).1,
                ),
            ensures
                pos <= at <= self@.len(),
                whole == (type_trees(items@), at as int),
            decreases self@.len() - at, (if items@.len() == 0 { 1int } else { 0int }),
        {
            let start = if items.len() == 0 {
                at
            } else {
                match self.lit(at, ",") {
                    Some(p) => p,
                    None => {
                        assert(type_trees(items@) + Seq::<Tree>::empty() =~= type_trees(items@));
                        break ;
                    },
                }
            };
            let from = self.ws(start);
            let (item, end) = match self.ty(from) {
                Some(found) => found,
                None => {
                    assert(type_trees(items@) + Seq::<Tree>::empty() =~= type_trees(items@));
                    break ;
                },
            };
            let next = self.ws(end);
            let ghost before = items@;
            let ghost tree = type_tree(item);
            items.push(item);
            proof {
                let rest = p_types(self@, next as int, false);
                assert(type_trees(items@) + rest.0 =~= type_trees(before) + (seq![tree] + rest.0));
            }
            at = next;
        }
        (items, at)
    }

    /// Reads a reference or pointer type: `sign` says which.
    fn indirect(&self, pos: usize, reference: bool) -> (r: Option<(Type, usize)>)
        requires
            pos <= self@.len(),
        ensures
            match r {
                Some((ty, end)) => indirect_at(self@, pos as int, reference) == Some(
                    (type_tree(ty), end as int),
                ) && pos < end <= self@.len(),
                None => indirect_at(self@, pos as int, reference) is None,
            },
        decreases self@.len() - pos, 0nat,
    {
        proof {
            reveal_strlit("&");
            reveal_strlit("*");
            reveal_strlit("mut");
        }
        let sign = if reference {
            "&"
        } else {
            "*"
        };
        let behind = match self.lit(pos, sign) {
            Some(behind) => behind,
            None => {
                return None;
            },
        };
        match self.spaced(behind, "mut") {
            Some(from) => match self.ty(from) {
                Some((inner, end)) => {
                    return Some(
                        (
                            if reference {
                                Type::MutRef(Box::new(inner))
                            } else {
                                Type::MutPtr(Box::new(inner))
                            },
                            end,
                        ),
                    );
                },
                None => {},
            },
            None => {},
        }
        let from = self.ws(behind);
        match self.ty(from) {
            Some((inner, end)) => Some(
                (
                    if reference {
                        Type::Ref(Box::new(inner))
                    } else {
                        Type::Ptr(Box::new(inner))
                    },
                    end,
                ),
            ),
            None => None,
        }
    }

    /// Reads a type annotation at `pos`.
    pub fn ty(&self, pos: usize) -> (r: Option<(Type, usize)>)
        requires
            pos <= self@.len(),
        ensures
            match r {
                Some((ty, end)) => p_type(self@, pos as int) == Some((type_tree(ty), end as int))
                    && pos < end <= self@.len(),
                None => p_type(self@, pos as int) is None,
            },
        decreases self@.len() - pos, 2nat,
    {
        proof {
            reveal_strlit("()");
            reveal_strlit("(");
            reveal_strlit(")");
        }
        match self.lit(pos, "()") {
            Some(end) => {
                return Some((Type::Unit, end));
            },
            None => {},
        }
        match self.lit(pos, "(") {
            Some(behind) => {
                let from = self.ws(behind);
                let (items, last) = self.types(from);
                if items.len() > 0 {
                    match self.closing(last, ")") {
                        Some(end) => {
                            return Some((Type::Tuple(items), end));
                        },
                        None => {},
                    }
                }
            },
            None => {},
        }
        match self.indirect(pos, true) {
            Some(found) => {
                return Some(found);
            },
            None => {},
        }
        match self.indirect(pos, false) {
            Some(found) => {
                return Some(found);
            },
            None => {},
        }
        match self.path(pos) {
            Some((path, end)) => Some((Type::Plain(path), end)),
            None => None,
        }
    }

    /// Reads a variant of an enum declaration.
    pub fn enum_member(&self, pos: usize) -> (r: Option<(EnumMember, usize)>)
        requires
            pos <= self@.len(),
        ensures
            match r {
                Some((member, end)) => p_enum_member(self@, pos as int) == Some(
                    (enum_member_tree(member), end as int),
                ) && pos < end <= self@.len(),
                None => p_enum_member(self@, pos as int) is None,
            },
    {
        proof {
            reveal_strlit("(");
            reveal_strlit(")");
        }
        let (name, end) = match self.identifier(pos) {
            Some(found) => found,
            None => {
                return None;
            },
        };
        match self.spaced(end, "(") {
            Some(from) => {
                let (args, last) = self.types(from);
                match self.token(last, ")") {
                    Some(closed) => {
                        return Some((EnumMember { name, args }, closed));
                    },
                    None => {},
                }
            },
            None => {},
        }
        let member = EnumMember { name, args: Vec::new() };
        assert(type_trees(member.args@) =~= Seq::<Tree>::empty());
        Some((member, end))
    }

    /// Reads a name, a colon and a type.
    fn typed_name(&self, pos: usize) -> (r: Option<(String, Type, usize)>)
        requires
            pos <= self@.len(),
        ensures
            match r {
                Some((name, ty, end)) => p_typed_name(self@, pos as int) == Some(
                    (name@, type_tree(ty), end as int),
                ) && pos < end <= self@.len(),
                None => p_typed_name(self@, pos as int) is None,
            },
    {
        proof {
            reveal_strlit(":");
        }
        let (name, end) = match self.identifier(pos) {
            Some(found) => found,
            None => {
                return None;
            },
        };
        let from = match self.spaced(end, ":") {
            Some(from) => from,
            None => {
                return None;
            },
        };
        match self.ty(from) {
            Some((ty, last)) => Some((name, ty, last)),
            None => None,
        }
    }

    /// Reads a field of a struct declaration.
    pub fn struct_member(&self, pos: usize) -> (r: Option<(StructMember, usize)>)
        requires
            pos <= self@.len(),
        ensures
            match r {
                Some((member, end)) => p_struct_member(self@, pos as int) == Some(
                    (struct_member_tree(member), end as int),
                ) && pos < end <= self@.len(),
                None => p_struct_member(self@, pos as int) is None,
            },
    {
        match self.typed_name(pos) {
            Some((name, ty, end)) => Some((StructMember { name, ty }, end)),
            None => None,
        }
    }

    /// Reads a parameter of a function.
    pub fn fn_arg(&self, pos: usize) -> (r: Option<(FnArg, usize)>)
        requires
            pos <= self@.len(),
        ensures
            match r {
                Some((arg, end)) => p_fn_arg(self@, pos as int) == Some(
                    (fn_arg_tree(arg), end as int),
                ) && pos < end <= self@.len(),
                None => p_fn_arg(self@, pos as int) is None,
            },
    {
        proof {
            reveal_strlit("mut");
        }
        match self.lit(pos, "mut") {
            Some(behind) => {
                let from = self.ws(behind);
                match self.typed_name(from) {
                    Some((name, ty, end)) => {
                        return Some((FnArg { name, ty, md: true }, end));
                    },
                    None => {},
                }
            },
            None => {},
        }
        match self.typed_name(pos) {
            Some((name, ty, end)) => Some((FnArg { name, ty, md: false }, end)),
            None => None,
        }
    }

    /// Reads variants of an enum declaration with commas between them.
    pub fn enum_members(&self, pos: usize) -> (r: (Vec<EnumMember>, usize))
        requires
            pos <= self@.len(),
        ensures
            (enum_member_trees(r.0@), r.1 as int) == p_plain_list(self@, pos as int, true, Item::EnumMember),
            pos <= r.1 <= self@.len(),
    {
        proof {
            reveal_strlit(",");
        }
        let mut items: Vec<EnumMember> = Vec::new();
        let mut at = pos;
        let ghost whole = p_plain_list(self@, pos as int, true, Item::EnumMember);
        assert(enum_member_trees(items@) + whole.0 =~= whole.0);
        loop
            invariant
                pos <= at <= self@.len(),
                items@.len() == 0 ==> at == pos,
                whole == p_plain_list(self@, pos as int, true, Item::EnumMember),
                whole == (
                    enum_member_trees(items@) + p_plain_list(
                        self@,
                        at as int,
                        items@.len() == 0,
                        Item::EnumMember,
                    ).0,
                    p_plain_list(self@, at as int, items@.len() == 0, Item::EnumMember).1,
                ),
            ensures
                pos <= at <= self@.len(),
                whole == (enum_member_trees(items@), at as int),
            decreases self@.len() - at, (if items@.len() == 0 { 1int } else { 0int }),
        {
            let start = if items.len() == 0 {
                at
            } else {
                match self.lit(at, ",") {
                    Some(p) => p,
                    None => {
                        assert(enum_member_trees(items@) + Seq::<Tree>::empty() =~= enum_member_trees(items@));
                        break ;
                    },
                }
            };
            let from = self.ws(start);
            let (item, end) = match self.enum_member(from) {
                Some(found) => found,
                None => {
                    assert(enum_member_trees(items@) + Seq::<Tree>::empty() =~= enum_member_trees(items@));
                    break ;
                },
            };
            let next = self.ws(end);
            let ghost before = items@;
            let ghost tree = enum_member_tree(item);
            items.push(item);
            proof {
                let rest = p_plain_list(self@, next as int, false, Item::EnumMember);
                assert(enum_member_trees(items@) + rest.0 =~= enum_member_trees(before) + (seq![tree] + rest.0));
            }
            at = next;
        }
        (items, at)
    }

    /// Reads fields of a struct declaration with commas between them.
    pub fn struct_members(&self, pos: usize) -> (r: (Vec<StructMember>, usize))
        requires
            pos <= self@.len(),
        ensures
            (struct_member_trees(r.0@), r.1 as int) == p_plain_list(self@, pos as int, true, Item::StructMember),
            pos <= r.1 <= self@.len(),
    {
        proof {
            reveal_strlit(",");
        }
        let mut items: Vec<StructMember> = Vec::new();
        let mut at = pos;
        let ghost whole = p_plain_list(self@, pos as int, true, Item::StructMember);
        assert(struct_member_trees(items@) + whole.0 =~= whole.0);
        loop
            invariant
                pos <= at <= self@.len(),
                items@.len() == 0 ==> at == pos,
                whole == p_plain_list(self@, pos as int, true, Item::StructMember),
                whole == (
                    struct_member_trees(items@) + p_plain_list(
                        self@,
                        at as int,
                        items@.len() == 0,
                        Item::StructMember,
                    ).0,
                    p_plain_list(self@, at as int, items@.len() == 0, Item::StructMember).1,
                ),
            ensures
                pos <= at <= self@.len(),
                whole == (struct_member_trees(items@), at as int),
            decreases self@.len() - at, (if items@.len() == 0 { 1int } else { 0int }),
        {
            let start = if items.len() == 0 {
                at
            } else {
                match self.lit(at, ",") {
                    Some(p) => p,
                    None => {
                        assert(struct_member_trees(items@) + Seq::<Tree>::empty() =~= struct_member_trees(items@));
                        break ;
                    },
                }
            };
            let from = self.ws(start);
            let (item, end) = match self.struct_member(from) {
                Some(found) => found,
                None => {
                    assert(struct_member_trees(items@) + Seq::<Tree>::empty() =~= struct_member_trees(items@));
                    break ;
                },
            };
            let next = self.ws(end);
            let ghost before = items@;
            let ghost tree = struct_member_tree(item);
            items.push(item);
            proof {
                let rest = p_plain_list(self@, next as int, false, Item::StructMember);
                assert(struct_member_trees(items@) + rest.0 =~= struct_member_trees(before) + (seq![tree] + rest.0));
            }
            at = next;
        }
        (items, at)
    }

    /// Reads parameters of a function with commas between them.
    pub fn fn_args(&self, pos: usize) -> (r: (Vec<FnArg>, usize))
        requires
            pos <= self@.len(),
        ensures
            (fn_arg_trees(r.0@), r.1 as int) == p_plain_list(self@, pos as int, true, Item::FnArg),
            pos <= r.1 <= self@.len(),
    {
        proof {
            reveal_strlit(",");
        }
        let mut items: Vec<FnArg> = Vec::new();
        let mut at = pos;
        let ghost whole = p_plain_list(self@, pos as int, true, Item::FnArg);
        assert(fn_arg_trees(items@) + whole.0 =~= whole.0);
        loop
            invariant
                pos <= at <= self@.len(),
                items@.len() == 0 ==> at == pos,
                whole == p_plain_list(self@, pos as int, true, Item::FnArg),
                whole == (
                    fn_arg_trees(items@) + p_plain_list(
                        self@,
                        at as int,
                        items@.len() == 0,
                        Item::FnArg,
                    ).0,
                    p_plain_list(self@, at as int, items@.len() == 0, Item::FnArg).1,
                ),
            ensures
                pos <= at <= self@.len(),
                whole == (fn_arg_trees(items@), at as int),
            decreases self@.len() - at, (if items@.len() == 0 { 1int } else { 0int }),
        {
            let start = if items.len() == 0 {
                at
            } else {
                match self.lit(at, ",") {
                    Some(p) => p,
                    None => {
                        assert(fn_arg_trees(items@) + Seq::<Tree>::empty() =~= fn_arg_trees(items@));
                        break ;
                    },
                }
            };
            let from = self.ws(start);
            let (item, end) = match self.fn_arg(from) {
                Some(found) => found,
                None => {
                    assert(fn_arg_trees(items@) + Seq::<Tree>::empty() =~= fn_arg_trees(items@));
                    break ;
                },
            };
            let next = self.ws(end);
            let ghost before = items@;
            let ghost tree = fn_arg_tree(item);
            items.push(item);
            proof {
                let rest = p_plain_list(self@, next as int, false, Item::FnArg);
                assert(fn_arg_trees(items@) + rest.0 =~= fn_arg_trees(before) + (seq![tree] + rest.0));
            }
            at = next;
        }
        (items, at)
    }

    /// Reads the header of a function.
    pub fn fn_header(&self, pos: usize) -> (r: Option<(FnHeader, usize)>)
        requires
            pos <= self@.len(),
        ensures
            match r {
                Some((header, end)) => p_fn_header(self@, pos as int) == Some(
                    (fn_header_tree(header), end as int),
                ) && pos < end <= self@.len(),
                None => p_fn_header(self@, pos as int) is None,
            },
    {
        proof {
            reveal_strlit("fn");
            reveal_strlit("(");
            reveal_strlit(")");
            reveal_strlit("->");
        }
        let behind = match self.lit(pos, "fn") {
            Some(behind) => behind,
            None => {
                return None;
            },
        };
        let (name, end) = match self.identifier(self.ws(behind)) {
            Some(found) => found,
            None => {
                return None;
            },
        };
        let from = match self.token(end, "(") {
            Some(from) => from,
            None => {
                return None;
            },
        };
        let (args, last) = self.fn_args(from);
        let closed = match self.lit(last, ")") {
            Some(closed) => closed,
            None => {
                return None;
            },
        };
        match self.spaced(closed, "->") {
            Some(at) => match self.ty(at) {
                Some((ty, done)) => {
                    return Some((FnHeader { name, args, ret_val: Some(ty) }, done));
                },
                None => {},
            },
            None => {},
        }
        Some((FnHeader { name, args, ret_val: None }, closed))
    }

    /// Reads function headers, each with a semicolon behind it.
    pub fn trait_fns(&self, pos: usize) -> (r: (Vec<FnHeader>, usize))
        requires
            pos <= self@.len(),
        ensures
            (fn_header_trees(r.0@), r.1 as int) == p_trait_fns(self@, pos as int, true),
            pos <= r.1 <= self@.len(),
    {
        proof {
            reveal_strlit(";");
        }
        let mut items: Vec<FnHeader> = Vec::new();
        let mut at = pos;
        let ghost whole = p_trait_fns(self@, pos as int, true);
        assert(fn_header_trees(items@) + whole.0 =~= whole.0);
        loop
            invariant
                pos <= at <= self@.len(),
                items@.len() == 0 ==> at == pos,
                whole == p_trait_fns(self@, pos as int, true),
                whole == (
                    fn_header_trees(items@) + p_trait_fns(self@, at as int, items@.len() == 0).0,
                    p_trait_fns(self@, at as int, items@.len() == 0).1,
                ),
            ensures
                pos <= at <= self@.len(),
                whole == (fn_header_trees(items@), at as int),
            decreases self@.len() - at, (if items@.len() == 0 { 1int } else { 0int }),
        {
            let start = if items.len() == 0 {
                at
            } else {
                self.ws(at)
            };
            let from = self.ws(start);
            let (item, end) = match self.fn_header(from) {
                Some(found) => found,
                None => {
                    assert(fn_header_trees(items@) + Seq::<Tree>::empty() =~= fn_header_trees(
                        items@,
                    ));
                    break ;
                },
            };
            let next = match self.spaced(end, ";") {
                Some(next) => next,
                None => {
                    assert(fn_header_trees(items@) + Seq::<Tree>::empty() =~= fn_header_trees(
                        items@,
                    ));
                    break ;
                },
            };
            let ghost before = items@;
            let ghost tree = fn_header_tree(item);
            items.push(item);
            proof {
                let rest = p_trait_fns(self@, next as int, false);
                assert(fn_header_trees(items@) + rest.0 =~= fn_header_trees(before) + (seq![tree]
                    + rest.0));
            }
            at = next;
        }
        (items, at)
    }

    /// Reads what a declaration with a body starts with: the keyword, the
    /// name and the opening bracket.
    fn declared(&self, pos: usize, keyword: &str) -> (r: Option<(String, usize)>)
        requires
            pos <= self@.len(),
            keyword@.len() > 0,
        ensures
            match r {
                Some((name, inside)) => p_declared(self@, pos as int, keyword@) == Some(
                    (name@, inside as int),
                ) && pos < inside <= self@.len(),
                None => p_declared(self@, pos as int, keyword@) is None,
            },
    {
        proof {
            reveal_strlit("{");
        }
        let from = match self.spaced(pos, keyword) {
            Some(from) => from,
            None => {
                return None;
            },
        };
        let (name, end) = match self.identifier(from) {
            Some(found) => found,
            None => {
                return None;
            },
        };
        match self.spaced(end, "{") {
            Some(inside) => Some((name, inside)),
            None => None,
        }
    }

    /// Reads an enum declaration.
    pub fn enum_def(&self, pos: usize) -> (r: Option<(Enum, usize)>)
        requires
            pos <= self@.len(),
        ensures
            match r {
                Some((e, end)) => p_enum_def(self@, pos as int) == Some(
                    (enum_tree(e), end as int),
                ) && pos < end <= self@.len(),
                None => p_enum_def(self@, pos as int) is None,
            },
    {
        proof {
            reveal_strlit("enum");
            reveal_strlit("}");
        }
        let (name, inside) = match self.declared(pos, "enum") {
            Some(found) => found,
            None => {
                return None;
            },
        };
        let (m, last) = self.enum_members(inside);
        match self.closing(last, "}") {
            Some(closed) => Some((Enum { name, m }, self.ws(closed))),
            None => None,
        }
    }

    /// Reads a struct declaration.
    pub fn struct_def(&self, pos: usize) -> (r: Option<(Struct, usize)>)
        requires
            pos <= self@.len(),
        ensures
            match r {
                Some((s, end)) => p_struct_def(self@, pos as int) == Some(
                    (struct_tree(s), end as int),
                ) && pos < end <= self@.len(),
                None => p_struct_def(self@, pos as int) is None,
            },
    {
        proof {
            reveal_strlit("struct");
            reveal_strlit("}");
        }
        let (name, inside) = match self.declared(pos, "struct") {
            Some(found) => found,
            None => {
                return None;
            },
        };
        let (m, last) = self.struct_members(inside);
        match self.closing(last, "}") {
            Some(closed) => Some((Struct { name, m }, self.ws(closed))),
            None => None,
        }
    }

    /// Reads a trait declaration.
    pub fn trait_def(&self, pos: usize) -> (r: Option<(Trait, usize)>)
        requires
            pos <= self@.len(),
        ensures
            match r {
                Some((t, end)) => p_trait(self@, pos as int) == Some((trait_tree(t), end as int))
                    && pos < end <= self@.len(),
                None => p_trait(self@, pos as int) is None,
            },
    {
        proof {
            reveal_strlit("trait");
            reveal_strlit("}");
        }
        let (name, inside) = match self.declared(pos, "trait") {
            Some(found) => found,
            None => {
                return None;
            },
        };
        let (fns, last) = self.trait_fns(inside);
        match self.lit(last, "}") {
            Some(closed) => Some((Trait { name, fns }, self.ws(closed))),
            None => None,
        }
    }

    /// Reads at least one digit behind `mark`.
    fn digits_after(&self, pos: usize, mark: &str) -> (r: Option<usize>)
        requires
            pos <= self@.len(),
        ensures
            match r {
                Some(end) => p_digits_after(self@, pos as int, mark@) == Some(end as int) && pos
                    < end <= self@.len(),
                None => p_digits_after(self@, pos as int, mark@) is None,
            },
    {
        match self.lit(pos, mark) {
            Some(from) => {
                let end = self.run(from, Class::NumberPart);
                if end > from {
                    Some(end)
                } else {
                    None
                }
            },
            None => None,
        }
    }

    /// Reads the suffix of a number and makes the number of it.
    fn number_end(&self, from: usize, end: usize, float: bool) -> (r: Attempt<Expr>)
        requires
            from < end <= self@.len(),
        ensures
            agrees(
                r,
                |e: Expr| expr_tree(e),
                p_number_end(self@, self@.subrange(from as int, end as int), end as int, float),
                from,
                self@.len(),
            ),
    {
        let suffix_end = if end < self.len() && is_lower_char(self.at(end)) {
            self.run(end + 1, Class::SuffixPart)
        } else {
            end
        };
        let suffix = self.slice(end, suffix_end);
        assert(suffix@ =~= p_suffix(self@, end as int).0);
        match NumType::parse(suffix.as_str()) {
            Ok(ty) => {
                let text = self.slice(from, end);
                if float {
                    Ok(Some((Expr::FloatLit(text, ty), suffix_end)))
                } else {
                    Ok(Some((Expr::NumLit(text, ty), suffix_end)))
                }
            },
            Err(complaint) => Err(complaint),
        }
    }

    /// Reads a number.
    pub fn num_lit(&self, pos: usize) -> (r: Attempt<Expr>)
        requires
            pos <= self@.len(),
        ensures
            agrees(r, |e: Expr| expr_tree(e), p_num_lit(self@, pos as int), pos, self@.len()),
    {
        proof {
            reveal_strlit(".");
            reveal_strlit("e");
            reveal_strlit("e-");
            reveal_strlit("e+");
        }
        let whole = self.run(pos, Class::NumberPart);
        match self.digits_after(whole, ".") {
            Some(fraction) => {
                let exponent = match self.digits_after(fraction, "e-") {
                    Some(end) => Some(end),
                    None => match self.digits_after(fraction, "e+") {
                        Some(end) => Some(end),
                        None => self.digits_after(fraction, "e"),
                    },
                };
                match exponent {
                    Some(end) => self.number_end(pos, end, true),
                    None => self.number_end(pos, fraction, true),
                }
            },
            None => {
                let exponent = match self.digits_after(whole, "e") {
                    Some(end) => Some(end),
                    None => match self.digits_after(whole, "e-") {
                        Some(end) => Some(end),
                        None => self.digits_after(whole, "e+"),
                    },
                };
                match exponent {
                    Some(end) => self.number_end(pos, end, true),
                    None => if whole > pos {
                        self.number_end(pos, whole, false)
                    } else {
                        Ok(None)
                    },
                }
            },
        }
    }

    /// Reads a string.
    pub fn str_lit(&self, pos: usize) -> (r: Option<(Expr, usize)>)
        requires
            pos <= self@.len(),
        ensures
            match r {
                Some((e, end)) => p_str_lit(self@, pos as int) == Some((expr_tree(e), end as int))
                    && pos < end <= self@.len(),
                None => p_str_lit(self@, pos as int) is None,
            },
    {
        proof {
            reveal_strlit("\"");
        }
        let from = match self.lit(pos, "\"") {
            Some(from) => from,
            None => {
                return None;
            },
        };
        let inner = self.run(from, Class::StringPart);
        match self.lit(inner, "\"") {
            Some(end) => Some((Expr::Literal(self.slice(from, inner)), end)),
            None => None,
        }
    }

    /// Reads `true` or `false`.
    pub fn bool_lit(&self, pos: usize) -> (r: Option<(Expr, usize)>)
        requires
            pos <= self@.len(),
        ensures
            match r {
                Some((e, end)) => p_bool_lit(self@, pos as int) == Some((expr_tree(e), end as int))
                    && pos < end <= self@.len(),
                None => p_bool_lit(self@, pos as int) is None,
            },
    {
        proof {
            reveal_strlit("true");
            reveal_strlit("false");
        }
        match self.lit(pos, "true") {
            Some(end) => {
                return Some((Expr::BoolLit(true), end));
            },
            None => {},
        }
        match self.lit(pos, "false") {
            Some(end) => Some((Expr::BoolLit(false), end)),
            None => None,
        }
    }

    /// Reads a character between single quotes.
    pub fn char_lit(&self, pos: usize) -> (r: Option<(Expr, usize)>)
        requires
            pos <= self@.len(),
        ensures
            match r {
                Some((e, end)) => p_char_lit(self@, pos as int) == Some((expr_tree(e), end as int))
                    && pos < end <= self@.len(),
                None => p_char_lit(self@, pos as int) is None,
            },
    {
        if self.len() - pos >= 3 && self.at(pos) == '\'' && '!' <= self.at(pos + 1) && self.at(
            pos + 1,
        ) <= '~' && self.at(pos + 2) == '\'' {
            Some((Expr::CharLit(self.at(pos + 1)), pos + 3))
        } else {
            None
        }
    }
}

} // verus!
