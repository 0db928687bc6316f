use ferrum::lang::expr::{Block, Expr, If, MatchCase, NumType, Stat, Type};
use ferrum::lang::syntax::parser::{enum_def, fn_block, function, struct_def, tr, SyntaxError};

/// The expression that the text is, read as the value of a definition.
fn value(text: &str) -> Expr {
    let mut block = fn_block(&format!("{{ let v = {}; }}", text)).unwrap();
    assert_eq!(block.content.len(), 1);
    assert!(block.return_value.is_none());
    match block.content.remove(0) {
        Stat::Define(name, value, false) if name == "v" => *value,
        other => panic!("unexpected statement {:?}", other),
    }
}

fn shown(text: &str) -> String {
    format!("{:?}", value(text))
}

fn path(name: &str) -> String {
    format!("Path(Trail {{ head: {:?}, trail: [] }})", name)
}

fn num(text: &str) -> String {
    format!("NumLit({:?}, Unspecified)", text)
}

#[test]
fn struct_declaration() {
    let text = "
        struct MyData {
            name: String,
            len: u32,
        }
    ";
    let s = struct_def(text).unwrap();
    assert_eq!(
        format!("{:?}", s),
        "Struct { name: \"MyData\", m: [StructMember { name: \"name\", ty: Plain(Trail { head: \
         \"String\", trail: [] }) }, StructMember { name: \"len\", ty: Plain(Trail { head: \
         \"u32\", trail: [] }) }] }"
    );
    assert_eq!(struct_def("struct E {}").unwrap().m.len(), 0);
    assert_eq!(struct_def("struct P { x: u8 }").unwrap().m.len(), 1);
    assert!(matches!(struct_def("struct P { x: u8 } x"), Err(SyntaxError::Mismatch)));
    assert!(matches!(struct_def("struct P { x u8 }"), Err(SyntaxError::Mismatch)));
    assert!(matches!(struct_def("struct { x: u8 }"), Err(SyntaxError::Mismatch)));
    assert!(matches!(struct_def(""), Err(SyntaxError::Mismatch)));
}

#[test]
fn enum_declaration() {
    let text = "
        enum Option {
            Some(Data),
            None
        }
    ";
    let e = enum_def(text).unwrap();
    assert_eq!(
        format!("{:?}", e),
        "Enum { name: \"Option\", m: [EnumMember { name: \"Some\", args: [Plain(Trail { head: \
         \"Data\", trail: [] })] }, EnumMember { name: \"None\", args: [] }] }"
    );
    let pair = enum_def("enum E { A(u8, &mut std::vec::Vec), B(), }").unwrap();
    assert_eq!(pair.m.len(), 2);
    assert_eq!(pair.m[0].args.len(), 2);
    assert_eq!(
        format!("{:?}", pair.m[0].args[1]),
        "MutRef(Plain(Trail { head: \"std\", trail: [\"vec\", \"Vec\"] }))"
    );
    assert!(pair.m[1].args.is_empty());
    assert!(matches!(enum_def("enum E { A(u8 }"), Err(SyntaxError::Mismatch)));
}

#[test]
fn trait_declaration() {
    let text = "
        trait Mul {
            fn mul(lhs: f32, rhs: f32) -> f32;
            fn mul_assign(lhs: &mut f32, rhs: f32);
        }
    ";
    let t = tr(text).unwrap();
    assert_eq!(t.name, "Mul");
    assert_eq!(t.fns.len(), 2);
    assert_eq!(t.fns[0].name, "mul");
    assert_eq!(t.fns[0].args.len(), 2);
    assert_eq!(t.fns[0].args[0].name, "lhs");
    assert!(!t.fns[0].args[0].md);
    assert!(matches!(&t.fns[0].ret_val, Some(Type::Plain(p)) if p.head == "f32"));
    assert_eq!(t.fns[1].name, "mul_assign");
    assert!(matches!(&t.fns[1].args[0].ty, Type::MutRef(_)));
    assert!(t.fns[1].ret_val.is_none());
    assert_eq!(tr("trait T {}").unwrap().fns.len(), 0);
    assert!(matches!(tr("trait T { fn f() }"), Err(SyntaxError::Mismatch)));
}

#[test]
fn types() {
    let s = struct_def(
        "struct S { a: (), b: (u8, u16), c: (u8,), d: &x, e: *mut y, f: *z, g: & mut w, h: a::b }",
    )
    .unwrap();
    let shown: Vec<String> = s.m.iter().map(|m| format!("{:?}", m.ty)).collect();
    assert_eq!(shown[0], "Unit");
    assert_eq!(
        shown[1],
        "Tuple([Plain(Trail { head: \"u8\", trail: [] }), Plain(Trail { head: \"u16\", trail: [] })])"
    );
    assert_eq!(shown[2], "Tuple([Plain(Trail { head: \"u8\", trail: [] })])");
    assert_eq!(shown[3], "Ref(Plain(Trail { head: \"x\", trail: [] }))");
    assert_eq!(shown[4], "MutPtr(Plain(Trail { head: \"y\", trail: [] }))");
    assert_eq!(shown[5], "Ptr(Plain(Trail { head: \"z\", trail: [] }))");
    assert_eq!(shown[6], "MutRef(Plain(Trail { head: \"w\", trail: [] }))");
    assert_eq!(shown[7], "Plain(Trail { head: \"a\", trail: [\"b\"] })");
}

#[test]
fn type_that_starts_with_mut_is_taken_for_mutable() {
    let s = struct_def("struct S { a: &mutable }").unwrap();
    assert_eq!(
        format!("{:?}", s.m[0].ty),
        "MutRef(Plain(Trail { head: \"able\", trail: [] }))"
    );
}

#[test]
fn function_with_everything() {
    let text = r#"
        fn foo(a: f32, mut b: &mut f32) -> (std::string::String, u32) {
            *b *= a;
            let len = *b;
            let ty = MyStruct { name: "Some", len };

            match ty {
                MyStruct("Hello World!", Some((num, 32))) => print("Hello World!")
                MyStruct(name, 13) => print("{} = 13", name)
                a => print("Anything goes {}", a)
            };

            (ty.to_string(), 3)
        }
    "#;
    let f = function(text).unwrap();
    assert_eq!(f.header.name, "foo");
    assert_eq!(f.header.args.len(), 2);
    assert_eq!(f.header.args[1].name, "b");
    assert!(f.header.args[1].md);
    assert!(matches!(&f.header.ret_val, Some(Type::Tuple(items)) if items.len() == 2));
    assert_eq!(f.body.content.len(), 4);
    assert_eq!(
        format!("{:?}", f.body.content[0]),
        format!("ExprStat(AssignMul(Deref({}), {}))", path("b"), path("a"))
    );
    assert_eq!(
        format!("{:?}", f.body.content[1]),
        format!("Define(\"len\", Deref({}), false)", path("b"))
    );
    assert_eq!(
        format!("{:?}", f.body.content[2]),
        format!(
            "Define(\"ty\", StructInit(Plain(Trail {{ head: \"MyStruct\", trail: [] }}), \
             [(\"name\", Literal(\"Some\")), (\"len\", {})]), false)",
            path("len")
        )
    );
    match &f.body.content[3] {
        Stat::ExprStat(Expr::Match(m)) => {
            assert_eq!(format!("{:?}", m.expr), path("ty"));
            assert_eq!(m.cases.len(), 3);
            assert_eq!(
                format!("{:?}", m.cases[0].case),
                format!(
                    "Data(Plain(Trail {{ head: \"MyStruct\", trail: [] }}), [Literal(Literal(\
                     \"Hello World!\")), Data(Plain(Trail {{ head: \"Some\", trail: [] }}), \
                     [Tuple([Param(\"num\"), Literal({})])])])",
                    num("32")
                )
            );
            assert!(matches!(&m.cases[2].case, MatchCase::Param(name) if name == "a"));
            assert_eq!(
                format!("{:?}", m.cases[2].block),
                format!("Call({}, [Literal(\"Anything goes {{}}\"), {}])", path("print"), path("a"))
            );
        },
        other => panic!("unexpected statement {:?}", other),
    }
    assert_eq!(
        format!("{:?}", f.body.return_value.unwrap()),
        format!("Tuple([Call(DotOp({}, \"to_string\"), []), {}])", path("ty"), num("3"))
    );
}

#[test]
fn function_without_result_type_or_value() {
    let f = function("fn f() {}").unwrap();
    assert!(f.header.args.is_empty());
    assert!(f.header.ret_val.is_none());
    assert!(f.body.content.is_empty());
    assert!(f.body.return_value.is_none());
    let g = function("fn g(x: u8) { return x; }").unwrap();
    assert_eq!(format!("{:?}", g.body.return_value.unwrap()), path("x"));
    assert!(matches!(function("fn f() {} fn g() {}"), Err(SyntaxError::Mismatch)));
    assert!(matches!(function("fn f()"), Err(SyntaxError::Mismatch)));
}

#[test]
fn operators_group_from_the_right() {
    assert_eq!(shown("1 - 2 - 3"), format!("Sub({}, Sub({}, {}))", num("1"), num("2"), num("3")));
    assert_eq!(shown("a = b = c"), format!("Assign({}, Assign({}, {}))", path("a"), path("b"), path("c")));
}

#[test]
fn tighter_operators_bind_first() {
    assert_eq!(shown("1 + 2 * 3"), format!("Add({}, Mul({}, {}))", num("1"), num("2"), num("3")));
    assert_eq!(shown("1 * 2 + 3"), format!("Add(Mul({}, {}), {})", num("1"), num("2"), num("3")));
    assert_eq!(
        shown("a + 1 << 2"),
        format!("LShift(Add({}, {}), {})", path("a"), num("1"), num("2"))
    );
    assert_eq!(
        shown("(a > 0) && true"),
        format!("LAnd(Gt({}, {}), BoolLit(true))", path("a"), num("0"))
    );
    assert_eq!(
        shown("a && b > 0"),
        format!("LAnd({}, Gt({}, {}))", path("a"), path("b"), num("0"))
    );
    assert_eq!(
        shown("-a * b"),
        format!("Mul(Negate({}), {})", path("a"), path("b"))
    );
    assert_eq!(
        shown("(1 + 2) * 3"),
        format!("Mul(Add({}, {}), {})", num("1"), num("2"), num("3"))
    );
    assert_eq!(shown("x as u8 + 1"), format!("Add(Cast({}, Plain(Trail {{ head: \"u8\", trail: [] }})), {})", path("x"), num("1")));
}

#[test]
fn looser_operator_is_not_looked_for_in_a_right_operand() {
    // The right operand of `>` holds only operators that bind at least as
    // tightly as `>`; `&&` does not, but `&` does, and so does the `&` in
    // front of an operand.
    assert_eq!(
        shown("a > 0 && true"),
        format!("Gt({}, And({}, Ref(BoolLit(true))))", path("a"), num("0"))
    );
    assert_eq!(
        shown("a * b + c"),
        format!("Add(Mul({}, {}), {})", path("a"), path("b"), path("c"))
    );
}

#[test]
fn every_operator_between_two_operands() {
    let ops = [
        ("&=", "AssignAnd"),
        ("|=", "AssignOr"),
        ("^=", "AssignXor"),
        ("<<=", "AssignLShift"),
        (">>=", "AssignRShift"),
        ("=", "Assign"),
        ("+=", "AssignAdd"),
        ("-=", "AssignSub"),
        ("*=", "AssignMul"),
        ("/=", "AssignDiv"),
        ("%=", "AssignMod"),
        ("||", "LOr"),
        ("&&", "LAnd"),
        ("==", "Eq"),
        ("!=", "Ne"),
        ("<", "Lt"),
        (">", "Gt"),
        ("<=", "Le"),
        (">=", "Ge"),
        ("|", "Or"),
        ("^", "Xor"),
        ("&", "And"),
        ("<<", "LShift"),
        (">>", "RShift"),
        ("+", "Add"),
        ("-", "Sub"),
        ("*", "Mul"),
        ("/", "Div"),
        ("%", "Mod"),
        ("..", "Range"),
    ];
    for (sign, name) in ops {
        assert_eq!(
            shown(&format!("a {} b", sign)),
            format!("{}({}, {})", name, path("a"), path("b")),
            "operator {}",
            sign
        );
    }
}

#[test]
fn operators_in_front_and_behind() {
    assert_eq!(shown("-a"), format!("Negate({})", path("a")));
    assert_eq!(shown("*a"), format!("Deref({})", path("a")));
    assert_eq!(shown("!a"), format!("Not({})", path("a")));
    assert_eq!(shown("~a"), format!("Inv({})", path("a")));
    assert_eq!(shown("&a"), format!("Ref({})", path("a")));
    assert_eq!(shown("a?"), format!("Unwrap({})", path("a")));
    assert_eq!(shown("a[1]"), format!("Index({}, {})", path("a"), num("1")));
    assert_eq!(shown("a.b.c"), format!("DotOp(DotOp({}, \"b\"), \"c\")", path("a")));
    assert_eq!(shown("f()"), format!("Call({}, [])", path("f")));
    assert_eq!(shown("f(1, a)"), format!("Call({}, [{}, {}])", path("f"), num("1"), path("a")));
    assert_eq!(
        shown("(-3).pow(3)"),
        format!("Call(DotOp(Negate({}), \"pow\"), [{}])", num("3"), num("3"))
    );
    assert_eq!(
        shown("std::io.print(msg)?"),
        format!(
            "Unwrap(Call(DotOp(Path(Trail {{ head: \"std\", trail: [\"io\"] }}), \"print\"), [{}]))",
            path("msg")
        )
    );
}

#[test]
fn exclusive_reference_cannot_be_written() {
    assert!(matches!(fn_block("{ &mut x }"), Err(SyntaxError::Mismatch)));
    assert_eq!(shown("&mutable"), format!("Ref({})", path("mutable")));
}

#[test]
fn numbers() {
    assert_eq!(shown("42"), num("42"));
    assert_eq!(shown("1_000"), num("1_000"));
    assert_eq!(shown("3u8"), "NumLit(\"3\", U8)");
    assert_eq!(shown("1.0"), "FloatLit(\"1.0\", Unspecified)");
    assert_eq!(shown("2.0_f64"), "FloatLit(\"2.0_\", F64)");
    assert_eq!(shown("3.0_e-2_f32"), "FloatLit(\"3.0_e-2_\", F32)");
    assert_eq!(shown("1.5e+3"), "FloatLit(\"1.5e+3\", Unspecified)");
    assert_eq!(shown("1.5e3i64"), "FloatLit(\"1.5e3\", I64)");
    assert_eq!(shown(".2"), "FloatLit(\".2\", Unspecified)");
    assert_eq!(shown("1e5"), "FloatLit(\"1e5\", Unspecified)");
    assert_eq!(shown("1e-5"), "FloatLit(\"1e-5\", Unspecified)");
    assert_eq!(shown("1e+5u128"), "FloatLit(\"1e+5\", U128)");
    assert!(matches!(value("7i16"), Expr::NumLit(text, NumType::I16) if text == "7"));
}

#[test]
fn number_with_unknown_suffix_ends_the_reading() {
    match fn_block("{ 1u7 }") {
        Err(SyntaxError::NumberType(text)) => assert_eq!(text, "'u7' is not a valid number type"),
        other => panic!("unexpected result {:?}", other),
    }
    match fn_block("{ let a = 1; a + 2.5x }") {
        Err(SyntaxError::NumberType(text)) => assert_eq!(text, "'x' is not a valid number type"),
        other => panic!("unexpected result {:?}", other),
    }
    match fn_block("{ _tmp }") {
        Err(SyntaxError::NumberType(text)) => assert_eq!(text, "'tmp' is not a valid number type"),
        other => panic!("unexpected result {:?}", other),
    }
}

#[test]
fn texts_characters_and_truth() {
    assert_eq!(shown("\"Hello World!\""), "Literal(\"Hello World!\")");
    assert_eq!(shown("\"\""), "Literal(\"\")");
    assert_eq!(shown("\"a § b\""), "Literal(\"a § b\")");
    assert_eq!(shown("'@'"), "CharLit('@')");
    assert_eq!(shown("true"), "BoolLit(true)");
    assert_eq!(shown("false"), "BoolLit(false)");
    assert!(matches!(fn_block("{ \"a & b\" }"), Err(SyntaxError::Mismatch)));
    assert!(matches!(fn_block("{ ' ' }"), Err(SyntaxError::Mismatch)));
    assert!(matches!(fn_block("{ '' }"), Err(SyntaxError::Mismatch)));
}

#[test]
fn tuples_and_arrays() {
    assert_eq!(shown("(a, b)"), format!("Tuple([{}, {}])", path("a"), path("b")));
    assert_eq!(shown("(a,)"), format!("Tuple([{}])", path("a")));
    assert_eq!(shown("(a, b, )"), format!("Tuple([{}, {}])", path("a"), path("b")));
    assert_eq!(shown("(a)"), path("a"));
    assert_eq!(shown("[]"), "ArrayExplicit([])");
    assert_eq!(shown("[a, 1]"), format!("ArrayExplicit([{}, {}])", path("a"), num("1")));
    assert_eq!(shown("[0; 32]"), format!("ArrayInit({}, {})", num("0"), num("32")));
}

#[test]
fn struct_literals() {
    assert_eq!(
        shown("P { x: 1, y }"),
        format!(
            "StructInit(Plain(Trail {{ head: \"P\", trail: [] }}), [(\"x\", {}), (\"y\", {})])",
            num("1"),
            path("y")
        )
    );
    assert_eq!(
        shown("P {}"),
        "StructInit(Plain(Trail { head: \"P\", trail: [] }), [])"
    );
    assert_eq!(
        shown("P { x: 1, }"),
        format!("StructInit(Plain(Trail {{ head: \"P\", trail: [] }}), [(\"x\", {})])", num("1"))
    );
}

#[test]
fn conditions() {
    match value("if a < 2 { 42 } else { 32 }") {
        Expr::If(i) => match *i {
            If::If(condition, then, Some(rest)) => {
                assert_eq!(format!("{:?}", condition), format!("Lt({}, {})", path("a"), num("2")));
                assert_eq!(format!("{:?}", then.return_value.unwrap()), num("42"));
                assert!(matches!(*rest, If::Else(b) if format!("{:?}", b.return_value) == format!("Some({})", num("32"))));
            },
            other => panic!("unexpected condition {:?}", other),
        },
        other => panic!("unexpected expression {:?}", other),
    }
    match value("if a { 1 } else if b { 2 } else { 3 }") {
        Expr::If(i) => match *i {
            If::If(_, _, Some(rest)) => assert!(matches!(*rest, If::If(_, _, Some(_)))),
            other => panic!("unexpected condition {:?}", other),
        },
        other => panic!("unexpected expression {:?}", other),
    }
    let block = fn_block("{ if a { b; } if c { d; } else { e; } if f { g; } else if h { i; } }").unwrap();
    assert_eq!(block.content.len(), 3);
    assert!(matches!(&block.content[0], Stat::If(i) if matches!(&**i, If::If(_, _, None))));
    assert!(matches!(&block.content[1], Stat::If(i) if matches!(&**i, If::If(_, _, Some(e)) if matches!(&**e, If::Else(_)))));
    assert!(matches!(&block.content[2], Stat::If(i) if matches!(&**i, If::If(_, _, Some(e)) if matches!(&**e, If::If(_, _, None)))));
    assert!(block.return_value.is_none());
}

#[test]
fn statements() {
    let text = "{
        let alpha = (1.0 + 2.0_f64) / 3.0_e-2_f32 * if true { .2 } else { 3u8 };
        let mut counter = 0;
        while true {
            counter += 1;
            print(counter);
            if (counter > 1000) && (counter % 3 == 0) {
                std::io.print(msg)?;
                break;
            }
        }
        for i, j in 0..data.len() {
            print(data[i]);
        }
        { a; }
        break a;
        match x { 1 => a; y => b; }
        let c = 4 & 4;
        let r = &counter;
    }";
    let block: Block = fn_block(text).unwrap();
    assert!(block.return_value.is_none());
    assert_eq!(block.content.len(), 9);
    assert!(matches!(&block.content[0], Stat::Define(name, _, false) if name == "alpha"));
    assert!(matches!(&block.content[1], Stat::Define(name, _, true) if name == "counter"));
    match &block.content[2] {
        Stat::While(condition, body) => {
            assert_eq!(format!("{:?}", condition), "BoolLit(true)");
            assert_eq!(body.content.len(), 3);
            assert!(matches!(&body.content[2], Stat::If(_)));
        },
        other => panic!("unexpected statement {:?}", other),
    }
    match &block.content[3] {
        Stat::For(names, iter, body) => {
            assert_eq!(names, &vec![String::from("i"), String::from("j")]);
            assert_eq!(
                format!("{:?}", iter),
                format!("Range({}, Call(DotOp({}, \"len\"), []))", num("0"), path("data"))
            );
            assert_eq!(body.content.len(), 1);
        },
        other => panic!("unexpected statement {:?}", other),
    }
    assert!(matches!(&block.content[4], Stat::Block(b) if b.content.len() == 1));
    assert!(matches!(&block.content[5], Stat::Break(Some(_))));
    match &block.content[6] {
        Stat::Match(m) => {
            assert_eq!(m.cases.len(), 2);
            assert!(matches!(&m.cases[0].case, MatchCase::Literal(_)));
            assert!(matches!(&m.cases[0].block, Stat::ExprStat(_)));
        },
        other => panic!("unexpected statement {:?}", other),
    }
    assert_eq!(
        format!("{:?}", block.content[7]),
        format!("Define(\"c\", And({}, {}), false)", num("4"), num("4"))
    );
    assert_eq!(
        format!("{:?}", block.content[8]),
        format!("Define(\"r\", Ref({}), false)", path("counter"))
    );
}

#[test]
fn definition_of_a_name_that_starts_with_mut() {
    let block = fn_block("{ let mutable = 1; let mut = 2; }").unwrap();
    assert!(matches!(&block.content[0], Stat::Define(name, _, true) if name == "able"));
    assert!(matches!(&block.content[1], Stat::Define(name, _, false) if name == "mut"));
}

#[test]
fn cases_of_a_match() {
    let text = "{ match x { a | b | c => 1, (p, q) => 2, 1 => 3, T(u) => 4, } }";
    let block = fn_block(text).unwrap();
    match block.return_value.unwrap() {
        Expr::Match(m) => {
            assert_eq!(m.cases.len(), 4);
            assert_eq!(
                format!("{:?}", m.cases[0].case),
                "Multi(Param(\"a\"), [Multi(Param(\"b\"), [Param(\"c\")])])"
            );
            assert_eq!(format!("{:?}", m.cases[1].case), "Tuple([Param(\"p\"), Param(\"q\")])");
            assert_eq!(format!("{:?}", m.cases[2].case), format!("Literal({})", num("1")));
            assert_eq!(
                format!("{:?}", m.cases[3].case),
                "Data(Plain(Trail { head: \"T\", trail: [] }), [Param(\"u\")])"
            );
        },
        other => panic!("unexpected expression {:?}", other),
    }
}

#[test]
fn blocks_with_and_without_value() {
    let block = fn_block(" { a; b } ").unwrap();
    assert_eq!(block.content.len(), 1);
    assert_eq!(format!("{:?}", block.return_value), format!("Some({})", path("b")));
    let block = fn_block("{ a; return b; }").unwrap();
    assert_eq!(block.content.len(), 1);
    assert_eq!(format!("{:?}", block.return_value), format!("Some({})", path("b")));
    assert_eq!(
        shown("{ a; b }"),
        format!(
            "Block(Block {{ content: [ExprStat({})], return_value: Some({}) }})",
            path("a"),
            path("b")
        )
    );
    let block = fn_block("{ { a; b } }").unwrap();
    assert!(matches!(&block.content[0], Stat::Block(b) if b.return_value.is_some()));
    assert!(block.return_value.is_none());
    assert!(matches!(fn_block("{ a b }"), Err(SyntaxError::Mismatch)));
    assert!(matches!(fn_block("{ return a; b }"), Err(SyntaxError::Mismatch)));
    assert!(matches!(fn_block("{"), Err(SyntaxError::Mismatch)));
    assert!(matches!(fn_block(""), Err(SyntaxError::Mismatch)));
}
