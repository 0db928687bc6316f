use ferrum::lang::error::{mismatch_message, CompileError};
use ferrum::lang::expr::{Block, Expr, NumType, Stat, Trail, Type};
use ferrum::lang::types::FerrumType;
use ferrum::lang::variable::VarLoc;

#[test]
fn number_type_names() {
    let all = [
        (NumType::I8, "i8"),
        (NumType::I16, "i16"),
        (NumType::I32, "i32"),
        (NumType::I64, "i64"),
        (NumType::I128, "i128"),
        (NumType::U8, "u8"),
        (NumType::U16, "u16"),
        (NumType::U32, "u32"),
        (NumType::U64, "u64"),
        (NumType::U128, "u128"),
        (NumType::F32, "f32"),
        (NumType::F64, "f64"),
        (NumType::Unspecified, ""),
    ];
    for (ty, name) in all {
        assert_eq!(ty.name(), name);
        assert_eq!(NumType::try_from(name), Ok(ty));
        assert_eq!(NumType::parse(name), Ok(ty));
    }
}

#[test]
fn unknown_number_type() {
    assert_eq!(
        NumType::try_from("u7"),
        Err(String::from("'u7' is not a valid number type"))
    );
    assert_eq!(NumType::parse("I8"), Err(String::from("'I8' is not a valid number type")));
}

#[test]
fn syntax_tree_is_built_and_shown() {
    let block = Block {
        content: vec![Stat::Define(
            String::from("a"),
            Box::new(Expr::Add(
                Box::new(Expr::NumLit(String::from("1"), NumType::Unspecified)),
                Box::new(Expr::Path(Trail { head: String::from("b"), trail: Vec::new() })),
            )),
            false,
        )],
        return_value: Some(Expr::Cast(Box::new(Expr::BoolLit(true)), Type::Unit)),
    };
    let text = format!("{:?}", block);
    assert!(text.contains("Define"));
    assert!(text.contains("NumLit"));
    assert!(text.contains("Unit"));
}

fn x() -> VarLoc {
    VarLoc { stack_frame: 1, name: String::from("x") }
}

#[test]
fn error_messages() {
    assert_eq!(CompileError::LifetimeMismatch.message(), "Variable does not life long enough");
    assert_eq!(CompileError::IllegalMutBorrow.message(), "Cannot borrow as mut");
    assert_eq!(CompileError::IllegalSharedBorrow.message(), "Cannot borrow shared");
    assert_eq!(
        CompileError::IllegalBorrowState.message(),
        "Illegal borrow checker state. This is a compiler error"
    );
    assert_eq!(
        CompileError::DataNotMutable(x()).message(),
        "Variable VarLoc { stack_frame: 1, name: \"x\" } is not mutable"
    );
    assert_eq!(
        CompileError::AlreadyAssigned(x()).message(),
        "Cannot assign data to VarLoc { stack_frame: 1, name: \"x\" } twice"
    );
    assert_eq!(
        CompileError::IllegalDataSource(String::from("shared reference")).message(),
        "Expected shared reference data source"
    );
    assert_eq!(
        CompileError::VariableNotInitialized(x()).message(),
        "Tried to assign data to uninitialized variable VarLoc { stack_frame: 1, name: \"x\" }"
    );
    assert_eq!(
        CompileError::ModifiedBorrowedData(x()).message(),
        "Cannot modify VarLoc { stack_frame: 1, name: \"x\" } while it is borrowed"
    );
    assert_eq!(
        CompileError::UnknownVariable(x()).message(),
        "Variable VarLoc { stack_frame: 1, name: \"x\" } not found in current scope"
    );
    assert_eq!(
        CompileError::DataTypeMismatch(
            FerrumType::Elementary(4),
            FerrumType::Ref(Box::new(FerrumType::Elementary(1)))
        )
        .message(),
        "got Elementary(4) while Ref(Elementary(1)) was expected"
    );
    assert_eq!(mismatch_message("a", "b"), "got a while b was expected");
}
