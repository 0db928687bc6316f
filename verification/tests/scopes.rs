use ferrum::bytecode::chunk::Chunk;
use ferrum::lang::compiler::{FerrumCompiler, StackScope};
use ferrum::lang::error::CompileError;
use ferrum::lang::lifetime::LifeTime;
use ferrum::lang::types::FerrumType;
use ferrum::lang::variable::{BorrowState, DataLoc, DataSource, FerrumVariable, VarLoc};

fn var(name: &str, lvl: usize, at: usize) -> FerrumVariable {
    FerrumVariable::new(
        String::from(name),
        lvl,
        FerrumType::Elementary(4),
        DataSource::Location(DataLoc { is_stack: true, loc: at, size: 4 }),
        true,
        LifeTime::Scoped(lvl, lvl),
        false,
    )
}

fn place(v: &FerrumVariable) -> usize {
    match &v.loc {
        Some(DataSource::Location(d)) => d.loc,
        _ => panic!("variable owns no storage"),
    }
}

fn compiler() -> FerrumCompiler {
    FerrumCompiler::new(Chunk::new(String::from("main")))
}

#[test]
fn scope_allocates_from_its_frame() {
    let mut scope = StackScope::new();
    assert_eq!(scope.alloc_data_loc(4), DataLoc { is_stack: true, loc: 0, size: 4 });
    assert_eq!(scope.alloc_data_loc(8), DataLoc { is_stack: true, loc: 4, size: 8 });
    assert_eq!(scope.alloc_data_loc(0), DataLoc { is_stack: true, loc: 12, size: 0 });
    assert_eq!(scope.alloc_data_loc(1), DataLoc { is_stack: true, loc: 12, size: 1 });
}

#[test]
fn scope_sees_the_most_recent_declaration() {
    let mut scope = StackScope::new();
    assert!(scope.get_var("x").is_none());
    scope.add_var(var("x", 1, 0));
    scope.add_var(var("y", 1, 4));
    scope.add_var(var("x", 1, 8));
    assert_eq!(place(scope.get_var("x").unwrap()), 8);
    assert_eq!(place(scope.get_var("y").unwrap()), 4);
    assert!(scope.get_var("z").is_none());
    scope.get_var_mut("x").unwrap().borrow_state = BorrowState::Mut;
    assert_eq!(scope.get_var("x").unwrap().borrow_state, BorrowState::Mut);
    assert_eq!(place(scope.get_var("x").unwrap()), 8);
    assert!(scope.get_var_mut("z").is_none());
}

#[test]
fn lookup_prefers_the_innermost_scope() {
    let mut c = compiler();
    assert!(!c.declare(var("x", 1, 0)));
    c.push_scope();
    assert!(c.declare(var("x", 1, 0)));
    assert!(c.declare(var("y", 1, 4)));
    c.push_scope();
    assert!(c.declare(var("x", 2, 8)));
    assert_eq!(place(c.find_var("x", 2).unwrap()), 8);
    assert_eq!(place(c.find_var("x", 1).unwrap()), 0);
    assert_eq!(place(c.find_var("y", 2).unwrap()), 4);
    assert!(c.find_var("x", 0).is_none());
    assert!(c.find_var("z", 2).is_none());
}

#[test]
fn lookup_from_beyond_the_open_scopes_finds_nothing() {
    let mut c = compiler();
    c.declare_global(var("g", 0, 100));
    c.push_scope();
    assert!(c.declare(var("x", 1, 0)));
    c.push_scope();
    assert!(c.declare(var("y", 2, 4)));
    assert_eq!(place(c.find_var("x", 2).unwrap()), 0);
    assert_eq!(place(c.find_var("g", 2).unwrap()), 100);
    assert!(c.find_var("x", 3).is_none());
    assert!(c.find_var("g", 3).is_none());
    assert!(c.find_var_mut("y", 7).is_none());
    c.pop_scope().unwrap();
    assert!(c.find_var("y", 2).is_none());
    assert!(c.find_var("x", 2).is_none());
    assert!(c.find_var("g", 2).is_none());
    assert_eq!(place(c.find_var("x", 1).unwrap()), 0);
    let closed = VarLoc { stack_frame: 2, name: String::from("x") };
    match c.deref_var(&closed) {
        Err(CompileError::UnknownVariable(loc)) => {
            assert_eq!(loc.stack_frame, 2);
            assert_eq!(loc.name, "x");
        },
        other => panic!("unexpected result {:?}", other),
    }
    assert!(matches!(c.deref_mut_var(&closed), Err(CompileError::UnknownVariable(_))));
}

#[test]
fn lookup_falls_back_to_globals() {
    let mut c = compiler();
    c.declare_global(var("g", 0, 100));
    c.declare_global(var("x", 0, 104));
    c.declare_global(var("g", 0, 108));
    c.push_scope();
    c.declare(var("x", 1, 0));
    assert_eq!(place(c.find_global("g").unwrap()), 108);
    assert_eq!(place(c.find_var("g", 1).unwrap()), 108);
    assert_eq!(place(c.find_var("x", 1).unwrap()), 0);
    assert_eq!(place(c.find_var("x", 0).unwrap()), 104);
    assert!(c.find_global("nope").is_none());
    c.find_global_mut("g").unwrap().borrow_state = BorrowState::Shared(3);
    assert_eq!(c.find_global("g").unwrap().borrow_state, BorrowState::Shared(3));
    assert!(c.find_global_mut("nope").is_none());
}

#[test]
fn find_var_mut_changes_the_variable_that_lookup_sees() {
    let mut c = compiler();
    c.push_scope();
    c.declare(var("x", 1, 0));
    c.push_scope();
    c.declare(var("x", 2, 8));
    c.find_var_mut("x", 2).unwrap().borrow_state = BorrowState::Mut;
    assert_eq!(c.find_var("x", 2).unwrap().borrow_state, BorrowState::Mut);
    assert_eq!(c.find_var("x", 1).unwrap().borrow_state, BorrowState::Free);
    assert!(c.find_var_mut("q", 2).is_none());
}

#[test]
fn deref_gives_borrows_back() {
    let mut c = compiler();
    c.push_scope();
    let mut x = var("x", 1, 0);
    x.borrow_state = BorrowState::Shared(2);
    c.declare(x);
    let mut y = var("y", 1, 4);
    y.borrow_state = BorrowState::Mut;
    c.declare(y);
    let x_loc = VarLoc { stack_frame: 1, name: String::from("x") };
    let y_loc = VarLoc { stack_frame: 1, name: String::from("y") };
    c.deref_var(&x_loc).unwrap();
    assert_eq!(c.find_var("x", 1).unwrap().borrow_state, BorrowState::Shared(1));
    c.deref_var(&x_loc).unwrap();
    assert_eq!(c.find_var("x", 1).unwrap().borrow_state, BorrowState::Free);
    assert!(matches!(c.deref_var(&x_loc), Err(CompileError::IllegalBorrowState)));
    assert!(matches!(c.deref_var(&y_loc), Err(CompileError::IllegalBorrowState)));
    c.deref_mut_var(&y_loc).unwrap();
    assert_eq!(c.find_var("y", 1).unwrap().borrow_state, BorrowState::Free);
    assert!(matches!(c.deref_mut_var(&y_loc), Err(CompileError::IllegalBorrowState)));
    let unknown = VarLoc { stack_frame: 1, name: String::from("q") };
    match c.deref_var(&unknown) {
        Err(CompileError::UnknownVariable(loc)) => assert_eq!(loc.name, "q"),
        other => panic!("unexpected result {:?}", other),
    }
    assert!(matches!(c.deref_mut_var(&unknown), Err(CompileError::UnknownVariable(_))));
}

#[test]
fn closing_a_scope_with_a_borrowed_variable_fails() {
    let mut c = compiler();
    c.push_scope();
    let mut x = var("x", 1, 0);
    x.borrow_state = BorrowState::Shared(1);
    c.declare(x);
    match c.pop_scope() {
        Err(CompileError::ModifiedBorrowedData(loc)) => assert_eq!(loc.name, "x"),
        other => panic!("unexpected result {:?}", other),
    }
    assert_eq!(c.depth(), 0);
}

#[test]
fn closing_without_a_scope_does_nothing() {
    let mut c = compiler();
    c.pop_scope().unwrap();
    assert_eq!(c.depth(), 0);

}
