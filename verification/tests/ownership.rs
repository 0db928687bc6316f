use ferrum::bytecode::chunk::Chunk;
use ferrum::lang::compiler::{FerrumCompiler, HeapRequest};
use ferrum::lang::error::CompileError;
use ferrum::lang::lifetime::LifeTime;
use ferrum::lang::types::FerrumType;
use ferrum::lang::variable::{
    BorrowState, DataLoc, DataSource, FerrumVariable, FerrumVariableHandle, VarLoc,
};

fn u32_type() -> FerrumType {
    FerrumType::Elementary(4)
}

fn u8_type() -> FerrumType {
    FerrumType::Elementary(1)
}

fn compiler() -> FerrumCompiler {
    FerrumCompiler::new(Chunk::new(String::from("main")))
}

fn stack(loc: usize, size: usize) -> DataLoc {
    DataLoc { is_stack: true, loc, size }
}

fn heap(loc: usize, size: usize) -> DataLoc {
    DataLoc { is_stack: false, loc, size }
}

fn nowhere() -> VarLoc {
    VarLoc { stack_frame: 0, name: String::new() }
}

/// A variable that owns four bytes on the stack.
fn owner(name: &str, lvl: usize, mutable: bool) -> FerrumVariable {
    FerrumVariable::new(
        String::from(name),
        lvl,
        u32_type(),
        DataSource::Location(stack(0, 4)),
        mutable,
        LifeTime::Scoped(lvl, lvl),
        false,
    )
}

/// A variable of type `&u32` that refers to nothing yet.
fn shared_ref(name: &str, lvl: usize) -> FerrumVariable {
    FerrumVariable::new(
        String::from(name),
        lvl,
        FerrumType::Ref(Box::new(u32_type())),
        DataSource::Reference(stack(8, 8), nowhere(), true),
        false,
        LifeTime::Scoped(lvl, lvl),
        false,
    )
}

/// A variable of type `&mut u32` that refers to nothing yet.
fn exclusive_ref(name: &str, lvl: usize) -> FerrumVariable {
    FerrumVariable::new(
        String::from(name),
        lvl,
        FerrumType::MutRef(Box::new(u32_type())),
        DataSource::MutReference(stack(16, 8), nowhere(), true),
        false,
        LifeTime::Scoped(lvl, lvl),
        false,
    )
}

#[test]
fn new_variable_is_unborrowed_and_holds_its_data() {
    let x = owner("x", 1, true);
    assert_eq!(x.name(), "x");
    assert_eq!(x.get_type(), &u32_type());
    assert!(*x.is_mutable());
    assert!(x.is_valid());
    assert!(!x.is_ref());
    assert!(x.holds_data());
    assert!(!x.holds_ref());
    assert!(x.is_on_stack());
    assert!(!x.is_on_heap());
    assert_eq!(x.borrow_state, BorrowState::Free);
    let loc = x.create_ref();
    assert_eq!(loc.stack_frame, 1);
    assert_eq!(loc.name, "x");
}

#[test]
fn shared_borrow_of_stack_data_is_counted_and_given_back() {
    let mut c = compiler();
    let mut x = owner("x", 1, false);
    let mut r = shared_ref("r", 2);
    r.borrow(&mut x, &mut c).unwrap();
    assert_eq!(x.borrow_state, BorrowState::Shared(1));
    assert!(r.do_invalidate);
    assert!(r.is_ref());
    assert!(r.holds_ref());
    match &r.loc {
        Some(DataSource::Reference(data, target, given_back)) => {
            assert_eq!(*data, stack(8, 8));
            assert_eq!(target.stack_frame, 1);
            assert_eq!(target.name, "x");
            assert!(!*given_back);
        },
        other => panic!("unexpected data source {:?}", other),
    }
    assert!(c.requests().is_empty());

    c.push_scope();
    assert!(c.declare(x));
    c.push_scope();
    assert!(c.declare(r));
    assert_eq!(c.depth(), 2);
    c.pop_scope().unwrap();
    assert_eq!(c.depth(), 1);
    assert_eq!(c.find_var("x", 1).unwrap().borrow_state, BorrowState::Free);
    assert!(c.find_var("r", 2).is_none());
}

#[test]
fn closing_a_scope_gives_back_a_shared_borrow_within_it() {
    let mut c = compiler();
    c.push_scope();
    let mut x = owner("x", 1, false);
    let mut r = shared_ref("r", 1);
    r.borrow(&mut x, &mut c).unwrap();
    assert_eq!(x.borrow_state, BorrowState::Shared(1));
    assert!(c.declare(x));
    assert!(c.declare(r));
    c.pop_scope().unwrap();
    assert_eq!(c.depth(), 0);
    assert!(c.find_var("x", 1).is_none());
}

#[test]
fn closing_a_scope_gives_back_an_exclusive_borrow_within_it() {
    let mut c = compiler();
    c.push_scope();
    assert!(c.declare(owner("outer", 1, true)));
    c.push_scope();
    let mut x = owner("x", 2, true);
    let mut m = exclusive_ref("m", 2);
    m.borrow(&mut x, &mut c).unwrap();
    assert_eq!(x.borrow_state, BorrowState::Mut);
    assert!(c.declare(x));
    assert!(c.declare(m));
    c.pop_scope().unwrap();
    assert_eq!(c.depth(), 1);
    assert_eq!(c.find_var("outer", 1).unwrap().borrow_state, BorrowState::Free);
}

#[test]
fn closing_a_scope_gives_back_every_borrow_within_it() {
    let mut c = compiler();
    c.push_scope();
    let mut x = owner("x", 1, false);
    let mut a = shared_ref("a", 1);
    let mut b = shared_ref("b", 1);
    a.borrow(&mut x, &mut c).unwrap();
    b.borrow(&mut x, &mut c).unwrap();
    assert_eq!(x.borrow_state, BorrowState::Shared(2));
    assert!(c.declare(x));
    assert!(c.declare(a));
    assert!(c.declare(b));
    c.pop_scope().unwrap();
    assert_eq!(c.depth(), 0);
}

#[test]
fn closing_a_scope_gives_back_borrows_of_both_scopes() {
    let mut c = compiler();
    c.push_scope();
    let mut x = owner("x", 1, false);
    let mut y = owner("y", 2, false);
    let mut a = shared_ref("a", 2);
    let mut b = shared_ref("b", 2);
    a.borrow(&mut x, &mut c).unwrap();
    b.borrow(&mut y, &mut c).unwrap();
    assert!(c.declare(x));
    c.push_scope();
    assert!(c.declare(y));
    assert!(c.declare(a));
    assert!(c.declare(b));
    assert_eq!(c.find_var("x", 2).unwrap().borrow_state, BorrowState::Shared(1));
    assert_eq!(c.find_var("y", 2).unwrap().borrow_state, BorrowState::Shared(1));
    c.pop_scope().unwrap();
    assert_eq!(c.depth(), 1);
    assert_eq!(c.find_var("x", 1).unwrap().borrow_state, BorrowState::Free);
}

#[test]
fn closing_a_scope_fails_where_the_lender_follows_its_borrower() {
    let mut c = compiler();
    c.push_scope();
    let mut x = owner("x", 1, false);
    let mut r = shared_ref("r", 1);
    r.borrow(&mut x, &mut c).unwrap();
    assert!(c.declare(r));
    assert!(c.declare(x));
    match c.pop_scope() {
        Err(CompileError::ModifiedBorrowedData(loc)) => {
            assert_eq!(loc.stack_frame, 1);
            assert_eq!(loc.name, "x");
        },
        other => panic!("unexpected result {:?}", other),
    }
    assert_eq!(c.depth(), 0);
}

#[test]
fn closing_a_scope_fails_where_a_lender_is_unknown() {
    let mut c = compiler();
    c.push_scope();
    assert!(c.declare(owner("kept", 1, false)));
    c.push_scope();
    let mut x = owner("x", 2, false);
    let mut r = shared_ref("r", 2);
    r.borrow(&mut x, &mut c).unwrap();
    assert!(c.declare(r));
    match c.pop_scope() {
        Err(CompileError::UnknownVariable(loc)) => {
            assert_eq!(loc.stack_frame, 2);
            assert_eq!(loc.name, "x");
        },
        other => panic!("unexpected result {:?}", other),
    }
    assert_eq!(c.depth(), 1);
    assert_eq!(c.find_var("kept", 1).unwrap().borrow_state, BorrowState::Free);
}

#[test]
fn two_shared_borrows_are_counted() {
    let mut c = compiler();
    let mut x = owner("x", 1, false);
    let mut r1 = shared_ref("r1", 1);
    let mut r2 = shared_ref("r2", 1);
    r1.borrow(&mut x, &mut c).unwrap();
    r2.borrow(&mut x, &mut c).unwrap();
    assert_eq!(x.borrow_state, BorrowState::Shared(2));
    c.push_scope();
    c.declare(x);
    r1.try_invalidate_data(&mut c).unwrap();
    assert_eq!(c.find_var("x", 1).unwrap().borrow_state, BorrowState::Shared(1));
    r2.try_invalidate_data(&mut c).unwrap();
    assert_eq!(c.find_var("x", 1).unwrap().borrow_state, BorrowState::Free);
}

#[test]
fn exclusive_borrow_excludes_shared_borrow() {
    let mut c = compiler();
    let mut y = owner("y", 1, true);
    let mut m = exclusive_ref("m", 1);
    m.borrow(&mut y, &mut c).unwrap();
    assert_eq!(y.borrow_state, BorrowState::Mut);
    assert!(m.holds_ref());
    assert!(!m.is_ref());
    let mut r = shared_ref("r", 1);
    assert!(matches!(r.borrow(&mut y, &mut c), Err(CompileError::IllegalSharedBorrow)));
    assert_eq!(y.borrow_state, BorrowState::Mut);
}

#[test]
fn exclusive_borrow_is_given_back() {
    let mut c = compiler();
    let mut y = owner("y", 1, true);
    let mut m = exclusive_ref("m", 1);
    m.borrow(&mut y, &mut c).unwrap();
    c.push_scope();
    c.declare(y);
    m.try_invalidate_data(&mut c).unwrap();
    assert_eq!(c.find_var("y", 1).unwrap().borrow_state, BorrowState::Free);
    match &m.loc {
        Some(DataSource::MutReference(_, _, given_back)) => assert!(*given_back),
        other => panic!("unexpected data source {:?}", other),
    }
}

#[test]
fn exclusive_borrow_of_shared_data_fails_and_keeps_the_count() {
    let mut c = compiler();
    let mut y = owner("y", 1, true);
    let mut r = shared_ref("r", 1);
    r.borrow(&mut y, &mut c).unwrap();
    assert_eq!(y.borrow_state, BorrowState::Shared(1));
    let mut m = exclusive_ref("m", 1);
    assert!(matches!(m.borrow(&mut y, &mut c), Err(CompileError::IllegalMutBorrow)));
    assert_eq!(y.borrow_state, BorrowState::Shared(1));
}

#[test]
fn exclusive_borrow_needs_mutable_data() {
    let mut c = compiler();
    let mut y = owner("y", 1, false);
    let mut m = exclusive_ref("m", 1);
    match m.borrow(&mut y, &mut c) {
        Err(CompileError::DataNotMutable(loc)) => {
            assert_eq!(loc.name, "y");
            assert_eq!(loc.stack_frame, 1);
        },
        other => panic!("unexpected result {:?}", other),
    }
    assert_eq!(y.borrow_state, BorrowState::Free);
}

#[test]
fn borrow_needs_matching_types() {
    let mut c = compiler();
    let mut y = FerrumVariable::new(
        String::from("y"),
        1,
        u8_type(),
        DataSource::Location(stack(0, 1)),
        true,
        LifeTime::Static,
        false,
    );
    let mut r = shared_ref("r", 1);
    match r.borrow(&mut y, &mut c) {
        Err(CompileError::DataTypeMismatch(got, expected)) => {
            assert_eq!(got, FerrumType::Ref(Box::new(u32_type())));
            assert_eq!(expected, FerrumType::Ref(Box::new(u8_type())));
        },
        other => panic!("unexpected result {:?}", other),
    }
    assert_eq!(y.borrow_state, BorrowState::Free);
    let mut plain = owner("p", 1, false);
    let mut x = owner("x", 1, false);
    assert!(matches!(plain.borrow(&mut x, &mut c), Err(CompileError::DataTypeMismatch(_, _))));
}

#[test]
fn borrow_needs_storage_for_the_reference() {
    let mut c = compiler();
    let mut x = owner("x", 1, false);
    let mut r = shared_ref("r", 1);
    r.loc = None;
    match r.borrow(&mut x, &mut c) {
        Err(CompileError::VariableNotInitialized(loc)) => assert_eq!(loc.name, "r"),
        other => panic!("unexpected result {:?}", other),
    }
}

#[test]
fn borrow_needs_a_reference_of_the_right_kind() {
    let mut c = compiler();
    let mut x = owner("x", 1, true);
    let mut r = shared_ref("r", 1);
    r.loc = Some(DataSource::Location(stack(8, 8)));
    match r.borrow(&mut x, &mut c) {
        Err(CompileError::IllegalDataSource(kind)) => assert_eq!(kind, "shared reference"),
        other => panic!("unexpected result {:?}", other),
    }
    let mut m = exclusive_ref("m", 1);
    m.loc = Some(DataSource::Location(stack(8, 8)));
    let mut y = owner("y", 1, true);
    match m.borrow(&mut y, &mut c) {
        Err(CompileError::IllegalDataSource(kind)) => assert_eq!(kind, "mutable reference"),
        other => panic!("unexpected result {:?}", other),
    }
}

#[test]
fn borrow_of_heap_data_asks_the_running_program() {
    let mut c = compiler();
    let mut x = FerrumVariable::new(
        String::from("x"),
        1,
        u32_type(),
        DataSource::Location(heap(64, 4)),
        true,
        LifeTime::Dynamic,
        false,
    );
    assert!(x.is_on_heap());
    assert!(!x.is_on_stack());
    let mut r = shared_ref("r", 1);
    r.borrow(&mut x, &mut c).unwrap();
    assert!(!r.do_invalidate);
    assert_eq!(c.requests().len(), 1);
    match &c.requests()[0] {
        HeapRequest::IncRc(loc) => assert_eq!(loc.name, "x"),
        other => panic!("unexpected request {:?}", other),
    }
    r.try_invalidate_data(&mut c).unwrap();
    assert_eq!(x.borrow_state, BorrowState::Shared(1));

    let mut y = FerrumVariable::new(
        String::from("y"),
        1,
        u32_type(),
        DataSource::Location(heap(128, 4)),
        true,
        LifeTime::Dynamic,
        false,
    );
    let mut m = exclusive_ref("m", 1);
    m.borrow(&mut y, &mut c).unwrap();
    assert_eq!(c.requests().len(), 2);
    assert!(matches!(&c.requests()[1], HeapRequest::GrabMut(loc) if loc.name == "y"));
}

#[test]
fn heap_hooks_record_requests() {
    let mut c = compiler();
    let x = owner("x", 1, true);
    c.inc_heap_rc(&x);
    c.dec_heap_rc(&x);
    c.grab_heap_mut(&x);
    c.drop_heap_mut(&x);
    assert_eq!(c.requests().len(), 4);
    assert!(matches!(&c.requests()[0], HeapRequest::IncRc(_)));
    assert!(matches!(&c.requests()[1], HeapRequest::DecRc(_)));
    assert!(matches!(&c.requests()[2], HeapRequest::GrabMut(_)));
    assert!(matches!(&c.requests()[3], HeapRequest::DropMut(_)));
}

#[test]
fn borrowed_variable_cannot_give_up_its_data() {
    let mut c = compiler();
    let mut x = owner("x", 1, true);
    x.borrow_state = BorrowState::Shared(1);
    match x.try_invalidate_data(&mut c) {
        Err(CompileError::ModifiedBorrowedData(loc)) => assert_eq!(loc.name, "x"),
        other => panic!("unexpected result {:?}", other),
    }
}

#[test]
fn giving_back_to_an_unknown_variable_fails() {
    let mut c = compiler();
    let mut x = owner("x", 1, false);
    let mut r = shared_ref("r", 1);
    r.borrow(&mut x, &mut c).unwrap();
    match r.try_invalidate_data(&mut c) {
        Err(CompileError::UnknownVariable(loc)) => assert_eq!(loc.name, "x"),
        other => panic!("unexpected result {:?}", other),
    }
}

#[test]
fn take_ownership_moves_the_data() {
    let mut c = compiler();
    let mut a = owner("a", 1, true);
    let mut b = FerrumVariable::new(
        String::from("b"),
        1,
        u32_type(),
        DataSource::Location(stack(32, 4)),
        true,
        LifeTime::Static,
        false,
    );
    a.take_ownership(&mut b, &mut c).unwrap();
    assert!(matches!(&a.loc, Some(DataSource::Location(d)) if *d == stack(32, 4)));
    assert!(b.loc.is_none());
    assert!(!b.is_valid());
    assert!(!b.holds_data());
    assert!(!b.holds_ref());
}

#[test]
fn take_ownership_of_another_type_changes_nothing() {
    let mut c = compiler();
    let mut a = owner("a", 1, true);
    let mut b = FerrumVariable::new(
        String::from("b"),
        1,
        u8_type(),
        DataSource::Location(stack(32, 1)),
        true,
        LifeTime::Static,
        false,
    );
    match a.take_ownership(&mut b, &mut c) {
        Err(CompileError::DataTypeMismatch(got, expected)) => {
            assert_eq!(got, u32_type());
            assert_eq!(expected, u8_type());
        },
        other => panic!("unexpected result {:?}", other),
    }
    assert!(matches!(&a.loc, Some(DataSource::Location(d)) if *d == stack(0, 4)));
    assert!(matches!(&b.loc, Some(DataSource::Location(d)) if *d == stack(32, 1)));
}

#[test]
fn take_ownership_gives_back_the_old_borrow() {
    let mut c = compiler();
    let mut x = owner("x", 1, false);
    let mut r = shared_ref("r", 1);
    r.borrow(&mut x, &mut c).unwrap();
    c.push_scope();
    c.declare(x);
    let mut other = shared_ref("s", 1);
    r.take_ownership(&mut other, &mut c).unwrap();
    assert_eq!(c.find_var("x", 1).unwrap().borrow_state, BorrowState::Free);
    assert!(other.loc.is_none());
}

#[test]
fn swap_exchanges_data_and_leaves_borrows() {
    let mut a = owner("a", 1, true);
    let mut b = FerrumVariable::new(
        String::from("b"),
        1,
        u32_type(),
        DataSource::Location(stack(32, 4)),
        true,
        LifeTime::Static,
        false,
    );
    a.borrow_state = BorrowState::Shared(2);
    a.swap(&mut b).unwrap();
    assert!(matches!(&a.loc, Some(DataSource::Location(d)) if *d == stack(32, 4)));
    assert!(matches!(&b.loc, Some(DataSource::Location(d)) if *d == stack(0, 4)));
    assert_eq!(a.borrow_state, BorrowState::Shared(2));
    assert_eq!(b.borrow_state, BorrowState::Free);
    let mut other = FerrumVariable::new(
        String::from("o"),
        1,
        u8_type(),
        DataSource::Location(stack(40, 1)),
        true,
        LifeTime::Static,
        false,
    );
    assert!(matches!(a.swap(&mut other), Err(CompileError::DataTypeMismatch(_, _))));
    assert!(matches!(&a.loc, Some(DataSource::Location(d)) if *d == stack(32, 4)));
    assert!(matches!(&other.loc, Some(DataSource::Location(d)) if *d == stack(40, 1)));
}

#[test]
fn assign_data_only_once() {
    let mut a = owner("a", 1, true);
    match a.assign_data(DataSource::Location(stack(8, 4))) {
        Err(CompileError::AlreadyAssigned(loc)) => assert_eq!(loc.name, "a"),
        other => panic!("unexpected result {:?}", other),
    }
    assert!(matches!(&a.loc, Some(DataSource::Location(d)) if *d == stack(0, 4)));
    a.loc = None;
    a.assign_data(DataSource::Location(stack(8, 4))).unwrap();
    assert!(matches!(&a.loc, Some(DataSource::Location(d)) if *d == stack(8, 4)));
}

#[test]
fn data_source_kinds() {
    let mut c = compiler();
    let on_stack = DataSource::Location(stack(0, 4));
    let on_heap = DataSource::Location(heap(0, 4));
    assert!(!on_stack.is_heap_data());
    assert!(on_heap.is_heap_data());
    assert_eq!(on_stack.is_heap_ref(&mut c).unwrap(), false);
    assert_eq!(on_stack.is_local_ref(&mut c).unwrap(), true);

    c.push_scope();
    c.declare(FerrumVariable::new(
        String::from("h"),
        1,
        u32_type(),
        DataSource::Location(heap(64, 4)),
        false,
        LifeTime::Dynamic,
        false,
    ));
    c.declare(owner("s", 1, false));
    let to_heap = DataSource::Reference(stack(8, 8), VarLoc { stack_frame: 1, name: String::from("h") }, false);
    let to_stack = DataSource::MutReference(stack(8, 8), VarLoc { stack_frame: 1, name: String::from("s") }, false);
    let to_nothing = DataSource::Reference(stack(8, 8), VarLoc { stack_frame: 1, name: String::from("q") }, false);
    assert!(!to_heap.is_heap_data());
    assert_eq!(to_heap.is_heap_ref(&mut c).unwrap(), true);
    assert_eq!(to_heap.is_local_ref(&mut c).unwrap(), false);
    assert_eq!(to_stack.is_heap_ref(&mut c).unwrap(), false);
    assert_eq!(to_stack.is_local_ref(&mut c).unwrap(), true);
    assert!(matches!(to_nothing.is_heap_ref(&mut c), Err(CompileError::UnknownVariable(_))));
    assert!(matches!(to_nothing.is_local_ref(&mut c), Err(CompileError::UnknownVariable(_))));
}

#[test]
fn data_source_rebinding() {
    let x = VarLoc { stack_frame: 1, name: String::from("x") };
    let mut shared = DataSource::Reference(stack(8, 8), nowhere(), true);
    shared.new_ref(x.clone()).unwrap();
    assert!(matches!(&shared, DataSource::Reference(_, loc, false) if loc.name == "x"));
    match shared.new_mut_ref(x.clone()) {
        Err(CompileError::IllegalDataSource(kind)) => assert_eq!(kind, "mutable reference"),
        other => panic!("unexpected result {:?}", other),
    }
    let mut exclusive = DataSource::MutReference(stack(8, 8), nowhere(), true);
    exclusive.new_mut_ref(x.clone()).unwrap();
    assert!(matches!(&exclusive, DataSource::MutReference(_, loc, false) if loc.name == "x"));
    match exclusive.new_ref(x.clone()) {
        Err(CompileError::IllegalDataSource(kind)) => assert_eq!(kind, "shared reference"),
        other => panic!("unexpected result {:?}", other),
    }
    let mut owned = DataSource::Location(stack(0, 4));
    assert!(owned.new_ref(x).is_err());
    let mut c = compiler();
    owned.remove_dependencies(&mut c).unwrap();
}

#[test]
fn borrow_state_transitions() {
    let mut s = BorrowState::Free;
    assert!(!s.is_borrowed());
    s.borrow_mut().unwrap();
    assert_eq!(s, BorrowState::Mut);
    assert!(s.is_borrowed());
    assert!(s.is_borrowed_mut());
    assert!(!s.is_borrowed_shared());
    assert!(matches!(s.borrow_mut(), Err(CompileError::IllegalMutBorrow)));
    assert!(matches!(s.inc_shared(), Err(CompileError::IllegalSharedBorrow)));
    assert!(matches!(s.dec_shared(), Err(CompileError::IllegalBorrowState)));
    assert_eq!(s, BorrowState::Mut);
    s.free_mut().unwrap();
    assert_eq!(s, BorrowState::Free);
    assert!(matches!(s.free_mut(), Err(CompileError::IllegalBorrowState)));
    s.inc_shared().unwrap();
    assert!(s.is_borrowed_shared());
    assert!(!s.is_borrowed_mut());
    assert!(matches!(s.borrow_mut(), Err(CompileError::IllegalMutBorrow)));
    assert!(matches!(s.free_mut(), Err(CompileError::IllegalBorrowState)));
    assert_eq!(s, BorrowState::Shared(1));
    let mut zero = BorrowState::Shared(0);
    assert!(matches!(zero.dec_shared(), Err(CompileError::IllegalBorrowState)));
    assert_eq!(zero, BorrowState::Shared(0));
}

#[test]
fn inc_and_dec_shared_many_times() {
    let mut s = BorrowState::Free;
    for _ in 0..100 {
        s.inc_shared().unwrap();
    }
    assert_eq!(s, BorrowState::Shared(100));
    for _ in 0..100 {
        s.dec_shared().unwrap();
    }
    assert_eq!(s, BorrowState::Free);
}

#[test]
fn variable_handle_is_built() {
    let h = FerrumVariableHandle::new(String::from("x"), u32_type(), stack(0, 4), true, true, true);
    let text = format!("{:?}", h);
    assert!(text.contains("x"));
}
