use ferrum::lang::error::CompileError;
use ferrum::lang::variable::BorrowState;

#[test]
fn shared_borrows_are_counted() {
    let mut state = BorrowState::Free;
    state.inc_shared().unwrap();
    assert_eq!(state, BorrowState::Shared(1));
    state.inc_shared().unwrap();
    assert_eq!(state, BorrowState::Shared(2));
    state.dec_shared().unwrap();
    state.dec_shared().unwrap();
    assert_eq!(state, BorrowState::Free);
}

#[test]
fn dec_shared_on_free_fails() {
    let mut state = BorrowState::Free;
    assert!(matches!(state.dec_shared(), Err(CompileError::IllegalBorrowState)));
    assert_eq!(state, BorrowState::Free);
}
