use investor_solana::errors::ErrorCode;
use investor_solana::ids::AccountId;
use investor_solana::session::close_session;
use investor_solana::session::create_session;
use investor_solana::session::record_swap_outcome;

#[test]
fn create_session_opens() {
    let s = create_session(AccountId(1), 1_000_000, 2_000_000);
    assert!(s.is_active);
    assert_eq!(s.basic_deposit_amount, 1_000_000);
    assert_eq!(s.total_deposit, 2_000_000);
    assert_eq!(s.authority, AccountId(1));
    assert_eq!(s.winner_token_amount, 0);
    assert_eq!(s.winner_token, AccountId(0));
}

#[test]
fn close_marks_inactive_and_orders_full_swap() {
    let mut s = create_session(AccountId(1), 1_000_000, 2_000_000);
    let req = close_session(&mut s, AccountId(1), AccountId(42)).unwrap();
    assert!(!s.is_active);
    assert_eq!(s.winner_token, AccountId(42));
    assert_eq!(req.input_amount, 2_000_000);
    assert_eq!(req.max_input_slippage, u64::MAX);
    assert_eq!(req.target, AccountId(42));
}

#[test]
fn second_close_is_rejected() {
    let mut s = create_session(AccountId(1), 1_000_000, 2_000_000);
    close_session(&mut s, AccountId(1), AccountId(42)).unwrap();
    let after_first = s;
    let r = close_session(&mut s, AccountId(1), AccountId(43));
    assert_eq!(r, Err(ErrorCode::SessionInactive));
    assert_eq!(s, after_first);
    assert!(!s.is_active);
}

#[test]
fn close_by_stranger_is_unauthorized() {
    let mut s = create_session(AccountId(1), 1_000_000, 2_000_000);
    let before = s;
    let r = close_session(&mut s, AccountId(2), AccountId(42));
    assert_eq!(r, Err(ErrorCode::Unauthorized));
    assert_eq!(s, before);
    assert!(s.is_active);
}

#[test]
fn record_outcome_before_close_fails() {
    let mut s = create_session(AccountId(1), 1_000_000, 2_000_000);
    let before = s;
    let r = record_swap_outcome(&mut s, AccountId(1), 5_000_000);
    assert_eq!(r, Err(ErrorCode::SessionIsActive));
    assert_eq!(s, before);
}

#[test]
fn record_outcome_by_stranger_is_unauthorized() {
    let mut s = create_session(AccountId(1), 1_000_000, 2_000_000);
    close_session(&mut s, AccountId(1), AccountId(42)).unwrap();
    let before = s;
    let r = record_swap_outcome(&mut s, AccountId(2), 5_000_000);
    assert_eq!(r, Err(ErrorCode::Unauthorized));
    assert_eq!(s, before);
}

#[test]
fn record_outcome_stores_amount() {
    let mut s = create_session(AccountId(1), 1_000_000, 2_000_000);
    close_session(&mut s, AccountId(1), AccountId(42)).unwrap();
    record_swap_outcome(&mut s, AccountId(1), 5_000_000).unwrap();
    assert_eq!(s.winner_token_amount, 5_000_000);
    assert!(!s.is_active);
}
