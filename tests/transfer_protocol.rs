use pokt_bridge::address::Address;
use pokt_bridge::error::BridgeError;
use pokt_bridge::model::{Caller, TokenMovement, BASE_TOKEN_INDEX};
use pokt_bridge::processor::Processor;

const LOCAL_CHAIN: u64 = 5;
const REMOTE_CHAIN: u64 = 7;
const START: u64 = 1_000_000;

fn addr(b: u8) -> Address {
    Address::new([b; 32])
}

fn owner() -> Caller {
    Caller { key: addr(1), is_signer: true }
}

fn user() -> Caller {
    Caller { key: addr(9), is_signer: true }
}

fn bridge_with_token(fee: u64, limit: u64) -> Processor {
    let mut p = Processor::new();
    p.construct(&owner(), addr(2), addr(3), LOCAL_CHAIN, 0, START).unwrap();
    p.add_token(&owner(), 2, addr(4), fee, limit, START).unwrap();
    p
}

#[test]
fn construct_registers_base_token() {
    let mut p = Processor::new();
    let m = p.construct(&owner(), addr(2), addr(3), LOCAL_CHAIN, 42, START).unwrap();
    assert!(matches!(m, TokenMovement::CreateVault { token } if token == addr(2)));
    let cfg = p.config();
    assert!(cfg.is_initialized);
    assert_eq!(cfg.owner, addr(1));
    assert_eq!(cfg.verify_address, addr(3));
    assert_eq!(cfg.chain_id, LOCAL_CHAIN);
    assert_eq!(cfg.stable_fee, 42);
    assert_eq!(cfg.fee_update_duration, 1);
    assert_eq!(cfg.current_index, 1);
    let t = p.token(BASE_TOKEN_INDEX).unwrap();
    assert!(t.exists);
    assert!(!t.paused);
    assert_eq!(t.token_address, addr(2));
    assert_eq!(t.total_fees_collected, 0);
    assert_eq!(t.limit_timestamp, START + 86400);
}

#[test]
fn construct_twice_fails() {
    let mut p = bridge_with_token(0, 0);
    let r = p.construct(&owner(), addr(2), addr(3), LOCAL_CHAIN, 0, START);
    assert_eq!(r.unwrap_err(), BridgeError::AlreadyInitialized);
}

#[test]
fn construct_needs_signature() {
    let mut p = Processor::new();
    let unsigned = Caller { key: addr(1), is_signer: false };
    let r = p.construct(&unsigned, addr(2), addr(3), LOCAL_CHAIN, 0, START);
    assert_eq!(r.unwrap_err(), BridgeError::MissingSignature);
    assert!(!p.config().is_initialized);
    assert!(p.token(BASE_TOKEN_INDEX).is_none());
}

#[test]
fn operations_need_initialization() {
    let mut p = Processor::new();
    assert_eq!(p.pause_token(&owner(), 1).unwrap_err(), BridgeError::NotInitialized);
    let r = p.transfer_request(&user(), 1, addr(8), 10, REMOTE_CHAIN, START);
    assert_eq!(r.unwrap_err(), BridgeError::NotInitialized);
    assert_eq!(p.calculate_fee(1, 10).unwrap_err(), BridgeError::NotInitialized);
}

#[test]
fn request_takes_half_percent_fee() {
    let mut p = bridge_with_token(5_000_000_000_000_000, 0);
    let before = p.config().current_index;
    let (ticket, m) = p.transfer_request(&user(), 2, addr(8), 1000, REMOTE_CHAIN, START).unwrap();
    assert_eq!(ticket.fee, 5);
    assert_eq!(ticket.net_amount, 995);
    assert_eq!(ticket.index, before);
    assert_eq!(ticket.chain_id, REMOTE_CHAIN);
    assert_eq!(ticket.to, addr(8));
    assert_eq!(p.config().current_index, before + 1);
    assert_eq!(p.token(2).unwrap().total_fees_collected, 5);
    assert!(matches!(m, TokenMovement::Lock { token, from, amount }
        if token == addr(4) && from == addr(9) && amount == 1000));
}

#[test]
fn request_uses_stable_fee_when_token_has_none() {
    let mut p = Processor::new();
    p.construct(&owner(), addr(2), addr(3), LOCAL_CHAIN, 10_000_000_000_000_000, START).unwrap();
    p.add_token(&owner(), 2, addr(4), 0, 0, START).unwrap();
    let (ticket, _) = p.transfer_request(&user(), 2, addr(8), 1234, REMOTE_CHAIN, START).unwrap();
    assert_eq!(ticket.fee, 12);
    assert_eq!(ticket.net_amount, 1222);
}

#[test]
fn fees_accumulate_until_withdrawn() {
    let mut p = bridge_with_token(10_000_000_000_000_000, 0);
    let mut last = 0;
    for amount in [100u64, 250, 1000, 7] {
        p.transfer_request(&user(), 2, addr(8), amount, REMOTE_CHAIN, START).unwrap();
        let now = p.token(2).unwrap().total_fees_collected;
        assert!(now >= last);
        last = now;
    }
    assert_eq!(last, 1 + 2 + 10);
    let m = p.withdraw_fees(&owner(), 2).unwrap();
    assert!(matches!(m, TokenMovement::Release { token, to, amount }
        if token == addr(4) && to == addr(1) && amount == 13));
    assert_eq!(p.token(2).unwrap().total_fees_collected, 0);
}

#[test]
fn request_checks() {
    let mut p = bridge_with_token(0, 0);
    let unsigned = Caller { key: addr(9), is_signer: false };
    let r = p.transfer_request(&unsigned, 2, addr(8), 10, REMOTE_CHAIN, START);
    assert_eq!(r.unwrap_err(), BridgeError::MissingSignature);
    let r = p.transfer_request(&user(), 3, addr(8), 10, REMOTE_CHAIN, START);
    assert_eq!(r.unwrap_err(), BridgeError::NonExistantToken);
    let r = p.transfer_request(&user(), 2, addr(8), 10, LOCAL_CHAIN, START);
    assert_eq!(r.unwrap_err(), BridgeError::RequestToSameChain);
    p.pause_token(&owner(), 2).unwrap();
    let r = p.transfer_request(&user(), 2, addr(8), 10, REMOTE_CHAIN, START);
    assert_eq!(r.unwrap_err(), BridgeError::TokenAlreadyPaused);
    assert_eq!(p.config().current_index, 1);
}

#[test]
fn request_fee_overflow_changes_nothing() {
    let mut p = bridge_with_token(500_000_000_000_000_000, 0);
    let r = p.transfer_request(&user(), 2, addr(8), u64::MAX, REMOTE_CHAIN, START);
    assert_eq!(r.unwrap_err(), BridgeError::Overflow);
    assert_eq!(p.config().current_index, 1);
    assert_eq!(p.token(2).unwrap().total_fees_collected, 0);
}

#[test]
fn receipt_replayed_is_refused() {
    let mut p = bridge_with_token(0, 0);
    let first = p.transfer_receipt(&user(), 2, addr(8), 500, REMOTE_CHAIN, 77, true, START);
    assert!(matches!(first, Ok(TokenMovement::Release { token, to, amount })
        if token == addr(4) && to == addr(8) && amount == 500));
    assert!(p.is_claimed(REMOTE_CHAIN, 77));
    let second = p.transfer_receipt(&user(), 2, addr(8), 500, REMOTE_CHAIN, 77, true, START);
    assert_eq!(second.unwrap_err(), BridgeError::AlreadyClaimed);
}

#[test]
fn receipt_same_key_other_arguments_is_refused() {
    let mut p = bridge_with_token(0, 0);
    p.transfer_receipt(&user(), 2, addr(8), 500, REMOTE_CHAIN, 77, true, START).unwrap();
    let r = p.transfer_receipt(&user(), 2, addr(6), 1, REMOTE_CHAIN, 77, true, START + 5);
    assert_eq!(r.unwrap_err(), BridgeError::AlreadyClaimed);
    let r = p.transfer_receipt(&user(), 2, addr(6), 1, REMOTE_CHAIN, 78, true, START + 5);
    assert!(r.is_ok());
    let r = p.transfer_receipt(&user(), 2, addr(6), 1, 11, 77, true, START + 5);
    assert!(r.is_ok());
}

#[test]
fn receipt_checks() {
    let mut p = bridge_with_token(0, 0);
    let r = p.transfer_receipt(&user(), 2, addr(8), 5, REMOTE_CHAIN, 1, false, START);
    assert_eq!(r.unwrap_err(), BridgeError::InvalidSignature);
    let r = p.transfer_receipt(&user(), 2, addr(8), 5, LOCAL_CHAIN, 1, true, START);
    assert_eq!(r.unwrap_err(), BridgeError::RequestToSameChain);
    let r = p.transfer_receipt(&user(), 9, addr(8), 5, REMOTE_CHAIN, 1, true, START);
    assert_eq!(r.unwrap_err(), BridgeError::NonExistantToken);
    assert!(!p.is_claimed(REMOTE_CHAIN, 1));
}

#[test]
fn daily_limit_refuses_excess() {
    let mut p = bridge_with_token(0, 100);
    let r = p.transfer_receipt(&user(), 2, addr(8), 60, REMOTE_CHAIN, 1, true, START);
    assert!(r.is_ok());
    assert_eq!(p.daily_claims(2), 60);
    let r = p.transfer_receipt(&user(), 2, addr(8), 50, REMOTE_CHAIN, 2, true, START);
    assert_eq!(r.unwrap_err(), BridgeError::ClaimAboveDailyLimit);
    assert_eq!(p.daily_claims(2), 60);
    assert!(!p.is_claimed(REMOTE_CHAIN, 2));
    let r = p.transfer_receipt(&user(), 2, addr(8), 40, REMOTE_CHAIN, 3, true, START);
    assert!(r.is_ok());
    assert_eq!(p.daily_claims(2), 100);
}

#[test]
fn daily_window_rolls_over() {
    let mut p = bridge_with_token(0, 100);
    p.transfer_receipt(&user(), 2, addr(8), 90, REMOTE_CHAIN, 1, true, START).unwrap();
    let end = p.token(2).unwrap().limit_timestamp;
    let r = p.transfer_receipt(&user(), 2, addr(8), 20, REMOTE_CHAIN, 2, true, end);
    assert_eq!(r.unwrap_err(), BridgeError::ClaimAboveDailyLimit);
    let later = end + 1;
    p.transfer_receipt(&user(), 2, addr(8), 20, REMOTE_CHAIN, 3, true, later).unwrap();
    assert_eq!(p.daily_claims(2), 20);
    assert_eq!(p.token(2).unwrap().limit_timestamp, later + 86400);
}

#[test]
fn unlimited_token_keeps_no_count() {
    let mut p = bridge_with_token(0, 0);
    p.transfer_receipt(&user(), 2, addr(8), u64::MAX, REMOTE_CHAIN, 1, true, START).unwrap();
    assert_eq!(p.daily_claims(2), 0);
}
