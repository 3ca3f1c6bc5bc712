use pokt_bridge::address::Address;
use pokt_bridge::error::BridgeError;
use pokt_bridge::model::Caller;
use pokt_bridge::processor::Processor;

const LOCAL_CHAIN: u64 = 5;
const REMOTE_CHAIN: u64 = 7;
const START: u64 = 1_000_000;

fn addr(b: u8) -> Address {
    Address::new([b; 32])
}

fn owner() -> Caller {
    Caller { key: addr(1), is_signer: true }
}

fn bridge_with_token(fee: u64, limit: u64) -> Processor {
    let mut p = Processor::new();
    p.construct(&owner(), addr(2), addr(3), LOCAL_CHAIN, 0, START).unwrap();
    p.add_token(&owner(), 2, addr(4), fee, limit, START).unwrap();
    p
}

fn snapshot(p: &Processor) -> String {
    format!("{:?} {:?} {:?} {}", p.config(), p.token(1), p.token(2), p.daily_claims(2))
}

#[test]
fn non_owner_admin_calls_are_unauthorized() {
    let mut p = bridge_with_token(0, 0);
    p.transfer_request(&owner(), 2, addr(8), 1000, REMOTE_CHAIN, START).unwrap();
    let before = snapshot(&p);
    for stranger in [Caller { key: addr(9), is_signer: true }, Caller { key: addr(1), is_signer: false }] {
        let u = Err(BridgeError::Unauthorized);
        assert_eq!(p.update_verify_address(&stranger, addr(6)), u);
        assert_eq!(p.update_token_limit(&stranger, 2, 5), u);
        assert_eq!(p.set_token_limit_time(&stranger, 2, 5), u);
        assert_eq!(p.update_stable_fee(&stranger, 5, START), u);
        assert_eq!(p.update_token_fee(&stranger, 2, 5, START), u);
        assert_eq!(p.withdraw_fees(&stranger, 2).unwrap_err(), BridgeError::Unauthorized);
        assert_eq!(p.add_token(&stranger, 3, addr(5), 0, 0, START), u);
        assert_eq!(p.pause_token(&stranger, 2), u);
        assert_eq!(p.unpause_token(&stranger, 2), u);
        assert_eq!(p.renounce_ownership(&stranger), u);
        assert_eq!(p.transfer_ownership(&stranger, addr(9)), u);
        assert_eq!(snapshot(&p), before);
    }
}

#[test]
fn withdraw_nothing_fails() {
    let mut p = bridge_with_token(0, 0);
    let before = snapshot(&p);
    assert_eq!(p.withdraw_fees(&owner(), 2).unwrap_err(), BridgeError::NothingToWithdraw);
    assert_eq!(snapshot(&p), before);
    assert_eq!(p.withdraw_fees(&owner(), 8).unwrap_err(), BridgeError::MapKeyNotFound);
}

#[test]
fn token_fee_change_is_delayed() {
    let mut p = bridge_with_token(0, 0);
    let t0 = START + 100;
    p.update_token_fee(&owner(), 2, 20_000_000_000_000_000, t0).unwrap();
    let t = p.token(2).unwrap();
    assert_eq!(t.fee_update_time, t0 + 1);
    assert_eq!(t.new_fee, 20_000_000_000_000_000);
    assert_eq!(p.calculate_fee(2, 1000).unwrap().fee, 0);
    p.update_fees(2, t0 + 1).unwrap();
    assert_eq!(p.token(2).unwrap().fee, 0);
    assert_eq!(p.calculate_fee(2, 1000).unwrap().fee, 0);
    let (ticket, _) = p.transfer_request(&owner(), 2, addr(8), 1000, REMOTE_CHAIN, t0 + 1).unwrap();
    assert_eq!(ticket.fee, 0);
    p.update_fees(2, t0 + 2).unwrap();
    let t = p.token(2).unwrap();
    assert_eq!(t.fee, 20_000_000_000_000_000);
    assert_eq!(t.fee_update_time, 0);
    assert_eq!(p.calculate_fee(2, 500).unwrap().fee, 10);
    assert_eq!(p.calculate_fee(2, 1000).unwrap_err(), BridgeError::Overflow);
}

#[test]
fn stable_fee_change_is_delayed_and_swept_by_request() {
    let mut p = bridge_with_token(0, 0);
    p.update_stable_fee(&owner(), 30_000_000_000_000_000, START).unwrap();
    assert_eq!(p.config().stable_fee_update_time, START + 1);
    assert_eq!(p.calculate_fee(2, 100).unwrap().fee, 0);
    let (ticket, _) = p.transfer_request(&owner(), 2, addr(8), 100, REMOTE_CHAIN, START + 5).unwrap();
    assert_eq!(ticket.fee, 3);
    assert_eq!(p.config().stable_fee, 30_000_000_000_000_000);
    assert_eq!(p.config().stable_fee_update_time, 0);
}

#[test]
fn fee_schedule_overflow() {
    let mut p = bridge_with_token(0, 0);
    assert_eq!(p.update_stable_fee(&owner(), 5, u64::MAX), Err(BridgeError::Overflow));
    assert_eq!(p.update_token_fee(&owner(), 2, 5, u64::MAX), Err(BridgeError::Overflow));
    assert_eq!(p.update_token_fee(&owner(), 3, 5, START), Err(BridgeError::MapKeyNotFound));
}

#[test]
fn add_token_checks() {
    let mut p = bridge_with_token(0, 0);
    assert_eq!(p.add_token(&owner(), 2, addr(5), 0, 0, START), Err(BridgeError::TokenAlreadyAdded));
    assert_eq!(p.add_token(&owner(), 3, addr(5), 0, 0, u64::MAX), Err(BridgeError::Overflow));
    assert!(p.token(3).is_none());
    p.add_token(&owner(), 3, addr(5), 7, 9, START).unwrap();
    let t = p.token(3).unwrap();
    assert_eq!(t.fee, 7);
    assert_eq!(t.limit, 9);
    assert_eq!(t.limit_timestamp, START + 86400);
}

#[test]
fn pause_and_unpause() {
    let mut p = bridge_with_token(0, 0);
    assert_eq!(p.unpause_token(&owner(), 2), Err(BridgeError::TokenAlreadyUnpaused));
    p.pause_token(&owner(), 2).unwrap();
    assert!(p.token(2).unwrap().paused);
    assert_eq!(p.pause_token(&owner(), 2), Err(BridgeError::TokenAlreadyPaused));
    p.unpause_token(&owner(), 2).unwrap();
    assert!(!p.token(2).unwrap().paused);
    assert_eq!(p.pause_token(&owner(), 4), Err(BridgeError::MapKeyNotFound));
}

#[test]
fn limits_and_verifier_updates() {
    let mut p = bridge_with_token(0, 0);
    p.update_token_limit(&owner(), 2, 1000000).unwrap();
    assert_eq!(p.token(2).unwrap().limit, 1000000);
    p.set_token_limit_time(&owner(), 2, 1234).unwrap();
    assert_eq!(p.token(2).unwrap().limit_timestamp, 1234);
    assert_eq!(p.set_token_limit_time(&owner(), 6, 1234), Err(BridgeError::MapKeyNotFound));
    p.update_verify_address(&owner(), addr(6)).unwrap();
    assert_eq!(p.config().verify_address, addr(6));
}

#[test]
fn ownership_moves() {
    let mut p = bridge_with_token(0, 0);
    assert_eq!(p.transfer_ownership(&owner(), Address::zero()), Err(BridgeError::InvalidArgument));
    p.transfer_ownership(&owner(), addr(9)).unwrap();
    assert_eq!(p.config().owner, addr(9));
    assert_eq!(p.pause_token(&owner(), 2), Err(BridgeError::Unauthorized));
    let new_owner = Caller { key: addr(9), is_signer: true };
    p.renounce_ownership(&new_owner).unwrap();
    assert!(p.config().owner.is_zero());
    assert_eq!(p.pause_token(&new_owner, 2), Err(BridgeError::Unauthorized));
}
