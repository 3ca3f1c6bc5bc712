use pokt_bridge::address::Address;
use pokt_bridge::error::BridgeError;
use pokt_bridge::fee::{fee_at_rate, TEN_POW_18};
use pokt_bridge::ledger::{decimal_string, ClaimedDictionary};
use pokt_bridge::model::{BridgeInstruction, Caller, Context, Outcome};
use pokt_bridge::processor::Processor;
use pokt_bridge::state::{receipt_message, u64_le_bytes, DailyTokenClaimsDictionary};

#[test]
fn fee_is_floor_of_scaled_product() {
    assert_eq!(fee_at_rate(5_000_000_000_000_000, 1000), Ok(5));
    assert_eq!(fee_at_rate(10_000_000_000_000_000, 1234), Ok(12));
    assert_eq!(fee_at_rate(10_000_000_000_000_000, 12345), Err(BridgeError::Overflow));
    assert_eq!(fee_at_rate(1, 999), Ok(0));
    assert_eq!(fee_at_rate(0, 1_000_000), Ok(0));
}

#[test]
fn fee_at_or_above_unity_is_waived() {
    assert_eq!(fee_at_rate(TEN_POW_18, 1000), Ok(0));
    assert_eq!(fee_at_rate(u64::MAX, u64::MAX), Ok(0));
}

#[test]
fn fee_product_overflow() {
    assert_eq!(fee_at_rate(TEN_POW_18 - 1, 19), Err(BridgeError::Overflow));
    assert_eq!(fee_at_rate(2, u64::MAX / 2), Ok(18));
}

#[test]
fn claimed_key_text() {
    assert_eq!(ClaimedDictionary::generate_key(12, 345), "12-345");
    assert_eq!(ClaimedDictionary::generate_key(0, u64::MAX), "0-18446744073709551615");
    assert_eq!(decimal_string(1000), "1000");
}

#[test]
fn replay_ledger_set() {
    let mut d = ClaimedDictionary::new();
    assert!(!d.is_claimed(1, 2));
    d.claim(1, 2);
    assert!(d.is_claimed(1, 2));
    assert!(!d.is_claimed(2, 1));
}

#[test]
fn seeds_are_little_endian() {
    let s = ClaimedDictionary::generate_pda_seeds_vec(0x0102, 7);
    assert_eq!(s, vec![vec![2, 1, 0, 0, 0, 0, 0, 0], vec![7, 0, 0, 0, 0, 0, 0, 0]]);
    let d = DailyTokenClaimsDictionary::generate_pda_seeds_vec(u64::MAX - 1);
    assert_eq!(d, vec![vec![254, 255, 255, 255, 255, 255, 255, 255]]);
    assert_eq!(u64_le_bytes(0x1122334455667788), 0x1122334455667788u64.to_le_bytes().to_vec());
}

#[test]
fn receipt_message_layout() {
    let from = Address::new([3; 32]);
    let to = Address::new([4; 32]);
    let m = receipt_message(2, &from, &to, 500, 7, 9);
    let mut expected = 2u64.to_le_bytes().to_vec();
    expected.extend_from_slice(&[3; 32]);
    expected.extend_from_slice(&[4; 32]);
    expected.extend_from_slice(&500u64.to_le_bytes());
    expected.extend_from_slice(&7u64.to_le_bytes());
    expected.extend_from_slice(&9u64.to_le_bytes());
    assert_eq!(m.len(), 96);
    assert_eq!(m, expected);
}

#[test]
fn error_codes_follow_declaration_order() {
    assert_eq!(BridgeError::Underflow.code(), 0);
    assert_eq!(BridgeError::MapKeyNotFound.code(), 3);
    assert_eq!(BridgeError::AlreadyClaimed.code(), 10);
    assert_eq!(BridgeError::InvalidArgument.code(), 18);
    assert_eq!(BridgeError::NothingToWithdraw.message(), "Nothing to withdraw.");
}

#[test]
fn process_dispatches_instructions() {
    let owner = Caller { key: Address::new([1; 32]), is_signer: true };
    let cx = Context { caller: owner, now: 1000, signature_valid: true };
    let mut p = Processor::new();
    let ix = BridgeInstruction::Construct {
        w_pokt_address: Address::new([2; 32]),
        verify_address: Address::new([3; 32]),
        chain_id: 5,
        stable_fee: 5_000_000_000_000_000,
    };
    assert!(matches!(p.process(ix, &cx), Ok(Outcome::Movement(_))));
    let ix = BridgeInstruction::CalculateFee { token_index: 1, amount: 1000 };
    assert!(matches!(p.process(ix, &cx), Ok(Outcome::Fee(f)) if f.fee == 5));
    let ix = BridgeInstruction::TransferRequest { token_index: 1, to: Address::new([8; 32]), amount: 1000, chain_id: 6 };
    assert!(matches!(p.process(ix, &cx), Ok(Outcome::Requested(t, _)) if t.fee == 5 && t.net_amount == 995));
    let stranger = Context { caller: Caller { key: Address::new([9; 32]), is_signer: true }, now: 1000, signature_valid: true };
    let ix = BridgeInstruction::PauseTokenOnlyOwner { token_index: 1 };
    assert!(matches!(p.process(ix, &stranger), Err(BridgeError::Unauthorized)));
    let ix = BridgeInstruction::TransferReceipt {
        token_index: 1,
        from: Address::new([7; 32]),
        to: Address::new([8; 32]),
        amount: 10,
        chain_id: 6,
        index: 3,
        signature_account: Address::new([3; 32]),
    };
    assert!(matches!(p.process(ix, &cx), Ok(Outcome::Movement(_))));
    assert!(matches!(p.process(ix, &cx), Err(BridgeError::AlreadyClaimed)));
}
