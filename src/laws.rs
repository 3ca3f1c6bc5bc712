use vstd::prelude::*;

use crate::address::Address;
use crate::error::BridgeError;
use crate::model::{
    calculate_fee_spec, process_spec, transfer_receipt_spec, transfer_request_spec,
    update_fees_spec, update_stable_fee_spec, update_token_fee_spec, bridge_swept,
    BridgeInstruction, BridgeState, Caller, Context,
};
use crate::state::window_rolls;

verus! {

/// A receipt whose `(chain_id, index)` has already been honored is refused,
/// whatever its other arguments.
pub proof fn lemma_claimed_key_refused(
    s: BridgeState,
    token_index: u64,
    to: Address,
    amount: u64,
    chain_id: u64,
    index: u64,
    signature_valid: bool,
    caller: Caller,
    now: u64,
)
    requires
        s.claimed.contains((chain_id, index)),
    ensures
        transfer_receipt_spec(s, token_index, to, amount, chain_id, index, signature_valid, caller, now) is Err,
{
}

/// Once a receipt is honored, a second receipt with the same token,
/// `(chain_id, index)`, caller and signature verdict fails `AlreadyClaimed`,
/// whatever its recipient, amount and time.
pub proof fn lemma_replay_refused(
    s: BridgeState,
    token_index: u64,
    to: Address,
    amount: u64,
    chain_id: u64,
    index: u64,
    signature_valid: bool,
    caller: Caller,
    now: u64,
    to2: Address,
    amount2: u64,
    now2: u64,
)
    requires
        transfer_receipt_spec(s, token_index, to, amount, chain_id, index, signature_valid, caller, now) is Ok,
    ensures
        ({
            let s2 = transfer_receipt_spec(s, token_index, to, amount, chain_id, index, signature_valid, caller, now)->Ok_0.0;
            transfer_receipt_spec(s2, token_index, to2, amount2, chain_id, index, signature_valid, caller, now2)
                == Err::<(BridgeState, crate::model::TokenMovement), BridgeError>(BridgeError::AlreadyClaimed)
        }),
{
}

/// No operation forgets an honored receipt, and no operation removes a token.
pub proof fn lemma_records_persist(s: BridgeState, ix: BridgeInstruction, cx: Context)
    requires
        process_spec(s, ix, cx) is Ok,
    ensures
        ({
            let s2 = process_spec(s, ix, cx)->Ok_0.0;
            &&& s.claimed.subset_of(s2.claimed)
            &&& forall|k: u64| s.tokens.contains_key(k) ==> #[trigger] s2.tokens.contains_key(k)
        }),
{
}

/// Every operation keeps the records well formed.
pub proof fn lemma_wf_preserved(s: BridgeState, ix: BridgeInstruction, cx: Context)
    requires
        s.wf(),
        process_spec(s, ix, cx) is Ok,
    ensures
        process_spec(s, ix, cx)->Ok_0.0.wf(),
{
}

/// Collected fees never decrease, except by a fee withdrawal.
pub proof fn lemma_fees_only_drained_by_withdrawal(s: BridgeState, ix: BridgeInstruction, cx: Context)
    requires
        s.wf(),
        process_spec(s, ix, cx) is Ok,
        !(ix is WithdrawFeesOnlyOwner),
    ensures
        ({
            let s2 = process_spec(s, ix, cx)->Ok_0.0;
            forall|k: u64| #[trigger] s.tokens.contains_key(k) ==> s2.tokens.contains_key(k)
                && s2.tokens[k].total_fees_collected >= s.tokens[k].total_fees_collected
        }),
{
}

/// An accepted transfer request adds exactly its fee to the token's
/// collected fees and leaves every other token's untouched.
pub proof fn lemma_request_collects_fee(
    s: BridgeState,
    token_index: u64,
    to: Address,
    amount: u64,
    chain_id: u64,
    caller: Caller,
    now: u64,
)
    requires
        transfer_request_spec(s, token_index, to, amount, chain_id, caller, now) is Ok,
    ensures
        ({
            let (s2, (ticket, _)) = transfer_request_spec(s, token_index, to, amount, chain_id, caller, now)->Ok_0;
            &&& s2.tokens[token_index].total_fees_collected == s.tokens[token_index].total_fees_collected + ticket.fee
            &&& ticket.fee + ticket.net_amount == amount
            &&& s2.bridge.current_index == s.bridge.current_index + 1
            &&& forall|k: u64| k != token_index && #[trigger] s.tokens.contains_key(k) ==> s2.tokens[k] == s.tokens[k]
        }),
{
    let b = bridge_swept(s.bridge, now);
    let t = s.tokens[token_index].spec_swept(now);
    crate::fee::lemma_fee_at_most_amount(crate::fee::effective_rate(t.fee, b.stable_fee), amount);
}

/// A token rate scheduled at time `at` is not used until a sweep at a time
/// past `at` plus the configured delay: right after scheduling the computed
/// fee is unchanged, a sweep at or before that moment keeps the old rate, and
/// a sweep after it installs the new one.
pub proof fn lemma_token_fee_delayed(
    s: BridgeState,
    caller: Caller,
    token_index: u64,
    new_fee: u64,
    at: u64,
    now: u64,
    amount: u64,
)
    requires
        s.wf(),
        update_token_fee_spec(s, caller, token_index, new_fee, at) is Ok,
    ensures
        ({
            let s2 = update_token_fee_spec(s, caller, token_index, new_fee, at)->Ok_0;
            &&& calculate_fee_spec(s2, token_index, amount) == calculate_fee_spec(s, token_index, amount)
            &&& now <= at + s.bridge.fee_update_duration ==> update_fees_spec(s2, token_index, now)->Ok_0.tokens[token_index].fee
                == s.tokens[token_index].fee
            &&& now > at + s.bridge.fee_update_duration ==> update_fees_spec(s2, token_index, now)->Ok_0.tokens[token_index].fee
                == new_fee
            &&& now <= at + s.bridge.fee_update_duration ==> s2.tokens[token_index].spec_swept(now).fee == s.tokens[token_index].fee
        }),
{
}

/// The bridge-wide rate obeys the same delay as a token's own rate.
pub proof fn lemma_stable_fee_delayed(s: BridgeState, caller: Caller, new_stable_fee: u64, at: u64, now: u64)
    requires
        s.wf(),
        update_stable_fee_spec(s, caller, new_stable_fee, at) is Ok,
    ensures
        ({
            let s2 = update_stable_fee_spec(s, caller, new_stable_fee, at)->Ok_0;
            &&& s2.bridge.stable_fee == s.bridge.stable_fee
            &&& now <= at + s.bridge.fee_update_duration ==> bridge_swept(s2.bridge, now).stable_fee == s.bridge.stable_fee
            &&& now > at + s.bridge.fee_update_duration ==> bridge_swept(s2.bridge, now).stable_fee == new_stable_fee
        }),
{
}

/// On a token with a daily limit, an honored receipt adds its amount to the
/// window's total (which restarts at 0 when the window has passed), and that
/// total never exceeds the limit.
pub proof fn lemma_daily_limit_respected(
    s: BridgeState,
    token_index: u64,
    to: Address,
    amount: u64,
    chain_id: u64,
    index: u64,
    signature_valid: bool,
    caller: Caller,
    now: u64,
)
    requires
        transfer_receipt_spec(s, token_index, to, amount, chain_id, index, signature_valid, caller, now) is Ok,
        s.tokens[token_index].limit > 0,
    ensures
        ({
            let s2 = transfer_receipt_spec(s, token_index, to, amount, chain_id, index, signature_valid, caller, now)->Ok_0.0;
            let base: int = if window_rolls(s.tokens[token_index].limit_timestamp, now) {
                0
            } else {
                s.claims_of(token_index) as int
            };
            &&& s2.claims_of(token_index) == base + amount
            &&& s2.claims_of(token_index) <= s2.tokens[token_index].limit
            &&& s2.tokens[token_index].limit == s.tokens[token_index].limit
        }),
{
}

/// Every admin operation called by anyone but the owner, signing, fails
/// `Unauthorized`; the operation then changes no record.
pub proof fn lemma_admin_requires_owner(s: BridgeState, ix: BridgeInstruction, cx: Context)
    requires
        ix.is_admin(),
        s.bridge.is_initialized,
        !s.bridge.spec_is_owner(cx.caller.key, cx.caller.is_signer),
    ensures
        process_spec(s, ix, cx) == Err::<(BridgeState, crate::model::Outcome), BridgeError>(BridgeError::Unauthorized),
{
}

/// The arguments of one transfer receipt.
pub struct ReceiptCall {
    pub token_index: u64,
    pub to: Address,
    pub amount: u64,
    pub chain_id: u64,
    pub index: u64,
    pub signature_valid: bool,
    pub caller: Caller,
    pub now: u64,
}

/// The model result of one receipt.
pub open spec fn receipt_of(s: BridgeState, c: ReceiptCall) -> Result<(BridgeState, crate::model::TokenMovement), BridgeError> {
    transfer_receipt_spec(s, c.token_index, c.to, c.amount, c.chain_id, c.index, c.signature_valid, c.caller, c.now)
}

/// The records after submitting the receipts `rs` in order; a refused
/// receipt changes nothing.
pub open spec fn after_receipts(s: BridgeState, rs: Seq<ReceiptCall>) -> BridgeState
    decreases rs.len(),
{
    if rs.len() == 0 {
        s
    } else {
        let p = after_receipts(s, rs.drop_last());
        match receipt_of(p, rs.last()) {
            Ok((s2, _)) => s2,
            Err(_) => p,
        }
    }
}

/// The sum of the amounts of the receipts in `rs` on token `k` that were honored.
pub open spec fn honored_total(s: BridgeState, rs: Seq<ReceiptCall>, k: u64) -> int
    decreases rs.len(),
{
    if rs.len() == 0 {
        0
    } else {
        let p = after_receipts(s, rs.drop_last());
        honored_total(s, rs.drop_last(), k) + if rs.last().token_index == k && receipt_of(p, rs.last()) is Ok {
            rs.last().amount as int
        } else {
            0
        }
    }
}

/// Within one daily window, the amounts that receipts release on a token
/// with a limit add up to at most that limit: for receipts submitted no
/// later than the end of the token's current window, the window's claim
/// counter grows by exactly the honored amounts, and these never exceed
/// the limit.
pub proof fn lemma_window_total_within_limit(s: BridgeState, rs: Seq<ReceiptCall>, k: u64)
    requires
        s.tokens.contains_key(k),
        s.tokens[k].limit > 0,
        forall|i: int| 0 <= i < rs.len() ==> #[trigger] rs[i].now <= s.tokens[k].limit_timestamp,
    ensures
        after_receipts(s, rs).tokens.contains_key(k),
        after_receipts(s, rs).tokens[k].limit == s.tokens[k].limit,
        after_receipts(s, rs).tokens[k].limit_timestamp == s.tokens[k].limit_timestamp,
        after_receipts(s, rs).claims_of(k) == s.claims_of(k) + honored_total(s, rs, k),
        honored_total(s, rs, k) > 0 ==> after_receipts(s, rs).claims_of(k) <= s.tokens[k].limit,
        0 <= honored_total(s, rs, k) <= s.tokens[k].limit,
    decreases rs.len(),
{
    if rs.len() > 0 {
        let prev = rs.drop_last();
        assert forall|i: int| 0 <= i < prev.len() implies #[trigger] prev[i].now <= s.tokens[k].limit_timestamp by {
            assert(prev[i] == rs[i]);
        }
        lemma_window_total_within_limit(s, prev, k);
        assert(rs.last() == rs[rs.len() - 1]);
    }
}

/// The records after running the operations `ops` in order, each with its
/// context; a refused operation changes nothing.
pub open spec fn after_ops(s: BridgeState, ops: Seq<(BridgeInstruction, Context)>) -> BridgeState
    decreases ops.len(),
{
    if ops.len() == 0 {
        s
    } else {
        let p = after_ops(s, ops.drop_last());
        match process_spec(p, ops.last().0, ops.last().1) {
            Ok((s2, _)) => s2,
            Err(_) => p,
        }
    }
}

/// Over any run of operations without a fee withdrawal, every token's
/// collected fees are non-decreasing, honored receipts stay honored, and the
/// records stay well formed.
pub proof fn lemma_run_keeps_fees_and_claims(s: BridgeState, ops: Seq<(BridgeInstruction, Context)>)
    requires
        s.wf(),
        forall|i: int| 0 <= i < ops.len() ==> !(#[trigger] ops[i].0 is WithdrawFeesOnlyOwner),
    ensures
        after_ops(s, ops).wf(),
        s.claimed.subset_of(after_ops(s, ops).claimed),
        forall|k: u64| #[trigger] s.tokens.contains_key(k) ==> after_ops(s, ops).tokens.contains_key(k)
            && after_ops(s, ops).tokens[k].total_fees_collected >= s.tokens[k].total_fees_collected,
    decreases ops.len(),
{
    if ops.len() > 0 {
        let prev = ops.drop_last();
        assert forall|i: int| 0 <= i < prev.len() implies !(#[trigger] prev[i].0 is WithdrawFeesOnlyOwner) by {
            assert(prev[i] == ops[i]);
        }
        lemma_run_keeps_fees_and_claims(s, prev);
        let p = after_ops(s, prev);
        let last = ops.last();
        assert(last == ops[ops.len() - 1]);
        if process_spec(p, last.0, last.1) is Ok {
            lemma_wf_preserved(p, last.0, last.1);
            lemma_records_persist(p, last.0, last.1);
            lemma_fees_only_drained_by_withdrawal(p, last.0, last.1);
        }
    }
}

} // verus!
