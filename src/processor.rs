use vstd::prelude::*;

use std::collections::HashMap;

use crate::address::Address;
use crate::error::BridgeError;
use crate::fee::{fee_at_rate, lemma_fee_at_most_amount};
use crate::ledger::ClaimedDictionary;
use crate::model::{
    add_token_spec, calculate_fee_spec, construct_spec, renounce_ownership_spec,
    set_token_limit_time_spec, transfer_ownership_spec, unpause_token_spec,
    update_fees_spec, update_stable_fee_spec, update_token_fee_spec, update_token_limit_spec,
    update_verify_address_spec, withdraw_fees_spec, pause_token_spec, transfer_request_spec,
    transfer_receipt_spec, process_spec, BridgeInstruction, BridgeState, Caller, Context, Outcome, TokenMovement, TransferTicket, BASE_TOKEN_INDEX,
};
use crate::state::{
    check_and_consume, Bridge, CalcuateFeeResult, DailyTokenClaimsDictionary,
    TokenListDictionary,
};

verus! {

broadcast use vstd::std_specs::hash::group_hash_axioms;

/// A bridge controller: its configuration, token registry, daily claim
/// counters and replay guard. Each operation either applies in full or
/// fails and changes nothing.
pub struct Processor {
    bridge: Bridge,
    tokens: HashMap<u64, TokenListDictionary>,
    claimed: ClaimedDictionary,
    daily: HashMap<u64, DailyTokenClaimsDictionary>,
}

impl View for Processor {
    type V = BridgeState;

    closed spec fn view(&self) -> BridgeState {
        BridgeState {
            bridge: self.bridge,
            tokens: self.tokens@,
            claimed: self.claimed@,
            daily: self.daily@,
        }
    }
}

/// `r` and the records after the call `post` are as the model `p` gives them
/// from the records before the call `pre`; a refusal changes nothing.
pub open spec fn follows<T>(
    p: Result<(BridgeState, T), BridgeError>,
    r: Result<T, BridgeError>,
    pre: Processor,
    post: Processor,
) -> bool {
    match p {
        Ok((s, out)) => r == Ok::<T, BridgeError>(out) && post@ == s,
        Err(e) => r == Err::<T, BridgeError>(e) && post == pre,
    }
}

/// As `follows`, for an operation that hands back nothing.
pub open spec fn follows_unit(
    p: Result<BridgeState, BridgeError>,
    r: Result<(), BridgeError>,
    pre: Processor,
    post: Processor,
) -> bool {
    match p {
        Ok(s) => r is Ok && post@ == s,
        Err(e) => r == Err::<(), BridgeError>(e) && post == pre,
    }
}

impl Processor {
    /// A bridge that is not initialized yet, with no records.
    pub fn new() -> (r: Processor)
        ensures
            !r@.bridge.is_initialized,
            r@.wf(),
            r@.tokens == Map::<u64, TokenListDictionary>::empty(),
            r@.claimed == Set::<(u64, u64)>::empty(),
            r@.daily == Map::<u64, DailyTokenClaimsDictionary>::empty(),
    {
        let r = Processor {
            bridge: Bridge::uninitialized(),
            tokens: HashMap::new(),
            claimed: ClaimedDictionary::new(),
            daily: HashMap::new(),
        };
        assert(r@.tokens.dom() =~= Set::<u64>::empty());
        r
    }

    /// The bridge-wide configuration.
    pub fn config(&self) -> (r: Bridge)
        ensures
            r == self@.bridge,
    {
        self.bridge
    }

    /// The record of token `index`, if one is registered.
    pub fn token(&self, index: u64) -> (r: Option<TokenListDictionary>)
        ensures
            r == (if self@.tokens.contains_key(index) {
                Some(self@.tokens[index])
            } else {
                None::<TokenListDictionary>
            }),
    {
        match self.tokens.get(&index) {
            Some(t) => Some(*t),
            None => None,
        }
    }

    /// The amount claimed on token `index` in its current window.
    pub fn daily_claims(&self, index: u64) -> (r: u64)
        ensures
            r == self@.claims_of(index),
    {
        match self.daily.get(&index) {
            Some(d) => d.daily_token_claims,
            None => 0,
        }
    }

    /// Whether the receipt for `(chain_id, index)` has been honored.
    pub fn is_claimed(&self, chain_id: u64, index: u64) -> (r: bool)
        ensures
            r == self@.claimed.contains((chain_id, index)),
    {
        self.claimed.is_claimed(chain_id, index)
    }

    fn admin_gate(&self, caller: &Caller) -> (r: Result<(), BridgeError>)
        ensures
            r == self@.admin_gate(*caller),
    {
        if !self.bridge.is_initialized {
            Err(BridgeError::NotInitialized)
        } else if !self.bridge.is_owner(&caller.key, caller.is_signer) {
            Err(BridgeError::Unauthorized)
        } else {
            Ok(())
        }
    }

    fn registered(&self, index: u64) -> (r: Result<TokenListDictionary, BridgeError>)
        ensures
            r == self@.registered(index),
    {
        match self.tokens.get(&index) {
            Some(t) => Ok(*t),
            None => Err(BridgeError::MapKeyNotFound),
        }
    }

    fn active(&self, index: u64) -> (r: Result<TokenListDictionary, BridgeError>)
        ensures
            r == self@.active(index),
    {
        match self.tokens.get(&index) {
            None => Err(BridgeError::NonExistantToken),
            Some(t) => {
                if !t.exists {
                    Err(BridgeError::NonExistantToken)
                } else if t.paused {
                    Err(BridgeError::TokenAlreadyPaused)
                } else {
                    Ok(*t)
                }
            },
        }
    }

    /// Initializes the bridge with `owner` as its owner, and registers
    /// `base_token` at `BASE_TOKEN_INDEX`; the custody service is then to
    /// create that token's vault.
    pub fn construct(
        &mut self,
        owner: &Caller,
        base_token: Address,
        verify_address: Address,
        chain_id: u64,
        stable_fee: u64,
        now: u64,
    ) -> (r: Result<TokenMovement, BridgeError>)
        ensures
            follows(
                construct_spec(old(self)@, *owner, base_token, verify_address, chain_id, stable_fee, now),
                r,
                *old(self),
                *final(self),
            ),
    {
        if self.bridge.is_initialized {
            return Err(BridgeError::AlreadyInitialized);
        }
        if !owner.is_signer {
            return Err(BridgeError::MissingSignature);
        }
        let token = match TokenListDictionary::registered(base_token, 0, 0, now) {
            Err(e) => {
                return Err(e);
            },
            Ok(t) => t,
        };
        self.bridge = Bridge::initialized(owner.key, verify_address, chain_id, stable_fee);
        self.tokens.insert(BASE_TOKEN_INDEX, token);
        Ok(TokenMovement::CreateVault { token: base_token })
    }

    /// Owner only: replaces the key trusted to co-sign receipts.
    pub fn update_verify_address(&mut self, caller: &Caller, verify_address: Address) -> (r: Result<
        (),
        BridgeError,
    >)
        ensures
            follows_unit(
                update_verify_address_spec(old(self)@, *caller, verify_address),
                r,
                *old(self),
                *final(self),
            ),
    {
        self.admin_gate(caller)?;
        self.bridge.verify_address = verify_address;
        Ok(())
    }

    /// Owner only: sets a token's daily limit (0 for none).
    pub fn update_token_limit(&mut self, caller: &Caller, token_index: u64, limit: u64) -> (r: Result<
        (),
        BridgeError,
    >)
        ensures
            follows_unit(
                update_token_limit_spec(old(self)@, *caller, token_index, limit),
                r,
                *old(self),
                *final(self),
            ),
    {
        self.admin_gate(caller)?;
        let mut t = self.registered(token_index)?;
        t.limit = limit;
        self.tokens.insert(token_index, t);
        Ok(())
    }

    /// Owner only: sets the end of a token's current daily window.
    pub fn set_token_limit_time(&mut self, caller: &Caller, token_index: u64, timestamp: u64) -> (r:
        Result<(), BridgeError>)
        ensures
            follows_unit(
                set_token_limit_time_spec(old(self)@, *caller, token_index, timestamp),
                r,
                *old(self),
                *final(self),
            ),
    {
        self.admin_gate(caller)?;
        let mut t = self.registered(token_index)?;
        t.limit_timestamp = timestamp;
        self.tokens.insert(token_index, t);
        Ok(())
    }

    /// Owner only: schedules a new bridge-wide fee rate, active once the
    /// configured delay after `now` has passed and a sweep runs.
    pub fn update_stable_fee(&mut self, caller: &Caller, new_stable_fee: u64, now: u64) -> (r: Result<
        (),
        BridgeError,
    >)
        ensures
            follows_unit(
                update_stable_fee_spec(old(self)@, *caller, new_stable_fee, now),
                r,
                *old(self),
                *final(self),
            ),
    {
        self.admin_gate(caller)?;
        match now.checked_add(self.bridge.fee_update_duration) {
            None => Err(BridgeError::Overflow),
            Some(at) => {
                self.bridge.new_stable_fee = new_stable_fee;
                self.bridge.stable_fee_update_time = at;
                Ok(())
            },
        }
    }

    /// Owner only: schedules a new fee rate for one token, active once the
    /// configured delay after `now` has passed and a sweep runs.
    pub fn update_token_fee(&mut self, caller: &Caller, token_index: u64, new_fee: u64, now: u64) -> (r:
        Result<(), BridgeError>)
        ensures
            follows_unit(
                update_token_fee_spec(old(self)@, *caller, token_index, new_fee, now),
                r,
                *old(self),
                *final(self),
            ),
    {
        self.admin_gate(caller)?;
        let mut t = self.registered(token_index)?;
        match now.checked_add(self.bridge.fee_update_duration) {
            None => Err(BridgeError::Overflow),
            Some(at) => {
                t.new_fee = new_fee;
                t.fee_update_time = at;
                self.tokens.insert(token_index, t);
                Ok(())
            },
        }
    }

    /// Activates pending fee rates whose time has passed, for the bridge and
    /// for one token.
    pub fn update_fees(&mut self, token_index: u64, now: u64) -> (r: Result<(), BridgeError>)
        ensures
            follows_unit(update_fees_spec(old(self)@, token_index, now), r, *old(self), *final(self)),
    {
        if !self.bridge.is_initialized {
            return Err(BridgeError::NotInitialized);
        }
        let mut t = self.registered(token_index)?;
        self.bridge.sweep_stable_fee(now);
        t.sweep_fee(now);
        self.tokens.insert(token_index, t);
        Ok(())
    }

    /// Owner only: zeroes a token's collected fees; the custody service is
    /// then to release that amount from the vault to the owner.
    pub fn withdraw_fees(&mut self, caller: &Caller, token_index: u64) -> (r: Result<
        TokenMovement,
        BridgeError,
    >)
        ensures
            follows(withdraw_fees_spec(old(self)@, *caller, token_index), r, *old(self), *final(self)),
    {
        self.admin_gate(caller)?;
        let mut t = self.registered(token_index)?;
        if t.total_fees_collected == 0 {
            return Err(BridgeError::NothingToWithdraw);
        }
        let amount = t.total_fees_collected;
        t.total_fees_collected = 0;
        self.tokens.insert(token_index, t);
        Ok(TokenMovement::Release { token: t.token_address, to: self.bridge.owner, amount })
    }

    /// Owner only: registers a token at a free index.
    pub fn add_token(
        &mut self,
        caller: &Caller,
        token_index: u64,
        token_address: Address,
        fee: u64,
        limit: u64,
        now: u64,
    ) -> (r: Result<(), BridgeError>)
        ensures
            follows_unit(
                add_token_spec(old(self)@, *caller, token_index, token_address, fee, limit, now),
                r,
                *old(self),
                *final(self),
            ),
    {
        self.admin_gate(caller)?;
        if self.tokens.contains_key(&token_index) {
            return Err(BridgeError::TokenAlreadyAdded);
        }
        let t = TokenListDictionary::registered(token_address, fee, limit, now)?;
        self.tokens.insert(token_index, t);
        Ok(())
    }

    /// Owner only: pauses a token, which then accepts no transfers.
    pub fn pause_token(&mut self, caller: &Caller, token_index: u64) -> (r: Result<(), BridgeError>)
        ensures
            follows_unit(pause_token_spec(old(self)@, *caller, token_index), r, *old(self), *final(self)),
    {
        self.admin_gate(caller)?;
        let mut t = self.registered(token_index)?;
        if t.paused {
            return Err(BridgeError::TokenAlreadyPaused);
        }
        t.paused = true;
        self.tokens.insert(token_index, t);
        Ok(())
    }

    /// Owner only: unpauses a paused token.
    pub fn unpause_token(&mut self, caller: &Caller, token_index: u64) -> (r: Result<(), BridgeError>)
        ensures
            follows_unit(unpause_token_spec(old(self)@, *caller, token_index), r, *old(self), *final(self)),
    {
        self.admin_gate(caller)?;
        let mut t = self.registered(token_index)?;
        if !t.paused {
            return Err(BridgeError::TokenAlreadyUnpaused);
        }
        t.paused = false;
        self.tokens.insert(token_index, t);
        Ok(())
    }

    /// The fee a transfer of `amount` would pay at the rates now active,
    /// without sweeping pending rates.
    pub fn calculate_fee(&self, token_index: u64, amount: u64) -> (r: Result<CalcuateFeeResult, BridgeError>)
        ensures
            match calculate_fee_spec(self@, token_index, amount) {
                Ok(f) => r == Ok::<CalcuateFeeResult, BridgeError>(CalcuateFeeResult { fee: f }),
                Err(e) => r == Err::<CalcuateFeeResult, BridgeError>(e),
            },
    {
        if !self.bridge.is_initialized {
            return Err(BridgeError::NotInitialized);
        }
        let t = self.registered(token_index)?;
        let rate = if t.fee != 0 {
            t.fee
        } else {
            self.bridge.stable_fee
        };
        let fee = fee_at_rate(rate, amount)?;
        Ok(CalcuateFeeResult { fee })
    }

    /// Owner only: gives up ownership for good.
    pub fn renounce_ownership(&mut self, caller: &Caller) -> (r: Result<(), BridgeError>)
        ensures
            follows_unit(renounce_ownership_spec(old(self)@, *caller), r, *old(self), *final(self)),
    {
        self.admin_gate(caller)?;
        self.bridge.owner = Address::zero();
        Ok(())
    }

    /// Owner only: hands ownership to another, non-zero identity.
    pub fn transfer_ownership(&mut self, caller: &Caller, new_owner: Address) -> (r: Result<
        (),
        BridgeError,
    >)
        ensures
            follows_unit(
                transfer_ownership_spec(old(self)@, *caller, new_owner),
                r,
                *old(self),
                *final(self),
            ),
    {
        self.admin_gate(caller)?;
        if new_owner.is_zero() {
            return Err(BridgeError::InvalidArgument);
        }
        self.bridge.owner = new_owner;
        Ok(())
    }

    /// Accepts an outgoing transfer of `amount` units of token `token_index`
    /// to `to` on chain `chain_id`: sweeps the fee rates, adds the fee to the
    /// token's collected fees and advances the sequence index. The custody
    /// service is then to lock `amount` from the caller into the vault.
    pub fn transfer_request(
        &mut self,
        caller: &Caller,
        token_index: u64,
        to: Address,
        amount: u64,
        chain_id: u64,
        now: u64,
    ) -> (r: Result<(TransferTicket, TokenMovement), BridgeError>)
        ensures
            follows(
                transfer_request_spec(old(self)@, token_index, to, amount, chain_id, *caller, now),
                r,
                *old(self),
                *final(self),
            ),
    {
        if !self.bridge.is_initialized {
            return Err(BridgeError::NotInitialized);
        }
        if !caller.is_signer {
            return Err(BridgeError::MissingSignature);
        }
        let mut t = self.active(token_index)?;
        if chain_id == self.bridge.chain_id {
            return Err(BridgeError::RequestToSameChain);
        }
        let mut b = self.bridge;
        b.sweep_stable_fee(now);
        t.sweep_fee(now);
        let rate = if t.fee != 0 {
            t.fee
        } else {
            b.stable_fee
        };
        let fee = fee_at_rate(rate, amount)?;
        proof {
            lemma_fee_at_most_amount(rate, amount);
        }
        let total = match t.total_fees_collected.checked_add(fee) {
            None => {
                return Err(BridgeError::Overflow);
            },
            Some(v) => v,
        };
        let next_index = match b.current_index.checked_add(1) {
            None => {
                return Err(BridgeError::Overflow);
            },
            Some(v) => v,
        };
        let ticket = TransferTicket {
            index: b.current_index,
            fee,
            net_amount: amount - fee,
            chain_id,
            to,
        };
        t.total_fees_collected = total;
        b.current_index = next_index;
        self.bridge = b;
        self.tokens.insert(token_index, t);
        Ok((ticket, TokenMovement::Lock { token: t.token_address, from: caller.key, amount }))
    }

    /// Honors an incoming transfer of `amount` units of token `token_index`
    /// to `to`, sent from chain `chain_id` under sequence index `index`.
    /// `signature_valid` is the verdict of the signature check of the receipt
    /// against the configured verifier key. Each `(chain_id, index)` is
    /// honored at most once, and within the token's daily limit. The custody
    /// service is then to release `amount` from the vault to `to`.
    pub fn transfer_receipt(
        &mut self,
        caller: &Caller,
        token_index: u64,
        to: Address,
        amount: u64,
        chain_id: u64,
        index: u64,
        signature_valid: bool,
        now: u64,
    ) -> (r: Result<TokenMovement, BridgeError>)
        ensures
            follows(
                transfer_receipt_spec(
                    old(self)@,
                    token_index,
                    to,
                    amount,
                    chain_id,
                    index,
                    signature_valid,
                    *caller,
                    now,
                ),
                r,
                *old(self),
                *final(self),
            ),
    {
        if !self.bridge.is_initialized {
            return Err(BridgeError::NotInitialized);
        }
        if !caller.is_signer {
            return Err(BridgeError::MissingSignature);
        }
        let mut t = self.active(token_index)?;
        if chain_id == self.bridge.chain_id {
            return Err(BridgeError::RequestToSameChain);
        }
        if !signature_valid {
            return Err(BridgeError::InvalidSignature);
        }
        if self.claimed.is_claimed(chain_id, index) {
            return Err(BridgeError::AlreadyClaimed);
        }
        if t.limit > 0 {
            let mut counter = DailyTokenClaimsDictionary { daily_token_claims: self.daily_claims(token_index) };
            check_and_consume(&mut t, &mut counter, amount, now)?;
            self.tokens.insert(token_index, t);
            self.daily.insert(token_index, counter);
        }
        self.claimed.claim(chain_id, index);
        Ok(TokenMovement::Release { token: t.token_address, to, amount })
    }

    /// Runs one operation: the dispatch of `ix` to the method that carries it out.
    pub fn process(&mut self, ix: BridgeInstruction, cx: &Context) -> (r: Result<Outcome, BridgeError>)
        ensures
            follows(process_spec(old(self)@, ix, *cx), r, *old(self), *final(self)),
    {
        let caller = &cx.caller;
        match ix {
            BridgeInstruction::Construct { w_pokt_address, verify_address, chain_id, stable_fee } => {
                let m = self.construct(caller, w_pokt_address, verify_address, chain_id, stable_fee, cx.now)?;
                Ok(Outcome::Movement(m))
            },
            BridgeInstruction::TransferRequest { token_index, to, amount, chain_id } => {
                let (t, m) = self.transfer_request(caller, token_index, to, amount, chain_id, cx.now)?;
                Ok(Outcome::Requested(t, m))
            },
            BridgeInstruction::TransferReceipt { token_index, to, amount, chain_id, index, .. } => {
                let m = self.transfer_receipt(
                    caller,
                    token_index,
                    to,
                    amount,
                    chain_id,
                    index,
                    cx.signature_valid,
                    cx.now,
                )?;
                Ok(Outcome::Movement(m))
            },
            BridgeInstruction::UpdateVerifyAddressOnlyOwner { verify_address } => {
                self.update_verify_address(caller, verify_address)?;
                Ok(Outcome::Done)
            },
            BridgeInstruction::UpdateTokenLimitOnlyOwner { token_index, limit } => {
                self.update_token_limit(caller, token_index, limit)?;
                Ok(Outcome::Done)
            },
            BridgeInstruction::SetTokenLimitTimeOnlyOwner { token_index, timestamp } => {
                self.set_token_limit_time(caller, token_index, timestamp)?;
                Ok(Outcome::Done)
            },
            BridgeInstruction::UpdateStableFeeOnlyOwner { new_stable_fee } => {
                self.update_stable_fee(caller, new_stable_fee, cx.now)?;
                Ok(Outcome::Done)
            },
            BridgeInstruction::UpdateTokenFeeOnlyOwner { index, new_token_fee } => {
                self.update_token_fee(caller, index, new_token_fee, cx.now)?;
                Ok(Outcome::Done)
            },
            BridgeInstruction::UpdateFees { token_index } => {
                self.update_fees(token_index, cx.now)?;
                Ok(Outcome::Done)
            },
            BridgeInstruction::WithdrawFeesOnlyOwner { index } => {
                let m = self.withdraw_fees(caller, index)?;
                Ok(Outcome::Movement(m))
            },
            BridgeInstruction::AddTokenOnlyOwner { index, token_address, fee, limit } => {
                self.add_token(caller, index, token_address, fee, limit, cx.now)?;
                Ok(Outcome::Done)
            },
            BridgeInstruction::PauseTokenOnlyOwner { token_index } => {
                self.pause_token(caller, token_index)?;
                Ok(Outcome::Done)
            },
            BridgeInstruction::UnpauseTokenOnlyOwner { token_index } => {
                self.unpause_token(caller, token_index)?;
                Ok(Outcome::Done)
            },
            BridgeInstruction::CalculateFee { token_index, amount } => {
                let f = self.calculate_fee(token_index, amount)?;
                Ok(Outcome::Fee(f))
            },
            BridgeInstruction::RenounceOwnership => {
                self.renounce_ownership(caller)?;
                Ok(Outcome::Done)
            },
            BridgeInstruction::TransferOwnership { new_owner } => {
                self.transfer_ownership(caller, new_owner)?;
                Ok(Outcome::Done)
            },
        }
    }
}

} // verus!
