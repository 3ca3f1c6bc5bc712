use vstd::prelude::*;

use crate::address::{zero_address, zero_bytes, Address};
use crate::error::BridgeError;
use crate::fee::{effective_rate, fee_for};
use crate::state::{
    CalcuateFeeResult, consume_outcome, Bridge, DailyTokenClaimsDictionary, TokenListDictionary, SECONDS_PER_DAY,
};

verus! {

/// Index under which initialization registers the bridge's own token.
pub const BASE_TOKEN_INDEX: u64 = 1;

/// The identity on whose behalf an operation runs, and whether the host
/// has authenticated it by signature.
#[derive(Debug, Clone, Copy)]
pub struct Caller {
    pub key: Address,
    pub is_signer: bool,
}

/// A movement of token units that the custody service carries out for an
/// accepted operation.
#[derive(Debug, Clone, Copy)]
pub enum TokenMovement {
    /// Create the vault that holds locked units of `token`.
    CreateVault { token: Address },
    /// Move `amount` units of `token` from `from` into the vault.
    Lock { token: Address, from: Address, amount: u64 },
    /// Move `amount` units of `token` from the vault to `to`.
    Release { token: Address, to: Address, amount: u64 },
}

/// What an accepted transfer request hands to the relayer.
#[derive(Debug, Clone, Copy)]
pub struct TransferTicket {
    /// The request's sequence index on this chain.
    pub index: u64,
    /// The fee kept by the bridge.
    pub fee: u64,
    /// What the destination side releases: the amount less the fee.
    pub net_amount: u64,
    /// The chain the transfer goes to.
    pub chain_id: u64,
    /// The recipient on that chain.
    pub to: Address,
}

/// The records of a bridge, as contracts speak of them.
pub struct BridgeState {
    pub bridge: Bridge,
    /// Token records by token index.
    pub tokens: Map<u64, TokenListDictionary>,
    /// Keys `(origin chain id, sequence index)` of honored receipts.
    pub claimed: Set<(u64, u64)>,
    /// Claim counters by token index; a missing counter stands for 0.
    pub daily: Map<u64, DailyTokenClaimsDictionary>,
}

impl BridgeState {
    /// Well-formedness: before initialization there are no token records,
    /// and after it fee changes are delayed by at least one second.
    pub open spec fn wf(self) -> bool {
        &&& !self.bridge.is_initialized ==> self.tokens.dom().is_empty()
        &&& self.bridge.is_initialized ==> self.bridge.fee_update_duration >= 1
    }

    /// The amount claimed on token `index` in its current window.
    pub open spec fn claims_of(self, index: u64) -> u64 {
        if self.daily.contains_key(index) {
            self.daily[index].daily_token_claims
        } else {
            0
        }
    }

    /// Authorization of an admin operation: the bridge must be initialized
    /// and the caller must be its owner, signing.
    pub open spec fn admin_gate(self, caller: Caller) -> Result<(), BridgeError> {
        if !self.bridge.is_initialized {
            Err(BridgeError::NotInitialized)
        } else if !self.bridge.spec_is_owner(caller.key, caller.is_signer) {
            Err(BridgeError::Unauthorized)
        } else {
            Ok(())
        }
    }

    /// The record of a registered token, for an admin operation on it.
    pub open spec fn registered(self, index: u64) -> Result<TokenListDictionary, BridgeError> {
        if self.tokens.contains_key(index) {
            Ok(self.tokens[index])
        } else {
            Err(BridgeError::MapKeyNotFound)
        }
    }

    /// The record of a token that takes part in transfers: it must exist and
    /// not be paused.
    pub open spec fn active(self, index: u64) -> Result<TokenListDictionary, BridgeError> {
        if !self.tokens.contains_key(index) || !self.tokens[index].exists {
            Err(BridgeError::NonExistantToken)
        } else if self.tokens[index].paused {
            Err(BridgeError::TokenAlreadyPaused)
        } else {
            Ok(self.tokens[index])
        }
    }

    pub open spec fn with_bridge(self, bridge: Bridge) -> BridgeState {
        BridgeState { bridge, ..self }
    }

    pub open spec fn with_token(self, index: u64, t: TokenListDictionary) -> BridgeState {
        BridgeState { tokens: self.tokens.insert(index, t), ..self }
    }
}

/// One-time initialization: the configuration, and the bridge's own token
/// at `BASE_TOKEN_INDEX`, whose vault is then created.
pub open spec fn construct_spec(
    s: BridgeState,
    owner: Caller,
    base_token: Address,
    verify_address: Address,
    chain_id: u64,
    stable_fee: u64,
    now: u64,
) -> Result<(BridgeState, TokenMovement), BridgeError> {
    if s.bridge.is_initialized {
        Err(BridgeError::AlreadyInitialized)
    } else if !owner.is_signer {
        Err(BridgeError::MissingSignature)
    } else if now + SECONDS_PER_DAY > u64::MAX {
        Err(BridgeError::Overflow)
    } else {
        let bridge = Bridge {
            is_initialized: true,
            owner: owner.key,
            fee_update_duration: crate::state::FEE_UPDATE_DURATION,
            verify_address,
            current_index: 1,
            chain_id,
            stable_fee_update_time: 0,
            stable_fee,
            new_stable_fee: 0,
        };
        let token = new_token(base_token, 0, 0, now);
        Ok(
            (
                s.with_bridge(bridge).with_token(BASE_TOKEN_INDEX, token),
                TokenMovement::CreateVault { token: base_token },
            ),
        )
    }
}

/// A newly registered token's record; its first window ends a day after `now`.
pub open spec fn new_token(token_address: Address, fee: u64, limit: u64, now: u64) -> TokenListDictionary {
    TokenListDictionary {
        is_initialized: true,
        token_address,
        exists: true,
        paused: false,
        total_fees_collected: 0,
        fee,
        fee_update_time: 0,
        new_fee: 0,
        limit,
        limit_timestamp: (now + SECONDS_PER_DAY) as u64,
    }
}

/// The configuration after a sweep of the bridge-wide rate at `now`.
pub open spec fn bridge_swept(b: Bridge, now: u64) -> Bridge {
    let (fee, at) = crate::fee::swept(b.stable_fee, b.new_stable_fee, b.stable_fee_update_time, now);
    Bridge { stable_fee: fee, stable_fee_update_time: at, ..b }
}

/// The fee that a transfer of `amount` pays, from the token's record and the
/// configuration as they stand.
pub open spec fn fee_of(t: TokenListDictionary, b: Bridge, amount: u64) -> Option<u64> {
    fee_for(effective_rate(t.fee, b.stable_fee), amount)
}

/// An outgoing transfer: the fee rates are swept, the fee is added to the
/// token's collected fees, the sequence index advances by one, and `amount`
/// is locked from the caller into the vault.
pub open spec fn transfer_request_spec(
    s: BridgeState,
    token_index: u64,
    to: Address,
    amount: u64,
    chain_id: u64,
    caller: Caller,
    now: u64,
) -> Result<(BridgeState, (TransferTicket, TokenMovement)), BridgeError> {
    if !s.bridge.is_initialized {
        Err(BridgeError::NotInitialized)
    } else if !caller.is_signer {
        Err(BridgeError::MissingSignature)
    } else if s.active(token_index) is Err {
        Err(s.active(token_index)->Err_0)
    } else if chain_id == s.bridge.chain_id {
        Err(BridgeError::RequestToSameChain)
    } else {
        let b = bridge_swept(s.bridge, now);
        let t = s.tokens[token_index].spec_swept(now);
        match fee_of(t, b, amount) {
            None => Err(BridgeError::Overflow),
            Some(fee) => if t.total_fees_collected + fee > u64::MAX || b.current_index + 1 > u64::MAX {
                Err(BridgeError::Overflow)
            } else {
                let t2 = TokenListDictionary {
                    total_fees_collected: (t.total_fees_collected + fee) as u64,
                    ..t
                };
                let b2 = Bridge { current_index: (b.current_index + 1) as u64, ..b };
                let ticket = TransferTicket {
                    index: b.current_index,
                    fee,
                    net_amount: (amount - fee) as u64,
                    chain_id,
                    to,
                };
                Ok(
                    (
                        s.with_bridge(b2).with_token(token_index, t2),
                        (
                            ticket,
                            TokenMovement::Lock { token: t.token_address, from: caller.key, amount },
                        ),
                    ),
                )
            },
        }
    }
}

/// An incoming transfer: once its signature is checked, a receipt is honored
/// at most once per `(chain_id, index)` and within the token's daily limit;
/// `amount` is then released from the vault to `to`.
pub open spec fn transfer_receipt_spec(
    s: BridgeState,
    token_index: u64,
    to: Address,
    amount: u64,
    chain_id: u64,
    index: u64,
    signature_valid: bool,
    caller: Caller,
    now: u64,
) -> Result<(BridgeState, TokenMovement), BridgeError> {
    if !s.bridge.is_initialized {
        Err(BridgeError::NotInitialized)
    } else if !caller.is_signer {
        Err(BridgeError::MissingSignature)
    } else if s.active(token_index) is Err {
        Err(s.active(token_index)->Err_0)
    } else if chain_id == s.bridge.chain_id {
        Err(BridgeError::RequestToSameChain)
    } else if !signature_valid {
        Err(BridgeError::InvalidSignature)
    } else if s.claimed.contains((chain_id, index)) {
        Err(BridgeError::AlreadyClaimed)
    } else {
        let t = s.tokens[token_index];
        match consume_outcome(t.limit, t.limit_timestamp, s.claims_of(token_index), amount, now) {
            Err(e) => Err(e),
            Ok((end, claims)) => {
                let s2 = if t.limit == 0 {
                    s
                } else {
                    BridgeState {
                        daily: s.daily.insert(
                            token_index,
                            DailyTokenClaimsDictionary { daily_token_claims: claims },
                        ),
                        ..s.with_token(token_index, TokenListDictionary { limit_timestamp: end, ..t })
                    }
                };
                Ok(
                    (
                        BridgeState { claimed: s2.claimed.insert((chain_id, index)), ..s2 },
                        TokenMovement::Release { token: t.token_address, to, amount },
                    ),
                )
            },
        }
    }
}

/// Replaces the key trusted to co-sign receipts.
pub open spec fn update_verify_address_spec(s: BridgeState, caller: Caller, verify_address: Address) -> Result<
    BridgeState,
    BridgeError,
> {
    match s.admin_gate(caller) {
        Err(e) => Err(e),
        Ok(_) => Ok(s.with_bridge(Bridge { verify_address, ..s.bridge })),
    }
}

/// Sets a token's daily limit (0 for none).
pub open spec fn update_token_limit_spec(s: BridgeState, caller: Caller, token_index: u64, limit: u64) -> Result<
    BridgeState,
    BridgeError,
> {
    match s.admin_gate(caller) {
        Err(e) => Err(e),
        Ok(_) => match s.registered(token_index) {
            Err(e) => Err(e),
            Ok(t) => Ok(s.with_token(token_index, TokenListDictionary { limit, ..t })),
        },
    }
}

/// Sets the end of a token's current daily window.
pub open spec fn set_token_limit_time_spec(
    s: BridgeState,
    caller: Caller,
    token_index: u64,
    timestamp: u64,
) -> Result<BridgeState, BridgeError> {
    match s.admin_gate(caller) {
        Err(e) => Err(e),
        Ok(_) => match s.registered(token_index) {
            Err(e) => Err(e),
            Ok(t) => Ok(s.with_token(token_index, TokenListDictionary { limit_timestamp: timestamp, ..t })),
        },
    }
}

/// Schedules a new bridge-wide rate, active after the configured delay.
pub open spec fn update_stable_fee_spec(s: BridgeState, caller: Caller, new_stable_fee: u64, now: u64) -> Result<
    BridgeState,
    BridgeError,
> {
    match s.admin_gate(caller) {
        Err(e) => Err(e),
        Ok(_) => if now + s.bridge.fee_update_duration > u64::MAX {
            Err(BridgeError::Overflow)
        } else {
            Ok(
                s.with_bridge(
                    Bridge {
                        new_stable_fee,
                        stable_fee_update_time: (now + s.bridge.fee_update_duration) as u64,
                        ..s.bridge
                    },
                ),
            )
        },
    }
}

/// Schedules a new rate for one token, active after the configured delay.
pub open spec fn update_token_fee_spec(
    s: BridgeState,
    caller: Caller,
    token_index: u64,
    new_fee: u64,
    now: u64,
) -> Result<BridgeState, BridgeError> {
    match s.admin_gate(caller) {
        Err(e) => Err(e),
        Ok(_) => match s.registered(token_index) {
            Err(e) => Err(e),
            Ok(t) => if now + s.bridge.fee_update_duration > u64::MAX {
                Err(BridgeError::Overflow)
            } else {
                Ok(
                    s.with_token(
                        token_index,
                        TokenListDictionary {
                            new_fee,
                            fee_update_time: (now + s.bridge.fee_update_duration) as u64,
                            ..t
                        },
                    ),
                )
            },
        },
    }
}

/// The sweep that anyone may run: pending rates whose time has passed become
/// active, for the bridge and for one token.
pub open spec fn update_fees_spec(s: BridgeState, token_index: u64, now: u64) -> Result<
    BridgeState,
    BridgeError,
> {
    if !s.bridge.is_initialized {
        Err(BridgeError::NotInitialized)
    } else {
        match s.registered(token_index) {
            Err(e) => Err(e),
            Ok(t) => Ok(s.with_bridge(bridge_swept(s.bridge, now)).with_token(token_index, t.spec_swept(now))),
        }
    }
}

/// Pays a token's collected fees out of the vault to the owner, and zeroes them.
pub open spec fn withdraw_fees_spec(s: BridgeState, caller: Caller, token_index: u64) -> Result<
    (BridgeState, TokenMovement),
    BridgeError,
> {
    match s.admin_gate(caller) {
        Err(e) => Err(e),
        Ok(_) => match s.registered(token_index) {
            Err(e) => Err(e),
            Ok(t) => if t.total_fees_collected == 0 {
                Err(BridgeError::NothingToWithdraw)
            } else {
                Ok(
                    (
                        s.with_token(token_index, TokenListDictionary { total_fees_collected: 0, ..t }),
                        TokenMovement::Release {
                            token: t.token_address,
                            to: s.bridge.owner,
                            amount: t.total_fees_collected,
                        },
                    ),
                )
            },
        },
    }
}

/// Registers a token at a free index, with its own fee rate and daily limit.
pub open spec fn add_token_spec(
    s: BridgeState,
    caller: Caller,
    token_index: u64,
    token_address: Address,
    fee: u64,
    limit: u64,
    now: u64,
) -> Result<BridgeState, BridgeError> {
    match s.admin_gate(caller) {
        Err(e) => Err(e),
        Ok(_) => if s.tokens.contains_key(token_index) {
            Err(BridgeError::TokenAlreadyAdded)
        } else if now + SECONDS_PER_DAY > u64::MAX {
            Err(BridgeError::Overflow)
        } else {
            Ok(s.with_token(token_index, new_token(token_address, fee, limit, now)))
        },
    }
}

/// Pauses a token that is not paused.
pub open spec fn pause_token_spec(s: BridgeState, caller: Caller, token_index: u64) -> Result<
    BridgeState,
    BridgeError,
> {
    match s.admin_gate(caller) {
        Err(e) => Err(e),
        Ok(_) => match s.registered(token_index) {
            Err(e) => Err(e),
            Ok(t) => if t.paused {
                Err(BridgeError::TokenAlreadyPaused)
            } else {
                Ok(s.with_token(token_index, TokenListDictionary { paused: true, ..t }))
            },
        },
    }
}

/// Unpauses a paused token.
pub open spec fn unpause_token_spec(s: BridgeState, caller: Caller, token_index: u64) -> Result<
    BridgeState,
    BridgeError,
> {
    match s.admin_gate(caller) {
        Err(e) => Err(e),
        Ok(_) => match s.registered(token_index) {
            Err(e) => Err(e),
            Ok(t) => if !t.paused {
                Err(BridgeError::TokenAlreadyUnpaused)
            } else {
                Ok(s.with_token(token_index, TokenListDictionary { paused: false, ..t }))
            },
        },
    }
}

/// The fee a transfer of `amount` would pay now, without sweeping.
pub open spec fn calculate_fee_spec(s: BridgeState, token_index: u64, amount: u64) -> Result<u64, BridgeError> {
    if !s.bridge.is_initialized {
        Err(BridgeError::NotInitialized)
    } else {
        match s.registered(token_index) {
            Err(e) => Err(e),
            Ok(t) => match fee_of(t, s.bridge, amount) {
                None => Err(BridgeError::Overflow),
                Some(f) => Ok(f),
            },
        }
    }
}

/// Gives up ownership: the owner becomes the all-zero identity.
pub open spec fn renounce_ownership_spec(s: BridgeState, caller: Caller) -> Result<BridgeState, BridgeError> {
    match s.admin_gate(caller) {
        Err(e) => Err(e),
        Ok(_) => Ok(s.with_bridge(Bridge { owner: zero_address(), ..s.bridge })),
    }
}

/// Hands ownership to `new_owner`, which may not be the all-zero identity.
pub open spec fn transfer_ownership_spec(s: BridgeState, caller: Caller, new_owner: Address) -> Result<
    BridgeState,
    BridgeError,
> {
    match s.admin_gate(caller) {
        Err(e) => Err(e),
        Ok(_) => if new_owner@ == zero_bytes() {
            Err(BridgeError::InvalidArgument)
        } else {
            Ok(s.with_bridge(Bridge { owner: new_owner, ..s.bridge }))
        },
    }
}

/// One operation of the bridge, with its arguments.
#[derive(Debug, Clone, Copy)]
pub enum BridgeInstruction {
    Construct { w_pokt_address: Address, verify_address: Address, chain_id: u64, stable_fee: u64 },
    TransferRequest { token_index: u64, to: Address, amount: u64, chain_id: u64 },
    TransferReceipt {
        token_index: u64,
        from: Address,
        to: Address,
        amount: u64,
        chain_id: u64,
        index: u64,
        signature_account: Address,
    },
    UpdateVerifyAddressOnlyOwner { verify_address: Address },
    UpdateTokenLimitOnlyOwner { token_index: u64, limit: u64 },
    SetTokenLimitTimeOnlyOwner { token_index: u64, timestamp: u64 },
    UpdateStableFeeOnlyOwner { new_stable_fee: u64 },
    UpdateTokenFeeOnlyOwner { index: u64, new_token_fee: u64 },
    UpdateFees { token_index: u64 },
    WithdrawFeesOnlyOwner { index: u64 },
    AddTokenOnlyOwner { index: u64, token_address: Address, fee: u64, limit: u64 },
    PauseTokenOnlyOwner { token_index: u64 },
    UnpauseTokenOnlyOwner { token_index: u64 },
    CalculateFee { token_index: u64, amount: u64 },
    RenounceOwnership,
    TransferOwnership { new_owner: Address },
}

impl BridgeInstruction {
    /// Whether the operation is reserved to the owner.
    pub open spec fn is_admin(self) -> bool {
        match self {
            BridgeInstruction::UpdateVerifyAddressOnlyOwner { .. } => true,
            BridgeInstruction::UpdateTokenLimitOnlyOwner { .. } => true,
            BridgeInstruction::SetTokenLimitTimeOnlyOwner { .. } => true,
            BridgeInstruction::UpdateStableFeeOnlyOwner { .. } => true,
            BridgeInstruction::UpdateTokenFeeOnlyOwner { .. } => true,
            BridgeInstruction::WithdrawFeesOnlyOwner { .. } => true,
            BridgeInstruction::AddTokenOnlyOwner { .. } => true,
            BridgeInstruction::PauseTokenOnlyOwner { .. } => true,
            BridgeInstruction::UnpauseTokenOnlyOwner { .. } => true,
            BridgeInstruction::RenounceOwnership => true,
            BridgeInstruction::TransferOwnership { .. } => true,
            _ => false,
        }
    }
}

/// What the host supplies to every operation: who calls, the time, and the
/// verdict of the signature check on a receipt.
#[derive(Debug, Clone, Copy)]
pub struct Context {
    pub caller: Caller,
    pub now: u64,
    pub signature_valid: bool,
}

/// What an accepted operation hands back.
#[derive(Debug, Clone, Copy)]
pub enum Outcome {
    /// Records were updated; nothing else is to be done.
    Done,
    /// Records were updated; the custody service is to carry out the movement.
    Movement(TokenMovement),
    /// A transfer request was accepted.
    Requested(TransferTicket, TokenMovement),
    /// The fee asked for.
    Fee(CalcuateFeeResult),
}

/// An operation's model result, with nothing handed back.
pub open spec fn done(p: Result<BridgeState, BridgeError>) -> Result<(BridgeState, Outcome), BridgeError> {
    match p {
        Ok(s) => Ok((s, Outcome::Done)),
        Err(e) => Err(e),
    }
}

/// An operation's model result, handing back a token movement.
pub open spec fn moved(p: Result<(BridgeState, TokenMovement), BridgeError>) -> Result<(BridgeState, Outcome), BridgeError> {
    match p {
        Ok((s, m)) => Ok((s, Outcome::Movement(m))),
        Err(e) => Err(e),
    }
}

/// The effect of one operation on the records, and what it hands back.
pub open spec fn process_spec(s: BridgeState, ix: BridgeInstruction, cx: Context) -> Result<
    (BridgeState, Outcome),
    BridgeError,
> {
    match ix {
        BridgeInstruction::Construct { w_pokt_address, verify_address, chain_id, stable_fee } => moved(
            construct_spec(s, cx.caller, w_pokt_address, verify_address, chain_id, stable_fee, cx.now),
        ),
        BridgeInstruction::TransferRequest { token_index, to, amount, chain_id } => match transfer_request_spec(
            s,
            token_index,
            to,
            amount,
            chain_id,
            cx.caller,
            cx.now,
        ) {
            Ok((s2, (t, m))) => Ok((s2, Outcome::Requested(t, m))),
            Err(e) => Err(e),
        },
        BridgeInstruction::TransferReceipt { token_index, to, amount, chain_id, index, .. } => moved(
            transfer_receipt_spec(s, token_index, to, amount, chain_id, index, cx.signature_valid, cx.caller, cx.now),
        ),
        BridgeInstruction::UpdateVerifyAddressOnlyOwner { verify_address } => done(
            update_verify_address_spec(s, cx.caller, verify_address),
        ),
        BridgeInstruction::UpdateTokenLimitOnlyOwner { token_index, limit } => done(
            update_token_limit_spec(s, cx.caller, token_index, limit),
        ),
        BridgeInstruction::SetTokenLimitTimeOnlyOwner { token_index, timestamp } => done(
            set_token_limit_time_spec(s, cx.caller, token_index, timestamp),
        ),
        BridgeInstruction::UpdateStableFeeOnlyOwner { new_stable_fee } => done(
            update_stable_fee_spec(s, cx.caller, new_stable_fee, cx.now),
        ),
        BridgeInstruction::UpdateTokenFeeOnlyOwner { index, new_token_fee } => done(
            update_token_fee_spec(s, cx.caller, index, new_token_fee, cx.now),
        ),
        BridgeInstruction::UpdateFees { token_index } => done(update_fees_spec(s, token_index, cx.now)),
        BridgeInstruction::WithdrawFeesOnlyOwner { index } => moved(withdraw_fees_spec(s, cx.caller, index)),
        BridgeInstruction::AddTokenOnlyOwner { index, token_address, fee, limit } => done(
            add_token_spec(s, cx.caller, index, token_address, fee, limit, cx.now),
        ),
        BridgeInstruction::PauseTokenOnlyOwner { token_index } => done(
            pause_token_spec(s, cx.caller, token_index),
        ),
        BridgeInstruction::UnpauseTokenOnlyOwner { token_index } => done(
            unpause_token_spec(s, cx.caller, token_index),
        ),
        BridgeInstruction::CalculateFee { token_index, amount } => match calculate_fee_spec(s, token_index, amount) {
            Ok(f) => Ok((s, Outcome::Fee(CalcuateFeeResult { fee: f }))),
            Err(e) => Err(e),
        },
        BridgeInstruction::RenounceOwnership => done(renounce_ownership_spec(s, cx.caller)),
        BridgeInstruction::TransferOwnership { new_owner } => done(
            transfer_ownership_spec(s, cx.caller, new_owner),
        ),
    }
}

} // verus!
