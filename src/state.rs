use vstd::prelude::*;

use crate::address::{zero_bytes, Address};
use crate::error::BridgeError;
use crate::fee::swept;

verus! {

/// Length of a daily claim window, in seconds.
pub const SECONDS_PER_DAY: u64 = 86400;

/// Seconds between scheduling a fee change and the earliest moment it may
/// take effect, as set when the bridge is initialized.
pub const FEE_UPDATE_DURATION: u64 = 1;

/// The bridge-wide configuration: one per bridge instance.
#[derive(Debug, Clone, Copy)]
pub struct Bridge {
    pub is_initialized: bool,
    /// The identity allowed to run admin operations.
    pub owner: Address,
    /// Delay applied to every scheduled fee change.
    pub fee_update_duration: u64,
    /// The key trusted to co-sign transfer receipts.
    pub verify_address: Address,
    /// Sequence index handed to the next accepted transfer request.
    pub current_index: u64,
    /// The chain this bridge instance runs on.
    pub chain_id: u64,
    /// When the pending bridge-wide rate becomes active; 0 when none is pending.
    pub stable_fee_update_time: u64,
    /// The bridge-wide fee rate, used for tokens without a rate of their own.
    pub stable_fee: u64,
    /// The pending bridge-wide fee rate.
    pub new_stable_fee: u64,
}

impl Bridge {
    /// The configuration of a bridge that was not initialized yet.
    pub fn uninitialized() -> (r: Bridge)
        ensures
            !r.is_initialized,
            r.owner@ == zero_bytes(),
            r.verify_address@ == zero_bytes(),
            r.fee_update_duration == 0,
            r.current_index == 0,
            r.chain_id == 0,
            r.stable_fee_update_time == 0,
            r.stable_fee == 0,
            r.new_stable_fee == 0,
    {
        Bridge {
            is_initialized: false,
            owner: Address::zero(),
            fee_update_duration: 0,
            verify_address: Address::zero(),
            current_index: 0,
            chain_id: 0,
            stable_fee_update_time: 0,
            stable_fee: 0,
            new_stable_fee: 0,
        }
    }

    /// A freshly initialized configuration.
    pub fn initialized(owner: Address, verify_address: Address, chain_id: u64, stable_fee: u64) -> (r: Bridge)
        ensures
            r.is_initialized,
            r.owner == owner,
            r.verify_address == verify_address,
            r.chain_id == chain_id,
            r.stable_fee == stable_fee,
            r.fee_update_duration == FEE_UPDATE_DURATION,
            r.current_index == 1,
            r.stable_fee_update_time == 0,
            r.new_stable_fee == 0,
    {
        Bridge {
            is_initialized: true,
            owner,
            fee_update_duration: FEE_UPDATE_DURATION,
            verify_address,
            current_index: 1,
            chain_id,
            stable_fee_update_time: 0,
            stable_fee,
            new_stable_fee: 0,
        }
    }

    /// Whether `key`, signing when `is_signer` holds, has the admin capability.
    pub open spec fn spec_is_owner(&self, key: Address, is_signer: bool) -> bool {
        is_signer && key@ == self.owner@
    }

    pub fn is_owner(&self, key: &Address, is_signer: bool) -> (r: bool)
        ensures
            r == self.spec_is_owner(*key, is_signer),
    {
        is_signer && self.owner.same(key)
    }

    /// Activates the pending bridge-wide rate when its time has passed.
    pub fn sweep_stable_fee(&mut self, now: u64)
        ensures
            (final(self).stable_fee, final(self).stable_fee_update_time) == swept(
                old(self).stable_fee,
                old(self).new_stable_fee,
                old(self).stable_fee_update_time,
                now,
            ),
            final(self).new_stable_fee == old(self).new_stable_fee,
            final(self).is_initialized == old(self).is_initialized,
            final(self).owner == old(self).owner,
            final(self).fee_update_duration == old(self).fee_update_duration,
            final(self).verify_address == old(self).verify_address,
            final(self).current_index == old(self).current_index,
            final(self).chain_id == old(self).chain_id,
    {
        if self.stable_fee_update_time != 0 && now > self.stable_fee_update_time {
            self.stable_fee = self.new_stable_fee;
            self.stable_fee_update_time = 0;
        }
    }
}

/// Configuration and accounting of one supported token.
#[derive(Debug, Clone, Copy)]
pub struct TokenListDictionary {
    pub is_initialized: bool,
    /// The token's mint identity.
    pub token_address: Address,
    pub exists: bool,
    /// A paused token accepts neither requests nor receipts.
    pub paused: bool,
    /// Fees taken on requests since the last withdrawal.
    pub total_fees_collected: u64,
    /// The token's own fee rate; 0 means the bridge-wide rate applies.
    pub fee: u64,
    /// When the pending rate becomes active; 0 when none is pending.
    pub fee_update_time: u64,
    /// The pending fee rate.
    pub new_fee: u64,
    /// Most that receipts may release per window; 0 means unlimited.
    pub limit: u64,
    /// End of the current daily window.
    pub limit_timestamp: u64,
}

impl TokenListDictionary {
    /// The record of a newly registered token, whose first window ends a day
    /// after `now`.
    pub fn registered(token_address: Address, fee: u64, limit: u64, now: u64) -> (r: Result<
        TokenListDictionary,
        BridgeError,
    >)
        ensures
            now + SECONDS_PER_DAY > u64::MAX ==> r == Err::<TokenListDictionary, BridgeError>(
                BridgeError::Overflow,
            ),
            now + SECONDS_PER_DAY <= u64::MAX ==> r is Ok && r->Ok_0 == (TokenListDictionary {
                is_initialized: true,
                token_address,
                exists: true,
                paused: false,
                total_fees_collected: 0,
                fee,
                fee_update_time: 0,
                new_fee: 0,
                limit,
                limit_timestamp: (now + SECONDS_PER_DAY) as u64,
            }),
    {
        match now.checked_add(SECONDS_PER_DAY) {
            None => Err(BridgeError::Overflow),
            Some(end) => Ok(
                TokenListDictionary {
                    is_initialized: true,
                    token_address,
                    exists: true,
                    paused: false,
                    total_fees_collected: 0,
                    fee,
                    fee_update_time: 0,
                    new_fee: 0,
                    limit,
                    limit_timestamp: end,
                },
            ),
        }
    }

    /// The record after a sweep at `now`: a pending rate whose time has
    /// passed becomes the token's rate.
    pub open spec fn spec_swept(self, now: u64) -> TokenListDictionary {
        let (fee, at) = swept(self.fee, self.new_fee, self.fee_update_time, now);
        TokenListDictionary { fee, fee_update_time: at, ..self }
    }

    /// Activates the token's pending rate when its time has passed.
    pub fn sweep_fee(&mut self, now: u64)
        ensures
            *final(self) == old(self).spec_swept(now),
    {
        if self.fee_update_time != 0 && now > self.fee_update_time {
            self.fee = self.new_fee;
            self.fee_update_time = 0;
        }
    }
}

/// Amount released by receipts for one token in its current daily window.
#[derive(Debug, Clone, Copy)]
pub struct DailyTokenClaimsDictionary {
    pub daily_token_claims: u64,
}

impl DailyTokenClaimsDictionary {
    /// Seeds that locate a token's claim counter: its index in little-endian bytes.
    pub fn generate_pda_seeds_vec(index: u64) -> (r: Vec<Vec<u8>>)
        ensures
            r@.len() == 1,
            r@[0]@ == le_bytes(index),
    {
        let mut r: Vec<Vec<u8>> = Vec::new();
        r.push(u64_le_bytes(index));
        r
    }
}

/// Whether a window ending at `window_end` has passed at `now`.
pub open spec fn window_rolls(window_end: u64, now: u64) -> bool {
    now > window_end
}

/// Outcome of accepting `amount` against a daily limit: the new window end
/// and claim total, or the reason for refusal. With limit 0 all is accepted
/// and nothing changes. A window that has passed restarts a day after `now`
/// with nothing claimed.
pub open spec fn consume_outcome(
    limit: u64,
    window_end: u64,
    claims: u64,
    amount: u64,
    now: u64,
) -> Result<(u64, u64), BridgeError> {
    if limit == 0 {
        Ok((window_end, claims))
    } else if window_rolls(window_end, now) && now + SECONDS_PER_DAY > u64::MAX {
        Err(BridgeError::Overflow)
    } else {
        let base: int = if window_rolls(window_end, now) { 0 } else { claims as int };
        let end: u64 = if window_rolls(window_end, now) { (now + SECONDS_PER_DAY) as u64 } else { window_end };
        if base + amount > limit {
            Err(BridgeError::ClaimAboveDailyLimit)
        } else {
            Ok((end, (base + amount) as u64))
        }
    }
}

/// Accepts `amount` against the token's daily limit, rolling the window
/// when it has passed; refuses with `ClaimAboveDailyLimit` when the window's
/// total would exceed the limit. Changes nothing when it refuses.
pub fn check_and_consume(
    token: &mut TokenListDictionary,
    counter: &mut DailyTokenClaimsDictionary,
    amount: u64,
    now: u64,
) -> (r: Result<(), BridgeError>)
    ensures
        match consume_outcome(
            old(token).limit,
            old(token).limit_timestamp,
            old(counter).daily_token_claims,
            amount,
            now,
        ) {
            Ok((end, claims)) => {
                &&& r is Ok
                &&& *final(token) == (TokenListDictionary { limit_timestamp: end, ..*old(token) })
                &&& final(counter).daily_token_claims == claims
            },
            Err(e) => {
                &&& r == Err::<(), BridgeError>(e)
                &&& *final(token) == *old(token)
                &&& *final(counter) == *old(counter)
            },
        },
{
    if token.limit == 0 {
        return Ok(());
    }
    let mut end = token.limit_timestamp;
    let mut base: u64 = counter.daily_token_claims;
    if now > token.limit_timestamp {
        match now.checked_add(SECONDS_PER_DAY) {
            None => {
                return Err(BridgeError::Overflow);
            },
            Some(e) => {
                end = e;
            },
        }
        base = 0;
    }
    match base.checked_add(amount) {
        None => Err(BridgeError::ClaimAboveDailyLimit),
        Some(total) => {
            if total > token.limit {
                Err(BridgeError::ClaimAboveDailyLimit)
            } else {
                token.limit_timestamp = end;
                counter.daily_token_claims = total;
                Ok(())
            }
        },
    }
}

/// The eight little-endian bytes of `x`.
pub open spec fn le_bytes(x: u64) -> Seq<u8> {
    seq![
        x as u8,
        (x >> 8u64) as u8,
        (x >> 16u64) as u8,
        (x >> 24u64) as u8,
        (x >> 32u64) as u8,
        (x >> 40u64) as u8,
        (x >> 48u64) as u8,
        (x >> 56u64) as u8,
    ]
}

/// `x` as eight little-endian bytes.
pub fn u64_le_bytes(x: u64) -> (r: Vec<u8>)
    ensures
        r@ == le_bytes(x),
{
    let r = vec![
        x as u8,
        (x >> 8u64) as u8,
        (x >> 16u64) as u8,
        (x >> 24u64) as u8,
        (x >> 32u64) as u8,
        (x >> 40u64) as u8,
        (x >> 48u64) as u8,
        (x >> 56u64) as u8,
    ];
    assert(r@ =~= le_bytes(x));
    r
}

/// The fee computed for a transfer, as handed back to a caller that asks.
#[derive(Debug, Clone, Copy)]
pub struct CalcuateFeeResult {
    pub fee: u64,
}

/// The bytes that the verifier key signs to attest a transfer: token index,
/// sender, recipient, amount, origin chain id and sequence index, numbers
/// in little-endian bytes and identities as their 32 bytes.
pub open spec fn receipt_bytes(
    token_index: u64,
    from: Address,
    to: Address,
    amount: u64,
    chain_id: u64,
    index: u64,
) -> Seq<u8> {
    le_bytes(token_index) + from@ + to@ + le_bytes(amount) + le_bytes(chain_id) + le_bytes(index)
}

fn append_bytes(out: &mut Vec<u8>, bytes: &[u8])
    ensures
        final(out)@ == old(out)@ + bytes@,
{
    let mut i: usize = 0;
    while i < bytes.len()
        invariant
            0 <= i <= bytes@.len(),
            out@ == old(out)@ + bytes@.subrange(0, i as int),
        decreases bytes@.len() - i,
    {
        out.push(bytes[i]);
        i = i + 1;
        assert(out@ =~= old(out)@ + bytes@.subrange(0, i as int));
    }
    assert(bytes@.subrange(0, bytes@.len() as int) =~= bytes@);
}

/// The message of a transfer receipt, whose signature by the verifier key
/// the host checks before the receipt is honored.
pub fn receipt_message(
    token_index: u64,
    from: &Address,
    to: &Address,
    amount: u64,
    chain_id: u64,
    index: u64,
) -> (r: Vec<u8>)
    ensures
        r@ == receipt_bytes(token_index, *from, *to, amount, chain_id, index),
{
    let mut r = u64_le_bytes(token_index);
    append_bytes(&mut r, from.bytes.as_slice());
    append_bytes(&mut r, to.bytes.as_slice());
    append_bytes(&mut r, u64_le_bytes(amount).as_slice());
    append_bytes(&mut r, u64_le_bytes(chain_id).as_slice());
    append_bytes(&mut r, u64_le_bytes(index).as_slice());
    r
}

} // verus!
