//! The six bridge operations.
//!
//! Each operation takes the ledger record and the account context the host
//! resolved for the call, validates authorization and invariants, and only
//! then commits the state mutation.  Minting and burning return a receipt:
//! the custody instruction (and audit record) the host must perform
//! atomically with committing the new state — either both happen or neither.

use vstd::prelude::*;
use crate::address::valid_zec_address;
use crate::address::is_valid_zec_address;
use crate::errors::BridgeError;
use crate::fee::spec_fee;
use crate::fee::compute_fee;
use crate::state::BridgeState;
use crate::state::Pubkey;
use crate::state::counters_le;
use crate::state::with_paused;

verus! {

/// The accounts of an `initialize` call: the signing authority and the
/// custody/mint target of the wrapped token.
#[derive(Clone, Copy, Debug)]
pub struct Initialize {
    pub authority: Pubkey,
    pub mint: Pubkey,
}

/// The accounts of a `mint_wzec` call: the signing caller and the account
/// that is to receive the freshly minted tokens.
#[derive(Clone, Copy, Debug)]
pub struct MintWZEC {
    pub authority: Pubkey,
    pub recipient_token_account: Pubkey,
}

/// The accounts of a `burn_wzec` call: the signing token holder and the
/// holding account the tokens are burned from.
#[derive(Clone, Copy, Debug)]
pub struct BurnWZEC {
    pub user: Pubkey,
    pub user_token_account: Pubkey,
}

/// The accounts of an `update_authority` call: the signing caller.
#[derive(Clone, Copy, Debug)]
pub struct UpdateAuthority {
    pub authority: Pubkey,
}

/// The accounts of a `pause_bridge` call: the signing caller.
#[derive(Clone, Copy, Debug)]
pub struct PauseBridge {
    pub authority: Pubkey,
}

/// The accounts of a `resume_bridge` call: the signing caller.
#[derive(Clone, Copy, Debug)]
pub struct ResumeBridge {
    pub authority: Pubkey,
}

/// The custody instruction and audit record of a successful mint: mint
/// `amount` wrapped tokens to `recipient`, attested by the external
/// transaction `zcash_txid`.
#[derive(Clone, Debug)]
pub struct MintReceipt {
    pub amount: u64,
    pub recipient: Pubkey,
    pub zcash_txid: String,
}

/// The custody instruction and audit record of a successful burn: burn
/// `amount` wrapped tokens; `amount_after_fee` is what the off-chain relayer
/// should release to `zec_address` once `fee` has been withheld.
#[derive(Clone, Debug)]
pub struct BurnReceipt {
    pub amount: u64,
    pub fee: u64,
    pub amount_after_fee: u64,
    pub zec_address: String,
}

/// The ledger record `initialize` commits: the caller becomes the authority,
/// the bridge starts active, and every counter starts at zero — whatever
/// `fee_percentage` was passed.
pub open spec fn spec_initialize(ctx: Initialize, fee_percentage: u16) -> BridgeState {
    BridgeState {
        authority: ctx.authority,
        mint: ctx.mint,
        fee_percentage: fee_percentage,
        paused: false,
        total_minted: 0,
        total_burned: 0,
        fee_collected: 0,
    }
}

/// What `mint_wzec` does to the ledger: the checks in order — pause, then
/// authority, then amount, then counter overflow — and on success the new
/// record with `total_minted` grown by `amount`.
pub open spec fn spec_mint_wzec(s: BridgeState, caller: Pubkey, amount: u64) -> Result<
    BridgeState,
    BridgeError,
> {
    if s.paused {
        Err(BridgeError::BridgePaused)
    } else if caller != s.authority {
        Err(BridgeError::Unauthorized)
    } else if amount == 0 {
        Err(BridgeError::InvalidAmount)
    } else if s.total_minted + amount > u64::MAX {
        Err(BridgeError::Overflow)
    } else {
        Ok(BridgeState { total_minted: (s.total_minted + amount) as u64, ..s })
    }
}

/// What `burn_wzec` does to the ledger: the checks in order — pause, amount,
/// address syntax, then every arithmetic step — and on success the new record
/// with `total_burned` grown by `amount` and `fee_collected` by the fee.
pub open spec fn spec_burn_wzec(s: BridgeState, amount: u64, addr: Seq<char>) -> Result<
    BridgeState,
    BridgeError,
> {
    if s.paused {
        Err(BridgeError::BridgePaused)
    } else if amount == 0 {
        Err(BridgeError::InvalidAmount)
    } else if !valid_zec_address(addr) {
        Err(BridgeError::InvalidZecAddress)
    } else if amount * s.fee_percentage > u64::MAX {
        Err(BridgeError::Overflow)
    } else if spec_fee(amount, s.fee_percentage) > amount {
        Err(BridgeError::Overflow)
    } else if s.total_burned + amount > u64::MAX {
        Err(BridgeError::Overflow)
    } else if s.fee_collected + spec_fee(amount, s.fee_percentage) > u64::MAX {
        Err(BridgeError::Overflow)
    } else {
        Ok(
            BridgeState {
                total_burned: (s.total_burned + amount) as u64,
                fee_collected: (s.fee_collected + spec_fee(amount, s.fee_percentage)) as u64,
                ..s
            },
        )
    }
}

/// What `update_authority` does to the ledger: only the current authority
/// may replace itself; the old value is discarded.
pub open spec fn spec_update_authority(s: BridgeState, caller: Pubkey, new_authority: Pubkey) -> Result<
    BridgeState,
    BridgeError,
> {
    if caller != s.authority {
        Err(BridgeError::Unauthorized)
    } else {
        Ok(BridgeState { authority: new_authority, ..s })
    }
}

/// What `pause_bridge` does to the ledger: authority-only; sets the pause
/// flag, idempotently, and touches nothing else.
pub open spec fn spec_pause_bridge(s: BridgeState, caller: Pubkey) -> Result<
    BridgeState,
    BridgeError,
> {
    if caller != s.authority {
        Err(BridgeError::Unauthorized)
    } else {
        Ok(with_paused(s, true))
    }
}

/// What `resume_bridge` does to the ledger: authority-only; clears the pause
/// flag, idempotently, and touches nothing else.
pub open spec fn spec_resume_bridge(s: BridgeState, caller: Pubkey) -> Result<
    BridgeState,
    BridgeError,
> {
    if caller != s.authority {
        Err(BridgeError::Unauthorized)
    } else {
        Ok(with_paused(s, false))
    }
}

/// Creates the bridge's singleton ledger record.
///
/// The caller becomes the authority, the provided mint becomes the custody
/// target, the bridge starts active and all counters start at zero — for
/// every `fee_percentage`, including rates above 100% (10000 basis points);
/// no upper bound is enforced here, so such a rate later makes `burn_wzec`
/// fail with `Overflow` on the fee subtraction.
pub fn initialize(ctx: &Initialize, fee_percentage: u16) -> (state: BridgeState)
    ensures
        state == spec_initialize(*ctx, fee_percentage),
        state.authority == ctx.authority,
        state.mint == ctx.mint,
        state.fee_percentage == fee_percentage,
        !state.paused,
        state.total_minted == 0,
        state.total_burned == 0,
        state.fee_collected == 0,
{
    BridgeState {
        authority: ctx.authority,
        mint: ctx.mint,
        fee_percentage: fee_percentage,
        paused: false,
        total_minted: 0,
        total_burned: 0,
        fee_collected: 0,
    }
}

/// Mints `amount` wrapped tokens to the recipient (bridge authority only).
///
/// Fails, in this order of checks, with `BridgePaused` when the bridge is
/// paused, `Unauthorized` when the caller is not the stored authority,
/// `InvalidAmount` when `amount` is zero, and `Overflow` when growing
/// `total_minted` would overflow 64 bits; any failure leaves the ledger
/// untouched.  On success the receipt instructs the host to mint `amount`
/// to the recipient, citing the attested `zcash_txid`.
pub fn mint_wzec(
    state: &mut BridgeState,
    ctx: &MintWZEC,
    amount: u64,
    zcash_txid: String,
) -> (r: Result<MintReceipt, BridgeError>)
    ensures
        counters_le(*old(state), *final(state)),
        (match r {
            Ok(receipt) => {
                &&& spec_mint_wzec(*old(state), ctx.authority, amount) == Ok::<
                    BridgeState,
                    BridgeError,
                >(*final(state))
                &&& receipt.amount == amount
                &&& receipt.recipient == ctx.recipient_token_account
                &&& receipt.zcash_txid@ == zcash_txid@
            },
            Err(e) => {
                &&& spec_mint_wzec(*old(state), ctx.authority, amount) == Err::<
                    BridgeState,
                    BridgeError,
                >(e)
                &&& *final(state) == *old(state)
            },
        }),
{
    if state.paused {
        return Err(BridgeError::BridgePaused);
    }
    if !(ctx.authority == state.authority) {
        return Err(BridgeError::Unauthorized);
    }
    if amount == 0 {
        return Err(BridgeError::InvalidAmount);
    }
    match state.total_minted.checked_add(amount) {
        Some(new_total) => {
            state.total_minted = new_total;
            Ok(MintReceipt { amount: amount, recipient: ctx.recipient_token_account, zcash_txid: zcash_txid })
        },
        None => Err(BridgeError::Overflow),
    }
}

/// Burns `amount` wrapped tokens from the caller's holding account and
/// reports the withdrawal to release on the external chain.
///
/// Burning is self-service: any holder may burn their own tokens; only the
/// pause state and the destination's syntax are enforced.  Fails, in this
/// order of checks, with `BridgePaused` when the bridge is paused,
/// `InvalidAmount` when `amount` is zero, `InvalidZecAddress` when the
/// destination fails the syntactic check, and `Overflow` when the fee
/// product exceeds 64 bits, the fee exceeds the amount (possible only with a
/// fee rate above 100%), or growing either counter would overflow; any
/// failure leaves the ledger untouched.  On success the receipt carries the
/// exact fee split: `fee = floor(amount * fee_percentage / 10000)` and
/// `amount_after_fee + fee == amount`.
pub fn burn_wzec(
    state: &mut BridgeState,
    ctx: &BurnWZEC,
    amount: u64,
    zec_address: String,
) -> (r: Result<BurnReceipt, BridgeError>)
    ensures
        counters_le(*old(state), *final(state)),
        (match r {
            Ok(receipt) => {
                &&& spec_burn_wzec(*old(state), amount, zec_address@) == Ok::<
                    BridgeState,
                    BridgeError,
                >(*final(state))
                &&& receipt.amount == amount
                &&& receipt.fee == spec_fee(amount, old(state).fee_percentage)
                &&& receipt.amount_after_fee + receipt.fee == amount
                &&& receipt.zec_address@ == zec_address@
            },
            Err(e) => {
                &&& spec_burn_wzec(*old(state), amount, zec_address@) == Err::<
                    BridgeState,
                    BridgeError,
                >(e)
                &&& *final(state) == *old(state)
            },
        }),
{
    if state.paused {
        return Err(BridgeError::BridgePaused);
    }
    if amount == 0 {
        return Err(BridgeError::InvalidAmount);
    }
    if !is_valid_zec_address(zec_address.as_str()) {
        return Err(BridgeError::InvalidZecAddress);
    }
    let fee = match compute_fee(amount, state.fee_percentage) {
        Ok(f) => f,
        Err(e) => {
            return Err(e);
        },
    };
    let amount_after_fee = match amount.checked_sub(fee) {
        Some(v) => v,
        None => {
            return Err(BridgeError::Overflow);
        },
    };
    let new_total_burned = match state.total_burned.checked_add(amount) {
        Some(v) => v,
        None => {
            return Err(BridgeError::Overflow);
        },
    };
    let new_fee_collected = match state.fee_collected.checked_add(fee) {
        Some(v) => v,
        None => {
            return Err(BridgeError::Overflow);
        },
    };
    state.total_burned = new_total_burned;
    state.fee_collected = new_fee_collected;
    Ok(
        BurnReceipt {
            amount: amount,
            fee: fee,
            amount_after_fee: amount_after_fee,
            zec_address: zec_address,
        },
    )
}

/// Replaces the bridge authority (current authority only).
///
/// A caller other than the stored authority gets `Unauthorized` and leaves
/// the ledger — the authority field included — untouched.
pub fn update_authority(
    state: &mut BridgeState,
    ctx: &UpdateAuthority,
    new_authority: Pubkey,
) -> (r: Result<(), BridgeError>)
    ensures
        counters_le(*old(state), *final(state)),
        (match r {
            Ok(()) => spec_update_authority(*old(state), ctx.authority, new_authority) == Ok::<
                BridgeState,
                BridgeError,
            >(*final(state)),
            Err(e) => {
                &&& spec_update_authority(*old(state), ctx.authority, new_authority) == Err::<
                    BridgeState,
                    BridgeError,
                >(e)
                &&& *final(state) == *old(state)
            },
        }),
{
    if !(ctx.authority == state.authority) {
        return Err(BridgeError::Unauthorized);
    }
    state.authority = new_authority;
    Ok(())
}

/// Pauses the bridge (authority only): mint and burn are then refused until
/// the bridge is resumed.  Pausing an already-paused bridge is not an error.
pub fn pause_bridge(state: &mut BridgeState, ctx: &PauseBridge) -> (r: Result<(), BridgeError>)
    ensures
        counters_le(*old(state), *final(state)),
        (match r {
            Ok(()) => spec_pause_bridge(*old(state), ctx.authority) == Ok::<
                BridgeState,
                BridgeError,
            >(*final(state)),
            Err(e) => {
                &&& spec_pause_bridge(*old(state), ctx.authority) == Err::<
                    BridgeState,
                    BridgeError,
                >(e)
                &&& *final(state) == *old(state)
            },
        }),
{
    if !(ctx.authority == state.authority) {
        return Err(BridgeError::Unauthorized);
    }
    state.paused = true;
    Ok(())
}

/// Resumes the bridge (authority only): mint and burn are allowed again.
/// Resuming an already-active bridge is not an error.
pub fn resume_bridge(state: &mut BridgeState, ctx: &ResumeBridge) -> (r: Result<(), BridgeError>)
    ensures
        counters_le(*old(state), *final(state)),
        (match r {
            Ok(()) => spec_resume_bridge(*old(state), ctx.authority) == Ok::<
                BridgeState,
                BridgeError,
            >(*final(state)),
            Err(e) => {
                &&& spec_resume_bridge(*old(state), ctx.authority) == Err::<
                    BridgeState,
                    BridgeError,
                >(e)
                &&& *final(state) == *old(state)
            },
        }),
{
    if !(ctx.authority == state.authority) {
        return Err(BridgeError::Unauthorized);
    }
    state.paused = false;
    Ok(())
}

/// Pausing and then resuming restores the exact pre-pause ledger for every
/// field but the pause flag, which ends cleared; a bridge that was active
/// before the pause is restored exactly.
pub proof fn lemma_pause_resume_roundtrip(s: BridgeState, caller: Pubkey)
    requires
        caller == s.authority,
    ensures
        spec_pause_bridge(s, caller) is Ok,
        spec_resume_bridge(spec_pause_bridge(s, caller).unwrap(), caller) is Ok,
        spec_resume_bridge(spec_pause_bridge(s, caller).unwrap(), caller).unwrap() == with_paused(
            s,
            false,
        ),
        !s.paused ==> spec_resume_bridge(spec_pause_bridge(s, caller).unwrap(), caller).unwrap()
            == s,
{
}

} // verus!
