//! The bridge's ledger record and the identities that operate on it.

use vstd::prelude::*;

verus! {

broadcast use vstd::array::group_array_axioms;

/// A caller or account identity: a 32-byte public key.  The bridge only ever
/// compares identities for equality; signature checking is the host's job.
#[derive(Clone, Copy, Debug)]
pub struct Pubkey {
    pub bytes: [u8; 32],
}

impl PartialEq for Pubkey {
    fn eq(&self, other: &Pubkey) -> (r: bool) {
        let mut i: usize = 0;
        while i < 32
            invariant
                0 <= i <= 32,
                forall|j: int| 0 <= j < i ==> self.bytes[j] == other.bytes[j],
            decreases 32 - i,
        {
            if self.bytes[i] != other.bytes[i] {
                return false;
            }
            i += 1;
        }
        proof {
            assert(self.bytes =~= other.bytes);
        }
        true
    }
}

impl vstd::std_specs::cmp::PartialEqSpecImpl for Pubkey {
    open spec fn obeys_eq_spec() -> bool {
        true
    }

    open spec fn eq_spec(&self, other: &Pubkey) -> bool {
        self.bytes == other.bytes
    }
}

/// The singleton ledger record of the bridge: one instance per deployment.
///
/// The three counters only ever grow; an addition that would overflow 64 bits
/// aborts the operation instead of wrapping.
#[derive(Clone, Copy, Debug, PartialEq)]
pub struct BridgeState {
    /// The only identity allowed to mint, pause, resume, and reassign itself.
    pub authority: Pubkey,
    /// The custody/mint target; immutable after initialization.
    pub mint: Pubkey,
    /// Withdrawal fee in basis points (1/10000).
    pub fee_percentage: u16,
    /// Gates `mint_wzec` and `burn_wzec` when true.
    pub paused: bool,
    /// Total wrapped tokens ever minted.
    pub total_minted: u64,
    /// Total wrapped tokens ever burned.
    pub total_burned: u64,
    /// Total fees withheld from burns.
    pub fee_collected: u64,
}

impl BridgeState {
    /// The persisted size of the record in bytes: two 32-byte keys, the fee
    /// rate, the pause flag, and three 64-bit counters.
    pub const LEN: usize = 32 + 32 + 2 + 1 + 8 + 8 + 8;
}

/// `b` has every counter at least as high as `a`: the ordering that every
/// bridge operation, successful or failed, preserves.
pub open spec fn counters_le(a: BridgeState, b: BridgeState) -> bool {
    &&& a.total_minted <= b.total_minted
    &&& a.total_burned <= b.total_burned
    &&& a.fee_collected <= b.fee_collected
}

/// Counter growth composes: a sequence of operations, each of which only
/// grows the counters, only grows the counters.
pub proof fn lemma_counters_le_trans(a: BridgeState, b: BridgeState, c: BridgeState)
    requires
        counters_le(a, b),
        counters_le(b, c),
    ensures
        counters_le(a, c),
{
}

/// `s` with its pause flag set to `p` and every other field unchanged.
pub open spec fn with_paused(s: BridgeState, p: bool) -> BridgeState {
    BridgeState { paused: p, ..s }
}

} // verus!
