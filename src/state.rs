use vstd::prelude::*;

verus! {

/// Lifecycle of one relay's fill record.
#[derive(Clone, Copy, Debug, PartialEq, Eq, Structural)]
pub enum FillStatus {
    Unfilled,
    RequestedSlowFill,
    Filled,
}

/// Persistent per-relay record, stored under the relay hash.
#[derive(Clone, Copy, Debug)]
pub struct FillStatusAccount {
    pub status: FillStatus,
    pub relayer: [u8; 32],
}

impl FillStatusAccount {
    /// A freshly created record: unfilled, with no relayer.
    pub fn new() -> (r: FillStatusAccount)
        ensures
            r.status == FillStatus::Unfilled,
            r.relayer@ == Seq::new(32, |i: int| 0u8),
    {
        let r = FillStatusAccount { status: FillStatus::Unfilled, relayer: [0u8; 32] };
        assert(r.relayer@ =~= Seq::new(32, |i: int| 0u8));
        r
    }
}

/// Protocol-wide configuration.
#[derive(Clone, Copy, Debug, PartialEq, Eq, Structural)]
pub struct State {
    pub seed: u64,
    /// This chain's own identifier.
    pub chain_id: u64,
    /// Overrides the wall clock when nonzero.
    pub current_time: u32,
    pub paused_fills: bool,
}

/// A published root of slow-relay leaves.
#[derive(Clone, Copy, Debug)]
pub struct RootBundle {
    pub slow_relay_root: [u8; 32],
}

/// Every way a slow-fill request or execution can fail.
#[derive(Clone, Copy, Debug, PartialEq, Eq, Structural)]
pub enum CustomError {
    FillsArePaused,
    InvalidRelayHash,
    NoSlowFillsInExclusivityWindow,
    ExpiredFillDeadline,
    InvalidSlowFillRequest,
    InvalidMerkleProof,
    InvalidFillRecipient,
    InvalidMint,
}

/// How a relay was filled.
#[derive(Clone, Copy, Debug, PartialEq, Eq, Structural)]
pub enum FillType {
    FastFill,
    ReplacedSlowFill,
    SlowFill,
}

} // verus!
