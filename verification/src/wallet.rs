//! The records the sync engine works on.

use vstd::prelude::*;
use crate::error::ClientError;

verus! {

/// Number of derivations computed and persisted together.
pub const DERIVATION_BATCH: u32 = 500;

/// An unspent-output record, identified by the hash of its three fields.
#[derive(Debug, Clone, Copy, PartialEq, Eq)]
pub struct Coin {
    pub parent_coin_info: [u8; 32],
    pub puzzle_hash: [u8; 32],
    pub amount: u64,
}

/// What a peer reports of one coin.
#[derive(Debug, Clone, Copy, PartialEq, Eq)]
pub struct CoinState {
    pub coin: Coin,
    pub created_height: Option<u32>,
    pub spent_height: Option<u32>,
}

impl CoinState {
    /// A coin is spent iff a spent height is recorded.
    pub open spec fn spec_is_spent(&self) -> bool {
        self.spent_height is Some
    }

    /// A coin is spent iff a spent height is recorded.
    #[verifier::when_used_as_spec(spec_is_spent)]
    pub fn is_spent(&self) -> (spent: bool)
        ensures
            spent == self.spec_is_spent(),
    {
        self.spent_height.is_some()
    }
}

/// The chain tip a wallet has synced to, or a peer has reported.
#[derive(Debug, Clone, Copy, PartialEq, Eq)]
pub struct WalletPeak {
    pub height: u32,
    pub header_hash: [u8; 32],
}

/// One entry of the derivation chain.
#[derive(Debug, Clone, Copy, PartialEq, Eq)]
pub struct Derivation {
    pub index: u32,
    /// The compressed synthetic public key.
    pub synthetic_key: [u8; 48],
    /// The tree hash of the standard puzzle for `synthetic_key`.
    pub puzzle_hash: [u8; 32],
    pub hardened: bool,
}

/// Which coins a puzzle-state query selects.
#[derive(Debug, Clone, Copy, PartialEq, Eq)]
pub struct Filters {
    pub include_spent: bool,
    pub include_unspent: bool,
    pub include_hinted: bool,
    pub min_amount: u64,
}

/// The filters of a sync sweep: spent, unspent and hinted coins of any amount.
pub open spec fn sweep_filters() -> Filters {
    Filters { include_spent: true, include_unspent: true, include_hinted: true, min_amount: 0 }
}

/// Progress reported to whoever watches a sync.
#[derive(Debug, Clone, PartialEq, Eq)]
pub enum SyncEvent {
    /// These coin states have been persisted.
    CoinsUpdated { coin_states: Vec<CoinState> },
    /// Derivations below `next_index` have been persisted.
    DerivationIndex { next_index: u32 },
}

/// The mathematical value of a [`SyncEvent`].
pub ghost enum SyncEventView {
    CoinsUpdated { coin_states: Seq<CoinState> },
    DerivationIndex { next_index: u32 },
}

impl View for SyncEvent {
    type V = SyncEventView;

    open spec fn view(&self) -> SyncEventView {
        match *self {
            SyncEvent::CoinsUpdated { coin_states } => SyncEventView::CoinsUpdated {
                coin_states: coin_states@,
            },
            SyncEvent::DerivationIndex { next_index } => SyncEventView::DerivationIndex {
                next_index,
            },
        }
    }
}

/// What can end a sync run.
#[derive(Debug, Clone, PartialEq, Eq)]
pub enum WalletError {
    /// The peer client failed.
    Peer(ClientError),
    /// The peer refused a subscription.
    Rejected,
    /// A request exceeded its time budget.
    Timeout,
    /// The database reported an error.
    Database,
    /// The derivation chain cannot grow: the next batch would pass the last index.
    DerivationLimit,
    /// Bytes given as a public key are not one.
    InvalidKey,
}

} // verus!
