//! The top-level synchronization of one wallet against one peer.
//!
//! [`WalletSync`] orders the work of a sync run: subscribe to the known coin
//! ids chunk by chunk, sweep the known puzzle hashes page by page, extend the
//! derivation chain while a sweep still discovers coins, and at last persist
//! the peak the peer reported. The caller performs each action (a request, a
//! pause, a database write) and reports its outcome.

use vstd::prelude::*;
use crate::chunks::{chunk_at, chunk_end, copy_chunk, end_of_chunk};
use crate::wallet::{
    sweep_filters, CoinState, Derivation, Filters, WalletError, WalletPeak, DERIVATION_BATCH,
};

verus! {

/// Coin ids per subscription request.
pub const COIN_CHUNK: usize = 10_000;

/// Puzzle hashes per subscription request.
pub const PUZZLE_CHUNK: usize = 500;

/// Pause between two coin subscription requests, in milliseconds.
pub const PAUSE_MILLIS: u64 = 500;

/// Time budget of a coin subscription request, in seconds.
pub const COIN_TIMEOUT_SECS: u64 = 10;

/// Time budget of a puzzle subscription request, in seconds.
pub const PUZZLE_TIMEOUT_SECS: u64 = 45;

/// Where a sync run stands: what it has asked for and is waiting to hear of.
#[derive(Debug, Clone, Copy, PartialEq, Eq)]
pub enum SyncPhase {
    /// The persisted puzzle hashes, peak and coin ids are being read.
    Loading,
    /// The pause before the chunk of coin ids at `pos`.
    Pausing { pos: usize },
    /// The subscription to the chunk of coin ids at `pos` is in flight.
    SubscribingCoins { pos: usize },
    /// The coin states returned for the chunk at `pos` are being persisted.
    ApplyingCoins { pos: usize },
    /// A page of the batch of puzzle hashes at `pos` is in flight.
    SubscribingPuzzles { pos: usize },
    /// The coin states of a page of the batch at `pos` are being persisted.
    ApplyingPuzzles { pos: usize, is_finished: bool },
    /// The next batch of derivations is being computed.
    Deriving,
    /// The new derivations are being persisted.
    StoringDerivations,
    /// The peak the peer last reported is being looked up.
    ReadingPeak,
    /// That peak is being persisted.
    StoringPeak,
    /// The run succeeded.
    Done,
    /// The run failed.
    Failed,
}

/// What the caller reports back.
#[derive(Debug, Clone, PartialEq, Eq)]
pub enum SyncInput {
    /// The persisted state: the p2 puzzle hashes in derivation order, the
    /// latest peak if there is one, and the ids of the unspent NFT, DID and CAT coins.
    Loaded {
        puzzle_hashes: Vec<[u8; 32]>,
        peak: Option<WalletPeak>,
        nft_coin_ids: Vec<[u8; 32]>,
        did_coin_ids: Vec<[u8; 32]>,
        cat_coin_ids: Vec<[u8; 32]>,
    },
    /// The pause is over.
    Slept,
    /// The peer's answer to a coin subscription.
    CoinStates(Vec<CoinState>),
    /// The coin states handed out last are persisted.
    Applied,
    /// One page of the peer's answer to a puzzle subscription, with its cursor.
    PuzzleStates { coin_states: Vec<CoinState>, height: u32, header_hash: [u8; 32], is_finished: bool },
    /// The derivations asked for.
    Derived(Vec<Derivation>),
    /// The last write went through.
    Stored,
    /// The peak recorded for this peer, if one is.
    PeerPeak(Option<WalletPeak>),
    /// The last action failed.
    Failed(WalletError),
}

/// What the caller is to do next.
#[derive(Debug, Clone, PartialEq, Eq)]
pub enum SyncAction {
    /// Wait.
    Sleep { millis: u64 },
    /// Subscribe to these coin ids from this point of the chain on, within the time given.
    SubscribeCoins {
        coin_ids: Vec<[u8; 32]>,
        start_height: Option<u32>,
        start_header_hash: [u8; 32],
        timeout_secs: u64,
    },
    /// Persist these coin states by an incremental sync that derives automatically.
    Apply { coin_states: Vec<CoinState> },
    /// Ask for the next page of these puzzle hashes after this cursor, within the time given.
    SubscribePuzzles {
        puzzle_hashes: Vec<[u8; 32]>,
        start_height: Option<u32>,
        start_header_hash: [u8; 32],
        filters: Filters,
        timeout_secs: u64,
    },
    /// Compute the unhardened derivations at `start..start + count`.
    Derive { start: u32, count: u32 },
    /// Persist these derivations in one transaction, then report `next_index` as the derivation index.
    StoreDerivations { derivations: Vec<Derivation>, next_index: u32 },
    /// Look up the peak recorded for this peer.
    ReadPeerPeak,
    /// Persist this peak.
    StorePeak(WalletPeak),
    /// Nothing more: the wallet is synced.
    Finish,
    /// Give up with this error.
    Fail(WalletError),
}

/// The mathematical value of a [`SyncAction`].
pub ghost enum SyncActionView {
    Sleep { millis: u64 },
    SubscribeCoins {
        coin_ids: Seq<[u8; 32]>,
        start_height: Option<u32>,
        start_header_hash: [u8; 32],
        timeout_secs: u64,
    },
    Apply { coin_states: Seq<CoinState> },
    SubscribePuzzles {
        puzzle_hashes: Seq<[u8; 32]>,
        start_height: Option<u32>,
        start_header_hash: [u8; 32],
        filters: Filters,
        timeout_secs: u64,
    },
    Derive { start: u32, count: u32 },
    StoreDerivations { derivations: Seq<Derivation>, next_index: u32 },
    ReadPeerPeak,
    StorePeak(WalletPeak),
    Finish,
    Fail(WalletError),
}

impl View for SyncAction {
    type V = SyncActionView;

    open spec fn view(&self) -> SyncActionView {
        match *self {
            SyncAction::Sleep { millis } => SyncActionView::Sleep { millis },
            SyncAction::SubscribeCoins {
                coin_ids,
                start_height,
                start_header_hash,
                timeout_secs,
            } => SyncActionView::SubscribeCoins {
                coin_ids: coin_ids@,
                start_height,
                start_header_hash,
                timeout_secs,
            },
            SyncAction::Apply { coin_states } => SyncActionView::Apply { coin_states: coin_states@ },
            SyncAction::SubscribePuzzles {
                puzzle_hashes,
                start_height,
                start_header_hash,
                filters,
                timeout_secs,
            } => SyncActionView::SubscribePuzzles {
                puzzle_hashes: puzzle_hashes@,
                start_height,
                start_header_hash,
                filters,
                timeout_secs,
            },
            SyncAction::Derive { start, count } => SyncActionView::Derive { start, count },
            SyncAction::StoreDerivations { derivations, next_index } => SyncActionView::StoreDerivations {
                derivations: derivations@,
                next_index,
            },
            SyncAction::ReadPeerPeak => SyncActionView::ReadPeerPeak,
            SyncAction::StorePeak(peak) => SyncActionView::StorePeak(peak),
            SyncAction::Finish => SyncActionView::Finish,
            SyncAction::Fail(error) => SyncActionView::Fail(error),
        }
    }
}

/// A point of the chain: the height of a block, absent before the first, and its header hash.
#[derive(Debug, Clone, Copy, PartialEq, Eq)]
pub struct ChainPoint {
    pub height: Option<u32>,
    pub header_hash: [u8; 32],
}

/// The mathematical value of a [`WalletSync`].
pub ghost struct SyncState {
    pub phase: SyncPhase,
    /// The header hash that stands for the start of the chain.
    pub genesis_challenge: [u8; 32],
    /// Where the wallet was synced to when the run began.
    pub resume: ChainPoint,
    /// The ids of the coins to subscribe to.
    pub coin_ids: Seq<[u8; 32]>,
    /// The puzzle hashes of the sweep under way.
    pub puzzle_hashes: Seq<[u8; 32]>,
    /// Where each batch of the sweep under way starts.
    pub sweep_start: ChainPoint,
    /// The cursor of the batch under way: where its next page starts.
    pub anchor: ChainPoint,
    /// Whether the derivation chain is to be extended once the sweep is over.
    pub derive_more: bool,
    /// The index of the first derivation not yet made.
    pub next_index: u32,
}

/// Where a run resumes: at the persisted peak, or at the start of the chain where there is none.
pub open spec fn resume_point(peak: Option<WalletPeak>, genesis_challenge: [u8; 32]) -> ChainPoint {
    match peak {
        Some(peak) => ChainPoint { height: Some(peak.height), header_hash: peak.header_hash },
        None => ChainPoint { height: None, header_hash: genesis_challenge },
    }
}

/// The puzzle hashes of a batch of derivations, in order.
pub open spec fn puzzle_hashes_of(derivations: Seq<Derivation>) -> Seq<[u8; 32]> {
    Seq::new(derivations.len(), |i: int| derivations[i].puzzle_hash)
}

/// Asks for the chunk of coin ids at `pos`.
pub open spec fn subscribe_coins(s: SyncState, pos: usize) -> (SyncState, SyncActionView) {
    (
        SyncState { phase: SyncPhase::SubscribingCoins { pos }, ..s },
        SyncActionView::SubscribeCoins {
            coin_ids: chunk_at(s.coin_ids, pos as nat, COIN_CHUNK as nat),
            start_height: s.resume.height,
            start_header_hash: s.resume.header_hash,
            timeout_secs: COIN_TIMEOUT_SECS,
        },
    )
}

/// Moves on to the chunk of coin ids at `pos`, after a pause unless it is the
/// first; once the coin ids are used up, starts the sweep of the persisted puzzle hashes.
pub open spec fn enter_coins(s: SyncState, pos: usize) -> (SyncState, SyncActionView) {
    if pos >= s.coin_ids.len() {
        enter_batch(s, 0)
    } else if pos != 0 {
        (
            SyncState { phase: SyncPhase::Pausing { pos }, ..s },
            SyncActionView::Sleep { millis: PAUSE_MILLIS },
        )
    } else {
        subscribe_coins(s, pos)
    }
}

/// Asks for the page of the batch at `pos` that starts at the anchor.
pub open spec fn request_page(s: SyncState, pos: usize) -> (SyncState, SyncActionView) {
    (
        SyncState { phase: SyncPhase::SubscribingPuzzles { pos }, ..s },
        SyncActionView::SubscribePuzzles {
            puzzle_hashes: chunk_at(s.puzzle_hashes, pos as nat, PUZZLE_CHUNK as nat),
            start_height: s.anchor.height,
            start_header_hash: s.anchor.header_hash,
            filters: sweep_filters(),
            timeout_secs: PUZZLE_TIMEOUT_SECS,
        },
    )
}

/// Moves on to the batch of puzzle hashes at `pos`, from the start of the
/// sweep; once the puzzle hashes are used up, ends the sweep.
pub open spec fn enter_batch(s: SyncState, pos: usize) -> (SyncState, SyncActionView) {
    if pos >= s.puzzle_hashes.len() {
        end_sweep(s)
    } else {
        request_page(SyncState { anchor: s.sweep_start, ..s }, pos)
    }
}

/// Goes on after a page of the batch at `pos`: to the next page from the new
/// anchor, or, after the last page, to the next batch.
pub open spec fn after_page(s: SyncState, pos: usize, is_finished: bool) -> (SyncState, SyncActionView) {
    if is_finished {
        enter_batch(s, chunk_end(s.puzzle_hashes.len(), pos as nat, PUZZLE_CHUNK as nat) as usize)
    } else {
        request_page(s, pos)
    }
}

/// Ends a sweep: extends the derivation chain if the sweep calls for it, and
/// otherwise goes on to the peak.
pub open spec fn end_sweep(s: SyncState) -> (SyncState, SyncActionView) {
    if s.derive_more {
        if s.next_index + DERIVATION_BATCH > u32::MAX {
            (
                SyncState { phase: SyncPhase::Failed, ..s },
                SyncActionView::Fail(WalletError::DerivationLimit),
            )
        } else {
            (
                SyncState { phase: SyncPhase::Deriving, derive_more: false, ..s },
                SyncActionView::Derive { start: s.next_index, count: DERIVATION_BATCH },
            )
        }
    } else {
        (SyncState { phase: SyncPhase::ReadingPeak, ..s }, SyncActionView::ReadPeerPeak)
    }
}

/// Whether the run is over.
pub open spec fn is_over(phase: SyncPhase) -> bool {
    phase is Done || phase is Failed
}

/// The next state and action; `None` where `input` is not one the run is waiting for.
pub open spec fn sync_step(s: SyncState, input: SyncInput) -> Option<(SyncState, SyncActionView)> {
    if is_over(s.phase) {
        None
    } else if input is Failed {
        Some((SyncState { phase: SyncPhase::Failed, ..s }, SyncActionView::Fail(input->Failed_0)))
    } else {
        match (s.phase, input) {
            (
                SyncPhase::Loading,
                SyncInput::Loaded { puzzle_hashes, peak, nft_coin_ids, did_coin_ids, cat_coin_ids },
            ) => {
                let resume = resume_point(peak, s.genesis_challenge);
                if puzzle_hashes@.len() > u32::MAX {
                    Some(
                        (
                            SyncState { phase: SyncPhase::Failed, ..s },
                            SyncActionView::Fail(WalletError::DerivationLimit),
                        ),
                    )
                } else {
                    Some(
                        enter_coins(
                            SyncState {
                                resume,
                                coin_ids: nft_coin_ids@ + did_coin_ids@ + cat_coin_ids@,
                                puzzle_hashes: puzzle_hashes@,
                                sweep_start: resume,
                                anchor: resume,
                                derive_more: puzzle_hashes@.len() == 0,
                                next_index: puzzle_hashes@.len() as u32,
                                ..s
                            },
                            0,
                        ),
                    )
                }
            },
            (SyncPhase::Pausing { pos }, SyncInput::Slept) => Some(subscribe_coins(s, pos)),
            (SyncPhase::SubscribingCoins { pos }, SyncInput::CoinStates(coin_states)) => {
                if coin_states@.len() > 0 {
                    Some(
                        (
                            SyncState { phase: SyncPhase::ApplyingCoins { pos }, ..s },
                            SyncActionView::Apply { coin_states: coin_states@ },
                        ),
                    )
                } else {
                    Some(
                        enter_coins(
                            s,
                            chunk_end(s.coin_ids.len(), pos as nat, COIN_CHUNK as nat) as usize,
                        ),
                    )
                }
            },
            (SyncPhase::ApplyingCoins { pos }, SyncInput::Applied) => Some(
                enter_coins(s, chunk_end(s.coin_ids.len(), pos as nat, COIN_CHUNK as nat) as usize),
            ),
            (
                SyncPhase::SubscribingPuzzles { pos },
                SyncInput::PuzzleStates { coin_states, height, header_hash, is_finished },
            ) => {
                let anchor = ChainPoint { height: Some(height), header_hash };
                if coin_states@.len() > 0 {
                    Some(
                        (
                            SyncState {
                                phase: SyncPhase::ApplyingPuzzles { pos, is_finished },
                                anchor,
                                derive_more: true,
                                ..s
                            },
                            SyncActionView::Apply { coin_states: coin_states@ },
                        ),
                    )
                } else {
                    Some(after_page(SyncState { anchor, ..s }, pos, is_finished))
                }
            },
            (SyncPhase::ApplyingPuzzles { pos, is_finished }, SyncInput::Applied) => Some(
                after_page(s, pos, is_finished),
            ),
            (SyncPhase::Deriving, SyncInput::Derived(derivations)) => {
                if s.next_index + derivations@.len() > u32::MAX {
                    Some(
                        (
                            SyncState { phase: SyncPhase::Failed, ..s },
                            SyncActionView::Fail(WalletError::DerivationLimit),
                        ),
                    )
                } else {
                    let next_index = (s.next_index + derivations@.len()) as u32;
                    Some(
                        (
                            SyncState {
                                phase: SyncPhase::StoringDerivations,
                                puzzle_hashes: puzzle_hashes_of(derivations@),
                                sweep_start: ChainPoint {
                                    height: None,
                                    header_hash: s.genesis_challenge,
                                },
                                next_index,
                                ..s
                            },
                            SyncActionView::StoreDerivations { derivations: derivations@, next_index },
                        ),
                    )
                }
            },
            (SyncPhase::StoringDerivations, SyncInput::Stored) => Some(enter_batch(s, 0)),
            (SyncPhase::ReadingPeak, SyncInput::PeerPeak(peak)) => match peak {
                Some(peak) => Some(
                    (SyncState { phase: SyncPhase::StoringPeak, ..s }, SyncActionView::StorePeak(peak)),
                ),
                None => Some((SyncState { phase: SyncPhase::Done, ..s }, SyncActionView::Finish)),
            },
            (SyncPhase::StoringPeak, SyncInput::Stored) => Some(
                (SyncState { phase: SyncPhase::Done, ..s }, SyncActionView::Finish),
            ),
            _ => None,
        }
    }
}

/// The stage of a run: loading, coin subscriptions, puzzle sweeps with the
/// extension of the derivation chain, the peak, and the end.
pub open spec fn stage(phase: SyncPhase) -> nat {
    match phase {
        SyncPhase::Loading => 0,
        SyncPhase::Pausing { .. } => 1,
        SyncPhase::SubscribingCoins { .. } => 1,
        SyncPhase::ApplyingCoins { .. } => 1,
        SyncPhase::SubscribingPuzzles { .. } => 2,
        SyncPhase::ApplyingPuzzles { .. } => 2,
        SyncPhase::Deriving => 2,
        SyncPhase::StoringDerivations => 2,
        SyncPhase::ReadingPeak => 3,
        SyncPhase::StoringPeak => 3,
        SyncPhase::Done => 4,
        SyncPhase::Failed => 4,
    }
}

/// The stages come in order: coin subscriptions precede the puzzle sweeps,
/// which precede the peak, and no step goes back to an earlier stage.
pub proof fn lemma_stages_in_order(s: SyncState, input: SyncInput)
    requires
        sync_step(s, input) is Some,
    ensures
        stage(s.phase) <= stage(sync_step(s, input)->Some_0.0.phase),
{
}

/// The peak persisted is the one read for the peer: a peak is stored only in
/// answer to the lookup, and it is the peak the lookup gave. Where the lookup
/// gave none, the run finishes without storing any.
pub proof fn lemma_peak_stored_as_read(s: SyncState, input: SyncInput)
    requires
        sync_step(s, input) is Some,
    ensures
        sync_step(s, input)->Some_0.1 matches SyncActionView::StorePeak(peak) ==> s.phase is ReadingPeak
            && input == SyncInput::PeerPeak(Some(peak)),
        s.phase is ReadingPeak && input == SyncInput::PeerPeak(None) ==> sync_step(s, input)->Some_0.1 is Finish,
        sync_step(s, input)->Some_0.1 is Finish ==> (s.phase is ReadingPeak && input
            == SyncInput::PeerPeak(None)) || (s.phase is StoringPeak && input is Stored),
{
}

/// The derivation chain is extended only when the sweep before called for it,
/// or when the wallet had no derivation at all, and each extension clears the
/// call. A call arises only from a page that carried coin states, so a sweep
/// of a new batch that finds no coin ends the extension.
pub proof fn lemma_frontier_stops_without_coins(s: SyncState, input: SyncInput)
    requires
        sync_step(s, input) is Some,
    ensures
        sync_step(s, input)->Some_0.1 is Derive ==> !sync_step(s, input)->Some_0.0.derive_more && (
        s.derive_more || (input matches SyncInput::Loaded { puzzle_hashes, .. } && puzzle_hashes@.len()
            == 0)),
        !s.derive_more && sync_step(s, input)->Some_0.0.derive_more ==> (input matches SyncInput::PuzzleStates {
            coin_states,
            ..
        } && coin_states@.len() > 0) || (input matches SyncInput::Loaded { puzzle_hashes, .. }
            && puzzle_hashes@.len() == 0),
{
}

/// Each extension moves the chain forward: the batch derived starts at the
/// index the run had reached, and the index advances by the size of the batch
/// handed back, never past the last index.
pub proof fn lemma_frontier_advances(s: SyncState, input: SyncInput)
    requires
        s.phase is Deriving,
        input is Derived,
        sync_step(s, input) is Some,
    ensures
        ({
            let (after, action) = sync_step(s, input)->Some_0;
            let batch = input->Derived_0@;
            if s.next_index + batch.len() <= u32::MAX {
                &&& after.next_index == s.next_index + batch.len()
                &&& after.puzzle_hashes == puzzle_hashes_of(batch)
                &&& after.sweep_start == (ChainPoint { height: None, header_hash: s.genesis_challenge })
                &&& action == (SyncActionView::StoreDerivations {
                    derivations: batch,
                    next_index: after.next_index,
                })
            } else {
                action == SyncActionView::Fail(WalletError::DerivationLimit)
            }
        }),
{
}

/// Pagination follows the peer's cursor: after a page that is not the last,
/// the next request is for the same puzzle hashes and starts at the height and
/// header hash that the page carried.
pub proof fn lemma_next_page_starts_at_cursor(s: SyncState, input: SyncInput)
    requires
        s.phase is SubscribingPuzzles,
        input matches SyncInput::PuzzleStates { is_finished, .. } && !is_finished,
    ensures
        ({
            let pos = s.phase->SubscribingPuzzles_pos;
            let (after, action) = sync_step(s, input)->Some_0;
            let request = SyncActionView::SubscribePuzzles {
                puzzle_hashes: chunk_at(s.puzzle_hashes, pos as nat, PUZZLE_CHUNK as nat),
                start_height: Some(input->PuzzleStates_height),
                start_header_hash: input->PuzzleStates_header_hash,
                filters: sweep_filters(),
                timeout_secs: PUZZLE_TIMEOUT_SECS,
            };
            if input->PuzzleStates_coin_states@.len() == 0 {
                action == request
            } else {
                &&& action == (SyncActionView::Apply { coin_states: input->PuzzleStates_coin_states@ })
                &&& sync_step(after, SyncInput::Applied) matches Some((_, resumed))
                &&& resumed == request
            }
        }),
{
}

/// The state of a run that started in `s` once `inputs` have been fed to it,
/// in order; inputs the run is not waiting for are passed over.
pub open spec fn sync_state_after(s: SyncState, inputs: Seq<SyncInput>) -> SyncState
    decreases inputs.len(),
{
    if inputs.len() == 0 {
        s
    } else {
        let before = sync_state_after(s, inputs.drop_last());
        match sync_step(before, inputs.last()) {
            Some((after, _)) => after,
            None => before,
        }
    }
}

/// The actions issued while `inputs` are fed, in order, to a run in state `s`.
pub open spec fn sync_actions(s: SyncState, inputs: Seq<SyncInput>) -> Seq<SyncActionView>
    decreases inputs.len(),
{
    if inputs.len() == 0 {
        Seq::empty()
    } else {
        let before = sync_actions(s, inputs.drop_last());
        match sync_step(sync_state_after(s, inputs.drop_last()), inputs.last()) {
            Some((_, action)) => before.push(action),
            None => before,
        }
    }
}

/// The stage an action belongs to; persisting coin states belongs to the stage it is asked in.
pub open spec fn action_stage(action: SyncActionView) -> Option<nat> {
    match action {
        SyncActionView::Sleep { .. } => Some(1),
        SyncActionView::SubscribeCoins { .. } => Some(1),
        SyncActionView::Apply { .. } => None,
        SyncActionView::SubscribePuzzles { .. } => Some(2),
        SyncActionView::Derive { .. } => Some(2),
        SyncActionView::StoreDerivations { .. } => Some(2),
        SyncActionView::ReadPeerPeak => Some(3),
        SyncActionView::StorePeak(_) => Some(3),
        SyncActionView::Finish => Some(4),
        SyncActionView::Fail(_) => Some(4),
    }
}

/// Whether an outcome carries an action of the stage it leads to, at or past `least`.
spec fn lands_in_stage(outcome: (SyncState, SyncActionView), least: nat) -> bool {
    &&& action_stage(outcome.1) == Some(stage(outcome.0.phase))
    &&& least <= stage(outcome.0.phase)
}

proof fn lemma_moves_land_in_stage(s: SyncState, pos: usize, is_finished: bool)
    ensures
        lands_in_stage(end_sweep(s), 2),
        lands_in_stage(request_page(s, pos), 2),
        lands_in_stage(enter_batch(s, pos), 2),
        lands_in_stage(after_page(s, pos, is_finished), 2),
        lands_in_stage(subscribe_coins(s, pos), 1),
        lands_in_stage(enter_coins(s, pos), 1),
{
}

proof fn lemma_step_stage(s: SyncState, input: SyncInput)
    requires
        sync_step(s, input) is Some,
    ensures
        stage(s.phase) <= stage(sync_step(s, input)->Some_0.0.phase),
        action_stage(sync_step(s, input)->Some_0.1) matches Some(k) ==> k == stage(
            sync_step(s, input)->Some_0.0.phase,
        ),
{
    if !(input is Failed) {
        match (s.phase, input) {
            (
                SyncPhase::Loading,
                SyncInput::Loaded { puzzle_hashes, peak, nft_coin_ids, did_coin_ids, cat_coin_ids },
            ) => {
                let resume = resume_point(peak, s.genesis_challenge);
                lemma_moves_land_in_stage(
                    SyncState {
                        resume,
                        coin_ids: nft_coin_ids@ + did_coin_ids@ + cat_coin_ids@,
                        puzzle_hashes: puzzle_hashes@,
                        sweep_start: resume,
                        anchor: resume,
                        derive_more: puzzle_hashes@.len() == 0,
                        next_index: puzzle_hashes@.len() as u32,
                        ..s
                    },
                    0,
                    false,
                );
            },
            (SyncPhase::Pausing { pos }, SyncInput::Slept) => {
                lemma_moves_land_in_stage(s, pos, false);
            },
            (SyncPhase::SubscribingCoins { pos }, SyncInput::CoinStates(_)) => {
                lemma_moves_land_in_stage(
                    s,
                    chunk_end(s.coin_ids.len(), pos as nat, COIN_CHUNK as nat) as usize,
                    false,
                );
            },
            (SyncPhase::ApplyingCoins { pos }, SyncInput::Applied) => {
                lemma_moves_land_in_stage(
                    s,
                    chunk_end(s.coin_ids.len(), pos as nat, COIN_CHUNK as nat) as usize,
                    false,
                );
            },
            (
                SyncPhase::SubscribingPuzzles { pos },
                SyncInput::PuzzleStates { coin_states, height, header_hash, is_finished },
            ) => {
                lemma_moves_land_in_stage(
                    SyncState { anchor: ChainPoint { height: Some(height), header_hash }, ..s },
                    pos,
                    is_finished,
                );
            },
            (SyncPhase::ApplyingPuzzles { pos, is_finished }, SyncInput::Applied) => {
                lemma_moves_land_in_stage(s, pos, is_finished);
            },
            (SyncPhase::StoringDerivations, SyncInput::Stored) => {
                lemma_moves_land_in_stage(s, 0, false);
            },
            _ => {},
        }
    }
}

proof fn lemma_actions_below_stage(s: SyncState, inputs: Seq<SyncInput>)
    ensures
        stage(s.phase) <= stage(sync_state_after(s, inputs).phase),
        forall|i: int|
            0 <= i < sync_actions(s, inputs).len() ==> (#[trigger] action_stage(
                sync_actions(s, inputs)[i],
            ) matches Some(k) ==> k <= stage(sync_state_after(s, inputs).phase)),
    decreases inputs.len(),
{
    if inputs.len() > 0 {
        let earlier = inputs.drop_last();
        lemma_actions_below_stage(s, earlier);
        let before = sync_actions(s, earlier);
        let state = sync_state_after(s, earlier);
        let now = sync_actions(s, inputs);
        let after = sync_state_after(s, inputs);
        let stepped = sync_step(state, inputs.last());
        if stepped is Some {
            lemma_step_stage(state, inputs.last());
            assert(now == before.push(stepped->Some_0.1));
            assert(after == stepped->Some_0.0);
        } else {
            assert(now == before);
            assert(after == state);
        }
        assert forall|i: int| 0 <= i < now.len() implies (#[trigger] action_stage(now[i]) matches Some(k)
            ==> k <= stage(after.phase)) by {
            if i < before.len() {
                assert(now[i] == before[i]);
                assert(action_stage(before[i]) matches Some(k) ==> k <= stage(state.phase));
            }
        }
    }
}

/// A run does its work in order: in the actions of any run, the coin
/// subscriptions and their pauses come before every puzzle subscription and
/// every extension of the derivation chain, these before the lookup and the
/// persisting of the peak, and nothing follows the end of the run.
pub proof fn lemma_actions_in_stage_order(s: SyncState, inputs: Seq<SyncInput>, i: int, j: int)
    requires
        0 <= i < j < sync_actions(s, inputs).len(),
        action_stage(sync_actions(s, inputs)[i]) is Some,
        action_stage(sync_actions(s, inputs)[j]) is Some,
    ensures
        action_stage(sync_actions(s, inputs)[i])->Some_0 <= action_stage(
            sync_actions(s, inputs)[j],
        )->Some_0,
        !(sync_actions(s, inputs)[i] is Finish),
        !(sync_actions(s, inputs)[i] is Fail),
    decreases inputs.len(),
{
    let earlier = inputs.drop_last();
    let before = sync_actions(s, earlier);
    if j < before.len() {
        assert(sync_actions(s, inputs)[i] == before[i]);
        assert(sync_actions(s, inputs)[j] == before[j]);
        lemma_actions_in_stage_order(s, earlier, i, j);
    } else {
        lemma_actions_below_stage(s, earlier);
        assert(sync_actions(s, inputs)[i] == before[i]);
        assert(action_stage(before[i]) is Some);
    }
}

/// Whether `input` brings no coin state from a puzzle subscription and does not load the run anew.
pub open spec fn brings_no_coins(input: SyncInput) -> bool {
    &&& !(input is Loaded)
    &&& input matches SyncInput::PuzzleStates { coin_states, .. } ==> coin_states@.len() == 0
}

/// The extension of the derivation chain ends with the first sweep that finds
/// nothing: from a state in which no extension is called for, a run whose
/// puzzle subscriptions bring no coin state never asks for another batch of
/// derivations, whatever else it is fed.
pub proof fn lemma_no_coins_no_extension(s: SyncState, inputs: Seq<SyncInput>)
    requires
        !s.derive_more,
        forall|k: int| 0 <= k < inputs.len() ==> brings_no_coins(#[trigger] inputs[k]),
    ensures
        !sync_state_after(s, inputs).derive_more,
        forall|i: int|
            0 <= i < sync_actions(s, inputs).len() ==> !((#[trigger] sync_actions(s, inputs)[i]) is Derive),
    decreases inputs.len(),
{
    if inputs.len() > 0 {
        let earlier = inputs.drop_last();
        assert forall|k: int| 0 <= k < earlier.len() implies brings_no_coins(#[trigger] earlier[k]) by {
            assert(earlier[k] == inputs[k]);
        }
        lemma_no_coins_no_extension(s, earlier);
        assert(brings_no_coins(inputs[inputs.len() - 1]));
        let before = sync_actions(s, earlier);
        let now = sync_actions(s, inputs);
        assert forall|i: int| 0 <= i < now.len() implies !((#[trigger] now[i]) is Derive) by {
            if i < before.len() {
                assert(now[i] == before[i]);
            }
        }
    }
}

/// One synchronization run.
pub struct WalletSync {
    phase: SyncPhase,
    genesis_challenge: [u8; 32],
    resume: ChainPoint,
    coin_ids: Vec<[u8; 32]>,
    puzzle_hashes: Vec<[u8; 32]>,
    sweep_start: ChainPoint,
    anchor: ChainPoint,
    derive_more: bool,
    next_index: u32,
}

impl View for WalletSync {
    type V = SyncState;

    closed spec fn view(&self) -> SyncState {
        SyncState {
            phase: self.phase,
            genesis_challenge: self.genesis_challenge,
            resume: self.resume,
            coin_ids: self.coin_ids@,
            puzzle_hashes: self.puzzle_hashes@,
            sweep_start: self.sweep_start,
            anchor: self.anchor,
            derive_more: self.derive_more,
            next_index: self.next_index,
        }
    }
}

/// Where a run resumes: at the persisted peak, or at the start of the chain where there is none.
pub fn resume_from(peak: Option<WalletPeak>, genesis_challenge: [u8; 32]) -> (point: ChainPoint)
    ensures
        point == resume_point(peak, genesis_challenge),
{
    match peak {
        Some(peak) => ChainPoint { height: Some(peak.height), header_hash: peak.header_hash },
        None => ChainPoint { height: None, header_hash: genesis_challenge },
    }
}

/// The puzzle hashes of a batch of derivations, in order.
pub fn collect_puzzle_hashes(derivations: &Vec<Derivation>) -> (hashes: Vec<[u8; 32]>)
    ensures
        hashes@ == puzzle_hashes_of(derivations@),
{
    let mut hashes: Vec<[u8; 32]> = Vec::new();
    let mut i: usize = 0;
    while i < derivations.len()
        invariant
            i <= derivations@.len(),
            hashes@ == puzzle_hashes_of(derivations@.take(i as int)),
        decreases derivations@.len() - i,
    {
        hashes.push(derivations[i].puzzle_hash);
        i += 1;
        assert(hashes@ =~= puzzle_hashes_of(derivations@.take(i as int)));
    }
    assert(derivations@.take(i as int) =~= derivations@);
    hashes
}

impl WalletSync {
    #[verifier::type_invariant]
    spec fn well_formed(self) -> bool {
        &&& self.phase matches SyncPhase::Pausing { pos } ==> pos <= self.coin_ids@.len()
        &&& self.phase matches SyncPhase::SubscribingCoins { pos } ==> pos <= self.coin_ids@.len()
        &&& self.phase matches SyncPhase::ApplyingCoins { pos } ==> pos <= self.coin_ids@.len()
        &&& self.phase matches SyncPhase::SubscribingPuzzles { pos } ==> pos
            <= self.puzzle_hashes@.len()
        &&& self.phase matches SyncPhase::ApplyingPuzzles { pos, .. } ==> pos
            <= self.puzzle_hashes@.len()
    }

    /// A run on the chain that starts at `genesis_challenge`; the caller
    /// reads the persisted state and reports it as `Loaded`.
    pub fn new(genesis_challenge: [u8; 32]) -> (run: Self)
        ensures
            run@ == (SyncState {
                phase: SyncPhase::Loading,
                genesis_challenge,
                resume: resume_point(None, genesis_challenge),
                coin_ids: Seq::empty(),
                puzzle_hashes: Seq::empty(),
                sweep_start: resume_point(None, genesis_challenge),
                anchor: resume_point(None, genesis_challenge),
                derive_more: false,
                next_index: 0,
            }),
    {
        let start = ChainPoint { height: None, header_hash: genesis_challenge };
        WalletSync {
            phase: SyncPhase::Loading,
            genesis_challenge,
            resume: start,
            coin_ids: Vec::new(),
            puzzle_hashes: Vec::new(),
            sweep_start: start,
            anchor: start,
            derive_more: false,
            next_index: 0,
        }
    }

    /// Where the run stands.
    pub fn phase(&self) -> (phase: SyncPhase)
        ensures
            phase == self@.phase,
    {
        self.phase
    }

    /// The index of the first derivation not yet made.
    pub fn next_index(&self) -> (index: u32)
        ensures
            index == self@.next_index,
    {
        self.next_index
    }

    fn ask_coins(&mut self, pos: usize) -> (action: SyncAction)
        requires
            pos <= old(self)@.coin_ids.len(),
        ensures
            (final(self)@, action@) == subscribe_coins(old(self)@, pos),
    {
        proof {
            use_type_invariant(&*self);
        }
        self.phase = SyncPhase::SubscribingCoins { pos };
        SyncAction::SubscribeCoins {
            coin_ids: copy_chunk(&self.coin_ids, pos, COIN_CHUNK),
            start_height: self.resume.height,
            start_header_hash: self.resume.header_hash,
            timeout_secs: COIN_TIMEOUT_SECS,
        }
    }

    fn goto_coins(&mut self, pos: usize) -> (action: SyncAction)
        requires
            pos <= old(self)@.coin_ids.len(),
        ensures
            (final(self)@, action@) == enter_coins(old(self)@, pos),
    {
        proof {
            use_type_invariant(&*self);
        }
        if pos >= self.coin_ids.len() {
            self.goto_batch(0)
        } else if pos != 0 {
            self.phase = SyncPhase::Pausing { pos };
            SyncAction::Sleep { millis: PAUSE_MILLIS }
        } else {
            self.ask_coins(pos)
        }
    }

    fn ask_page(&mut self, pos: usize) -> (action: SyncAction)
        requires
            pos <= old(self)@.puzzle_hashes.len(),
        ensures
            (final(self)@, action@) == request_page(old(self)@, pos),
    {
        proof {
            use_type_invariant(&*self);
        }
        self.phase = SyncPhase::SubscribingPuzzles { pos };
        SyncAction::SubscribePuzzles {
            puzzle_hashes: copy_chunk(&self.puzzle_hashes, pos, PUZZLE_CHUNK),
            start_height: self.anchor.height,
            start_header_hash: self.anchor.header_hash,
            filters: Filters {
                include_spent: true,
                include_unspent: true,
                include_hinted: true,
                min_amount: 0,
            },
            timeout_secs: PUZZLE_TIMEOUT_SECS,
        }
    }

    fn goto_batch(&mut self, pos: usize) -> (action: SyncAction)
        requires
            pos <= old(self)@.puzzle_hashes.len(),
        ensures
            (final(self)@, action@) == enter_batch(old(self)@, pos),
    {
        proof {
            use_type_invariant(&*self);
        }
        if pos >= self.puzzle_hashes.len() {
            self.finish_sweep()
        } else {
            self.anchor = self.sweep_start;
            self.ask_page(pos)
        }
    }

    fn goto_after_page(&mut self, pos: usize, is_finished: bool) -> (action: SyncAction)
        requires
            pos <= old(self)@.puzzle_hashes.len(),
        ensures
            (final(self)@, action@) == after_page(old(self)@, pos, is_finished),
    {
        if is_finished {
            let next = end_of_chunk(self.puzzle_hashes.len(), pos, PUZZLE_CHUNK);
            self.goto_batch(next)
        } else {
            self.ask_page(pos)
        }
    }

    fn finish_sweep(&mut self) -> (action: SyncAction)
        ensures
            (final(self)@, action@) == end_sweep(old(self)@),
    {
        proof {
            use_type_invariant(&*self);
        }
        if self.derive_more {
            if self.next_index > u32::MAX - DERIVATION_BATCH {
                self.phase = SyncPhase::Failed;
                SyncAction::Fail(WalletError::DerivationLimit)
            } else {
                self.phase = SyncPhase::Deriving;
                self.derive_more = false;
                SyncAction::Derive { start: self.next_index, count: DERIVATION_BATCH }
            }
        } else {
            self.phase = SyncPhase::ReadingPeak;
            SyncAction::ReadPeerPeak
        }
    }

    /// Takes what the caller reports and decides what it does next.
    ///
    /// The decision is [`sync_step`] of the run's state and the input. An
    /// input the run is not waiting for changes nothing and yields `None`.
    pub fn step(&mut self, input: SyncInput) -> (action: Option<SyncAction>)
        ensures
            match action {
                Some(a) => sync_step(old(self)@, input) == Some((final(self)@, a@)),
                None => sync_step(old(self)@, input) is None && final(self)@ == old(self)@,
            },
    {
        proof {
            use_type_invariant(&*self);
        }
        let phase = self.phase;
        match phase {
            SyncPhase::Done => {
                return None;
            },
            SyncPhase::Failed => {
                return None;
            },
            _ => {},
        }
        match (phase, input) {
            (_, SyncInput::Failed(error)) => {
                self.phase = SyncPhase::Failed;
                Some(SyncAction::Fail(error))
            },
            (
                SyncPhase::Loading,
                SyncInput::Loaded { puzzle_hashes, peak, nft_coin_ids, did_coin_ids, cat_coin_ids },
            ) => {
                if puzzle_hashes.len() > u32::MAX as usize {
                    self.phase = SyncPhase::Failed;
                    return Some(SyncAction::Fail(WalletError::DerivationLimit));
                }
                let resume = resume_from(peak, self.genesis_challenge);
                self.resume = resume;
                self.sweep_start = resume;
                self.anchor = resume;
                self.derive_more = puzzle_hashes.len() == 0;
                self.next_index = puzzle_hashes.len() as u32;
                let mut coin_ids = nft_coin_ids;
                let mut did_coin_ids = did_coin_ids;
                let mut cat_coin_ids = cat_coin_ids;
                coin_ids.append(&mut did_coin_ids);
                coin_ids.append(&mut cat_coin_ids);
                self.coin_ids = coin_ids;
                self.puzzle_hashes = puzzle_hashes;
                Some(self.goto_coins(0))
            },
            (SyncPhase::Pausing { pos }, SyncInput::Slept) => Some(self.ask_coins(pos)),
            (SyncPhase::SubscribingCoins { pos }, SyncInput::CoinStates(coin_states)) => {
                if coin_states.len() > 0 {
                    self.phase = SyncPhase::ApplyingCoins { pos };
                    Some(SyncAction::Apply { coin_states })
                } else {
                    let next = end_of_chunk(self.coin_ids.len(), pos, COIN_CHUNK);
                    Some(self.goto_coins(next))
                }
            },
            (SyncPhase::ApplyingCoins { pos }, SyncInput::Applied) => {
                let next = end_of_chunk(self.coin_ids.len(), pos, COIN_CHUNK);
                Some(self.goto_coins(next))
            },
            (
                SyncPhase::SubscribingPuzzles { pos },
                SyncInput::PuzzleStates { coin_states, height, header_hash, is_finished },
            ) => {
                self.anchor = ChainPoint { height: Some(height), header_hash };
                if coin_states.len() > 0 {
                    self.derive_more = true;
                    self.phase = SyncPhase::ApplyingPuzzles { pos, is_finished };
                    Some(SyncAction::Apply { coin_states })
                } else {
                    Some(self.goto_after_page(pos, is_finished))
                }
            },
            (SyncPhase::ApplyingPuzzles { pos, is_finished }, SyncInput::Applied) => Some(
                self.goto_after_page(pos, is_finished),
            ),
            (SyncPhase::Deriving, SyncInput::Derived(derivations)) => {
                if derivations.len() > (u32::MAX - self.next_index) as usize {
                    self.phase = SyncPhase::Failed;
                    return Some(SyncAction::Fail(WalletError::DerivationLimit));
                }
                let next_index = self.next_index + derivations.len() as u32;
                self.puzzle_hashes = collect_puzzle_hashes(&derivations);
                self.sweep_start = ChainPoint { height: None, header_hash: self.genesis_challenge };
                self.next_index = next_index;
                self.phase = SyncPhase::StoringDerivations;
                Some(SyncAction::StoreDerivations { derivations, next_index })
            },
            (SyncPhase::StoringDerivations, SyncInput::Stored) => Some(self.goto_batch(0)),
            (SyncPhase::ReadingPeak, SyncInput::PeerPeak(peak)) => match peak {
                Some(peak) => {
                    self.phase = SyncPhase::StoringPeak;
                    Some(SyncAction::StorePeak(peak))
                },
                None => {
                    self.phase = SyncPhase::Done;
                    Some(SyncAction::Finish)
                },
            },
            (SyncPhase::StoringPeak, SyncInput::Stored) => {
                self.phase = SyncPhase::Done;
                Some(SyncAction::Finish)
            },
            _ => None,
        }
    }
}

} // verus!
