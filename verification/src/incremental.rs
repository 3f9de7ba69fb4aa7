//! Applying a batch of coin states in one database transaction.
//!
//! [`IncrementalSync`] decides, event by event, what the caller does next to
//! persist a batch: upsert each coin, delete the puzzle record of each spent
//! coin, top the derivation chain up, commit, and only then report progress.
//! A failure before the commit has gone through ends the run with nothing
//! committed and nothing reported.

use vstd::prelude::*;
use crate::chunks::copy_range;
use crate::primitives::{coin_id, coin_id_digest};
use crate::wallet::{CoinState, SyncEvent, SyncEventView, WalletError, DERIVATION_BATCH};

verus! {

/// Where a run stands: what it has asked for and is waiting to hear of.
#[derive(Debug, Clone, Copy, PartialEq, Eq)]
pub enum TxPhase {
    /// The caller is to open a transaction.
    Idle,
    /// The upsert of coin state `at` is under way.
    Upserting { at: usize },
    /// The puzzle record of coin state `at`, which is spent, is being deleted.
    Deleting { at: usize },
    /// The current derivation index is being read.
    ReadingIndex,
    /// The highest used derivation index is being read.
    ReadingMaxUsed,
    /// The batch of derivations from the current index up to `end` is being inserted.
    Inserting { end: u32 },
    /// The commit is under way.
    Committing,
    /// The committed coin states are being reported.
    ReportingCoins,
    /// The new derivation index is being reported.
    ReportingIndex,
    /// The run is over and its changes are committed.
    Finished,
    /// The run is over and has committed nothing.
    Aborted,
}

/// What the caller reports back.
#[derive(Debug, Clone, PartialEq, Eq)]
pub enum TxEvent {
    /// The transaction is open.
    Begun,
    /// The last write went through.
    Written,
    /// The index of the first derivation not yet persisted.
    DerivationIndex(u32),
    /// The highest index of a derivation that a coin uses, if any is used.
    MaxUsedIndex(Option<u32>),
    /// The transaction is committed.
    Committed,
    /// The progress event was handed to its channel, which may have dropped it.
    Reported,
    /// The last operation failed.
    Failed(WalletError),
}

/// What the caller is to do next.
#[derive(Debug, Clone, PartialEq, Eq)]
pub enum TxAction {
    /// Insert or update the row of this coin.
    UpsertCoin(CoinState),
    /// Delete the puzzle record of the coin with this id.
    DeletePuzzle([u8; 32]),
    /// Read the index of the first derivation not yet persisted.
    ReadDerivationIndex,
    /// Read the highest used derivation index.
    ReadMaxUsedIndex,
    /// Derive and insert the unhardened derivations at `start..end`.
    InsertDerivations { start: u32, end: u32 },
    /// Commit the transaction.
    Commit,
    /// Send this progress event; whether it arrives does not matter.
    Report(SyncEvent),
    /// Nothing more: the batch is persisted.
    Finish,
    /// Roll the transaction back and give this error to the caller.
    Abort(WalletError),
}

/// The mathematical value of a [`TxAction`].
pub ghost enum TxActionView {
    UpsertCoin(CoinState),
    DeletePuzzle(Seq<u8>),
    ReadDerivationIndex,
    ReadMaxUsedIndex,
    InsertDerivations { start: u32, end: u32 },
    Commit,
    Report(SyncEventView),
    Finish,
    Abort(WalletError),
}

impl View for TxAction {
    type V = TxActionView;

    open spec fn view(&self) -> TxActionView {
        match *self {
            TxAction::UpsertCoin(coin_state) => TxActionView::UpsertCoin(coin_state),
            TxAction::DeletePuzzle(id) => TxActionView::DeletePuzzle(id@),
            TxAction::ReadDerivationIndex => TxActionView::ReadDerivationIndex,
            TxAction::ReadMaxUsedIndex => TxActionView::ReadMaxUsedIndex,
            TxAction::InsertDerivations { start, end } => TxActionView::InsertDerivations {
                start,
                end,
            },
            TxAction::Commit => TxActionView::Commit,
            TxAction::Report(event) => TxActionView::Report(event@),
            TxAction::Finish => TxActionView::Finish,
            TxAction::Abort(error) => TxActionView::Abort(error),
        }
    }
}

/// One run of the incremental sync over a batch of coin states.
pub struct IncrementalSync {
    coin_states: Vec<CoinState>,
    derive_automatically: bool,
    phase: TxPhase,
    next_index: u32,
    target: u64,
    derived: bool,
}

/// The mathematical value of an [`IncrementalSync`].
pub ghost struct TxState {
    /// The batch to persist.
    pub coin_states: Seq<CoinState>,
    /// Whether the run keeps the derivation chain ahead of the used indices.
    pub derive_automatically: bool,
    pub phase: TxPhase,
    /// The index of the first derivation not persisted, once it has been read.
    pub next_index: u32,
    /// The index the chain is to reach, once the highest used index has been read.
    pub target: int,
    /// Whether the run has inserted derivations.
    pub derived: bool,
}

impl View for IncrementalSync {
    type V = TxState;

    closed spec fn view(&self) -> TxState {
        TxState {
            coin_states: self.coin_states@,
            derive_automatically: self.derive_automatically,
            phase: self.phase,
            next_index: self.next_index,
            target: self.target as int,
            derived: self.derived,
        }
    }
}

/// The index the derivation chain is topped up to: a full batch past the
/// highest used index, or one batch where no index is used.
pub open spec fn top_up_target(max_used: Option<u32>) -> int {
    match max_used {
        Some(index) => index + 1 + DERIVATION_BATCH,
        None => DERIVATION_BATCH as int,
    }
}

/// The id of the coin that `coin_state` speaks of.
pub open spec fn coin_id_of(coin_state: CoinState) -> Seq<u8> {
    coin_id_digest(
        coin_state.coin.parent_coin_info@,
        coin_state.coin.puzzle_hash@,
        coin_state.coin.amount,
    )
}

/// Moves on to coin state `at`, or to the derivation index once every coin state is written.
pub open spec fn next_coin(s: TxState, at: int) -> (TxState, TxActionView) {
    if 0 <= at < s.coin_states.len() {
        (
            TxState { phase: TxPhase::Upserting { at: at as usize }, ..s },
            TxActionView::UpsertCoin(s.coin_states[at]),
        )
    } else {
        (TxState { phase: TxPhase::ReadingIndex, ..s }, TxActionView::ReadDerivationIndex)
    }
}

/// Inserts one more batch while the chain is short of its target, then commits.
pub open spec fn top_up(s: TxState) -> (TxState, TxActionView) {
    if s.next_index < s.target {
        if s.next_index + DERIVATION_BATCH > u32::MAX {
            (
                TxState { phase: TxPhase::Aborted, ..s },
                TxActionView::Abort(WalletError::DerivationLimit),
            )
        } else {
            (
                TxState {
                    phase: TxPhase::Inserting { end: (s.next_index + DERIVATION_BATCH) as u32 },
                    ..s
                },
                TxActionView::InsertDerivations {
                    start: s.next_index,
                    end: (s.next_index + DERIVATION_BATCH) as u32,
                },
            )
        }
    } else {
        (TxState { phase: TxPhase::Committing, ..s }, TxActionView::Commit)
    }
}

/// Whether the run is over.
pub open spec fn is_over(phase: TxPhase) -> bool {
    phase is Finished || phase is Aborted
}

/// Whether the transaction is committed; from then on the run only reports.
pub open spec fn is_committed(phase: TxPhase) -> bool {
    phase is ReportingCoins || phase is ReportingIndex || phase is Finished
}

/// The next state and action; `None` where `event` is not one the run is waiting for.
pub open spec fn tx_step(s: TxState, event: TxEvent) -> Option<(TxState, TxActionView)> {
    if is_over(s.phase) {
        None
    } else if event is Failed {
        if is_committed(s.phase) {
            None
        } else {
            Some((TxState { phase: TxPhase::Aborted, ..s }, TxActionView::Abort(event->Failed_0)))
        }
    } else {
        match (s.phase, event) {
            (TxPhase::Idle, TxEvent::Begun) => Some(next_coin(s, 0)),
            (TxPhase::Upserting { at }, TxEvent::Written) => if s.coin_states[at as int].spec_is_spent() {
                Some(
                    (
                        TxState { phase: TxPhase::Deleting { at }, ..s },
                        TxActionView::DeletePuzzle(coin_id_of(s.coin_states[at as int])),
                    ),
                )
            } else {
                Some(next_coin(s, at + 1))
            },
            (TxPhase::Deleting { at }, TxEvent::Written) => Some(next_coin(s, at + 1)),
            (TxPhase::ReadingIndex, TxEvent::DerivationIndex(index)) => if s.derive_automatically {
                Some(
                    (
                        TxState { phase: TxPhase::ReadingMaxUsed, next_index: index, ..s },
                        TxActionView::ReadMaxUsedIndex,
                    ),
                )
            } else {
                Some(
                    (
                        TxState { phase: TxPhase::Committing, next_index: index, ..s },
                        TxActionView::Commit,
                    ),
                )
            },
            (TxPhase::ReadingMaxUsed, TxEvent::MaxUsedIndex(max_used)) => Some(
                top_up(TxState { target: top_up_target(max_used), ..s }),
            ),
            (TxPhase::Inserting { end }, TxEvent::Written) => Some(
                top_up(TxState { derived: true, next_index: end, ..s }),
            ),
            (TxPhase::Committing, TxEvent::Committed) => Some(
                (
                    TxState { phase: TxPhase::ReportingCoins, ..s },
                    TxActionView::Report(
                        SyncEventView::CoinsUpdated { coin_states: s.coin_states },
                    ),
                ),
            ),
            (TxPhase::ReportingCoins, TxEvent::Reported) => if s.derived {
                Some(
                    (
                        TxState { phase: TxPhase::ReportingIndex, ..s },
                        TxActionView::Report(
                            SyncEventView::DerivationIndex { next_index: s.next_index },
                        ),
                    ),
                )
            } else {
                Some((TxState { phase: TxPhase::Finished, ..s }, TxActionView::Finish))
            },
            (TxPhase::ReportingIndex, TxEvent::Reported) => Some(
                (TxState { phase: TxPhase::Finished, ..s }, TxActionView::Finish),
            ),
            _ => None,
        }
    }
}

/// The actions issued while `events` are fed, in order, to a run in state `s`;
/// events the run is not waiting for are passed over.
pub open spec fn tx_actions(s: TxState, events: Seq<TxEvent>) -> Seq<TxActionView>
    decreases events.len(),
{
    if events.len() == 0 {
        Seq::empty()
    } else {
        let before = tx_actions(s, events.drop_last());
        match tx_step(tx_state_after(s, events.drop_last()), events.last()) {
            Some((_, action)) => before.push(action),
            None => before,
        }
    }
}

/// The state of a run that started in `s` once `events` have been fed to it.
pub open spec fn tx_state_after(s: TxState, events: Seq<TxEvent>) -> TxState
    decreases events.len(),
{
    if events.len() == 0 {
        s
    } else {
        let before = tx_state_after(s, events.drop_last());
        match tx_step(before, events.last()) {
            Some((after, _)) => after,
            None => before,
        }
    }
}

/// A failure reported before the commit has gone through aborts the run with that error.
pub proof fn lemma_failure_aborts(s: TxState, error: WalletError)
    requires
        !is_over(s.phase),
        !is_committed(s.phase),
    ensures
        tx_step(s, TxEvent::Failed(error)) == Some(
            (TxState { phase: TxPhase::Aborted, ..s }, TxActionView::Abort(error)),
        ),
{
}

/// A commit is only ever asked for in answer to a success, and progress is
/// only ever reported once the commit has gone through.
pub proof fn lemma_commit_follows_success(s: TxState, event: TxEvent)
    requires
        tx_step(s, event) is Some,
    ensures
        tx_step(s, event)->Some_0.1 is Commit ==> !(event is Failed) && !is_committed(s.phase),
        tx_step(s, event)->Some_0.1 is Report ==> (s.phase is Committing && event is Committed)
            || (s.phase is ReportingCoins && event is Reported),
        tx_step(s, event)->Some_0.1 is Abort ==> !is_committed(s.phase),
{
}

proof fn lemma_run_invariant(s: TxState, events: Seq<TxEvent>)
    ensures
        forall|i: int|
            0 <= i < tx_actions(s, events).len() && (#[trigger] tx_actions(s, events)[i]) is Abort
                ==> tx_state_after(s, events).phase is Aborted,
        forall|j: int|
            0 <= j < tx_actions(s, events).len() && (#[trigger] tx_actions(s, events)[j]) is Report
                ==> is_committed(tx_state_after(s, events).phase),
    decreases events.len(),
{
    if events.len() > 0 {
        lemma_run_invariant(s, events.drop_last());
        let before = tx_actions(s, events.drop_last());
        let state = tx_state_after(s, events.drop_last());
        let now = tx_actions(s, events);
        assert forall|i: int| 0 <= i < now.len() && (#[trigger] now[i]) is Abort implies tx_state_after(
            s,
            events,
        ).phase is Aborted by {
            if i < before.len() {
                assert(before[i] is Abort);
            }
        }
        assert forall|j: int| 0 <= j < now.len() && (#[trigger] now[j]) is Report implies is_committed(
            tx_state_after(s, events).phase,
        ) by {
            if j < before.len() {
                assert(before[j] is Report);
            }
        }
    }
}

/// A run is atomic towards its watchers: whatever events it is fed, it never
/// both aborts and reports progress. A run that aborts has reported nothing
/// and asks for nothing more, a commit least of all; a run that has reported
/// anything has committed and can no longer abort.
pub proof fn lemma_abort_excludes_report(s: TxState, events: Seq<TxEvent>, i: int, j: int)
    requires
        0 <= i < tx_actions(s, events).len(),
        0 <= j < tx_actions(s, events).len(),
        tx_actions(s, events)[i] is Abort,
    ensures
        !(tx_actions(s, events)[j] is Report),
        tx_state_after(s, events).phase is Aborted,
        forall|event: TxEvent| tx_step(tx_state_after(s, events), event) is None,
{
    lemma_run_invariant(s, events);
}

impl IncrementalSync {
    #[verifier::type_invariant]
    spec fn well_formed(self) -> bool {
        &&& self.phase matches TxPhase::Upserting { at } ==> at < self.coin_states@.len()
        &&& self.phase matches TxPhase::Deleting { at } ==> at < self.coin_states@.len()
    }

    /// A run that is to persist `coin_states`; the caller opens a transaction and reports `Begun`.
    pub fn new(coin_states: Vec<CoinState>, derive_automatically: bool) -> (run: Self)
        ensures
            run@ == (TxState {
                coin_states: coin_states@,
                derive_automatically,
                phase: TxPhase::Idle,
                next_index: 0,
                target: 0,
                derived: false,
            }),
    {
        IncrementalSync {
            coin_states,
            derive_automatically,
            phase: TxPhase::Idle,
            next_index: 0,
            target: 0,
            derived: false,
        }
    }

    /// Where the run stands.
    pub fn phase(&self) -> (phase: TxPhase)
        ensures
            phase == self@.phase,
    {
        self.phase
    }

    fn goto_coin(&mut self, at: usize) -> (action: TxAction)
        ensures
            (final(self)@, action@) == next_coin(old(self)@, at as int),
    {
        if at < self.coin_states.len() {
            self.phase = TxPhase::Upserting { at };
            TxAction::UpsertCoin(self.coin_states[at])
        } else {
            self.phase = TxPhase::ReadingIndex;
            TxAction::ReadDerivationIndex
        }
    }

    fn goto_top_up(&mut self) -> (action: TxAction)
        ensures
            (final(self)@, action@) == top_up(old(self)@),
    {
        if (self.next_index as u64) < self.target {
            if self.next_index > u32::MAX - DERIVATION_BATCH {
                self.phase = TxPhase::Aborted;
                TxAction::Abort(WalletError::DerivationLimit)
            } else {
                let end = self.next_index + DERIVATION_BATCH;
                self.phase = TxPhase::Inserting { end };
                TxAction::InsertDerivations { start: self.next_index, end }
            }
        } else {
            self.phase = TxPhase::Committing;
            TxAction::Commit
        }
    }

    /// Takes what the caller reports and decides what it does next.
    ///
    /// The decision is [`tx_step`] of the run's state and the event. An event
    /// the run is not waiting for changes nothing and yields `None`.
    pub fn step(&mut self, event: TxEvent) -> (action: Option<TxAction>)
        ensures
            match action {
                Some(a) => tx_step(old(self)@, event) == Some((final(self)@, a@)),
                None => tx_step(old(self)@, event) is None && final(self)@ == old(self)@,
            },
    {
        proof {
            use_type_invariant(&*self);
            assert(self.coin_states@.len() == self.coin_states.len());
        }
        let phase = self.phase;
        match phase {
            TxPhase::Finished => {
                return None;
            },
            TxPhase::Aborted => {
                return None;
            },
            _ => {},
        }
        match (phase, event) {
            (TxPhase::ReportingCoins, TxEvent::Failed(_)) => None,
            (TxPhase::ReportingIndex, TxEvent::Failed(_)) => None,
            (_, TxEvent::Failed(error)) => {
                self.phase = TxPhase::Aborted;
                Some(TxAction::Abort(error))
            },
            (TxPhase::Idle, TxEvent::Begun) => Some(self.goto_coin(0)),
            (TxPhase::Upserting { at }, TxEvent::Written) => {
                let coin_state = self.coin_states[at];
                if coin_state.is_spent() {
                    self.phase = TxPhase::Deleting { at };
                    Some(TxAction::DeletePuzzle(coin_id(&coin_state.coin)))
                } else {
                    Some(self.goto_coin(at + 1))
                }
            },
            (TxPhase::Deleting { at }, TxEvent::Written) => Some(self.goto_coin(at + 1)),
            (TxPhase::ReadingIndex, TxEvent::DerivationIndex(index)) => {
                self.next_index = index;
                if self.derive_automatically {
                    self.phase = TxPhase::ReadingMaxUsed;
                    Some(TxAction::ReadMaxUsedIndex)
                } else {
                    self.phase = TxPhase::Committing;
                    Some(TxAction::Commit)
                }
            },
            (TxPhase::ReadingMaxUsed, TxEvent::MaxUsedIndex(max_used)) => {
                self.target = match max_used {
                    Some(index) => index as u64 + 1 + DERIVATION_BATCH as u64,
                    None => DERIVATION_BATCH as u64,
                };
                Some(self.goto_top_up())
            },
            (TxPhase::Inserting { end }, TxEvent::Written) => {
                self.derived = true;
                self.next_index = end;
                Some(self.goto_top_up())
            },
            (TxPhase::Committing, TxEvent::Committed) => {
                self.phase = TxPhase::ReportingCoins;
                let coin_states = copy_range(&self.coin_states, 0, self.coin_states.len());
                assert(coin_states@ =~= self.coin_states@);
                Some(TxAction::Report(SyncEvent::CoinsUpdated { coin_states }))
            },
            (TxPhase::ReportingCoins, TxEvent::Reported) => {
                if self.derived {
                    self.phase = TxPhase::ReportingIndex;
                    Some(TxAction::Report(SyncEvent::DerivationIndex { next_index: self.next_index }))
                } else {
                    self.phase = TxPhase::Finished;
                    Some(TxAction::Finish)
                }
            },
            (TxPhase::ReportingIndex, TxEvent::Reported) => {
                self.phase = TxPhase::Finished;
                Some(TxAction::Finish)
            },
            _ => None,
        }
    }
}

} // verus!
