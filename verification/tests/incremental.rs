use sage_core::incremental::{IncrementalSync, TxAction, TxEvent, TxPhase};
use sage_core::wallet::{Coin, CoinState, SyncEvent, WalletError};

fn coin_state(tag: u8, spent: Option<u32>) -> CoinState {
    CoinState {
        coin: Coin { parent_coin_info: [tag; 32], puzzle_hash: [tag.wrapping_add(1); 32], amount: 1000 + u64::from(tag) },
        created_height: Some(10),
        spent_height: spent,
    }
}

fn chia_coin_id(state: &CoinState) -> [u8; 32] {
    chia::protocol::Coin::new(
        state.coin.parent_coin_info.into(),
        state.coin.puzzle_hash.into(),
        state.coin.amount,
    )
    .coin_id()
    .into()
}

/// Feeds `Written` until the run asks for something other than a write.
fn write_all(run: &mut IncrementalSync, first: TxAction) -> (Vec<TxAction>, TxAction) {
    let mut writes = Vec::new();
    let mut action = first;
    loop {
        match action {
            TxAction::UpsertCoin(_) | TxAction::DeletePuzzle(_) | TxAction::InsertDerivations { .. } => {
                writes.push(action);
                action = run.step(TxEvent::Written).unwrap();
            }
            other => return (writes, other),
        }
    }
}

#[test]
fn upserts_every_coin_and_deletes_the_puzzle_of_each_spent_one() {
    let states = vec![coin_state(1, None), coin_state(2, Some(55)), coin_state(3, None), coin_state(4, Some(56))];
    let mut run = IncrementalSync::new(states.clone(), false);
    assert_eq!(run.phase(), TxPhase::Idle);
    let first = run.step(TxEvent::Begun).unwrap();
    let (writes, next) = write_all(&mut run, first);
    assert_eq!(
        writes,
        vec![
            TxAction::UpsertCoin(states[0]),
            TxAction::UpsertCoin(states[1]),
            TxAction::DeletePuzzle(chia_coin_id(&states[1])),
            TxAction::UpsertCoin(states[2]),
            TxAction::UpsertCoin(states[3]),
            TxAction::DeletePuzzle(chia_coin_id(&states[3])),
        ]
    );
    assert_eq!(next, TxAction::ReadDerivationIndex);
}

#[test]
fn coin_id_depends_on_every_field() {
    let base = coin_state(9, Some(1));
    let id = |state: CoinState| {
        let mut run = IncrementalSync::new(vec![state], false);
        run.step(TxEvent::Begun).unwrap();
        match run.step(TxEvent::Written).unwrap() {
            TxAction::DeletePuzzle(id) => id,
            other => panic!("expected a delete, got {other:?}"),
        }
    };
    let mut other_parent = base;
    other_parent.coin.parent_coin_info[0] ^= 1;
    let mut other_puzzle = base;
    other_puzzle.coin.puzzle_hash[31] ^= 1;
    let mut other_amount = base;
    other_amount.coin.amount += 1;
    assert_eq!(id(base), chia_coin_id(&base));
    assert_ne!(id(base), base.coin.parent_coin_info);
    assert_ne!(id(base), id(other_parent));
    assert_ne!(id(base), id(other_puzzle));
    assert_ne!(id(base), id(other_amount));
}

#[test]
fn without_automatic_derivation_the_run_commits_after_the_index() {
    let mut run = IncrementalSync::new(vec![coin_state(1, None)], false);
    assert_eq!(run.step(TxEvent::Begun), Some(TxAction::UpsertCoin(coin_state(1, None))));
    assert_eq!(run.step(TxEvent::Written), Some(TxAction::ReadDerivationIndex));
    assert_eq!(run.step(TxEvent::DerivationIndex(0)), Some(TxAction::Commit));
    assert_eq!(
        run.step(TxEvent::Committed),
        Some(TxAction::Report(SyncEvent::CoinsUpdated { coin_states: vec![coin_state(1, None)] }))
    );
    assert_eq!(run.step(TxEvent::Reported), Some(TxAction::Finish));
    assert_eq!(run.phase(), TxPhase::Finished);
    assert_eq!(run.step(TxEvent::Reported), None);
}

/// Runs the top-up from `next_index` with `max_used` and returns the ranges inserted and the index reported.
fn top_up(next_index: u32, max_used: Option<u32>) -> (Vec<(u32, u32)>, Option<u32>) {
    let mut run = IncrementalSync::new(vec![], true);
    assert_eq!(run.step(TxEvent::Begun), Some(TxAction::ReadDerivationIndex));
    assert_eq!(run.step(TxEvent::DerivationIndex(next_index)), Some(TxAction::ReadMaxUsedIndex));
    let first = run.step(TxEvent::MaxUsedIndex(max_used)).unwrap();
    let (writes, next) = write_all(&mut run, first);
    assert_eq!(next, TxAction::Commit);
    let ranges = writes
        .into_iter()
        .map(|write| match write {
            TxAction::InsertDerivations { start, end } => (start, end),
            other => panic!("unexpected write {other:?}"),
        })
        .collect();
    assert_eq!(
        run.step(TxEvent::Committed),
        Some(TxAction::Report(SyncEvent::CoinsUpdated { coin_states: vec![] }))
    );
    let reported = match run.step(TxEvent::Reported).unwrap() {
        TxAction::Report(SyncEvent::DerivationIndex { next_index }) => {
            assert_eq!(run.step(TxEvent::Reported), Some(TxAction::Finish));
            Some(next_index)
        }
        TxAction::Finish => None,
        other => panic!("unexpected action {other:?}"),
    };
    (ranges, reported)
}

#[test]
fn top_up_keeps_a_full_batch_past_the_highest_used_index() {
    assert_eq!(top_up(0, None), (vec![(0, 500)], Some(500)));
    assert_eq!(top_up(500, None), (vec![], None));
    assert_eq!(top_up(0, Some(0)), (vec![(0, 500), (500, 1000)], Some(1000)));
    assert_eq!(top_up(500, Some(37)), (vec![(500, 1000)], Some(1000)));
    assert_eq!(top_up(1000, Some(37)), (vec![], None));
    assert_eq!(top_up(1000, Some(499)), (vec![], None));
    assert_eq!(top_up(1000, Some(500)), (vec![(1000, 1500)], Some(1500)));
    assert_eq!(top_up(538, Some(37)), (vec![], None));
    assert_eq!(top_up(537, Some(37)), (vec![(537, 1037)], Some(1037)));
    assert_eq!(
        top_up(500, Some(1600)),
        (vec![(500, 1000), (1000, 1500), (1500, 2000), (2000, 2500)], Some(2500))
    );
}

#[test]
fn top_up_that_would_pass_the_last_index_aborts() {
    let mut run = IncrementalSync::new(vec![], true);
    run.step(TxEvent::Begun).unwrap();
    run.step(TxEvent::DerivationIndex(u32::MAX - 499)).unwrap();
    assert_eq!(
        run.step(TxEvent::MaxUsedIndex(Some(u32::MAX))),
        Some(TxAction::Abort(WalletError::DerivationLimit))
    );
    assert_eq!(run.phase(), TxPhase::Aborted);

    let mut run = IncrementalSync::new(vec![], true);
    run.step(TxEvent::Begun).unwrap();
    run.step(TxEvent::DerivationIndex(u32::MAX - 500)).unwrap();
    assert_eq!(
        run.step(TxEvent::MaxUsedIndex(Some(u32::MAX))),
        Some(TxAction::InsertDerivations { start: u32::MAX - 500, end: u32::MAX })
    );
    assert_eq!(run.step(TxEvent::Written), Some(TxAction::Abort(WalletError::DerivationLimit)));
}

#[test]
fn a_failed_upsert_aborts_without_commit_or_report() {
    let states = vec![coin_state(1, None), coin_state(2, None)];
    let mut run = IncrementalSync::new(states, true);
    run.step(TxEvent::Begun).unwrap();
    run.step(TxEvent::Written).unwrap();
    assert_eq!(run.step(TxEvent::Failed(WalletError::Database)), Some(TxAction::Abort(WalletError::Database)));
    assert_eq!(run.phase(), TxPhase::Aborted);
    for event in [TxEvent::Written, TxEvent::Committed, TxEvent::Reported, TxEvent::Begun] {
        assert_eq!(run.step(event), None);
    }
    assert_eq!(run.phase(), TxPhase::Aborted);
}

#[test]
fn a_failure_at_any_point_before_the_commit_aborts() {
    let script = [
        TxEvent::Begun,
        TxEvent::Written,
        TxEvent::Written,
        TxEvent::DerivationIndex(0),
        TxEvent::MaxUsedIndex(None),
        TxEvent::Written,
    ];
    for fail_at in 0..=script.len() {
        let mut run = IncrementalSync::new(vec![coin_state(1, Some(3))], true);
        let mut actions = Vec::new();
        for event in script.iter().take(fail_at) {
            actions.push(run.step(event.clone()).unwrap());
        }
        assert_eq!(run.step(TxEvent::Failed(WalletError::Timeout)), Some(TxAction::Abort(WalletError::Timeout)));
        assert!(actions.iter().all(|action| !matches!(action, TxAction::Report(_))));
        assert_eq!(actions.iter().filter(|action| matches!(action, TxAction::Commit)).count(), usize::from(fail_at == script.len()));
        assert_eq!(run.step(TxEvent::Committed), None);
    }
}

#[test]
fn a_failure_after_the_commit_changes_nothing() {
    let mut run = IncrementalSync::new(vec![], false);
    run.step(TxEvent::Begun).unwrap();
    run.step(TxEvent::DerivationIndex(3)).unwrap();
    assert!(matches!(run.step(TxEvent::Committed), Some(TxAction::Report(_))));
    assert_eq!(run.step(TxEvent::Failed(WalletError::Database)), None);
    assert_eq!(run.phase(), TxPhase::ReportingCoins);
    assert_eq!(run.step(TxEvent::Reported), Some(TxAction::Finish));
}

#[test]
fn events_out_of_turn_are_passed_over() {
    let mut run = IncrementalSync::new(vec![coin_state(1, None)], true);
    assert_eq!(run.step(TxEvent::Written), None);
    assert_eq!(run.step(TxEvent::Committed), None);
    assert_eq!(run.step(TxEvent::DerivationIndex(1)), None);
    assert_eq!(run.phase(), TxPhase::Idle);
    assert_eq!(run.step(TxEvent::Begun), Some(TxAction::UpsertCoin(coin_state(1, None))));
    assert_eq!(run.step(TxEvent::Begun), None);
    assert_eq!(run.step(TxEvent::MaxUsedIndex(None)), None);
    assert_eq!(run.phase(), TxPhase::Upserting { at: 0 });
}
