use chia::bls::{master_to_wallet_unhardened_intermediate, SecretKey};
use sage_core::derivation::derive_batch;
use sage_core::incremental::{IncrementalSync, TxAction, TxEvent};
use sage_core::wallet::{Coin, CoinState, Derivation, Filters, SyncEvent, WalletError, WalletPeak};
use sage_core::wallet_sync::{
    resume_from, ChainPoint, SyncAction, SyncInput, SyncPhase, WalletSync, COIN_CHUNK, COIN_TIMEOUT_SECS,
    PAUSE_MILLIS, PUZZLE_CHUNK, PUZZLE_TIMEOUT_SECS,
};

const GENESIS: [u8; 32] = [0xcc; 32];

fn hash(n: usize) -> [u8; 32] {
    let mut bytes = [0u8; 32];
    bytes[..8].copy_from_slice(&(n as u64).to_be_bytes());
    bytes
}

fn hashes(count: usize) -> Vec<[u8; 32]> {
    (0..count).map(hash).collect()
}

fn found_coin(puzzle_hash: [u8; 32]) -> CoinState {
    CoinState {
        coin: Coin { parent_coin_info: [1; 32], puzzle_hash, amount: 1 },
        created_height: Some(5),
        spent_height: None,
    }
}

fn all_filters() -> Filters {
    Filters { include_spent: true, include_unspent: true, include_hinted: true, min_amount: 0 }
}

fn loaded(puzzle_hashes: usize, peak: Option<WalletPeak>, coin_ids: usize) -> SyncInput {
    let ids = hashes(coin_ids);
    let (nft, rest) = ids.split_at(coin_ids / 3);
    let (did, cat) = rest.split_at(rest.len() / 2);
    SyncInput::Loaded {
        puzzle_hashes: hashes(puzzle_hashes),
        peak,
        nft_coin_ids: nft.to_vec(),
        did_coin_ids: did.to_vec(),
        cat_coin_ids: cat.to_vec(),
    }
}

fn page(coin_states: Vec<CoinState>, height: u32, is_finished: bool) -> SyncInput {
    SyncInput::PuzzleStates { coin_states, height, header_hash: [height as u8; 32], is_finished }
}

fn puzzle_request(range: std::ops::Range<usize>, height: Option<u32>, header_hash: [u8; 32]) -> SyncAction {
    SyncAction::SubscribePuzzles {
        puzzle_hashes: range.map(hash).collect(),
        start_height: height,
        start_header_hash: header_hash,
        filters: all_filters(),
        timeout_secs: 45,
    }
}

#[test]
fn tunable_constants() {
    assert_eq!(COIN_CHUNK, 10_000);
    assert_eq!(PUZZLE_CHUNK, 500);
    assert_eq!(PAUSE_MILLIS, 500);
    assert_eq!(COIN_TIMEOUT_SECS, 10);
    assert_eq!(PUZZLE_TIMEOUT_SECS, 45);
}

#[test]
fn resume_point_is_the_peak_or_genesis() {
    assert_eq!(resume_from(None, GENESIS), ChainPoint { height: None, header_hash: GENESIS });
    assert_eq!(
        resume_from(Some(WalletPeak { height: 9, header_hash: [9; 32] }), GENESIS),
        ChainPoint { height: Some(9), header_hash: [9; 32] }
    );
}

#[test]
fn coin_ids_go_out_in_chunks_with_a_pause_between() {
    let peak = WalletPeak { height: 100, header_hash: [0xaa; 32] };
    let mut run = WalletSync::new(GENESIS);
    assert_eq!(run.phase(), SyncPhase::Loading);
    let subscribe = |range: std::ops::Range<usize>| SyncAction::SubscribeCoins {
        coin_ids: range.map(hash).collect(),
        start_height: Some(100),
        start_header_hash: [0xaa; 32],
        timeout_secs: 10,
    };
    assert_eq!(run.step(loaded(1, Some(peak), 25_000)), Some(subscribe(0..10_000)));
    assert_eq!(run.step(SyncInput::CoinStates(vec![])), Some(SyncAction::Sleep { millis: 500 }));
    assert_eq!(run.step(SyncInput::Slept), Some(subscribe(10_000..20_000)));
    let found = vec![found_coin(hash(3))];
    assert_eq!(
        run.step(SyncInput::CoinStates(found.clone())),
        Some(SyncAction::Apply { coin_states: found })
    );
    assert_eq!(run.step(SyncInput::Applied), Some(SyncAction::Sleep { millis: 500 }));
    assert_eq!(run.step(SyncInput::Slept), Some(subscribe(20_000..25_000)));
    // The coin ids are used up: the sweep of the persisted puzzle hashes begins at the peak.
    assert_eq!(run.step(SyncInput::CoinStates(vec![])), Some(puzzle_request(0..1, Some(100), [0xaa; 32])));
}

#[test]
fn exactly_one_chunk_of_coin_ids_needs_no_pause() {
    let mut run = WalletSync::new(GENESIS);
    let first = run.step(loaded(1, None, 10_000)).unwrap();
    assert!(matches!(&first, SyncAction::SubscribeCoins { coin_ids, start_height: None, start_header_hash: GENESIS, .. } if coin_ids.len() == 10_000));
    assert_eq!(run.step(SyncInput::CoinStates(vec![])), Some(puzzle_request(0..1, None, GENESIS)));
}

#[test]
fn puzzle_hashes_are_swept_in_batches_from_the_resume_point() {
    let peak = WalletPeak { height: 7, header_hash: [7; 32] };
    let mut run = WalletSync::new(GENESIS);
    assert_eq!(run.step(loaded(1200, Some(peak), 0)), Some(puzzle_request(0..500, Some(7), [7; 32])));
    assert_eq!(run.step(page(vec![], 30, true)), Some(puzzle_request(500..1000, Some(7), [7; 32])));
    assert_eq!(run.step(page(vec![], 31, true)), Some(puzzle_request(1000..1200, Some(7), [7; 32])));
    // No page carried a coin and the wallet had derivations: nothing is derived.
    assert_eq!(run.step(page(vec![], 32, true)), Some(SyncAction::ReadPeerPeak));
    assert_eq!(run.next_index(), 1200);
}

#[test]
fn paginated_puzzle_state_follows_the_cursor() {
    let mut run = WalletSync::new(GENESIS);
    assert_eq!(run.step(loaded(600, None, 0)), Some(puzzle_request(0..500, None, GENESIS)));
    assert_eq!(run.step(page(vec![], 10, false)), Some(puzzle_request(0..500, Some(10), [10; 32])));
    let found = vec![found_coin(hash(2))];
    assert_eq!(run.step(page(found.clone(), 20, false)), Some(SyncAction::Apply { coin_states: found }));
    assert_eq!(run.step(SyncInput::Applied), Some(puzzle_request(0..500, Some(20), [20; 32])));
    // Third call of the chunk; the page is the last, so the next chunk starts over at genesis.
    assert_eq!(run.step(page(vec![], 30, true)), Some(puzzle_request(500..600, None, GENESIS)));
    assert_eq!(run.step(page(vec![], 40, false)), Some(puzzle_request(500..600, Some(40), [40; 32])));
    assert_eq!(run.step(page(vec![], 50, false)), Some(puzzle_request(500..600, Some(50), [50; 32])));
    // A page of the first chunk carried a coin: the chain is extended from index 600.
    assert_eq!(run.step(page(vec![], 60, true)), Some(SyncAction::Derive { start: 600, count: 500 }));
}

#[test]
fn peak_of_the_peer_is_persisted_as_read() {
    let peak = WalletPeak { height: 4242, header_hash: [0x42; 32] };
    let mut run = WalletSync::new(GENESIS);
    run.step(loaded(1, None, 0)).unwrap();
    assert_eq!(run.step(page(vec![], 1, true)), Some(SyncAction::ReadPeerPeak));
    assert_eq!(run.step(SyncInput::PeerPeak(Some(peak))), Some(SyncAction::StorePeak(peak)));
    assert_eq!(run.phase(), SyncPhase::StoringPeak);
    assert_eq!(run.step(SyncInput::Stored), Some(SyncAction::Finish));
    assert_eq!(run.phase(), SyncPhase::Done);
    assert_eq!(run.step(SyncInput::Stored), None);
}

#[test]
fn without_a_recorded_peak_nothing_is_persisted() {
    let mut run = WalletSync::new(GENESIS);
    run.step(loaded(1, None, 0)).unwrap();
    run.step(page(vec![], 1, true)).unwrap();
    assert_eq!(run.step(SyncInput::PeerPeak(None)), Some(SyncAction::Finish));
    assert_eq!(run.phase(), SyncPhase::Done);
}

#[test]
fn a_failure_ends_the_run() {
    let mut run = WalletSync::new(GENESIS);
    run.step(loaded(1, None, 3)).unwrap();
    assert_eq!(run.step(SyncInput::Failed(WalletError::Timeout)), Some(SyncAction::Fail(WalletError::Timeout)));
    assert_eq!(run.phase(), SyncPhase::Failed);
    assert_eq!(run.step(SyncInput::CoinStates(vec![])), None);
    assert_eq!(run.step(SyncInput::Failed(WalletError::Database)), None);

    let mut run = WalletSync::new(GENESIS);
    assert_eq!(
        run.step(SyncInput::Failed(WalletError::Database)),
        Some(SyncAction::Fail(WalletError::Database))
    );
    let mut run = WalletSync::new(GENESIS);
    run.step(loaded(1, None, 0)).unwrap();
    assert_eq!(run.step(SyncInput::Failed(WalletError::Rejected)), Some(SyncAction::Fail(WalletError::Rejected)));
}

#[test]
fn inputs_out_of_turn_are_passed_over() {
    let mut run = WalletSync::new(GENESIS);
    for input in [SyncInput::Slept, SyncInput::Applied, SyncInput::Stored, SyncInput::PeerPeak(None), page(vec![], 1, true)] {
        assert_eq!(run.step(input), None);
    }
    assert_eq!(run.phase(), SyncPhase::Loading);
    run.step(loaded(1, None, 1)).unwrap();
    assert_eq!(run.step(loaded(1, None, 1)), None);
    assert_eq!(run.step(SyncInput::Slept), None);
    assert_eq!(run.phase(), SyncPhase::SubscribingCoins { pos: 0 });
}

#[test]
fn a_short_batch_of_derivations_advances_by_its_length() {
    let derivation = |index: u32| Derivation { index, synthetic_key: [1; 48], puzzle_hash: hash(index as usize), hardened: false };
    let mut run = WalletSync::new(GENESIS);
    assert_eq!(run.step(loaded(0, None, 0)), Some(SyncAction::Derive { start: 0, count: 500 }));
    let batch = vec![derivation(0), derivation(1), derivation(2)];
    assert_eq!(
        run.step(SyncInput::Derived(batch.clone())),
        Some(SyncAction::StoreDerivations { derivations: batch, next_index: 3 })
    );
    assert_eq!(run.next_index(), 3);
    assert_eq!(run.step(SyncInput::Stored), Some(puzzle_request(0..3, None, GENESIS)));
    assert_eq!(run.step(page(vec![], 8, true)), Some(SyncAction::ReadPeerPeak));
}

#[test]
fn an_empty_batch_of_derivations_ends_the_extension() {
    let mut run = WalletSync::new(GENESIS);
    run.step(loaded(0, None, 0)).unwrap();
    assert_eq!(
        run.step(SyncInput::Derived(vec![])),
        Some(SyncAction::StoreDerivations { derivations: vec![], next_index: 0 })
    );
    assert_eq!(run.step(SyncInput::Stored), Some(SyncAction::ReadPeerPeak));
}

/// A wallet database in memory.
struct Store {
    derivations: Vec<Derivation>,
    coins: Vec<CoinState>,
    peak: Option<WalletPeak>,
    events: Vec<SyncEvent>,
    intermediate: [u8; 48],
}

impl Store {
    fn max_used_index(&self) -> Option<u32> {
        self.derivations
            .iter()
            .filter(|d| self.coins.iter().any(|c| c.coin.puzzle_hash == d.puzzle_hash))
            .map(|d| d.index)
            .max()
    }

    fn insert(&mut self, batch: Vec<Derivation>) {
        for derivation in batch {
            if !self.derivations.iter().any(|d| d.index == derivation.index) {
                self.derivations.push(derivation);
            }
        }
    }

    fn apply(&mut self, coin_states: Vec<CoinState>) {
        let mut run = IncrementalSync::new(coin_states, true);
        let mut action = run.step(TxEvent::Begun).unwrap();
        loop {
            let event = match action {
                TxAction::UpsertCoin(state) => {
                    self.coins.push(state);
                    TxEvent::Written
                }
                TxAction::DeletePuzzle(_) => TxEvent::Written,
                TxAction::ReadDerivationIndex => TxEvent::DerivationIndex(self.derivations.len() as u32),
                TxAction::ReadMaxUsedIndex => TxEvent::MaxUsedIndex(self.max_used_index()),
                TxAction::InsertDerivations { start, end } => {
                    self.insert(derive_batch(&self.intermediate, start, end - start).unwrap());
                    TxEvent::Written
                }
                TxAction::Commit => TxEvent::Committed,
                TxAction::Report(event) => {
                    self.events.push(event);
                    TxEvent::Reported
                }
                TxAction::Finish => return,
                TxAction::Abort(error) => panic!("aborted with {error:?}"),
            };
            action = run.step(event).unwrap();
        }
    }
}

#[test]
fn derivation_extension_until_a_batch_finds_no_coin() {
    let master = SecretKey::from_seed(&[3u8; 32]);
    let intermediate = master_to_wallet_unhardened_intermediate(&master.public_key()).to_bytes();
    let funded = derive_batch(&intermediate, 37, 1).unwrap()[0].puzzle_hash;
    let peer_peak = WalletPeak { height: 900, header_hash: [0x90; 32] };
    let mut store = Store { derivations: vec![], coins: vec![], peak: None, events: vec![], intermediate };

    let mut run = WalletSync::new(GENESIS);
    let mut derive_rounds = 0;
    let mut puzzle_requests = Vec::new();
    let mut action = run
        .step(loaded(0, None, 0))
        .unwrap();
    loop {
        let input = match action {
            SyncAction::Derive { start, count } => {
                derive_rounds += 1;
                assert!(derive_rounds <= 2, "the extension did not stop");
                SyncInput::Derived(derive_batch(&intermediate, start, count).unwrap())
            }
            SyncAction::StoreDerivations { derivations, next_index } => {
                store.insert(derivations);
                store.events.push(SyncEvent::DerivationIndex { next_index });
                SyncInput::Stored
            }
            SyncAction::SubscribePuzzles { puzzle_hashes, start_height, start_header_hash, filters, timeout_secs } => {
                assert_eq!((start_height, start_header_hash), (None, GENESIS));
                assert_eq!((filters, timeout_secs), (all_filters(), 45));
                let coin_states: Vec<CoinState> =
                    puzzle_hashes.iter().filter(|hash| **hash == funded).map(|hash| found_coin(*hash)).collect();
                puzzle_requests.push(puzzle_hashes.len());
                SyncInput::PuzzleStates { coin_states, height: 900, header_hash: [0x90; 32], is_finished: true }
            }
            SyncAction::Apply { coin_states } => {
                store.apply(coin_states);
                SyncInput::Applied
            }
            SyncAction::ReadPeerPeak => SyncInput::PeerPeak(Some(peer_peak)),
            SyncAction::StorePeak(peak) => {
                store.peak = Some(peak);
                SyncInput::Stored
            }
            SyncAction::Finish => break,
            other => panic!("unexpected action {other:?}"),
        };
        action = run.step(input).unwrap();
    }

    assert_eq!(run.phase(), SyncPhase::Done);
    assert_eq!(derive_rounds, 2);
    assert_eq!(puzzle_requests, vec![500, 500]);
    assert_eq!(store.coins, vec![found_coin(funded)]);
    assert_eq!(store.peak, Some(peer_peak));
    assert_eq!(store.events[0], SyncEvent::DerivationIndex { next_index: 500 });
    assert!(store.events.contains(&SyncEvent::CoinsUpdated { coin_states: vec![found_coin(funded)] }));
    // Every derivation is unhardened and the chain is a gapless prefix that
    // reaches a full batch past the used index 37.
    assert_eq!(store.derivations.len() % 500, 0);
    assert_eq!(store.derivations.len(), 1000);
    let mut indices: Vec<u32> = store.derivations.iter().map(|d| d.index).collect();
    indices.sort_unstable();
    assert_eq!(indices, (0..1000).collect::<Vec<u32>>());
    assert!(store.derivations.iter().all(|d| !d.hardened));
    assert_eq!(store.max_used_index(), Some(37));
    assert_eq!(run.next_index(), 1000);
}

#[test]
fn asset_coin_ids_are_subscribed_nfts_first_then_dids_then_cats() {
    let mut run = WalletSync::new(GENESIS);
    let action = run.step(SyncInput::Loaded {
        puzzle_hashes: hashes(1),
        peak: None,
        nft_coin_ids: vec![hash(30), hash(31)],
        did_coin_ids: vec![hash(20)],
        cat_coin_ids: vec![hash(10), hash(11)],
    });
    assert_eq!(
        action,
        Some(SyncAction::SubscribeCoins {
            coin_ids: vec![hash(30), hash(31), hash(20), hash(10), hash(11)],
            start_height: None,
            start_header_hash: GENESIS,
            timeout_secs: 10,
        })
    );
}
