//! The chain tips that peers have reported.

use std::collections::HashMap;
use vstd::prelude::*;
use vstd::std_specs::hash::*;
use crate::wallet::WalletPeak;

verus! {

broadcast use group_hash_axioms;

/// The last peak each peer reported, by the peer's network address.
///
/// An address is the 128-bit form of the peer's IP address. A later report from
/// a peer replaces its earlier one; reports of different peers do not touch
/// each other.
pub struct PeerState {
    peaks: HashMap<u128, WalletPeak>,
}

impl View for PeerState {
    type V = Map<u128, WalletPeak>;

    closed spec fn view(&self) -> Map<u128, WalletPeak> {
        self.peaks@
    }
}

impl PeerState {
    /// No peer has reported a peak.
    pub fn new() -> (state: Self)
        ensures
            state@ == Map::<u128, WalletPeak>::empty(),
    {
        PeerState { peaks: HashMap::new() }
    }

    /// Records the peak that `peer` reports; it replaces what the peer reported before.
    pub fn update_peak(&mut self, peer: u128, peak: WalletPeak)
        ensures
            final(self)@ == old(self)@.insert(peer, peak),
    {
        self.peaks.insert(peer, peak);
    }

    /// The peak that `peer` last reported, if it has reported one.
    pub fn peak_of(&self, peer: u128) -> (peak: Option<WalletPeak>)
        ensures
            peak == if self@.contains_key(peer) {
                Some(self@[peer])
            } else {
                None
            },
    {
        match self.peaks.get(&peer) {
            Some(peak) => Some(*peak),
            None => None,
        }
    }

    /// Forgets `peer`.
    pub fn remove_peer(&mut self, peer: u128)
        ensures
            final(self)@ == old(self)@.remove(peer),
    {
        self.peaks.remove(&peer);
    }
}

/// The last writer wins: after two reports of one peer, the later one is read back.
pub proof fn lemma_last_report_wins(reports: Map<u128, WalletPeak>, peer: u128, first: WalletPeak, second: WalletPeak)
    ensures
        reports.insert(peer, first).insert(peer, second)[peer] == second,
        reports.insert(peer, first).insert(peer, second) == reports.insert(peer, second),
{
    assert(reports.insert(peer, first).insert(peer, second) =~= reports.insert(peer, second));
}

/// Peers are independent: a report of one peer leaves what another reported as it was.
pub proof fn lemma_reports_are_independent(reports: Map<u128, WalletPeak>, peer: u128, other: u128, peak: WalletPeak)
    requires
        peer != other,
    ensures
        reports.insert(peer, peak).contains_key(other) == reports.contains_key(other),
        reports.contains_key(other) ==> reports.insert(peer, peak)[other] == reports[other],
{
}

} // verus!
