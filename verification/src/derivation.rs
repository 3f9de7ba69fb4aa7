//! Extension of the unhardened derivation chain.
//!
//! The derivation at an index is a function of the wallet's intermediate
//! public key and the index: the unhardened child at that index, made
//! synthetic, and the tree hash of the standard puzzle for that synthetic key.

use rayon::iter::{IntoParallelIterator, ParallelIterator};
use vstd::prelude::*;
use crate::primitives::{
    curry_standard_puzzle, derive_synthetic, derive_unhardened, is_public_key,
    standard_puzzle_hash, synthetic_key_of, unhardened_child,
};
use crate::wallet::{Derivation, WalletError};

verus! {

/// Whether the derivation at `index` exists: the intermediate key and each key
/// derived from it on the way parse as public keys.
pub open spec fn derivable(intermediate: Seq<u8>, index: u32) -> bool {
    &&& is_public_key(intermediate)
    &&& is_public_key(unhardened_child(intermediate, index))
    &&& is_public_key(synthetic_key_of(unhardened_child(intermediate, index)))
}

/// Whether the derivation at `start + offset` exists.
pub open spec fn derivable_from(intermediate: Seq<u8>, start: u32, offset: int) -> bool {
    derivable(intermediate, (start + offset) as u32)
}

/// Whether `d` is the unhardened derivation of `intermediate` at `index`.
pub open spec fn is_derivation(intermediate: Seq<u8>, index: u32, d: Derivation) -> bool {
    &&& d.index == index
    &&& !d.hardened
    &&& d.synthetic_key@ == synthetic_key_of(unhardened_child(intermediate, index))
    &&& d.puzzle_hash@ == standard_puzzle_hash(d.synthetic_key@)
}

/// Whether `r` is what deriving at `index` gives: the derivation where it exists, nothing where it does not.
pub open spec fn derived(intermediate: Seq<u8>, index: u32, r: Option<Derivation>) -> bool {
    match r {
        Some(d) => derivable(intermediate, index) && is_derivation(intermediate, index, d),
        None => !derivable(intermediate, index),
    }
}

/// Whether `batch` holds the derivations of `intermediate` at `start`, `start + 1`, ..., in order.
pub open spec fn is_batch(intermediate: Seq<u8>, start: u32, batch: Seq<Derivation>) -> bool {
    &&& start + batch.len() <= u32::MAX + 1
    &&& forall|i: int| 0 <= i < batch.len() ==> #[trigger] derivable_from(intermediate, start, i)
    &&& forall|i: int|
        0 <= i < batch.len() ==> is_derivation(intermediate, (start + i) as u32, #[trigger] batch[i])
}

proof fn lemma_batch_push(intermediate: Seq<u8>, start: u32, batch: Seq<Derivation>, d: Derivation)
    requires
        is_batch(intermediate, start, batch),
        start + batch.len() <= u32::MAX,
        derivable(intermediate, (start + batch.len()) as u32),
        is_derivation(intermediate, (start + batch.len()) as u32, d),
    ensures
        is_batch(intermediate, start, batch.push(d)),
{
    let longer = batch.push(d);
    assert forall|i: int| 0 <= i < longer.len() implies is_derivation(
        intermediate,
        (start + i) as u32,
        #[trigger] longer[i],
    ) by {
        if i < batch.len() {
            assert(longer[i] == batch[i]);
        }
    }
    assert(derivable_from(intermediate, start, batch.len() as int));
}

/// Derives the wallet key and puzzle hash at one index.
pub fn derive_one(intermediate: &[u8; 48], index: u32) -> (r: Option<Derivation>)
    ensures
        derived(intermediate@, index, r),
{
    let child = match derive_unhardened(intermediate, index) {
        Some(child) => child,
        None => {
            return None;
        },
    };
    let synthetic = match derive_synthetic(&child) {
        Some(synthetic) => synthetic,
        None => {
            return None;
        },
    };
    match curry_standard_puzzle(&synthetic) {
        Some(puzzle_hash) => Some(
            Derivation { index, synthetic_key: synthetic, puzzle_hash, hardened: false },
        ),
        None => None,
    }
}

/// Maps [`derive_one`] over `start..start + count` on rayon's thread pool.
///
/// Trusted: rayon's `collect` of an indexed parallel iterator keeps the order
/// of the range, so entry `i` is what `derive_one` returns for `start + i`.
#[verifier::external_body]
fn derive_in_parallel(intermediate: &[u8; 48], start: u32, count: u32) -> (out: Vec<
    Option<Derivation>,
>)
    requires
        start + count <= u32::MAX,
    ensures
        out@.len() == count,
        forall|i: int| 0 <= i < count ==> derived(intermediate@, (start + i) as u32, #[trigger] out@[i]),
{
    (start..start + count).into_par_iter().map(|index| derive_one(intermediate, index)).collect()
}

/// Derives the `count` entries of the chain that start at index `start`.
///
/// Fails with `DerivationLimit` when the range passes the last index, and
/// with `InvalidKey` when some derivation in the range does not exist.
pub fn derive_batch(intermediate: &[u8; 48], start: u32, count: u32) -> (r: Result<
    Vec<Derivation>,
    WalletError,
>)
    ensures
        match r {
            Ok(batch) => {
                &&& start + count <= u32::MAX
                &&& batch@.len() == count
                &&& is_batch(intermediate@, start, batch@)
            },
            Err(WalletError::DerivationLimit) => start + count > u32::MAX,
            Err(WalletError::InvalidKey) => {
                &&& start + count <= u32::MAX
                &&& exists|i: int| 0 <= i < count && !#[trigger] derivable_from(intermediate@, start, i)
            },
            Err(_) => false,
        },
{
    if count > u32::MAX - start {
        return Err(WalletError::DerivationLimit);
    }
    let derived_keys = derive_in_parallel(intermediate, start, count);
    let mut batch: Vec<Derivation> = Vec::new();
    let mut i: usize = 0;
    while i < derived_keys.len()
        invariant
            i <= derived_keys@.len(),
            derived_keys@.len() == count,
            start + count <= u32::MAX,
            batch@.len() == i,
            is_batch(intermediate@, start, batch@),
            forall|k: int|
                0 <= k < count ==> derived(intermediate@, (start + k) as u32, #[trigger] derived_keys@[k]),
        decreases derived_keys@.len() - i,
    {
        let ghost before = batch@;
        assert(derived(intermediate@, (start + i) as u32, derived_keys@[i as int]));
        match derived_keys[i] {
            Some(d) => {
                batch.push(d);
            },
            None => {
                assert(!derivable_from(intermediate@, start, i as int));
                return Err(WalletError::InvalidKey);
            },
        }
        proof {
            lemma_batch_push(intermediate@, start, before, batch@.last());
        }
        i += 1;
    }
    Ok(batch)
}

} // verus!
