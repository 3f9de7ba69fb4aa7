//! Answers to a connected application: which coins it may spend, and how a
//! signature is returned to it.
//!
//! The database lookups and the construction of puzzles stay with the caller;
//! this module decides which rows are listed and assembles the records, with
//! every hash rendered in lowercase hexadecimal.

use vstd::prelude::*;
use crate::incremental::coin_id_of;
use crate::primitives::{
    bls_signature, cat_puzzle_reveal, coin_id, hex_encode, hex_string, is_public_key, is_secret_key,
    pair_tree_hash, serialize_cat_puzzle, serialize_standard_puzzle, sign, standard_puzzle_reveal,
    tree_hash_pair,
};
use crate::wallet::CoinState;

verus! {

/// Rows per page where a request names no limit.
pub const DEFAULT_LIMIT: u32 = 10;

/// What can be wrong with a request.
#[derive(Debug, Clone, Copy, PartialEq, Eq)]
pub enum ApiError {
    /// A request for CAT coins names no asset id.
    MissingAssetId,
    /// The wallet lists a CAT coin with this id and has no record of the CAT.
    MissingCatCoin([u8; 32]),
    /// The wallet lists a DID or NFT coin with this id and has no record of the asset.
    MissingCoin([u8; 32]),
    /// The wallet knows no derivation for the public key given.
    InvalidKey,
    /// The wallet holds no secret key to sign with.
    NoSigningKey,
    /// The puzzle of a coin could not be built.
    PuzzleNotBuilt,
}

/// The kinds of asset coin a request can ask for.
#[derive(Debug, Clone, Copy, PartialEq, Eq)]
pub enum AssetCoinType {
    Cat,
    Did,
    Nft,
}

/// The database query that answers a request for asset coins.
#[derive(Debug, Clone, Copy, PartialEq, Eq)]
pub enum AssetQuery {
    /// A page of the unspent coins of the CAT named.
    Cats { limit: u32, offset: u32 },
    /// The unspent coin of the DID named.
    Did,
    /// A page of the unspent DID coins.
    Dids { limit: u32, offset: u32 },
    /// The unspent coin of the NFT named.
    Nft,
    /// A page of the unspent NFT coins.
    Nfts { limit: u32, offset: u32 },
    /// A page of the unspent standard coins.
    Standard { limit: u32, offset: u32 },
}

/// How a coin descends from its parent.
#[derive(Debug, Clone, Copy, PartialEq, Eq)]
pub enum ParentProof {
    /// The parent was a coin of the same asset.
    Lineage { parent_parent_coin_info: [u8; 32], parent_inner_puzzle_hash: [u8; 32], parent_amount: u64 },
    /// The parent was the launcher of the asset.
    Eve { parent_parent_coin_info: [u8; 32], parent_amount: u64 },
}

/// A coin, with its hashes in hexadecimal.
#[derive(Debug, Clone, PartialEq, Eq)]
pub struct Coin {
    pub parent_coin_info: String,
    pub puzzle_hash: String,
    pub amount: u64,
}

/// The lineage of a coin, with its hashes in hexadecimal.
#[derive(Debug, Clone, PartialEq, Eq)]
pub struct LineageProof {
    pub parent_name: Option<String>,
    pub inner_puzzle_hash: Option<String>,
    pub amount: Option<u64>,
}

/// A coin the wallet can spend, with what a spender needs to know of it.
#[derive(Debug, Clone, PartialEq, Eq)]
pub struct SpendableCoin {
    pub coin: Coin,
    /// The coin's id.
    pub coin_name: String,
    /// The serialized puzzle that the coin's puzzle hash commits to.
    pub puzzle: String,
    /// The height at which the coin was created.
    pub confirmed_block_index: u32,
    /// Whether a pending transaction or an offer holds the coin.
    pub locked: bool,
    pub lineage_proof: Option<LineageProof>,
}

/// The page size and offset of a request: ten rows from the first where it names neither.
pub open spec fn spec_page(limit: Option<u32>, offset: Option<u32>) -> (u32, u32) {
    (
        match limit {
            Some(limit) => limit,
            None => DEFAULT_LIMIT,
        },
        match offset {
            Some(offset) => offset,
            None => 0,
        },
    )
}

/// The query for a request, or the reason there is none.
pub open spec fn spec_asset_query(
    kind: Option<AssetCoinType>,
    names_asset: bool,
    limit: Option<u32>,
    offset: Option<u32>,
) -> Result<AssetQuery, ApiError> {
    let (limit, offset) = spec_page(limit, offset);
    match kind {
        Some(AssetCoinType::Cat) => if names_asset {
            Ok(AssetQuery::Cats { limit, offset })
        } else {
            Err(ApiError::MissingAssetId)
        },
        Some(AssetCoinType::Did) => if names_asset {
            Ok(AssetQuery::Did)
        } else {
            Ok(AssetQuery::Dids { limit, offset })
        },
        Some(AssetCoinType::Nft) => if names_asset {
            Ok(AssetQuery::Nft)
        } else {
            Ok(AssetQuery::Nfts { limit, offset })
        },
        None => Ok(AssetQuery::Standard { limit, offset }),
    }
}

/// Picks the database query for a request for asset coins.
///
/// CAT coins are listed per asset, so a request for them must name one. A DID
/// or NFT request that names an asset asks for that one coin, and otherwise for
/// a page. A request of no kind lists standard coins.
pub fn plan_asset_query(
    kind: Option<AssetCoinType>,
    names_asset: bool,
    limit: Option<u32>,
    offset: Option<u32>,
) -> (query: Result<AssetQuery, ApiError>)
    ensures
        query == spec_asset_query(kind, names_asset, limit, offset),
{
    let limit = match limit {
        Some(limit) => limit,
        None => DEFAULT_LIMIT,
    };
    let offset = match offset {
        Some(offset) => offset,
        None => 0,
    };
    match kind {
        Some(AssetCoinType::Cat) => if names_asset {
            Ok(AssetQuery::Cats { limit, offset })
        } else {
            Err(ApiError::MissingAssetId)
        },
        Some(AssetCoinType::Did) => if names_asset {
            Ok(AssetQuery::Did)
        } else {
            Ok(AssetQuery::Dids { limit, offset })
        },
        Some(AssetCoinType::Nft) => if names_asset {
            Ok(AssetQuery::Nft)
        } else {
            Ok(AssetQuery::Nfts { limit, offset })
        },
        None => Ok(AssetQuery::Standard { limit, offset }),
    }
}

/// Whether a coin is held by a pending transaction or an offer.
pub open spec fn spec_is_locked(in_transaction: bool, is_offered: bool) -> bool {
    in_transaction || is_offered
}

/// Whether a coin appears in a listing: locked coins only where the request includes them.
pub open spec fn spec_is_listed(include_locked: Option<bool>, in_transaction: bool, is_offered: bool) -> bool {
    include_locked == Some(true) || !spec_is_locked(in_transaction, is_offered)
}

/// Whether a coin appears in a listing: locked coins only where the request includes them.
#[verifier::when_used_as_spec(spec_is_listed)]
pub fn is_listed(include_locked: Option<bool>, in_transaction: bool, is_offered: bool) -> (listed: bool)
    ensures
        listed == spec_is_listed(include_locked, in_transaction, is_offered),
{
    let include_locked = match include_locked {
        Some(flag) => flag,
        None => false,
    };
    include_locked || !(in_transaction || is_offered)
}

/// Whether `record` renders `parent`.
pub open spec fn renders_proof(record: LineageProof, parent: ParentProof) -> bool {
    match parent {
        ParentProof::Lineage { parent_parent_coin_info, parent_inner_puzzle_hash, parent_amount } => {
            &&& record.parent_name matches Some(name) && name@ == hex_string(parent_parent_coin_info@)
            &&& record.inner_puzzle_hash matches Some(hash) && hash@ == hex_string(
                parent_inner_puzzle_hash@,
            )
            &&& record.amount == Some(parent_amount)
        },
        ParentProof::Eve { parent_parent_coin_info, parent_amount } => {
            &&& record.parent_name matches Some(name) && name@ == hex_string(parent_parent_coin_info@)
            &&& record.inner_puzzle_hash is None
            &&& record.amount == Some(parent_amount)
        },
    }
}

/// Renders how a coin descends from its parent.
pub fn lineage_record(parent: &ParentProof) -> (record: LineageProof)
    ensures
        renders_proof(record, *parent),
{
    match parent {
        ParentProof::Lineage { parent_parent_coin_info, parent_inner_puzzle_hash, parent_amount } => LineageProof {
            parent_name: Some(hex_encode(parent_parent_coin_info.as_slice())),
            inner_puzzle_hash: Some(hex_encode(parent_inner_puzzle_hash.as_slice())),
            amount: Some(*parent_amount),
        },
        ParentProof::Eve { parent_parent_coin_info, parent_amount } => LineageProof {
            parent_name: Some(hex_encode(parent_parent_coin_info.as_slice())),
            inner_puzzle_hash: None,
            amount: Some(*parent_amount),
        },
    }
}

/// Whether `item` is the record of the coin that `coin_state` speaks of.
pub open spec fn is_record_of(
    item: SpendableCoin,
    coin_state: CoinState,
    puzzle_reveal: Seq<u8>,
    in_transaction: bool,
    is_offered: bool,
    parent: Option<ParentProof>,
) -> bool {
    &&& item.coin.parent_coin_info@ == hex_string(coin_state.coin.parent_coin_info@)
    &&& item.coin.puzzle_hash@ == hex_string(coin_state.coin.puzzle_hash@)
    &&& item.coin.amount == coin_state.coin.amount
    &&& item.coin_name@ == hex_string(coin_id_of(coin_state))
    &&& item.puzzle@ == hex_string(puzzle_reveal)
    &&& Some(item.confirmed_block_index) == coin_state.created_height
    &&& item.locked == spec_is_locked(in_transaction, is_offered)
    &&& match parent {
        Some(parent) => item.lineage_proof matches Some(record) && renders_proof(record, parent),
        None => item.lineage_proof is None,
    }
}

/// Assembles the record of one listed coin.
///
/// The coin must have been created: a record carries the height at which it was.
pub fn spendable_coin(
    coin_state: &CoinState,
    puzzle_reveal: &[u8],
    in_transaction: bool,
    is_offered: bool,
    parent: Option<ParentProof>,
) -> (item: SpendableCoin)
    requires
        coin_state.created_height is Some,
    ensures
        is_record_of(item, *coin_state, puzzle_reveal@, in_transaction, is_offered, parent),
{
    let id = coin_id(&coin_state.coin);
    let lineage_proof = match parent {
        Some(parent) => Some(lineage_record(&parent)),
        None => None,
    };
    SpendableCoin {
        coin: Coin {
            parent_coin_info: hex_encode(coin_state.coin.parent_coin_info.as_slice()),
            puzzle_hash: hex_encode(coin_state.coin.puzzle_hash.as_slice()),
            amount: coin_state.coin.amount,
        },
        coin_name: hex_encode(id.as_slice()),
        puzzle: hex_encode(puzzle_reveal),
        confirmed_block_index: coin_state.created_height.unwrap(),
        locked: in_transaction || is_offered,
        lineage_proof,
    }
}

/// Assembles the record of one listed standard coin, whose puzzle is the
/// standard puzzle for `synthetic_key`.
///
/// Fails with `PuzzleNotBuilt` when the puzzle driver gives no puzzle, as it
/// does for bytes that are not a public key.
pub fn standard_coin(
    coin_state: &CoinState,
    synthetic_key: &[u8; 48],
    in_transaction: bool,
    is_offered: bool,
) -> (r: Result<SpendableCoin, ApiError>)
    requires
        coin_state.created_height is Some,
    ensures
        match r {
            Ok(item) => is_public_key(synthetic_key@) && is_record_of(
                item,
                *coin_state,
                standard_puzzle_reveal(synthetic_key@),
                in_transaction,
                is_offered,
                None,
            ),
            Err(e) => e is PuzzleNotBuilt,
        },
{
    match serialize_standard_puzzle(synthetic_key) {
        Some(reveal) => Ok(
            spendable_coin(coin_state, reveal.as_slice(), in_transaction, is_offered, None),
        ),
        None => Err(ApiError::PuzzleNotBuilt),
    }
}

/// Assembles the record of one listed coin of the CAT `asset_id`, whose inner
/// puzzle is the standard puzzle for `synthetic_key`.
///
/// Fails with `PuzzleNotBuilt` when the puzzle driver gives no puzzle, as it
/// does for bytes that are not a public key.
pub fn cat_coin(
    coin_state: &CoinState,
    asset_id: &[u8; 32],
    synthetic_key: &[u8; 48],
    in_transaction: bool,
    is_offered: bool,
    parent: Option<ParentProof>,
) -> (r: Result<SpendableCoin, ApiError>)
    requires
        coin_state.created_height is Some,
    ensures
        match r {
            Ok(item) => is_public_key(synthetic_key@) && is_record_of(
                item,
                *coin_state,
                cat_puzzle_reveal(asset_id@, synthetic_key@),
                in_transaction,
                is_offered,
                parent,
            ),
            Err(e) => e is PuzzleNotBuilt,
        },
{
    match serialize_cat_puzzle(asset_id, synthetic_key) {
        Some(reveal) => Ok(
            spendable_coin(coin_state, reveal.as_slice(), in_transaction, is_offered, parent),
        ),
        None => Err(ApiError::PuzzleNotBuilt),
    }
}

/// The error for a listed asset coin of which the wallet has no asset record.
pub fn missing_asset(kind: AssetCoinType, coin_state: &CoinState) -> (e: ApiError)
    ensures
        match kind {
            AssetCoinType::Cat => e matches ApiError::MissingCatCoin(id) && id@ == coin_id_of(*coin_state),
            _ => e matches ApiError::MissingCoin(id) && id@ == coin_id_of(*coin_state),
        },
{
    let id = coin_id(&coin_state.coin);
    match kind {
        AssetCoinType::Cat => ApiError::MissingCatCoin(id),
        _ => ApiError::MissingCoin(id),
    }
}

/// The ids that are not locked, in the order given; each entry pairs an id with whether it is locked.
pub open spec fn unlocked_ids(entries: Seq<(String, bool)>) -> Seq<Seq<char>>
    decreases entries.len(),
{
    if entries.len() == 0 {
        Seq::empty()
    } else if entries.last().1 {
        unlocked_ids(entries.drop_last())
    } else {
        unlocked_ids(entries.drop_last()).push(entries.last().0@)
    }
}

/// The text of each string, in order.
pub open spec fn texts(strings: Seq<String>) -> Seq<Seq<char>> {
    Seq::new(strings.len(), |i: int| strings[i]@)
}

/// Keeps the coin ids that are not locked, in the order given.
pub fn filter_unlocked(entries: &Vec<(String, bool)>) -> (coin_ids: Vec<String>)
    ensures
        texts(coin_ids@) == unlocked_ids(entries@),
{
    let mut coin_ids: Vec<String> = Vec::new();
    let mut i: usize = 0;
    while i < entries.len()
        invariant
            i <= entries@.len(),
            texts(coin_ids@) == unlocked_ids(entries@.take(i as int)),
        decreases entries@.len() - i,
    {
        assert(entries@.take(i + 1).drop_last() =~= entries@.take(i as int));
        if !entries[i].1 {
            coin_ids.push(entries[i].0.clone());
            assert(texts(coin_ids@) =~= unlocked_ids(entries@.take(i + 1)));
        }
        i += 1;
    }
    assert(entries@.take(i as int) =~= entries@);
    coin_ids
}

/// The derivation index to sign with, or why no signature can be made.
///
/// `InvalidKey` where the wallet has no derivation for the public key; where
/// it has one but holds no secret key, `NoSigningKey`.
pub fn signing_index(index: Option<u32>, has_secret_key: bool) -> (r: Result<u32, ApiError>)
    ensures
        r == match index {
            None => Err::<u32, ApiError>(ApiError::InvalidKey),
            Some(index) => if has_secret_key {
                Ok::<u32, ApiError>(index)
            } else {
                Err::<u32, ApiError>(ApiError::NoSigningKey)
            },
        },
{
    match index {
        None => Err(ApiError::InvalidKey),
        Some(index) => if has_secret_key {
            Ok(index)
        } else {
            Err(ApiError::NoSigningKey)
        },
    }
}

/// The text that answers a request to sign `message` with `secret_key`: the
/// signature, in hexadecimal, of the tree hash of the message behind its prefix.
pub open spec fn signed_text(secret_key: Seq<u8>, message: Seq<char>) -> Seq<char> {
    hex_string(bls_signature(secret_key, pair_tree_hash("Chia Signed Message"@, message)))
}

/// Signs `message` with the synthetic secret key of the derivation found for the request.
///
/// Fails with `NoSigningKey` exactly when the bytes are not a secret key.
pub fn sign_message(secret_key: &[u8; 32], message: &str) -> (r: Result<String, ApiError>)
    ensures
        match r {
            Ok(text) => is_secret_key(secret_key@) && text@ == signed_text(secret_key@, message@),
            Err(e) => !is_secret_key(secret_key@) && e is NoSigningKey,
        },
{
    let hash = tree_hash_pair("Chia Signed Message", message);
    match sign(secret_key, hash.as_slice()) {
        Some(signature) => Ok(hex_encode(signature.as_slice())),
        None => Err(ApiError::NoSigningKey),
    }
}

} // verus!
