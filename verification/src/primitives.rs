//! Hashing, text encoding, key derivation, puzzle serialization and signing,
//! as other crates supply them.
//!
//! Each function here hands plain bytes to another crate and hands plain
//! bytes back. Its contract is taken on trust from that crate's documentation
//! and source; nothing in this module is proved. Where the result takes pages
//! to state, the contract gives it a name: a function of the arguments whose
//! value only the other crate computes.

use vstd::prelude::*;
use chia::bls::{DerivableKey, PublicKey, SecretKey};
use chia::clvm_utils::ToTreeHash;
use chia::puzzles::cat::CatArgs;
use chia::puzzles::standard::StandardArgs;
use chia::puzzles::DeriveSynthetic;
use chia_wallet_sdk::driver::SpendContext;
use chia_wallet_sdk::utils::Address;
use sha2::Digest;
use crate::wallet::Coin;

verus! {

/// The SHA-256 digest of `data`, as `sha2::Sha256` computes it.
pub uninterp spec fn sha256_digest(data: Seq<u8>) -> Seq<u8>;

/// The lowercase hexadecimal digit of a value below sixteen.
pub open spec fn hex_digit(nibble: u8) -> char {
    seq!['0', '1', '2', '3', '4', '5', '6', '7', '8', '9', 'a', 'b', 'c', 'd', 'e', 'f'][nibble as int]
}

/// Lowercase hexadecimal rendering: two digits per byte, high nibble first.
pub open spec fn hex_string(data: Seq<u8>) -> Seq<char> {
    Seq::new(
        2 * data.len(),
        |i: int|
            if i % 2 == 0 {
                hex_digit(data[i / 2] / 16)
            } else {
                hex_digit(data[i / 2] % 16)
            },
    )
}

/// The value of a hexadecimal digit of either case.
pub open spec fn hex_value(digit: char) -> Option<u8> {
    let code = digit as u32;
    if 0x30 <= code <= 0x39 {
        Some((code - 0x30) as u8)
    } else if 0x61 <= code <= 0x66 {
        Some((code - 0x61 + 10) as u8)
    } else if 0x41 <= code <= 0x46 {
        Some((code - 0x41 + 10) as u8)
    } else {
        None
    }
}

/// Whether `text` is hexadecimal: an even number of hexadecimal digits.
pub open spec fn is_hex(text: Seq<char>) -> bool {
    &&& text.len() % 2 == 0
    &&& forall|i: int| 0 <= i < text.len() ==> hex_value(#[trigger] text[i]) is Some
}

/// The bytes that hexadecimal `text` renders: one per pair of digits, high nibble first.
pub open spec fn hex_bytes(text: Seq<char>) -> Seq<u8> {
    Seq::new(
        text.len() / 2,
        |i: int| (hex_value(text[2 * i])->Some_0 * 16 + hex_value(text[2 * i + 1])->Some_0) as u8,
    )
}

/// The prefix and the 32 bytes that `text` encodes as a bech32m address, if it
/// is one, as `chia_wallet_sdk::utils::Address::decode` reads it.
pub uninterp spec fn decoded_address(text: Seq<char>) -> Option<(Seq<char>, Seq<u8>)>;

/// Calls `sha2::Sha256::digest`.
///
/// Trusted: the 32 bytes returned are the SHA-256 digest of `data`, a
/// function of the input bytes alone.
#[verifier::external_body]
pub(crate) fn sha256(data: &[u8]) -> (digest: [u8; 32])
    ensures
        digest@ == sha256_digest(data@),
{
    sha2::Sha256::digest(data).into()
}

/// Calls `hex::encode`.
///
/// Trusted: the string holds, for each input byte in order, the digit of its
/// high nibble and then the digit of its low nibble, from `0123456789abcdef`.
#[verifier::external_body]
pub(crate) fn hex_encode(data: &[u8]) -> (text: String)
    ensures
        text@ == hex_string(data@),
{
    hex::encode(data)
}

/// Calls `hex::decode`.
///
/// Trusted: `None` exactly when the text has an odd length or holds a
/// character that is no hexadecimal digit; otherwise one byte per pair of
/// digits, the first digit of a pair being the high nibble.
#[verifier::external_body]
pub(crate) fn hex_decode(text: &str) -> (bytes: Option<Vec<u8>>)
    ensures
        match bytes {
            Some(decoded) => is_hex(text@) && decoded@ == hex_bytes(text@),
            None => !is_hex(text@),
        },
{
    hex::decode(text).ok()
}

/// Calls `chia_wallet_sdk::utils::Address::decode`.
///
/// Trusted: the prefix and the 32 bytes read from the address, or `None`
/// where the text is no bech32m address of 32 bytes: a function of the text alone.
#[verifier::external_body]
pub(crate) fn decode_address(text: &str) -> (address: Option<(String, [u8; 32])>)
    ensures
        match address {
            Some((prefix, hash)) => decoded_address(text@) == Some((prefix@, hash@)),
            None => decoded_address(text@) is None,
        },
{
    match Address::decode(text) {
        Ok(address) => Some((address.prefix, address.puzzle_hash.into())),
        Err(_) => None,
    }
}

/// The id of the coin with these three fields, as `chia::protocol::Coin::coin_id` computes it.
pub uninterp spec fn coin_id_digest(parent_coin_info: Seq<u8>, puzzle_hash: Seq<u8>, amount: u64) -> Seq<u8>;

/// Whether 48 bytes are the compressed form of a BLS public key, as
/// `chia::bls::PublicKey::from_bytes` decides it.
pub uninterp spec fn is_public_key(bytes: Seq<u8>) -> bool;

/// The compressed unhardened child of the public key `parent` at `index`, as
/// `DerivableKey::derive_unhardened` computes it.
pub uninterp spec fn unhardened_child(parent: Seq<u8>, index: u32) -> Seq<u8>;

/// The compressed synthetic key of the public key `key` under the default
/// hidden puzzle, as `DeriveSynthetic::derive_synthetic` computes it.
pub uninterp spec fn synthetic_key_of(key: Seq<u8>) -> Seq<u8>;

/// The tree hash of the standard puzzle curried with the public key
/// `synthetic_key`, as `StandardArgs::curry_tree_hash` computes it.
pub uninterp spec fn standard_puzzle_hash(synthetic_key: Seq<u8>) -> Seq<u8>;

/// The serialized standard puzzle curried with the public key `synthetic_key`,
/// as `SpendContext::curry` and `SpendContext::serialize` produce it.
pub uninterp spec fn standard_puzzle_reveal(synthetic_key: Seq<u8>) -> Seq<u8>;

/// The serialized CAT puzzle of the asset `asset_id` around the standard puzzle
/// for `synthetic_key`, as `SpendContext::curry` and `SpendContext::serialize`
/// produce it.
pub uninterp spec fn cat_puzzle_reveal(asset_id: Seq<u8>, synthetic_key: Seq<u8>) -> Seq<u8>;

/// Whether 32 bytes are a BLS secret key, as `chia::bls::SecretKey::from_bytes` decides it.
pub uninterp spec fn is_secret_key(bytes: Seq<u8>) -> bool;

/// The tree hash of the pair of the two strings as atoms, as `ToTreeHash::tree_hash` computes it.
pub uninterp spec fn pair_tree_hash(first: Seq<char>, rest: Seq<char>) -> Seq<u8>;

/// The compressed signature of `message` under `secret_key` in the augmented
/// scheme, as `chia::bls::sign` computes it.
pub uninterp spec fn bls_signature(secret_key: Seq<u8>, message: Seq<u8>) -> Seq<u8>;

/// Calls `chia::protocol::Coin::coin_id`.
///
/// Trusted: the id is a function of the coin's parent id, puzzle hash and
/// amount alone.
#[verifier::external_body]
pub(crate) fn coin_id(coin: &Coin) -> (id: [u8; 32])
    ensures
        id@ == coin_id_digest(coin.parent_coin_info@, coin.puzzle_hash@, coin.amount),
{
    let coin = chia::protocol::Coin::new(
        coin.parent_coin_info.into(),
        coin.puzzle_hash.into(),
        coin.amount,
    );
    coin.coin_id().into()
}

/// Calls `DerivableKey::derive_unhardened` on a `chia::bls::PublicKey`.
///
/// Trusted: `None` exactly when `parent` does not parse as a public key;
/// otherwise the compressed child key, a function of the parent's bytes and
/// the index alone.
#[verifier::external_body]
pub(crate) fn derive_unhardened(parent: &[u8; 48], index: u32) -> (child: Option<[u8; 48]>)
    ensures
        match child {
            Some(key) => is_public_key(parent@) && key@ == unhardened_child(parent@, index),
            None => !is_public_key(parent@),
        },
{
    match PublicKey::from_bytes(parent) {
        Ok(key) => Some(key.derive_unhardened(index).to_bytes()),
        Err(_) => None,
    }
}

/// Calls `DeriveSynthetic::derive_synthetic` on a `chia::bls::PublicKey`.
///
/// Trusted: `None` exactly when `key` does not parse as a public key;
/// otherwise the compressed synthetic key, a function of the key's bytes alone.
#[verifier::external_body]
pub(crate) fn derive_synthetic(key: &[u8; 48]) -> (synthetic: Option<[u8; 48]>)
    ensures
        match synthetic {
            Some(derived) => is_public_key(key@) && derived@ == synthetic_key_of(key@),
            None => !is_public_key(key@),
        },
{
    match PublicKey::from_bytes(key) {
        Ok(key) => Some(key.derive_synthetic().to_bytes()),
        Err(_) => None,
    }
}

/// Calls `StandardArgs::curry_tree_hash`.
///
/// Trusted: `None` exactly when `synthetic` does not parse as a public key;
/// otherwise the 32-byte tree hash, a function of the key's bytes alone.
#[verifier::external_body]
pub(crate) fn curry_standard_puzzle(synthetic: &[u8; 48]) -> (hash: Option<[u8; 32]>)
    ensures
        match hash {
            Some(digest) => is_public_key(synthetic@) && digest@ == standard_puzzle_hash(synthetic@),
            None => !is_public_key(synthetic@),
        },
{
    match PublicKey::from_bytes(synthetic) {
        Ok(key) => Some(StandardArgs::curry_tree_hash(key).to_bytes()),
        Err(_) => None,
    }
}

/// Calls `SpendContext::curry` with `StandardArgs` and `SpendContext::serialize`.
///
/// Trusted: where bytes come back, `synthetic` parses as a public key and the
/// bytes are the serialized curried puzzle, a function of the key's bytes
/// alone. Nothing is claimed of when the driver fails.
#[verifier::external_body]
pub(crate) fn serialize_standard_puzzle(synthetic: &[u8; 48]) -> (reveal: Option<Vec<u8>>)
    ensures
        reveal matches Some(bytes) ==> is_public_key(synthetic@) && bytes@ == standard_puzzle_reveal(
            synthetic@,
        ),
{
    let key = PublicKey::from_bytes(synthetic).ok()?;
    let mut ctx = SpendContext::new();
    let puzzle = ctx.curry(StandardArgs::new(key)).ok()?;
    Some(ctx.serialize(&puzzle).ok()?.into_bytes())
}

/// Calls `SpendContext::curry` with `CatArgs` over `StandardArgs`, and `SpendContext::serialize`.
///
/// Trusted: where bytes come back, `synthetic` parses as a public key and the
/// bytes are the serialized curried puzzle, a function of the asset id and the
/// key's bytes alone. Nothing is claimed of when the driver fails.
#[verifier::external_body]
pub(crate) fn serialize_cat_puzzle(asset_id: &[u8; 32], synthetic: &[u8; 48]) -> (reveal: Option<
    Vec<u8>,
>)
    ensures
        reveal matches Some(bytes) ==> is_public_key(synthetic@) && bytes@ == cat_puzzle_reveal(
            asset_id@,
            synthetic@,
        ),
{
    let key = PublicKey::from_bytes(synthetic).ok()?;
    let mut ctx = SpendContext::new();
    let inner = ctx.curry(StandardArgs::new(key)).ok()?;
    let puzzle = ctx.curry(CatArgs::new((*asset_id).into(), inner)).ok()?;
    Some(ctx.serialize(&puzzle).ok()?.into_bytes())
}

/// Calls `ToTreeHash::tree_hash` on a pair of strings.
///
/// Trusted: the 32 bytes are a function of the two strings alone.
#[verifier::external_body]
pub(crate) fn tree_hash_pair(first: &str, rest: &str) -> (hash: [u8; 32])
    ensures
        hash@ == pair_tree_hash(first@, rest@),
{
    (first, rest).tree_hash().to_bytes()
}

/// Calls `chia::bls::sign`.
///
/// Trusted: `None` exactly when `secret_key` does not parse as a secret key;
/// otherwise the 96 bytes of the signature, a function of the key's bytes and
/// the message alone.
#[verifier::external_body]
pub(crate) fn sign(secret_key: &[u8; 32], message: &[u8]) -> (signature: Option<[u8; 96]>)
    ensures
        match signature {
            Some(bytes) => is_secret_key(secret_key@) && bytes@ == bls_signature(secret_key@, message@),
            None => !is_secret_key(secret_key@),
        },
{
    match SecretKey::from_bytes(secret_key) {
        Ok(key) => Some(chia::bls::sign(&key, message).to_bytes()),
        Err(_) => None,
    }
}

} // verus!
