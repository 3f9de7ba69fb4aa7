//! Reading hashes and keys from the text of a request.
//!
//! A hash or a key comes in hexadecimal, of either case, with or without a
//! leading `0x`. The id of a DID or an NFT may also come as its address.

use vstd::prelude::*;
use vstd::string::*;
use crate::primitives::{decode_address, decoded_address, hex_bytes, hex_decode, is_hex};

verus! {

/// `text` without a leading `0x`.
pub open spec fn without_prefix(text: Seq<char>) -> Seq<char> {
    if text.len() >= 2 && text[0] == '0' && text[1] == 'x' {
        text.skip(2)
    } else {
        text
    }
}

/// The `size` bytes that `text` gives in hexadecimal, if it gives that many.
pub open spec fn spec_parse_hex(text: Seq<char>, size: nat) -> Option<Seq<u8>> {
    let digits = without_prefix(text);
    if is_hex(digits) && digits.len() == 2 * size {
        Some(hex_bytes(digits))
    } else {
        None
    }
}

/// The id that `text` gives for a DID or an NFT: 32 bytes in hexadecimal, or
/// else an address with the prefix of the asset's kind.
pub open spec fn spec_parse_singleton_id(text: Seq<char>, prefix: Seq<char>) -> Option<Seq<u8>> {
    match spec_parse_hex(text, 32) {
        Some(id) => Some(id),
        None => match decoded_address(text) {
            Some((found, id)) => if found == prefix {
                Some(id)
            } else {
                None
            },
            None => None,
        },
    }
}

fn strip_hex_prefix(text: &str) -> (rest: &str)
    ensures
        rest@ == without_prefix(text@),
{
    let len = text.unicode_len();
    if len >= 2 && text.get_char(0) == '0' && text.get_char(1) == 'x' {
        text.substring_char(2, len)
    } else {
        text
    }
}

fn to_array<const N: usize>(bytes: &Vec<u8>) -> (array: Option<[u8; N]>)
    ensures
        match array {
            Some(copied) => copied@ == bytes@,
            None => bytes@.len() != N,
        },
{
    if bytes.len() != N {
        return None;
    }
    let mut array = [0u8; N];
    let mut i: usize = 0;
    while i < N
        invariant
            i <= N,
            bytes@.len() == N,
            array@.len() == N,
            forall|k: int| 0 <= k < i ==> array@[k] == bytes@[k],
        decreases N - i,
    {
        array[i] = bytes[i];
        i += 1;
    }
    assert(array@ =~= bytes@);
    Some(array)
}

fn parse_hex<const N: usize>(text: &str) -> (r: Option<[u8; N]>)
    ensures
        match r {
            Some(bytes) => spec_parse_hex(text@, N as nat) == Some(bytes@),
            None => spec_parse_hex(text@, N as nat) is None,
        },
{
    let digits = strip_hex_prefix(text);
    match hex_decode(digits) {
        Some(bytes) => {
            assert(digits@.len() == 2 * bytes@.len()) by {
                assert(bytes@.len() == digits@.len() / 2);
                assert(digits@.len() % 2 == 0);
            }
            to_array(&bytes)
        },
        None => None,
    }
}

/// Reads a 32-byte hash: a coin id, an asset id, a puzzle hash.
pub fn parse_hash(text: &str) -> (r: Option<[u8; 32]>)
    ensures
        match r {
            Some(hash) => spec_parse_hex(text@, 32) == Some(hash@),
            None => spec_parse_hex(text@, 32) is None,
        },
{
    parse_hex::<32>(text)
}

/// Reads the 48 bytes of a compressed public key.
pub fn parse_public_key(text: &str) -> (r: Option<[u8; 48]>)
    ensures
        match r {
            Some(key) => spec_parse_hex(text@, 48) == Some(key@),
            None => spec_parse_hex(text@, 48) is None,
        },
{
    parse_hex::<48>(text)
}

fn same_text(a: &str, b: &str) -> (same: bool)
    ensures
        same == (a@ == b@),
{
    let len = a.unicode_len();
    if len != b.unicode_len() {
        return false;
    }
    let mut i: usize = 0;
    while i < len
        invariant
            i <= len,
            len == a@.len(),
            len == b@.len(),
            forall|k: int| 0 <= k < i ==> a@[k] == b@[k],
        decreases len - i,
    {
        if a.get_char(i) != b.get_char(i) {
            return false;
        }
        i += 1;
    }
    assert(a@ =~= b@);
    true
}

fn parse_singleton_id(text: &str, prefix: &str) -> (r: Option<[u8; 32]>)
    ensures
        match r {
            Some(id) => spec_parse_singleton_id(text@, prefix@) == Some(id@),
            None => spec_parse_singleton_id(text@, prefix@) is None,
        },
{
    match parse_hash(text) {
        Some(id) => Some(id),
        None => match decode_address(text) {
            Some((found, id)) => if same_text(found.as_str(), prefix) {
                Some(id)
            } else {
                None
            },
            None => None,
        },
    }
}

/// Reads the id of a DID: 32 bytes in hexadecimal, or else an address with the prefix `did:chia:`.
pub fn parse_did_id(text: &str) -> (r: Option<[u8; 32]>)
    ensures
        match r {
            Some(id) => spec_parse_singleton_id(text@, "did:chia:"@) == Some(id@),
            None => spec_parse_singleton_id(text@, "did:chia:"@) is None,
        },
{
    parse_singleton_id(text, "did:chia:")
}

/// Reads the id of an NFT: 32 bytes in hexadecimal, or else an address with the prefix `nft`.
pub fn parse_nft_id(text: &str) -> (r: Option<[u8; 32]>)
    ensures
        match r {
            Some(id) => spec_parse_singleton_id(text@, "nft"@) == Some(id@),
            None => spec_parse_singleton_id(text@, "nft"@) is None,
        },
{
    parse_singleton_id(text, "nft")
}

} // verus!
