//! Identity of a peer.

use vstd::prelude::*;
use crate::error::ClientError;
use crate::primitives::{hex_encode, hex_string, sha256, sha256_digest};

verus! {

/// The SHA-256 digest of the DER certificate a peer presented.
///
/// Stable for the lifetime of a connection and across reconnects to the same
/// certificate.
#[derive(Debug, Clone, Copy, PartialEq, Eq, PartialOrd, Ord, Hash)]
pub struct PeerId([u8; 32]);

impl View for PeerId {
    type V = Seq<u8>;

    closed spec fn view(&self) -> Seq<u8> {
        self.0@
    }
}

impl PeerId {
    /// Wraps 32 bytes that are already a certificate digest.
    pub fn new(bytes: [u8; 32]) -> (id: PeerId)
        ensures
            id@ == bytes@,
    {
        PeerId(bytes)
    }

    /// Identifies the peer that presented `certificate`, given in DER.
    ///
    /// A peer without a certificate has no identity: `MissingCertificate`.
    pub fn from_certificate(certificate: Option<&[u8]>) -> (r: Result<PeerId, ClientError>)
        ensures
            match r {
                Ok(id) => certificate matches Some(der) && id@ == sha256_digest(der@),
                Err(e) => certificate is None && e is MissingCertificate,
            },
    {
        match certificate {
            Some(der) => Ok(PeerId(sha256(der))),
            None => Err(ClientError::MissingCertificate),
        }
    }

    /// The 32 bytes of the digest.
    pub fn as_bytes(&self) -> (bytes: &[u8; 32])
        ensures
            bytes@ == self@,
    {
        &self.0
    }

    /// The digest in lowercase hexadecimal, 64 characters.
    pub fn to_hex(&self) -> (text: String)
        ensures
            text@ == hex_string(self@),
            text@.len() == 64,
    {
        hex_encode(self.0.as_slice())
    }
}

} // verus!
