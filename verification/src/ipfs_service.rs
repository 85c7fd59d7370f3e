//! The content network backend.

use crate::da_type::DaType;
use crate::error::DaError;
use crate::hashing::keccak256;
use crate::hashing::keccak256_digest;
use crate::hashing::HASH_SIZE;
use base58::FromBase58;
use base58::FromBase58Error;
use base58::ToBase58;
use vstd::prelude::*;

verus! {

/// The address of the node's API.
#[derive(Debug)]
pub struct Config {
    pub url: String,
}

/// The content network backend. The node names content by a base-58
/// identifier; the handle is the bytes that the identifier stands for.
pub struct IpfsService {
    url: String,
}

/// The base-58 text of `data`, as the `base58` crate writes it.
pub uninterp spec fn base58_text(data: Seq<u8>) -> Seq<char>;

/// The bytes that the `base58` crate reads from `text`, if it reads any.
pub uninterp spec fn base58_bytes(text: Seq<char>) -> Option<Seq<u8>>;

/// The longest input, in bytes or characters, that base-58 conversion is
/// asked for.
pub const BASE58_LIMIT: usize = 128;

/// The error of `from_base58`, carried through and never looked into.
#[verifier::external_type_specification]
#[verifier::external_body]
pub struct ExFromBase58Error(FromBase58Error);

/// Calls `base58::ToBase58::to_base58` on a byte slice. Trusted: the text
/// is decided by the bytes alone. Longer input is kept from it, as the
/// crate names 128 bytes as the most it works for.
#[verifier::external_body]
fn to_base58(data: &[u8]) -> (text: String)
    requires
        data@.len() <= BASE58_LIMIT,
    ensures
        text@ == base58_text(data@),
{
    data.to_base58()
}

/// Calls `base58::FromBase58::from_base58` on a string. Trusted: whether
/// it succeeds, and with which bytes, is decided by the text alone. Longer
/// text is kept from it, since the crate's buffers are of fixed size.
#[verifier::external_body]
fn from_base58(text: &str) -> (r: Result<Vec<u8>, FromBase58Error>)
    requires
        text@.len() <= BASE58_LIMIT,
    ensures
        match r {
            Ok(bytes) => base58_bytes(text@) == Some(bytes@),
            Err(_) => base58_bytes(text@) is None,
        },
{
    text.from_base58()
}

impl IpfsService {
    /// The address of the node's API.
    pub closed spec fn endpoint(&self) -> Seq<char> {
        self.url@
    }

    /// A backend for the configured node.
    pub fn new(cfg: Config) -> (service: Self)
        ensures
            service.endpoint() == cfg.url@,
    {
        Self { url: cfg.url }
    }

    /// The address of the node's API.
    pub fn url(&self) -> (url: &String)
        ensures
            url@ == self.endpoint(),
    {
        &self.url
    }

    /// The content hash of a payload.
    pub fn hash(tx: &[u8]) -> (digest: Vec<u8>)
        ensures
            digest@ == keccak256_digest(tx@),
            digest@.len() == HASH_SIZE,
    {
        keccak256(tx)
    }

    /// The tag of the content network.
    pub fn type_byte(&self) -> (t: u8)
        ensures
            t == DaType::Ipfs.tag(),
    {
        DaType::Ipfs.type_byte()
    }

    /// The handle for content that the node named `cid`. An identifier that
    /// is too long or is not base-58 cannot be put in a handle.
    pub fn handle(cid: &str) -> (r: Result<Vec<u8>, DaError>)
        ensures
            match r {
                Ok(handle) => cid@.len() <= BASE58_LIMIT && base58_bytes(cid@) == Some(handle@),
                Err(e) => e == DaError::EncodingError && (cid@.len() > BASE58_LIMIT
                    || base58_bytes(cid@) is None),
            },
    {
        if cid.unicode_len() > BASE58_LIMIT {
            return Err(DaError::EncodingError);
        }
        match from_base58(cid) {
            Ok(handle) => Ok(handle),
            Err(_) => Err(DaError::EncodingError),
        }
    }

    /// The identifier under which the node knows a handle's content. No
    /// identifier is as long as a handle beyond the limit, so such a handle
    /// is not found.
    pub fn cid(handle: &[u8]) -> (r: Result<String, DaError>)
        ensures
            match r {
                Ok(cid) => handle@.len() <= BASE58_LIMIT && cid@ == base58_text(handle@),
                Err(e) => e == DaError::NotFound && handle@.len() > BASE58_LIMIT,
            },
    {
        if handle.len() > BASE58_LIMIT {
            return Err(DaError::NotFound);
        }
        Ok(to_base58(handle))
    }
}

} // verus!
