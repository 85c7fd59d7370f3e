//! The ledger backend.

use crate::da_type::DaType;
use crate::error::DaError;
use crate::hashing::keccak256;
use crate::hashing::keccak256_digest;
use crate::hashing::HASH_SIZE;
use crate::hex_text::from_hex;
use crate::hex_text::hex_decoded;
use vstd::prelude::*;
use vstd::slice::slice_to_vec;
use vstd::string::StrSliceExecFns;

verus! {

/// The node to talk to, the account that receives the transactions, and
/// the key that signs them.
#[derive(Debug)]
pub struct Config {
    pub url: String,
    pub to: String,
    pub sk: String,
}

/// The ledger backend. A payload travels as the data of a transaction; the
/// handle is the transaction's hash.
pub struct EthereumService {
    url: String,
    to: Vec<u8>,
    key: Vec<u8>,
}

/// Width in bytes of an account's address.
pub const ADDRESS_SIZE: usize = 20;

/// Width in bytes of a signing key.
pub const KEY_SIZE: usize = 32;

/// Text without a leading `0x`, if it has one.
pub open spec fn without_0x(text: Seq<char>) -> Seq<char> {
    if text.len() >= 2 && text[0] == '0' && text[1] == 'x' {
        text.skip(2)
    } else {
        text
    }
}

/// The bytes that hexadecimal text of a given width stands for, with or
/// without a leading `0x`; nothing for other text or another width.
pub open spec fn fixed_hex(text: Seq<char>, width: nat) -> Option<Seq<u8>> {
    match hex_decoded(without_0x(text)) {
        Some(bytes) => if bytes.len() == width {
            Some(bytes)
        } else {
            None
        },
        None => None,
    }
}

/// The hash of the transaction that a handle names; a handle of another
/// width names none.
pub open spec fn handle_hash(handle: Seq<u8>) -> Option<Seq<u8>> {
    if handle.len() == HASH_SIZE {
        Some(handle)
    } else {
        None
    }
}

/// Drops a leading `0x`.
fn strip_0x(text: &str) -> (rest: &str)
    ensures
        rest@ == without_0x(text@),
{
    let n = text.unicode_len();
    if n >= 2 && text.get_char(0) == '0' && text.get_char(1) == 'x' {
        let rest = text.substring_char(2, n);
        assert(rest@ =~= text@.skip(2));
        rest
    } else {
        text
    }
}

/// Reads hexadecimal text of a given width in bytes.
fn read_fixed_hex(text: &str, width: usize) -> (r: Option<Vec<u8>>)
    ensures
        match r {
            Some(bytes) => fixed_hex(text@, width as nat) == Some(bytes@),
            None => fixed_hex(text@, width as nat) is None,
        },
{
    match from_hex(strip_0x(text)) {
        Some(bytes) => if bytes.len() == width {
            Some(bytes)
        } else {
            None
        },
        None => None,
    }
}

impl EthereumService {
    /// The address of the node.
    pub closed spec fn endpoint(&self) -> Seq<char> {
        self.url@
    }

    /// The account that receives the transactions.
    pub closed spec fn recipient(&self) -> Seq<u8> {
        self.to@
    }

    /// The key that signs the transactions.
    pub closed spec fn signing_key(&self) -> Seq<u8> {
        self.key@
    }

    /// Holds of a configuration whose recipient is hexadecimal text of
    /// twenty bytes and whose key is hexadecimal text of thirty-two, each
    /// with or without a leading `0x`.
    pub open spec fn readable(cfg: Config) -> bool {
        &&& fixed_hex(cfg.to@, ADDRESS_SIZE as nat) is Some
        &&& fixed_hex(cfg.sk@, KEY_SIZE as nat) is Some
    }

    /// Holds where this backend is what `cfg` describes.
    pub open spec fn configured_by(&self, cfg: Config) -> bool {
        &&& self.endpoint() == cfg.url@
        &&& fixed_hex(cfg.to@, ADDRESS_SIZE as nat) == Some(self.recipient())
        &&& fixed_hex(cfg.sk@, KEY_SIZE as nat) == Some(self.signing_key())
    }

    /// Reads the configuration: the recipient must be hexadecimal text of
    /// twenty bytes and the key of thirty-two, each with or without a
    /// leading `0x`. Anything else is a configuration error.
    pub fn new(cfg: Config) -> (r: Result<Self, DaError>)
        ensures
            match r {
                Ok(service) => service.configured_by(cfg) && Self::readable(cfg),
                Err(e) => e == DaError::ConfigurationError && !Self::readable(cfg),
            },
    {
        let to = match read_fixed_hex(cfg.to.as_str(), ADDRESS_SIZE) {
            Some(to) => to,
            None => {
                return Err(DaError::ConfigurationError);
            },
        };
        let key = match read_fixed_hex(cfg.sk.as_str(), KEY_SIZE) {
            Some(key) => key,
            None => {
                return Err(DaError::ConfigurationError);
            },
        };
        Ok(Self { url: cfg.url, to, key })
    }

    /// The address of the node.
    pub fn url(&self) -> (url: &String)
        ensures
            url@ == self.endpoint(),
    {
        &self.url
    }

    /// The account that receives the transactions, twenty bytes.
    pub fn to(&self) -> (to: &Vec<u8>)
        ensures
            to@ == self.recipient(),
    {
        &self.to
    }

    /// The key that signs the transactions, thirty-two bytes.
    pub fn key(&self) -> (key: &Vec<u8>)
        ensures
            key@ == self.signing_key(),
    {
        &self.key
    }

    /// The content hash of a payload.
    pub fn hash(tx: &[u8]) -> (digest: Vec<u8>)
        ensures
            digest@ == keccak256_digest(tx@),
            digest@.len() == HASH_SIZE,
    {
        keccak256(tx)
    }

    /// The tag of the ledger.
    pub fn type_byte(&self) -> (t: u8)
        ensures
            t == DaType::Ethereum.tag(),
    {
        DaType::Ethereum.type_byte()
    }

    /// The hash of the transaction to look up for a handle; `NotFound` for
    /// a handle that is no hash, which is known without asking the node.
    pub fn transaction_hash(handle: &[u8]) -> (r: Result<Vec<u8>, DaError>)
        ensures
            match r {
                Ok(hash) => handle_hash(handle@) == Some(hash@),
                Err(e) => e == DaError::NotFound && handle_hash(handle@) is None,
            },
    {
        if handle.len() == HASH_SIZE {
            Ok(slice_to_vec(handle))
        } else {
            Err(DaError::NotFound)
        }
    }

    /// Judges what looking a transaction up gave: its data is the payload,
    /// and a transaction that is not there is not found.
    pub fn payload(input: Option<Vec<u8>>) -> (r: Result<Vec<u8>, DaError>)
        ensures
            r == match input {
                Some(data) => Ok::<Vec<u8>, DaError>(data),
                None => Err::<Vec<u8>, DaError>(DaError::NotFound),
            },
    {
        match input {
            Some(data) => Ok(data),
            None => Err(DaError::NotFound),
        }
    }
}

} // verus!
