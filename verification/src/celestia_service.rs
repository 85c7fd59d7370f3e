//! The data-availability chain backend.

use crate::da_type::DaType;
use crate::error::DaError;
use crate::hashing::keccak256;
use crate::hashing::keccak256_digest;
use crate::hashing::same_bytes;
use crate::hashing::HASH_SIZE;
use crate::hex_text::from_hex;
use crate::hex_text::hex_decoded;
use celestia_types::nmt::Namespace;
use celestia_types::Blob;
use vstd::prelude::*;
use vstd::slice::slice_subrange;
use vstd::slice::slice_to_vec;

verus! {

/// The node to talk to, the token that opens it, and the namespace as
/// hexadecimal text.
#[derive(Debug)]
pub struct Config {
    pub url: String,
    pub token: String,
    pub id: String,
}

/// The data-availability chain backend. A payload is a blob in the
/// configured namespace; the handle is the blob's commitment followed by
/// the height of the block that holds it, as eight bytes, high byte first.
pub struct CelestiaService {
    url: String,
    token: String,
    namespace: [u8; 10],
}

/// Width in bytes of a namespace's own part.
pub const NAMESPACE_SIZE: usize = 10;

/// Width in bytes of a block height within a handle.
pub const HEIGHT_SIZE: usize = 8;

/// Width in bytes of a handle.
pub const HANDLE_SIZE: usize = 40;

/// The commitment of the blob that holds `data` in the namespace, as the
/// `celestia-types` crate computes it, where it computes one.
pub uninterp spec fn blob_commitment(namespace: Seq<u8>, data: Seq<u8>) -> Option<Seq<u8>>;

/// The error of `celestia-types`, carried through and never looked into.
#[verifier::external_type_specification]
#[verifier::external_body]
pub struct ExCelestiaError(celestia_types::Error);

/// Calls `celestia_types::Blob::new` for an unsigned blob in the version-0
/// namespace that `Namespace::const_v0` makes of the ten bytes, and takes
/// the hash of the blob's commitment. Trusted: whether a blob comes of it,
/// and with which commitment, is decided by the namespace and the data
/// alone; the hash is 32 bytes long.
#[verifier::external_body]
fn commit(namespace: &[u8; 10], data: &[u8]) -> (r: Result<Vec<u8>, celestia_types::Error>)
    ensures
        match r {
            Ok(commitment) => blob_commitment(namespace@, data@) == Some(commitment@)
                && commitment@.len() == HASH_SIZE,
            Err(_) => blob_commitment(namespace@, data@) is None,
        },
{
    let blob = Blob::new(Namespace::const_v0(*namespace), data.to_vec(), None)?;
    Ok(blob.commitment.hash().to_vec())
}

/// The eight bytes of a height, high byte first.
pub open spec fn be_bytes(height: u64) -> Seq<u8> {
    let h6 = height / 0x100;
    let h5 = h6 / 0x100;
    let h4 = h5 / 0x100;
    let h3 = h4 / 0x100;
    let h2 = h3 / 0x100;
    let h1 = h2 / 0x100;
    let h0 = h1 / 0x100;
    seq![
        h0 as u8,
        (h1 % 0x100) as u8,
        (h2 % 0x100) as u8,
        (h3 % 0x100) as u8,
        (h4 % 0x100) as u8,
        (h5 % 0x100) as u8,
        (h6 % 0x100) as u8,
        (height % 0x100) as u8,
    ]
}

/// The height that eight bytes stand for, high byte first.
pub open spec fn be_value(bytes: Seq<u8>) -> int {
    ((((((bytes[0] * 0x100 + bytes[1]) * 0x100 + bytes[2]) * 0x100 + bytes[3]) * 0x100 + bytes[4])
        * 0x100 + bytes[5]) * 0x100 + bytes[6]) * 0x100 + bytes[7]
}

/// The handle of the blob with a commitment in the block at a height.
pub open spec fn handle_of(commitment: Seq<u8>, height: u64) -> Seq<u8> {
    commitment + be_bytes(height)
}

/// The commitment and height that a handle holds; a handle shorter than
/// forty bytes holds none, and bytes beyond forty are not read.
pub open spec fn handle_parts(handle: Seq<u8>) -> Option<(Seq<u8>, u64)> {
    if handle.len() < HANDLE_SIZE {
        None
    } else {
        Some(
            (
                handle.subrange(0, HASH_SIZE as int),
                be_value(handle.subrange(HASH_SIZE as int, HANDLE_SIZE as int)) as u64,
            ),
        )
    }
}

/// Writes a height as eight bytes, high byte first.
fn write_height(height: u64) -> (bytes: Vec<u8>)
    ensures
        bytes@ == be_bytes(height),
{
    let h6: u64 = height / 0x100;
    let h5: u64 = h6 / 0x100;
    let h4: u64 = h5 / 0x100;
    let h3: u64 = h4 / 0x100;
    let h2: u64 = h3 / 0x100;
    let h1: u64 = h2 / 0x100;
    let h0: u64 = h1 / 0x100;
    let mut bytes: Vec<u8> = Vec::new();
    bytes.push(h0 as u8);
    bytes.push((h1 % 0x100) as u8);
    bytes.push((h2 % 0x100) as u8);
    bytes.push((h3 % 0x100) as u8);
    bytes.push((h4 % 0x100) as u8);
    bytes.push((h5 % 0x100) as u8);
    bytes.push((h6 % 0x100) as u8);
    bytes.push((height % 0x100) as u8);
    assert(bytes@ =~= be_bytes(height));
    bytes
}

/// Reads a height from eight bytes, high byte first.
fn read_height(bytes: &[u8]) -> (height: u64)
    requires
        bytes@.len() == HEIGHT_SIZE,
    ensures
        height == be_value(bytes@),
{
    let h1: u64 = bytes[0] as u64 * 0x100 + bytes[1] as u64;
    let h2: u64 = h1 * 0x100 + bytes[2] as u64;
    let h3: u64 = h2 * 0x100 + bytes[3] as u64;
    let h4: u64 = h3 * 0x100 + bytes[4] as u64;
    let h5: u64 = h4 * 0x100 + bytes[5] as u64;
    let h6: u64 = h5 * 0x100 + bytes[6] as u64;
    h6 * 0x100 + bytes[7] as u64
}

impl CelestiaService {
    /// The address of the node.
    pub closed spec fn endpoint(&self) -> Seq<char> {
        self.url@
    }

    /// The token that opens the node.
    pub closed spec fn auth(&self) -> Seq<char> {
        self.token@
    }

    /// The namespace's own part, ten bytes.
    pub closed spec fn namespace_id(&self) -> Seq<u8> {
        self.namespace@
    }

    /// The payload that a fetched blob carries for a commitment: the data,
    /// where the commitment is the one this namespace gives that data.
    pub open spec fn checked_payload(&self, commitment: Seq<u8>, data: Seq<u8>) -> Result<
        Seq<u8>,
        DaError,
    > {
        if blob_commitment(self.namespace_id(), data) == Some(commitment) {
            Ok(data)
        } else {
            Err(DaError::ValidationFailed)
        }
    }

    /// Holds of a configuration whose namespace is hexadecimal text of ten
    /// bytes.
    pub open spec fn readable(cfg: Config) -> bool {
        hex_decoded(cfg.id@) matches Some(id) && id.len() == NAMESPACE_SIZE
    }

    /// Holds where this backend is what `cfg` describes.
    pub open spec fn configured_by(&self, cfg: Config) -> bool {
        &&& self.endpoint() == cfg.url@
        &&& self.auth() == cfg.token@
        &&& hex_decoded(cfg.id@) == Some(self.namespace_id())
        &&& self.namespace_id().len() == NAMESPACE_SIZE
    }

    /// Reads the configuration: the namespace must be hexadecimal text of
    /// ten bytes. Anything else is a configuration error.
    pub fn new(cfg: Config) -> (r: Result<Self, DaError>)
        ensures
            match r {
                Ok(service) => service.configured_by(cfg) && Self::readable(cfg),
                Err(e) => e == DaError::ConfigurationError && !Self::readable(cfg),
            },
    {
        let id = match from_hex(cfg.id.as_str()) {
            Some(id) => id,
            None => {
                return Err(DaError::ConfigurationError);
            },
        };
        if id.len() != NAMESPACE_SIZE {
            return Err(DaError::ConfigurationError);
        }
        let namespace: [u8; 10] = [
            id[0],
            id[1],
            id[2],
            id[3],
            id[4],
            id[5],
            id[6],
            id[7],
            id[8],
            id[9],
        ];
        assert(namespace@ =~= id@);
        Ok(Self { url: cfg.url, token: cfg.token, namespace })
    }

    /// The address of the node.
    pub fn url(&self) -> (url: &String)
        ensures
            url@ == self.endpoint(),
    {
        &self.url
    }

    /// The token that opens the node.
    pub fn token(&self) -> (token: &String)
        ensures
            token@ == self.auth(),
    {
        &self.token
    }

    /// The namespace's own part.
    pub fn namespace(&self) -> (id: &[u8; 10])
        ensures
            id@ == self.namespace_id(),
    {
        &self.namespace
    }

    /// The content hash of a payload.
    pub fn hash(tx: &[u8]) -> (digest: Vec<u8>)
        ensures
            digest@ == keccak256_digest(tx@),
            digest@.len() == HASH_SIZE,
    {
        keccak256(tx)
    }

    /// The tag of the data-availability chain.
    pub fn type_byte(&self) -> (t: u8)
        ensures
            t == DaType::Celestia.tag(),
    {
        DaType::Celestia.type_byte()
    }

    /// The commitment of the blob that will hold a payload. A payload that
    /// no blob can hold cannot be put in the chain's wire form.
    pub fn commitment(&self, tx: &[u8]) -> (r: Result<Vec<u8>, DaError>)
        ensures
            match r {
                Ok(commitment) => blob_commitment(self.namespace_id(), tx@) == Some(commitment@)
                    && commitment@.len() == HASH_SIZE,
                Err(e) => e == DaError::EncodingError && blob_commitment(self.namespace_id(), tx@)
                    is None,
            },
    {
        match commit(&self.namespace, tx) {
            Ok(commitment) => Ok(commitment),
            Err(_) => Err(DaError::EncodingError),
        }
    }

    /// The handle of a blob: its commitment, then the height of its block.
    pub fn handle(commitment: &[u8], height: u64) -> (handle: Vec<u8>)
        ensures
            handle@ == handle_of(commitment@, height),
    {
        let mut handle = slice_to_vec(commitment);
        let mut tail = write_height(height);
        handle.append(&mut tail);
        handle
    }

    /// Splits a handle into commitment and height; `NotFound` for a handle
    /// too short to hold both, which is known without asking the node.
    pub fn parse_handle(handle: &[u8]) -> (r: Result<(Vec<u8>, u64), DaError>)
        ensures
            match r {
                Ok((commitment, height)) => handle_parts(handle@) == Some((commitment@, height)),
                Err(e) => e == DaError::NotFound && handle_parts(handle@) is None,
            },
    {
        if handle.len() < HANDLE_SIZE {
            return Err(DaError::NotFound);
        }
        let commitment = slice_to_vec(slice_subrange(handle, 0, HASH_SIZE));
        let height = read_height(slice_subrange(handle, HASH_SIZE, HANDLE_SIZE));
        Ok((commitment, height))
    }

    /// Judges a fetched blob: its data is the payload where the commitment
    /// asked for is the one this namespace gives that data, else the blob
    /// fails validation and none of it is handed on.
    pub fn payload(&self, commitment: &[u8], data: Vec<u8>) -> (r: Result<Vec<u8>, DaError>)
        ensures
            match r {
                Ok(payload) => self.checked_payload(commitment@, data@) == Ok::<Seq<u8>, DaError>(
                    payload@,
                ),
                Err(e) => self.checked_payload(commitment@, data@) == Err::<Seq<u8>, DaError>(e),
            },
    {
        match commit(&self.namespace, data.as_slice()) {
            Ok(computed) => if same_bytes(computed.as_slice(), commitment) {
                Ok(data)
            } else {
                Err(DaError::ValidationFailed)
            },
            Err(_) => Err(DaError::ValidationFailed),
        }
    }
}

/// Reading the eight bytes of a height gives the height back.
pub proof fn lemma_height_round_trip(height: u64)
    ensures
        be_bytes(height).len() == HEIGHT_SIZE,
        be_value(be_bytes(height)) == height,
{
}

/// A blob whose data is a payload and whose commitment is the one stored
/// in the payload's handle passes validation as that payload.
pub proof fn lemma_blob_comes_back(service: CelestiaService, payload: Seq<u8>, commitment: Seq<u8>)
    requires
        blob_commitment(service.namespace_id(), payload) == Some(commitment),
    ensures
        service.checked_payload(commitment, payload) == Ok::<Seq<u8>, DaError>(payload),
{
}

/// A handle made of a commitment of full width and a height splits into
/// that commitment and that height.
pub proof fn lemma_handle_round_trip(commitment: Seq<u8>, height: u64)
    requires
        commitment.len() == HASH_SIZE,
    ensures
        handle_of(commitment, height).len() == HANDLE_SIZE,
        handle_parts(handle_of(commitment, height)) == Some((commitment, height)),
{
    let handle = handle_of(commitment, height);
    lemma_height_round_trip(height);
    assert(handle.subrange(0, HASH_SIZE as int) =~= commitment);
    assert(handle.subrange(HASH_SIZE as int, HANDLE_SIZE as int) =~= be_bytes(height));
}

} // verus!
