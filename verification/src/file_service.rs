//! The local file backend.

use crate::da_type::DaType;
use crate::error::DaError;
use crate::hashing::keccak256;
use crate::hashing::keccak256_digest;
use crate::hashing::same_bytes;
use crate::hashing::HASH_SIZE;
use crate::hex_text::from_hex;
use crate::hex_text::hex_decoded;
use crate::hex_text::hex_encode;
use crate::hex_text::hex_text;
use crate::hex_text::lemma_hex_round_trip;
use vstd::prelude::*;

verus! {

/// The directory that holds the files.
#[derive(Debug)]
pub struct Config {
    pub path: String,
}

/// The local file backend: one file for each payload, named by the
/// hexadecimal text of the payload's content hash and holding the payload
/// as hexadecimal text. The handle is the hash itself.
pub struct FileService {
    path: String,
}

/// What storing a payload writes, and the handle it gives.
pub struct StoredFile {
    pub handle: Vec<u8>,
    pub name: String,
    pub content: String,
}

/// The payload that a file's content carries for `handle`; `None` stands
/// for a file that is not there.
pub open spec fn stored_payload(handle: Seq<u8>, content: Option<Seq<char>>) -> Result<
    Seq<u8>,
    DaError,
> {
    match content {
        None => Err(DaError::NotFound),
        Some(text) => match hex_decoded(text) {
            None => Err(DaError::ValidationFailed),
            Some(payload) => if keccak256_digest(payload) == handle {
                Ok(payload)
            } else {
                Err(DaError::ValidationFailed)
            },
        },
    }
}

impl FileService {
    /// The directory that holds the files.
    pub closed spec fn root(&self) -> Seq<char> {
        self.path@
    }

    /// A backend over the configured directory.
    pub fn new(cfg: Config) -> (service: Self)
        ensures
            service.root() == cfg.path@,
    {
        Self { path: cfg.path }
    }

    /// The directory that holds the files.
    pub fn path(&self) -> (path: &String)
        ensures
            path@ == self.root(),
    {
        &self.path
    }

    /// The content hash of a payload.
    pub fn hash(tx: &[u8]) -> (digest: Vec<u8>)
        ensures
            digest@ == keccak256_digest(tx@),
            digest@.len() == HASH_SIZE,
    {
        keccak256(tx)
    }

    /// The tag of the local file backend.
    pub fn type_byte(&self) -> (t: u8)
        ensures
            t == DaType::File.tag(),
    {
        DaType::File.type_byte()
    }

    /// The name, within the directory, of the file that a handle names.
    pub fn file_name(handle: &[u8]) -> (name: String)
        ensures
            name@ == hex_text(handle@),
    {
        hex_encode(handle)
    }

    /// The file that storing a payload writes: its handle is the payload's
    /// content hash, its name the handle's, its content the payload.
    pub fn file_for(tx: &[u8]) -> (file: StoredFile)
        ensures
            file.handle@ == keccak256_digest(tx@),
            file.handle@.len() == HASH_SIZE,
            file.name@ == hex_text(file.handle@),
            file.content@ == hex_text(tx@),
    {
        let handle = keccak256(tx);
        let name = hex_encode(handle.as_slice());
        let content = hex_encode(tx);
        StoredFile { handle, name, content }
    }

    /// Judges what reading a handle's file gave; `None` stands for a file
    /// that is not there. The content must be hexadecimal text of a
    /// payload whose content hash is the handle.
    pub fn payload(handle: &[u8], content: Option<&str>) -> (r: Result<Vec<u8>, DaError>)
        ensures
            match r {
                Ok(payload) => stored_payload(
                    handle@,
                    match content {
                        Some(text) => Some(text@),
                        None => None,
                    },
                ) == Ok::<Seq<u8>, DaError>(payload@),
                Err(e) => stored_payload(
                    handle@,
                    match content {
                        Some(text) => Some(text@),
                        None => None,
                    },
                ) == Err::<Seq<u8>, DaError>(e),
            },
    {
        let text = match content {
            Some(text) => text,
            None => {
                return Err(DaError::NotFound);
            },
        };
        let payload = match from_hex(text) {
            Some(payload) => payload,
            None => {
                return Err(DaError::ValidationFailed);
            },
        };
        let digest = keccak256(payload.as_slice());
        if same_bytes(digest.as_slice(), handle) {
            Ok(payload)
        } else {
            Err(DaError::ValidationFailed)
        }
    }
}

/// The file that storing a payload writes is read back as that payload
/// under the handle that storing returned, and a handle without a file
/// is not found.
pub proof fn lemma_stored_file_comes_back(payload: Seq<u8>, handle: Seq<u8>)
    ensures
        stored_payload(keccak256_digest(payload), Some(hex_text(payload))) == Ok::<
            Seq<u8>,
            DaError,
        >(payload),
        stored_payload(handle, None) == Err::<Seq<u8>, DaError>(DaError::NotFound),
{
    lemma_hex_round_trip(payload);
}

} // verus!
