//! The object store backend.

use crate::da_type::DaType;
use crate::error::DaError;
use crate::hashing::keccak256;
use crate::hashing::keccak256_digest;
use crate::hashing::same_bytes;
use crate::hashing::HASH_SIZE;
use crate::hex_text::from_hex;
use crate::hex_text::from_hex_ascii;
use crate::hex_text::hex_ascii;
use crate::hex_text::hex_ascii_decoded;
use crate::hex_text::hex_decoded;
use crate::hex_text::hex_encode;
use crate::hex_text::hex_text;
use crate::hex_text::lemma_hex_ascii_canonical;
use crate::hex_text::lemma_hex_ascii_round_trip;
use crate::hex_text::lemma_hex_round_trip;
use crate::hex_text::to_hex_ascii;
use vstd::prelude::*;
use vstd::string::StringExecFns;

verus! {

/// Where the object store's gateway is and which bucket to use.
#[derive(Debug, Clone)]
pub struct Config {
    pub rpc_addr: String,
    pub chain_id: String,
    pub bucket: String,
    pub private_key_path: String,
    pub gf_sdk_host: String,
}

/// The object store backend: the rules for its keys, its requests and its
/// answers. Objects are named by the hexadecimal text of the content hash,
/// and that text is the handle.
pub struct GreenfieldService {
    rpc_addr: String,
    chain_id: String,
    bucket: String,
    private_key_path: String,
    gf_sdk_host: String,
}

/// The body of a request that creates or fills an object.
#[derive(Debug, Clone)]
pub struct Req {
    pub data: String,
    pub content_type: String,
    pub visibility: i32,
    pub sync: bool,
}

/// The gateway's answer. `code` is zero on success.
#[derive(Debug, Clone)]
pub struct Resp {
    pub data: String,
    pub msg: String,
    pub code: i32,
    pub id: String,
}

/// The request that the gateway awaits next while a payload is stored.
#[derive(Debug, Clone, Copy, PartialEq, Eq, Structural)]
pub enum Stage {
    /// Read the object, to see whether it is there already.
    Probe,
    /// Create the object.
    Create,
    /// Send the object's content.
    Put,
}

/// A payload on its way into the store: the request to make next and what
/// it takes to make it.
pub struct Submission {
    pub stage: Stage,
    pub handle: Vec<u8>,
    pub url: String,
    pub req: Req,
}

/// How a submission goes on once the gateway has answered.
pub enum Progress {
    /// Make the next request.
    Ask(Submission),
    /// Nothing is left to ask.
    Done(Result<Vec<u8>, DaError>),
}

/// The address of an object at the gateway.
pub open spec fn object_url(host: Seq<char>, bucket: Seq<char>, digest: Seq<u8>) -> Seq<char> {
    "http://"@ + host + "/object/"@ + bucket + "/"@ + hex_text(digest)
}

/// The content hash that a handle names, if it names one: a handle is the
/// lower-case hexadecimal text, in ASCII, of a hash of full width.
pub open spec fn handle_digest(handle: Seq<u8>) -> Option<Seq<u8>> {
    match hex_ascii_decoded(handle) {
        Some(digest) => if digest.len() == HASH_SIZE {
            Some(digest)
        } else {
            None
        },
        None => None,
    }
}

/// The one sign that the store holds an object already: the read
/// succeeded and returned the very content that would be sent.
pub open spec fn already_stored(reply: Option<Resp>, content: Seq<char>) -> bool {
    reply matches Some(resp) && resp.code == 0 && resp.data@ == content
}

/// The payload that an answer to a read carries for `handle`.
pub open spec fn fetched_payload(handle: Seq<u8>, reply: Option<Resp>) -> Result<
    Seq<u8>,
    DaError,
> {
    match reply {
        None => Err(DaError::BackendUnavailable),
        Some(resp) => if resp.code != 0 {
            Err(DaError::NotFound)
        } else {
            match hex_decoded(resp.data@) {
                None => Err(DaError::ValidationFailed),
                Some(payload) => if hex_ascii(keccak256_digest(payload)) == handle {
                    Ok(payload)
                } else {
                    Err(DaError::ValidationFailed)
                },
            }
        },
    }
}

impl Submission {
    /// What follows from the gateway's answer to the request of this stage;
    /// `None` stands for no usable answer.
    ///
    /// A probe that does not show the object falls through to creating it,
    /// whatever else it showed. Creating and filling fail with
    /// `BackendUnavailable` on no answer and with `BackendRejected` on a
    /// non-zero code.
    pub open spec fn next(self, reply: Option<Resp>) -> Progress {
        match self.stage {
            Stage::Probe => if already_stored(reply, self.req.data@) {
                Progress::Done(Ok(self.handle))
            } else {
                Progress::Ask(
                    Submission {
                        stage: Stage::Create,
                        handle: self.handle,
                        url: self.url,
                        req: self.req,
                    },
                )
            },
            Stage::Create => match reply {
                None => Progress::Done(Err(DaError::BackendUnavailable)),
                Some(resp) => if resp.code != 0 {
                    Progress::Done(Err(DaError::BackendRejected))
                } else {
                    Progress::Ask(
                        Submission {
                            stage: Stage::Put,
                            handle: self.handle,
                            url: self.url,
                            req: self.req,
                        },
                    )
                },
            },
            Stage::Put => match reply {
                None => Progress::Done(Err(DaError::BackendUnavailable)),
                Some(resp) => if resp.code != 0 {
                    Progress::Done(Err(DaError::BackendRejected))
                } else {
                    Progress::Done(Ok(self.handle))
                },
            },
        }
    }

    /// Takes the gateway's answer to the request of this stage and says
    /// how the submission goes on.
    pub fn advance(self, reply: Option<Resp>) -> (r: Progress)
        ensures
            r == self.next(reply),
    {
        match self.stage {
            Stage::Probe => {
                let found = match &reply {
                    Some(resp) => resp.code == 0 && resp.data == self.req.data,
                    None => false,
                };
                if found {
                    Progress::Done(Ok(self.handle))
                } else {
                    Progress::Ask(
                        Submission {
                            stage: Stage::Create,
                            handle: self.handle,
                            url: self.url,
                            req: self.req,
                        },
                    )
                }
            },
            Stage::Create => match reply {
                None => Progress::Done(Err(DaError::BackendUnavailable)),
                Some(resp) => if resp.code != 0 {
                    Progress::Done(Err(DaError::BackendRejected))
                } else {
                    Progress::Ask(
                        Submission {
                            stage: Stage::Put,
                            handle: self.handle,
                            url: self.url,
                            req: self.req,
                        },
                    )
                },
            },
            Stage::Put => match reply {
                None => Progress::Done(Err(DaError::BackendUnavailable)),
                Some(resp) => if resp.code != 0 {
                    Progress::Done(Err(DaError::BackendRejected))
                } else {
                    Progress::Done(Ok(self.handle))
                },
            },
        }
    }
}

impl GreenfieldService {
    /// Where the gateway listens.
    pub closed spec fn host(&self) -> Seq<char> {
        self.gf_sdk_host@
    }

    /// The bucket that holds the objects.
    pub closed spec fn bucket(&self) -> Seq<char> {
        self.bucket@
    }

    /// The chain's endpoint.
    pub closed spec fn chain_rpc(&self) -> Seq<char> {
        self.rpc_addr@
    }

    /// The chain's name.
    pub closed spec fn chain(&self) -> Seq<char> {
        self.chain_id@
    }

    /// Where the gateway finds its key.
    pub closed spec fn key_path(&self) -> Seq<char> {
        self.private_key_path@
    }

    /// Holds where this backend is what `cfg` describes.
    pub open spec fn configured_by(&self, cfg: Config) -> bool {
        &&& self.host() == cfg.gf_sdk_host@
        &&& self.bucket() == cfg.bucket@
        &&& self.chain_rpc() == cfg.rpc_addr@
        &&& self.chain() == cfg.chain_id@
        &&& self.key_path() == cfg.private_key_path@
    }

    /// Takes the configuration over as it is.
    pub fn new(cfg: Config) -> (service: Self)
        ensures
            service.configured_by(cfg),
    {
        Self {
            rpc_addr: cfg.rpc_addr,
            chain_id: cfg.chain_id,
            bucket: cfg.bucket,
            private_key_path: cfg.private_key_path,
            gf_sdk_host: cfg.gf_sdk_host,
        }
    }

    /// The content hash of a payload.
    pub fn hash(tx: &[u8]) -> (digest: Vec<u8>)
        ensures
            digest@ == keccak256_digest(tx@),
            digest@.len() == HASH_SIZE,
    {
        keccak256(tx)
    }

    /// The tag of the object store.
    pub fn type_byte(&self) -> (t: u8)
        ensures
            t == DaType::Greenfield.tag(),
    {
        DaType::Greenfield.type_byte()
    }

    /// The arguments that the gateway process is started with: the key
    /// file, the address to listen on, and the chain's endpoint and name.
    pub fn gateway_args(&self) -> (args: Vec<String>)
        ensures
            args@.len() == 4,
            args@[0]@ == "-private_key_path="@ + self.key_path(),
            args@[1]@ == "-host="@ + self.host(),
            args@[2]@ == "-chain_rpc="@ + self.chain_rpc(),
            args@[3]@ == "-chain_id="@ + self.chain(),
    {
        let mut args: Vec<String> = Vec::new();
        args.push(String::from_str("-private_key_path=").concat(self.private_key_path.as_str()));
        args.push(String::from_str("-host=").concat(self.gf_sdk_host.as_str()));
        args.push(String::from_str("-chain_rpc=").concat(self.rpc_addr.as_str()));
        args.push(String::from_str("-chain_id=").concat(self.chain_id.as_str()));
        args
    }

    /// The address of the object named by a content hash.
    fn url_of(&self, digest: &[u8]) -> (url: String)
        ensures
            url@ == object_url(self.host(), self.bucket(), digest@),
    {
        let key = hex_encode(digest);
        let url = String::from_str("http://");
        let url = url.concat(self.gf_sdk_host.as_str());
        let url = url.concat("/object/");
        let url = url.concat(self.bucket.as_str());
        let url = url.concat("/");
        url.concat(key.as_str())
    }

    /// Starts storing a payload: the handle it will have, the address of
    /// its object, and the request body, with the probe as first request.
    /// The handle depends on the payload alone.
    pub fn begin_submit(&self, tx: &[u8]) -> (sub: Submission)
        ensures
            sub.stage == Stage::Probe,
            sub.handle@ == hex_ascii(keccak256_digest(tx@)),
            handle_digest(sub.handle@) == Some(keccak256_digest(tx@)),
            sub.url@ == object_url(self.host(), self.bucket(), keccak256_digest(tx@)),
            sub.req.data@ == hex_text(tx@),
            sub.req.content_type@ == "text/plain"@,
            sub.req.visibility == 1,
            sub.req.sync,
    {
        let digest = keccak256(tx);
        let handle = to_hex_ascii(digest.as_slice());
        proof {
            lemma_hex_ascii_round_trip(digest@);
        }
        let url = self.url_of(digest.as_slice());
        let req = Req {
            data: hex_encode(tx),
            content_type: String::from_str("text/plain"),
            visibility: 1,
            sync: true,
        };
        Submission { stage: Stage::Probe, handle, url, req }
    }

    /// The address to read for a handle; `NotFound` for a handle that names
    /// no object, which is known without asking the gateway.
    pub fn fetch_url(&self, handle: &[u8]) -> (r: Result<String, DaError>)
        ensures
            match r {
                Ok(url) => handle_digest(handle@) matches Some(digest) && url@ == object_url(
                    self.host(),
                    self.bucket(),
                    digest,
                ),
                Err(e) => e == DaError::NotFound && handle_digest(handle@) is None,
            },
    {
        match from_hex_ascii(handle) {
            Some(digest) => if digest.len() == HASH_SIZE {
                Ok(self.url_of(digest.as_slice()))
            } else {
                Err(DaError::NotFound)
            },
            None => Err(DaError::NotFound),
        }
    }

    /// Judges the answer to reading a handle's object; `None` stands for
    /// no usable answer. The content must be hexadecimal text of a payload
    /// whose hash is the one the handle names.
    pub fn payload(handle: &[u8], reply: Option<Resp>) -> (r: Result<Vec<u8>, DaError>)
        ensures
            match r {
                Ok(payload) => fetched_payload(handle@, reply) == Ok::<Seq<u8>, DaError>(payload@),
                Err(e) => fetched_payload(handle@, reply) == Err::<Seq<u8>, DaError>(e),
            },
    {
        let resp = match reply {
            Some(resp) => resp,
            None => {
                return Err(DaError::BackendUnavailable);
            },
        };
        if resp.code != 0 {
            return Err(DaError::NotFound);
        }
        let payload = match from_hex(resp.data.as_str()) {
            Some(payload) => payload,
            None => {
                return Err(DaError::ValidationFailed);
            },
        };
        let digest = keccak256(payload.as_slice());
        let expected = to_hex_ascii(digest.as_slice());
        if same_bytes(expected.as_slice(), handle) {
            Ok(payload)
        } else {
            Err(DaError::ValidationFailed)
        }
    }
}

/// Whatever the gateway answers, a stored payload has the one handle that
/// its bytes give it, every failure is one that storing may report, and
/// the stages follow each other without a way back.
pub proof fn lemma_submission_steps(sub: Submission, reply: Option<Resp>)
    ensures
        match sub.next(reply) {
            Progress::Done(Ok(handle)) => handle == sub.handle && sub.stage != Stage::Create,
            Progress::Done(Err(e)) => e.is_store_failure() && sub.stage != Stage::Probe,
            Progress::Ask(then) => {
                &&& then.handle == sub.handle
                &&& then.url == sub.url
                &&& then.req == sub.req
                &&& sub.stage == Stage::Probe ==> then.stage == Stage::Create
                &&& sub.stage == Stage::Create ==> then.stage == Stage::Put
                &&& sub.stage != Stage::Put
            },
        },
{
}

/// A submission that starts with the probe is done after three answers at
/// the most, whatever they are.
pub proof fn lemma_submission_ends(
    sub: Submission,
    first: Option<Resp>,
    second: Option<Resp>,
    third: Option<Resp>,
)
    requires
        sub.stage == Stage::Probe,
    ensures
        match sub.next(first) {
            Progress::Done(_) => true,
            Progress::Ask(created) => match created.next(second) {
                Progress::Done(_) => true,
                Progress::Ask(filled) => filled.next(third) is Done,
            },
        },
{
}

/// The object that storing a payload fills is read back as that payload
/// under the handle that storing returned.
pub proof fn lemma_stored_payload_comes_back(payload: Seq<u8>, reply: Resp)
    requires
        reply.code == 0,
        reply.data@ == hex_text(payload),
    ensures
        fetched_payload(hex_ascii(keccak256_digest(payload)), Some(reply)) == Ok::<
            Seq<u8>,
            DaError,
        >(payload),
{
    lemma_hex_round_trip(payload);
}

/// A handle names at most one hash, and the handle of a hash names it.
pub proof fn lemma_handle_names_one_digest(handle: Seq<u8>, digest: Seq<u8>)
    ensures
        handle_digest(handle) == Some(digest) ==> handle == hex_ascii(digest),
        digest.len() == HASH_SIZE ==> handle_digest(hex_ascii(digest)) == Some(digest),
{
    if handle_digest(handle) == Some(digest) {
        lemma_hex_ascii_canonical(handle);
    }
    lemma_hex_ascii_round_trip(digest);
}

} // verus!
