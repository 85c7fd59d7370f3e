//! What a backend can do, and the manager that holds the backends by tag.

use crate::address::decode;
use crate::address::decode_spec;
use crate::address::encode;
use crate::address::encode_spec;
use crate::address::lemma_decode_encode;
use crate::celestia_service::CelestiaService;
use crate::celestia_service::Config as CelestiaConfig;
use crate::da_type::DaType;
use crate::error::DaError;
use crate::ethereum_service::Config as EthereumConfig;
use crate::ethereum_service::EthereumService;
use crate::file_service::Config as FileConfig;
use crate::file_service::FileService;
use crate::greenfield_service::Config as GreenfieldConfig;
use crate::greenfield_service::GreenfieldService;
use crate::hashing::keccak256_digest;
use crate::ipfs_service::Config as IpfsConfig;
use crate::ipfs_service::IpfsService;
use crate::order::lemma_keys_rise;
use std::collections::BTreeMap;
use vstd::prelude::*;
use vstd::std_specs::btree::spec_keys_iter;
use vstd::std_specs::iter::IteratorSpec;

verus! {

broadcast use vstd::std_specs::btree::group_btree_axioms;

/// What a call handed back, with byte vectors seen as sequences.
pub open spec fn outcome(r: Result<Vec<u8>, DaError>) -> Result<Seq<u8>, DaError> {
    match r {
        Ok(bytes) => Ok(bytes@),
        Err(e) => Err(e),
    }
}

/// What storing gives the caller once the backend has answered: the handle
/// behind the tag, or the backend's failure unchanged.
pub open spec fn sealed(tag: u8, stored: Result<Seq<u8>, DaError>) -> Result<Seq<u8>, DaError> {
    match stored {
        Ok(handle) => Ok(encode_spec(tag, handle)),
        Err(e) => Err(e),
    }
}

/// Turns the answer of a backend's store into the answer to the caller:
/// a handle becomes the address under `tag`, a failure stays what it is.
pub fn seal(tag: u8, stored: Result<Vec<u8>, DaError>) -> (r: Result<Vec<u8>, DaError>)
    ensures
        outcome(r) == sealed(tag, outcome(stored)),
{
    match stored {
        Ok(handle) => Ok(encode(tag, handle.as_slice())),
        Err(e) => Err(e),
    }
}

/// What one backend can do: hash, store, fetch, and name its tag.
///
/// All four are up to the backend, and storing and fetching reach outside
/// the process, so what comes back is not a function of the arguments.
/// Each has a relation, `hashes`, `stores`, `fetches` and `reports`, that
/// holds of the arguments and of every outcome the backend may give for
/// them. A backend that says nothing of a relation admits every outcome.
///
/// Two things are asked of every backend beyond that: it fails only in
/// the kinds named at each method, and its content hash is the Keccak-256
/// digest. Nothing holds a backend written outside this crate to these
/// clauses; the manager's own contracts rest on them.
pub trait DAService: Sync + Send {
    /// Holds where this backend may name `tag` as its own.
    open spec fn reports(&self, tag: u8) -> bool {
        true
    }

    /// Holds where hashing `payload` may end in `hashed`.
    open spec fn hashes(&self, payload: Seq<u8>, hashed: Result<Seq<u8>, DaError>) -> bool {
        true
    }

    /// Holds where storing `payload` may end in `stored`.
    open spec fn stores(&self, payload: Seq<u8>, stored: Result<Seq<u8>, DaError>) -> bool {
        true
    }

    /// Holds where fetching `handle` may end in `fetched`.
    open spec fn fetches(&self, handle: Seq<u8>, fetched: Result<Seq<u8>, DaError>) -> bool {
        true
    }

    /// Stores the payload and returns the handle under which this backend
    /// will find it again. It fails as unavailable, as refusing, or over a
    /// payload that it cannot put in its wire form.
    fn set_full_tx(&self, tx: &[u8]) -> (r: Result<Vec<u8>, DaError>)
        ensures
            self.stores(tx@, outcome(r)),
            r matches Err(e) ==> e.is_store_failure(),
    ;

    /// Fetches the payload stored under a handle of this backend. It fails
    /// as unavailable, over a handle it does not know, or over data that
    /// does not pass its integrity check.
    fn get_tx(&self, hash: &[u8]) -> (r: Result<Vec<u8>, DaError>)
        ensures
            self.fetches(hash@, outcome(r)),
            r matches Err(e) ==> e.is_fetch_failure(),
    ;

    /// The tag byte of this backend.
    fn type_byte(&self) -> (t: u8)
        ensures
            self.reports(t),
    ;

    /// The content hash of a payload, the same for every backend: where one
    /// comes back, it is the Keccak-256 digest of the payload's bytes.
    fn hash(&self, tx: &[u8]) -> (r: Result<Vec<u8>, DaError>)
        ensures
            self.hashes(tx@, outcome(r)),
            r matches Ok(digest) ==> digest@ == keccak256_digest(tx@),
    ;

    /// Stores the payload and returns its address: this backend's tag, then
    /// the handle.
    fn set_tx(&self, tx: &[u8]) -> (r: Result<Vec<u8>, DaError>)
        ensures
            exists|tag: u8, stored: Result<Seq<u8>, DaError>|
                self.reports(tag) && #[trigger] self.stores(tx@, stored) && outcome(r)
                    == #[trigger] sealed(tag, stored),
            r matches Err(e) ==> e.is_store_failure(),
    {
        let stored = self.set_full_tx(tx);
        let tag = self.type_byte();
        seal(tag, stored)
    }
}

/// A backend together with the tag it named when it was taken in. The
/// backend is asked for its tag that once and never again.
pub struct Adapter {
    tag: u8,
    service: Box<dyn DAService>,
}

impl Adapter {
    /// The tag that the backend named.
    pub closed spec fn tag(&self) -> u8 {
        self.tag
    }

    /// Holds where the tag kept here is one that the backend may name.
    pub closed spec fn self_reported(&self) -> bool {
        self.service.reports(self.tag)
    }

    /// Holds where the backend may end hashing `payload` in `hashed`.
    pub closed spec fn hashes(&self, payload: Seq<u8>, hashed: Result<Seq<u8>, DaError>) -> bool {
        self.service.hashes(payload, hashed)
    }

    /// Holds where the backend may end storing `payload` in `stored`.
    pub closed spec fn stores(&self, payload: Seq<u8>, stored: Result<Seq<u8>, DaError>) -> bool {
        self.service.stores(payload, stored)
    }

    /// Holds where the backend may end fetching `handle` in `fetched`.
    pub closed spec fn fetches(&self, handle: Seq<u8>, fetched: Result<Seq<u8>, DaError>) -> bool {
        self.service.fetches(handle, fetched)
    }

    /// Takes a backend in and asks it for its tag.
    pub fn new(service: Box<dyn DAService>) -> (adapter: Adapter)
        ensures
            adapter.self_reported(),
    {
        let mut adapter = Adapter { tag: 0, service };
        let tag = adapter.service.type_byte();
        adapter.tag = tag;
        adapter
    }

    /// The tag that the backend named.
    pub fn type_byte(&self) -> (t: u8)
        ensures
            t == self.tag(),
    {
        self.tag
    }
}

/// The backends that a configuration asks for, each with its rules read
/// from its own part of the configuration and not yet connected to
/// anything.
pub struct Configured {
    pub file: Option<FileService>,
    pub ipfs: Option<IpfsService>,
    pub celestia: Option<CelestiaService>,
    pub greenfield: Option<GreenfieldService>,
    pub ethereum: Option<EthereumService>,
}

/// The backends in use, each under its tag, and the tag of the one that
/// stores. Nothing changes after construction.
pub struct DAServiceManager {
    services: BTreeMap<u8, Adapter>,
    default: u8,
}

/// The tags of the first `n` of `services`.
pub open spec fn tags_among(services: Seq<Adapter>, n: int) -> Set<u8> {
    Set::new(|t: u8| exists|i: int| 0 <= i < n && #[trigger] services[i].tag() == t)
}

/// No two of `services` have the same tag.
pub open spec fn tags_unique(services: Seq<Adapter>) -> bool {
    forall|i: int, j: int|
        0 <= i < j < services.len() ==> #[trigger] services[i].tag() != #[trigger] services[j].tag()
}

/// Holds where the backend gives `payload` back for every handle under
/// which it accepted it.
pub open spec fn keeps(adapter: Adapter, payload: Seq<u8>) -> bool {
    forall|handle: Seq<u8>, fetched: Result<Seq<u8>, DaError>|
        adapter.stores(payload, Ok(handle)) && #[trigger] adapter.fetches(handle, fetched)
            ==> fetched == Ok::<Seq<u8>, DaError>(payload)
}

impl DAServiceManager {
    #[verifier::type_invariant]
    spec fn inv(&self) -> bool {
        self.well_formed()
    }

    /// The default tag is registered, and every backend stands under its
    /// own tag. Holds of every manager that `new` returned.
    pub closed spec fn well_formed(&self) -> bool {
        &&& self.services@.contains_key(self.default)
        &&& forall|t: u8| #[trigger] self.services@.contains_key(t) ==> self.services@[t].tag() == t
    }

    /// The registered backends by tag.
    pub closed spec fn registry(&self) -> Map<u8, Adapter> {
        self.services@
    }

    /// The tag of the backend that stores.
    pub closed spec fn default_tag(&self) -> u8 {
        self.default
    }

    /// Holds of an address and every outcome that resolving it may have:
    /// the empty address is malformed, a tag that is not registered is
    /// unsupported, and anything else is up to the backend under the tag,
    /// which is handed what follows the tag.
    pub open spec fn resolves(&self, address: Seq<u8>, fetched: Result<Seq<u8>, DaError>) -> bool {
        match decode_spec(address) {
            Err(e) => fetched == Err::<Seq<u8>, DaError>(e),
            Ok((tag, handle)) => if self.registry().contains_key(tag) {
                self.registry()[tag].fetches(handle, fetched)
            } else {
                fetched == Err::<Seq<u8>, DaError>(DaError::UnsupportedBackend)
            },
        }
    }

    /// Holds of a payload and every outcome that submitting it may have:
    /// what the default backend made of the payload, with a handle sealed
    /// behind the default tag.
    pub open spec fn submits(&self, payload: Seq<u8>, submitted: Result<Seq<u8>, DaError>) -> bool {
        exists|stored: Result<Seq<u8>, DaError>| #[trigger]
            self.registry()[self.default_tag()].stores(payload, stored) && submitted == sealed(
                self.default_tag(),
                stored,
            )
    }

    /// Tells whether the backend of kind `default` has a configuration
    /// among those given.
    pub open spec fn default_configured(
        default: DaType,
        file: bool,
        ipfs: bool,
        celestia: bool,
        greenfield: bool,
        ethereum: bool,
    ) -> bool {
        match default {
            DaType::File => file,
            DaType::Ipfs => ipfs,
            DaType::Celestia => celestia,
            DaType::Greenfield => greenfield,
            DaType::Ethereum => ethereum,
        }
    }

    /// The first step of construction, before any backend is built: the
    /// backend chosen as default must have a configuration. The
    /// configurations themselves are not looked into.
    pub fn check_default_config(
        default: DaType,
        file_cfg: &Option<FileConfig>,
        ipfs_cfg: &Option<IpfsConfig>,
        celestia_cfg: &Option<CelestiaConfig>,
        greenfield_cfg: &Option<GreenfieldConfig>,
        ethereum_cfg: &Option<EthereumConfig>,
    ) -> (r: Result<(), DaError>)
        ensures
            r == if Self::default_configured(
                default,
                file_cfg is Some,
                ipfs_cfg is Some,
                celestia_cfg is Some,
                greenfield_cfg is Some,
                ethereum_cfg is Some,
            ) {
                Ok::<(), DaError>(())
            } else {
                Err::<(), DaError>(DaError::MissingDefaultConfig)
            },
    {
        let present = match default {
            DaType::File => file_cfg.is_some(),
            DaType::Ipfs => ipfs_cfg.is_some(),
            DaType::Celestia => celestia_cfg.is_some(),
            DaType::Greenfield => greenfield_cfg.is_some(),
            DaType::Ethereum => ethereum_cfg.is_some(),
        };
        if present {
            Ok(())
        } else {
            Err(DaError::MissingDefaultConfig)
        }
    }

    /// Reads the configuration of every backend that has one. All or
    /// nothing: `MissingDefaultConfig` where the backend of kind `default`
    /// has none, which is found before any other part is read, else
    /// `ConfigurationError` where any part cannot be read, else one backend
    /// for each part and none for a part that is absent.
    pub fn configure(
        default: DaType,
        file_cfg: Option<FileConfig>,
        ipfs_cfg: Option<IpfsConfig>,
        celestia_cfg: Option<CelestiaConfig>,
        greenfield_cfg: Option<GreenfieldConfig>,
        ethereum_cfg: Option<EthereumConfig>,
    ) -> (r: Result<Configured, DaError>)
        ensures
            match r {
                Ok(backends) => {
                    &&& Self::default_configured(
                        default,
                        file_cfg is Some,
                        ipfs_cfg is Some,
                        celestia_cfg is Some,
                        greenfield_cfg is Some,
                        ethereum_cfg is Some,
                    )
                    &&& match (file_cfg, backends.file) {
                        (Some(cfg), Some(service)) => service.root() == cfg.path@,
                        (None, None) => true,
                        _ => false,
                    }
                    &&& match (ipfs_cfg, backends.ipfs) {
                        (Some(cfg), Some(service)) => service.endpoint() == cfg.url@,
                        (None, None) => true,
                        _ => false,
                    }
                    &&& match (celestia_cfg, backends.celestia) {
                        (Some(cfg), Some(service)) => service.configured_by(cfg),
                        (None, None) => true,
                        _ => false,
                    }
                    &&& match (greenfield_cfg, backends.greenfield) {
                        (Some(cfg), Some(service)) => service.configured_by(cfg),
                        (None, None) => true,
                        _ => false,
                    }
                    &&& match (ethereum_cfg, backends.ethereum) {
                        (Some(cfg), Some(service)) => service.configured_by(cfg),
                        (None, None) => true,
                        _ => false,
                    }
                },
                Err(e) => if !Self::default_configured(
                    default,
                    file_cfg is Some,
                    ipfs_cfg is Some,
                    celestia_cfg is Some,
                    greenfield_cfg is Some,
                    ethereum_cfg is Some,
                ) {
                    e == DaError::MissingDefaultConfig
                } else {
                    &&& e == DaError::ConfigurationError
                    &&& (celestia_cfg matches Some(cfg) && !CelestiaService::readable(cfg))
                        || (ethereum_cfg matches Some(cfg) && !EthereumService::readable(cfg))
                },
            },
    {
        match Self::check_default_config(
            default,
            &file_cfg,
            &ipfs_cfg,
            &celestia_cfg,
            &greenfield_cfg,
            &ethereum_cfg,
        ) {
            Ok(()) => {},
            Err(e) => {
                return Err(e);
            },
        }
        let file = match file_cfg {
            Some(cfg) => Some(FileService::new(cfg)),
            None => None,
        };
        let ipfs = match ipfs_cfg {
            Some(cfg) => Some(IpfsService::new(cfg)),
            None => None,
        };
        let celestia = match celestia_cfg {
            Some(cfg) => match CelestiaService::new(cfg) {
                Ok(service) => Some(service),
                Err(e) => {
                    return Err(e);
                },
            },
            None => None,
        };
        let greenfield = match greenfield_cfg {
            Some(cfg) => Some(GreenfieldService::new(cfg)),
            None => None,
        };
        let ethereum = match ethereum_cfg {
            Some(cfg) => match EthereumService::new(cfg) {
                Ok(service) => Some(service),
                Err(e) => {
                    return Err(e);
                },
            },
            None => None,
        };
        Ok(Configured { file, ipfs, celestia, greenfield, ethereum })
    }

    /// Registers the backends, each under its tag, with the backend of
    /// kind `default` as the one that stores.
    ///
    /// Fails with `MissingDefaultConfig` where none of them has the
    /// default's tag, else with `DuplicateTag` where two have the same
    /// tag. On failure no manager exists.
    pub fn new(default: DaType, services: Vec<Adapter>) -> (r: Result<Self, DaError>)
        ensures
            match r {
                Ok(m) => {
                    &&& m.well_formed()
                    &&& m.default_tag() == default.tag()
                    &&& tags_among(services@, services@.len() as int).contains(default.tag())
                    &&& tags_unique(services@)
                    &&& m.registry().dom() == tags_among(services@, services@.len() as int)
                    &&& forall|i: int|
                        0 <= i < services@.len() ==> m.registry()[#[trigger] services@[i].tag()]
                            == services@[i]
                },
                Err(e) => if !tags_among(services@, services@.len() as int).contains(
                    default.tag(),
                ) {
                    e == DaError::MissingDefaultConfig
                } else {
                    e == DaError::DuplicateTag && !tags_unique(services@)
                },
            },
    {
        let default_tag = default.type_byte();
        let ghost all = services@;
        let n = services.len();
        let mut found = false;
        let mut i: usize = 0;
        while i < n
            invariant
                i <= n,
                n == services@.len(),
                services@ == all,
                found == tags_among(all, i as int).contains(default_tag),
            decreases n - i,
        {
            if services[i].type_byte() == default_tag {
                found = true;
            }
            i += 1;
        }
        if !found {
            return Err(DaError::MissingDefaultConfig);
        }
        let mut rest = services;
        let mut registry: BTreeMap<u8, Adapter> = BTreeMap::new();
        let mut left: usize = n;
        while left > 0
            invariant
                left <= n,
                n == all.len(),
                rest@ == all.take(left as int),
                services@ == all,
                default_tag == default.tag(),
                tags_among(all, n as int).contains(default_tag),
                forall|t: u8| #[trigger]
                    registry@.contains_key(t) <==> exists|k: int|
                        left <= k < n && #[trigger] all[k].tag() == t,
                forall|k: int| left <= k < n ==> registry@[#[trigger] all[k].tag()] == all[k],
                forall|j: int, k: int|
                    left <= j < k < n ==> #[trigger] all[j].tag() != #[trigger] all[k].tag(),
            decreases left,
        {
            let adapter = rest.pop().unwrap();
            left -= 1;
            assert(rest@ =~= all.take(left as int));
            let t = adapter.type_byte();
            if registry.contains_key(&t) {
                let ghost k = choose|k: int| left < k < n && #[trigger] all[k].tag() == t;
                assert(all[left as int].tag() == all[k].tag());
                return Err(DaError::DuplicateTag);
            }
            registry.insert(t, adapter);
        }
        assert(registry@.dom() =~= tags_among(all, n as int));
        Ok(DAServiceManager { services: registry, default: default_tag })
    }

    /// The registered tags, in rising order.
    pub fn types(&self) -> (tags: Vec<u8>)
        ensures
            tags@.to_set() == self.registry().dom(),
            forall|i: int, j: int| 0 <= i < j < tags@.len() ==> tags@[i] < tags@[j],
    {
        let mut tags: Vec<u8> = Vec::new();
        let ghost all = spec_keys_iter(&self.services).remaining();
        for tag in it: self.services.keys()
            invariant
                it.seq() == all,
                tags@.len() == it.index(),
                forall|k: int| 0 <= k < tags@.len() ==> tags@[k] == *all[k],
        {
            tags.push(*tag);
        }
        assert(tags@ =~= all.unref());
        proof {
            lemma_keys_rise(all);
        }
        tags
    }

    /// The tag of the backend that stores; it is always registered.
    pub fn default_type(&self) -> (tag: u8)
        ensures
            tag == self.default_tag(),
            self.registry().contains_key(tag),
    {
        proof {
            use_type_invariant(self);
        }
        self.default
    }

    /// The content hash of a payload, from the default backend: where one
    /// comes back, it is the Keccak-256 digest of the payload's bytes, so
    /// the same bytes never give two hashes.
    pub fn calc_hash(&self, tx: &[u8]) -> (r: Result<Vec<u8>, DaError>)
        ensures
            self.registry()[self.default_tag()].hashes(tx@, outcome(r)),
            r matches Ok(digest) ==> digest@ == keccak256_digest(tx@),
    {
        proof {
            use_type_invariant(self);
        }
        match self.services.get(&self.default) {
            Some(adapter) => adapter.service.hash(tx),
            None => Err(DaError::UnknownDefaultAdapter),
        }
    }

    /// Resolves an address: the backend that its tag names fetches the
    /// handle that follows the tag, and no other backend is asked.
    pub fn get_tx(&self, hash: &[u8]) -> (r: Result<Vec<u8>, DaError>)
        ensures
            self.resolves(hash@, outcome(r)),
            hash@.len() == 0 ==> r == Err::<Vec<u8>, DaError>(DaError::MalformedAddress),
            hash@.len() > 0 && !self.registry().contains_key(hash@[0]) ==> r == Err::<
                Vec<u8>,
                DaError,
            >(DaError::UnsupportedBackend),
            hash@.len() > 0 && self.registry().contains_key(hash@[0]) ==> (r matches Err(e)
                ==> e.is_fetch_failure()),
    {
        let (tag, handle) = match decode(hash) {
            Ok(parts) => parts,
            Err(e) => {
                return Err(e);
            },
        };
        match self.services.get(&tag) {
            Some(adapter) => adapter.service.get_tx(handle),
            None => Err(DaError::UnsupportedBackend),
        }
    }

    /// Stores the payload at the default backend and returns its address:
    /// the default tag, then the handle that the backend gave.
    pub fn set_tx(&self, tx: &[u8]) -> (r: Result<Vec<u8>, DaError>)
        ensures
            self.submits(tx@, outcome(r)),
            r matches Ok(address) ==> address@.len() >= 1 && address@[0] == self.default_tag(),
            r matches Err(e) ==> e.is_store_failure(),
    {
        proof {
            use_type_invariant(self);
        }
        match self.services.get(&self.default) {
            Some(adapter) => {
                let stored = adapter.service.set_full_tx(tx);
                assert(self.registry()[self.default_tag()].stores(tx@, outcome(stored)));
                seal(self.default, stored)
            },
            None => Err(DaError::UnknownDefaultAdapter),
        }
    }
}

/// Resolving the address that a submit returned gives the payload back,
/// wherever the default backend keeps what it accepted: the address leads
/// to that backend and hands it the handle it issued.
pub proof fn lemma_resolve_after_submit(
    m: DAServiceManager,
    payload: Seq<u8>,
    address: Seq<u8>,
    fetched: Result<Seq<u8>, DaError>,
)
    requires
        m.well_formed(),
        keeps(m.registry()[m.default_tag()], payload),
        m.submits(payload, Ok(address)),
        m.resolves(address, fetched),
    ensures
        fetched == Ok::<Seq<u8>, DaError>(payload),
{
    let tag = m.default_tag();
    let stored = choose|stored: Result<Seq<u8>, DaError>| #[trigger]
        m.registry()[tag].stores(payload, stored) && Ok::<Seq<u8>, DaError>(address) == sealed(
            tag,
            stored,
        );
    lemma_decode_encode(tag, stored->Ok_0);
}

/// An address under a tag that is not registered resolves to
/// `UnsupportedBackend`, whatever the handle and whatever the backends.
pub proof fn lemma_unregistered_tag(
    m: DAServiceManager,
    tag: u8,
    handle: Seq<u8>,
    fetched: Result<Seq<u8>, DaError>,
)
    requires
        !m.registry().contains_key(tag),
        m.resolves(encode_spec(tag, handle), fetched),
    ensures
        fetched == Err::<Seq<u8>, DaError>(DaError::UnsupportedBackend),
{
    lemma_decode_encode(tag, handle);
}

/// Every address that a submit returns starts with the default tag and
/// leads back to the default backend.
pub proof fn lemma_submitted_address(m: DAServiceManager, payload: Seq<u8>, address: Seq<u8>)
    requires
        m.well_formed(),
        m.submits(payload, Ok(address)),
    ensures
        address.len() >= 1,
        address[0] == m.default_tag(),
        m.registry().contains_key(address[0]),
{
}

} // verus!
