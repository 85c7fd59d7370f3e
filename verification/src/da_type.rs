//! The kinds of backend and their tags.

use crate::error::DaError;
use vstd::prelude::*;

verus! {

/// The kinds of backend, each with its own tag byte.
#[derive(Debug, Clone, Copy, PartialEq, Eq, Structural)]
pub enum DaType {
    /// Content-addressed files under a local directory.
    File,
    /// A peer-to-peer content network.
    Ipfs,
    /// A chain that serves as data-availability layer.
    Celestia,
    /// An object store.
    Greenfield,
    /// A ledger whose transactions carry the payload.
    Ethereum,
}

/// Compares two strings character by character.
fn same_text(a: &str, b: &str) -> (r: bool)
    ensures
        r == (a@ == b@),
{
    let n = a.unicode_len();
    if n != b.unicode_len() {
        return false;
    }
    let mut i: usize = 0;
    while i < n
        invariant
            n == a@.len(),
            n == b@.len(),
            i <= n,
            forall|k: int| 0 <= k < i ==> a@[k] == b@[k],
        decreases n - i,
    {
        if a.get_char(i) != b.get_char(i) {
            return false;
        }
        i += 1;
    }
    assert(a@ =~= b@);
    true
}

impl DaType {
    /// The tag of this kind.
    pub open spec fn tag(self) -> u8 {
        match self {
            DaType::File => 0,
            DaType::Ipfs => 1,
            DaType::Celestia => 2,
            DaType::Greenfield => 3,
            DaType::Ethereum => 4,
        }
    }

    /// The kind that a name in a configuration stands for, if any.
    pub open spec fn named(name: Seq<char>) -> Option<DaType> {
        if name == "file"@ {
            Some(DaType::File)
        } else if name == "ipfs"@ {
            Some(DaType::Ipfs)
        } else if name == "celestia"@ {
            Some(DaType::Celestia)
        } else if name == "greenfield"@ {
            Some(DaType::Greenfield)
        } else if name == "ethereum"@ {
            Some(DaType::Ethereum)
        } else {
            None
        }
    }

    /// The tag byte that addresses of this kind start with.
    pub fn type_byte(&self) -> (t: u8)
        ensures
            t == self.tag(),
    {
        match self {
            DaType::File => 0,
            DaType::Ipfs => 1,
            DaType::Celestia => 2,
            DaType::Greenfield => 3,
            DaType::Ethereum => 4,
        }
    }

    /// Reads a kind from its lower-case name; any other text is a
    /// configuration error.
    pub fn from_str(s: &str) -> (r: Result<DaType, DaError>)
        ensures
            r == match DaType::named(s@) {
                Some(kind) => Ok::<DaType, DaError>(kind),
                None => Err::<DaType, DaError>(DaError::ConfigurationError),
            },
    {
        if same_text(s, "file") {
            Ok(DaType::File)
        } else if same_text(s, "ipfs") {
            Ok(DaType::Ipfs)
        } else if same_text(s, "celestia") {
            Ok(DaType::Celestia)
        } else if same_text(s, "greenfield") {
            Ok(DaType::Greenfield)
        } else if same_text(s, "ethereum") {
            Ok(DaType::Ethereum)
        } else {
            Err(DaError::ConfigurationError)
        }
    }
}

impl Default for DaType {
    /// The kind with the highest tag.
    fn default() -> (kind: DaType)
        ensures
            kind == DaType::Ethereum,
    {
        DaType::Ethereum
    }
}

impl std::str::FromStr for DaType {
    type Err = DaError;

    fn from_str(s: &str) -> (r: Result<DaType, DaError>)
        ensures
            r == match DaType::named(s@) {
                Some(kind) => Ok::<DaType, DaError>(kind),
                None => Err::<DaType, DaError>(DaError::ConfigurationError),
            },
    {
        DaType::from_str(s)
    }
}

/// Distinct kinds have distinct tags, and every tag is below five.
pub proof fn lemma_tags_distinct(a: DaType, b: DaType)
    ensures
        a.tag() == b.tag() <==> a == b,
        a.tag() < 5,
{
}

} // verus!
