//! A uniform front for heterogeneous data-availability backends.
//!
//! A payload is stored through one configured default backend and comes back
//! as a self-describing address: one tag byte naming the backend, followed by
//! the handle that backend issued. The address is later resolved by the
//! backend its tag names.
//!
//! Everything in this crate is free of I/O. Backends talk to the outside
//! world behind the [`DAService`] trait; the per-backend types here hold the
//! rules of each backend: how handles are laid out, how payloads are put on
//! the wire, and how replies are judged.

pub mod address;
pub mod celestia_service;
pub mod da_type;
pub mod error;
pub mod ethereum_service;
pub mod file_service;
pub mod greenfield_service;
pub mod hashing;
pub mod hex_text;
pub mod ipfs_service;
mod order;
pub mod service;

pub use celestia_service::CelestiaService;
pub use celestia_service::Config as CelestiaConfig;
pub use da_type::DaType;
pub use error::DaError;
pub use ethereum_service::Config as EthereumConfig;
pub use ethereum_service::EthereumService;
pub use file_service::Config as FileConfig;
pub use file_service::FileService;
pub use greenfield_service::Config as GreenfieldConfig;
pub use greenfield_service::GreenfieldService;
pub use ipfs_service::Config as IpfsConfig;
pub use ipfs_service::IpfsService;
pub use service::Adapter;
pub use service::Configured;
pub use service::DAService;
pub use service::DAServiceManager;
