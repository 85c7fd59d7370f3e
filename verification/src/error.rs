//! The failures, by kind.

use vstd::prelude::*;
use vstd::string::StringExecFns;

verus! {

/// Every way an operation of this crate can fail.
#[derive(Debug, Clone, Copy, PartialEq, Eq, Structural)]
pub enum DaError {
    /// A backend could not be built from its configuration.
    ConfigurationError,
    /// No configuration was given for the backend chosen as default.
    MissingDefaultConfig,
    /// Two backends report the same tag.
    DuplicateTag,
    /// The address is empty, so it has no tag byte.
    MalformedAddress,
    /// The address names a tag that no registered backend answers to.
    UnsupportedBackend,
    /// The default tag has no backend behind it.
    UnknownDefaultAdapter,
    /// The backend is reachable and does not know the handle.
    NotFound,
    /// The backend could not be reached.
    BackendUnavailable,
    /// The backend understood the request and refused it.
    BackendRejected,
    /// The backend returned data that failed its integrity check.
    ValidationFailed,
    /// The payload cannot be put in the backend's wire form.
    EncodingError,
}

impl DaError {
    /// True for the failures a backend may report from storing a payload.
    pub open spec fn is_store_failure(self) -> bool {
        self == DaError::BackendUnavailable || self == DaError::BackendRejected || self
            == DaError::EncodingError
    }

    /// True for the failures a backend may report from fetching a payload.
    pub open spec fn is_fetch_failure(self) -> bool {
        self == DaError::NotFound || self == DaError::ValidationFailed || self
            == DaError::BackendUnavailable
    }

    /// The failure in words.
    pub open spec fn text(self) -> Seq<char> {
        match self {
            DaError::ConfigurationError => "a backend could not be built from its configuration"@,
            DaError::MissingDefaultConfig => "the default backend has no configuration"@,
            DaError::DuplicateTag => "two backends report the same tag"@,
            DaError::MalformedAddress => "the address is empty and has no tag byte"@,
            DaError::UnsupportedBackend => "no backend is registered for the tag of the address"@,
            DaError::UnknownDefaultAdapter => "no backend is registered for the default tag"@,
            DaError::NotFound => "the backend does not know the handle"@,
            DaError::BackendUnavailable => "the backend could not be reached"@,
            DaError::BackendRejected => "the backend refused the request"@,
            DaError::ValidationFailed => "the data failed its integrity check"@,
            DaError::EncodingError => "the payload cannot be put in the backend's wire form"@,
        }
    }

    /// The failure in words, for messages and logs.
    pub fn message(&self) -> (message: String)
        ensures
            message@ == self.text(),
    {
        match self {
            DaError::ConfigurationError => String::from_str(
                "a backend could not be built from its configuration",
            ),
            DaError::MissingDefaultConfig => String::from_str(
                "the default backend has no configuration",
            ),
            DaError::DuplicateTag => String::from_str("two backends report the same tag"),
            DaError::MalformedAddress => String::from_str(
                "the address is empty and has no tag byte",
            ),
            DaError::UnsupportedBackend => String::from_str(
                "no backend is registered for the tag of the address",
            ),
            DaError::UnknownDefaultAdapter => String::from_str(
                "no backend is registered for the default tag",
            ),
            DaError::NotFound => String::from_str("the backend does not know the handle"),
            DaError::BackendUnavailable => String::from_str("the backend could not be reached"),
            DaError::BackendRejected => String::from_str("the backend refused the request"),
            DaError::ValidationFailed => String::from_str("the data failed its integrity check"),
            DaError::EncodingError => String::from_str(
                "the payload cannot be put in the backend's wire form",
            ),
        }
    }
}

} // verus!
