use da_service::DaError;
use da_service::DaType;

#[test]
fn each_kind_has_its_tag() {
    assert_eq!(DaType::File.type_byte(), 0);
    assert_eq!(DaType::Ipfs.type_byte(), 1);
    assert_eq!(DaType::Celestia.type_byte(), 2);
    assert_eq!(DaType::Greenfield.type_byte(), 3);
    assert_eq!(DaType::Ethereum.type_byte(), 4);
}

#[test]
fn kinds_are_read_from_their_names() {
    assert_eq!(DaType::from_str("file"), Ok(DaType::File));
    assert_eq!(DaType::from_str("ipfs"), Ok(DaType::Ipfs));
    assert_eq!(DaType::from_str("celestia"), Ok(DaType::Celestia));
    assert_eq!(DaType::from_str("greenfield"), Ok(DaType::Greenfield));
    assert_eq!(DaType::from_str("ethereum"), Ok(DaType::Ethereum));
}

#[test]
fn other_names_are_a_configuration_error() {
    assert_eq!(DaType::from_str(""), Err(DaError::ConfigurationError));
    assert_eq!(DaType::from_str("File"), Err(DaError::ConfigurationError));
    assert_eq!(DaType::from_str("file "), Err(DaError::ConfigurationError));
    assert_eq!(DaType::from_str("s3"), Err(DaError::ConfigurationError));
}

#[test]
fn kinds_parse_through_the_standard_trait() {
    assert_eq!("celestia".parse::<DaType>(), Ok(DaType::Celestia));
    assert_eq!("nothing".parse::<DaType>(), Err(DaError::ConfigurationError));
}

#[test]
fn the_default_kind_has_the_highest_tag() {
    assert_eq!(DaType::default(), DaType::Ethereum);
    assert_eq!(DaType::default().type_byte(), 4);
}

#[test]
fn every_failure_has_its_own_words() {
    let all = [
        DaError::ConfigurationError,
        DaError::MissingDefaultConfig,
        DaError::DuplicateTag,
        DaError::MalformedAddress,
        DaError::UnsupportedBackend,
        DaError::UnknownDefaultAdapter,
        DaError::NotFound,
        DaError::BackendUnavailable,
        DaError::BackendRejected,
        DaError::ValidationFailed,
        DaError::EncodingError,
    ];
    for (i, a) in all.iter().enumerate() {
        assert!(!a.message().is_empty());
        for b in &all[i + 1..] {
            assert_ne!(a.message(), b.message());
        }
    }
    assert_eq!(DaError::NotFound.message(), "the backend does not know the handle");
    assert_eq!(DaError::MalformedAddress.message(), "the address is empty and has no tag byte");
}
