use celestia_types::nmt::Namespace;
use celestia_types::Blob;
use da_service::CelestiaConfig;
use da_service::CelestiaService;
use da_service::DaError;

fn config(id: &str) -> CelestiaConfig {
    CelestiaConfig {
        url: "ws://localhost:26658".to_string(),
        token: "token".to_string(),
        id: id.to_string(),
    }
}

fn service() -> CelestiaService {
    CelestiaService::new(config("00010203040506070809")).ok().unwrap()
}

#[test]
fn the_namespace_is_read_from_ten_bytes_of_hex() {
    let service = service();
    assert_eq!(service.namespace(), &[0, 1, 2, 3, 4, 5, 6, 7, 8, 9]);
    assert_eq!(service.url(), "ws://localhost:26658");
    assert_eq!(service.token(), "token");
    assert_eq!(service.type_byte(), 2);
}

#[test]
fn another_namespace_is_a_configuration_error() {
    for id in ["", "000102030405060708", "0001020304050607080910", "0001020304050607080g", "xyz"] {
        assert_eq!(CelestiaService::new(config(id)).err(), Some(DaError::ConfigurationError));
    }
}

#[test]
fn a_handle_is_the_commitment_and_then_the_height() {
    let commitment = [0xabu8; 32];
    let handle = CelestiaService::handle(&commitment, 0x0102_0304_0506_0708);
    let mut expected = commitment.to_vec();
    expected.extend([1, 2, 3, 4, 5, 6, 7, 8]);
    assert_eq!(handle, expected);
    assert_eq!(handle.len(), 40);
}

#[test]
fn heights_are_written_high_byte_first() {
    for height in [0u64, 1, 255, 256, 65_535, 4_294_967_296, u64::MAX] {
        let handle = CelestiaService::handle(&[], height);
        assert_eq!(handle, height.to_be_bytes().to_vec());
    }
}

#[test]
fn a_handle_splits_into_what_it_was_made_of() {
    let commitment: Vec<u8> = (0..32).collect();
    for height in [0u64, 42, 1 << 40, u64::MAX] {
        let handle = CelestiaService::handle(&commitment, height);
        assert_eq!(CelestiaService::parse_handle(&handle), Ok((commitment.clone(), height)));
    }
}

#[test]
fn bytes_beyond_forty_are_not_read() {
    let mut handle = CelestiaService::handle(&[7u8; 32], 9);
    handle.extend([1, 2, 3]);
    assert_eq!(CelestiaService::parse_handle(&handle), Ok((vec![7u8; 32], 9)));
}

#[test]
fn a_handle_shorter_than_forty_bytes_is_not_found() {
    assert_eq!(CelestiaService::parse_handle(&[]), Err(DaError::NotFound));
    assert_eq!(CelestiaService::parse_handle(&[0u8; 32]), Err(DaError::NotFound));
    assert_eq!(CelestiaService::parse_handle(&[0u8; 39]), Err(DaError::NotFound));
}

#[test]
fn the_commitment_is_that_of_the_blob() {
    let service = service();
    let blob = Blob::new(
        Namespace::const_v0([0, 1, 2, 3, 4, 5, 6, 7, 8, 9]),
        b"some data to store on blockchain".to_vec(),
        None,
    )
    .unwrap();
    let commitment = service.commitment(b"some data to store on blockchain").unwrap();
    assert_eq!(commitment, blob.commitment.hash().to_vec());
    assert_eq!(commitment.len(), 32);
    assert_ne!(commitment, b"some data to store on blockchain".to_vec());
}

#[test]
fn the_commitment_depends_on_data_and_namespace() {
    let service = service();
    let other = CelestiaService::new(config("09080706050403020100")).ok().unwrap();
    let commitment = service.commitment(b"abc").unwrap();
    assert_eq!(service.commitment(b"abc").unwrap(), commitment);
    assert_ne!(service.commitment(b"abd").unwrap(), commitment);
    assert_ne!(other.commitment(b"abc").unwrap(), commitment);
}

#[test]
fn a_blob_with_the_commitment_asked_for_is_the_payload() {
    let service = service();
    let commitment = service.commitment(b"abc").unwrap();
    assert_eq!(service.payload(&commitment, b"abc".to_vec()), Ok(b"abc".to_vec()));
}

#[test]
fn a_blob_with_another_commitment_fails_validation() {
    let service = service();
    let commitment = service.commitment(b"abc").unwrap();
    assert_eq!(service.payload(&commitment, b"abd".to_vec()), Err(DaError::ValidationFailed));
    assert_eq!(service.payload(&[0u8; 32], b"abc".to_vec()), Err(DaError::ValidationFailed));
    assert_eq!(service.payload(&[], b"abc".to_vec()), Err(DaError::ValidationFailed));
}

#[test]
fn a_stored_blob_comes_back_through_its_handle() {
    let service = service();
    let commitment = service.commitment(b"payload").unwrap();
    let handle = CelestiaService::handle(&commitment, 1234);
    let (asked, height) = CelestiaService::parse_handle(&handle).unwrap();
    assert_eq!(height, 1234);
    assert_eq!(service.payload(&asked, b"payload".to_vec()), Ok(b"payload".to_vec()));
}
