use da_service::DaError;
use da_service::IpfsConfig;
use da_service::IpfsService;

const CID: &str = "QmYwAPJzv5CZsnA625s3Xf2nemtYgPpHdWEz79ojWnPbdG";

#[test]
fn the_content_network_has_tag_one() {
    let service = IpfsService::new(IpfsConfig { url: "http://localhost:5001".to_string() });
    assert_eq!(service.type_byte(), 1);
    assert_eq!(service.url(), "http://localhost:5001");
}

#[test]
fn the_content_network_hashes_with_keccak() {
    assert_eq!(
        IpfsService::hash(b""),
        hex::decode("c5d2460186f7233c927e7db2dcc703c0e500b653ca82273b7bfad8045d85a470").unwrap()
    );
}

#[test]
fn a_handle_is_the_identifier_read_as_base_58() {
    assert_eq!(IpfsService::handle("ZiCa"), Ok(vec![97, 98, 99]));
    assert_eq!(IpfsService::handle("3mJr7AoUXx2Wqd"), Ok(b"1234598760".to_vec()));
    assert_eq!(IpfsService::handle(""), Ok(vec![]));
    assert_eq!(IpfsService::handle("111"), Ok(vec![0, 0, 0]));
}

#[test]
fn the_identifier_is_the_handle_written_as_base_58() {
    assert_eq!(IpfsService::cid(&[97, 98, 99]), Ok("ZiCa".to_string()));
    assert_eq!(IpfsService::cid(b"1234598760"), Ok("3mJr7AoUXx2Wqd".to_string()));
    assert_eq!(IpfsService::cid(&[]), Ok(String::new()));
    assert_eq!(IpfsService::cid(&[0, 0, 0]), Ok("111".to_string()));
}

#[test]
fn the_identifier_of_stored_content_comes_back_from_its_handle() {
    let handle = IpfsService::handle(CID).unwrap();
    assert_eq!(handle.len(), 34);
    assert_eq!(&handle[..2], &[0x12, 0x20]);
    assert_eq!(IpfsService::cid(&handle), Ok(CID.to_string()));
}

#[test]
fn an_identifier_that_is_not_base_58_cannot_be_encoded() {
    assert_eq!(IpfsService::handle("0"), Err(DaError::EncodingError));
    assert_eq!(IpfsService::handle("Zi Ca"), Err(DaError::EncodingError));
    assert_eq!(IpfsService::handle("ZiCaO"), Err(DaError::EncodingError));
    assert_eq!(IpfsService::handle("Zi\u{e9}"), Err(DaError::EncodingError));
}

#[test]
fn an_identifier_beyond_the_limit_cannot_be_encoded() {
    assert!(IpfsService::handle(&"1".repeat(128)).is_ok());
    assert_eq!(IpfsService::handle(&"1".repeat(129)), Err(DaError::EncodingError));
    assert_eq!(IpfsService::handle(&"z".repeat(400)), Err(DaError::EncodingError));
}

#[test]
fn a_handle_beyond_the_limit_is_not_found() {
    assert!(IpfsService::cid(&[7u8; 128]).is_ok());
    assert_eq!(IpfsService::cid(&[7u8; 129]), Err(DaError::NotFound));
}
