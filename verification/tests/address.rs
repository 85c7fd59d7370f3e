use da_service::address::decode;
use da_service::address::encode;
use da_service::DaError;

#[test]
fn encode_puts_the_tag_before_the_handle() {
    assert_eq!(encode(3, &[0xaa, 0xbb]), vec![3, 0xaa, 0xbb]);
}

#[test]
fn encode_of_an_empty_handle_is_the_tag_alone() {
    assert_eq!(encode(0, &[]), vec![0]);
}

#[test]
fn decode_splits_tag_and_handle() {
    let address = [2u8, 9, 8, 7];
    assert_eq!(decode(&address), Ok((2u8, &[9u8, 8, 7][..])));
}

#[test]
fn decode_accepts_an_address_without_handle() {
    let address = [4u8];
    assert_eq!(decode(&address), Ok((4u8, &[][..])));
}

#[test]
fn decode_of_the_empty_address_is_malformed() {
    assert_eq!(decode(&[]), Err(DaError::MalformedAddress));
}

#[test]
fn decode_gives_back_what_encode_took() {
    let handles: [&[u8]; 4] = [&[], &[0], &[1, 2, 3], &[0xff; 40]];
    for tag in [0u8, 1, 2, 3, 4, 200, 255] {
        for handle in handles {
            let address = encode(tag, handle);
            assert_eq!(address.len(), handle.len() + 1);
            assert_eq!(decode(&address), Ok((tag, handle)));
        }
    }
}

#[test]
fn encode_gives_back_what_decode_split() {
    let address = [1u8, 0x12, 0x20, 0x55];
    let (tag, handle) = decode(&address).unwrap();
    assert_eq!(encode(tag, handle), address.to_vec());
}
