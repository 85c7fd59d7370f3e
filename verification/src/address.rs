//! The address: one tag byte, then the backend's handle.

use crate::error::DaError;
use vstd::prelude::*;
use vstd::slice::slice_subrange;

verus! {

/// An address: the tag byte, then the handle, with nothing in between.
pub open spec fn encode_spec(tag: u8, handle: Seq<u8>) -> Seq<u8> {
    seq![tag] + handle
}

/// The tag and handle that an address holds; an empty address holds none.
pub open spec fn decode_spec(address: Seq<u8>) -> Result<(u8, Seq<u8>), DaError> {
    if address.len() == 0 {
        Err(DaError::MalformedAddress)
    } else {
        Ok((address[0], address.skip(1)))
    }
}

/// Builds the address of `handle` at the backend tagged `tag`.
pub fn encode(tag: u8, handle: &[u8]) -> (address: Vec<u8>)
    ensures
        address@ == encode_spec(tag, handle@),
{
    let mut address: Vec<u8> = Vec::new();
    address.push(tag);
    address.extend_from_slice(handle);
    address
}

/// Splits an address into its tag and its handle. Only the empty address
/// is refused; the handle may be empty and is not looked into.
pub fn decode(address: &[u8]) -> (r: Result<(u8, &[u8]), DaError>)
    ensures
        match r {
            Ok((tag, handle)) => decode_spec(address@) == Ok::<(u8, Seq<u8>), DaError>(
                (tag, handle@),
            ),
            Err(e) => decode_spec(address@) == Err::<(u8, Seq<u8>), DaError>(e),
        },
{
    if address.len() == 0 {
        Err(DaError::MalformedAddress)
    } else {
        let handle = slice_subrange(address, 1, address.len());
        Ok((address[0], handle))
    }
}

/// Decoding an encoded address gives back the tag and the handle, for every
/// tag and every handle, the empty one included.
pub proof fn lemma_decode_encode(tag: u8, handle: Seq<u8>)
    ensures
        decode_spec(encode_spec(tag, handle)) == Ok::<(u8, Seq<u8>), DaError>((tag, handle)),
{
    assert(encode_spec(tag, handle).skip(1) =~= handle);
}

/// Encoding what a non-empty address decodes to gives the address back.
pub proof fn lemma_encode_decode(address: Seq<u8>)
    requires
        address.len() > 0,
    ensures
        encode_spec(address[0], address.skip(1)) == address,
{
    assert(encode_spec(address[0], address.skip(1)) =~= address);
}

/// An address is never empty, and it starts with its tag.
pub proof fn lemma_encode_shape(tag: u8, handle: Seq<u8>)
    ensures
        encode_spec(tag, handle).len() == handle.len() + 1,
        encode_spec(tag, handle)[0] == tag,
{
}

} // verus!
