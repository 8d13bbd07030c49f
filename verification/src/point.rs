//! The fixed public key that stands in for a per-commitment point.
//!
//! The wire format of `channel_reestablish` wants a well-formed curve point
//! where the sender's current per-commitment point goes. A forged message
//! carries the same point every time. It is parsed from a fixed encoding and is
//! not derived from any commitment secret.

use bitcoin::secp256k1::PublicKey;
use vstd::prelude::*;

verus! {

/// `secp256k1::PublicKey`, a point on the curve. Its inside is not modelled:
/// keys are parsed, carried and handed on, never inspected.
#[verifier::external_type_specification]
#[verifier::external_body]
pub struct ExPublicKey(bitcoin::secp256k1::PublicKey);

/// `secp256k1::Error`, which says why the curve library refused an input.
#[verifier::external_type_specification]
#[verifier::external_body]
pub struct ExSecpError(bitcoin::secp256k1::Error);

/// What `secp256k1::PublicKey::from_slice` returns for the bytes `data`.
///
/// Parsing is curve arithmetic on the bytes alone, so equal bytes give equal
/// results. Which encodings are accepted is left to the curve library: nothing
/// is claimed about it here.
pub uninterp spec fn public_key_from_slice(data: Seq<u8>) -> Result<
    PublicKey,
    bitcoin::secp256k1::Error,
>;

/// `secp256k1::PublicKey::from_slice` parses a serialized public key and
/// returns an error for bytes that encode none. Believed without proof: its
/// result depends on `data` alone. The contract gives that result a name and
/// claims nothing else.
pub assume_specification[ PublicKey::from_slice ](data: &[u8]) -> (parsed: Result<
    PublicKey,
    bitcoin::secp256k1::Error,
>)
    ensures
        parsed == public_key_from_slice(data@),
;

/// Length of a compressed public key on the wire.
pub const COMPRESSED_POINT_LEN: usize = 33;

/// The encoding of the sentinel point: the tag for an even `y`, then an `x`
/// coordinate of `0xff` followed by thirty-one bytes `0x02`.
pub open spec fn sentinel_point_encoding() -> Seq<u8> {
    Seq::new(COMPRESSED_POINT_LEN as nat, |i: int| if i == 1 { 0xffu8 } else { 0x02u8 })
}

/// Whether the curve library accepts the sentinel encoding.
pub open spec fn sentinel_point_is_valid() -> bool {
    public_key_from_slice(sentinel_point_encoding()) is Ok
}

/// The sentinel point itself. Meaningful where `sentinel_point_is_valid()`.
pub open spec fn sentinel_point() -> PublicKey
    recommends
        sentinel_point_is_valid(),
{
    public_key_from_slice(sentinel_point_encoding())->Ok_0
}

/// Writes out the sentinel encoding.
pub fn sentinel_point_bytes() -> (bytes: [u8; COMPRESSED_POINT_LEN])
    ensures
        bytes@ == sentinel_point_encoding(),
{
    let mut bytes = [0x02u8; COMPRESSED_POINT_LEN];
    bytes[1] = 0xff;
    bytes
}

/// Parses the sentinel encoding, and returns the point if the curve library
/// accepts it.
pub fn parse_sentinel_point() -> (point: Option<PublicKey>)
    ensures
        point == (if sentinel_point_is_valid() {
            Some(sentinel_point())
        } else {
            None
        }),
{
    let bytes = sentinel_point_bytes();
    match PublicKey::from_slice(&bytes) {
        Ok(point) => Some(point),
        Err(_) => None,
    }
}

} // verus!
