//! Laws of keys and signatures.

use vstd::prelude::*;

use crate::keys::{
    be_number, begins_with_xpub, compressed_point, der_integer, der_signature, signature_scalar,
    xpub_version,
};
use crate::types::Network;

verus! {

/// A DER integer with these content bytes.
pub open spec fn der_integer_bytes(content: Seq<u8>) -> Seq<u8> {
    seq![0x02u8, content.len() as u8] + content
}

/// A signature in its DER encoding, from the content bytes of its two integers.
pub open spec fn der_signature_bytes(r: Seq<u8>, s: Seq<u8>) -> Seq<u8> {
    seq![0x30u8, (4 + r.len() + s.len()) as u8] + der_integer_bytes(r) + der_integer_bytes(s)
}

/// Whether bytes are the content of an integer that a signature may have: at most 32 bytes, or 33
/// with a zero in front, and a number that may stand in a signature.
pub open spec fn scalar_content(content: Seq<u8>) -> bool {
    &&& 0 < content.len() <= 32 || (content.len() == 33 && content[0] == 0)
    &&& signature_scalar(be_number(content))
}

proof fn der_integer_is_read_back(content: Seq<u8>, tail: Seq<u8>)
    requires
        0 < content.len() <= 32 || (content.len() == 33 && content[0] == 0),
    ensures
        der_integer(der_integer_bytes(content) + tail) == Some((be_number(content), tail)),
{
    let bytes = der_integer_bytes(content) + tail;
    let end = 2 + content.len();
    assert(bytes[2] == content[0]);
    assert(bytes.subrange(2, end as int) =~= content);
    assert(bytes.skip(end as int) =~= tail);
}

/// Every signature is read back from its DER encoding.
pub proof fn signature_is_read_back(r: Seq<u8>, s: Seq<u8>)
    requires
        scalar_content(r),
        scalar_content(s),
    ensures
        der_signature(der_signature_bytes(r, s)) == Some((be_number(r), be_number(s))),
{
    let bytes = der_signature_bytes(r, s);
    der_integer_is_read_back(r, der_integer_bytes(s));
    der_integer_is_read_back(s, Seq::empty());
    assert(bytes.skip(2) =~= der_integer_bytes(r) + der_integer_bytes(s));
    assert(der_integer_bytes(s) + Seq::<u8>::empty() =~= der_integer_bytes(s));
}

/// A signature in its DER encoding takes between eight and 72 bytes.
pub proof fn signature_has_bounded_length(bytes: Seq<u8>)
    requires
        der_signature(bytes) is Some,
    ensures
        8 <= bytes.len() <= 72,
{
}

/// No bytes begin with an extended public key of both networks.
pub proof fn xpub_is_of_one_network(bytes: Seq<u8>)
    ensures
        !(begins_with_xpub(Network::Mainnet, bytes) && begins_with_xpub(Network::Testnet, bytes)),
{
}

/// What stands behind an extended public key does not matter to its being one.
pub proof fn xpub_ignores_tail(network: Network, bytes: Seq<u8>, tail: Seq<u8>)
    requires
        bytes.len() >= 78,
    ensures
        begins_with_xpub(network, bytes + tail) == begins_with_xpub(network, bytes),
{
    assert((bytes + tail).take(4) =~= bytes.take(4));
    assert((bytes + tail).subrange(45, 78) =~= bytes.subrange(45, 78));
}

proof fn der_integer_was_written(bytes: Seq<u8>)
    ensures
        der_integer(bytes) matches Some((number, rest)) ==> {
            let content = bytes.subrange(2, 2 + bytes[1]);
            &&& bytes == der_integer_bytes(content) + rest
            &&& number == be_number(content)
            &&& content.len() <= 32 || (content.len() == 33 && content[0] == 0)
        },
{
    if let Some((number, rest)) = der_integer(bytes) {
        let content = bytes.subrange(2, 2 + bytes[1]);
        assert(bytes =~= der_integer_bytes(content) + rest);
    }
}

/// A signature that is read was written there: its bytes are the encoding of two integers with the
/// numbers that are read, and these may stand in a signature.
pub proof fn signature_was_written(bytes: Seq<u8>)
    ensures
        der_signature(bytes) matches Some((r, s)) ==> exists|first: Seq<u8>, second: Seq<u8>|
            {
                &&& scalar_content(first)
                &&& scalar_content(second)
                &&& bytes == #[trigger] der_signature_bytes(first, second)
                &&& r == be_number(first)
                &&& s == be_number(second)
            },
{
    if let Some((r, s)) = der_signature(bytes) {
        let body = bytes.skip(2);
        der_integer_was_written(body);
        let first = body.subrange(2, 2 + body[1]);
        let behind = body.skip(2 + body[1]);
        der_integer_was_written(behind);
        let second = behind.subrange(2, 2 + behind[1]);
        assert(behind =~= der_integer_bytes(second));
        assert(first.len() > 0 && second.len() > 0);
        assert(bytes =~= der_signature_bytes(first, second));
    }
}

/// Bytes begin with an extended public key of a network exactly if they are one of its versions,
/// 41 bytes of any kind and a compressed point, whatever stands behind them.
pub proof fn xpub_is_version_and_point(
    network: Network,
    version: Seq<u8>,
    place: Seq<u8>,
    point: Seq<u8>,
    tail: Seq<u8>,
)
    requires
        version.len() == 4,
        place.len() == 41,
        point.len() == 33,
    ensures
        begins_with_xpub(network, version + place + point + tail) <==> xpub_version(
            network,
            be_number(version),
        ) && compressed_point(point),
{
    let bytes = version + place + point + tail;
    assert(bytes.take(4) =~= version);
    assert(bytes.subrange(45, 78) =~= point);
}

} // verus!
