//! The byte formats of keys and signatures over the curve secp256k1.

use vstd::prelude::*;

use crate::types::Network;

verus! {

/// The number in some bytes, the most significant one first.
pub open spec fn be_number(bytes: Seq<u8>) -> nat
    decreases bytes.len(),
{
    if bytes.len() == 0 {
        0
    } else {
        0x100 * be_number(bytes.drop_last()) + bytes.last() as nat
    }
}

/// The prime of the field over which the curve stands.
pub open spec fn field_prime() -> int {
    0xffffffff_ffffffff_ffffffff_ffffffff_ffffffff_ffffffff_fffffffe_fffffc2fint
}

/// The number of points of the curve.
pub open spec fn group_order() -> int {
    0xffffffff_ffffffff_ffffffff_fffffffe_baaedce6_af48a03b_bfd25e8c_d0364141int
}

/// Whether the curve has a point with these coordinates.
pub open spec fn on_curve(x: int, y: int) -> bool {
    &&& 0 <= x < field_prime()
    &&& 0 <= y < field_prime()
    &&& (y * y) % field_prime() == (x * x * x + 7) % field_prime()
}

/// Whether bytes are a point in its compressed form: a mark for the parity of the second
/// coordinate, and the first coordinate in 32 bytes.
pub open spec fn compressed_point(bytes: Seq<u8>) -> bool {
    &&& bytes.len() == 33
    &&& bytes[0] == 0x02 || bytes[0] == 0x03
    &&& exists|y: int| on_curve(be_number(bytes.skip(1)) as int, y)
}

/// A DER integer at the front of bytes and what stands behind it, where there is one of at most 32
/// bytes, or of 33 with a zero in front.
pub open spec fn der_integer(bytes: Seq<u8>) -> Option<(nat, Seq<u8>)> {
    if bytes.len() >= 3 && bytes[0] == 0x02 && 2 + bytes[1] <= bytes.len() && (bytes[1] <= 32 || (
    bytes[1] == 33 && bytes[2] == 0)) {
        Some((be_number(bytes.subrange(2, 2 + bytes[1])), bytes.skip(2 + bytes[1])))
    } else {
        None
    }
}

/// Whether a number may stand in a signature.
pub open spec fn signature_scalar(number: nat) -> bool {
    0 < number < group_order()
}

/// The two numbers of a signature in its DER encoding: a sequence of two integers, and nothing
/// behind it.
pub open spec fn der_signature(bytes: Seq<u8>) -> Option<(nat, nat)> {
    if bytes.len() >= 2 && bytes[0] == 0x30 && bytes[1] == bytes.len() - 2 {
        match der_integer(bytes.skip(2)) {
            Some((r, rest)) => match der_integer(rest) {
                Some((s, rest)) => if rest.len() == 0 && signature_scalar(r) && signature_scalar(
                    s,
                ) {
                    Some((r, s))
                } else {
                    None
                },
                None => None,
            },
            None => None,
        }
    } else {
        None
    }
}

/// Whether a number is one of the versions that a network gives to its extended public keys: one
/// each for keys of legacy, wrapped witness and witness scripts.
pub open spec fn xpub_version(network: Network, version: nat) -> bool {
    match network {
        Network::Mainnet => version == 0x0488_b21e || version == 0x049d_7cb2 || version
            == 0x04b2_4746,
        Network::Testnet => version == 0x0435_87cf || version == 0x044a_5262 || version
            == 0x045f_1cf6,
    }
}

/// Whether bytes begin with an extended public key of a network: four bytes of version, 41 bytes
/// of place in the tree and chain code, and a compressed point.
pub open spec fn begins_with_xpub(network: Network, bytes: Seq<u8>) -> bool {
    &&& bytes.len() >= 78
    &&& xpub_version(network, be_number(bytes.take(4)))
    &&& compressed_point(bytes.subrange(45, 78))
}

} // verus!
