//! Laws of key derivations.

use vstd::prelude::*;

use crate::common::PsbtError;
use crate::schema::{derivation_path, key_derivation};
use crate::wire::{le4, octet};

verus! {

/// The byte at `at` of the four little-endian bytes of a number.
pub open spec fn le4_byte(number: u32, at: int) -> u8 {
    if at == 0 {
        (number % 0x100) as u8
    } else if at == 1 {
        (number / 0x100 % 0x100) as u8
    } else if at == 2 {
        (number / 0x1_0000 % 0x100) as u8
    } else {
        (number / 0x100_0000) as u8
    }
}

/// A key derivation as the value of a record: the fingerprint, and each child index in four
/// little-endian bytes.
pub open spec fn derivation_bytes(root: Seq<u8>, path: Seq<u32>) -> Seq<u8> {
    Seq::new(
        4 + 4 * path.len(),
        |at: int|
            if at < 4 {
                root[at]
            } else {
                le4_byte(path[(at - 4) / 4], (at - 4) % 4)
            },
    )
}

/// Every derivation can be written as a value, and is read back from it.
pub proof fn derivation_is_read_back(root: Seq<u8>, path: Seq<u32>)
    requires
        root.len() == 4,
    ensures
        key_derivation(derivation_bytes(root, path)) == Ok::<(Seq<u8>, Seq<u32>), PsbtError>(
            (root, path),
        ),
{
    let val = derivation_bytes(root, path);
    assert(val.take(4) =~= root);
    assert forall|i: int| 0 <= i < path.len() implies derivation_path(val)[i] == path[i] by {
        let at = 4 + 4 * i;
        assert((at - 4) / 4 == i && (at + 1 - 4) / 4 == i && (at + 2 - 4) / 4 == i && (at + 3 - 4)
            / 4 == i);
        assert((at - 4) % 4 == 0 && (at + 1 - 4) % 4 == 1 && (at + 2 - 4) % 4 == 2 && (at + 3 - 4)
            % 4 == 3);
        assert(octet(val, at) == le4_byte(path[i], 0));
        assert(octet(val, at + 1) == le4_byte(path[i], 1));
        assert(octet(val, at + 2) == le4_byte(path[i], 2));
        assert(octet(val, at + 2 + 1) == le4_byte(path[i], 3));
        assert(le4(val, at) == path[i]);
    }
    assert(derivation_path(val) =~= path);
}

/// The four bytes of a number are the ones that it was put together from.
proof fn le4_bytes_of(number: u32, a: u8, b: u8, c: u8, d: u8)
    requires
        number == a + 0x100 * b + 0x1_0000 * c + 0x100_0000 * d,
    ensures
        le4_byte(number, 0) == a,
        le4_byte(number, 1) == b,
        le4_byte(number, 2) == c,
        le4_byte(number, 3) == d,
{
    assert(number / 0x100 == b + 0x100 * c + 0x1_0000 * d);
    assert(number / 0x1_0000 == c + 0x100 * d);
    assert(number / 0x100_0000 == d);
}

/// A value that is read as a derivation is the one that the derivation is written as. So no two
/// values are read as the same derivation.
pub proof fn derivation_determines_its_value(val: Seq<u8>)
    requires
        key_derivation(val) is Ok,
    ensures
        key_derivation(val) matches Ok((root, path)) && root.len() == 4 && derivation_bytes(
            root,
            path,
        ) == val,
{
    let root = val.take(4);
    let path = derivation_path(val);
    assert forall|at: int| 4 <= at < val.len() implies #[trigger] derivation_bytes(root, path)[at]
        == val[at] by {
        let i = (at - 4) / 4;
        let start = 4 + 4 * i;
        assert(0 <= i < path.len());
        assert(path[i] == le4(val, start) as u32);
        le4_bytes_of(path[i], val[start], val[start + 1], val[start + 2], val[start + 3]);
    }
    assert(derivation_bytes(root, path) =~= val);
}

} // verus!
