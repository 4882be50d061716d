//! Checks of the records in the global map.

use vstd::prelude::*;

use crate::backend;
use crate::common::{in_order, or_tx_error, verdict};
use crate::common::{without_value, PSBTKey, PSBTValue, PsbtError};
use crate::laws::records::bare_key_is_its_type;
use crate::schema::{
    bare_key, key_derivation, key_length_is, key_type_is, val_length_is, xpub_depth_is,
};
use crate::schema::{
    try_val_as_key_derivation, try_val_as_tx, validate_bare_key, validate_expected_key_type,
    validate_fixed_key_length, validate_fixed_val_length, validate_xpub_depth,
};
use crate::wire::legacy_tx;

verus! {

/// What there is to say of a `PSBT_GLOBAL_UNSIGNED_TX` record.
pub open spec fn tx_record(key: Seq<u8>, val: Seq<u8>) -> Result<(), PsbtError> {
    in_order(bare_key(key, 0), verdict(or_tx_error(backend::legacy_tx_read(val))))
}

/// Checks a `PSBT_GLOBAL_UNSIGNED_TX` record: a bare key, and a transaction without witnesses.
pub fn validate_tx(key: &PSBTKey, val: &PSBTValue) -> (result: Result<(), PsbtError>)
    requires
        key@.len() > 0,
        bare_key(key@, 0) is Ok ==> !(legacy_tx(val@) is Overflow),
    ensures
        result == tx_record(key@, val@),
        result is Ok <==> bare_key(key@, 0) is Ok && legacy_tx(val@) is Item,
        result is Ok <==> key@ == seq![0u8] && legacy_tx(val@) is Item,
{
    proof {
        bare_key_is_its_type(key@, 0);
    }
    match validate_bare_key(key, 0) {
        Ok(()) => without_value(try_val_as_tx(val)),
        Err(error) => Err(error),
    }
}

/// Whether a value is the derivation of the extended key in a key. A value without room for a
/// fingerprint has no depth to compare; otherwise a wrong depth is reported before a value that is
/// no derivation.
pub open spec fn xpub_derivation(key: Seq<u8>, val: Seq<u8>) -> Result<(), PsbtError> {
    if val.len() < 4 {
        Err(PsbtError::InvalidBip32Path)
    } else {
        in_order(xpub_depth_is(key, val), verdict(key_derivation(val)))
    }
}

/// What there is to say of a `PSBT_GLOBAL_XPUB` record.
pub open spec fn xpub_record(key: Seq<u8>, val: Seq<u8>) -> Result<(), PsbtError> {
    in_order(key_type_is(key, 1), in_order(key_length_is(key, 79), xpub_derivation(key, val)))
}

/// Checks a `PSBT_GLOBAL_XPUB` record: an extended public key of 78 bytes, a value that is a
/// four-byte fingerprint with a list of 32-bit integers, and as many of these as the key's depth
/// says.
pub fn validate_xpub(key: &PSBTKey, val: &PSBTValue) -> (result: Result<(), PsbtError>)
    requires
        key@.len() > 0,
    ensures
        result == xpub_record(key@, val@),
        result is Ok <==> key@[0] == 1 && key@.len() == 79 && val@.len() % 4 == 0 && key@[5] + 1
            == val@.len() / 4,
{
    if let Err(error) = validate_expected_key_type(key, 1) {
        return Err(error);
    }
    if let Err(error) = validate_fixed_key_length(key, 79) {
        return Err(error);
    }
    if val.len() < 4 {
        return Err(PsbtError::InvalidBip32Path);
    }
    if let Err(error) = validate_xpub_depth(key, val) {
        return Err(error);
    }
    without_value(try_val_as_key_derivation(val))
}

/// What there is to say of a `PSBT_GLOBAL_VERSION` record.
pub open spec fn version_record(key: Seq<u8>, val: Seq<u8>) -> Result<(), PsbtError> {
    in_order(bare_key(key, 0xfb), val_length_is(val, 32))
}

/// Checks a `PSBT_GLOBAL_VERSION` record: a bare key, and a version of exactly 32 bytes.
pub fn validate_version(key: &PSBTKey, val: &PSBTValue) -> (result: Result<(), PsbtError>)
    requires
        key@.len() > 0,
    ensures
        result == version_record(key@, val@),
        result is Ok <==> key@ == seq![0xfbu8] && val@.len() == 32,
{
    proof {
        bare_key_is_its_type(key@, 0xfb);
    }
    match validate_bare_key(key, 0xfb) {
        Ok(()) => validate_fixed_val_length(val, 32),
        Err(error) => Err(error),
    }
}

} // verus!
