//! Checks of the records in an output map.

use vstd::prelude::*;

use crate::common::{in_order, verdict};
use crate::common::{without_value, PSBTKey, PSBTValue, PsbtError};
use crate::laws::records::bare_key_is_its_type;
use crate::schema::{bare_key, key_derivation, key_length_is, key_type_is};
use crate::schema::{
    try_val_as_key_derivation, validate_bare_key, validate_expected_key_type,
    validate_fixed_key_length,
};

verus! {

/// Checks a `PSBT_OUT_REDEEM_SCRIPT` record: a bare key. The script may be any bytes.
pub fn validate_redeem_script(key: &PSBTKey, _val: &PSBTValue) -> (result: Result<(), PsbtError>)
    requires
        key@.len() > 0,
    ensures
        result == bare_key(key@, 0),
        result is Ok <==> key@ == seq![0u8],
{
    proof {
        bare_key_is_its_type(key@, 0);
    }
    validate_bare_key(key, 0)
}

/// Checks a `PSBT_OUT_WITNESS_SCRIPT` record: a bare key. The script may be any bytes.
pub fn validate_witness_script(key: &PSBTKey, _val: &PSBTValue) -> (result: Result<(), PsbtError>)
    requires
        key@.len() > 0,
    ensures
        result == bare_key(key@, 1),
        result is Ok <==> key@ == seq![1u8],
{
    proof {
        bare_key_is_its_type(key@, 1);
    }
    validate_bare_key(key, 1)
}

/// What there is to say of a `PSBT_OUT_BIP32_DERIVATION` record.
pub open spec fn bip32_derivation_record(key: Seq<u8>, val: Seq<u8>) -> Result<(), PsbtError> {
    in_order(
        key_type_is(key, 2),
        in_order(key_length_is(key, 34), verdict(key_derivation(val))),
    )
}

/// Checks a `PSBT_OUT_BIP32_DERIVATION` record: a public key of 33 bytes, and a value that is a
/// four-byte fingerprint with a list of any number of 32-bit integers.
pub fn validate_bip32_derivations(key: &PSBTKey, val: &PSBTValue) -> (result: Result<
    (),
    PsbtError,
>)
    requires
        key@.len() > 0,
    ensures
        result == bip32_derivation_record(key@, val@),
        result is Ok <==> key@[0] == 2 && key@.len() == 34 && val@.len() > 0 && val@.len() % 4
            == 0,
{
    if let Err(error) = validate_expected_key_type(key, 2) {
        return Err(error);
    }
    // the type byte and the 33 bytes of the public key
    if let Err(error) = validate_fixed_key_length(key, 34) {
        return Err(error);
    }
    without_value(try_val_as_key_derivation(val))
}

} // verus!
