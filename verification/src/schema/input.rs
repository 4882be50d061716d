//! Checks of the records in an input map.

use vstd::prelude::*;

use coins_bip32::ecdsa::VerifyingKey;

use crate::backend;
use crate::common::{in_order, or_tx_error, verdict};
use crate::common::{without_value, PSBTKey, PSBTValue, PsbtError};
use crate::keys::{compressed_point, der_signature};
use crate::laws::records::bare_key_is_its_type;
use crate::laws::verdicts::{witness_script_shape, witness_shapes};
use crate::schema::{
    bare_key, holds_pubkey, holds_signature, key_derivation, key_length_is, key_type_is,
    pubkey_and_derivation, pubkey_in, sighash_in_val, signature_in, tx_out_in,
};
use crate::schema::{
    try_key_as_pubkey, try_val_as_key_derivation, try_val_as_sighash, try_val_as_signature,
    try_val_as_tx, try_val_as_tx_out, validate_bare_key, validate_expected_key_type,
    validate_fixed_key_length, validate_fixed_val_length,
};
use crate::types::{script_type_of, sighash_of};
use crate::types::ScriptType;
use crate::wire::{legacy_tx, tx_out, Reading};

verus! {

/// What there is to say of a `PSBT_IN_NON_WITNESS_UTXO` record.
pub open spec fn non_witness_record(key: Seq<u8>, val: Seq<u8>) -> Result<(), PsbtError> {
    in_order(bare_key(key, 0), verdict(or_tx_error(backend::legacy_tx_read(val))))
}

/// Checks a `PSBT_IN_NON_WITNESS_UTXO` record: a bare key, and a transaction.
pub fn validate_in_non_witness(key: &PSBTKey, val: &PSBTValue) -> (result: Result<(), PsbtError>)
    requires
        key@.len() > 0,
        bare_key(key@, 0) is Ok ==> !(legacy_tx(val@) is Overflow),
    ensures
        result == non_witness_record(key@, val@),
        result is Ok <==> bare_key(key@, 0) is Ok && legacy_tx(val@) is Item,
        result is Ok <==> key@ == seq![0u8] && legacy_tx(val@) is Item,
{
    proof {
        bare_key_is_its_type(key@, 0);
    }
    match validate_bare_key(key, 0) {
        Ok(()) => without_value(try_val_as_tx(val)),
        Err(error) => Err(error),
    }
}

/// Whether an output with this script may be spent with a witness: it pays to a witness program,
/// or to a script hash, which may stand for one.
pub open spec fn may_take_witness(script: Seq<u8>) -> bool {
    let shape = script_type_of(script);
    shape == ScriptType::Wsh || shape == ScriptType::Wpkh || shape == ScriptType::Sh
}

/// Whether an output may be spent with a witness, as the outcome of a check.
pub open spec fn witness_txo(out: Result<(u64, Seq<u8>), PsbtError>) -> Result<(), PsbtError> {
    match out {
        Ok((_, script)) => if may_take_witness(script) {
            Ok(())
        } else {
            Err(PsbtError::InvalidWitnessTxo)
        },
        Err(error) => Err(error),
    }
}

/// What there is to say of a `PSBT_IN_WITNESS_UTXO` record.
pub open spec fn witness_record(key: Seq<u8>, val: Seq<u8>) -> Result<(), PsbtError> {
    in_order(bare_key(key, 1), witness_txo(tx_out_in(val)))
}

/// Checks a `PSBT_IN_WITNESS_UTXO` record: a bare key, and an output that may be spent with a
/// witness.
pub fn validate_in_witness(key: &PSBTKey, val: &PSBTValue) -> (result: Result<(), PsbtError>)
    requires
        key@.len() > 0,
        bare_key(key@, 1) is Ok ==> !(tx_out(val@) is Overflow),
    ensures
        result == witness_record(key@, val@),
        result is Ok <==> key@ == seq![1u8] && (tx_out(val@) matches Reading::Item((_, script), _)
            && witness_script_shape(script)),
{
    proof {
        bare_key_is_its_type(key@, 1);
        if let Reading::Item((_, script), _) = tx_out(val@) {
            witness_shapes(script);
        }
    }
    if let Err(error) = validate_bare_key(key, 1) {
        return Err(error);
    }
    let out = match try_val_as_tx_out(val) {
        Ok(out) => out,
        Err(error) => return Err(error),
    };
    match backend::standard_type(out.script_pubkey.as_slice()) {
        ScriptType::Wsh | ScriptType::Wpkh | ScriptType::Sh => Ok(()),
        _ => Err(PsbtError::InvalidWitnessTxo),
    }
}

/// Whether a key has the length of a type byte and a public key, compressed or not.
pub open spec fn pubkey_length(key: Seq<u8>) -> Result<(), PsbtError> {
    if key.len() == 34 {
        Ok(())
    } else {
        key_length_is(key, 66)
    }
}

/// What there is to say of a `PSBT_IN_PARTIAL_SIG` record.
pub open spec fn partial_sig_record(key: Seq<u8>, val: Seq<u8>) -> Result<(), PsbtError> {
    in_order(key_type_is(key, 2), in_order(pubkey_length(key), verdict(signature_in(val))))
}

/// Checks a `PSBT_IN_PARTIAL_SIG` record: a public key of 33 or 65 bytes, and a signature.
pub fn validate_in_partial_sig(key: &PSBTKey, val: &PSBTValue) -> (result: Result<(), PsbtError>)
    requires
        key@.len() > 0,
    ensures
        result == partial_sig_record(key@, val@),
        result is Ok <==> key@[0] == 2 && (key@.len() == 34 || key@.len() == 66)
            && holds_signature(val@),
        result is Ok <==> key@[0] == 2 && (key@.len() == 34 || key@.len() == 66) && val@.len() > 0
            && der_signature(val@.drop_last()) is Some && sighash_of(val@.last()) is Some,
{
    if let Err(error) = validate_expected_key_type(key, 2) {
        return Err(error);
    }
    // the type byte and the 33 or 65 bytes of the public key
    if validate_fixed_key_length(key, 34).is_err() {
        if let Err(error) = validate_fixed_key_length(key, 66) {
            return Err(error);
        }
    }
    without_value(try_val_as_signature(val))
}

/// What there is to say of a `PSBT_IN_SIGHASH_TYPE` record.
pub open spec fn sighash_type_record(key: Seq<u8>, val: Seq<u8>) -> Result<(), PsbtError> {
    in_order(bare_key(key, 3), verdict(sighash_in_val(val)))
}

/// Checks a `PSBT_IN_SIGHASH_TYPE` record: a bare key, and a sighash flag in four bytes.
pub fn validate_sighash_type(key: &PSBTKey, val: &PSBTValue) -> (result: Result<(), PsbtError>)
    requires
        key@.len() > 0,
    ensures
        result == sighash_type_record(key@, val@),
        result is Ok <==> key@ == seq![3u8] && val@.len() == 4 && val@[1] == 0 && val@[2] == 0
            && val@[3] == 0 && sighash_of(val@[0]) is Some,
{
    proof {
        bare_key_is_its_type(key@, 3);
    }
    if let Err(error) = validate_bare_key(key, 3) {
        return Err(error);
    }
    if let Err(error) = validate_fixed_val_length(val, 4) {
        return Err(error);
    }
    without_value(try_val_as_sighash(val))
}

/// Checks a `PSBT_IN_REDEEM_SCRIPT` record: a bare key. The script may be any bytes.
pub fn validate_redeem_script(key: &PSBTKey, _val: &PSBTValue) -> (result: Result<(), PsbtError>)
    requires
        key@.len() > 0,
    ensures
        result == bare_key(key@, 4),
        result is Ok <==> key@ == seq![4u8],
{
    proof {
        bare_key_is_its_type(key@, 4);
    }
    validate_bare_key(key, 4)
}

/// Checks a `PSBT_IN_WITNESS_SCRIPT` record: a bare key. The script may be any bytes.
pub fn validate_witness_script(key: &PSBTKey, _val: &PSBTValue) -> (result: Result<(), PsbtError>)
    requires
        key@.len() > 0,
    ensures
        result == bare_key(key@, 5),
        result is Ok <==> key@ == seq![5u8],
{
    proof {
        bare_key_is_its_type(key@, 5);
    }
    validate_bare_key(key, 5)
}

/// What there is to say of a `PSBT_IN_BIP32_DERIVATION` record.
pub open spec fn bip32_derivation_record(key: Seq<u8>, val: Seq<u8>) -> Result<(), PsbtError> {
    in_order(key_type_is(key, 6), verdict(pubkey_and_derivation(pubkey_in(key), val)))
}

/// Checks a derivation behind a public key that was read. A key that could not be read is
/// reported before a value that is no derivation.
pub fn validate_derivation_of(read: Result<VerifyingKey, PsbtError>, val: &PSBTValue) -> (result:
    Result<(), PsbtError>)
    ensures
        result == verdict(pubkey_and_derivation(read, val@)),
        match read {
            Ok(_) => if val@.len() > 0 && val@.len() % 4 == 0 {
                result is Ok
            } else {
                result matches Err(error) && error == PsbtError::InvalidBip32Path
            },
            Err(fault) => result matches Err(error) && error == fault,
        },
{
    match read {
        Ok(_) => without_value(try_val_as_key_derivation(val)),
        Err(error) => Err(error),
    }
}

/// Checks a `PSBT_IN_BIP32_DERIVATION` record: a public key of 33 bytes, and a value that is a
/// four-byte fingerprint with a list of any number of 32-bit integers.
pub fn validate_bip32_derivations(key: &PSBTKey, val: &PSBTValue) -> (result: Result<
    (),
    PsbtError,
>)
    requires
        key@.len() > 0,
    ensures
        result == bip32_derivation_record(key@, val@),
        result is Ok <==> key@[0] == 6 && holds_pubkey(key@) && key_derivation(val@) is Ok,
        result is Ok <==> key@[0] == 6 && key@.len() == 34 && compressed_point(key@.skip(1))
            && val@.len() > 0 && val@.len() % 4 == 0,
{
    if let Err(error) = validate_expected_key_type(key, 6) {
        return Err(error);
    }
    validate_derivation_of(try_key_as_pubkey(key), val)
}

/// Checks a `PSBT_IN_FINAL_SCRIPTSIG` record: a bare key. The script may be any bytes.
pub fn validate_finalized_script_sig(key: &PSBTKey, _val: &PSBTValue) -> (result: Result<
    (),
    PsbtError,
>)
    requires
        key@.len() > 0,
    ensures
        result == bare_key(key@, 7),
        result is Ok <==> key@ == seq![7u8],
{
    proof {
        bare_key_is_its_type(key@, 7);
    }
    validate_bare_key(key, 7)
}

/// Checks a `PSBT_IN_FINAL_SCRIPTWITNESS` record: a bare key. The witness may be any bytes.
pub fn validate_finalized_script_witness(key: &PSBTKey, _val: &PSBTValue) -> (result: Result<
    (),
    PsbtError,
>)
    requires
        key@.len() > 0,
    ensures
        result == bare_key(key@, 8),
        result is Ok <==> key@ == seq![8u8],
{
    proof {
        bare_key_is_its_type(key@, 8);
    }
    validate_bare_key(key, 8)
}

/// Checks a `PSBT_IN_POR_COMMITMENT` record: a bare key. The commitment may be any bytes.
pub fn validate_por_commitment(key: &PSBTKey, _val: &PSBTValue) -> (result: Result<(), PsbtError>)
    requires
        key@.len() > 0,
    ensures
        result == bare_key(key@, 9),
        result is Ok <==> key@ == seq![9u8],
{
    proof {
        bare_key_is_its_type(key@, 9);
    }
    validate_bare_key(key, 9)
}

} // verus!
