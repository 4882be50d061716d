//! Laws of the checks of records.

use vstd::prelude::*;

use crate::backend;
use crate::schema::{bare_key, key_derivation, pubkey_and_derivation, pubkey_and_signature};
use crate::schema::{pubkey_in, sighash_in_val, signature_in, tx_out_in};
use crate::schema::{global, input, output};
use crate::types::script_type_of;
use crate::types::{ScriptType, Sighash};

verus! {

/// A key is bare exactly if it is its type byte.
pub proof fn bare_key_is_its_type(key: Seq<u8>, key_type: u8)
    requires
        key.len() > 0,
    ensures
        bare_key(key, key_type) is Ok <==> key == seq![key_type],
{
    if bare_key(key, key_type) is Ok {
        assert(key =~= seq![key_type]);
    }
}

/// Which public key is read from a key does not depend on the type byte.
pub proof fn pubkey_does_not_depend_on_the_type(one: u8, two: u8, data: Seq<u8>)
    ensures
        pubkey_in(seq![one] + data) == pubkey_in(seq![two] + data),
{
    assert((seq![one] + data).skip(1) =~= data);
    assert((seq![two] + data).skip(1) =~= data);
}

/// A check accepts records of its own type only. So no record is accepted by the checks of two
/// types of one map.
pub proof fn a_check_accepts_one_type(key: Seq<u8>, val: Seq<u8>)
    requires
        key.len() > 0,
    ensures
        global::tx_record(key, val) is Ok ==> key[0] == 0,
        global::xpub_record(key, val) is Ok ==> key[0] == 1,
        global::version_record(key, val) is Ok ==> key[0] == 0xfb,
        input::non_witness_record(key, val) is Ok ==> key[0] == 0,
        input::witness_record(key, val) is Ok ==> key[0] == 1,
        input::partial_sig_record(key, val) is Ok ==> key[0] == 2,
        input::sighash_type_record(key, val) is Ok ==> key[0] == 3,
        input::bip32_derivation_record(key, val) is Ok ==> key[0] == 6,
        output::bip32_derivation_record(key, val) is Ok ==> key[0] == 2,
        forall|key_type: u8| #[trigger] bare_key(key, key_type) is Ok ==> key[0] == key_type,
{
}

/// The record of an extended key is accepted exactly if its key is a type byte and 78 bytes, its
/// value is a derivation, and the key states as its depth the number of steps in the derivation.
pub proof fn xpub_depth_counts_the_path(key: Seq<u8>, val: Seq<u8>)
    requires
        key.len() > 0,
    ensures
        global::xpub_record(key, val) is Ok <==> key.len() == 79 && key[0] == 1 && (key_derivation(
            val,
        ) matches Ok((_, path)) && path.len() == key[5]),
{
}

/// The derivation record of an input is accepted exactly if it is of its type and can be read as a
/// public key with its derivation. Its key is then not one of the length that cannot be read.
pub proof fn input_derivation_can_be_read(key: Seq<u8>, val: Seq<u8>)
    requires
        key.len() > 0,
    ensures
        input::bip32_derivation_record(key, val) is Ok <==> key[0] == 6 && pubkey_and_derivation(
            pubkey_in(key),
            val,
        ) is Ok,
        input::bip32_derivation_record(key, val) is Ok ==> key.len() != 66,
{
}

/// The derivation record of an output that is accepted can be read as a public key with its
/// derivation if the key holds a point of the curve, and only then. Its key is not one of the
/// length that cannot be read.
pub proof fn output_derivation_can_be_read(key: Seq<u8>, val: Seq<u8>)
    requires
        key.len() > 0,
        output::bip32_derivation_record(key, val) is Ok,
    ensures
        key.len() != 66,
        pubkey_and_derivation(pubkey_in(key), val) is Ok <==> backend::sec1_read(key.skip(1)) is Ok,
{
}

/// The signature in a partial signature record that is accepted can be read. So the whole record
/// can be read exactly if its public key can.
pub proof fn partial_signature_can_be_read(key: Seq<u8>, val: Seq<u8>)
    requires
        key.len() > 0,
        input::partial_sig_record(key, val) is Ok,
    ensures
        signature_in(val) is Ok,
        pubkey_and_signature(pubkey_in(key), signature_in(val)) is Ok <==> pubkey_in(key) is Ok,
{
}

/// The output in a witness output record that is accepted can be read, and pays to a witness
/// program or to a script hash.
pub proof fn witness_output_can_be_read(key: Seq<u8>, val: Seq<u8>)
    requires
        key.len() > 0,
    ensures
        input::witness_record(key, val) is Ok <==> key == seq![1u8] && (tx_out_in(val) matches Ok(
            (_, script),
        ) && (script_type_of(script) == ScriptType::Wsh || script_type_of(script)
            == ScriptType::Wpkh || script_type_of(script) == ScriptType::Sh)),
{
    bare_key_is_its_type(key, 1);
}

/// A sighash record is accepted exactly if it is of its type, has a bare key, and a mode can be
/// read from it.
pub proof fn sighash_mode_can_be_read(key: Seq<u8>, val: Seq<u8>)
    requires
        key.len() > 0,
    ensures
        input::sighash_type_record(key, val) is Ok <==> key == seq![3u8] && sighash_in_val(
            val,
        ) is Ok,
{
    bare_key_is_its_type(key, 3);
}

/// Each sighash mode is read from one value only.
pub proof fn sighash_mode_determines_its_value(one: Seq<u8>, two: Seq<u8>, mode: Sighash)
    requires
        sighash_in_val(one) matches Ok(read) && read == mode,
        sighash_in_val(two) matches Ok(read) && read == mode,
    ensures
        one == two,
{
    assert(one =~= two);
}

} // verus!
