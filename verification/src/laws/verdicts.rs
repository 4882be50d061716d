//! Laws of which records the checks accept, and of what they refuse the others with.
//!
//! A key is written here as its type byte and the data behind it.

use vstd::prelude::*;

use bitcoins::types::{LegacyTx, TxError};
use coins_bip32::ecdsa::VerifyingKey;
use coins_bip32::Bip32Error;

use crate::backend;
use crate::common::PsbtError;
use crate::laws::derivations::{derivation_bytes, derivation_is_read_back};
use crate::laws::formats::{tx_out_bytes, tx_out_is_read_back};
use crate::laws::readings::{sighash_flag, signature_is_read_with_its_mode};
use crate::schema::{bare_key, key_length_is, key_type_is, val_length_is, xpub_depth_is};
use crate::schema::{global, input, output};
use crate::types::sighash_of;
use crate::types::{Sighash, Signature};
use crate::wire::tx_out;

verus! {

/// The fault of a key of another type.
pub open spec fn wrong_type(expected: u8, got: u8) -> Result<(), PsbtError> {
    Err(PsbtError::WrongKeyType { expected, got })
}

/// The fault of a key of another length.
pub open spec fn wrong_key_length(expected: usize, got: nat) -> Result<(), PsbtError> {
    Err(PsbtError::WrongKeyLength { expected, got: got as usize })
}

/// The fault of a value of another length.
pub open spec fn wrong_val_length(expected: usize, got: nat) -> Result<(), PsbtError> {
    Err(PsbtError::WrongValueLength { expected, got: got as usize })
}

/// Lengths and types are accepted exactly if they are those that are asked for, and otherwise the
/// fault tells both.
pub proof fn lengths_and_types_are_compared(bytes: Seq<u8>, length: usize, key_type: u8)
    ensures
        key_length_is(bytes, length) == if bytes.len() == length {
            Ok(())
        } else {
            wrong_key_length(length, bytes.len())
        },
        val_length_is(bytes, length) == if bytes.len() == length {
            Ok(())
        } else {
            wrong_val_length(length, bytes.len())
        },
        bytes.len() > 0 ==> key_type_is(bytes, key_type) == if bytes.first() == key_type {
            Ok(())
        } else {
            wrong_type(key_type, bytes.first())
        },
{
}

/// Of all keys only the type byte by itself is bare. Another type is reported before data behind
/// the type.
pub proof fn only_the_type_byte_is_bare(got: u8, data: Seq<u8>, key_type: u8)
    ensures
        bare_key(seq![key_type], key_type) == Ok::<(), PsbtError>(()),
        got != key_type ==> bare_key(seq![got] + data, key_type) == wrong_type(key_type, got),
        data.len() > 0 ==> bare_key(seq![key_type] + data, key_type) == wrong_key_length(
            1,
            1 + data.len(),
        ),
{
}

/// The depth marker of an extended key stands behind the type and the version, and has to be the
/// number of steps in the derivation, whatever these are.
pub proof fn depth_marker_is_the_number_of_steps(
    head: Seq<u8>,
    depth: u8,
    data: Seq<u8>,
    root: Seq<u8>,
    path: Seq<u32>,
)
    requires
        head.len() == 5,
        root.len() == 4,
    ensures
        xpub_depth_is(head + seq![depth] + data, derivation_bytes(root, path)) == if path.len()
            == depth {
            Ok(())
        } else {
            Err(PsbtError::Bip32DepthMismatch)
        },
        xpub_depth_is(head, derivation_bytes(root, path)) == Err::<(), PsbtError>(
            PsbtError::Bip32DepthMismatch,
        ),
{
    let key = head + seq![depth] + data;
    assert(key[5] == depth);
    assert(derivation_bytes(root, path).len() / 4 - 1 == path.len());
}

/// The record of an extended key is accepted with every derivation that has as many steps as the
/// key states, and with no other value.
pub proof fn xpub_record_is_accepted(
    version: Seq<u8>,
    depth: u8,
    data: Seq<u8>,
    root: Seq<u8>,
    path: Seq<u32>,
    val: Seq<u8>,
)
    requires
        version.len() == 4,
        data.len() == 73,
        root.len() == 4,
    ensures
        ({
            let key = seq![1u8] + version + seq![depth] + data;
            &&& global::xpub_record(key, derivation_bytes(root, path)) == if path.len() == depth {
                Ok(())
            } else {
                Err(PsbtError::Bip32DepthMismatch)
            }
            &&& val.len() < 4 ==> global::xpub_record(key, val) == Err::<(), PsbtError>(
                PsbtError::InvalidBip32Path,
            )
            &&& val.len() >= 4 && val.len() / 4 - 1 != depth ==> global::xpub_record(key, val)
                == Err::<(), PsbtError>(PsbtError::Bip32DepthMismatch)
            &&& val.len() / 4 - 1 == depth && val.len() % 4 != 0 ==> global::xpub_record(key, val)
                == Err::<(), PsbtError>(PsbtError::InvalidBip32Path)
        }),
{
    let key = seq![1u8] + version + seq![depth] + data;
    assert(key[0] == 1 && key[5] == depth && key.len() == 79);
    derivation_is_read_back(root, path);
    assert(derivation_bytes(root, path).len() / 4 - 1 == path.len());
}

/// Keys of another type or length are refused in the record of an extended key, whatever the
/// value is.
pub proof fn xpub_record_refuses_other_keys(got: u8, data: Seq<u8>, val: Seq<u8>)
    ensures
        got != 1 ==> global::xpub_record(seq![got] + data, val) == wrong_type(1, got),
        data.len() != 78 ==> global::xpub_record(seq![1u8] + data, val) == wrong_key_length(
            79,
            1 + data.len(),
        ),
{
}

/// A version is accepted exactly if it has 32 bytes and stands behind its type byte.
pub proof fn version_record_is_accepted(got: u8, data: Seq<u8>, val: Seq<u8>)
    ensures
        global::version_record(seq![0xfbu8], val) == if val.len() == 32 {
            Ok(())
        } else {
            wrong_val_length(32, val.len())
        },
        got != 0xfb ==> global::version_record(seq![got] + data, val) == wrong_type(0xfb, got),
        data.len() > 0 ==> global::version_record(seq![0xfbu8] + data, val) == wrong_key_length(
            1,
            1 + data.len(),
        ),
{
}

/// Every transaction that can be read is accepted behind its type byte, in the global map and in
/// an input map, and what cannot be read is refused as the outside reader refuses it.
pub proof fn tx_records_are_accepted(
    got: u8,
    data: Seq<u8>,
    val: Seq<u8>,
    tx: LegacyTx,
    refusal: TxError,
)
    ensures
        backend::legacy_tx_read(val) == Ok::<LegacyTx, TxError>(tx) ==> global::tx_record(
            seq![0u8],
            val,
        ) == Ok::<(), PsbtError>(()) && input::non_witness_record(seq![0u8], val) == Ok::<
            (),
            PsbtError,
        >(()),
        backend::legacy_tx_read(val) == Err::<LegacyTx, TxError>(refusal) ==> global::tx_record(
            seq![0u8],
            val,
        ) == Err::<(), PsbtError>(PsbtError::TxError(refusal)) && input::non_witness_record(
            seq![0u8],
            val,
        ) == Err::<(), PsbtError>(PsbtError::TxError(refusal)),
        got != 0 ==> global::tx_record(seq![got] + data, val) == wrong_type(0, got)
            && input::non_witness_record(seq![got] + data, val) == wrong_type(0, got),
        data.len() > 0 ==> global::tx_record(seq![0u8] + data, val) == wrong_key_length(
            1,
            1 + data.len(),
        ) && input::non_witness_record(seq![0u8] + data, val) == wrong_key_length(
            1,
            1 + data.len(),
        ),
{
}

/// Whether a script is a version zero witness program with a hash of 20 or 32 bytes, or pays to
/// the 20-byte hash of a script.
pub open spec fn witness_script_shape(script: Seq<u8>) -> bool {
    ||| exists|hash: Seq<u8>| hash.len() == 20 && #[trigger] wpkh_script(hash) == script
    ||| exists|hash: Seq<u8>| hash.len() == 32 && #[trigger] wsh_script(hash) == script
    ||| exists|hash: Seq<u8>| hash.len() == 20 && #[trigger] sh_script(hash) == script
}

/// The script that pays to the witness hash of a public key.
pub open spec fn wpkh_script(hash: Seq<u8>) -> Seq<u8> {
    seq![0x00u8, 0x14u8] + hash
}

/// The script that pays to the witness hash of a script.
pub open spec fn wsh_script(hash: Seq<u8>) -> Seq<u8> {
    seq![0x00u8, 0x20u8] + hash
}

/// The script that pays to the hash of a script.
pub open spec fn sh_script(hash: Seq<u8>) -> Seq<u8> {
    seq![0xa9u8, 0x14u8] + hash + seq![0x87u8]
}

/// The scripts of a witness program and of a script hash are the ones that may be spent with a
/// witness.
pub proof fn witness_shapes(script: Seq<u8>)
    ensures
        input::may_take_witness(script) <==> witness_script_shape(script),
{
    let n = script.len() as int;
    if input::may_take_witness(script) {
        if n == 22 {
            assert(wpkh_script(script.skip(2)) =~= script);
        } else if n == 34 {
            assert(wsh_script(script.skip(2)) =~= script);
        } else {
            assert(sh_script(script.subrange(2, 22)) =~= script);
        }
    }
}

/// An output is accepted as a witness output exactly if its script is a witness program or pays
/// to the hash of a script, whatever its value is and whatever stands behind it.
pub proof fn witness_output_record_is_accepted(value: u64, script: Seq<u8>, tail: Seq<u8>)
    requires
        script.len() <= isize::MAX,
    ensures
        input::witness_record(seq![1u8], tx_out_bytes(value, script) + tail)
            == if witness_script_shape(script) {
            Ok(())
        } else {
            Err(PsbtError::InvalidWitnessTxo)
        },
{
    tx_out_is_read_back(value, script, tail);
    witness_shapes(script);
}

/// Other keys and values that are no outputs are refused as witness outputs.
pub proof fn witness_output_record_refuses_others(got: u8, data: Seq<u8>, val: Seq<u8>)
    ensures
        !(tx_out(val) is Item) ==> input::witness_record(seq![1u8], val) == Err::<(), PsbtError>(
            PsbtError::SerError(backend::tx_out_error(val)),
        ),
        got != 1 ==> input::witness_record(seq![got] + data, val) == wrong_type(1, got),
        data.len() > 0 ==> input::witness_record(seq![1u8] + data, val) == wrong_key_length(
            1,
            1 + data.len(),
        ),
{
}

/// A partial signature is accepted behind 33 or 65 bytes of key data, whatever these are, exactly
/// if the signature can be read and its flag is that of a mode.
pub proof fn partial_sig_record_is_accepted(
    data: Seq<u8>,
    der: Seq<u8>,
    signature: Signature,
    refusal: Bip32Error,
    mode: Sighash,
    flag: u8,
)
    requires
        data.len() == 33 || data.len() == 65,
    ensures
        backend::asn1_read(der) == Ok::<Signature, Bip32Error>(signature)
            ==> input::partial_sig_record(seq![2u8] + data, der.push(sighash_flag(mode))) == Ok::<
            (),
            PsbtError,
        >(()),
        backend::asn1_read(der) == Err::<Signature, Bip32Error>(refusal)
            ==> input::partial_sig_record(seq![2u8] + data, der.push(flag)) == Err::<
            (),
            PsbtError,
        >(PsbtError::Bip32Error(refusal)),
        backend::asn1_read(der) is Ok && (forall|known: Sighash| flag != sighash_flag(known))
            ==> input::partial_sig_record(seq![2u8] + data, der.push(flag)) == Err::<
            (),
            PsbtError,
        >(PsbtError::TxError(backend::unknown_sighash_error(flag))),
        input::partial_sig_record(seq![2u8] + data, Seq::empty()) == wrong_val_length(75, 0),
{
    signature_is_read_with_its_mode(der, signature, mode, refusal, flag);
}

/// Keys of another type or length are refused with a partial signature, whatever the value is.
pub proof fn partial_sig_record_refuses_other_keys(got: u8, data: Seq<u8>, val: Seq<u8>)
    ensures
        got != 2 ==> input::partial_sig_record(seq![got] + data, val) == wrong_type(2, got),
        data.len() != 33 && data.len() != 65 ==> input::partial_sig_record(seq![2u8] + data, val)
            == wrong_key_length(66, 1 + data.len()),
{
}

/// A sighash record is accepted exactly if its value is the flag of a mode in four bytes.
pub proof fn sighash_record_is_accepted(got: u8, data: Seq<u8>, val: Seq<u8>, mode: Sighash)
    ensures
        input::sighash_type_record(seq![3u8], seq![sighash_flag(mode), 0u8, 0u8, 0u8]) == Ok::<
            (),
            PsbtError,
        >(()),
        input::sighash_type_record(seq![3u8], val) == (if val.len() != 4 {
            wrong_val_length(4, val.len())
        } else if val[1] != 0 || val[2] != 0 || val[3] != 0 {
            Err(PsbtError::TxError(backend::unknown_sighash_error(0xff)))
        } else if exists|known: Sighash| val[0] == sighash_flag(known) {
            Ok(())
        } else {
            Err(PsbtError::TxError(backend::unknown_sighash_error(val[0])))
        }),
        got != 3 ==> input::sighash_type_record(seq![got] + data, val) == wrong_type(3, got),
        data.len() > 0 ==> input::sighash_type_record(seq![3u8] + data, val) == wrong_key_length(
            1,
            1 + data.len(),
        ),
{
    let flags = seq![sighash_flag(mode), 0u8, 0u8, 0u8];
    assert(flags[0] == sighash_flag(mode) && flags[1] == 0 && flags[2] == 0 && flags[3] == 0);
    if val.len() == 4 {
        let read = sighash_of(val[0]);
        if read is Some {
            assert(val[0] == sighash_flag(read->Some_0));
        }
        assert forall|known: Sighash| val[0] == sighash_flag(known) implies read is Some by {}
    }
}

/// The derivation record of an input is accepted with every public key that can be read and every
/// derivation, of any number of steps. A key that cannot be read is reported first, as the outside
/// reader reports it.
pub proof fn input_derivation_is_accepted(
    data: Seq<u8>,
    pubkey: VerifyingKey,
    refusal: Bip32Error,
    root: Seq<u8>,
    path: Seq<u32>,
    val: Seq<u8>,
)
    requires
        data.len() == 33,
        root.len() == 4,
    ensures
        backend::sec1_read(data) == Ok::<VerifyingKey, Bip32Error>(pubkey)
            ==> input::bip32_derivation_record(seq![6u8] + data, derivation_bytes(root, path))
            == Ok::<(), PsbtError>(()),
        backend::sec1_read(data) is Ok && (val.len() == 0 || val.len() % 4 != 0)
            ==> input::bip32_derivation_record(seq![6u8] + data, val) == Err::<(), PsbtError>(
            PsbtError::InvalidBip32Path,
        ),
        backend::sec1_read(data) == Err::<VerifyingKey, Bip32Error>(refusal)
            ==> input::bip32_derivation_record(seq![6u8] + data, val) == Err::<(), PsbtError>(
            PsbtError::Bip32Error(refusal),
        ),
{
    assert((seq![6u8] + data).skip(1) =~= data);
    derivation_is_read_back(root, path);
}

/// Keys of another type or length are refused in the derivation record of an input, whatever the
/// value is.
pub proof fn input_derivation_refuses_other_keys(got: u8, data: Seq<u8>, val: Seq<u8>)
    ensures
        got != 6 ==> input::bip32_derivation_record(seq![got] + data, val) == wrong_type(6, got),
        data.len() != 33 ==> input::bip32_derivation_record(seq![6u8] + data, val)
            == wrong_key_length(34, 1 + data.len()),
{
}

/// The derivation record of an output is accepted with any 33 bytes of key data and every
/// derivation, of any number of steps, and with no other value.
pub proof fn output_derivation_is_accepted(
    data: Seq<u8>,
    root: Seq<u8>,
    path: Seq<u32>,
    val: Seq<u8>,
)
    requires
        data.len() == 33,
        root.len() == 4,
    ensures
        output::bip32_derivation_record(seq![2u8] + data, derivation_bytes(root, path)) == Ok::<
            (),
            PsbtError,
        >(()),
        output::bip32_derivation_record(seq![2u8] + data, val) == if val.len() > 0 && val.len() % 4
            == 0 {
            Ok(())
        } else {
            Err(PsbtError::InvalidBip32Path)
        },
{
    derivation_is_read_back(root, path);
}

/// Keys of another type or length are refused in the derivation record of an output, whatever the
/// value is.
pub proof fn output_derivation_refuses_other_keys(got: u8, data: Seq<u8>, val: Seq<u8>)
    ensures
        got != 2 ==> output::bip32_derivation_record(seq![got] + data, val) == wrong_type(2, got),
        data.len() != 33 ==> output::bip32_derivation_record(seq![2u8] + data, val)
            == wrong_key_length(34, 1 + data.len()),
{
}

} // verus!
