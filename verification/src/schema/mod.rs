//! Readers and checks of records.

use vstd::prelude::*;
use vstd::slice::slice_subrange;

use bitcoins::types::{LegacyTx, TxError};
use coins_bip32::ecdsa::VerifyingKey;
use coins_bip32::xkeys::XPub;
use coins_bip32::Bip32Error;

use crate::backend;
use crate::common::{from_bip32, from_tx, PSBTKey, PSBTValue, PsbtError};
use crate::common::{agrees, in_order, or_bip32_error, or_tx_error};
use crate::keys::{be_number, begins_with_xpub, compressed_point, der_signature};
use crate::laws::derivations::{derivation_bytes, derivation_determines_its_value};
use crate::laws::readings::{sighash_flag, sighash_mode_is_read_back};
use crate::types::{sighash_of, witness_view};
use crate::types::{
    DerivedPubkey, KeyDerivation, Network, Sighash, Signature, TxOut, Witness,
};
use crate::wire::{compact_int, le4, legacy_tx, legacy_tx_bytes, tx_out, witness, Reading};

pub mod global;
pub mod input;
pub mod kv_type_schema;
pub mod output;

pub use kv_type_schema::{KvPredicate, KvTypeSchema};

verus! {

/// Whether a key has the length `length`.
pub open spec fn key_length_is(key: Seq<u8>, length: usize) -> Result<(), PsbtError> {
    if key.len() == length {
        Ok(())
    } else {
        Err(PsbtError::WrongKeyLength { expected: length, got: key.len() as usize })
    }
}

/// Whether a value has the length `length`.
pub open spec fn val_length_is(val: Seq<u8>, length: usize) -> Result<(), PsbtError> {
    if val.len() == length {
        Ok(())
    } else {
        Err(PsbtError::WrongValueLength { expected: length, got: val.len() as usize })
    }
}

/// Whether a key is of the type `key_type`.
pub open spec fn key_type_is(key: Seq<u8>, key_type: u8) -> Result<(), PsbtError> {
    if key[0] == key_type {
        Ok(())
    } else {
        Err(PsbtError::WrongKeyType { expected: key_type, got: key[0] })
    }
}

/// Whether a key is the type byte `key_type` and nothing more.
pub open spec fn bare_key(key: Seq<u8>, key_type: u8) -> Result<(), PsbtError> {
    in_order(key_type_is(key, key_type), key_length_is(key, 1))
}

/// The child indices of a key derivation: the numbers behind the fingerprint.
pub open spec fn derivation_path(val: Seq<u8>) -> Seq<u32> {
    Seq::new((val.len() / 4 - 1) as nat, |i: int| le4(val, 4 + 4 * i) as u32)
}

/// A key derivation: a four-byte fingerprint and any number of four-byte child indices.
pub open spec fn key_derivation(val: Seq<u8>) -> Result<(Seq<u8>, Seq<u32>), PsbtError> {
    if val.len() == 0 || val.len() % 4 != 0 {
        Err(PsbtError::InvalidBip32Path)
    } else {
        Ok((val.take(4), derivation_path(val)))
    }
}

/// Reads a value as the fingerprint of a root key and the child indices on the way from it.
pub fn try_val_as_key_derivation(val: &PSBTValue) -> (result: Result<KeyDerivation, PsbtError>)
    ensures
        agrees(result, key_derivation(val@)),
        result is Ok <==> val@.len() > 0 && val@.len() % 4 == 0,
        result matches Ok(derivation) ==> derivation_bytes(derivation.root@, derivation.path@)
            == val@,
        result matches Err(error) ==> error == PsbtError::InvalidBip32Path,
{
    if val.is_empty() || val.len() % 4 != 0 {
        return Err(PsbtError::InvalidBip32Path);
    }
    let limit: usize = val.len() / 4 - 1;
    let mut deriv_bytes = val.items();

    let root = match backend::read_fingerprint(&mut deriv_bytes) {
        Ok(root) => root,
        Err(error) => return Err(PsbtError::Bip32Error(error)),
    };
    let mut path: Vec<u32> = Vec::new();
    let mut i: usize = 0;
    while i < limit
        invariant
            val@.len() == 4 * (limit + 1),
            i <= limit,
            deriv_bytes@ == val@.skip(4 + 4 * i),
            path@ == derivation_path(val@).take(i as int),
        decreases limit - i,
    {
        match backend::read_u32_le(&mut deriv_bytes) {
            Ok(index) => {
                assert(index == derivation_path(val@)[i as int]);
                path.push(index);
            },
            Err(error) => return Err(PsbtError::SerError(error)),
        }
        i = i + 1;
        assert(val@.skip(4 + 4 * (i - 1)).skip(4) =~= val@.skip(4 + 4 * i));
        assert(path@ =~= derivation_path(val@).take(i as int));
    }
    assert(path@ =~= derivation_path(val@));
    proof {
        derivation_determines_its_value(val@);
    }
    Ok(KeyDerivation { root, path })
}

/// Checks that a key has a certain length.
pub fn validate_fixed_key_length(key: &PSBTKey, length: usize) -> (result: Result<(), PsbtError>)
    ensures
        result == key_length_is(key@, length),
        result is Ok <==> key@.len() == length,
        result matches Err(error) ==> error == (PsbtError::WrongKeyLength {
            expected: length,
            got: key@.len() as usize,
        }),
{
    if key.len() != length {
        Err(PsbtError::WrongKeyLength { expected: length, got: key.len() })
    } else {
        Ok(())
    }
}

/// Checks that a value has a certain length.
pub fn validate_fixed_val_length(val: &PSBTValue, length: usize) -> (result: Result<
    (),
    PsbtError,
>)
    ensures
        result == val_length_is(val@, length),
        result is Ok <==> val@.len() == length,
        result matches Err(error) ==> error == (PsbtError::WrongValueLength {
            expected: length,
            got: val@.len() as usize,
        }),
{
    if val.len() != length {
        Err(PsbtError::WrongValueLength { expected: length, got: val.len() })
    } else {
        Ok(())
    }
}

/// Checks that a key is its type byte and nothing more.
pub fn validate_single_byte_key_type(key: &PSBTKey) -> (result: Result<(), PsbtError>)
    ensures
        result == key_length_is(key@, 1),
{
    validate_fixed_key_length(key, 1)
}

/// Checks that a key is of a certain type.
pub fn validate_expected_key_type(key: &PSBTKey, key_type: u8) -> (result: Result<(), PsbtError>)
    requires
        key@.len() > 0,
    ensures
        result == key_type_is(key@, key_type),
        result is Ok <==> key@[0] == key_type,
        result matches Err(error) ==> error == (PsbtError::WrongKeyType {
            expected: key_type,
            got: key@[0],
        }),
{
    if key.key_type() != key_type {
        Err(PsbtError::WrongKeyType { expected: key_type, got: key.key_type() })
    } else {
        Ok(())
    }
}

/// Checks that a key is a certain type byte and nothing more.
pub(crate) fn validate_bare_key(key: &PSBTKey, key_type: u8) -> (result: Result<(), PsbtError>)
    requires
        key@.len() > 0,
    ensures
        result == bare_key(key@, key_type),
{
    match validate_expected_key_type(key, key_type) {
        Ok(()) => validate_single_byte_key_type(key),
        Err(error) => Err(error),
    }
}

/// Whether the depth that an extended key states is the number of child indices in a value. The
/// depth stands behind the type byte and the four version bytes.
pub open spec fn xpub_depth_is(key: Seq<u8>, val: Seq<u8>) -> Result<(), PsbtError> {
    if key.len() > 5 && key[5] == val.len() / 4 - 1 {
        Ok(())
    } else {
        Err(PsbtError::Bip32DepthMismatch)
    }
}

/// Compares an extended public key with its derivation: the depth marker in the key has to match
/// the depth of the derivation.
pub fn validate_xpub_depth(key: &PSBTKey, val: &PSBTValue) -> (result: Result<(), PsbtError>)
    requires
        val@.len() >= 4,
    ensures
        result == xpub_depth_is(key@, val@),
        result is Ok <==> key@.len() > 5 && key@[5] + 1 == val@.len() / 4,
        result matches Err(error) ==> error == PsbtError::Bip32DepthMismatch,
{
    let expected: usize = val.len() / 4 - 1;
    if key.len() > 5 && key.items()[5] as usize == expected {
        Ok(())
    } else {
        Err(PsbtError::Bip32DepthMismatch)
    }
}

/// The public key in a key: the 33 bytes behind the type byte.
pub open spec fn pubkey_in(key: Seq<u8>) -> Result<VerifyingKey, PsbtError> {
    match key_length_is(key, 34) {
        Ok(_) => or_bip32_error(backend::sec1_read(key.skip(1))),
        Err(error) => Err(error),
    }
}

/// Whether a key is a type byte and a compressed point.
pub open spec fn holds_pubkey(key: Seq<u8>) -> bool {
    key.len() == 34 && compressed_point(key.skip(1))
}

/// The key of a record about a public key: the type byte and the compressed public key. Whatever
/// the type is, [`try_key_as_pubkey`] reads from it a public key with the same encoding.
pub fn pubkey_as_key(key_type: u8, pubkey: &VerifyingKey) -> (key: PSBTKey)
    ensures
        key@ == seq![key_type] + backend::sec1_bytes(*pubkey),
        holds_pubkey(key@),
{
    let sec1 = backend::write_sec1(pubkey);
    let mut bytes: Vec<u8> = Vec::new();
    bytes.push(key_type);
    bytes.extend_from_slice(sec1.as_slice());
    assert(bytes@ =~= seq![key_type] + backend::sec1_bytes(*pubkey));
    assert(bytes@.skip(1) =~= sec1@);
    PSBTKey::new(bytes)
}

/// Reads a key as a compressed secp256k1 public key: the one that is written behind the type byte.
pub fn try_key_as_pubkey(key: &PSBTKey) -> (result: Result<VerifyingKey, PsbtError>)
    ensures
        result == pubkey_in(key@),
        result is Ok <==> holds_pubkey(key@),
        result matches Ok(pubkey) ==> key@.skip(1) == backend::sec1_bytes(pubkey),
        result is Ok <==> key@.len() == 34 && compressed_point(key@.skip(1)),
        match result {
            Ok(pubkey) => backend::sec1_read(key@.skip(1)) == Ok::<VerifyingKey, Bip32Error>(
                pubkey,
            ),
            Err(PsbtError::Bip32Error(error)) => key@.len() == 34 && backend::sec1_read(
                key@.skip(1),
            ) == Err::<VerifyingKey, Bip32Error>(error),
            Err(error) => key@.len() != 34 && error == (PsbtError::WrongKeyLength {
                expected: 34,
                got: key@.len() as usize,
            }),
        },
{
    if key.len() != 34 {
        return Err(PsbtError::WrongKeyLength { expected: 34, got: key.len() });
    }
    let sec1 = slice_subrange(key.items(), 1, 34);
    assert(sec1@ =~= key@.skip(1));
    from_bip32(backend::read_sec1(sec1))
}

/// Reads a value as a transaction without witnesses. What stands behind the transaction does not
/// matter.
pub fn try_val_as_tx(val: &PSBTValue) -> (result: Result<LegacyTx, PsbtError>)
    requires
        !(legacy_tx(val@) is Overflow),
    ensures
        result == or_tx_error(backend::legacy_tx_read(val@)),
        result == or_tx_error(backend::legacy_tx_read(legacy_tx_bytes(val@))),
        result is Ok <==> legacy_tx(val@) is Item,
        match result {
            Ok(tx) => backend::legacy_tx_read(val@) == Ok::<LegacyTx, TxError>(tx),
            Err(PsbtError::TxError(error)) => backend::legacy_tx_read(val@) == Err::<
                LegacyTx,
                TxError,
            >(error),
            Err(_) => false,
        },
{
    from_tx(backend::read_legacy_tx(val.items()))
}

/// The output in a value.
pub open spec fn tx_out_in(val: Seq<u8>) -> Result<(u64, Seq<u8>), PsbtError> {
    match tx_out(val) {
        Reading::Item(out, _) => Ok(out),
        _ => Err(PsbtError::SerError(backend::tx_out_error(val))),
    }
}

/// Reads a value as an output.
pub fn try_val_as_tx_out(val: &PSBTValue) -> (result: Result<TxOut, PsbtError>)
    requires
        !(tx_out(val@) is Overflow),
    ensures
        agrees(result, tx_out_in(val@)),
        match tx_out(val@) {
            Reading::Item((value, script), _) => result matches Ok(out) && out.value == value
                && out.script_pubkey@ == script,
            _ => result matches Err(PsbtError::SerError(error)) && error == backend::tx_out_error(
                val@,
            ),
        },
{
    match backend::read_tx_out(val.items()) {
        Ok(out) => Ok(out),
        Err(error) => Err(PsbtError::SerError(error)),
    }
}

/// The mode that a sighash flag stands for, with an unknown flag as an error.
pub open spec fn sighash_in(flag: u8) -> Result<Sighash, PsbtError> {
    match sighash_of(flag) {
        Some(mode) => Ok(mode),
        None => Err(PsbtError::TxError(backend::unknown_sighash_error(flag))),
    }
}

/// The sighash mode in a value: a flag in four little-endian bytes.
pub open spec fn sighash_in_val(val: Seq<u8>) -> Result<Sighash, PsbtError> {
    match val_length_is(val, 4) {
        Ok(_) => if le4(val, 0) > 0xff {
            Err(PsbtError::TxError(backend::unknown_sighash_error(0xff)))
        } else {
            sighash_in(val[0])
        },
        Err(error) => Err(error),
    }
}

/// Reads a value as a sighash flag.
pub fn try_val_as_sighash(val: &PSBTValue) -> (result: Result<Sighash, PsbtError>)
    ensures
        result == sighash_in_val(val@),
        result matches Ok(mode) ==> val@ == seq![sighash_flag(mode), 0u8, 0u8, 0u8],
        forall|mode: Sighash|
            val@ == seq![#[trigger] sighash_flag(mode), 0u8, 0u8, 0u8] ==> result == Ok::<
                Sighash,
                PsbtError,
            >(mode),
        result matches Err(error) ==> error == (if val@.len() != 4 {
            PsbtError::WrongValueLength { expected: 4, got: val@.len() as usize }
        } else if val@[1] == 0 && val@[2] == 0 && val@[3] == 0 {
            PsbtError::TxError(backend::unknown_sighash_error(val@[0]))
        } else {
            PsbtError::TxError(backend::unknown_sighash_error(0xff))
        }),
{
    proof {
        assert forall|mode: Sighash| true implies sighash_in_val(val@) == Ok::<Sighash, PsbtError>(
            mode,
        ) <==> val@ == seq![#[trigger] sighash_flag(mode), 0u8, 0u8, 0u8] by {
            sighash_mode_is_read_back(val@, mode);
        }
        sighash_mode_is_read_back(val@, Sighash::All);
    }
    if let Err(error) = validate_fixed_val_length(val, 4) {
        return Err(error);
    }
    let items = val.items();
    if items[1] != 0 || items[2] != 0 || items[3] != 0 {
        // only the lowest byte of the flag may be set
        return Err(PsbtError::TxError(backend::unknown_sighash(0xff)));
    }
    from_tx(backend::sighash_from_u8(items[0]))
}

/// A signature together with the sighash mode of its flag. A signature that could not be read is
/// reported before an unknown flag.
pub open spec fn signature_and_mode(read: Result<Signature, Bip32Error>, flag: u8) -> Result<
    (Signature, Sighash),
    PsbtError,
> {
    match read {
        Ok(signature) => match sighash_in(flag) {
            Ok(mode) => Ok((signature, mode)),
            Err(error) => Err(error),
        },
        Err(error) => Err(PsbtError::Bip32Error(error)),
    }
}

/// Couples a signature that was read with the sighash mode of its flag.
pub fn couple_signature(read: Result<Signature, Bip32Error>, flag: u8) -> (result: Result<
    (Signature, Sighash),
    PsbtError,
>)
    ensures
        result == signature_and_mode(read, flag),
        match result {
            Ok((signature, mode)) => read == Ok::<Signature, Bip32Error>(signature) && flag
                == sighash_flag(mode),
            Err(PsbtError::Bip32Error(error)) => read == Err::<Signature, Bip32Error>(error),
            Err(error) => read is Ok && error == PsbtError::TxError(
                backend::unknown_sighash_error(flag),
            ) && forall|mode: Sighash| flag != #[trigger] sighash_flag(mode),
        },
{
    match from_bip32(read) {
        Ok(signature) => match from_tx(backend::sighash_from_u8(flag)) {
            Ok(mode) => Ok((signature, mode)),
            Err(error) => Err(error),
        },
        Err(error) => Err(error),
    }
}

/// The signature in a value: its DER encoding, followed by its sighash flag.
pub open spec fn signature_in(val: Seq<u8>) -> Result<(Signature, Sighash), PsbtError> {
    if val.len() == 0 {
        Err(PsbtError::WrongValueLength { expected: 75, got: 0 })
    } else {
        signature_and_mode(backend::asn1_read(val.drop_last()), val.last())
    }
}

/// Whether a value is a signature in its DER encoding, followed by a known sighash flag.
pub open spec fn holds_signature(val: Seq<u8>) -> bool {
    &&& val.len() > 0
    &&& der_signature(val.drop_last()) is Some
    &&& sighash_of(val.last()) is Some
}

/// Reads a value as a signature.
pub fn try_val_as_signature(val: &PSBTValue) -> (result: Result<(Signature, Sighash), PsbtError>)
    ensures
        result == signature_in(val@),
        result is Ok <==> holds_signature(val@),
        result matches Ok((signature, mode)) ==> {
            &&& der_signature(val@.drop_last()) == Some(
                (be_number(signature.bytes@.take(32)), be_number(signature.bytes@.skip(32))),
            )
            &&& sighash_of(val@.last()) == Some(mode)
        },
        match result {
            Ok((signature, mode)) => val@.len() > 0 && backend::asn1_read(val@.drop_last()) == Ok::<
                Signature,
                Bip32Error,
            >(signature) && val@.last() == sighash_flag(mode),
            Err(PsbtError::Bip32Error(error)) => val@.len() > 0 && backend::asn1_read(
                val@.drop_last(),
            ) == Err::<Signature, Bip32Error>(error) && der_signature(val@.drop_last()) is None,
            Err(PsbtError::TxError(error)) => val@.len() > 0 && der_signature(
                val@.drop_last(),
            ) is Some && error == backend::unknown_sighash_error(val@.last()) && forall|
                mode: Sighash,
            | val@.last() != #[trigger] sighash_flag(mode),
            Err(error) => val@.len() == 0 && error == (PsbtError::WrongValueLength {
                expected: 75,
                got: 0,
            }),
        },
{
    let items = val.items();
    if items.len() == 0 {
        return Err(PsbtError::WrongValueLength { expected: 75, got: 0 });
    }
    let last: usize = items.len() - 1;
    let sig_bytes = slice_subrange(items, 0, last);
    assert(sig_bytes@ =~= val@.drop_last());
    couple_signature(backend::read_asn1(sig_bytes), items[last])
}

/// The error for a value that holds no witness: that of its item count, or that of its items.
pub open spec fn witness_error(val: Seq<u8>) -> PsbtError {
    match compact_int(val) {
        Reading::Item(number, rest) => PsbtError::SerError(
            backend::stack_items_error(rest, (number as u64) as usize),
        ),
        _ => PsbtError::SerError(backend::compact_int_error(val)),
    }
}

/// The stack items of the witness in a value.
pub open spec fn witness_in(val: Seq<u8>) -> Result<Seq<Seq<u8>>, PsbtError> {
    match witness(val) {
        Reading::Item(items, _) => Ok(items),
        _ => Err(witness_error(val)),
    }
}

/// Reads a value as a script witness.
pub fn try_val_as_witness(val: &PSBTValue) -> (result: Result<Witness, PsbtError>)
    requires
        !(witness(val@) is Overflow),
    ensures
        match result {
            Ok(items) => witness_in(val@) == Ok::<Seq<Seq<u8>>, PsbtError>(witness_view(items@)),
            Err(error) => witness_in(val@) == Err::<Seq<Seq<u8>>, PsbtError>(error),
        },
        match witness(val@) {
            Reading::Item(read, _) => result matches Ok(items) && items@.len() == read.len() && (
            forall|i: int| 0 <= i < read.len() ==> (#[trigger] items@[i])@ == read[i]),
            _ => result is Err,
        },
        result matches Err(error) ==> error == PsbtError::SerError(
            match compact_int(val@) {
                Reading::Item(number, rest) => backend::stack_items_error(
                    rest,
                    (number as u64) as usize,
                ),
                _ => backend::compact_int_error(val@),
            },
        ),
{
    let mut wit_bytes = val.items();
    let number: usize = match backend::read_compact_int(&mut wit_bytes) {
        Ok(number) => number as usize,
        Err(error) => return Err(PsbtError::SerError(error)),
    };
    match backend::read_stack_items(wit_bytes, number) {
        Ok(items) => Ok(items),
        Err(error) => Err(PsbtError::SerError(error)),
    }
}

/// What the encoder of a network makes of bytes.
pub open spec fn xpub_read(network: Network, bytes: Seq<u8>) -> Result<XPub, Bip32Error> {
    match network {
        Network::Mainnet => backend::mainnet_xpub_read(bytes),
        Network::Testnet => backend::testnet_xpub_read(bytes),
    }
}

/// The error for a key that holds no extended public key at all.
pub open spec fn no_xpub_error() -> PsbtError {
    PsbtError::Bip32Error(backend::bad_xpub_version_error(seq![0u8, 0u8, 0u8, 0u8]))
}

/// The extended public key in a key: what stands behind the type byte.
pub open spec fn xpub_in(key: Seq<u8>, network: Network) -> Result<XPub, PsbtError> {
    if key.len() < 2 {
        Err(no_xpub_error())
    } else {
        or_bip32_error(xpub_read(network, key.skip(1)))
    }
}

/// The bytes of the extended public key in a key: all but the type byte.
pub fn xpub_bytes(key: &PSBTKey) -> (result: Result<&[u8], PsbtError>)
    ensures
        match result {
            Ok(bytes) => key@.len() >= 2 && bytes@ == key@.skip(1),
            Err(error) => key@.len() < 2 && error == no_xpub_error(),
        },
        result matches Err(error) ==> error == PsbtError::Bip32Error(
            backend::bad_xpub_version_error(seq![0u8, 0u8, 0u8, 0u8]),
        ),
{
    if key.len() < 2 {
        let version: [u8; 4] = [0u8, 0u8, 0u8, 0u8];
        assert(version@ =~= seq![0u8, 0u8, 0u8, 0u8]);
        return Err(PsbtError::Bip32Error(backend::bad_xpub_version(version)));
    }
    let bytes = slice_subrange(key.items(), 1, key.len());
    assert(bytes@ =~= key@.skip(1));
    Ok(bytes)
}

/// Whether a key is a type byte and an extended public key of a network, whatever stands behind it.
pub open spec fn holds_xpub(key: Seq<u8>, network: Network) -> bool {
    key.len() >= 2 && begins_with_xpub(network, key.skip(1))
}

/// Reads a key as an extended public key of a network. What stands behind the 78 bytes of the
/// extended key does not matter.
pub fn try_key_as_xpub(key: &PSBTKey, network: Network) -> (result: Result<XPub, PsbtError>)
    ensures
        result == xpub_in(key@, network),
        key@.len() >= 79 ==> result == xpub_in(key@.take(79), network),
        result is Ok <==> key@.len() >= 79 && begins_with_xpub(network, key@.skip(1)),
        result matches Ok(xpub) ==> forall|other: Seq<u8>|
            other.len() >= 79 && #[trigger] xpub_in(other, network) == Ok::<XPub, PsbtError>(xpub)
                ==> other.subrange(1, 79) == key@.subrange(1, 79),
        key@.len() < 2 ==> result == Err::<XPub, PsbtError>(
            PsbtError::Bip32Error(
                backend::bad_xpub_version_error(seq![0u8, 0u8, 0u8, 0u8]),
            ),
        ),
        key@.len() >= 2 ==> ({
            let read = match network {
                Network::Mainnet => backend::mainnet_xpub_read(key@.skip(1)),
                Network::Testnet => backend::testnet_xpub_read(key@.skip(1)),
            };
            match result {
                Ok(xpub) => read == Ok::<XPub, Bip32Error>(xpub),
                Err(PsbtError::Bip32Error(error)) => read == Err::<XPub, Bip32Error>(error),
                Err(_) => false,
            }
        }),
        result is Ok <==> holds_xpub(key@, network),
{
    let bytes = match xpub_bytes(key) {
        Ok(bytes) => bytes,
        Err(error) => return Err(error),
    };
    assert(key@.len() >= 79 ==> bytes@.take(78) =~= key@.take(79).skip(1));
    proof {
        assert forall|other: Seq<u8>| other.len() >= 79 implies #[trigger] other.skip(1).take(78)
            == other.subrange(1, 79) by {
            assert(other.skip(1).take(78) =~= other.subrange(1, 79));
        }
        assert(key@.len() >= 79 ==> bytes@.take(78) == key@.subrange(1, 79));
    }
    match network {
        Network::Mainnet => from_bip32(backend::read_mainnet_xpub(bytes)),
        Network::Testnet => from_bip32(backend::read_testnet_xpub(bytes)),
    }
}

/// A public key together with the derivation in a value. A key that could not be read is reported
/// before a value that is no derivation.
pub open spec fn pubkey_and_derivation(
    read: Result<VerifyingKey, PsbtError>,
    val: Seq<u8>,
) -> Result<(VerifyingKey, (Seq<u8>, Seq<u32>)), PsbtError> {
    match read {
        Ok(pubkey) => match key_derivation(val) {
            Ok(derivation) => Ok((pubkey, derivation)),
            Err(error) => Err(error),
        },
        Err(error) => Err(error),
    }
}

/// Couples a public key that was read with the derivation in a value.
pub fn couple_derivation(read: Result<VerifyingKey, PsbtError>, val: &PSBTValue) -> (result:
    Result<DerivedPubkey, PsbtError>)
    ensures
        agrees(result, pubkey_and_derivation(read, val@)),
        match read {
            Ok(pubkey) => match result {
                Ok(derived) => derived.key == pubkey && derivation_bytes(
                    derived.derivation.root@,
                    derived.derivation.path@,
                ) == val@,
                Err(error) => (val@.len() == 0 || val@.len() % 4 != 0) && error
                    == PsbtError::InvalidBip32Path,
            },
            Err(fault) => result matches Err(error) && error == fault,
        },
{
    match read {
        Ok(pubkey) => match try_val_as_key_derivation(val) {
            Ok(deriv) => Ok(DerivedPubkey::new(pubkey, deriv)),
            Err(error) => Err(error),
        },
        Err(error) => Err(error),
    }
}

/// Reads a record as a public key with its derivation. Keys that hold an uncompressed public key
/// are not supported.
pub fn try_kv_pair_as_derived_pubkey(key: &PSBTKey, val: &PSBTValue) -> (result: Result<
    DerivedPubkey,
    PsbtError,
>)
    requires
        key@.len() != 66,
    ensures
        agrees(result, pubkey_and_derivation(pubkey_in(key@), val@)),
        result is Ok <==> holds_pubkey(key@) && key_derivation(val@) is Ok,
        match result {
            Ok(derived) => {
                &&& key@.len() == 34
                &&& key@.skip(1) == backend::sec1_bytes(derived.key)
                &&& backend::sec1_read(key@.skip(1)) == Ok::<VerifyingKey, Bip32Error>(derived.key)
                &&& derivation_bytes(derived.derivation.root@, derived.derivation.path@) == val@
            },
            Err(PsbtError::WrongKeyLength { expected, got }) => key@.len() != 34 && expected == 34
                && got == key@.len() as usize,
            Err(PsbtError::Bip32Error(error)) => key@.len() == 34 && !compressed_point(key@.skip(1))
                && backend::sec1_read(key@.skip(1)) == Err::<VerifyingKey, Bip32Error>(error),
            Err(error) => key@.len() == 34 && compressed_point(key@.skip(1)) && (val@.len() == 0
                || val@.len() % 4 != 0) && error == PsbtError::InvalidBip32Path,
        },
{
    couple_derivation(try_key_as_pubkey(key), val)
}

/// A public key together with a signature. A key that could not be read is reported before a
/// signature that could not be.
pub open spec fn pubkey_and_signature(
    pubkey: Result<VerifyingKey, PsbtError>,
    signature: Result<(Signature, Sighash), PsbtError>,
) -> Result<(VerifyingKey, Signature, Sighash), PsbtError> {
    match pubkey {
        Ok(pubkey) => match signature {
            Ok((signature, mode)) => Ok((pubkey, signature, mode)),
            Err(error) => Err(error),
        },
        Err(error) => Err(error),
    }
}

/// Couples a public key and a signature that were read.
pub fn couple_pubkey_and_signature(
    pubkey: Result<VerifyingKey, PsbtError>,
    signature: Result<(Signature, Sighash), PsbtError>,
) -> (result: Result<(VerifyingKey, Signature, Sighash), PsbtError>)
    ensures
        result == pubkey_and_signature(pubkey, signature),
        match pubkey {
            Ok(key) => match signature {
                Ok((sig, mode)) => result matches Ok(all) && all.0 == key && all.1 == sig && all.2
                    == mode,
                Err(fault) => result matches Err(error) && error == fault,
            },
            Err(fault) => result matches Err(error) && error == fault,
        },
{
    match pubkey {
        Ok(pubkey) => match signature {
            Ok((signature, mode)) => Ok((pubkey, signature, mode)),
            Err(error) => Err(error),
        },
        Err(error) => Err(error),
    }
}

/// Reads a record as a public key with a signature by it.
pub fn try_kv_pair_as_pubkey_and_sig(key: &PSBTKey, val: &PSBTValue) -> (result: Result<
    (VerifyingKey, Signature, Sighash),
    PsbtError,
>)
    ensures
        result == pubkey_and_signature(pubkey_in(key@), signature_in(val@)),
        result is Ok <==> holds_pubkey(key@) && holds_signature(val@),
        match result {
            Ok((pubkey, signature, mode)) => {
                &&& key@.len() == 34
                &&& key@.skip(1) == backend::sec1_bytes(pubkey)
                &&& backend::sec1_read(key@.skip(1)) == Ok::<VerifyingKey, Bip32Error>(pubkey)
                &&& val@.len() > 0
                &&& backend::asn1_read(val@.drop_last()) == Ok::<Signature, Bip32Error>(signature)
                &&& der_signature(val@.drop_last()) == Some(
                    (be_number(signature.bytes@.take(32)), be_number(signature.bytes@.skip(32))),
                )
                &&& sighash_of(val@.last()) == Some(mode)
                &&& val@.last() == sighash_flag(mode)
            },
            Err(PsbtError::WrongKeyLength { expected, got }) => key@.len() != 34 && expected == 34
                && got == key@.len() as usize,
            Err(PsbtError::Bip32Error(error)) => key@.len() == 34 && if compressed_point(
                key@.skip(1),
            ) {
                val@.len() > 0 && backend::asn1_read(val@.drop_last()) == Err::<
                    Signature,
                    Bip32Error,
                >(error)
            } else {
                backend::sec1_read(key@.skip(1)) == Err::<VerifyingKey, Bip32Error>(error)
            },
            Err(PsbtError::TxError(error)) => key@.len() == 34 && compressed_point(key@.skip(1))
                && val@.len() > 0 && der_signature(val@.drop_last()) is Some && error
                == backend::unknown_sighash_error(val@.last()),
            Err(error) => key@.len() == 34 && compressed_point(key@.skip(1)) && val@.len() == 0
                && error == (PsbtError::WrongValueLength { expected: 75, got: 0 }),
        },
{
    couple_pubkey_and_signature(try_key_as_pubkey(key), try_val_as_signature(val))
}

} // verus!
