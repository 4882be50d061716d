//! Laws of what is read from records: what was written comes back, and nothing else does.

use vstd::prelude::*;

use bitcoins::types::TxError;
use coins_bip32::ecdsa::VerifyingKey;
use coins_bip32::xkeys::XPub;
use coins_bip32::Bip32Error;

use crate::backend;
use crate::common::PsbtError;
use crate::common::{in_order, or_bip32_error, or_tx_error, verdict};
use crate::laws::derivations::{
    derivation_bytes, derivation_determines_its_value, derivation_is_read_back,
};
use crate::laws::formats::{tx_out_bytes, tx_out_is_read_back, witness_bytes, witness_is_read_back};
use crate::schema::{key_derivation, pubkey_and_derivation, pubkey_and_signature, pubkey_in};
use crate::schema::{sighash_in, sighash_in_val, signature_and_mode, signature_in, tx_out_in};
use crate::schema::{witness_in, xpub_in};
use crate::types::sighash_of;
use crate::types::{Network, Sighash, Signature};
use crate::wire::{compact_int, tx_out, witness, Reading};

verus! {

/// The flag that a sighash mode is written as.
pub open spec fn sighash_flag(mode: Sighash) -> u8 {
    match mode {
        Sighash::All => 0x01,
        Sighash::NoOutput => 0x02,
        Sighash::Single => 0x03,
        Sighash::AllAcp => 0x81,
        Sighash::NoOutputAcp => 0x82,
        Sighash::SingleAcp => 0x83,
    }
}

/// A refusal by an outside reader is handed on as it is, and so is what it reads.
pub proof fn outside_outcomes_are_kept<T>(value: T, refusal: Bip32Error, other: TxError)
    ensures
        or_bip32_error(Ok::<T, Bip32Error>(value)) == Ok::<T, PsbtError>(value),
        or_bip32_error(Err::<T, Bip32Error>(refusal)) == Err::<T, PsbtError>(
            PsbtError::Bip32Error(refusal),
        ),
        or_tx_error(Ok::<T, TxError>(value)) == Ok::<T, PsbtError>(value),
        or_tx_error(Err::<T, TxError>(other)) == Err::<T, PsbtError>(PsbtError::TxError(other)),
{
}

/// Of checks in a row the first fault counts, and without a fault the record passes.
pub proof fn first_fault_counts<T>(value: T, fault: PsbtError, next: Result<(), PsbtError>)
    ensures
        verdict(Ok::<T, PsbtError>(value)) == Ok::<(), PsbtError>(()),
        verdict(Err::<T, PsbtError>(fault)) == Err::<(), PsbtError>(fault),
        in_order(Ok(()), next) == next,
        in_order(Err(fault), next) == Err::<(), PsbtError>(fault),
{
}

/// A value is refused as a derivation exactly if no derivation is written as it, which is so for
/// an empty value and one that does not consist of groups of four bytes.
pub proof fn derivation_is_refused_where_none_is_written(val: Seq<u8>)
    ensures
        val.len() == 0 || val.len() % 4 != 0 ==> key_derivation(val) == Err::<
            (Seq<u8>, Seq<u32>),
            PsbtError,
        >(PsbtError::InvalidBip32Path),
        val.len() > 0 && val.len() % 4 == 0 ==> (key_derivation(val) matches Ok((root, path))
            && root.len() == 4 && path.len() == val.len() / 4 - 1 && derivation_bytes(root, path)
            == val),
{
    if val.len() > 0 && val.len() % 4 == 0 {
        derivation_determines_its_value(val);
    }
}

/// Each sighash mode is read from its flag, and from no other.
pub proof fn sighash_mode_is_read_from_its_flag(flag: u8, mode: Sighash)
    ensures
        sighash_of(flag) == Some(mode) <==> flag == sighash_flag(mode),
        sighash_in(flag) == Ok::<Sighash, PsbtError>(mode) <==> flag == sighash_flag(mode),
        sighash_in(flag) matches Err(error) ==> error == PsbtError::TxError(
            backend::unknown_sighash_error(flag),
        ),
{
}

/// A sighash mode is read from its flag in four little-endian bytes, and from nothing else. What
/// is refused is refused for its length or for its flag, and a flag that takes more than one byte
/// counts as the largest one.
pub proof fn sighash_mode_is_read_back(val: Seq<u8>, mode: Sighash)
    ensures
        sighash_in_val(val) == Ok::<Sighash, PsbtError>(mode) <==> val == seq![
            sighash_flag(mode),
            0u8,
            0u8,
            0u8,
        ],
        sighash_in_val(val) matches Err(error) ==> error == (if val.len() != 4 {
            PsbtError::WrongValueLength { expected: 4, got: val.len() as usize }
        } else if val[1] == 0 && val[2] == 0 && val[3] == 0 {
            PsbtError::TxError(backend::unknown_sighash_error(val[0]))
        } else {
            PsbtError::TxError(backend::unknown_sighash_error(0xff))
        }),
{
    if sighash_in_val(val) == Ok::<Sighash, PsbtError>(mode) {
        assert(val =~= seq![sighash_flag(mode), 0u8, 0u8, 0u8]);
    }
    if val == seq![sighash_flag(mode), 0u8, 0u8, 0u8] {
        assert(val[0] == sighash_flag(mode) && val[1] == 0 && val[2] == 0 && val[3] == 0);
    }
}

/// A signature is read together with the mode of the flag behind it, whichever mode that is. A
/// signature that cannot be read is reported as the outside reader reports it.
pub proof fn signature_is_read_with_its_mode(
    der: Seq<u8>,
    signature: Signature,
    mode: Sighash,
    refusal: Bip32Error,
    flag: u8,
)
    ensures
        signature_and_mode(Ok(signature), sighash_flag(mode)) == Ok::<
            (Signature, Sighash),
            PsbtError,
        >((signature, mode)),
        signature_and_mode(Err(refusal), flag) == Err::<(Signature, Sighash), PsbtError>(
            PsbtError::Bip32Error(refusal),
        ),
        backend::asn1_read(der) == Ok::<Signature, Bip32Error>(signature) ==> signature_in(
            der.push(sighash_flag(mode)),
        ) == Ok::<(Signature, Sighash), PsbtError>((signature, mode)),
        backend::asn1_read(der) == Err::<Signature, Bip32Error>(refusal) ==> signature_in(
            der.push(flag),
        ) == Err::<(Signature, Sighash), PsbtError>(PsbtError::Bip32Error(refusal)),
        backend::asn1_read(der) is Ok && (forall|known: Sighash| flag != sighash_flag(known))
            ==> signature_in(der.push(flag)) == Err::<(Signature, Sighash), PsbtError>(
            PsbtError::TxError(backend::unknown_sighash_error(flag)),
        ),
        signature_in(Seq::empty()) == Err::<(Signature, Sighash), PsbtError>(
            PsbtError::WrongValueLength { expected: 75, got: 0 },
        ),
{
    assert(der.push(flag).drop_last() =~= der);
    assert(der.push(sighash_flag(mode)).drop_last() =~= der);
    if sighash_of(flag) is Some {
        assert(flag == sighash_flag(sighash_of(flag)->Some_0));
    }
}

/// Every output that fits into memory is read back from its bytes, whatever stands behind them. A
/// value that is no output is refused with the error of the outside reader.
pub proof fn output_in_value_is_read_back(value: u64, script: Seq<u8>, tail: Seq<u8>, val: Seq<u8>)
    requires
        script.len() <= isize::MAX,
    ensures
        tx_out_in(tx_out_bytes(value, script) + tail) == Ok::<(u64, Seq<u8>), PsbtError>(
            (value, script),
        ),
        !(tx_out(val) is Item) ==> tx_out_in(val) == Err::<(u64, Seq<u8>), PsbtError>(
            PsbtError::SerError(backend::tx_out_error(val)),
        ),
{
    tx_out_is_read_back(value, script, tail);
}

/// Every witness that fits into memory is read back from its bytes with all its items in order,
/// whatever stands behind them. A value that is no witness is refused with the error of its count
/// or, where the count can be read, with that of its items.
pub proof fn witness_in_value_is_read_back(items: Seq<Seq<u8>>, tail: Seq<u8>, val: Seq<u8>)
    requires
        items.len() <= usize::MAX,
        forall|i: int| 0 <= i < items.len() ==> (#[trigger] items[i]).len() <= isize::MAX,
    ensures
        witness_in(witness_bytes(items) + tail) == Ok::<Seq<Seq<u8>>, PsbtError>(items),
        witness(val) is Item <==> witness_in(val) is Ok,
        !(witness(val) is Item) ==> match compact_int(val) {
            Reading::Item(number, rest) => witness_in(val) == Err::<Seq<Seq<u8>>, PsbtError>(
                PsbtError::SerError(backend::stack_items_error(rest, (number as u64) as usize)),
            ),
            _ => witness_in(val) == Err::<Seq<Seq<u8>>, PsbtError>(
                PsbtError::SerError(backend::compact_int_error(val)),
            ),
        },
{
    witness_is_read_back(items, tail);
}

/// A public key is read from the 33 bytes behind the type byte as the outside reader reads it, and
/// keys of another length are refused for their length.
pub proof fn pubkey_is_read_from_behind_the_type(
    key_type: u8,
    data: Seq<u8>,
    pubkey: VerifyingKey,
    refusal: Bip32Error,
)
    ensures
        data.len() == 33 ==> (pubkey_in(seq![key_type] + data) == Ok::<VerifyingKey, PsbtError>(
            pubkey,
        ) <==> backend::sec1_read(data) == Ok::<VerifyingKey, Bip32Error>(pubkey)),
        data.len() == 33 && backend::sec1_read(data) == Err::<VerifyingKey, Bip32Error>(refusal)
            ==> pubkey_in(seq![key_type] + data) == Err::<VerifyingKey, PsbtError>(
            PsbtError::Bip32Error(refusal),
        ),
        data.len() != 33 ==> pubkey_in(seq![key_type] + data) == Err::<VerifyingKey, PsbtError>(
            PsbtError::WrongKeyLength { expected: 34, got: (1 + data.len()) as usize },
        ),
        pubkey_in(Seq::empty()) == Err::<VerifyingKey, PsbtError>(
            PsbtError::WrongKeyLength { expected: 34, got: 0 },
        ),
{
    assert((seq![key_type] + data).skip(1) =~= data);
}

/// An extended public key is what the outside reader of the network reads from the bytes behind
/// the type byte, all of them as they are. A key without such bytes is refused for its version.
pub proof fn xpub_is_read_from_behind_the_type(
    key_type: u8,
    data: Seq<u8>,
    xpub: XPub,
    refusal: Bip32Error,
    network: Network,
)
    ensures
        data.len() > 0 ==> (xpub_in(seq![key_type] + data, Network::Mainnet) == Ok::<
            XPub,
            PsbtError,
        >(xpub) <==> backend::mainnet_xpub_read(data) == Ok::<XPub, Bip32Error>(xpub)),
        data.len() > 0 ==> (xpub_in(seq![key_type] + data, Network::Testnet) == Ok::<
            XPub,
            PsbtError,
        >(xpub) <==> backend::testnet_xpub_read(data) == Ok::<XPub, Bip32Error>(xpub)),
        data.len() > 0 && backend::mainnet_xpub_read(data) == Err::<XPub, Bip32Error>(refusal)
            ==> xpub_in(seq![key_type] + data, Network::Mainnet) == Err::<XPub, PsbtError>(
            PsbtError::Bip32Error(refusal),
        ),
        data.len() > 0 && backend::testnet_xpub_read(data) == Err::<XPub, Bip32Error>(refusal)
            ==> xpub_in(seq![key_type] + data, Network::Testnet) == Err::<XPub, PsbtError>(
            PsbtError::Bip32Error(refusal),
        ),
        data.len() == 0 ==> xpub_in(seq![key_type] + data, network) == Err::<XPub, PsbtError>(
            PsbtError::Bip32Error(
                backend::bad_xpub_version_error(seq![0u8, 0u8, 0u8, 0u8]),
            ),
        ),
        xpub_in(Seq::empty(), network) == Err::<XPub, PsbtError>(
            PsbtError::Bip32Error(
                backend::bad_xpub_version_error(seq![0u8, 0u8, 0u8, 0u8]),
            ),
        ),
{
    assert((seq![key_type] + data).skip(1) =~= data);
}

/// A public key that was read comes with the whole derivation that is written in the value. A key
/// that was not read is reported first, and a value in which none is written otherwise.
pub proof fn derivation_comes_with_its_pubkey(
    pubkey: VerifyingKey,
    root: Seq<u8>,
    path: Seq<u32>,
    fault: PsbtError,
    val: Seq<u8>,
)
    requires
        root.len() == 4,
    ensures
        pubkey_and_derivation(Ok(pubkey), derivation_bytes(root, path)) == Ok::<
            (VerifyingKey, (Seq<u8>, Seq<u32>)),
            PsbtError,
        >((pubkey, (root, path))),
        pubkey_and_derivation(Err(fault), val) == Err::<
            (VerifyingKey, (Seq<u8>, Seq<u32>)),
            PsbtError,
        >(fault),
        val.len() == 0 || val.len() % 4 != 0 ==> pubkey_and_derivation(Ok(pubkey), val) == Err::<
            (VerifyingKey, (Seq<u8>, Seq<u32>)),
            PsbtError,
        >(PsbtError::InvalidBip32Path),
        pubkey_and_derivation(Ok(pubkey), val) matches Ok((kept, (its_root, its_path))) ==> kept
            == pubkey && derivation_bytes(its_root, its_path) == val,
{
    derivation_is_read_back(root, path);
    if val.len() > 0 && val.len() % 4 == 0 {
        derivation_determines_its_value(val);
    }
}

/// A public key and a signature that were read are kept as they are, with the mode that was read.
/// A key that was not read is reported first.
pub proof fn signature_comes_with_its_pubkey(
    pubkey: VerifyingKey,
    signature: Signature,
    mode: Sighash,
    fault: PsbtError,
    read: Result<(Signature, Sighash), PsbtError>,
)
    ensures
        pubkey_and_signature(Ok(pubkey), Ok((signature, mode))) == Ok::<
            (VerifyingKey, Signature, Sighash),
            PsbtError,
        >((pubkey, signature, mode)),
        pubkey_and_signature(Ok(pubkey), Err(fault)) == Err::<
            (VerifyingKey, Signature, Sighash),
            PsbtError,
        >(fault),
        pubkey_and_signature(Err(fault), read) == Err::<
            (VerifyingKey, Signature, Sighash),
            PsbtError,
        >(fault),
{
}

/// A record that is written from a public key, a signature and a mode is read as these three.
pub proof fn partial_signature_is_read_back(
    key_type: u8,
    sec1: Seq<u8>,
    der: Seq<u8>,
    pubkey: VerifyingKey,
    signature: Signature,
    mode: Sighash,
)
    requires
        sec1.len() == 33,
        backend::sec1_read(sec1) == Ok::<VerifyingKey, Bip32Error>(pubkey),
        backend::asn1_read(der) == Ok::<Signature, Bip32Error>(signature),
    ensures
        pubkey_and_signature(
            pubkey_in(seq![key_type] + sec1),
            signature_in(der.push(sighash_flag(mode))),
        ) == Ok::<(VerifyingKey, Signature, Sighash), PsbtError>((pubkey, signature, mode)),
{
    assert((seq![key_type] + sec1).skip(1) =~= sec1);
    assert(der.push(sighash_flag(mode)).drop_last() =~= der);
}

/// A record that is written from a public key and a derivation is read as these two.
pub proof fn derived_pubkey_is_read_back(
    key_type: u8,
    sec1: Seq<u8>,
    pubkey: VerifyingKey,
    root: Seq<u8>,
    path: Seq<u32>,
)
    requires
        sec1.len() == 33,
        backend::sec1_read(sec1) == Ok::<VerifyingKey, Bip32Error>(pubkey),
        root.len() == 4,
    ensures
        pubkey_and_derivation(pubkey_in(seq![key_type] + sec1), derivation_bytes(root, path))
            == Ok::<(VerifyingKey, (Seq<u8>, Seq<u32>)), PsbtError>((pubkey, (root, path))),
{
    assert((seq![key_type] + sec1).skip(1) =~= sec1);
    derivation_is_read_back(root, path);
}

} // verus!
