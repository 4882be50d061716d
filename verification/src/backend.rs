//! Every call into the Bitcoin crates.
//!
//! Nothing here is proved. The contract of each function says what the verified code takes for
//! granted of the call in its body.

use vstd::prelude::*;

use bitcoins::types::{LegacyTx, ScriptPubkey, TxError, WitnessStackItem};
use coins_bip32::ecdsa::VerifyingKey;
use coins_bip32::enc::{MainnetEncoder, TestnetEncoder, XKeyEncoder};
use coins_bip32::primitives::KeyFingerprint;
use coins_bip32::xkeys::XPub;
use coins_bip32::Bip32Error;
use coins_core::ser::{ByteFormat, ReadSeqMode, SerError};

use crate::keys::{be_number, begins_with_xpub, compressed_point, der_signature};
use crate::types::{Network, ScriptType, Sighash, Signature, TxOut};
use crate::types::{script_type_of, sighash_of, witness_view};
use crate::wire::{compact_int, le4, legacy_tx, legacy_tx_bytes, stack_items, tx_out, Reading};

verus! {

/// `coins_core::ser::SerError`: why bytes could not be read. It is only handed on.
#[verifier::external_type_specification]
#[verifier::external_body]
pub struct ExSerError(SerError);

/// `bitcoins::types::TxError`: why bytes are no transaction, or no sighash flag. It is only
/// handed on.
#[verifier::external_type_specification]
#[verifier::external_body]
pub struct ExTxError(TxError);

/// `coins_bip32::Bip32Error`: why bytes are no key or signature. It is only handed on.
#[verifier::external_type_specification]
#[verifier::external_body]
pub struct ExBip32Error(Bip32Error);

/// `coins_bip32::ecdsa::VerifyingKey`: a public key. It is only handed on.
#[verifier::external_type_specification]
#[verifier::external_body]
pub struct ExVerifyingKey(VerifyingKey);

/// `coins_bip32::xkeys::XPub`: an extended public key. It is only handed on.
#[verifier::external_type_specification]
#[verifier::external_body]
pub struct ExXPub(XPub);

/// `bitcoins::types::LegacyTx`: a transaction without witnesses. It is only handed on.
#[verifier::external_type_specification]
#[verifier::external_body]
pub struct ExLegacyTx(LegacyTx);

/// `KeyFingerprint::read_from`: takes the first four bytes off the reader, and refuses a reader
/// that holds fewer.
#[verifier::external_body]
pub(crate) fn read_fingerprint(reader: &mut &[u8]) -> (read: Result<[u8; 4], Bip32Error>)
    ensures
        read is Ok <==> old(reader)@.len() >= 4,
        read matches Ok(root) ==> root@ == old(reader)@.take(4) && final(reader)@ == old(reader)@.skip(4),
{
    KeyFingerprint::read_from(reader).map(|fingerprint| fingerprint.0)
}

/// `coins_core::ser::read_u32_le`: takes four bytes off the reader as a little-endian number, and
/// refuses a reader that holds fewer.
#[verifier::external_body]
pub(crate) fn read_u32_le(reader: &mut &[u8]) -> (read: Result<u32, SerError>)
    ensures
        read is Ok <==> old(reader)@.len() >= 4,
        read matches Ok(number) ==> number == le4(old(reader)@, 0) && final(reader)@ == old(reader)@.skip(4),
{
    coins_core::ser::read_u32_le(reader)
}

/// The error of `coins_core::ser::read_compact_int` on bytes that it refuses.
pub uninterp spec fn compact_int_error(bytes: Seq<u8>) -> SerError;

/// `coins_core::ser::read_compact_int`: takes a compact integer off the reader. It refuses an
/// empty reader and an integer that is not the shortest one for its number.
#[verifier::external_body]
pub(crate) fn read_compact_int(reader: &mut &[u8]) -> (read: Result<u64, SerError>)
    ensures
        match compact_int(old(reader)@) {
            Reading::Item(number, rest) => read matches Ok(found) && found == number && final(reader)@ == rest,
            _ => read == Err::<u64, SerError>(compact_int_error(old(reader)@)),
        },
{
    coins_core::ser::read_compact_int(reader)
}

/// The error of `WitnessStackItem::read_seq_from` on bytes that do not hold that many items.
pub uninterp spec fn stack_items_error(bytes: Seq<u8>, number: usize) -> SerError;

/// `WitnessStackItem::read_seq_from` with `ReadSeqMode::Exactly`: reads that many byte strings,
/// each behind its length, and refuses bytes that do not hold them. It allocates the length that a
/// prefix states before it reads, so a length that no allocation can have is left out; whether
/// the allocator grants the memory for another one is not stated.
#[verifier::external_body]
pub(crate) fn read_stack_items(bytes: &[u8], number: usize) -> (read: Result<Vec<Vec<u8>>, SerError>)
    requires
        !(stack_items(bytes@, number as nat) is Overflow),
    ensures
        match stack_items(bytes@, number as nat) {
            Reading::Item(items, _) => read matches Ok(found) && witness_view(found@) == items,
            _ => read == Err::<Vec<Vec<u8>>, SerError>(stack_items_error(bytes@, number)),
        },
{
    let mut reader = bytes;
    let items = WitnessStackItem::read_seq_from(&mut reader, ReadSeqMode::Exactly(number))?;
    Ok(items.iter().map(|item| item.items().to_vec()).collect())
}

/// The error of `TxOut::read_from` on bytes that it refuses.
pub uninterp spec fn tx_out_error(bytes: Seq<u8>) -> SerError;

/// `bitcoins::types::TxOut::read_from`: reads an eight-byte value and a script behind its length,
/// ignores bytes behind them, and refuses bytes that do not begin so. It allocates the stated
/// length of the script before it reads, so a length that no allocation can have is left out;
/// whether the allocator grants the memory for another one is not stated.
#[verifier::external_body]
pub(crate) fn read_tx_out(bytes: &[u8]) -> (read: Result<TxOut, SerError>)
    requires
        !(tx_out(bytes@) is Overflow),
    ensures
        match tx_out(bytes@) {
            Reading::Item(out, _) => read matches Ok(found) && found@ == out,
            _ => read == Err::<TxOut, SerError>(tx_out_error(bytes@)),
        },
{
    let mut reader = bytes;
    let out = bitcoins::types::TxOut::read_from(&mut reader)?;
    Ok(TxOut { value: out.value, script_pubkey: out.script_pubkey.items().to_vec() })
}

/// What `LegacyTx::read_from` makes of bytes.
pub uninterp spec fn legacy_tx_read(bytes: Seq<u8>) -> Result<LegacyTx, TxError>;

/// `bitcoins::types::LegacyTx::read_from`: reads a transaction without witnesses. It accepts
/// exactly the bytes that begin with one, and reads the same from them as from the bytes of that
/// transaction alone. It allocates the stated
/// length of a script before it reads, so a length that no allocation can have is left out;
/// whether the allocator grants the memory for another one is not stated.
#[verifier::external_body]
pub(crate) fn read_legacy_tx(bytes: &[u8]) -> (read: Result<LegacyTx, TxError>)
    requires
        !(legacy_tx(bytes@) is Overflow),
    ensures
        read == legacy_tx_read(bytes@),
        read == legacy_tx_read(legacy_tx_bytes(bytes@)),
        read is Ok <==> legacy_tx(bytes@) is Item,
{
    let mut reader = bytes;
    LegacyTx::read_from(&mut reader)
}

/// The error `TxError::UnknownSighash` that carries this flag.
pub uninterp spec fn unknown_sighash_error(flag: u8) -> TxError;

/// `TxError::UnknownSighash`: the error that carries a flag.
#[verifier::external_body]
pub(crate) fn unknown_sighash(flag: u8) -> (error: TxError)
    ensures
        error == unknown_sighash_error(flag),
{
    TxError::UnknownSighash(flag)
}

/// `bitcoins::types::Sighash::from_u8`: the mode of one of the six known flags, and for any other
/// flag the error that carries it.
#[verifier::external_body]
pub(crate) fn sighash_from_u8(flag: u8) -> (read: Result<Sighash, TxError>)
    ensures
        match sighash_of(flag) {
            Option::Some(mode) => read == Ok::<Sighash, TxError>(mode),
            Option::None => read == Err::<Sighash, TxError>(unknown_sighash_error(flag)),
        },
{
    bitcoins::types::Sighash::from_u8(flag).map(
        |mode|
            match mode {
                bitcoins::types::Sighash::All => Sighash::All,
                bitcoins::types::Sighash::None => Sighash::NoOutput,
                bitcoins::types::Sighash::Single => Sighash::Single,
                bitcoins::types::Sighash::AllAcp => Sighash::AllAcp,
                bitcoins::types::Sighash::NoneAcp => Sighash::NoOutputAcp,
                bitcoins::types::Sighash::SingleAcp => Sighash::SingleAcp,
            },
    )
}

/// `bitcoins::types::ScriptPubkey::standard_type`: the shape of an output script.
#[verifier::external_body]
pub(crate) fn standard_type(script: &[u8]) -> (shape: ScriptType)
    ensures
        shape == script_type_of(script@),
{
    match ScriptPubkey::from(script).standard_type() {
        bitcoins::types::ScriptType::Pkh(_) => ScriptType::Pkh,
        bitcoins::types::ScriptType::Sh(_) => ScriptType::Sh,
        bitcoins::types::ScriptType::Wpkh(_) => ScriptType::Wpkh,
        bitcoins::types::ScriptType::Wsh(_) => ScriptType::Wsh,
        bitcoins::types::ScriptType::OpReturn(_) => ScriptType::OpReturn,
        bitcoins::types::ScriptType::NonStandard => ScriptType::NonStandard,
    }
}

/// What `VerifyingKey::to_bytes` makes of a public key.
pub uninterp spec fn sec1_bytes(key: VerifyingKey) -> Seq<u8>;

/// `VerifyingKey::to_bytes`: the SEC 1 encoding of a public key, a compressed point. Keys are equal
/// to the outside crate exactly if their encodings are the same; of the values that Verus sees
/// nothing more is stated.
#[verifier::external_body]
pub(crate) fn write_sec1(key: &VerifyingKey) -> (bytes: [u8; 33])
    ensures
        bytes@ == sec1_bytes(*key),
        compressed_point(bytes@),
{
    key.to_bytes()
}

/// What `VerifyingKey::from_sec1_bytes` makes of bytes, with a refusal as a `Bip32Error`.
pub uninterp spec fn sec1_read(bytes: Seq<u8>) -> Result<VerifyingKey, Bip32Error>;

/// `VerifyingKey::from_sec1_bytes`: the public key in its SEC 1 encoding. Of the 33-byte strings
/// it accepts exactly the compressed points of the curve, and gives a key that is written as those
/// bytes. Which longer or shorter ones it accepts is not stated.
#[verifier::external_body]
pub(crate) fn read_sec1(bytes: &[u8]) -> (read: Result<VerifyingKey, Bip32Error>)
    ensures
        read == sec1_read(bytes@),
        bytes@.len() == 33 ==> (read is Ok <==> compressed_point(bytes@)),
        bytes@.len() == 33 ==> (read matches Ok(key) ==> sec1_bytes(key) == bytes@),
{
    VerifyingKey::from_sec1_bytes(bytes).map_err(Bip32Error::from)
}

/// What `Signature::from_asn1` makes of bytes, with a refusal as a `Bip32Error`.
pub uninterp spec fn asn1_read(bytes: Seq<u8>) -> Result<Signature, Bip32Error>;

/// `coins_bip32::ecdsa::Signature::from_asn1`: the signature in its DER encoding. It refuses bytes
/// that are not one, and numbers that are zero or not below the number of points of the curve.
#[verifier::external_body]
pub(crate) fn read_asn1(bytes: &[u8]) -> (read: Result<Signature, Bip32Error>)
    ensures
        read == asn1_read(bytes@),
        match der_signature(bytes@) {
            Option::Some((r, s)) => read matches Ok(signature) && be_number(signature.bytes@.take(32)) == r
                && be_number(signature.bytes@.skip(32)) == s,
            Option::None => read is Err,
        },
{
    let signature = coins_bip32::ecdsa::Signature::from_asn1(bytes)?;
    let mut copy = [0u8; 64];
    copy.copy_from_slice(signature.as_ref());
    Ok(Signature { bytes: copy })
}

/// What `MainnetEncoder::read_xpub` makes of bytes.
pub uninterp spec fn mainnet_xpub_read(bytes: Seq<u8>) -> Result<XPub, Bip32Error>;

/// `MainnetEncoder::read_xpub`: the extended public key in the 78 bytes at the front. It refuses
/// bytes that do not begin with one of the main network, and makes the same of 78 bytes whatever
/// stands behind them. An extended key holds all that the 78 bytes say, so no two are read as the
/// same one.
#[verifier::external_body]
pub(crate) fn read_mainnet_xpub(bytes: &[u8]) -> (read: Result<XPub, Bip32Error>)
    ensures
        read == mainnet_xpub_read(bytes@),
        bytes@.len() >= 78 ==> read == mainnet_xpub_read(bytes@.take(78)),
        read matches Ok(xpub) ==> forall|other: Seq<u8>|
            (#[trigger] mainnet_xpub_read(other) matches Ok(same) && same == xpub) ==> other.take(78)
                == bytes@.take(78),
        read is Ok <==> begins_with_xpub(Network::Mainnet, bytes@),
{
    let mut reader = bytes;
    MainnetEncoder::read_xpub(&mut reader)
}

/// What `TestnetEncoder::read_xpub` makes of bytes.
pub uninterp spec fn testnet_xpub_read(bytes: Seq<u8>) -> Result<XPub, Bip32Error>;

/// `TestnetEncoder::read_xpub`: the extended public key in the 78 bytes at the front. It refuses
/// bytes that do not begin with one of the test network, and makes the same of 78 bytes whatever
/// stands behind them. An extended key holds all that the 78 bytes say, so no two are read as the
/// same one.
#[verifier::external_body]
pub(crate) fn read_testnet_xpub(bytes: &[u8]) -> (read: Result<XPub, Bip32Error>)
    ensures
        read == testnet_xpub_read(bytes@),
        bytes@.len() >= 78 ==> read == testnet_xpub_read(bytes@.take(78)),
        read matches Ok(xpub) ==> forall|other: Seq<u8>|
            (#[trigger] testnet_xpub_read(other) matches Ok(same) && same == xpub) ==> other.take(78)
                == bytes@.take(78),
        read is Ok <==> begins_with_xpub(Network::Testnet, bytes@),
{
    let mut reader = bytes;
    TestnetEncoder::read_xpub(&mut reader)
}

/// The error `Bip32Error::BadXPubVersionBytes` that carries these bytes.
pub uninterp spec fn bad_xpub_version_error(version: Seq<u8>) -> Bip32Error;

/// `Bip32Error::BadXPubVersionBytes`: the error that carries four version bytes.
#[verifier::external_body]
pub(crate) fn bad_xpub_version(version: [u8; 4]) -> (error: Bip32Error)
    ensures
        error == bad_xpub_version_error(version@),
{
    Bip32Error::BadXPubVersionBytes(version)
}

} // verus!
