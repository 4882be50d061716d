//! The two halves of a record, and the errors of this crate.

use vstd::prelude::*;

use bitcoins::types::TxError;
use coins_bip32::Bip32Error;
use coins_core::ser::SerError;

verus! {

/// The key of a record: its type byte, followed by key data.
#[derive(Debug, PartialEq, Eq, Hash)]
pub struct PSBTKey {
    bytes: Vec<u8>,
}

impl View for PSBTKey {
    type V = Seq<u8>;

    closed spec fn view(&self) -> Seq<u8> {
        self.bytes@
    }
}

impl Clone for PSBTKey {
    fn clone(&self) -> (copy: PSBTKey)
        ensures
            copy@ == self@,
    {
        PSBTKey { bytes: self.bytes.clone() }
    }
}

impl PSBTKey {
    /// Wraps the bytes of a key.
    pub fn new(bytes: Vec<u8>) -> (key: PSBTKey)
        ensures
            key@ == bytes@,
    {
        PSBTKey { bytes }
    }

    /// The bytes of the key, its type byte first.
    pub fn items(&self) -> (items: &[u8])
        ensures
            items@ == self@,
    {
        self.bytes.as_slice()
    }

    /// The number of bytes in the key, its type byte counted.
    pub fn len(&self) -> (len: usize)
        ensures
            len == self@.len(),
    {
        self.bytes.len()
    }

    /// Whether the key holds no byte at all, not even a type.
    pub fn is_empty(&self) -> (empty: bool)
        ensures
            empty == (self@.len() == 0),
    {
        self.bytes.len() == 0
    }

    /// The type of the record: the first byte of its key.
    pub fn key_type(&self) -> (key_type: u8)
        requires
            self@.len() > 0,
        ensures
            key_type == self@[0],
    {
        self.bytes[0]
    }
}

/// The value of a record.
#[derive(Debug, PartialEq, Eq, Hash)]
pub struct PSBTValue {
    bytes: Vec<u8>,
}

impl View for PSBTValue {
    type V = Seq<u8>;

    closed spec fn view(&self) -> Seq<u8> {
        self.bytes@
    }
}

impl Clone for PSBTValue {
    fn clone(&self) -> (copy: PSBTValue)
        ensures
            copy@ == self@,
    {
        PSBTValue { bytes: self.bytes.clone() }
    }
}

impl PSBTValue {
    /// Wraps the bytes of a value.
    pub fn new(bytes: Vec<u8>) -> (val: PSBTValue)
        ensures
            val@ == bytes@,
    {
        PSBTValue { bytes }
    }

    /// The bytes of the value.
    pub fn items(&self) -> (items: &[u8])
        ensures
            items@ == self@,
    {
        self.bytes.as_slice()
    }

    /// The number of bytes in the value.
    pub fn len(&self) -> (len: usize)
        ensures
            len == self@.len(),
    {
        self.bytes.len()
    }

    /// Whether the value holds no byte.
    pub fn is_empty(&self) -> (empty: bool)
        ensures
            empty == (self@.len() == 0),
    {
        self.bytes.len() == 0
    }
}

/// Why a record is refused.
#[allow(inconsistent_fields)]
#[derive(Debug)]
pub enum PsbtError {
    /// Bytes could not be read as the item that they should hold.
    SerError(SerError),
    /// Bytes could not be read as a transaction, or name no sighash mode.
    TxError(TxError),
    /// Bytes could not be read as a key, a signature or an extended key.
    Bip32Error(Bip32Error),
    /// The key is of another type.
    WrongKeyType {
        /// The type that was asked for.
        expected: u8,
        /// The type that the key has.
        got: u8,
    },
    /// The key has another length.
    WrongKeyLength {
        /// The length that was asked for.
        expected: usize,
        /// The length that the key has.
        got: usize,
    },
    /// The value has another length.
    WrongValueLength {
        /// The length that was asked for.
        expected: usize,
        /// The length that the value has.
        got: usize,
    },
    /// The value is not a key fingerprint followed by a list of child indices.
    InvalidBip32Path,
    /// The depth that an extended key states is not the length of its derivation path.
    Bip32DepthMismatch,
    /// The output is neither a witness output nor one that may wrap a witness program.
    InvalidWitnessTxo,
}

/// `result` is `expected`, with a value taken by its view.
pub open spec fn agrees<T: View>(
    result: Result<T, PsbtError>,
    expected: Result<T::V, PsbtError>,
) -> bool {
    match result {
        Ok(value) => expected == Ok::<T::V, PsbtError>(value@),
        Err(error) => expected == Err::<T::V, PsbtError>(error),
    }
}

/// What is left of an outcome when only success or failure counts.
pub open spec fn verdict<T>(result: Result<T, PsbtError>) -> Result<(), PsbtError> {
    match result {
        Ok(_) => Ok(()),
        Err(error) => Err(error),
    }
}

/// Two checks in order: the second counts only where the first found no fault.
pub open spec fn in_order(
    first: Result<(), PsbtError>,
    second: Result<(), PsbtError>,
) -> Result<(), PsbtError> {
    match first {
        Ok(_) => second,
        Err(error) => Err(error),
    }
}

/// The outcome of a reader of keys, with a refusal as an error of this crate.
pub open spec fn or_bip32_error<T>(read: Result<T, Bip32Error>) -> Result<T, PsbtError> {
    match read {
        Ok(value) => Ok(value),
        Err(error) => Err(PsbtError::Bip32Error(error)),
    }
}

/// The outcome of a reader of transactions, with a refusal as an error of this crate.
pub open spec fn or_tx_error<T>(read: Result<T, TxError>) -> Result<T, PsbtError> {
    match read {
        Ok(value) => Ok(value),
        Err(error) => Err(PsbtError::TxError(error)),
    }
}

/// Keeps of an outcome whether it is a success or a failure.
pub fn without_value<T>(result: Result<T, PsbtError>) -> (kept: Result<(), PsbtError>)
    ensures
        kept == verdict(result),
        match result {
            Ok(_) => kept is Ok,
            Err(fault) => kept matches Err(error) && error == fault,
        },
{
    match result {
        Ok(_) => Ok(()),
        Err(error) => Err(error),
    }
}

/// Makes a refusal by a reader of keys an error of this crate.
pub fn from_bip32<T>(read: Result<T, Bip32Error>) -> (result: Result<T, PsbtError>)
    ensures
        result == or_bip32_error(read),
        match read {
            Ok(value) => result matches Ok(kept) && kept == value,
            Err(error) => result matches Err(PsbtError::Bip32Error(kept)) && kept == error,
        },
{
    match read {
        Ok(value) => Ok(value),
        Err(error) => Err(PsbtError::Bip32Error(error)),
    }
}

/// Makes a refusal by a reader of transactions an error of this crate.
pub fn from_tx<T>(read: Result<T, TxError>) -> (result: Result<T, PsbtError>)
    ensures
        result == or_tx_error(read),
        match read {
            Ok(value) => result matches Ok(kept) && kept == value,
            Err(error) => result matches Err(PsbtError::TxError(kept)) && kept == error,
        },
{
    match read {
        Ok(value) => Ok(value),
        Err(error) => Err(PsbtError::TxError(error)),
    }
}

} // verus!
