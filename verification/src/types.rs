//! The plain values that records are read into.

use vstd::prelude::*;

use coins_bip32::ecdsa::VerifyingKey;

verus! {

/// What a signature commits to.
#[derive(Clone, Copy, Debug, PartialEq, Eq, Structural)]
pub enum Sighash {
    /// All inputs and all outputs.
    All,
    /// All inputs and no output.
    NoOutput,
    /// All inputs and one output.
    Single,
    /// One input and all outputs.
    AllAcp,
    /// One input and no output.
    NoOutputAcp,
    /// One input and one output.
    SingleAcp,
}

/// The mode that a sighash flag stands for, where it stands for one.
pub open spec fn sighash_of(flag: u8) -> Option<Sighash> {
    if flag == 0x01 {
        Option::Some(Sighash::All)
    } else if flag == 0x02 {
        Option::Some(Sighash::NoOutput)
    } else if flag == 0x03 {
        Option::Some(Sighash::Single)
    } else if flag == 0x81 {
        Option::Some(Sighash::AllAcp)
    } else if flag == 0x82 {
        Option::Some(Sighash::NoOutputAcp)
    } else if flag == 0x83 {
        Option::Some(Sighash::SingleAcp)
    } else {
        Option::None
    }
}

/// The standard shapes of an output script.
#[derive(Clone, Copy, Debug, PartialEq, Eq, Structural)]
pub enum ScriptType {
    /// Pay to a public key hash.
    Pkh,
    /// Pay to a script hash.
    Sh,
    /// Pay to a witness public key hash.
    Wpkh,
    /// Pay to a witness script hash.
    Wsh,
    /// Carries data and cannot be spent.
    OpReturn,
    /// Any other script.
    NonStandard,
}

/// The shape of an output script.
pub open spec fn script_type_of(script: Seq<u8>) -> ScriptType {
    let n = script.len();
    if n >= 2 && script[0] == 0x6a && script[1] <= 75 && script[1] == n - 2 {
        ScriptType::OpReturn
    } else if n == 25 && script[0] == 0x76 && script[1] == 0xa9 && script[2] == 0x14 && script[23]
        == 0x88 && script[24] == 0xac {
        ScriptType::Pkh
    } else if n == 23 && script[0] == 0xa9 && script[1] == 0x14 && script[22] == 0x87 {
        ScriptType::Sh
    } else if n == 22 && script[0] == 0x00 && script[1] == 0x14 {
        ScriptType::Wpkh
    } else if n == 34 && script[0] == 0x00 && script[1] == 0x20 {
        ScriptType::Wsh
    } else {
        ScriptType::NonStandard
    }
}

/// A transaction output.
#[derive(Debug, PartialEq, Eq)]
pub struct TxOut {
    /// The value of the output in satoshis.
    pub value: u64,
    /// The script that locks the output.
    pub script_pubkey: Vec<u8>,
}

impl View for TxOut {
    type V = (u64, Seq<u8>);

    open spec fn view(&self) -> (u64, Seq<u8>) {
        (self.value, self.script_pubkey@)
    }
}

/// The stack items of a script witness.
pub type Witness = Vec<Vec<u8>>;

/// The contents of the stack items of a witness.
pub open spec fn witness_view(items: Seq<Vec<u8>>) -> Seq<Seq<u8>> {
    Seq::new(items.len(), |i: int| items[i]@)
}

/// An ECDSA signature over secp256k1: `r` and then `s`, 32 bytes each, most significant byte
/// first.
#[derive(Clone, Copy, Debug, PartialEq, Eq)]
pub struct Signature {
    /// The 64 bytes.
    pub bytes: [u8; 64],
}

/// How to reach a key from a root key.
#[derive(Debug, PartialEq, Eq)]
pub struct KeyDerivation {
    /// The fingerprint of the root key.
    pub root: [u8; 4],
    /// The child indices on the way from the root key.
    pub path: Vec<u32>,
}

impl View for KeyDerivation {
    type V = (Seq<u8>, Seq<u32>);

    open spec fn view(&self) -> (Seq<u8>, Seq<u32>) {
        (self.root@, self.path@)
    }
}

/// A public key with its derivation.
#[derive(Debug)]
pub struct DerivedPubkey {
    /// The public key.
    pub key: VerifyingKey,
    /// How to reach it.
    pub derivation: KeyDerivation,
}

impl View for DerivedPubkey {
    type V = (VerifyingKey, (Seq<u8>, Seq<u32>));

    open spec fn view(&self) -> (VerifyingKey, (Seq<u8>, Seq<u32>)) {
        (self.key, self.derivation@)
    }
}

impl DerivedPubkey {
    /// Couples a public key with its derivation.
    pub fn new(key: VerifyingKey, derivation: KeyDerivation) -> (derived: DerivedPubkey)
        ensures
            derived.key == key,
            derived.derivation == derivation,
    {
        DerivedPubkey { key, derivation }
    }
}

/// The network whose version bytes an extended key carries.
#[derive(Clone, Copy, Debug, PartialEq, Eq, Structural)]
pub enum Network {
    /// The main network.
    Mainnet,
    /// The test network.
    Testnet,
}

} // verus!
