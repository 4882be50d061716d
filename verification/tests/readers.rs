use bitcoins::types::{LegacyTx, TxError};
use coins_bip32::ecdsa::VerifyingKey;
use coins_bip32::enc::{MainnetEncoder, TestnetEncoder, XKeyEncoder};
use coins_bip32::xkeys::XPub;
use coins_bip32::Bip32Error;
use coins_core::ser::{ByteFormat, SerError};

use psbt_schema::common::{PSBTKey, PSBTValue, PsbtError};
use psbt_schema::schema::{
    couple_derivation, couple_pubkey_and_signature, couple_signature, try_key_as_pubkey,
    try_key_as_xpub, try_kv_pair_as_derived_pubkey, try_kv_pair_as_pubkey_and_sig,
    try_val_as_key_derivation, try_val_as_sighash, try_val_as_signature, try_val_as_tx,
    try_val_as_tx_out, try_val_as_witness, validate_expected_key_type, validate_fixed_key_length,
    validate_fixed_val_length, validate_single_byte_key_type, validate_xpub_depth, xpub_bytes,
};
use psbt_schema::types::{KeyDerivation, Network, Sighash, Signature, TxOut};

/// The generator of the curve, compressed.
const GENERATOR: &str = "0279be667ef9dcbbac55a06295ce870b07029bfcdb2dce28d959f2815b16f81798";

/// One less than the number of points of the curve.
const LARGEST_SCALAR: &str = "fffffffffffffffffffffffffffffffebaaedce6af48a03bbfd25e8cd0364140";

/// The master public key of the first test vector of BIP 32, behind its version bytes.
const MASTER_BODY: &str = "000000000000000000873dff81c02f525623fd1fe5167eac3a55a049de3d314bb42ee227ffed37d5080339a36013301597daef41fbe593a02cc513d0b55527ec2df1050e2e8ff49c85c2";

fn nibble(digit: u8) -> u8 {
    match digit {
        b'0'..=b'9' => digit - b'0',
        b'a'..=b'f' => digit - b'a' + 10,
        _ => panic!("not a hex digit"),
    }
}

fn hex(text: &str) -> Vec<u8> {
    text.as_bytes().chunks(2).map(|pair| 16 * nibble(pair[0]) + nibble(pair[1])).collect()
}

fn key(text: &str) -> PSBTKey {
    PSBTKey::new(hex(text))
}

fn val(text: &str) -> PSBTValue {
    PSBTValue::new(hex(text))
}

fn generator() -> VerifyingKey {
    VerifyingKey::from_sec1_bytes(&hex(GENERATOR)).unwrap()
}

fn xpub_key(version: &str) -> PSBTKey {
    key(&format!("01{}{}", version, MASTER_BODY))
}

fn mainnet_bytes(xpub: &XPub) -> Vec<u8> {
    let mut bytes = vec![];
    MainnetEncoder::write_xpub(&mut bytes, xpub).unwrap();
    bytes
}

fn testnet_bytes(xpub: &XPub) -> Vec<u8> {
    let mut bytes = vec![];
    TestnetEncoder::write_xpub(&mut bytes, xpub).unwrap();
    bytes
}

#[test]
fn key_and_value_give_back_their_bytes() {
    let bytes = vec![7u8, 8, 9];
    let key = PSBTKey::new(bytes.clone());
    assert_eq!(key.items(), &bytes[..]);
    assert_eq!(key.len(), 3);
    assert_eq!(key.key_type(), 7);
    assert!(!key.is_empty());
    assert_eq!(key.clone(), key);
    let val = PSBTValue::new(bytes.clone());
    assert_eq!(val.items(), &bytes[..]);
    assert_eq!(val.len(), 3);
    assert!(!val.is_empty());
    assert_eq!(val.clone(), val);
    assert!(PSBTKey::new(vec![]).is_empty());
    assert!(PSBTValue::new(vec![]).is_empty());
}

#[test]
fn derivation_is_fingerprint_and_indices() {
    let read = try_val_as_key_derivation(&val("d90c6a4f000000800100000002030405")).unwrap();
    assert_eq!(
        read,
        KeyDerivation {
            root: [0xd9, 0x0c, 0x6a, 0x4f],
            path: vec![0x8000_0000, 1, 0x0504_0302],
        }
    );
}

#[test]
fn derivation_may_have_no_index() {
    let read = try_val_as_key_derivation(&val("d90c6a4f")).unwrap();
    assert_eq!(read, KeyDerivation { root: [0xd9, 0x0c, 0x6a, 0x4f], path: vec![] });
}

#[test]
fn derivation_of_other_lengths_is_refused() {
    for length in [0usize, 1, 2, 3, 5, 6, 7, 9] {
        let read = try_val_as_key_derivation(&PSBTValue::new(vec![0u8; length]));
        assert!(matches!(read, Err(PsbtError::InvalidBip32Path)));
    }
}

#[test]
fn lengths_and_types_are_compared() {
    let two = key("0102");
    assert!(validate_fixed_key_length(&two, 2).is_ok());
    assert!(matches!(
        validate_fixed_key_length(&two, 3),
        Err(PsbtError::WrongKeyLength { expected: 3, got: 2 })
    ));
    assert!(matches!(
        validate_single_byte_key_type(&two),
        Err(PsbtError::WrongKeyLength { expected: 1, got: 2 })
    ));
    assert!(validate_single_byte_key_type(&key("01")).is_ok());
    assert!(validate_fixed_val_length(&val("010203"), 3).is_ok());
    assert!(matches!(
        validate_fixed_val_length(&val("010203"), 4),
        Err(PsbtError::WrongValueLength { expected: 4, got: 3 })
    ));
    assert!(validate_expected_key_type(&two, 1).is_ok());
    assert!(matches!(
        validate_expected_key_type(&two, 2),
        Err(PsbtError::WrongKeyType { expected: 2, got: 1 })
    ));
}

#[test]
fn depth_marker_stands_behind_the_version() {
    let two_steps = PSBTValue::new(vec![0u8; 12]);
    assert!(validate_xpub_depth(&key("010488b21e02"), &two_steps).is_ok());
    assert!(matches!(
        validate_xpub_depth(&key("010488b21e03"), &two_steps),
        Err(PsbtError::Bip32DepthMismatch)
    ));
    assert!(matches!(
        validate_xpub_depth(&key("010488b202"), &two_steps),
        Err(PsbtError::Bip32DepthMismatch)
    ));
}

#[test]
fn pubkey_is_read_behind_the_type() {
    let read = try_key_as_pubkey(&key(&format!("06{}", GENERATOR))).unwrap();
    assert_eq!(read.to_bytes().to_vec(), hex(GENERATOR));
}

#[test]
fn pubkey_of_another_length_is_refused() {
    assert!(matches!(
        try_key_as_pubkey(&key(GENERATOR)),
        Err(PsbtError::WrongKeyLength { expected: 34, got: 33 })
    ));
    assert!(matches!(
        try_key_as_pubkey(&PSBTKey::new(vec![])),
        Err(PsbtError::WrongKeyLength { expected: 34, got: 0 })
    ));
}

#[test]
fn pubkey_off_the_curve_is_refused() {
    // the curve has points with first coordinates 4 and 6, and none with 5
    for (last, found) in [(4u8, true), (5, false), (6, true)] {
        let mut bytes = vec![0u8; 34];
        bytes[1] = 0x02;
        bytes[33] = last;
        assert_eq!(try_key_as_pubkey(&PSBTKey::new(bytes)).is_ok(), found);
    }
    // a coordinate that is not below the prime of the field
    let mut bytes = vec![0xffu8; 34];
    bytes[1] = 0x02;
    assert!(matches!(
        try_key_as_pubkey(&PSBTKey::new(bytes)),
        Err(PsbtError::Bip32Error(Bip32Error::BackendError(_)))
    ));
    // a mark that is not one of a compressed point
    let mut bytes = hex(&format!("06{}", GENERATOR));
    bytes[1] = 0x04;
    assert!(matches!(
        try_key_as_pubkey(&PSBTKey::new(bytes)),
        Err(PsbtError::Bip32Error(Bip32Error::BackendError(_)))
    ));
}

/// A transaction with one input and one output.
fn small_tx() -> Vec<u8> {
    let mut bytes = vec![2u8, 0, 0, 0, 1];
    bytes.extend(vec![0xabu8; 32]);
    bytes.extend(vec![5u8, 0, 0, 0, 1, 0x51, 0xfe, 0xff, 0xff, 0xff]);
    bytes.extend(vec![1u8, 0x10, 0x27, 0, 0, 0, 0, 0, 0, 2, 0x51, 0x52]);
    bytes.extend(vec![9u8, 0, 0, 0]);
    bytes
}

fn written(tx: &LegacyTx) -> Vec<u8> {
    let mut bytes = vec![];
    tx.write_to(&mut bytes).unwrap();
    bytes
}

#[test]
fn tx_is_read() {
    let tx = try_val_as_tx(&PSBTValue::new(small_tx())).unwrap();
    assert_eq!(written(&tx), small_tx());
}

#[test]
fn tx_ignores_what_stands_behind_it() {
    let mut bytes = small_tx();
    bytes.extend(vec![1u8, 2, 3]);
    let tx = try_val_as_tx(&PSBTValue::new(bytes)).unwrap();
    assert_eq!(written(&tx), small_tx());
}

#[test]
fn tx_without_inputs_and_outputs_is_read() {
    assert!(try_val_as_tx(&val("01000000000000000000")).is_ok());
}

#[test]
fn tx_that_ends_early_is_refused() {
    let bytes = small_tx();
    for length in [0usize, 3, 4, 40, bytes.len() - 1] {
        let read = try_val_as_tx(&PSBTValue::new(bytes[..length].to_vec()));
        assert!(matches!(read, Err(PsbtError::TxError(_))));
    }
}

#[test]
fn output_is_value_and_script() {
    let read = try_val_as_tx_out(&val("102700000000000003515253")).unwrap();
    assert_eq!(read, TxOut { value: 10_000, script_pubkey: vec![0x51, 0x52, 0x53] });
}

#[test]
fn output_ignores_what_stands_behind_it() {
    let read = try_val_as_tx_out(&val("0000000000000080016aeeee")).unwrap();
    assert_eq!(read, TxOut { value: 1 << 63, script_pubkey: vec![0x6a] });
}

#[test]
fn output_that_ends_early_is_refused() {
    assert!(matches!(
        try_val_as_tx_out(&val("10270000000000000351")),
        Err(PsbtError::SerError(SerError::IoError(_)))
    ));
    assert!(matches!(
        try_val_as_tx_out(&val("10270000000000")),
        Err(PsbtError::SerError(SerError::IoError(_)))
    ));
}

#[test]
fn output_with_a_long_winded_length_is_refused() {
    assert!(matches!(
        try_val_as_tx_out(&val("1027000000000000fd030051515151")),
        Err(PsbtError::SerError(SerError::NonMinimalVarInt))
    ));
}

#[test]
fn sighash_flags_are_known() {
    let known = [
        ("01000000", Sighash::All),
        ("02000000", Sighash::NoOutput),
        ("03000000", Sighash::Single),
        ("81000000", Sighash::AllAcp),
        ("82000000", Sighash::NoOutputAcp),
        ("83000000", Sighash::SingleAcp),
    ];
    for (text, mode) in known {
        assert_eq!(try_val_as_sighash(&val(text)).unwrap(), mode);
    }
}

#[test]
fn unknown_sighash_flag_is_reported() {
    assert!(matches!(
        try_val_as_sighash(&val("04000000")),
        Err(PsbtError::TxError(TxError::UnknownSighash(4)))
    ));
    assert!(matches!(
        try_val_as_sighash(&val("00000000")),
        Err(PsbtError::TxError(TxError::UnknownSighash(0)))
    ));
}

#[test]
fn sighash_flag_above_one_byte_is_reported_as_the_largest() {
    for text in ["01010000", "01000100", "01000001"] {
        assert!(matches!(
            try_val_as_sighash(&val(text)),
            Err(PsbtError::TxError(TxError::UnknownSighash(0xff)))
        ));
    }
}

#[test]
fn sighash_takes_four_bytes() {
    assert!(matches!(
        try_val_as_sighash(&val("010000")),
        Err(PsbtError::WrongValueLength { expected: 4, got: 3 })
    ));
    assert!(matches!(
        try_val_as_sighash(&val("0100000000")),
        Err(PsbtError::WrongValueLength { expected: 4, got: 5 })
    ));
}

#[test]
fn shortest_signature_is_read() {
    let (signature, mode) = try_val_as_signature(&val("300602010102010281")).unwrap();
    let mut bytes = [0u8; 64];
    bytes[31] = 1;
    bytes[63] = 2;
    assert_eq!(signature, Signature { bytes });
    assert_eq!(mode, Sighash::AllAcp);
}

#[test]
fn longest_signature_is_read() {
    let text = format!("3046022100{}022100{}01", LARGEST_SCALAR, LARGEST_SCALAR);
    let (signature, mode) = try_val_as_signature(&val(&text)).unwrap();
    assert_eq!(signature.bytes[..32].to_vec(), hex(LARGEST_SCALAR));
    assert_eq!(signature.bytes[32..].to_vec(), hex(LARGEST_SCALAR));
    assert_eq!(mode, Sighash::All);
}

#[test]
fn signature_with_a_number_out_of_range_is_refused() {
    let order = LARGEST_SCALAR.replace("d0364140", "d0364141");
    let texts = [
        format!("3026022100{}02010101", order),
        format!("3026020101022100{}01", order),
        String::from("300602010002010101"),
        String::from("300602010102010001"),
    ];
    for text in &texts {
        assert!(matches!(
            try_val_as_signature(&val(text)),
            Err(PsbtError::Bip32Error(Bip32Error::BackendError(_)))
        ));
    }
    // below the order the same form is read
    assert!(try_val_as_signature(&val(&format!("3026022100{}02010101", LARGEST_SCALAR))).is_ok());
}

#[test]
fn bytes_that_are_no_der_signature_are_refused() {
    let texts = [
        "01",                     // only a flag
        "310602010102010101",     // not a sequence
        "300702010102010101",     // another length
        "300603010102010101",     // not an integer
        "30060201010201010001",   // a byte behind the sequence
        "3007020101020101ee01",   // a byte behind the integers
        "30810602010102010101",   // a length that could be shorter
    ];
    for text in texts {
        assert!(matches!(
            try_val_as_signature(&val(text)),
            Err(PsbtError::Bip32Error(Bip32Error::BackendError(_)))
        ));
    }
}

#[test]
fn empty_signature_is_refused() {
    assert!(matches!(
        try_val_as_signature(&PSBTValue::new(vec![])),
        Err(PsbtError::WrongValueLength { expected: 75, got: 0 })
    ));
}

#[test]
fn bad_signature_is_reported_before_an_unknown_flag() {
    assert!(matches!(
        try_val_as_signature(&val("310602010102010107")),
        Err(PsbtError::Bip32Error(_))
    ));
    assert!(matches!(
        try_val_as_signature(&val("300602010102010107")),
        Err(PsbtError::TxError(TxError::UnknownSighash(7)))
    ));
}

#[test]
fn signature_is_coupled_with_its_mode() {
    let signature = Signature { bytes: [7u8; 64] };
    assert_eq!(couple_signature(Ok(signature), 3).unwrap(), (signature, Sighash::Single));
    assert!(matches!(
        couple_signature(Ok(signature), 5),
        Err(PsbtError::TxError(TxError::UnknownSighash(5)))
    ));
    assert!(matches!(
        couple_signature(Err(Bip32Error::InvalidKey), 5),
        Err(PsbtError::Bip32Error(Bip32Error::InvalidKey))
    ));
}

#[test]
fn witness_is_a_list_of_items() {
    let read = try_val_as_witness(&val("0301aa0002bbcc")).unwrap();
    assert_eq!(read, vec![vec![0xaau8], vec![], vec![0xbb, 0xcc]]);
}

#[test]
fn witness_may_be_empty() {
    assert_eq!(try_val_as_witness(&val("00")).unwrap(), Vec::<Vec<u8>>::new());
}

#[test]
fn witness_ignores_what_stands_behind_it() {
    assert_eq!(try_val_as_witness(&val("0101aaee")).unwrap(), vec![vec![0xaau8]]);
}

#[test]
fn witness_that_ends_early_is_refused() {
    for text in ["", "01", "0102aa", "0201aa"] {
        assert!(matches!(
            try_val_as_witness(&val(text)),
            Err(PsbtError::SerError(SerError::IoError(_)))
        ));
    }
}

#[test]
fn witness_with_a_long_winded_count_is_refused() {
    assert!(matches!(
        try_val_as_witness(&val("fd010001aa")),
        Err(PsbtError::SerError(SerError::NonMinimalVarInt))
    ));
}

#[test]
fn count_that_ends_early_is_filled_up_with_zeros() {
    // the count is 253 and no item follows
    assert!(matches!(
        try_val_as_witness(&val("fdfd")),
        Err(PsbtError::SerError(SerError::IoError(_)))
    ));
    // the count is 1 and could be shorter
    assert!(matches!(
        try_val_as_witness(&val("fd01")),
        Err(PsbtError::SerError(SerError::NonMinimalVarInt))
    ));
}

#[test]
fn xpub_of_each_kind_is_read() {
    for version in ["0488b21e", "049d7cb2", "04b24746"] {
        let read = try_key_as_xpub(&xpub_key(version), Network::Mainnet).unwrap();
        assert_eq!(mainnet_bytes(&read), hex(&format!("{}{}", version, MASTER_BODY)));
    }
    for version in ["043587cf", "044a5262", "045f1cf6"] {
        let read = try_key_as_xpub(&xpub_key(version), Network::Testnet).unwrap();
        assert_eq!(testnet_bytes(&read), hex(&format!("{}{}", version, MASTER_BODY)));
    }
}

#[test]
fn xpub_of_another_network_is_refused() {
    assert!(matches!(
        try_key_as_xpub(&xpub_key("043587cf"), Network::Mainnet),
        Err(PsbtError::Bip32Error(Bip32Error::BadXPrivVersionBytes([0x04, 0x35, 0x87, 0xcf])))
    ));
    assert!(matches!(
        try_key_as_xpub(&xpub_key("0488b21e"), Network::Testnet),
        Err(PsbtError::Bip32Error(Bip32Error::BadXPrivVersionBytes([0x04, 0x88, 0xb2, 0x1e])))
    ));
}

#[test]
fn xpub_off_the_curve_is_refused() {
    let mut bytes = hex(&format!("010488b21e{}", MASTER_BODY));
    for byte in &mut bytes[47..] {
        *byte = 0;
    }
    bytes[78] = 5;
    assert!(matches!(
        try_key_as_xpub(&PSBTKey::new(bytes.clone()), Network::Mainnet),
        Err(PsbtError::Bip32Error(Bip32Error::BackendError(_)))
    ));
    bytes[78] = 6;
    assert!(try_key_as_xpub(&PSBTKey::new(bytes), Network::Mainnet).is_ok());
}

#[test]
fn xpub_that_ends_early_is_refused() {
    let bytes = hex(&format!("010488b21e{}", MASTER_BODY));
    assert_eq!(bytes.len(), 79);
    assert!(matches!(
        try_key_as_xpub(&PSBTKey::new(bytes[..78].to_vec()), Network::Mainnet),
        Err(PsbtError::Bip32Error(Bip32Error::IoError(_)))
    ));
}

#[test]
fn key_without_an_xpub_is_refused() {
    for text in ["", "01"] {
        assert!(matches!(
            try_key_as_xpub(&key(text), Network::Mainnet),
            Err(PsbtError::Bip32Error(Bip32Error::BadXPubVersionBytes([0, 0, 0, 0])))
        ));
        assert!(xpub_bytes(&key(text)).is_err());
    }
    assert_eq!(xpub_bytes(&key("010203")).unwrap(), &[2u8, 3][..]);
}

#[test]
fn derived_pubkey_is_read() {
    let read =
        try_kv_pair_as_derived_pubkey(&key(&format!("06{}", GENERATOR)), &val("0102030405000080"))
            .unwrap();
    assert_eq!(read.key, generator());
    assert_eq!(read.derivation, KeyDerivation { root: [1, 2, 3, 4], path: vec![0x8000_0005] });
}

#[test]
fn bad_pubkey_is_reported_before_a_bad_derivation() {
    assert!(matches!(
        try_kv_pair_as_derived_pubkey(&key("06"), &val("01")),
        Err(PsbtError::WrongKeyLength { expected: 34, got: 1 })
    ));
    assert!(matches!(
        try_kv_pair_as_derived_pubkey(&key(&format!("06{}", GENERATOR)), &val("01")),
        Err(PsbtError::InvalidBip32Path)
    ));
    assert!(matches!(
        couple_derivation(Err(PsbtError::InvalidWitnessTxo), &val("01")),
        Err(PsbtError::InvalidWitnessTxo)
    ));
    assert_eq!(couple_derivation(Ok(generator()), &val("01020304")).unwrap().key, generator());
}

#[test]
fn pubkey_and_signature_are_read() {
    let (pubkey, signature, mode) = try_kv_pair_as_pubkey_and_sig(
        &key(&format!("02{}", GENERATOR)),
        &val("300602010302010402"),
    )
    .unwrap();
    assert_eq!(pubkey, generator());
    assert_eq!((signature.bytes[31], signature.bytes[63]), (3, 4));
    assert_eq!(mode, Sighash::NoOutput);
}

#[test]
fn bad_pubkey_is_reported_before_a_bad_signature() {
    assert!(matches!(
        try_kv_pair_as_pubkey_and_sig(&key("02"), &val("")),
        Err(PsbtError::WrongKeyLength { expected: 34, got: 1 })
    ));
    assert!(matches!(
        try_kv_pair_as_pubkey_and_sig(&key(&format!("02{}", GENERATOR)), &val("")),
        Err(PsbtError::WrongValueLength { expected: 75, got: 0 })
    ));
    assert!(matches!(
        couple_pubkey_and_signature(
            Err(PsbtError::Bip32DepthMismatch),
            Err(PsbtError::InvalidBip32Path)
        ),
        Err(PsbtError::Bip32DepthMismatch)
    ));
    assert!(matches!(
        couple_pubkey_and_signature(Ok(generator()), Err(PsbtError::InvalidBip32Path)),
        Err(PsbtError::InvalidBip32Path)
    ));
}
