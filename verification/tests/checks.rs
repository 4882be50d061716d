use bitcoins::types::TxError;

use psbt_schema::common::{PSBTKey, PSBTValue, PsbtError};
use psbt_schema::schema::{global, input, output};

const GENERATOR: [u8; 33] = [
    0x02, 0x79, 0xbe, 0x66, 0x7e, 0xf9, 0xdc, 0xbb, 0xac, 0x55, 0xa0, 0x62, 0x95, 0xce, 0x87, 0x0b,
    0x07, 0x02, 0x9b, 0xfc, 0xdb, 0x2d, 0xce, 0x28, 0xd9, 0x59, 0xf2, 0x81, 0x5b, 0x16, 0xf8, 0x17,
    0x98,
];

/// A transaction without inputs and outputs.
const EMPTY_TX: [u8; 10] = [1, 0, 0, 0, 0, 0, 0, 0, 0, 0];

/// A signature with the numbers one and one, for all inputs and outputs.
const SIGNATURE: [u8; 9] = [0x30, 6, 2, 1, 1, 2, 1, 1, 1];

type Check = fn(&PSBTKey, &PSBTValue) -> Result<(), PsbtError>;

fn key(bytes: &[u8]) -> PSBTKey {
    PSBTKey::new(bytes.to_vec())
}

fn val(bytes: &[u8]) -> PSBTValue {
    PSBTValue::new(bytes.to_vec())
}

fn key_of(key_type: u8, data: &[u8]) -> PSBTKey {
    let mut bytes = vec![key_type];
    bytes.extend_from_slice(data);
    PSBTKey::new(bytes)
}

fn output_of(script: &[u8]) -> PSBTValue {
    let mut bytes = vec![0u8; 8];
    bytes.push(script.len() as u8);
    bytes.extend_from_slice(script);
    PSBTValue::new(bytes)
}

fn script(head: &[u8], length: usize, tail: &[u8]) -> Vec<u8> {
    let mut bytes = head.to_vec();
    bytes.resize(length - tail.len(), 0x33);
    bytes.extend_from_slice(tail);
    bytes
}

#[test]
fn records_with_a_bare_key_take_any_value() {
    let checks: [(u8, Check); 7] = [
        (0, output::validate_redeem_script),
        (1, output::validate_witness_script),
        (4, input::validate_redeem_script),
        (5, input::validate_witness_script),
        (7, input::validate_finalized_script_sig),
        (8, input::validate_finalized_script_witness),
        (9, input::validate_por_commitment),
    ];
    for (key_type, check) in checks {
        assert!(check(&key(&[key_type]), &val(&[])).is_ok());
        assert!(check(&key(&[key_type]), &val(&[1, 2, 3])).is_ok());
        assert!(matches!(
            check(&key(&[key_type, 0]), &val(&[])),
            Err(PsbtError::WrongKeyLength { expected: 1, got: 2 })
        ));
        match check(&key(&[0x20, 0]), &val(&[])) {
            Err(PsbtError::WrongKeyType { expected, got }) => {
                assert_eq!((expected, got), (key_type, 0x20));
            }
            _ => panic!("another type was accepted"),
        }
    }
}

#[test]
fn transactions_are_checked() {
    let checks: [Check; 2] = [global::validate_tx, input::validate_in_non_witness];
    for check in checks {
        assert!(check(&key(&[0]), &val(&EMPTY_TX)).is_ok());
        assert!(matches!(
            check(&key(&[0]), &val(&EMPTY_TX[..9])),
            Err(PsbtError::TxError(_))
        ));
        assert!(matches!(
            check(&key(&[0, 1]), &val(&EMPTY_TX)),
            Err(PsbtError::WrongKeyLength { expected: 1, got: 2 })
        ));
        assert!(matches!(
            check(&key(&[1]), &val(&EMPTY_TX)),
            Err(PsbtError::WrongKeyType { expected: 0, got: 1 })
        ));
    }
}

/// A key with an extended public key of this depth.
fn xpub_key(depth: u8) -> PSBTKey {
    let mut bytes = vec![1u8, 0x04, 0x88, 0xb2, 0x1e, depth];
    bytes.resize(79, 0);
    PSBTKey::new(bytes)
}

#[test]
fn xpub_depth_has_to_be_that_of_the_path() {
    for depth in [0u8, 1, 2, 255] {
        let steps = PSBTValue::new(vec![0u8; 4 + 4 * depth as usize]);
        assert!(global::validate_xpub(&xpub_key(depth), &steps).is_ok());
        assert!(matches!(
            global::validate_xpub(&xpub_key(depth.wrapping_add(1)), &steps),
            Err(PsbtError::Bip32DepthMismatch)
        ));
    }
    // 256 steps are more than a depth can count
    let steps = PSBTValue::new(vec![0u8; 4 + 4 * 256]);
    assert!(matches!(
        global::validate_xpub(&xpub_key(0), &steps),
        Err(PsbtError::Bip32DepthMismatch)
    ));
}

#[test]
fn xpub_value_has_to_be_a_derivation() {
    for length in [0usize, 3, 5, 7] {
        assert!(matches!(
            global::validate_xpub(&xpub_key(0), &PSBTValue::new(vec![0u8; length])),
            Err(PsbtError::InvalidBip32Path)
        ));
    }
}

#[test]
fn wrong_xpub_depth_is_reported_before_a_bad_derivation() {
    for length in [5usize, 6, 7, 9] {
        assert!(matches!(
            global::validate_xpub(&xpub_key(5), &PSBTValue::new(vec![0u8; length])),
            Err(PsbtError::Bip32DepthMismatch)
        ));
    }
}

#[test]
fn xpub_key_has_to_be_of_its_type_and_length() {
    assert!(matches!(
        global::validate_xpub(&key(&[2]), &val(&[])),
        Err(PsbtError::WrongKeyType { expected: 1, got: 2 })
    ));
    assert!(matches!(
        global::validate_xpub(&key(&[1; 78]), &val(&[])),
        Err(PsbtError::WrongKeyLength { expected: 79, got: 78 })
    ));
}

#[test]
fn version_has_32_bytes() {
    assert!(global::validate_version(&key(&[0xfb]), &val(&[0; 32])).is_ok());
    for length in [0usize, 4, 31, 33] {
        match global::validate_version(&key(&[0xfb]), &PSBTValue::new(vec![0; length])) {
            Err(PsbtError::WrongValueLength { expected, got }) => {
                assert_eq!((expected, got), (32, length));
            }
            _ => panic!("another length was accepted"),
        }
    }
    assert!(matches!(
        global::validate_version(&key(&[0xfb, 0]), &val(&[0; 32])),
        Err(PsbtError::WrongKeyLength { expected: 1, got: 2 })
    ));
    assert!(matches!(
        global::validate_version(&key(&[0xfa]), &val(&[0; 32])),
        Err(PsbtError::WrongKeyType { expected: 0xfb, got: 0xfa })
    ));
}

#[test]
fn witness_outputs_are_accepted() {
    let scripts = [
        script(&[0x00, 0x14], 22, &[]),
        script(&[0x00, 0x20], 34, &[]),
        script(&[0xa9, 0x14], 23, &[0x87]),
    ];
    for script in scripts {
        assert!(input::validate_in_witness(&key(&[1]), &output_of(&script)).is_ok());
    }
}

#[test]
fn other_outputs_are_refused() {
    let scripts = [
        vec![],
        script(&[0x76, 0xa9, 0x14], 25, &[0x88, 0xac]),
        script(&[0x6a, 20], 22, &[]),
        script(&[0x00, 0x14], 23, &[]),
        script(&[0x00, 0x20], 33, &[]),
        script(&[0xa9, 0x14], 23, &[0x88]),
        script(&[0x51, 0x20], 34, &[]),
    ];
    for script in scripts {
        assert!(matches!(
            input::validate_in_witness(&key(&[1]), &output_of(&script)),
            Err(PsbtError::InvalidWitnessTxo)
        ));
    }
}

#[test]
fn witness_output_has_to_be_an_output_behind_its_key() {
    assert!(matches!(
        input::validate_in_witness(&key(&[1]), &val(&[0; 8])),
        Err(PsbtError::SerError(_))
    ));
    assert!(matches!(
        input::validate_in_witness(&key(&[2]), &val(&[0; 8])),
        Err(PsbtError::WrongKeyType { expected: 1, got: 2 })
    ));
    assert!(matches!(
        input::validate_in_witness(&key(&[1, 2]), &val(&[0; 8])),
        Err(PsbtError::WrongKeyLength { expected: 1, got: 2 })
    ));
}

#[test]
fn partial_signature_takes_both_lengths_of_pubkey() {
    assert!(input::validate_in_partial_sig(&key_of(2, &[0; 33]), &val(&SIGNATURE)).is_ok());
    assert!(input::validate_in_partial_sig(&key_of(2, &[0; 65]), &val(&SIGNATURE)).is_ok());
    assert!(matches!(
        input::validate_in_partial_sig(&key_of(2, &[0; 34]), &val(&SIGNATURE)),
        Err(PsbtError::WrongKeyLength { expected: 66, got: 35 })
    ));
    assert!(matches!(
        input::validate_in_partial_sig(&key_of(3, &[0; 34]), &val(&SIGNATURE)),
        Err(PsbtError::WrongKeyType { expected: 2, got: 3 })
    ));
}

#[test]
fn partial_signature_has_to_be_one() {
    let pubkey = key_of(2, &GENERATOR);
    assert!(matches!(
        input::validate_in_partial_sig(&pubkey, &val(&[])),
        Err(PsbtError::WrongValueLength { expected: 75, got: 0 })
    ));
    assert!(matches!(
        input::validate_in_partial_sig(&pubkey, &val(&SIGNATURE[..8])),
        Err(PsbtError::Bip32Error(_))
    ));
    let mut unknown = SIGNATURE;
    unknown[8] = 0x41;
    assert!(matches!(
        input::validate_in_partial_sig(&pubkey, &val(&unknown)),
        Err(PsbtError::TxError(TxError::UnknownSighash(0x41)))
    ));
}

#[test]
fn sighash_records_are_checked() {
    assert!(input::validate_sighash_type(&key(&[3]), &val(&[0x83, 0, 0, 0])).is_ok());
    assert!(matches!(
        input::validate_sighash_type(&key(&[3]), &val(&[0x84, 0, 0, 0])),
        Err(PsbtError::TxError(TxError::UnknownSighash(0x84)))
    ));
    assert!(matches!(
        input::validate_sighash_type(&key(&[3]), &val(&[0x83])),
        Err(PsbtError::WrongValueLength { expected: 4, got: 1 })
    ));
    assert!(matches!(
        input::validate_sighash_type(&key(&[3, 3]), &val(&[0x83])),
        Err(PsbtError::WrongKeyLength { expected: 1, got: 2 })
    ));
    assert!(matches!(
        input::validate_sighash_type(&key(&[4, 3]), &val(&[0x83])),
        Err(PsbtError::WrongKeyType { expected: 3, got: 4 })
    ));
}

#[test]
fn input_derivations_are_checked() {
    let derivation = val(&[0; 8]);
    assert!(input::validate_bip32_derivations(&key_of(6, &GENERATOR), &derivation).is_ok());
    assert!(matches!(
        input::validate_bip32_derivations(&key_of(6, &GENERATOR), &val(&[])),
        Err(PsbtError::InvalidBip32Path)
    ));
    // no point of the curve
    assert!(matches!(
        input::validate_bip32_derivations(&key_of(6, &[0; 33]), &val(&[])),
        Err(PsbtError::Bip32Error(_))
    ));
    assert!(matches!(
        input::validate_bip32_derivations(&key_of(6, &[0; 65]), &derivation),
        Err(PsbtError::WrongKeyLength { expected: 34, got: 66 })
    ));
    assert!(matches!(
        input::validate_bip32_derivations(&key_of(2, &GENERATOR), &derivation),
        Err(PsbtError::WrongKeyType { expected: 6, got: 2 })
    ));
    assert!(matches!(
        input::validate_derivation_of(Err(PsbtError::InvalidWitnessTxo), &val(&[])),
        Err(PsbtError::InvalidWitnessTxo)
    ));
}

#[test]
fn output_derivations_are_checked() {
    let derivation = val(&[0; 8]);
    assert!(output::validate_bip32_derivations(&key_of(2, &GENERATOR), &derivation).is_ok());
    // the point itself is not looked at
    assert!(output::validate_bip32_derivations(&key_of(2, &[0; 33]), &derivation).is_ok());
    assert!(matches!(
        output::validate_bip32_derivations(&key_of(2, &[0; 65]), &derivation),
        Err(PsbtError::WrongKeyLength { expected: 34, got: 66 })
    ));
    assert!(matches!(
        output::validate_bip32_derivations(&key_of(2, &GENERATOR), &val(&[0; 6])),
        Err(PsbtError::InvalidBip32Path)
    ));
    assert!(matches!(
        output::validate_bip32_derivations(&key_of(6, &GENERATOR), &derivation),
        Err(PsbtError::WrongKeyType { expected: 2, got: 6 })
    ));
}

#[test]
fn no_record_is_accepted_under_two_types() {
    let checks: [Check; 10] = [
        input::validate_in_non_witness,
        input::validate_in_witness,
        input::validate_in_partial_sig,
        input::validate_sighash_type,
        input::validate_redeem_script,
        input::validate_witness_script,
        input::validate_bip32_derivations,
        input::validate_finalized_script_sig,
        input::validate_finalized_script_witness,
        input::validate_por_commitment,
    ];
    let values = [val(&EMPTY_TX), val(&SIGNATURE), val(&[1, 0, 0, 0]), val(&[0; 8])];
    for key_type in 0u8..12 {
        for key in [key(&[key_type]), key_of(key_type, &GENERATOR)] {
            for value in &values {
                let accepting =
                    checks.iter().filter(|check| check(&key, value).is_ok()).count();
                assert!(accepting <= 1);
            }
        }
    }
}
