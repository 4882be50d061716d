use coins_bip32::ecdsa::VerifyingKey;
use coins_bip32::enc::{MainnetEncoder, XKeyEncoder};

use psbt_schema::common::{PSBTKey, PSBTValue};
use psbt_schema::schema::{
    pubkey_as_key, try_key_as_pubkey, try_key_as_xpub, try_val_as_key_derivation,
    try_val_as_sighash, try_val_as_signature, try_val_as_tx_out, try_val_as_witness,
};
use psbt_schema::types::Network;

/// The shortest compact integer for a number below two to the 32.
fn compact(number: usize) -> Vec<u8> {
    if number <= 0xfc {
        vec![number as u8]
    } else if number <= 0xffff {
        let mut bytes = vec![0xfd];
        bytes.extend_from_slice(&(number as u16).to_le_bytes());
        bytes
    } else {
        let mut bytes = vec![0xfe];
        bytes.extend_from_slice(&(number as u32).to_le_bytes());
        bytes
    }
}

fn with_length(item: &[u8]) -> Vec<u8> {
    let mut bytes = compact(item.len());
    bytes.extend_from_slice(item);
    bytes
}

#[test]
fn witness_items_of_all_prefix_widths_are_read_back() {
    for length in [0usize, 1, 0xfc, 0xfd, 0xff, 0x100, 0xffff, 0x1_0000, 0x1_2345] {
        let items = vec![vec![7u8; length], vec![8u8]];
        let mut bytes = compact(2);
        bytes.extend(with_length(&items[0]));
        bytes.extend(with_length(&items[1]));
        bytes.push(0xee);
        assert_eq!(try_val_as_witness(&PSBTValue::new(bytes)).unwrap(), items);
    }
}

#[test]
fn witness_of_many_items_is_read_back() {
    for number in [0xfcusize, 0xfd, 0x1_0000] {
        let items = vec![vec![9u8]; number];
        let mut bytes = compact(number);
        for item in &items {
            bytes.extend(with_length(item));
        }
        assert_eq!(try_val_as_witness(&PSBTValue::new(bytes)).unwrap(), items);
    }
}

#[test]
fn outputs_are_read_back() {
    for value in [0u64, 1, 0x0102_0304_0506_0708, u64::MAX] {
        for length in [0usize, 0xfc, 0xfd, 0x1_0000] {
            let script = vec![3u8; length];
            let mut bytes = value.to_le_bytes().to_vec();
            bytes.extend(with_length(&script));
            bytes.push(0xee);
            let out = try_val_as_tx_out(&PSBTValue::new(bytes)).unwrap();
            assert_eq!(out.value, value);
            assert_eq!(out.script_pubkey, script);
        }
    }
}

#[test]
fn derivations_are_read_back() {
    let path = vec![0u32, 1, 0xff, 0x100, 0x0102_0304, 0x8000_0000, u32::MAX];
    let mut bytes = vec![9u8, 8, 7, 6];
    for index in &path {
        bytes.extend_from_slice(&index.to_le_bytes());
    }
    let read = try_val_as_key_derivation(&PSBTValue::new(bytes.clone())).unwrap();
    assert_eq!(read.root, [9, 8, 7, 6]);
    assert_eq!(read.path, path);
    // a change of any byte shows
    for at in 0..bytes.len() {
        let mut other = bytes.clone();
        other[at] ^= 1;
        assert_ne!(try_val_as_key_derivation(&PSBTValue::new(other)).unwrap(), read);
    }
}

#[test]
fn each_sighash_mode_has_one_value() {
    let mut modes = vec![];
    for flag in 0u8..=0xff {
        if let Ok(mode) = try_val_as_sighash(&PSBTValue::new(vec![flag, 0, 0, 0])) {
            assert!(!modes.contains(&mode));
            modes.push(mode);
        }
    }
    assert_eq!(modes.len(), 6);
}

#[test]
fn signatures_are_read_back() {
    for (r_length, s_length) in [(1usize, 1usize), (1, 32), (20, 31), (32, 32)] {
        let mut bytes = vec![0x30, (4 + r_length + s_length) as u8, 2, r_length as u8];
        bytes.extend(vec![0x11u8; r_length]);
        bytes.extend_from_slice(&[2, s_length as u8]);
        bytes.extend(vec![0x22u8; s_length]);
        bytes.push(1);
        let (signature, _) = try_val_as_signature(&PSBTValue::new(bytes)).unwrap();
        let mut expected = [0u8; 64];
        for byte in &mut expected[32 - r_length..32] {
            *byte = 0x11;
        }
        for byte in &mut expected[64 - s_length..] {
            *byte = 0x22;
        }
        assert_eq!(signature.bytes, expected);
    }
}

#[test]
fn extended_key_ignores_what_stands_behind_it() {
    let mut bytes = vec![1u8, 0x04, 0x88, 0xb2, 0x1e];
    bytes.extend(vec![0u8; 41]);
    bytes.push(0x03);
    bytes.extend(vec![0u8; 31]);
    bytes.push(6);
    let alone = bytes.clone();
    bytes.extend(vec![0xee; 5]);
    let xpub = try_key_as_xpub(&PSBTKey::new(bytes), Network::Mainnet).unwrap();
    let mut written = vec![];
    MainnetEncoder::write_xpub(&mut written, &xpub).unwrap();
    assert_eq!(written, alone[1..].to_vec());
}

#[test]
fn pubkeys_are_read_back_whatever_the_type() {
    for x in [1u8, 2, 3, 4, 6, 8] {
        for mark in [2u8, 3] {
            let mut sec1 = vec![0u8; 33];
            sec1[0] = mark;
            sec1[32] = x;
            let pubkey = VerifyingKey::from_sec1_bytes(&sec1).unwrap();
            for key_type in [0u8, 2, 6, 0xff] {
                let key = pubkey_as_key(key_type, &pubkey);
                assert_eq!(key.key_type(), key_type);
                assert_eq!(key.items()[1..].to_vec(), sec1);
                assert_eq!(try_key_as_pubkey(&key).unwrap(), pubkey);
            }
        }
    }
}
