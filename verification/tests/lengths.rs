use psbt_schema::common::PSBTValue;
use psbt_schema::room::{tx_fits, tx_out_fits, witness_fits};

/// A length that no allocation can have.
const HUGE: [u8; 9] = [0xff; 9];

fn val(parts: &[&[u8]]) -> PSBTValue {
    PSBTValue::new(parts.concat())
}

#[test]
fn ordinary_values_fit() {
    assert!(tx_fits(&val(&[&[1, 0, 0, 0, 0, 0, 0, 0, 0, 0]])));
    assert!(tx_out_fits(&val(&[&[0; 8], &[1, 0x51]])));
    assert!(witness_fits(&val(&[&[2, 0, 1, 7]])));
}

#[test]
fn values_that_are_refused_fit() {
    assert!(tx_fits(&val(&[])));
    assert!(tx_fits(&val(&[&[1, 0, 0, 0, 1, 0]])));
    assert!(tx_out_fits(&val(&[&[0; 8]])));
    assert!(tx_out_fits(&val(&[&[0; 8], &[9, 0x51]])));
    assert!(tx_out_fits(&val(&[&[0; 8], &[0xfd, 1, 0]])));
    assert!(witness_fits(&val(&[])));
    assert!(witness_fits(&val(&[&[2, 0]])));
}

#[test]
fn huge_script_of_an_output_does_not_fit() {
    assert!(!tx_out_fits(&val(&[&[0; 8], &HUGE])));
    assert!(!tx_fits(&val(&[&[1, 0, 0, 0, 0, 1], &[0; 8], &HUGE])));
}

#[test]
fn huge_script_of_an_input_does_not_fit() {
    assert!(!tx_fits(&val(&[&[1, 0, 0, 0, 1], &[0; 36], &HUGE])));
    assert!(!tx_fits(&val(&[&[1, 0, 0, 0, 2], &[0; 36], &[0], &[0; 4], &[0; 36], &HUGE])));
}

#[test]
fn huge_stack_item_does_not_fit() {
    assert!(!witness_fits(&val(&[&[1], &HUGE])));
    assert!(!witness_fits(&val(&[&[2, 1, 7], &HUGE])));
    // behind the last item nothing is read
    assert!(witness_fits(&val(&[&[1, 1, 7], &HUGE])));
}
