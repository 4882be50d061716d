use psbt_schema::common::{PSBTKey, PSBTValue, PsbtError};
use psbt_schema::schema::kv_type_schema::enforce;
use psbt_schema::schema::{input, KvPredicate, KvTypeSchema};

fn longer_than(length: usize, error: fn() -> PsbtError) -> KvPredicate {
    Box::new(move |_key: &PSBTKey, val: &PSBTValue| {
        if val.len() > length {
            Ok(())
        } else {
            Err(error())
        }
    })
}

fn path_error() -> PsbtError {
    PsbtError::InvalidBip32Path
}

fn depth_error() -> PsbtError {
    PsbtError::Bip32DepthMismatch
}

fn record(length: usize) -> (PSBTKey, PSBTValue) {
    (PSBTKey::new(vec![4]), PSBTValue::new(vec![0; length]))
}

#[test]
fn new_table_has_no_checks() {
    let table: KvTypeSchema = KvTypeSchema::default();
    let (key, val) = record(0);
    assert!(table.0.is_empty());
    assert!(table.validate(4, &key, &val).is_none());
}

#[test]
fn inserted_check_is_enforced() {
    let mut table: KvTypeSchema = KvTypeSchema::default();
    table.insert(4, longer_than(1, path_error));
    let (key, val) = record(2);
    assert!(matches!(table.validate(4, &key, &val), Some(Ok(()))));
    let (key, val) = record(1);
    assert!(matches!(
        table.validate(4, &key, &val),
        Some(Err(PsbtError::InvalidBip32Path))
    ));
}

#[test]
fn insertions_add_up() {
    let mut table: KvTypeSchema = KvTypeSchema::default();
    table.insert(4, longer_than(1, path_error));
    table.insert(4, longer_than(2, depth_error));
    let (key, val) = record(3);
    assert!(matches!(table.validate(4, &key, &val), Some(Ok(()))));
    // only the second refuses
    let (key, val) = record(2);
    assert!(matches!(
        table.validate(4, &key, &val),
        Some(Err(PsbtError::Bip32DepthMismatch))
    ));
    // both refuse, and the first is heard
    let (key, val) = record(1);
    assert!(matches!(
        table.validate(4, &key, &val),
        Some(Err(PsbtError::InvalidBip32Path))
    ));
}

#[test]
fn order_of_insertions_does_not_change_what_is_accepted() {
    let mut one_first: KvTypeSchema = KvTypeSchema::default();
    one_first.insert(4, longer_than(1, path_error));
    one_first.insert(4, longer_than(2, depth_error));
    let mut two_first: KvTypeSchema = KvTypeSchema::default();
    two_first.insert(4, longer_than(2, depth_error));
    two_first.insert(4, longer_than(1, path_error));
    for length in 0..5 {
        let (key, val) = record(length);
        let one = one_first.validate(4, &key, &val).unwrap();
        let two = two_first.validate(4, &key, &val).unwrap();
        assert_eq!(one.is_ok(), two.is_ok());
    }
}

#[test]
fn insertion_keeps_other_types() {
    let mut table: KvTypeSchema = KvTypeSchema::default();
    table.insert(4, longer_than(1, path_error));
    table.insert(5, longer_than(9, depth_error));
    let (key, val) = record(2);
    assert!(matches!(table.validate(4, &key, &val), Some(Ok(()))));
    assert!(matches!(
        table.validate(5, &key, &val),
        Some(Err(PsbtError::Bip32DepthMismatch))
    ));
    assert!(table.validate(6, &key, &val).is_none());
}

#[test]
fn removal_drops_all_checks_of_a_type() {
    let mut table: KvTypeSchema = KvTypeSchema::default();
    table.insert(4, longer_than(1, path_error));
    table.insert(4, longer_than(2, depth_error));
    table.insert(5, longer_than(0, path_error));
    table.remove(4);
    table.remove(6);
    let (key, val) = record(0);
    assert!(table.validate(4, &key, &val).is_none());
    assert!(matches!(
        table.validate(5, &key, &val),
        Some(Err(PsbtError::InvalidBip32Path))
    ));
    // what is inserted afterwards stands alone
    table.insert(4, longer_than(0, depth_error));
    let (key, val) = record(1);
    assert!(matches!(table.validate(4, &key, &val), Some(Ok(()))));
}

#[test]
fn checks_of_this_crate_can_be_inserted() {
    let mut table: KvTypeSchema = KvTypeSchema::default();
    table.insert(4, Box::new(input::validate_redeem_script));
    table.insert(4, longer_than(0, path_error));
    let (key, val) = record(1);
    assert!(matches!(table.validate(4, &key, &val), Some(Ok(()))));
    assert!(matches!(
        table.validate(4, &PSBTKey::new(vec![4, 4]), &val),
        Some(Err(PsbtError::WrongKeyLength { expected: 1, got: 2 }))
    ));
}

#[test]
fn no_check_accepts_everything() {
    let (key, val) = record(0);
    let none: Vec<KvPredicate> = vec![];
    assert!(enforce(&none, &key, &val).is_ok());
}

#[test]
fn checks_behind_a_refusal_are_not_asked() {
    let checks: Vec<KvPredicate> = vec![
        longer_than(1, path_error),
        Box::new(|_key: &PSBTKey, _val: &PSBTValue| panic!("asked behind a refusal")),
    ];
    let (key, val) = record(1);
    assert!(matches!(enforce(&checks, &key, &val), Err(PsbtError::InvalidBip32Path)));
}
