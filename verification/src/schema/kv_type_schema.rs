//! Tables of checks, by the type of the record.

use std::collections::HashMap;

use vstd::prelude::*;

use crate::common::{PSBTKey, PSBTValue, PsbtError};
use crate::laws::tables::every_check_is_asked_in_turn;

verus! {

/// A check of a record: `Ok(())` if the record is valid, otherwise why it is not.
pub type KvPredicate = Box<dyn Fn(&PSBTKey, &PSBTValue) -> Result<(), PsbtError>>;

/// `predicate` may accept the record.
pub open spec fn accepts<F>(predicate: F, key: &PSBTKey, val: &PSBTValue) -> bool where
    F: Fn(&PSBTKey, &PSBTValue) -> Result<(), PsbtError>,
 {
    call_ensures(predicate, (key, val), Ok(()))
}

/// `predicate` may refuse the record with `error`.
pub open spec fn refuses<F>(
    predicate: F,
    key: &PSBTKey,
    val: &PSBTValue,
    error: PsbtError,
) -> bool where F: Fn(&PSBTKey, &PSBTValue) -> Result<(), PsbtError> {
    call_ensures(predicate, (key, val), Err(error))
}

/// Each of `predicates` may accept the record.
pub open spec fn all_accept<F>(predicates: Seq<F>, key: &PSBTKey, val: &PSBTValue) -> bool where
    F: Fn(&PSBTKey, &PSBTValue) -> Result<(), PsbtError>,
 {
    forall|i: int| 0 <= i < predicates.len() ==> accepts(#[trigger] predicates[i], key, val)
}

/// The predicate at `i` may be the first to refuse the record, and do so with `error`.
pub open spec fn first_refusal<F>(
    predicates: Seq<F>,
    key: &PSBTKey,
    val: &PSBTValue,
    error: PsbtError,
    i: int,
) -> bool where F: Fn(&PSBTKey, &PSBTValue) -> Result<(), PsbtError> {
    &&& 0 <= i < predicates.len()
    &&& refuses(predicates[i], key, val, error)
    &&& all_accept(predicates.take(i), key, val)
}

/// `result` may come out where the predicates are asked in turn up to the first that refuses.
pub open spec fn in_turn<F>(
    predicates: Seq<F>,
    key: &PSBTKey,
    val: &PSBTValue,
    result: Result<(), PsbtError>,
) -> bool where F: Fn(&PSBTKey, &PSBTValue) -> Result<(), PsbtError> {
    match result {
        Ok(_) => all_accept(predicates, key, val),
        Err(error) => exists|i: int| first_refusal(predicates, key, val, error, i),
    }
}

/// Each predicate can be asked about the record once those in front of it have accepted it.
pub open spec fn can_ask<F>(predicates: Seq<F>, key: &PSBTKey, val: &PSBTValue) -> bool where
    F: Fn(&PSBTKey, &PSBTValue) -> Result<(), PsbtError>,
 {
    forall|i: int|
        0 <= i < predicates.len() && all_accept(predicates.take(i), key, val) ==> call_requires(
            #[trigger] predicates[i],
            (key, val),
        )
}

/// Asks the predicates in turn and stops at the first that refuses.
pub fn enforce<F>(predicates: &Vec<F>, key: &PSBTKey, val: &PSBTValue) -> (result: Result<
    (),
    PsbtError,
>) where F: Fn(&PSBTKey, &PSBTValue) -> Result<(), PsbtError>
    requires
        can_ask(predicates@, key, val),
    ensures
        in_turn(predicates@, key, val, result),
        match result {
            Ok(_) => forall|i: int|
                0 <= i < predicates@.len() ==> call_ensures(
                    #[trigger] predicates@[i],
                    (key, val),
                    Ok(()),
                ),
            Err(error) => exists|i: int|
                {
                    &&& 0 <= i < predicates@.len()
                    &&& call_ensures(#[trigger] predicates@[i], (key, val), Err(error))
                    &&& forall|j: int|
                        0 <= j < i ==> call_ensures(#[trigger] predicates@[j], (key, val), Ok(()))
                },
        },
{
    let mut i: usize = 0;
    while i < predicates.len()
        invariant
            i <= predicates@.len(),
            can_ask(predicates@, key, val),
            all_accept(predicates@.take(i as int), key, val),
        decreases predicates@.len() - i,
    {
        let predicate = &predicates[i];
        match predicate(key, val) {
            Ok(done) => {
                assert(done == ());
                assert(accepts(predicates@[i as int], key, val));
                assert forall|j: int|
                    0 <= j < predicates@.take(i + 1).len() implies accepts(
                    #[trigger] predicates@.take(i + 1)[j],
                    key,
                    val,
                ) by {
                    if j < i {
                        assert(predicates@.take(i as int)[j] == predicates@[j]);
                    }
                }
            },
            Err(error) => {
                assert(first_refusal(predicates@, key, val, error, i as int));
                proof {
                    every_check_is_asked_in_turn(predicates@, key, val, error);
                }
                return Err(error);
            },
        }
        i = i + 1;
    }
    assert(predicates@.take(i as int) == predicates@);
    Ok(())
}

/// The checks of each type of record. The checks that were inserted for one type are all
/// enforced, in the order in which they were inserted.
pub struct KvTypeSchema<F = KvPredicate>(pub HashMap<u8, Vec<F>>);

impl<F> View for KvTypeSchema<F> {
    type V = Map<u8, Seq<F>>;

    open spec fn view(&self) -> Map<u8, Seq<F>> {
        Map::new(|key_type: u8| self.0@.contains_key(key_type), |key_type: u8| self.0@[key_type]@)
    }
}

/// The checks of a type of record: none where the table has no entry.
pub open spec fn predicates_at<F>(table: Map<u8, Seq<F>>, key_type: u8) -> Seq<F> {
    if table.contains_key(key_type) {
        table[key_type]
    } else {
        Seq::empty()
    }
}

/// The table of checks after an insertion.
pub open spec fn inserted<F>(table: Map<u8, Seq<F>>, key_type: u8, new: F) -> Map<u8, Seq<F>> {
    table.insert(key_type, predicates_at(table, key_type).push(new))
}

impl<F> Default for KvTypeSchema<F> {
    fn default() -> (schema: Self)
        ensures
            schema@ == Map::<u8, Seq<F>>::empty(),
    {
        let schema = KvTypeSchema(HashMap::new());
        assert(schema@ =~= Map::<u8, Seq<F>>::empty());
        schema
    }
}

impl<F> KvTypeSchema<F> where F: Fn(&PSBTKey, &PSBTValue) -> Result<(), PsbtError> {
    /// Adds a check for a type of record. The checks that are there already stay, and come first.
    pub fn insert(&mut self, key_type: u8, new: F)
        ensures
            final(self)@ == inserted(old(self)@, key_type, new),
            final(self)@[key_type] == predicates_at(old(self)@, key_type).push(new),
            final(self)@.dom() == old(self)@.dom().insert(key_type),
            old(self)@.contains_key(key_type) ==> final(self)@[key_type] == old(self)@[key_type].push(
                new,
            ),
            !old(self)@.contains_key(key_type) ==> final(self)@[key_type] == seq![new],
            forall|other: u8|
                other != key_type && #[trigger] old(self)@.contains_key(other)
                    ==> final(self)@[other] == old(self)@[other],
    {
        broadcast use vstd::std_specs::hash::group_hash_axioms;

        let existing = self.0.remove(&key_type);
        let mut updated = match existing {
            Some(predicates) => predicates,
            None => Vec::new(),
        };
        updated.push(new);
        self.0.insert(key_type, updated);
        assert(self@ =~= inserted(old(self)@, key_type, new));
    }

    /// Drops all checks for a type of record.
    pub fn remove(&mut self, key_type: u8)
        ensures
            final(self)@ == old(self)@.remove(key_type),
    {
        broadcast use vstd::std_specs::hash::group_hash_axioms;

        self.0.remove(&key_type);
        assert(self@ =~= old(self)@.remove(key_type));
    }

    /// Runs the checks for a type of record. There is no outcome where there is no entry.
    pub fn validate(&self, key_type: u8, key: &PSBTKey, val: &PSBTValue) -> (outcome: Option<
        Result<(), PsbtError>,
    >)
        requires
            can_ask(predicates_at(self@, key_type), key, val),
        ensures
            outcome is Some <==> self@.contains_key(key_type),
            outcome matches Some(result) ==> in_turn(self@[key_type], key, val, result),
            outcome matches Some(Ok(_)) ==> forall|i: int|
                0 <= i < self@[key_type].len() ==> call_ensures(
                    #[trigger] self@[key_type][i],
                    (key, val),
                    Ok(()),
                ),
            outcome matches Some(Err(error)) ==> exists|i: int|
                {
                    &&& 0 <= i < self@[key_type].len()
                    &&& call_ensures(#[trigger] self@[key_type][i], (key, val), Err(error))
                    &&& forall|j: int|
                        0 <= j < i ==> call_ensures(
                            #[trigger] self@[key_type][j],
                            (key, val),
                            Ok(()),
                        )
                },
    {
        broadcast use vstd::std_specs::hash::group_hash_axioms;

        match self.0.get(&key_type) {
            Some(predicates) => Some(enforce(predicates, key, val)),
            None => None,
        }
    }
}

} // verus!
