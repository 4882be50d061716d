//! Laws of the tables of checks.

use vstd::prelude::*;

use crate::common::{PSBTKey, PSBTValue, PsbtError};
use crate::schema::kv_type_schema::{
    accepts, first_refusal, in_turn, inserted, predicates_at, refuses,
};

verus! {

/// Insertions at one type add up. A record is accepted exactly if the checks that were there
/// accept it and the new one does too. It is refused with what the old checks refuse it with or,
/// where these accept it, with what the new one does.
pub proof fn insert_adds_a_check<F>(
    table: Map<u8, Seq<F>>,
    key_type: u8,
    new: F,
    key: &PSBTKey,
    val: &PSBTValue,
    error: PsbtError,
) where F: Fn(&PSBTKey, &PSBTValue) -> Result<(), PsbtError>
    ensures
        ({
            let before = predicates_at(table, key_type);
            let after = predicates_at(inserted(table, key_type, new), key_type);
            &&& in_turn(after, key, val, Ok(())) <==> in_turn(before, key, val, Ok(())) && accepts(
                new,
                key,
                val,
            )
            &&& in_turn(after, key, val, Err(error)) <==> in_turn(before, key, val, Err(error)) || (
            in_turn(before, key, val, Ok(())) && refuses(new, key, val, error))
        }),
{
    let before = predicates_at(table, key_type);
    let after = before.push(new);
    let n = before.len() as int;
    assert(after[n] == new);
    assert(after.take(n) =~= before);
    assert forall|i: int| 0 <= i < n implies after[i] == before[i] && after.take(i) == before.take(
        i,
    ) by {
        assert(after.take(i) =~= before.take(i));
    }
    if in_turn(after, key, val, Ok(())) {
        assert forall|i: int| 0 <= i < n implies accepts(#[trigger] before[i], key, val) by {
            assert(accepts(after[i], key, val));
        }
    }
    if in_turn(before, key, val, Err(error)) {
        let i = choose|i: int| first_refusal(before, key, val, error, i);
        assert(first_refusal(after, key, val, error, i));
    }
    if in_turn(before, key, val, Ok(())) && refuses(new, key, val, error) {
        assert(first_refusal(after, key, val, error, n));
    }
    if in_turn(after, key, val, Err(error)) {
        let i = choose|i: int| first_refusal(after, key, val, error, i);
        if i < n {
            assert(first_refusal(before, key, val, error, i));
        }
    }
}

/// An insertion leaves the checks of other types as they are.
pub proof fn insert_keeps_other_types<F>(
    table: Map<u8, Seq<F>>,
    key_type: u8,
    new: F,
    other: u8,
)
    requires
        other != key_type,
    ensures
        inserted(table, key_type, new).contains_key(other) == table.contains_key(other),
        predicates_at(inserted(table, key_type, new), other) == predicates_at(table, other),
{
}

/// Which records are accepted does not depend on the order of two insertions.
pub proof fn insert_order_is_irrelevant_to_acceptance<F>(
    table: Map<u8, Seq<F>>,
    key_type: u8,
    one: F,
    two: F,
    key: &PSBTKey,
    val: &PSBTValue,
) where F: Fn(&PSBTKey, &PSBTValue) -> Result<(), PsbtError>
    ensures
        ({
            let one_first = inserted(inserted(table, key_type, one), key_type, two);
            let two_first = inserted(inserted(table, key_type, two), key_type, one);
            in_turn(predicates_at(one_first, key_type), key, val, Ok(())) <==> in_turn(
                predicates_at(two_first, key_type),
                key,
                val,
                Ok(()),
            )
        }),
{
    let error = PsbtError::InvalidBip32Path;
    insert_adds_a_check(table, key_type, one, key, val, error);
    insert_adds_a_check(table, key_type, two, key, val, error);
    insert_adds_a_check(inserted(table, key_type, one), key_type, two, key, val, error);
    insert_adds_a_check(inserted(table, key_type, two), key_type, one, key, val, error);
}

/// A removal drops whatever was inserted for a type and leaves the other types as they are.
pub proof fn remove_drops_all_checks<F>(
    table: Map<u8, Seq<F>>,
    key_type: u8,
    new: F,
    other: u8,
)
    requires
        other != key_type,
    ensures
        !table.remove(key_type).contains_key(key_type),
        table.remove(key_type).contains_key(other) == table.contains_key(other),
        predicates_at(table.remove(key_type), other) == predicates_at(table, other),
        inserted(table, key_type, new).remove(key_type) == table.remove(key_type),
        !table.contains_key(key_type) ==> inserted(table, key_type, new).remove(key_type) == table,
{
    assert(inserted(table, key_type, new).remove(key_type) =~= table.remove(key_type));
    if !table.contains_key(key_type) {
        assert(table.remove(key_type) =~= table);
    }
}

/// A record passes exactly if every check may accept it. It is refused with an error exactly if
/// some check may refuse it so and those in front of it may accept it. No checks refuse nothing.
pub proof fn every_check_is_asked_in_turn<F>(
    checks: Seq<F>,
    key: &PSBTKey,
    val: &PSBTValue,
    error: PsbtError,
) where F: Fn(&PSBTKey, &PSBTValue) -> Result<(), PsbtError>
    ensures
        in_turn(checks, key, val, Ok(())) <==> forall|i: int|
            0 <= i < checks.len() ==> call_ensures(#[trigger] checks[i], (key, val), Ok(())),
        in_turn(checks, key, val, Err(error)) <==> exists|i: int|
            {
                &&& 0 <= i < checks.len()
                &&& call_ensures(#[trigger] checks[i], (key, val), Err(error))
                &&& forall|j: int|
                    0 <= j < i ==> call_ensures(#[trigger] checks[j], (key, val), Ok(()))
            },
        checks.len() == 0 ==> in_turn(checks, key, val, Ok(())) && !in_turn(
            checks,
            key,
            val,
            Err(error),
        ),
{
    if forall|i: int|
        0 <= i < checks.len() ==> call_ensures(#[trigger] checks[i], (key, val), Ok(())) {
        assert forall|i: int| 0 <= i < checks.len() implies accepts(
            #[trigger] checks[i],
            key,
            val,
        ) by {}
    }
    if in_turn(checks, key, val, Ok(())) {
        assert forall|i: int| 0 <= i < checks.len() implies call_ensures(
            #[trigger] checks[i],
            (key, val),
            Ok(()),
        ) by {
            assert(accepts(checks[i], key, val));
        }
    }
    assert forall|i: int| 0 <= i < checks.len() implies #[trigger] first_refusal(
        checks,
        key,
        val,
        error,
        i,
    ) == (call_ensures(checks[i], (key, val), Err(error)) && forall|j: int|
        0 <= j < i ==> call_ensures(#[trigger] checks[j], (key, val), Ok(()))) by {
        let front = checks.take(i);
        if first_refusal(checks, key, val, error, i) {
            assert forall|j: int| 0 <= j < i implies call_ensures(
                #[trigger] checks[j],
                (key, val),
                Ok(()),
            ) by {
                assert(accepts(front[j], key, val));
            }
        }
        if forall|j: int| 0 <= j < i ==> call_ensures(#[trigger] checks[j], (key, val), Ok(())) {
            assert forall|j: int| 0 <= j < front.len() implies accepts(
                #[trigger] front[j],
                key,
                val,
            ) by {
                assert(front[j] == checks[j]);
            }
        }
    }
    if exists|i: int|
        {
            &&& 0 <= i < checks.len()
            &&& call_ensures(#[trigger] checks[i], (key, val), Err(error))
            &&& forall|j: int|
                0 <= j < i ==> call_ensures(#[trigger] checks[j], (key, val), Ok(()))
        } {
        let i = choose|i: int|
            {
                &&& 0 <= i < checks.len()
                &&& call_ensures(#[trigger] checks[i], (key, val), Err(error))
                &&& forall|j: int|
                    0 <= j < i ==> call_ensures(#[trigger] checks[j], (key, val), Ok(()))
            };
        assert(first_refusal(checks, key, val, error, i));
    }
    if in_turn(checks, key, val, Err(error)) {
        let i = choose|i: int| first_refusal(checks, key, val, error, i);
        assert(first_refusal(checks, key, val, error, i));
        assert(call_ensures(checks[i], (key, val), Err(error)));
    }
}

/// The checks of a type after an insertion are those that were there, in their order, and the new
/// one behind them.
pub proof fn insert_puts_the_check_behind_the_others<F>(
    table: Map<u8, Seq<F>>,
    key_type: u8,
    new: F,
)
    ensures
        inserted(table, key_type, new).dom() == table.dom().insert(key_type),
        table.contains_key(key_type) ==> inserted(table, key_type, new)[key_type]
            == table[key_type].push(new),
        !table.contains_key(key_type) ==> inserted(table, key_type, new)[key_type] == seq![new],
        table.contains_key(key_type) ==> predicates_at(table, key_type) == table[key_type],
        !table.contains_key(key_type) ==> predicates_at(table, key_type) == Seq::<F>::empty(),
{
    assert(Seq::<F>::empty().push(new) =~= seq![new]);
}

} // verus!
