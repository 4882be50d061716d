//! Laws of the byte formats.

use vstd::prelude::*;

use crate::wire::Reading;
use crate::wire::{
    compact_int, compact_number, compact_width, le2, le4, le8, legacy_tx, legacy_tx_bytes, octet,
    prefixed_bytes, rest_after, shortest_compact_width, stack_items, tx_in, tx_ins, tx_out, tx_outs,
    vin, vout, witness,
};

verus! {

/// The byte of a number that counts `unit`.
#[verifier::opaque]
pub open spec fn byte_of(number: nat, unit: nat) -> u8 {
    (number / unit % 0x100) as u8
}

/// The two little-endian bytes of a number.
pub open spec fn le2_bytes(number: nat) -> Seq<u8> {
    seq![byte_of(number, 1), byte_of(number, 0x100)]
}

/// The four little-endian bytes of a number.
pub open spec fn le4_bytes(number: nat) -> Seq<u8> {
    le2_bytes(number % 0x1_0000) + le2_bytes(number / 0x1_0000)
}

/// The eight little-endian bytes of a number.
pub open spec fn le8_bytes(number: nat) -> Seq<u8> {
    le4_bytes(number % 0x1_0000_0000) + le4_bytes(number / 0x1_0000_0000)
}

/// The shortest compact integer for a number.
#[verifier::opaque]
pub open spec fn compact_bytes(number: nat) -> Seq<u8> {
    if number <= 0xfc {
        seq![number as u8]
    } else if number <= 0xffff {
        seq![0xfdu8] + le2_bytes(number)
    } else if number <= 0xffff_ffff {
        seq![0xfeu8] + le4_bytes(number)
    } else {
        seq![0xffu8] + le8_bytes(number)
    }
}

proof fn le2_is_read_back(bytes: Seq<u8>, at: int, number: nat)
    requires
        number <= 0xffff,
        0 <= at,
        at + 2 <= bytes.len(),
        bytes.subrange(at, at + 2) == le2_bytes(number),
    ensures
        le2(bytes, at) == number,
{
    reveal(byte_of);
    let part = bytes.subrange(at, at + 2);
    assert(part[0] == bytes[at] && part[1] == bytes[at + 1]);
}

#[verifier::spinoff_prover]
#[verifier::rlimit(50)]
proof fn le4_is_read_back(bytes: Seq<u8>, at: int, number: nat)
    requires
        number <= 0xffff_ffff,
        0 <= at,
        at + 4 <= bytes.len(),
        bytes.subrange(at, at + 4) == le4_bytes(number),
    ensures
        le4(bytes, at) == number,
{
    let part = bytes.subrange(at, at + 4);
    assert(bytes.subrange(at, at + 2) =~= part.take(2));
    assert(part.take(2) =~= le2_bytes(number % 0x1_0000));
    assert(bytes.subrange(at + 2, at + 2 + 2) =~= part.skip(2));
    assert(part.skip(2) =~= le2_bytes(number / 0x1_0000));
    le2_is_read_back(bytes, at, number % 0x1_0000);
    le2_is_read_back(bytes, at + 2, number / 0x1_0000);
}

#[verifier::spinoff_prover]
#[verifier::rlimit(50)]
proof fn le8_is_read_back(bytes: Seq<u8>, at: int, number: nat)
    requires
        number <= u64::MAX,
        0 <= at,
        at + 8 <= bytes.len(),
        bytes.subrange(at, at + 8) == le8_bytes(number),
    ensures
        le8(bytes, at) == number,
{
    let part = bytes.subrange(at, at + 8);
    assert(bytes.subrange(at, at + 4) =~= part.take(4));
    assert(part.take(4) =~= le4_bytes(number % 0x1_0000_0000));
    assert(bytes.subrange(at + 4, at + 4 + 4) =~= part.skip(4));
    assert(part.skip(4) =~= le4_bytes(number / 0x1_0000_0000));
    le4_is_read_back(bytes, at, number % 0x1_0000_0000);
    le4_is_read_back(bytes, at + 4, number / 0x1_0000_0000);
}

/// A compact integer is read from a mark and the bytes of a number that needs them all.
proof fn marked_number_is_read(bytes: Seq<u8>, number: nat, width: nat)
    requires
        bytes.len() >= width,
        bytes.len() > 0,
        width == compact_width(bytes[0]),
        width == shortest_compact_width(number),
        compact_number(bytes) == number,
    ensures
        compact_int(bytes) == Reading::Item(number, bytes.skip(width as int)),
{
}

/// Every number is read back from its shortest compact integer, whatever stands behind it.
#[verifier::spinoff_prover]
#[verifier::rlimit(50)]
pub proof fn compact_int_is_read_back(number: nat, tail: Seq<u8>)
    requires
        number <= u64::MAX,
    ensures
        compact_int(compact_bytes(number) + tail) == Reading::Item(number, tail),
{
    reveal(compact_bytes);
    let bytes = compact_bytes(number) + tail;
    let width = shortest_compact_width(number);
    assert(bytes.skip(width as int) =~= tail);
    assert(compact_number(bytes) == number) by {
        if number <= 0xfc {
        } else if number <= 0xffff {
            assert(bytes.subrange(1, 3) =~= le2_bytes(number));
            le2_is_read_back(bytes, 1, number);
        } else if number <= 0xffff_ffff {
            assert(bytes.subrange(1, 5) =~= le4_bytes(number));
            le4_is_read_back(bytes, 1, number);
        } else {
            assert(bytes.subrange(1, 9) =~= le8_bytes(number));
            le8_is_read_back(bytes, 1, number);
        }
    }
    marked_number_is_read(bytes, number, width);
}

/// A byte string behind its length.
pub open spec fn with_length(item: Seq<u8>) -> Seq<u8> {
    compact_bytes(item.len()) + item
}

#[verifier::spinoff_prover]
#[verifier::rlimit(50)]
proof fn item_is_read_back(item: Seq<u8>, tail: Seq<u8>)
    requires
        item.len() <= isize::MAX,
    ensures
        prefixed_bytes(with_length(item) + tail) == Reading::Item(item, tail),
{
    compact_int_is_read_back(item.len(), item + tail);
    assert(with_length(item) + tail =~= compact_bytes(item.len()) + (item + tail));
    assert((item + tail).take(item.len() as int) =~= item);
    assert((item + tail).skip(item.len() as int) =~= tail);
}

/// Byte strings in a row, each behind its length.
pub open spec fn stack_bytes(items: Seq<Seq<u8>>) -> Seq<u8>
    decreases items.len(),
{
    if items.len() == 0 {
        Seq::empty()
    } else {
        with_length(items[0]) + stack_bytes(items.skip(1))
    }
}

#[verifier::spinoff_prover]
#[verifier::rlimit(50)]
proof fn stack_is_read_back(items: Seq<Seq<u8>>, tail: Seq<u8>)
    requires
        forall|i: int| 0 <= i < items.len() ==> (#[trigger] items[i]).len() <= isize::MAX,
    ensures
        stack_items(stack_bytes(items) + tail, items.len()) == Reading::Item(items, tail),
    decreases items.len(),
{
    if items.len() == 0 {
        assert(stack_bytes(items) + tail =~= tail);
        assert(items =~= Seq::empty());
    } else {
        let rest = items.skip(1);
        assert forall|i: int| 0 <= i < rest.len() implies (#[trigger] rest[i]).len()
            <= isize::MAX by {
            assert(rest[i] == items[i + 1]);
        }
        stack_is_read_back(rest, tail);
        item_is_read_back(items[0], stack_bytes(rest) + tail);
        assert(stack_bytes(items) + tail =~= with_length(items[0]) + (stack_bytes(rest) + tail));
        assert(seq![items[0]] + rest =~= items);
    }
}

/// A witness as the value of a record: the number of its items, and the items.
pub open spec fn witness_bytes(items: Seq<Seq<u8>>) -> Seq<u8> {
    compact_bytes(items.len()) + stack_bytes(items)
}

/// Every witness that fits into memory can be written as a value, and is read back from it,
/// whatever stands behind it.
#[verifier::spinoff_prover]
#[verifier::rlimit(50)]
pub proof fn witness_is_read_back(items: Seq<Seq<u8>>, tail: Seq<u8>)
    requires
        items.len() <= usize::MAX,
        forall|i: int| 0 <= i < items.len() ==> (#[trigger] items[i]).len() <= isize::MAX,
    ensures
        witness(witness_bytes(items) + tail) == Reading::Item(items, tail),
{
    compact_int_is_read_back(items.len(), stack_bytes(items) + tail);
    assert(witness_bytes(items) + tail =~= compact_bytes(items.len()) + (stack_bytes(items)
        + tail));
    stack_is_read_back(items, tail);
}

/// An output as the value of a record: its value in eight bytes, and its script.
pub open spec fn tx_out_bytes(value: u64, script: Seq<u8>) -> Seq<u8> {
    le8_bytes(value as nat) + with_length(script)
}

#[verifier::spinoff_prover]
#[verifier::rlimit(50)]
proof fn tx_out_of_parts(head: Seq<u8>, script: Seq<u8>, tail: Seq<u8>)
    requires
        head.len() == 8,
        script.len() <= isize::MAX,
    ensures
        ({
            let bytes = head + with_length(script) + tail;
            tx_out(bytes) == Reading::Item((le8(bytes, 0) as u64, script), tail)
        }),
{
    item_is_read_back(script, tail);
    assert((head + with_length(script) + tail).skip(8) =~= with_length(script) + tail);
}

/// Every output that fits into memory can be written as a value, and is read back from it,
/// whatever stands behind it.
#[verifier::spinoff_prover]
#[verifier::rlimit(50)]
pub proof fn tx_out_is_read_back(value: u64, script: Seq<u8>, tail: Seq<u8>)
    requires
        script.len() <= isize::MAX,
    ensures
        tx_out(tx_out_bytes(value, script) + tail) == Reading::Item((value, script), tail),
{
    let bytes = tx_out_bytes(value, script) + tail;
    assert(le8(bytes, 0) == value) by {
        assert(bytes.subrange(0, 8) =~= le8_bytes(value as nat));
        le8_is_read_back(bytes, 0, value as nat);
    }
    tx_out_of_parts(le8_bytes(value as nat), script, tail);
}

#[verifier::spinoff_prover]
#[verifier::rlimit(50)]
proof fn compact_int_ignores_tail(bytes: Seq<u8>, tail: Seq<u8>)
    requires
        bytes.len() > 0,
        bytes.len() >= compact_width(bytes[0]),
    ensures
        compact_int(bytes) matches Reading::Item(number, rest) ==> compact_int(bytes + tail)
            == Reading::Item(number, rest + tail),
{
    let width = compact_width(bytes[0]) as int;
    assert((bytes + tail).skip(width) =~= bytes.skip(width) + tail);
    assert forall|at: int| at < width implies octet(bytes + tail, at) == octet(bytes, at) by {}
}

#[verifier::spinoff_prover]
#[verifier::rlimit(50)]
proof fn prefixed_bytes_ignore_tail(bytes: Seq<u8>, tail: Seq<u8>)
    ensures
        prefixed_bytes(bytes) matches Reading::Item(item, rest) ==> prefixed_bytes(bytes + tail)
            == Reading::Item(item, rest + tail) && rest.len() <= bytes.len(),
{
    if prefixed_bytes(bytes) is Item {
        compact_int_ignores_tail(bytes, tail);
        let number = compact_number(bytes);
        let rest = rest_after(bytes, compact_width(bytes[0]));
        assert((rest + tail).take(number as int) =~= rest.take(number as int));
        assert((rest + tail).skip(number as int) =~= rest.skip(number as int) + tail);
    }
}

#[verifier::spinoff_prover]
#[verifier::rlimit(50)]
proof fn stack_items_ignore_tail(bytes: Seq<u8>, n: nat, tail: Seq<u8>)
    ensures
        stack_items(bytes, n) matches Reading::Item(items, rest) ==> stack_items(bytes + tail, n)
            == Reading::Item(items, rest + tail),
    decreases n,
{
    if n > 0 {
        prefixed_bytes_ignore_tail(bytes, tail);
        if let Reading::Item(_, rest) = prefixed_bytes(bytes) {
            stack_items_ignore_tail(rest, (n - 1) as nat, tail);
        }
    }
}

/// What stands behind a witness does not matter to its reading, if the number of its items is
/// there in full.
#[verifier::spinoff_prover]
#[verifier::rlimit(50)]
pub proof fn witness_ignores_tail(bytes: Seq<u8>, tail: Seq<u8>)
    requires
        bytes.len() > 0,
        bytes.len() >= compact_width(bytes[0]),
    ensures
        witness(bytes) matches Reading::Item(items, rest) ==> witness(bytes + tail)
            == Reading::Item(items, rest + tail),
{
    if let Reading::Item(number, rest) = compact_int(bytes) {
        compact_int_ignores_tail(bytes, tail);
        stack_items_ignore_tail(rest, (number as u64) as usize as nat, tail);
    }
}

#[verifier::spinoff_prover]
#[verifier::rlimit(50)]
proof fn tx_in_ignores_tail(bytes: Seq<u8>, tail: Seq<u8>)
    ensures
        tx_in(bytes) matches Reading::Item(_, rest) ==> tx_in(bytes + tail) == Reading::Item(
            (),
            rest + tail,
        ) && rest.len() <= bytes.len(),
{
    if tx_in(bytes) is Item {
        prefixed_bytes_ignore_tail(bytes.skip(36), tail);
        assert((bytes + tail).skip(36) =~= bytes.skip(36) + tail);
        if let Reading::Item(_, rest) = prefixed_bytes(bytes.skip(36)) {
            assert((rest + tail).skip(4) =~= rest.skip(4) + tail);
        }
    }
}

#[verifier::spinoff_prover]
#[verifier::rlimit(50)]
proof fn tx_ins_ignore_tail(bytes: Seq<u8>, n: nat, tail: Seq<u8>)
    ensures
        tx_ins(bytes, n) matches Reading::Item(_, rest) ==> tx_ins(bytes + tail, n)
            == Reading::Item((), rest + tail) && rest.len() <= bytes.len(),
    decreases n,
{
    if n > 0 {
        tx_in_ignores_tail(bytes, tail);
        if let Reading::Item(_, rest) = tx_in(bytes) {
            tx_ins_ignore_tail(rest, (n - 1) as nat, tail);
        }
    }
}

#[verifier::spinoff_prover]
#[verifier::rlimit(50)]
proof fn vin_ignores_tail(bytes: Seq<u8>, tail: Seq<u8>)
    ensures
        vin(bytes) matches Reading::Item(_, rest) ==> vin(bytes + tail) == Reading::Item(
            (),
            rest + tail,
        ) && rest.len() <= bytes.len(),
{
    if let Reading::Item(number, rest) = compact_int(bytes) {
        if vin(bytes) is Item {
            compact_int_ignores_tail(bytes, tail);
            tx_ins_ignore_tail(rest, number, tail);
        }
    }
}

/// What stands behind an output does not matter to its reading.
#[verifier::spinoff_prover]
#[verifier::rlimit(50)]
pub proof fn tx_out_ignores_tail(bytes: Seq<u8>, tail: Seq<u8>)
    ensures
        tx_out(bytes) matches Reading::Item(out, rest) ==> tx_out(bytes + tail) == Reading::Item(
            out,
            rest + tail,
        ) && rest.len() <= bytes.len(),
{
    if tx_out(bytes) is Item {
        prefixed_bytes_ignore_tail(bytes.skip(8), tail);
        assert((bytes + tail).skip(8) =~= bytes.skip(8) + tail);
        assert forall|at: int| at < 8 implies octet(bytes + tail, at) == octet(bytes, at) by {}
    }
}

#[verifier::spinoff_prover]
#[verifier::rlimit(50)]
proof fn tx_outs_ignore_tail(bytes: Seq<u8>, n: nat, tail: Seq<u8>)
    ensures
        tx_outs(bytes, n) matches Reading::Item(_, rest) ==> tx_outs(bytes + tail, n)
            == Reading::Item((), rest + tail) && rest.len() <= bytes.len(),
    decreases n,
{
    if n > 0 {
        tx_out_ignores_tail(bytes, tail);
        if let Reading::Item(_, rest) = tx_out(bytes) {
            tx_outs_ignore_tail(rest, (n - 1) as nat, tail);
        }
    }
}

#[verifier::spinoff_prover]
#[verifier::rlimit(50)]
proof fn vout_ignores_tail(bytes: Seq<u8>, tail: Seq<u8>)
    ensures
        vout(bytes) matches Reading::Item(_, rest) ==> vout(bytes + tail) == Reading::Item(
            (),
            rest + tail,
        ) && rest.len() <= bytes.len(),
{
    if let Reading::Item(number, rest) = compact_int(bytes) {
        if vout(bytes) is Item {
            compact_int_ignores_tail(bytes, tail);
            tx_outs_ignore_tail(rest, number, tail);
        }
    }
}

#[verifier::spinoff_prover]
#[verifier::rlimit(50)]
proof fn legacy_tx_reading_ignores_tail(bytes: Seq<u8>, tail: Seq<u8>)
    ensures
        legacy_tx(bytes) matches Reading::Item(_, rest) ==> legacy_tx(bytes + tail)
            == Reading::Item((), rest + tail) && rest.len() <= bytes.len(),
{
    if legacy_tx(bytes) is Item {
        vin_ignores_tail(bytes.skip(4), tail);
        assert((bytes + tail).skip(4) =~= bytes.skip(4) + tail);
        if let Reading::Item(_, outputs) = vin(bytes.skip(4)) {
            vout_ignores_tail(outputs, tail);
            if let Reading::Item(_, locktime) = vout(outputs) {
                assert((locktime + tail).skip(4) =~= locktime.skip(4) + tail);
            }
        }
    }
}

proof fn front_ignores_tail(bytes: Seq<u8>, rest: Seq<u8>, tail: Seq<u8>)
    requires
        rest.len() <= bytes.len(),
    ensures
        (bytes + tail).take((bytes + tail).len() - (rest + tail).len()) == bytes.take(
            bytes.len() - rest.len(),
        ),
{
    let n = bytes.len() - rest.len();
    assert((bytes + tail).take(n) =~= bytes.take(n));
}

/// What stands behind a transaction does not matter to its being one, nor to which bytes it is
/// read from.
#[verifier::spinoff_prover]
#[verifier::rlimit(50)]
pub proof fn legacy_tx_ignores_tail(bytes: Seq<u8>, tail: Seq<u8>)
    ensures
        legacy_tx(bytes) matches Reading::Item(_, rest) ==> legacy_tx(bytes + tail)
            == Reading::Item((), rest + tail) && legacy_tx_bytes(bytes + tail) == legacy_tx_bytes(
            bytes,
        ),
{
    legacy_tx_reading_ignores_tail(bytes, tail);
    if let Reading::Item(_, rest) = legacy_tx(bytes) {
        front_ignores_tail(bytes, rest, tail);
    }
}

proof fn le2_is_written(bytes: Seq<u8>, at: int)
    requires
        0 <= at,
        at + 2 <= bytes.len(),
    ensures
        le2_bytes(le2(bytes, at)) == bytes.subrange(at, at + 2),
        le2(bytes, at) <= 0xffff,
{
    reveal(byte_of);
    let number = le2(bytes, at);
    assert(byte_of(number, 1) == bytes[at] && byte_of(number, 0x100) == bytes[at + 1]);
    assert(le2_bytes(number) =~= bytes.subrange(at, at + 2));
}

#[verifier::spinoff_prover]
#[verifier::rlimit(50)]
proof fn le4_is_written(bytes: Seq<u8>, at: int)
    requires
        0 <= at,
        at + 4 <= bytes.len(),
    ensures
        le4_bytes(le4(bytes, at)) == bytes.subrange(at, at + 4),
        le4(bytes, at) <= 0xffff_ffff,
{
    le2_is_written(bytes, at);
    le2_is_written(bytes, at + 2);
    let number = le4(bytes, at);
    assert(number % 0x1_0000 == le2(bytes, at) && number / 0x1_0000 == le2(bytes, at + 2));
    assert(le4_bytes(number) =~= bytes.subrange(at, at + 4));
}

proof fn halves_of(low: nat, high: nat)
    requires
        low <= 0xffff_ffff,
        high <= 0xffff_ffff,
    ensures
        low + 0x1_0000_0000 * high <= u64::MAX,
        le8_bytes(low + 0x1_0000_0000 * high) == le4_bytes(low) + le4_bytes(high),
{
    let number = low + 0x1_0000_0000 * high;
    assert(number % 0x1_0000_0000 == low && number / 0x1_0000_0000 == high);
}

#[verifier::spinoff_prover]
#[verifier::rlimit(50)]
proof fn le8_is_written(bytes: Seq<u8>, at: int)
    requires
        0 <= at,
        at + 8 <= bytes.len(),
    ensures
        le8_bytes(le8(bytes, at)) == bytes.subrange(at, at + 8),
        le8(bytes, at) <= u64::MAX,
{
    le4_is_written(bytes, at);
    le4_is_written(bytes, at + 4);
    halves_of(le4(bytes, at), le4(bytes, at + 4));
    assert(bytes.subrange(at, at + 4) + bytes.subrange(at + 4, at + 4 + 4) =~= bytes.subrange(
        at,
        at + 8,
    ));
}

/// A number that is read from a compact integer that is there in full was written there.
#[verifier::spinoff_prover]
#[verifier::rlimit(50)]
pub proof fn compact_int_was_written(bytes: Seq<u8>)
    requires
        bytes.len() > 0,
        bytes.len() >= compact_width(bytes[0]),
    ensures
        compact_int(bytes) matches Reading::Item(number, rest) ==> number <= u64::MAX && bytes
            == compact_bytes(number) + rest,
{
    reveal(compact_bytes);
    let width = compact_width(bytes[0]) as int;
    let number = compact_number(bytes);
    if compact_int(bytes) is Item {
        if width == 3 {
            le2_is_written(bytes, 1);
        } else if width == 5 {
            le4_is_written(bytes, 1);
        } else if width == 9 {
            le8_is_written(bytes, 1);
        }
        assert(compact_bytes(number) =~= bytes.take(width));
        assert(bytes =~= bytes.take(width) + bytes.skip(width));
    }
}

#[verifier::spinoff_prover]
#[verifier::rlimit(50)]
proof fn item_was_written(bytes: Seq<u8>)
    ensures
        prefixed_bytes(bytes) matches Reading::Item(item, rest) ==> bytes == with_length(item)
            + rest && item.len() <= isize::MAX,
{
    if let Reading::Item(item, rest) = prefixed_bytes(bytes) {
        compact_int_was_written(bytes);
        let number = compact_number(bytes);
        let behind = rest_after(bytes, compact_width(bytes[0]));
        assert(behind =~= item + rest);
        assert(item.len() == number);
        assert(compact_bytes(number) + (item + rest) =~= with_length(item) + rest);
    }
}

/// An output that is read was written there: its bytes are those that it is written as, and
/// nothing else is read as it.
#[verifier::spinoff_prover]
#[verifier::rlimit(50)]
pub proof fn tx_out_was_written(bytes: Seq<u8>)
    ensures
        tx_out(bytes) matches Reading::Item((value, script), rest) ==> bytes == tx_out_bytes(
            value,
            script,
        ) + rest,
{
    if let Reading::Item((value, script), rest) = tx_out(bytes) {
        item_was_written(bytes.skip(8));
        le8_is_written(bytes, 0);
        assert(value == le8(bytes, 0));
        assert(bytes =~= bytes.subrange(0, 8) + bytes.skip(8));
        assert(le8_bytes(value as nat) + (with_length(script) + rest) =~= tx_out_bytes(
            value,
            script,
        ) + rest);
    }
}

#[verifier::spinoff_prover]
#[verifier::rlimit(50)]
proof fn stack_was_written(bytes: Seq<u8>, n: nat)
    ensures
        stack_items(bytes, n) matches Reading::Item(items, rest) ==> items.len() == n && bytes
            == stack_bytes(items) + rest,
    decreases n,
{
    if let Reading::Item(items, rest) = stack_items(bytes, n) {
        if n == 0 {
            assert(stack_bytes(items) + rest =~= rest);
        } else {
            item_was_written(bytes);
            let item = prefixed_bytes(bytes)->Item_0;
            let behind = prefixed_bytes(bytes)->Item_1;
            stack_was_written(behind, (n - 1) as nat);
            let others = stack_items(behind, (n - 1) as nat)->Item_0;
            assert(items == seq![item] + others);
            assert(items.skip(1) =~= others);
            assert(items[0] == item);
            assert(with_length(item) + (stack_bytes(others) + rest) =~= with_length(item)
                + stack_bytes(others) + rest);
        }
    }
}

proof fn joined(a: Seq<u8>, b: Seq<u8>, c: Seq<u8>)
    ensures
        a + (b + c) == a + b + c,
{
    assert(a + (b + c) =~= a + b + c);
}

#[verifier::spinoff_prover]
#[verifier::rlimit(50)]
proof fn witness_of_parts(number: nat, behind: Seq<u8>, items: Seq<Seq<u8>>, rest: Seq<u8>)
    requires
        stack_items(behind, number) == Reading::Item(items, rest),
    ensures
        compact_bytes(number) + behind == witness_bytes(items) + rest,
{
    stack_was_written(behind, number);
    joined(compact_bytes(number), stack_bytes(items), rest);
}

/// A witness that is read was written there: its bytes are those that it is written as. This asks
/// that the number of items is there in full and can be counted.
#[verifier::spinoff_prover]
#[verifier::rlimit(50)]
pub proof fn witness_was_written(bytes: Seq<u8>)
    requires
        bytes.len() > 0,
        bytes.len() >= compact_width(bytes[0]),
        compact_number(bytes) <= usize::MAX,
    ensures
        witness(bytes) matches Reading::Item(items, rest) ==> bytes == witness_bytes(items) + rest,
{
    if let Reading::Item(items, rest) = witness(bytes) {
        compact_int_was_written(bytes);
        let number = compact_int(bytes)->Item_0;
        let behind = compact_int(bytes)->Item_1;
        witness_of_parts(number, behind, items, rest);
    }
}

/// A length prefix is too large exactly if no allocation can have the length.
#[verifier::spinoff_prover]
#[verifier::rlimit(50)]
pub proof fn length_overflows_where_nothing_can_be_allocated(length: nat, tail: Seq<u8>)
    requires
        length <= u64::MAX,
    ensures
        prefixed_bytes(compact_bytes(length) + tail) is Overflow <==> length > isize::MAX,
{
    compact_int_is_read_back(length, tail);
}

/// The parts of an input: the output that it spends, its script and its sequence number.
pub struct InputParts {
    /// The id and index of the output.
    pub outpoint: Seq<u8>,
    /// The script.
    pub script: Seq<u8>,
    /// The sequence number.
    pub sequence: Seq<u8>,
}

/// Whether the parts of an input have the lengths that they should have.
pub open spec fn input_fits(input: InputParts) -> bool {
    input.outpoint.len() == 36 && input.script.len() <= isize::MAX && input.sequence.len() == 4
}

/// An input in a transaction.
pub open spec fn input_bytes(input: InputParts) -> Seq<u8> {
    input.outpoint + with_length(input.script) + input.sequence
}

/// Inputs in a row.
pub open spec fn inputs_bytes(inputs: Seq<InputParts>) -> Seq<u8>
    decreases inputs.len(),
{
    if inputs.len() == 0 {
        Seq::empty()
    } else {
        input_bytes(inputs[0]) + inputs_bytes(inputs.skip(1))
    }
}

/// Outputs in a row, each a value and a script.
pub open spec fn outputs_bytes(outputs: Seq<(u64, Seq<u8>)>) -> Seq<u8>
    decreases outputs.len(),
{
    if outputs.len() == 0 {
        Seq::empty()
    } else {
        tx_out_bytes(outputs[0].0, outputs[0].1) + outputs_bytes(outputs.skip(1))
    }
}

/// A transaction without witnesses.
pub open spec fn tx_bytes(
    version: Seq<u8>,
    inputs: Seq<InputParts>,
    outputs: Seq<(u64, Seq<u8>)>,
    locktime: Seq<u8>,
) -> Seq<u8> {
    version + compact_bytes(inputs.len()) + inputs_bytes(inputs) + compact_bytes(outputs.len())
        + outputs_bytes(outputs) + locktime
}

#[verifier::spinoff_prover]
#[verifier::rlimit(50)]
proof fn inputs_are_read(inputs: Seq<InputParts>, tail: Seq<u8>)
    requires
        forall|i: int| 0 <= i < inputs.len() ==> input_fits(#[trigger] inputs[i]),
    ensures
        tx_ins(inputs_bytes(inputs) + tail, inputs.len()) == Reading::Item((), tail),
    decreases inputs.len(),
{
    if inputs.len() == 0 {
        assert(inputs_bytes(inputs) + tail =~= tail);
    } else {
        let input = inputs[0];
        let others = inputs.skip(1);
        assert(input_fits(input));
        assert forall|i: int| 0 <= i < others.len() implies input_fits(#[trigger] others[i]) by {
            assert(others[i] == inputs[i + 1]);
        }
        inputs_are_read(others, tail);
        let behind = inputs_bytes(others) + tail;
        let bytes = inputs_bytes(inputs) + tail;
        assert(bytes.skip(36) =~= with_length(input.script) + (input.sequence + behind));
        item_is_read_back(input.script, input.sequence + behind);
        assert((input.sequence + behind).skip(4) =~= behind);
        assert(tx_in(bytes) == Reading::Item((), behind));
    }
}

#[verifier::spinoff_prover]
#[verifier::rlimit(50)]
proof fn outputs_are_read(outputs: Seq<(u64, Seq<u8>)>, tail: Seq<u8>)
    requires
        forall|i: int| 0 <= i < outputs.len() ==> (#[trigger] outputs[i]).1.len() <= isize::MAX,
    ensures
        tx_outs(outputs_bytes(outputs) + tail, outputs.len()) == Reading::Item((), tail),
    decreases outputs.len(),
{
    if outputs.len() == 0 {
        assert(outputs_bytes(outputs) + tail =~= tail);
    } else {
        let output = outputs[0];
        let others = outputs.skip(1);
        assert forall|i: int| 0 <= i < others.len() implies (#[trigger] others[i]).1.len()
            <= isize::MAX by {
            assert(others[i] == outputs[i + 1]);
        }
        outputs_are_read(others, tail);
        let behind = outputs_bytes(others) + tail;
        tx_out_is_read_back(output.0, output.1, behind);
        assert(outputs_bytes(outputs) + tail =~= tx_out_bytes(output.0, output.1) + behind);
    }
}

/// Every transaction that fits into memory is one to the reader, with any number of inputs and
/// outputs, whatever stands behind it.
#[verifier::spinoff_prover]
#[verifier::rlimit(50)]
pub proof fn tx_is_read(
    version: Seq<u8>,
    inputs: Seq<InputParts>,
    outputs: Seq<(u64, Seq<u8>)>,
    locktime: Seq<u8>,
    tail: Seq<u8>,
)
    requires
        version.len() == 4,
        locktime.len() == 4,
        inputs.len() <= usize::MAX,
        outputs.len() <= usize::MAX,
        forall|i: int| 0 <= i < inputs.len() ==> input_fits(#[trigger] inputs[i]),
        forall|i: int| 0 <= i < outputs.len() ==> (#[trigger] outputs[i]).1.len() <= isize::MAX,
    ensures
        legacy_tx(tx_bytes(version, inputs, outputs, locktime) + tail) == Reading::Item((), tail),
{
    let end = locktime + tail;
    let vout_bytes = compact_bytes(outputs.len()) + (outputs_bytes(outputs) + end);
    let vin_bytes = compact_bytes(inputs.len()) + (inputs_bytes(inputs) + vout_bytes);
    assert((tx_bytes(version, inputs, outputs, locktime) + tail).skip(4) =~= vin_bytes);
    assert(end.skip(4) =~= tail);
    compact_int_is_read_back(inputs.len(), inputs_bytes(inputs) + vout_bytes);
    compact_int_is_read_back(outputs.len(), outputs_bytes(outputs) + end);
    inputs_are_read(inputs, vout_bytes);
    outputs_are_read(outputs, end);
}

} // verus!
