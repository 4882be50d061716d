//! The byte formats of the items that records hold.

use vstd::prelude::*;

verus! {

/// The byte at `at`, and zero past the end.
pub open spec fn octet(bytes: Seq<u8>, at: int) -> nat {
    if 0 <= at < bytes.len() {
        bytes[at] as nat
    } else {
        0
    }
}

/// The little-endian number in the two bytes from `at` on.
pub open spec fn le2(bytes: Seq<u8>, at: int) -> nat {
    octet(bytes, at) + 0x100 * octet(bytes, at + 1)
}

/// The little-endian number in the four bytes from `at` on.
pub open spec fn le4(bytes: Seq<u8>, at: int) -> nat {
    le2(bytes, at) + 0x1_0000 * le2(bytes, at + 2)
}

/// The little-endian number in the eight bytes from `at` on.
pub open spec fn le8(bytes: Seq<u8>, at: int) -> nat {
    le4(bytes, at) + 0x1_0000_0000 * le4(bytes, at + 4)
}

/// The number of bytes that a compact integer with this first byte takes.
pub open spec fn compact_width(first: u8) -> nat {
    if first <= 0xfc {
        1
    } else if first == 0xfd {
        3
    } else if first == 0xfe {
        5
    } else {
        9
    }
}

/// The number of bytes that the shortest compact integer for `number` takes.
pub open spec fn shortest_compact_width(number: nat) -> nat {
    if number <= 0xfc {
        1
    } else if number <= 0xffff {
        3
    } else if number <= 0xffff_ffff {
        5
    } else {
        9
    }
}

/// The number that a compact integer stands for. Bytes that are missing at its end count as zero.
pub open spec fn compact_number(bytes: Seq<u8>) -> nat {
    if bytes[0] <= 0xfc {
        bytes[0] as nat
    } else if bytes[0] == 0xfd {
        le2(bytes, 1)
    } else if bytes[0] == 0xfe {
        le4(bytes, 1)
    } else {
        le8(bytes, 1)
    }
}

/// What a reader makes of the bytes that it is given.
pub enum Reading<T> {
    /// It reads an item and leaves the bytes behind it.
    Item(T, Seq<u8>),
    /// It refuses the bytes.
    Refused,
    /// It is told to make room for more items than can be addressed.
    Overflow,
}

/// The bytes that are left when the first `n` are gone.
pub open spec fn rest_after(bytes: Seq<u8>, n: nat) -> Seq<u8> {
    if n <= bytes.len() {
        bytes.skip(n as int)
    } else {
        Seq::empty()
    }
}

/// A compact integer: one byte, or a mark and two, four or eight bytes. It has to be the shortest
/// one for its number.
pub open spec fn compact_int(bytes: Seq<u8>) -> Reading<nat> {
    if bytes.len() == 0 {
        Reading::Refused
    } else if shortest_compact_width(compact_number(bytes)) < compact_width(bytes[0]) {
        Reading::Refused
    } else {
        Reading::Item(compact_number(bytes), rest_after(bytes, compact_width(bytes[0])))
    }
}

/// Exactly `n` bytes.
pub open spec fn exact_bytes(bytes: Seq<u8>, n: nat) -> Reading<Seq<u8>> {
    if n <= bytes.len() {
        Reading::Item(bytes.take(n as int), bytes.skip(n as int))
    } else {
        Reading::Refused
    }
}

/// A byte string behind its length.
pub open spec fn prefixed_bytes(bytes: Seq<u8>) -> Reading<Seq<u8>> {
    match compact_int(bytes) {
        Reading::Item(length, rest) => if length > isize::MAX {
            Reading::Overflow
        } else {
            exact_bytes(rest, length)
        },
        Reading::Refused => Reading::Refused,
        Reading::Overflow => Reading::Overflow,
    }
}

/// `n` byte strings, each behind its length.
pub open spec fn stack_items(bytes: Seq<u8>, n: nat) -> Reading<Seq<Seq<u8>>>
    decreases n,
{
    if n == 0 {
        Reading::Item(Seq::empty(), bytes)
    } else {
        match prefixed_bytes(bytes) {
            Reading::Item(item, rest) => match stack_items(rest, (n - 1) as nat) {
                Reading::Item(items, rest) => Reading::Item(seq![item] + items, rest),
                Reading::Refused => Reading::Refused,
                Reading::Overflow => Reading::Overflow,
            },
            Reading::Refused => Reading::Refused,
            Reading::Overflow => Reading::Overflow,
        }
    }
}

/// A script witness: the number of its stack items, and the items.
pub open spec fn witness(bytes: Seq<u8>) -> Reading<Seq<Seq<u8>>> {
    match compact_int(bytes) {
        Reading::Item(number, rest) => stack_items(rest, (number as u64) as usize as nat),
        Reading::Refused => Reading::Refused,
        Reading::Overflow => Reading::Overflow,
    }
}

/// An output: its value in eight bytes, and its script.
pub open spec fn tx_out(bytes: Seq<u8>) -> Reading<(u64, Seq<u8>)> {
    if bytes.len() < 8 {
        Reading::Refused
    } else {
        match prefixed_bytes(bytes.skip(8)) {
            Reading::Item(script, rest) => Reading::Item((le8(bytes, 0) as u64, script), rest),
            Reading::Refused => Reading::Refused,
            Reading::Overflow => Reading::Overflow,
        }
    }
}

/// An input: the 32-byte id and four-byte index of the output that it spends, its script, and a
/// four-byte sequence number.
pub open spec fn tx_in(bytes: Seq<u8>) -> Reading<()> {
    if bytes.len() < 36 {
        Reading::Refused
    } else {
        match prefixed_bytes(bytes.skip(36)) {
            Reading::Item(_, rest) => if rest.len() < 4 {
                Reading::Refused
            } else {
                Reading::Item((), rest.skip(4))
            },
            Reading::Refused => Reading::Refused,
            Reading::Overflow => Reading::Overflow,
        }
    }
}

/// `n` inputs.
pub open spec fn tx_ins(bytes: Seq<u8>, n: nat) -> Reading<()>
    decreases n,
{
    if n == 0 {
        Reading::Item((), bytes)
    } else {
        match tx_in(bytes) {
            Reading::Item(_, rest) => tx_ins(rest, (n - 1) as nat),
            Reading::Refused => Reading::Refused,
            Reading::Overflow => Reading::Overflow,
        }
    }
}

/// `n` outputs.
pub open spec fn tx_outs(bytes: Seq<u8>, n: nat) -> Reading<()>
    decreases n,
{
    if n == 0 {
        Reading::Item((), bytes)
    } else {
        match tx_out(bytes) {
            Reading::Item(_, rest) => tx_outs(rest, (n - 1) as nat),
            Reading::Refused => Reading::Refused,
            Reading::Overflow => Reading::Overflow,
        }
    }
}

/// The inputs of a transaction behind their number.
pub open spec fn vin(bytes: Seq<u8>) -> Reading<()> {
    match compact_int(bytes) {
        Reading::Item(number, rest) => if number > usize::MAX {
            Reading::Overflow
        } else {
            tx_ins(rest, number)
        },
        Reading::Refused => Reading::Refused,
        Reading::Overflow => Reading::Overflow,
    }
}

/// The outputs of a transaction behind their number.
pub open spec fn vout(bytes: Seq<u8>) -> Reading<()> {
    match compact_int(bytes) {
        Reading::Item(number, rest) => if number > usize::MAX {
            Reading::Overflow
        } else {
            tx_outs(rest, number)
        },
        Reading::Refused => Reading::Refused,
        Reading::Overflow => Reading::Overflow,
    }
}

/// A transaction without witnesses: a four-byte version, the inputs, the outputs, and a four-byte
/// lock time. Bytes behind it are left alone.
pub open spec fn legacy_tx(bytes: Seq<u8>) -> Reading<()> {
    if bytes.len() < 4 {
        Reading::Refused
    } else {
        match vin(bytes.skip(4)) {
            Reading::Item(_, rest) => match vout(rest) {
                Reading::Item(_, rest) => if rest.len() < 4 {
                    Reading::Refused
                } else {
                    Reading::Item((), rest.skip(4))
                },
                Reading::Refused => Reading::Refused,
                Reading::Overflow => Reading::Overflow,
            },
            Reading::Refused => Reading::Refused,
            Reading::Overflow => Reading::Overflow,
        }
    }
}

/// The bytes of the transaction at the front of bytes, where there is one, without those behind it.
pub open spec fn legacy_tx_bytes(bytes: Seq<u8>) -> Seq<u8> {
    match legacy_tx(bytes) {
        Reading::Item(_, rest) => bytes.take(bytes.len() - rest.len()),
        _ => bytes,
    }
}

} // verus!
