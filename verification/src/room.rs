//! Whether the lengths that a value states can be addressed at all.
//!
//! The readers of transactions, outputs and witnesses make room for as many bytes as a length
//! prefix states before they read them, and cannot go on where no allocation can be that large.
//! They ask their callers to rule this out, and the functions here find it out.

use vstd::prelude::*;
use vstd::slice::slice_subrange;

use crate::backend;
use crate::common::PSBTValue;
use crate::wire::Reading;
use crate::wire::{
    legacy_tx, prefixed_bytes, stack_items, tx_in, tx_ins, tx_out, tx_outs, vin, vout,
    witness,
};

verus! {

/// Where a walk over bytes has come to.
enum Walk<'a> {
    /// It has passed an item and stands in front of these bytes.
    At(&'a [u8]),
    /// The bytes are not as they should be.
    Refused,
    /// A length is too large.
    Overflow,
}

/// A walk has come to where a reader would be.
spec fn follows<T>(walk: Walk, reading: Reading<T>) -> bool {
    match reading {
        Reading::Item(_, rest) => walk matches Walk::At(bytes) && bytes@ == rest,
        Reading::Refused => walk is Refused,
        Reading::Overflow => walk is Overflow,
    }
}

/// Passes `n` bytes.
fn pass_bytes(bytes: &[u8], n: usize) -> (walk: Walk<'_>)
    ensures
        n <= bytes@.len() ==> (walk matches Walk::At(rest) && rest@ == bytes@.skip(n as int)),
        n > bytes@.len() ==> walk is Refused,
{
    if n > bytes.len() {
        return Walk::Refused;
    }
    let rest = slice_subrange(bytes, n, bytes.len());
    assert(rest@ =~= bytes@.skip(n as int));
    Walk::At(rest)
}

/// Passes a byte string behind its length.
fn pass_prefixed(bytes: &[u8]) -> (walk: Walk<'_>)
    ensures
        follows(walk, prefixed_bytes(bytes@)),
{
    let mut reader = bytes;
    match backend::read_compact_int(&mut reader) {
        Ok(length) => if length > isize::MAX as u64 {
            Walk::Overflow
        } else {
            pass_bytes(reader, length as usize)
        },
        Err(_) => Walk::Refused,
    }
}

/// Passes an input.
fn pass_tx_in(bytes: &[u8]) -> (walk: Walk<'_>)
    ensures
        follows(walk, tx_in(bytes@)),
{
    match pass_bytes(bytes, 36) {
        Walk::At(script) => match pass_prefixed(script) {
            Walk::At(sequence) => pass_bytes(sequence, 4),
            other => other,
        },
        other => other,
    }
}

/// Passes an output.
fn pass_tx_out(bytes: &[u8]) -> (walk: Walk<'_>)
    ensures
        follows(walk, tx_out(bytes@)),
{
    match pass_bytes(bytes, 8) {
        Walk::At(script) => pass_prefixed(script),
        other => other,
    }
}

/// Passes the inputs of a transaction behind their number.
fn pass_vin(bytes: &[u8]) -> (walk: Walk<'_>)
    ensures
        follows(walk, vin(bytes@)),
{
    let mut reader = bytes;
    let number: u64 = match backend::read_compact_int(&mut reader) {
        Ok(number) => number,
        Err(_) => return Walk::Refused,
    };
    if number > usize::MAX as u64 {
        return Walk::Overflow;
    }
    let mut left: u64 = number;
    while left > 0
        invariant
            vin(bytes@) == tx_ins(reader@, left as nat),
        decreases left,
    {
        match pass_tx_in(reader) {
            Walk::At(rest) => reader = rest,
            other => return other,
        }
        left = left - 1;
    }
    Walk::At(reader)
}

/// Passes the outputs of a transaction behind their number.
fn pass_vout(bytes: &[u8]) -> (walk: Walk<'_>)
    ensures
        follows(walk, vout(bytes@)),
{
    let mut reader = bytes;
    let number: u64 = match backend::read_compact_int(&mut reader) {
        Ok(number) => number,
        Err(_) => return Walk::Refused,
    };
    if number > usize::MAX as u64 {
        return Walk::Overflow;
    }
    let mut left: u64 = number;
    while left > 0
        invariant
            vout(bytes@) == tx_outs(reader@, left as nat),
        decreases left,
    {
        match pass_tx_out(reader) {
            Walk::At(rest) => reader = rest,
            other => return other,
        }
        left = left - 1;
    }
    Walk::At(reader)
}

/// Whether every length in a value that is read as a transaction can be addressed.
pub fn tx_fits(val: &PSBTValue) -> (fits: bool)
    ensures
        fits == !(legacy_tx(val@) is Overflow),
{
    let inputs = match pass_bytes(val.items(), 4) {
        Walk::At(rest) => rest,
        _ => return true,
    };
    match pass_vin(inputs) {
        Walk::At(outputs) => match pass_vout(outputs) {
            Walk::Overflow => false,
            _ => true,
        },
        Walk::Refused => true,
        Walk::Overflow => false,
    }
}

/// Whether the length in a value that is read as an output can be addressed.
pub fn tx_out_fits(val: &PSBTValue) -> (fits: bool)
    ensures
        fits == !(tx_out(val@) is Overflow),
{
    match pass_tx_out(val.items()) {
        Walk::Overflow => false,
        _ => true,
    }
}

/// Whether every length in a value that is read as a witness can be addressed.
pub fn witness_fits(val: &PSBTValue) -> (fits: bool)
    ensures
        fits == !(witness(val@) is Overflow),
{
    let mut reader = val.items();
    let number: usize = match backend::read_compact_int(&mut reader) {
        Ok(number) => number as usize,
        Err(_) => return true,
    };
    let mut left: usize = number;
    while left > 0
        invariant
            witness(val@) is Overflow <==> stack_items(reader@, left as nat) is Overflow,
        decreases left,
    {
        match pass_prefixed(reader) {
            Walk::At(rest) => reader = rest,
            Walk::Refused => return true,
            Walk::Overflow => return false,
        }
        left = left - 1;
    }
    true
}

} // verus!
