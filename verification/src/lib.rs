use vstd::prelude::*;
use vstd::pervasive::VecAdditionalExecFns;

pub mod codec;
pub mod errors;
pub mod instructions;

use crate::codec::{le_bytes, le_u32_of, lemma_le_round_trip, read_le_u32, write_le_u32};
use crate::errors::CounterError;
use crate::instructions::{unpack_spec, CounterInstructions, UserInput};

verus! {

/// The one persisted record: a single unsigned 32-bit counter.
#[derive(Debug, Clone, Copy, PartialEq, Eq, Structural)]
pub struct CounterAccount {
    pub counter: u32,
}

/// Addition modulo 2^32, the behaviour of the unchecked native addition
/// the engine inherits for increments.
pub open spec fn wrap_add_u32(a: u32, b: u32) -> u32 {
    if a + b > u32::MAX {
        (a + b - 0x1_0000_0000) as u32
    } else {
        (a + b) as u32
    }
}

/// The counter value after one operation. Increment wraps modulo 2^32;
/// decrement saturates at zero; set and reset overwrite unconditionally.
pub open spec fn apply_spec(c: u32, op: CounterInstructions) -> u32 {
    match op {
        CounterInstructions::Increment(u) => wrap_add_u32(c, u.value),
        CounterInstructions::Decrement(u) => if u.value > c {
            0
        } else {
            (c - u.value) as u32
        },
        CounterInstructions::Update(a) => a.value,
        CounterInstructions::Reset => 0,
    }
}

/// The persisted form of a record: exactly four bytes, little-endian.
pub open spec fn encode_record_spec(account: CounterAccount) -> Seq<u8> {
    le_bytes(account.counter)
}

/// What decoding a storage buffer yields: the little-endian u32 in its
/// first four bytes, or `CorruptState` when fewer than four are there.
pub open spec fn decode_record_spec(bytes: Seq<u8>) -> Result<CounterAccount, CounterError> {
    if bytes.len() < 4 {
        Err(CounterError::CorruptState)
    } else {
        Ok(CounterAccount { counter: le_u32_of(bytes) })
    }
}

/// What one whole invocation does to a storage buffer: decode the
/// instruction, decode the record, apply the operation, and re-encode the
/// record over the first four bytes, leaving the rest of the buffer as it
/// was; or fail without touching a byte.
pub open spec fn process_spec(storage: Seq<u8>, instruction: Seq<u8>) -> Result<
    Seq<u8>,
    CounterError,
> {
    match unpack_spec(instruction) {
        Err(e) => Err(e),
        Ok(op) => match decode_record_spec(storage) {
            Err(e) => Err(e),
            Ok(account) => Ok(le_bytes(apply_spec(account.counter, op)) + storage.skip(4)),
        },
    }
}

impl CounterAccount {
    /// Parses a persisted record, or rejects a buffer too short to hold one.
    pub fn decode_record(bytes: &[u8]) -> (r: Result<Self, CounterError>)
        ensures
            r == decode_record_spec(bytes@),
    {
        if bytes.len() < 4 {
            return Err(CounterError::CorruptState);
        }
        let counter = read_le_u32(bytes, 0);
        Ok(CounterAccount { counter })
    }

    /// Serializes this record into exactly four little-endian bytes.
    pub fn encode_record(&self) -> (r: Vec<u8>)
        ensures
            r@ == encode_record_spec(*self),
            r@.len() == 4,
    {
        write_le_u32(self.counter)
    }

    /// Applies one operation to this record and returns the new record.
    /// Total: no operation fails once it has been decoded.
    pub fn apply(&self, op: &CounterInstructions) -> (r: Self)
        ensures
            r.counter == apply_spec(self.counter, *op),
    {
        match op {
            CounterInstructions::Increment(u) => CounterAccount {
                counter: self.counter.wrapping_add(u.value),
            },
            CounterInstructions::Decrement(u) => CounterAccount {
                counter: if u.value > self.counter {
                    0
                } else {
                    self.counter - u.value
                },
            },
            CounterInstructions::Update(a) => CounterAccount { counter: a.value },
            CounterInstructions::Reset => CounterAccount { counter: 0 },
        }
    }
}

/// One whole invocation: decodes `instruction_data`, decodes the record in
/// `storage`, applies the operation and writes the new record over the first
/// four bytes of `storage`. On any failure `storage` is left untouched;
/// its length never changes.
pub fn process_instruction(storage: &mut Vec<u8>, instruction_data: &[u8]) -> (r: Result<
    (),
    CounterError,
>)
    ensures
        final(storage)@.len() == old(storage)@.len(),
        r is Ok ==> process_spec(old(storage)@, instruction_data@) == Ok::<Seq<u8>, CounterError>(
            final(storage)@,
        ),
        r matches Err(e) ==> final(storage)@ == old(storage)@ && process_spec(
            old(storage)@,
            instruction_data@,
        ) == Err::<Seq<u8>, CounterError>(e),
{
    let op = match CounterInstructions::unpack(instruction_data) {
        Ok(op) => op,
        Err(e) => {
            return Err(e);
        },
    };
    let account = match CounterAccount::decode_record(storage.as_slice()) {
        Ok(account) => account,
        Err(e) => {
            return Err(e);
        },
    };
    let updated = account.apply(&op);
    let encoded = updated.encode_record();
    storage.set(0, encoded[0]);
    storage.set(1, encoded[1]);
    storage.set(2, encoded[2]);
    storage.set(3, encoded[3]);
    assert(storage@ =~= le_bytes(updated.counter) + old(storage)@.skip(4));
    Ok(())
}

/// Record round trip: decoding the encoding of any record gives that
/// record back.
pub proof fn lemma_record_round_trip(account: CounterAccount)
    ensures
        decode_record_spec(encode_record_spec(account)) == Ok::<CounterAccount, CounterError>(
            account,
        ),
{
    lemma_le_round_trip(account.counter);
}

/// Decrement saturates: the counter never drops below zero, and otherwise
/// falls by exactly the amount asked.
pub proof fn lemma_decrement_saturates(c: u32, n: u32)
    ensures
        apply_spec(c, CounterInstructions::Decrement((UserInput { value: n }))) == (if c - n >= 0 {
            c - n
        } else {
            0int
        }),
{
}

/// Reset is idempotent: one reset zeroes the counter, and a second one
/// leaves it at zero.
pub proof fn lemma_reset_idempotent(c: u32)
    ensures
        apply_spec(c, CounterInstructions::Reset) == 0,
        apply_spec(apply_spec(c, CounterInstructions::Reset), CounterInstructions::Reset) == 0,
{
}

} // verus!
