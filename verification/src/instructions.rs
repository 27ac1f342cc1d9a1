use vstd::prelude::*;

use crate::codec::{le_bytes, le_u32_of, lemma_le_round_trip, read_le_u32, write_le_u32};
use crate::errors::CounterError;

verus! {

/// The argument of a `SetTo`-style update: the value the counter is set to.
#[derive(Debug, Clone, Copy, PartialEq, Eq, Structural)]
pub struct UpdateArgs {
    pub value: u32,
}

/// The argument of an increment or decrement: the amount applied.
#[derive(Debug, Clone, Copy, PartialEq, Eq, Structural)]
pub struct UserInput {
    pub value: u32,
}

/// A decoded instruction. Built only by decoding a byte buffer; consumed
/// at once by the state machine; never persisted.
#[derive(Debug, Clone, Copy, PartialEq, Eq, Structural)]
pub enum CounterInstructions {
    Increment(UserInput),
    Decrement(UserInput),
    Update(UpdateArgs),
    Reset,
}

/// What decoding an instruction buffer yields. The first byte is the tag;
/// tags 0 (increment), 1 (decrement) and 2 (set) take exactly four payload
/// bytes holding a little-endian u32; tag 3 (reset) takes none and tolerates
/// trailing bytes; any other tag is unknown.
pub open spec fn unpack_spec(input: Seq<u8>) -> Result<CounterInstructions, CounterError> {
    if input.len() == 0 {
        Err(CounterError::MalformedInstruction)
    } else {
        let tag = input[0];
        let rest = input.skip(1);
        if tag == 0 || tag == 1 || tag == 2 {
            if rest.len() != 4 {
                Err(CounterError::MalformedInstruction)
            } else {
                let value = le_u32_of(rest);
                if tag == 0 {
                    Ok(CounterInstructions::Increment(UserInput { value }))
                } else if tag == 1 {
                    Ok(CounterInstructions::Decrement(UserInput { value }))
                } else {
                    Ok(CounterInstructions::Update(UpdateArgs { value }))
                }
            }
        } else if tag == 3 {
            Ok(CounterInstructions::Reset)
        } else {
            Err(CounterError::UnknownInstructionTag)
        }
    }
}

/// The wire form of a decoded instruction: its tag byte, then the
/// little-endian bytes of its argument where it has one.
pub open spec fn pack_spec(op: CounterInstructions) -> Seq<u8> {
    match op {
        CounterInstructions::Increment(u) => seq![0u8] + le_bytes(u.value),
        CounterInstructions::Decrement(u) => seq![1u8] + le_bytes(u.value),
        CounterInstructions::Update(a) => seq![2u8] + le_bytes(a.value),
        CounterInstructions::Reset => seq![3u8],
    }
}

impl CounterInstructions {
    /// Decodes a raw instruction buffer, or rejects it: empty input and a
    /// wrong payload length are malformed, a tag outside 0..=3 is unknown.
    pub fn unpack(input: &[u8]) -> (r: Result<Self, CounterError>)
        ensures
            r == unpack_spec(input@),
    {
        if input.len() == 0 {
            return Err(CounterError::MalformedInstruction);
        }
        let tag = input[0];
        if tag <= 2 {
            if input.len() != 5 {
                return Err(CounterError::MalformedInstruction);
            }
            let value = read_le_u32(input, 1);
            if tag == 0 {
                Ok(CounterInstructions::Increment(UserInput { value }))
            } else if tag == 1 {
                Ok(CounterInstructions::Decrement(UserInput { value }))
            } else {
                Ok(CounterInstructions::Update(UpdateArgs { value }))
            }
        } else if tag == 3 {
            Ok(CounterInstructions::Reset)
        } else {
            Err(CounterError::UnknownInstructionTag)
        }
    }

    /// Encodes this instruction in the wire format that `unpack` reads.
    pub fn pack(&self) -> (r: Vec<u8>)
        ensures
            r@ == pack_spec(*self),
    {
        let mut out: Vec<u8>;
        match self {
            CounterInstructions::Increment(u) => {
                out = write_le_u32(u.value);
                out.insert(0, 0u8);
            },
            CounterInstructions::Decrement(u) => {
                out = write_le_u32(u.value);
                out.insert(0, 1u8);
            },
            CounterInstructions::Update(a) => {
                out = write_le_u32(a.value);
                out.insert(0, 2u8);
            },
            CounterInstructions::Reset => {
                out = vec![3u8];
            },
        }
        assert(out@ =~= pack_spec(*self));
        out
    }
}

/// Wire round trip for instructions: decoding the encoding of any decoded
/// instruction gives that instruction back.
pub proof fn lemma_pack_unpack(op: CounterInstructions)
    ensures
        unpack_spec(pack_spec(op)) == Ok::<CounterInstructions, CounterError>(op),
{
    match op {
        CounterInstructions::Increment(u) => {
            assert(pack_spec(op).skip(1) =~= le_bytes(u.value));
            lemma_le_round_trip(u.value);
        },
        CounterInstructions::Decrement(u) => {
            assert(pack_spec(op).skip(1) =~= le_bytes(u.value));
            lemma_le_round_trip(u.value);
        },
        CounterInstructions::Update(a) => {
            assert(pack_spec(op).skip(1) =~= le_bytes(a.value));
            lemma_le_round_trip(a.value);
        },
        CounterInstructions::Reset => {
        },
    }
}

/// An unknown leading tag byte is rejected whatever the payload holds.
pub proof fn lemma_unknown_tag_rejected(input: Seq<u8>)
    requires
        input.len() > 0,
        input[0] > 3,
    ensures
        unpack_spec(input) == Err::<CounterInstructions, CounterError>(
            CounterError::UnknownInstructionTag,
        ),
{
}

/// An empty instruction buffer is rejected as malformed.
pub proof fn lemma_empty_rejected(input: Seq<u8>)
    requires
        input.len() == 0,
    ensures
        unpack_spec(input) == Err::<CounterInstructions, CounterError>(
            CounterError::MalformedInstruction,
        ),
{
}

} // verus!
