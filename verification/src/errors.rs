use vstd::prelude::*;

verus! {

/// The ways an invocation can be rejected. Every failure is detected while
/// decoding, before any byte of the stored record is touched.
#[derive(Debug, Clone, Copy, PartialEq, Eq, Structural)]
pub enum CounterError {
    /// The instruction buffer is empty, or a tag that needs a 4-byte
    /// argument did not come with exactly 4 payload bytes.
    MalformedInstruction,
    /// The leading tag byte names no operation.
    UnknownInstructionTag,
    /// The stored record is too short to hold a counter.
    CorruptState,
}

} // verus!
