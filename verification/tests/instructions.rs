use counter::errors::CounterError;
use counter::instructions::{CounterInstructions, UpdateArgs, UserInput};

#[test]
fn decode_decrement_bytes() {
    let decoded = CounterInstructions::unpack(&[1, 0x0A, 0x00, 0x00, 0x00]).unwrap();
    assert_eq!(
        decoded,
        CounterInstructions::Decrement(UserInput { value: 10 })
    );
}

#[test]
fn decode_increment_bytes() {
    let decoded = CounterInstructions::unpack(&[0, 0xEF, 0xBE, 0xAD, 0xDE]).unwrap();
    assert_eq!(
        decoded,
        CounterInstructions::Increment(UserInput { value: 0xDEADBEEF })
    );
}

#[test]
fn decode_update_bytes() {
    let decoded = CounterInstructions::unpack(&[2, 33, 0, 0, 0]).unwrap();
    assert_eq!(decoded, CounterInstructions::Update(UpdateArgs { value: 33 }));
}

#[test]
fn decode_reset_bytes() {
    let decoded = CounterInstructions::unpack(&[3]).unwrap();
    assert_eq!(decoded, CounterInstructions::Reset);
}

#[test]
fn decode_reset_ignores_trailing_bytes() {
    let decoded = CounterInstructions::unpack(&[3, 1, 2, 3]).unwrap();
    assert_eq!(decoded, CounterInstructions::Reset);
}

#[test]
fn unknown_tag_is_rejected() {
    let r = CounterInstructions::unpack(&[99, 1, 2, 3, 4]);
    assert_eq!(r, Err(CounterError::UnknownInstructionTag));
    let r = CounterInstructions::unpack(&[4]);
    assert_eq!(r, Err(CounterError::UnknownInstructionTag));
}

#[test]
fn empty_buffer_is_rejected() {
    let r = CounterInstructions::unpack(&[]);
    assert_eq!(r, Err(CounterError::MalformedInstruction));
}

#[test]
fn wrong_payload_length_is_rejected() {
    assert_eq!(
        CounterInstructions::unpack(&[0, 1, 2]),
        Err(CounterError::MalformedInstruction)
    );
    assert_eq!(
        CounterInstructions::unpack(&[1]),
        Err(CounterError::MalformedInstruction)
    );
    assert_eq!(
        CounterInstructions::unpack(&[2, 1, 2, 3, 4, 5]),
        Err(CounterError::MalformedInstruction)
    );
}

#[test]
fn pack_then_unpack_round_trips() {
    let ops = vec![
        CounterInstructions::Increment(UserInput { value: 0 }),
        CounterInstructions::Increment(UserInput { value: u32::MAX }),
        CounterInstructions::Decrement(UserInput { value: 10 }),
        CounterInstructions::Update(UpdateArgs { value: 33 }),
        CounterInstructions::Reset,
    ];
    for op in ops {
        let bytes = op.pack();
        assert_eq!(CounterInstructions::unpack(&bytes), Ok(op));
    }
}

#[test]
fn pack_writes_the_wire_layout() {
    let bytes = CounterInstructions::Decrement(UserInput { value: 10 }).pack();
    assert_eq!(bytes, vec![1, 0x0A, 0x00, 0x00, 0x00]);
    let bytes = CounterInstructions::Reset.pack();
    assert_eq!(bytes, vec![3]);
}

#[test]
fn unpack_payload_matches_borsh() {
    // The argument bytes follow the same layout borsh gives a u32.
    let n: u32 = 0x01020304;
    let mut wire = vec![0u8];
    wire.extend_from_slice(&borsh::to_vec(&n).unwrap());
    let decoded = CounterInstructions::unpack(&wire).unwrap();
    assert_eq!(decoded, CounterInstructions::Increment(UserInput { value: n }));
}
