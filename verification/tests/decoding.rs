use jvm::decoder::{decode, decode_from, decode_next, Cursor};
use jvm::instruction::{branch_target, DecodeError, Instruction, Operand};
use jvm::opcodes::{Error, Opcode};
use jvm::operand::read_operand;
use jvm::prefix::PrefixState;
use jvm::shape::OperandRule;

fn record(address: usize, opcode: Opcode, operand: Operand) -> Instruction {
    Instruction { address, opcode, operand }
}

fn failure(error: Error, address: usize) -> DecodeError {
    DecodeError { error, address }
}

#[test]
fn empty_stream_has_no_records() {
    assert_eq!(decode(&[], 0), Ok(vec![]));
    assert_eq!(decode(&[], 17), Ok(vec![]));
}

#[test]
fn zero_operand_opcode_advances_by_one() {
    for base in [0usize, 1, 2, 3, 1000] {
        for position in 0..4usize {
            let bytes = [0x00, 0x60, 0x57, 0xb1];
            let cursor = Cursor { position, state: PrefixState::Normal };
            let (instruction, next) = decode_next(&bytes, base, cursor).unwrap().unwrap();
            assert_eq!(instruction.address, base + position);
            assert_eq!(instruction.operand, Operand::Absent);
            assert_eq!(instruction.encoded_len(), 1);
            assert_eq!(next, Cursor { position: position + 1, state: PrefixState::Normal });
        }
    }
}

#[test]
fn every_zero_operand_opcode_gives_a_bare_record() {
    for byte in 0..=255u8 {
        if let Ok(opcode) = Opcode::try_from(byte) {
            if opcode.parameter_size() == 0 && opcode != Opcode::Wide {
                assert_eq!(decode(&[byte], 5), Ok(vec![record(5, opcode, Operand::Absent)]));
            }
        }
    }
}

#[test]
fn simple_method_body() {
    // iconst_1; istore_1; iload_1; bipush -3; iadd; ireturn
    let bytes = [0x04, 0x3c, 0x1b, 0x10, 0xfd, 0x60, 0xac];
    assert_eq!(
        decode(&bytes, 0),
        Ok(vec![
            record(0, Opcode::IConst1, Operand::Absent),
            record(1, Opcode::IStore1, Operand::Absent),
            record(2, Opcode::ILoad1, Operand::Absent),
            record(3, Opcode::BIPush, Operand::Byte(-3)),
            record(5, Opcode::IAdd, Operand::Absent),
            record(6, Opcode::IReturn, Operand::Absent),
        ])
    );
}

#[test]
fn fixed_operands_are_read_big_endian() {
    assert_eq!(decode(&[0x10, 0x7f], 0), Ok(vec![record(0, Opcode::BIPush, Operand::Byte(127))]));
    assert_eq!(decode(&[0x10, 0x80], 0), Ok(vec![record(0, Opcode::BIPush, Operand::Byte(-128))]));
    assert_eq!(
        decode(&[0x11, 0x01, 0x02], 0),
        Ok(vec![record(0, Opcode::SIPush, Operand::Short(0x0102))])
    );
    assert_eq!(
        decode(&[0x11, 0xff, 0xfe], 0),
        Ok(vec![record(0, Opcode::SIPush, Operand::Short(-2))])
    );
    assert_eq!(decode(&[0x12, 0xc8], 0), Ok(vec![record(0, Opcode::Ldc, Operand::Pool8(200))]));
    assert_eq!(
        decode(&[0x13, 0xab, 0xcd], 0),
        Ok(vec![record(0, Opcode::LdcW, Operand::Pool16(0xabcd))])
    );
    assert_eq!(decode(&[0x15, 0xff], 0), Ok(vec![record(0, Opcode::ILoad, Operand::Local(255))]));
    assert_eq!(
        decode(&[0x84, 0x07, 0xff], 0),
        Ok(vec![record(0, Opcode::IInc, Operand::Increment { index: 7, delta: -1 })])
    );
    assert_eq!(
        decode(&[0xa7, 0xff, 0xfb], 10),
        Ok(vec![record(10, Opcode::Goto, Operand::Branch16(-5))])
    );
    assert_eq!(
        decode(&[0xc8, 0x80, 0x00, 0x00, 0x00], 0),
        Ok(vec![record(0, Opcode::GotoW, Operand::Branch32(i32::MIN))])
    );
    assert_eq!(
        decode(&[0xc9, 0x7f, 0xff, 0xff, 0xff], 0),
        Ok(vec![record(0, Opcode::JsrW, Operand::Branch32(i32::MAX))])
    );
    assert_eq!(
        decode(&[0xbc, 0x0a], 0),
        Ok(vec![record(0, Opcode::NewArray, Operand::ArrayType(10))])
    );
    assert_eq!(
        decode(&[0xc5, 0x00, 0x09, 0x03], 0),
        Ok(vec![record(0, Opcode::MultiANewArray, Operand::MultiArray { index: 9, dimensions: 3 })])
    );
    assert_eq!(
        decode(&[0xb9, 0x01, 0x00, 0x02, 0x00], 0),
        Ok(vec![record(
            0,
            Opcode::InvokeInterface,
            Operand::InterfaceCall { index: 256, count: 2 }
        )])
    );
    assert_eq!(
        decode(&[0xba, 0x00, 0x2a, 0x00, 0x00], 0),
        Ok(vec![record(0, Opcode::InvokeDynamic, Operand::DynamicCall { index: 42 })])
    );
}

#[test]
fn table_switch_padding_follows_the_address() {
    // default 100, low 0, high 2, offsets 10, 20, -30
    let fields: [u8; 24] = [
        0, 0, 0, 100, 0, 0, 0, 0, 0, 0, 0, 2, 0, 0, 0, 10, 0, 0, 0, 20, 0xff, 0xff, 0xff, 0xe2,
    ];
    for (nops, padding) in [(0usize, 3usize), (1, 2), (2, 1), (3, 0), (4, 3), (5, 2)] {
        let mut bytes = vec![0x00u8; nops];
        bytes.push(0xaa);
        bytes.extend(std::iter::repeat(0u8).take(padding));
        bytes.extend_from_slice(&fields);
        let records = decode(&bytes, 0).unwrap();
        assert_eq!(records.len(), nops + 1);
        let switch = &records[nops];
        assert_eq!(
            *switch,
            record(
                nops,
                Opcode::TableSwitch,
                Operand::TableSwitch { default: 100, low: 0, high: 2, offsets: vec![10, 20, -30] }
            )
        );
        assert_eq!(switch.encoded_len(), 1 + padding + 12 + 12);
        assert_eq!(switch.address + switch.encoded_len(), bytes.len());
    }
}

#[test]
fn table_switch_targets_are_address_plus_offset() {
    let mut bytes = vec![0x00u8; 40];
    bytes.push(0xaa);
    bytes.extend_from_slice(&[0, 0, 0]);
    bytes.extend_from_slice(&[0, 0, 0, 100, 0, 0, 0, 0, 0, 0, 0, 2]);
    bytes.extend_from_slice(&[0, 0, 0, 10, 0, 0, 0, 20, 0xff, 0xff, 0xff, 0xe2]);
    let records = decode(&bytes, 0).unwrap();
    let switch = records.last().unwrap();
    assert_eq!(switch.address, 40);
    assert_eq!(switch.branch_targets(), vec![Some(50), Some(60), Some(10)]);
    assert_eq!(branch_target(switch.address, 100), Some(140));
}

#[test]
fn table_switch_padding_counts_from_the_method_start() {
    // The stream begins at address 2 of the method: one byte of padding.
    let bytes = [0xaa, 0xee, 0, 0, 0, 1, 0, 0, 0, 5, 0, 0, 0, 5, 0, 0, 0, 9];
    assert_eq!(
        decode(&bytes, 2),
        Ok(vec![record(
            2,
            Opcode::TableSwitch,
            Operand::TableSwitch { default: 1, low: 5, high: 5, offsets: vec![9] }
        )])
    );
    // At address 0 three bytes are padding: the bounds are read two bytes
    // further on, and the one offset they ask for ends behind the stream.
    assert_eq!(decode(&bytes, 0), Err(failure(Error::TruncatedInstruction, 0)));
}

#[test]
fn table_switch_with_negative_bounds() {
    let mut bytes = vec![0x00, 0x00, 0x00, 0xaa];
    bytes.extend_from_slice(&[0, 0, 0, 0]);
    bytes.extend_from_slice(&[0xff, 0xff, 0xff, 0xff]);
    bytes.extend_from_slice(&[0, 0, 0, 1]);
    bytes.extend_from_slice(&[0, 0, 0, 1, 0, 0, 0, 2, 0, 0, 0, 3]);
    let records = decode(&bytes, 0).unwrap();
    assert_eq!(
        records[3],
        record(
            3,
            Opcode::TableSwitch,
            Operand::TableSwitch { default: 0, low: -1, high: 1, offsets: vec![1, 2, 3] }
        )
    );
}

#[test]
fn table_switch_with_low_above_high_is_rejected() {
    let mut bytes = vec![0x00, 0x00, 0x00, 0xaa];
    bytes.extend_from_slice(&[0, 0, 0, 0, 0, 0, 0, 3, 0, 0, 0, 2]);
    assert_eq!(decode(&bytes, 0), Err(failure(Error::InvalidSwitchRange, 3)));
    assert_eq!(decode(&bytes, 4), Err(failure(Error::InvalidSwitchRange, 7)));
}

#[test]
fn table_switch_that_is_cut_short() {
    let mut bytes = vec![0x00, 0x00, 0x00, 0xaa];
    bytes.extend_from_slice(&[0, 0, 0, 0, 0, 0, 0, 0, 0, 0, 0, 1]);
    bytes.extend_from_slice(&[0, 0, 0, 1, 0, 0, 0]);
    assert_eq!(decode(&bytes, 0), Err(failure(Error::TruncatedInstruction, 3)));
    assert_eq!(decode(&bytes[..10], 0), Err(failure(Error::TruncatedInstruction, 3)));
    assert_eq!(decode(&bytes[..4], 0), Err(failure(Error::TruncatedInstruction, 3)));
    // The widest range there is: 2^32 offsets cannot be in the stream.
    let mut wide = vec![0x00, 0x00, 0x00, 0xaa];
    wide.extend_from_slice(&[0, 0, 0, 0, 0x80, 0, 0, 0, 0x7f, 0xff, 0xff, 0xff]);
    assert_eq!(decode(&wide, 0), Err(failure(Error::TruncatedInstruction, 3)));
}

#[test]
fn lookup_switch_pairs_in_stream_order() {
    let mut bytes = vec![0xab, 0, 0, 0];
    bytes.extend_from_slice(&[0, 0, 0, 50, 0, 0, 0, 2]);
    bytes.extend_from_slice(&[0, 0, 0, 7, 0, 0, 0, 20]);
    bytes.extend_from_slice(&[0xff, 0xff, 0xff, 0xff, 0xff, 0xff, 0xff, 0xf0]);
    bytes.push(0xb1);
    let records = decode(&bytes, 0).unwrap();
    assert_eq!(
        records,
        vec![
            record(
                0,
                Opcode::LookupSwitch,
                Operand::LookupSwitch { default: 50, pairs: vec![(7, 20), (-1, -16)] }
            ),
            record(28, Opcode::Return, Operand::Absent),
        ]
    );
    assert_eq!(records[0].encoded_len(), 28);
    assert_eq!(records[0].branch_targets(), vec![Some(20), None]);
}

#[test]
fn lookup_switch_without_pairs() {
    let bytes = [0x00, 0xab, 0, 0, 0, 0, 0, 9, 0, 0, 0, 0];
    assert_eq!(
        decode(&bytes, 0),
        Ok(vec![
            record(0, Opcode::Nop, Operand::Absent),
            record(1, Opcode::LookupSwitch, Operand::LookupSwitch { default: 9, pairs: vec![] }),
        ])
    );
}

#[test]
fn lookup_switch_that_is_cut_short() {
    let bytes = [0xab, 0, 0, 0, 0, 0, 0, 9, 0, 0, 0, 1, 0, 0, 0, 1, 0, 0, 0];
    assert_eq!(decode(&bytes, 0), Err(failure(Error::TruncatedInstruction, 0)));
    assert_eq!(decode(&bytes[..8], 0), Err(failure(Error::TruncatedInstruction, 0)));
    let huge = [0xab, 0, 0, 0, 0, 0, 0, 9, 0xff, 0xff, 0xff, 0xff];
    assert_eq!(decode(&huge, 0), Err(failure(Error::TruncatedInstruction, 0)));
}

#[test]
fn wide_prefix_widens_a_local_load() {
    let bytes = [0xc4, 0x15, 0x01, 0x02];
    assert_eq!(
        decode(&bytes, 0),
        Ok(vec![
            record(0, Opcode::Wide, Operand::Absent),
            record(1, Opcode::ILoad, Operand::WideLocal(0x0102)),
        ])
    );
    for load in [0x15u8, 0x16, 0x17, 0x18, 0x19] {
        let records = decode(&[0x00, 0xc4, load, 0xff, 0xfe, 0x00], 0).unwrap();
        assert_eq!(records.len(), 4);
        assert_eq!(records[2].address, 2);
        assert_eq!(records[2].operand, Operand::WideLocal(0xfffe));
        assert_eq!(records[2].encoded_len(), 3);
        assert_eq!(records[3], record(5, Opcode::Nop, Operand::Absent));
    }
}

#[test]
fn wide_prefix_widens_stores_ret_and_iinc() {
    assert_eq!(
        decode(&[0xc4, 0x3a, 0x12, 0x34], 0).unwrap()[1],
        record(1, Opcode::AStore, Operand::WideLocal(0x1234))
    );
    assert_eq!(
        decode(&[0xc4, 0xa9, 0x00, 0x05], 0).unwrap()[1],
        record(1, Opcode::Ret, Operand::WideLocal(5))
    );
    assert_eq!(
        decode(&[0xc4, 0x84, 0x01, 0x00, 0xff, 0x38], 0),
        Ok(vec![
            record(0, Opcode::Wide, Operand::Absent),
            record(1, Opcode::IInc, Operand::WideIncrement { index: 256, delta: -200 }),
        ])
    );
}

#[test]
fn wide_prefix_reaches_one_instruction_only() {
    let bytes = [0xc4, 0x15, 0x00, 0x01, 0x15, 0x02];
    assert_eq!(
        decode(&bytes, 0),
        Ok(vec![
            record(0, Opcode::Wide, Operand::Absent),
            record(1, Opcode::ILoad, Operand::WideLocal(1)),
            record(4, Opcode::ILoad, Operand::Local(2)),
        ])
    );
}

#[test]
fn wide_prefix_before_another_opcode_is_misplaced() {
    assert_eq!(decode(&[0xc4, 0x00], 0), Err(failure(Error::MisplacedWidePrefix, 1)));
    assert_eq!(decode(&[0xc4, 0xc4, 0x15, 0, 1], 0), Err(failure(Error::MisplacedWidePrefix, 1)));
    assert_eq!(decode(&[0x00, 0xc4, 0x10, 0x01], 8), Err(failure(Error::MisplacedWidePrefix, 10)));
    // The opcode is looked up first.
    assert_eq!(decode(&[0xc4, 0xcb], 0), Err(failure(Error::UnknownOpcode(0xcb), 1)));
}

#[test]
fn wide_prefix_at_the_end_of_the_stream() {
    assert_eq!(decode(&[0xc4], 0), Ok(vec![record(0, Opcode::Wide, Operand::Absent)]));
    let (instruction, next) = decode_next(&[0xc4], 0, Cursor::start()).unwrap().unwrap();
    assert_eq!(decode_next(&[0xc4], 0, next), Ok(None));
    assert_eq!(instruction, record(0, Opcode::Wide, Operand::Absent));
    assert_eq!(next, Cursor { position: 1, state: PrefixState::WidePending });
}

#[test]
fn stream_ending_in_an_operand_is_truncated_at_the_opcode() {
    // sipush with one byte left
    assert_eq!(decode(&[0x00, 0x00, 0x11, 0x01], 0), Err(failure(Error::TruncatedInstruction, 2)));
    assert_eq!(decode(&[0x11], 0), Err(failure(Error::TruncatedInstruction, 0)));
    assert_eq!(decode(&[0x10], 3), Err(failure(Error::TruncatedInstruction, 3)));
    assert_eq!(decode(&[0xc8, 1, 2, 3], 0), Err(failure(Error::TruncatedInstruction, 0)));
    assert_eq!(decode(&[0xc5, 1, 2], 0), Err(failure(Error::TruncatedInstruction, 0)));
    // widened operands need twice the bytes
    assert_eq!(decode(&[0xc4, 0x15, 0x01], 0), Err(failure(Error::TruncatedInstruction, 1)));
    assert_eq!(
        decode(&[0xc4, 0x84, 0x01, 0x02, 0x03], 0),
        Err(failure(Error::TruncatedInstruction, 1))
    );
}

#[test]
fn unknown_opcode_carries_the_byte_and_its_address() {
    assert_eq!(decode(&[0x00, 0xcb], 0), Err(failure(Error::UnknownOpcode(0xcb), 1)));
    assert_eq!(decode(&[0xfd, 0x00], 7), Err(failure(Error::UnknownOpcode(0xfd), 7)));
    // an operand byte is not looked up
    assert_eq!(decode(&[0x10, 0xcb], 0), Ok(vec![record(0, Opcode::BIPush, Operand::Byte(-53))]));
}

#[test]
fn records_cover_the_stream_in_rising_order() {
    let mut bytes = vec![0x04u8, 0x3c, 0x10, 0x05, 0x11, 0x01, 0x00, 0xc4, 0x84, 0, 1, 0, 2];
    bytes.extend_from_slice(&[0xa7, 0x00, 0x03, 0xab, 0, 0, 0]);
    bytes.extend_from_slice(&[0, 0, 0, 1, 0, 0, 0, 1, 0, 0, 0, 2, 0, 0, 0, 3]);
    bytes.extend_from_slice(&[0xb9, 0, 1, 1, 0, 0xb1]);
    for base in [0usize, 4, 8] {
        let records = decode(&bytes, base).unwrap();
        assert_eq!(records.len(), 10);
        assert_eq!(records[0].address, base);
        for pair in records.windows(2) {
            assert!(pair[0].address < pair[1].address);
            assert_eq!(pair[0].address + pair[0].encoded_len(), pair[1].address);
        }
        let last = records.last().unwrap();
        assert_eq!(last.address + last.encoded_len(), base + bytes.len());
    }
}

#[test]
fn decoding_from_a_cursor_resumes_in_its_state() {
    let bytes = [0xc4, 0x15, 0x01, 0x02, 0xb1];
    let after_prefix = Cursor { position: 1, state: PrefixState::WidePending };
    assert_eq!(
        decode_from(&bytes, 0, after_prefix),
        Ok(vec![
            record(1, Opcode::ILoad, Operand::WideLocal(0x0102)),
            record(4, Opcode::Return, Operand::Absent),
        ])
    );
    let unprefixed = Cursor { position: 1, state: PrefixState::Normal };
    assert_eq!(
        decode_from(&bytes, 0, unprefixed),
        Ok(vec![
            record(1, Opcode::ILoad, Operand::Local(1)),
            record(3, Opcode::IConstM1, Operand::Absent),
            record(4, Opcode::Return, Operand::Absent),
        ])
    );
    let at_end = Cursor { position: 5, state: PrefixState::Normal };
    assert_eq!(decode_from(&bytes, 0, at_end), Ok(vec![]));
    assert_eq!(decode_next(&bytes, 0, at_end), Ok(None));
    let beyond = Cursor { position: 9, state: PrefixState::WidePending };
    assert_eq!(decode_from(&bytes, 0, beyond), Ok(vec![]));
    assert_eq!(decode_next(&bytes, 0, beyond), Ok(None));
}

#[test]
fn steps_fail_at_the_address_of_the_cursor() {
    let bytes = [0x00, 0xcb, 0x11, 0x01];
    let at = |position| Cursor { position, state: PrefixState::Normal };
    assert_eq!(decode_next(&bytes, 4, at(1)), Err(failure(Error::UnknownOpcode(0xcb), 5)));
    assert_eq!(decode_next(&bytes, 4, at(2)), Err(failure(Error::TruncatedInstruction, 6)));
    let pending = Cursor { position: 0, state: PrefixState::WidePending };
    assert_eq!(decode_next(&bytes, 4, pending), Err(failure(Error::MisplacedWidePrefix, 4)));
}

#[test]
fn prefix_state_transitions() {
    assert_eq!(PrefixState::Normal.after(Opcode::Wide), Ok(PrefixState::WidePending));
    assert_eq!(PrefixState::Normal.after(Opcode::Nop), Ok(PrefixState::Normal));
    assert_eq!(PrefixState::Normal.after(Opcode::ILoad), Ok(PrefixState::Normal));
    assert_eq!(PrefixState::WidePending.after(Opcode::ILoad), Ok(PrefixState::Normal));
    assert_eq!(PrefixState::WidePending.after(Opcode::IInc), Ok(PrefixState::Normal));
    assert_eq!(PrefixState::WidePending.after(Opcode::Wide), Err(Error::MisplacedWidePrefix));
    assert_eq!(PrefixState::WidePending.after(Opcode::Goto), Err(Error::MisplacedWidePrefix));
    assert!(PrefixState::WidePending.is_wide());
    assert!(!PrefixState::Normal.is_wide());
}

#[test]
fn operands_read_by_rule() {
    let bytes = [0x01, 0x02, 0x03, 0x04];
    assert_eq!(read_operand(&bytes, 0, 0, OperandRule::Nothing, false), Ok(Operand::Absent));
    assert_eq!(read_operand(&bytes, 0, 4, OperandRule::Nothing, false), Ok(Operand::Absent));
    assert_eq!(read_operand(&bytes, 0, 1, OperandRule::LocalIndex, false), Ok(Operand::Local(2)));
    assert_eq!(
        read_operand(&bytes, 0, 1, OperandRule::LocalIndex, true),
        Ok(Operand::WideLocal(0x0203))
    );
    assert_eq!(
        read_operand(&bytes, 0, 0, OperandRule::Branch32, false),
        Ok(Operand::Branch32(0x01020304))
    );
    // a rule that cannot be widened reads as ever
    assert_eq!(
        read_operand(&bytes, 0, 2, OperandRule::Branch16, true),
        Ok(Operand::Branch16(0x0304))
    );
    assert_eq!(
        read_operand(&bytes, 0, 3, OperandRule::Branch16, false),
        Err(Error::TruncatedInstruction)
    );
    assert_eq!(
        read_operand(&bytes, 0, 4, OperandRule::SignedByte, false),
        Err(Error::TruncatedInstruction)
    );
    assert_eq!(
        read_operand(&bytes, 0, 5, OperandRule::Nothing, false),
        Err(Error::TruncatedInstruction)
    );
}

#[test]
fn branch_targets_of_plain_branches() {
    let records = decode(&[0x00, 0xa7, 0xff, 0xff, 0xc8, 0, 0, 1, 0, 0x99, 0x80, 0x00], 0).unwrap();
    assert_eq!(records[0].branch_targets(), vec![]);
    assert_eq!(records[1].branch_targets(), vec![Some(0)]);
    assert_eq!(records[2].branch_targets(), vec![Some(4 + 256)]);
    assert_eq!(records[3].branch_targets(), vec![None]);
    assert_eq!(branch_target(10, -10), Some(0));
    assert_eq!(branch_target(10, -11), None);
    assert_eq!(branch_target(usize::MAX, 0), Some(usize::MAX));
    assert_eq!(branch_target(usize::MAX, 1), None);
    assert_eq!(branch_target(usize::MAX, -1), Some(usize::MAX - 1));
    assert_eq!(branch_target(0, i32::MIN), None);
    assert_eq!(branch_target(1 << 31, i32::MIN), Some(0));
    assert_eq!(branch_target(5, i32::MAX), Some(5 + i32::MAX as usize));
}

#[test]
fn lookup_switch_key_order_is_left_to_the_caller() {
    let sorted = Operand::LookupSwitch { default: 0, pairs: vec![(-5, 1), (0, 2), (9, 3)] };
    let repeated = Operand::LookupSwitch { default: 0, pairs: vec![(1, 1), (1, 2)] };
    let falling = Operand::LookupSwitch { default: 0, pairs: vec![(1, 1), (2, 2), (0, 3)] };
    let empty = Operand::LookupSwitch { default: 0, pairs: vec![] };
    assert!(sorted.keys_ascending());
    assert!(!repeated.keys_ascending());
    assert!(!falling.keys_ascending());
    assert!(empty.keys_ascending());
    assert!(Operand::Absent.keys_ascending());
    // a table out of order still decodes
    let bytes = [
        0xab, 0, 0, 0, 0, 0, 0, 0, 0, 0, 0, 2, 0, 0, 0, 9, 0, 0, 0, 1, 0, 0, 0, 3, 0, 0, 0, 2,
    ];
    let records = decode(&bytes, 0).unwrap();
    assert_eq!(
        records[0].operand,
        Operand::LookupSwitch { default: 0, pairs: vec![(9, 1), (3, 2)] }
    );
    assert!(!records[0].operand.keys_ascending());
}

#[test]
fn operand_lengths() {
    assert_eq!(Operand::Absent.encoded_len(0), 0);
    assert_eq!(Operand::Local(1).encoded_len(0), 1);
    assert_eq!(Operand::WideLocal(1).encoded_len(0), 2);
    assert_eq!(Operand::Increment { index: 1, delta: 1 }.encoded_len(0), 2);
    assert_eq!(Operand::WideIncrement { index: 1, delta: 1 }.encoded_len(0), 4);
    assert_eq!(Operand::Byte(1).encoded_len(0), 1);
    assert_eq!(Operand::Short(1).encoded_len(0), 2);
    assert_eq!(Operand::ArrayType(4).encoded_len(0), 1);
    assert_eq!(Operand::Pool8(1).encoded_len(0), 1);
    assert_eq!(Operand::Pool16(1).encoded_len(0), 2);
    assert_eq!(Operand::MultiArray { index: 1, dimensions: 2 }.encoded_len(0), 3);
    assert_eq!(Operand::InterfaceCall { index: 1, count: 2 }.encoded_len(0), 4);
    assert_eq!(Operand::DynamicCall { index: 1 }.encoded_len(0), 4);
    assert_eq!(Operand::Branch16(1).encoded_len(0), 2);
    assert_eq!(Operand::Branch32(1).encoded_len(0), 4);
    let table = Operand::TableSwitch { default: 0, low: 1, high: 2, offsets: vec![5, 6] };
    assert_eq!(table.encoded_len(0), 3 + 12 + 8);
    assert_eq!(table.encoded_len(7), 0 + 12 + 8);
    let list = Operand::LookupSwitch { default: 0, pairs: vec![(1, 2), (3, 4), (5, 6)] };
    assert_eq!(list.encoded_len(1), 2 + 8 + 24);
    assert_eq!(list.encoded_len(2), 1 + 8 + 24);
}
