//! What holds of every stream: single steps, the wide prefix, truncation.

use crate::decoder::{lemma_decode_from_unfolds, lemma_step_advances, spec_decode,
    spec_decode_from, spec_decode_next, spec_prepend};
use crate::instruction::{DecodeErrorView, InstructionView, OperandView};
use crate::opcodes::{is_reserved, lemma_opcode_of_numeric_value, lemma_reserved_is_undefined,
    opcode_of, Error, Opcode};
use crate::prefix::PrefixState;
use crate::shape::{OperandRule, ShapeClass};
use vstd::prelude::*;

verus! {

/// An opcode without operand bytes, met in the normal state at any address,
/// gives a record without operand and moves the cursor by exactly one byte.
/// Behind a wide prefix no such opcode is accepted.
pub proof fn lemma_step_without_operand(bytes: Seq<u8>, base: int, position: int, opcode: Opcode)
    requires
        0 <= position < bytes.len(),
        bytes[position] == opcode.numeric_value(),
        opcode.shape_class() == ShapeClass::FixedZero,
    ensures
        spec_decode_next(bytes, base, position, PrefixState::Normal) matches Ok(
            (instruction, next),
        ) && instruction == (InstructionView {
            address: base + position,
            opcode,
            operand: OperandView::Absent,
        }) && instruction.encoded_len() == 1 && next == if opcode == Opcode::Wide {
            PrefixState::WidePending
        } else {
            PrefixState::Normal
        },
        spec_decode_next(bytes, base, position, PrefixState::WidePending) == Err::<
            (InstructionView, PrefixState),
            DecodeErrorView,
        >(DecodeErrorView { error: Error::MisplacedWidePrefix, address: base + position }),
{
    reveal(spec_decode_next);
    lemma_opcode_of_numeric_value(opcode);
}

/// A byte of the reserved range stops the decoder, in either state, with
/// that byte and the address at which it stands.
pub proof fn lemma_step_at_reserved_byte(
    bytes: Seq<u8>,
    base: int,
    position: int,
    state: PrefixState,
)
    requires
        0 <= position < bytes.len(),
        is_reserved(bytes[position]),
    ensures
        spec_decode_next(bytes, base, position, state) == Err::<
            (InstructionView, PrefixState),
            DecodeErrorView,
        >(
            DecodeErrorView {
                error: Error::UnknownOpcode(bytes[position]),
                address: base + position,
            },
        ),
{
    reveal(spec_decode_next);
    lemma_reserved_is_undefined(bytes[position]);
}

/// A step fails with `MisplacedWidePrefix` exactly where a prefix is pending
/// and the byte at the cursor names an opcode that the prefix cannot widen.
pub proof fn lemma_misplaced_prefix(bytes: Seq<u8>, base: int, position: int, state: PrefixState)
    requires
        0 <= position < bytes.len(),
    ensures
        ({
            let step = spec_decode_next(bytes, base, position, state);
            step is Err && step->Err_0.error == Error::MisplacedWidePrefix
        }) <==> ({
            let named = opcode_of(bytes[position]);
            state == PrefixState::WidePending && named is Some
                && !named->Some_0.is_wide_eligible()
        }),
{
    reveal(spec_decode_next);
}

/// A wide prefix followed by an opcode that takes a local-variable index,
/// a load among them, is two records: the prefix, then the opcode with the
/// index read from two bytes, most significant first. The two take four
/// bytes, and decoding goes on behind them in the normal state.
pub proof fn lemma_wide_local_index(bytes: Seq<u8>, base: int, position: int, opcode: Opcode)
    requires
        0 <= position,
        position + 4 <= bytes.len(),
        bytes[position] == Opcode::Wide.numeric_value(),
        bytes[position + 1] == opcode.numeric_value(),
        opcode.operand_rule() == OperandRule::LocalIndex,
    ensures
        spec_decode_next(bytes, base, position, PrefixState::Normal) == Ok::<
            (InstructionView, PrefixState),
            DecodeErrorView,
        >(
            (
                InstructionView {
                    address: base + position,
                    opcode: Opcode::Wide,
                    operand: OperandView::Absent,
                },
                PrefixState::WidePending,
            ),
        ),
        spec_decode_next(bytes, base, position + 1, PrefixState::WidePending) == Ok::<
            (InstructionView, PrefixState),
            DecodeErrorView,
        >(
            (
                InstructionView {
                    address: base + position + 1,
                    opcode,
                    operand: OperandView::WideLocal(
                        bytes[position + 2] * 0x100 + bytes[position + 3],
                    ),
                },
                PrefixState::Normal,
            ),
        ),
        spec_decode_from(bytes, base, position, PrefixState::Normal) == spec_prepend(
            seq![
                InstructionView {
                    address: base + position,
                    opcode: Opcode::Wide,
                    operand: OperandView::Absent,
                },
                InstructionView {
                    address: base + position + 1,
                    opcode,
                    operand: OperandView::WideLocal(
                        bytes[position + 2] * 0x100 + bytes[position + 3],
                    ),
                },
            ],
            spec_decode_from(bytes, base, position + 4, PrefixState::Normal),
        ),
{
    reveal(spec_decode_next);
    lemma_opcode_of_numeric_value(opcode);
    lemma_opcode_of_numeric_value(Opcode::Wide);
    let prefix = InstructionView {
        address: base + position,
        opcode: Opcode::Wide,
        operand: OperandView::Absent,
    };
    let widened = InstructionView {
        address: base + position + 1,
        opcode,
        operand: OperandView::WideLocal(bytes[position + 2] * 0x100 + bytes[position + 3]),
    };
    lemma_decode_from_unfolds(bytes, base, position, PrefixState::Normal);
    lemma_decode_from_unfolds(bytes, base, position + 1, PrefixState::WidePending);
    let rest = spec_decode_from(bytes, base, position + 4, PrefixState::Normal);
    if let Ok(tail) = rest {
        assert(seq![prefix] + (seq![widened] + tail) =~= seq![prefix, widened] + tail);
    }
}

/// An instruction of fixed length that the stream ends in the middle of
/// fails with `TruncatedInstruction` at the address of its opcode, and so
/// does decoding from there.
pub proof fn lemma_truncated_operand(
    bytes: Seq<u8>,
    base: int,
    position: int,
    state: PrefixState,
    opcode: Opcode,
)
    requires
        0 <= position < bytes.len(),
        bytes[position] == opcode.numeric_value(),
        state.after(opcode) is Ok,
        opcode.shape_class() != ShapeClass::Variable,
        bytes.len() - (position + 1) < opcode.operand_rule().operand_len(state.is_wide()),
    ensures
        spec_decode_next(bytes, base, position, state) == Err::<
            (InstructionView, PrefixState),
            DecodeErrorView,
        >(DecodeErrorView { error: Error::TruncatedInstruction, address: base + position }),
        spec_decode_from(bytes, base, position, state) == Err::<
            Seq<InstructionView>,
            DecodeErrorView,
        >(DecodeErrorView { error: Error::TruncatedInstruction, address: base + position }),
{
    reveal(spec_decode_next);
    lemma_opcode_of_numeric_value(opcode);
    lemma_decode_from_unfolds(bytes, base, position, state);
}

/// Whether stepping from `position` in `state` gives the records `done`, one
/// step each, and stands at `later` in the state `then` after them.
pub open spec fn spec_reaches(
    bytes: Seq<u8>,
    base: int,
    position: int,
    state: PrefixState,
    done: Seq<InstructionView>,
    later: int,
    then: PrefixState,
) -> bool
    decreases done.len(),
{
    if done.len() == 0 {
        position == later && state == then
    } else {
        0 <= position < bytes.len() && exists|next: PrefixState|
            spec_decode_next(bytes, base, position, state) == Ok::<
                (InstructionView, PrefixState),
                DecodeErrorView,
            >((done[0], next)) && spec_reaches(
                bytes,
                base,
                position + done[0].encoded_len(),
                next,
                done.subrange(1, done.len() as int),
                later,
                then,
            )
    }
}

/// Stepping goes forward.
proof fn lemma_reaches_bounds(
    bytes: Seq<u8>,
    base: int,
    position: int,
    state: PrefixState,
    done: Seq<InstructionView>,
    later: int,
    then: PrefixState,
)
    requires
        0 <= position <= bytes.len(),
        spec_reaches(bytes, base, position, state, done, later, then),
    ensures
        position <= later <= bytes.len(),
    decreases done.len(),
{
    if done.len() > 0 {
        let first = done[0];
        let next = choose|next: PrefixState|
            spec_decode_next(bytes, base, position, state) == Ok::<
                (InstructionView, PrefixState),
                DecodeErrorView,
            >((first, next)) && spec_reaches(
                bytes,
                base,
                position + first.encoded_len(),
                next,
                done.subrange(1, done.len() as int),
                later,
                then,
            );
        lemma_step_advances(bytes, base, position, state);
        lemma_reaches_bounds(
            bytes,
            base,
            position + first.encoded_len(),
            next,
            done.subrange(1, done.len() as int),
            later,
            then,
        );
    }
}

/// Where stepping from `position` gives the records `done` and then stands
/// at `later`, decoding from `position` gives `done` in front of what
/// decoding from `later` gives. An error behind `done` is the error of the
/// whole, and none of `done` is handed out.
pub proof fn lemma_decode_after_reaching(
    bytes: Seq<u8>,
    base: int,
    position: int,
    state: PrefixState,
    done: Seq<InstructionView>,
    later: int,
    then: PrefixState,
)
    requires
        0 <= position <= bytes.len(),
        spec_reaches(bytes, base, position, state, done, later, then),
    ensures
        position <= later <= bytes.len(),
        spec_decode_from(bytes, base, position, state) == spec_prepend(
            done,
            spec_decode_from(bytes, base, later, then),
        ),
    decreases done.len(),
{
    lemma_reaches_bounds(bytes, base, position, state, done, later, then);
    let rest = spec_decode_from(bytes, base, later, then);
    if done.len() == 0 {
        if let Ok(tail) = rest {
            assert(done + tail =~= tail);
        }
    } else {
        let first = done[0];
        let next = choose|next: PrefixState|
            spec_decode_next(bytes, base, position, state) == Ok::<
                (InstructionView, PrefixState),
                DecodeErrorView,
            >((first, next)) && spec_reaches(
                bytes,
                base,
                position + first.encoded_len(),
                next,
                done.subrange(1, done.len() as int),
                later,
                then,
            );
        lemma_step_advances(bytes, base, position, state);
        lemma_reaches_bounds(
            bytes,
            base,
            position + first.encoded_len(),
            next,
            done.subrange(1, done.len() as int),
            later,
            then,
        );
        lemma_decode_after_reaching(
            bytes,
            base,
            position + first.encoded_len(),
            next,
            done.subrange(1, done.len() as int),
            later,
            then,
        );
        lemma_decode_from_unfolds(bytes, base, position, state);
        if let Ok(tail) = rest {
            assert(seq![first] + (done.subrange(1, done.len() as int) + tail) =~= done + tail);
        }
    }
}

/// A stream that ends in the middle of an instruction of fixed length fails
/// with `TruncatedInstruction` at the address of that instruction's opcode,
/// which lies before the end of the stream: where the instructions before
/// it are `done` and its opcode stands at `position`, that is the outcome of
/// decoding the whole stream.
pub proof fn lemma_stream_ending_in_operand(
    bytes: Seq<u8>,
    base: int,
    done: Seq<InstructionView>,
    position: int,
    state: PrefixState,
    opcode: Opcode,
)
    requires
        spec_reaches(bytes, base, 0, PrefixState::Normal, done, position, state),
        position < bytes.len(),
        bytes[position] == opcode.numeric_value(),
        state.after(opcode) is Ok,
        opcode.shape_class() != ShapeClass::Variable,
        bytes.len() - (position + 1) < opcode.operand_rule().operand_len(state.is_wide()),
    ensures
        spec_decode(bytes, base) == Err::<Seq<InstructionView>, DecodeErrorView>(
            DecodeErrorView { error: Error::TruncatedInstruction, address: base + position },
        ),
        base + position < base + bytes.len(),
{
    lemma_decode_after_reaching(bytes, base, 0, PrefixState::Normal, done, position, state);
    lemma_truncated_operand(bytes, base, position, state, opcode);
}

} // verus!
