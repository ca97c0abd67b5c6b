//! The instruction decoder: from the bytes of a method body to its
//! instruction records.

use crate::instruction::{DecodeError, DecodeErrorView, Instruction, InstructionView};
use crate::opcodes::{opcode_of, Error, Opcode};
use crate::operand::{lemma_operand_len, read_operand, spec_read_operand};
use crate::prefix::PrefixState;
use vstd::prelude::*;

verus! {

/// Where the decoder stands in a stream, and in which state.
#[derive(Debug, Clone, Copy, PartialEq, Eq, Structural)]
pub struct Cursor {
    /// The index in the stream of the next opcode byte.
    pub position: usize,
    /// Whether that opcode stands behind a wide prefix.
    pub state: PrefixState,
}

impl Cursor {
    /// The cursor at the start of a stream.
    pub fn start() -> (cursor: Cursor)
        ensures
            cursor == (Cursor { position: 0, state: PrefixState::Normal }),
    {
        Cursor { position: 0, state: PrefixState::Normal }
    }
}

/// What one step of the decoder gives at index `position` of `bytes`, a
/// stream whose first byte has the address `base`: the instruction there and
/// the state after it, or the error and the address of the opcode byte at
/// which the step began.
///
/// The step looks the opcode byte up, then lets the prefix state judge the
/// opcode, then reads the operand.
#[verifier::opaque]
pub open spec fn spec_decode_next(bytes: Seq<u8>, base: int, position: int, state: PrefixState)
    -> Result<(InstructionView, PrefixState), DecodeErrorView> {
    let address = base + position;
    match opcode_of(bytes[position]) {
        None => Err(DecodeErrorView { error: Error::UnknownOpcode(bytes[position]), address }),
        Some(opcode) => match state.after(opcode) {
            Err(error) => Err(DecodeErrorView { error, address }),
            Ok(next) => match spec_read_operand(
                bytes,
                address,
                position + 1,
                opcode.operand_rule(),
                state.is_wide(),
            ) {
                Err(error) => Err(DecodeErrorView { error, address }),
                Ok(operand) => Ok((InstructionView { address, opcode, operand }, next)),
            },
        },
    }
}

/// A step that succeeds gives an instruction at the address of the cursor
/// that takes at least its opcode byte and ends within the stream. A step
/// that fails gives the address of the cursor.
pub proof fn lemma_step_advances(bytes: Seq<u8>, base: int, position: int, state: PrefixState)
    requires
        0 <= position < bytes.len(),
    ensures
        spec_decode_next(bytes, base, position, state) matches Ok((instruction, next)) ==> {
            &&& instruction.address == base + position
            &&& instruction.encoded_len() >= 1
            &&& instruction.end() <= base + bytes.len()
        },
        spec_decode_next(bytes, base, position, state) matches Err(error) ==> error.address
            == base + position,
{
    reveal(spec_decode_next);
    if let Some(opcode) = opcode_of(bytes[position]) {
        lemma_operand_len(
            bytes,
            base + position,
            position + 1,
            opcode.operand_rule(),
            state.is_wide(),
        );
    }
}

/// The instructions from index `position` of `bytes` to its end, decoded one
/// after the other, each step beginning where the instruction before it
/// ended, or the first error met on the way.
pub open spec fn spec_decode_from(bytes: Seq<u8>, base: int, position: int, state: PrefixState)
    -> Result<Seq<InstructionView>, DecodeErrorView>
    decreases bytes.len() - position,
    when 0 <= position
{
    if position >= bytes.len() {
        Ok(Seq::empty())
    } else {
        match spec_decode_next(bytes, base, position, state) {
            Err(error) => Err(error),
            Ok((instruction, next)) => {
                proof {
                    lemma_step_advances(bytes, base, position, state);
                }
                match spec_decode_from(bytes, base, position + instruction.encoded_len(), next) {
                    Err(error) => Err(error),
                    Ok(rest) => Ok(seq![instruction] + rest),
                }
            },
        }
    }
}

/// The instructions of the whole stream `bytes`, whose first byte has the
/// address `base`, or the first error.
pub open spec fn spec_decode(bytes: Seq<u8>, base: int) -> Result<
    Seq<InstructionView>,
    DecodeErrorView,
> {
    spec_decode_from(bytes, base, 0, PrefixState::Normal)
}

/// What a decoded prefix `done` and the outcome `rest` of decoding what
/// follows it make together.
pub open spec fn spec_prepend(
    done: Seq<InstructionView>,
    rest: Result<Seq<InstructionView>, DecodeErrorView>,
) -> Result<Seq<InstructionView>, DecodeErrorView> {
    match rest {
        Ok(instructions) => Ok(done + instructions),
        Err(error) => Err(error),
    }
}

/// Decoding from a cursor inside the stream is one step and then decoding
/// from where that step ended; an error of the step is the error of the
/// whole.
pub proof fn lemma_decode_from_unfolds(bytes: Seq<u8>, base: int, position: int, state: PrefixState)
    requires
        0 <= position < bytes.len(),
    ensures
        spec_decode_from(bytes, base, position, state) == match spec_decode_next(
            bytes,
            base,
            position,
            state,
        ) {
            Err(error) => Err(error),
            Ok((instruction, next)) => spec_prepend(
                seq![instruction],
                spec_decode_from(bytes, base, position + instruction.encoded_len(), next),
            ),
        },
{
}

/// Whether `records` lie one behind the other from `start` to `end`: the
/// first begins at `start`, each one begins where the one before it ends,
/// each takes at least one byte, and the last ends at `end`. No records lie
/// between an address and itself.
pub open spec fn spec_contiguous(records: Seq<InstructionView>, start: int, end: int) -> bool {
    &&& forall|i: int| 0 <= i < records.len() ==> (#[trigger] records[i]).encoded_len() >= 1
    &&& forall|i: int, j: int|
        0 <= i && j == i + 1 && j < records.len() ==> (#[trigger] records[j]).address == (
        #[trigger] records[i]).end()
    &&& if records.len() == 0 {
        start == end
    } else {
        records[0].address == start && records.last().end() == end
    }
}

/// Decoding covers the stream or stops inside it: the records that it gives
/// lie one behind the other from the cursor to the end of the stream, and an
/// error that it gives has an address between the cursor and the end.
pub proof fn lemma_decode_from_covers(bytes: Seq<u8>, base: int, position: int, state: PrefixState)
    requires
        0 <= position <= bytes.len(),
    ensures
        match spec_decode_from(bytes, base, position, state) {
            Ok(records) => spec_contiguous(records, base + position, base + bytes.len()),
            Err(error) => base + position <= error.address < base + bytes.len(),
        },
    decreases bytes.len() - position,
{
    if position < bytes.len() {
        lemma_step_advances(bytes, base, position, state);
        if let Ok((instruction, next)) = spec_decode_next(bytes, base, position, state) {
            let then = position + instruction.encoded_len();
            lemma_decode_from_covers(bytes, base, then, next);
            if let Ok(rest) = spec_decode_from(bytes, base, then, next) {
                let records = seq![instruction] + rest;
                assert(records[0] == instruction);
                assert forall|i: int, j: int|
                    0 <= i && j == i + 1 && j < records.len() implies (
                #[trigger] records[j]).address == (#[trigger] records[i]).end() by {
                    assert(records[j] == rest[j - 1]);
                    if i >= 1 {
                        assert(records[i] == rest[i - 1]);
                    }
                }
                assert forall|i: int| 0 <= i < records.len() implies (
                #[trigger] records[i]).encoded_len() >= 1 by {
                    if i >= 1 {
                        assert(records[i] == rest[i - 1]);
                    }
                }
                if rest.len() > 0 {
                    assert(records.last() == rest.last());
                }
            }
        }
    }
}

/// Of two records among ones that lie one behind the other, the earlier ends
/// at or before the end of the later.
proof fn lemma_contiguous_between(
    records: Seq<InstructionView>,
    start: int,
    end: int,
    i: int,
    j: int,
)
    requires
        spec_contiguous(records, start, end),
        0 <= i <= j < records.len(),
    ensures
        records[i].end() <= records[j].end(),
        i < j ==> records[i].end() <= records[j].address,
    decreases j - i,
{
    if i < j {
        lemma_contiguous_between(records, start, end, i, j - 1);
        assert(records[j].address == records[j - 1].end());
        assert(records[j].encoded_len() >= 1);
    }
}

/// In records that lie one behind the other the addresses rise strictly:
/// each record ends at or before the address of every later one, and all lie
/// between `start` and `end`.
pub proof fn lemma_contiguous_ascends(records: Seq<InstructionView>, start: int, end: int)
    requires
        spec_contiguous(records, start, end),
    ensures
        forall|i: int, j: int|
            0 <= i < j < records.len() ==> (#[trigger] records[i]).end() <= (
            #[trigger] records[j]).address && records[i].address < records[j].address,
        forall|i: int|
            0 <= i < records.len() ==> start <= (#[trigger] records[i]).address && records[i].end()
                <= end,
        start <= end,
{
    assert forall|i: int, j: int| 0 <= i < j < records.len() implies (#[trigger] records[i]).end()
        <= (#[trigger] records[j]).address && records[i].address < records[j].address by {
        lemma_contiguous_between(records, start, end, i, j);
        assert(records[i].encoded_len() >= 1);
    }
    assert forall|i: int| 0 <= i < records.len() implies start <= (#[trigger] records[i]).address
        && records[i].end() <= end by {
        lemma_contiguous_between(records, start, end, 0, i);
        lemma_contiguous_between(records, start, end, i, records.len() - 1);
        assert(records[0].encoded_len() >= 1);
        assert(records[i].encoded_len() >= 1);
    }
    if records.len() > 0 {
        assert(records[0].encoded_len() >= 1);
    }
}

/// The views of a sequence of instructions.
pub open spec fn instruction_views(instructions: Seq<Instruction>) -> Seq<InstructionView> {
    Seq::new(instructions.len(), |i: int| instructions[i]@)
}

/// The view of what decoding a stream gave.
pub open spec fn decode_result_view(result: Result<Vec<Instruction>, DecodeError>) -> Result<
    Seq<InstructionView>,
    DecodeErrorView,
> {
    match result {
        Ok(instructions) => Ok(instruction_views(instructions@)),
        Err(error) => Err(error@),
    }
}

/// The view of what one step inside the stream gave.
pub open spec fn step_result_view(result: Result<Option<(Instruction, Cursor)>, DecodeError>)
    -> Result<(InstructionView, PrefixState), DecodeErrorView>
    recommends
        result matches Ok(step) ==> step is Some,
{
    match result {
        Ok(step) => Ok((step->Some_0.0@, step->Some_0.1.state)),
        Err(error) => Err(error@),
    }
}

/// Decodes the instruction at `cursor`, if the cursor stands before the end
/// of the stream: looks its opcode up, checks it against a pending wide
/// prefix, and reads its operand, widened behind a prefix. It gives the
/// instruction, with the address `base` plus the position, and the cursor
/// behind it. At the end of the stream, or behind it, there is nothing to
/// decode.
///
/// Each error carries the address of the opcode byte at `cursor`:
/// `UnknownOpcode` where that byte names no opcode, else
/// `MisplacedWidePrefix` where a prefix is pending that cannot widen the
/// opcode, else what reading the operand met.
pub fn decode_next(bytes: &[u8], base: usize, cursor: Cursor) -> (result: Result<
    Option<(Instruction, Cursor)>,
    DecodeError,
>)
    requires
        base + bytes.len() <= usize::MAX,
    ensures
        cursor.position >= bytes.len() ==> result == Ok::<
            Option<(Instruction, Cursor)>,
            DecodeError,
        >(None),
        cursor.position < bytes.len() ==> !(result matches Ok(None)) && step_result_view(result)
            == spec_decode_next(bytes@, base as int, cursor.position as int, cursor.state),
        result matches Ok(Some((instruction, next))) ==> {
            &&& instruction.address == base + cursor.position
            &&& instruction@.encoded_len() >= 1
            &&& next.position == cursor.position + instruction@.encoded_len()
            &&& next.position <= bytes.len()
        },
        result matches Err(error) ==> error.address == base + cursor.position,
{
    reveal(spec_decode_next);
    if cursor.position >= bytes.len() {
        return Ok(None);
    }
    let address: usize = base + cursor.position;
    let byte: u8 = bytes[cursor.position];
    let opcode: Opcode = match Opcode::try_from(byte) {
        Ok(opcode) => opcode,
        Err(error) => {
            return Err(DecodeError { error, address });
        },
    };
    let state: PrefixState = match cursor.state.after(opcode) {
        Ok(state) => state,
        Err(error) => {
            return Err(DecodeError { error, address });
        },
    };
    let at: usize = cursor.position + 1;
    match read_operand(bytes, address, at, opcode.operand_rule(), cursor.state.is_wide()) {
        Err(error) => Err(DecodeError { error, address }),
        Ok(operand) => {
            let position: usize = at + operand.encoded_len(address);
            Ok(Some((Instruction { address, opcode, operand }, Cursor { position, state })))
        },
    }
}

/// Decodes the instructions from `cursor` to the end of `bytes`, a stream
/// whose first byte has the address `base`. From the end of the stream, or
/// from behind it, there are none.
///
/// The result is all or nothing: the records of every instruction, in the
/// order of the stream, or the first error with the address of the opcode
/// at which it came up.
pub fn decode_from(bytes: &[u8], base: usize, cursor: Cursor) -> (result: Result<
    Vec<Instruction>,
    DecodeError,
>)
    requires
        base + bytes.len() <= usize::MAX,
    ensures
        decode_result_view(result) == spec_decode_from(
            bytes@,
            base as int,
            cursor.position as int,
            cursor.state,
        ),
        result matches Ok(instructions) ==> cursor.position <= bytes.len() ==> spec_contiguous(
            instruction_views(instructions@),
            base + cursor.position,
            base + bytes.len(),
        ),
        result matches Err(error) ==> base + cursor.position <= error.address < base + bytes.len(),
{
    let ghost whole = spec_decode_from(bytes@, base as int, cursor.position as int, cursor.state);
    proof {
        if cursor.position <= bytes.len() {
            lemma_decode_from_covers(bytes@, base as int, cursor.position as int, cursor.state);
        }
    }
    let mut instructions: Vec<Instruction> = Vec::new();
    let mut here: Cursor = cursor;
    loop
        invariant
            cursor.position <= here.position,
            cursor.position <= bytes.len() ==> here.position <= bytes.len(),
            base + bytes.len() <= usize::MAX,
            whole == spec_decode_from(bytes@, base as int, cursor.position as int, cursor.state),
            whole == spec_prepend(
                instruction_views(instructions@),
                spec_decode_from(bytes@, base as int, here.position as int, here.state),
            ),
        ensures
            here.position >= bytes.len(),
            whole == Ok::<Seq<InstructionView>, DecodeErrorView>(instruction_views(instructions@)),
        decreases bytes.len() - here.position,
    {
        match decode_next(bytes, base, here) {
            Err(error) => {
                return Err(error);
            },
            Ok(None) => {
                proof {
                    assert(instruction_views(instructions@) + Seq::<InstructionView>::empty()
                        =~= instruction_views(instructions@));
                }
                break ;
            },
            Ok(Some((instruction, next))) => {
                proof {
                    let done = instruction_views(instructions@);
                    let rest = spec_decode_from(
                        bytes@,
                        base as int,
                        next.position as int,
                        next.state,
                    );
                    assert(instruction_views(instructions@.push(instruction)) =~= done.push(
                        instruction@,
                    ));
                    if let Ok(tail) = rest {
                        assert(done + (seq![instruction@] + tail) =~= done.push(instruction@)
                            + tail);
                    }
                }
                instructions.push(instruction);
                here = next;
            },
        }
    }
    Ok(instructions)
}

/// Decodes the instruction stream `bytes` of a method body whose first byte
/// has the address `base`.
///
/// On success the records cover the stream without a gap: the first stands at
/// `base`, each next one where the one before it ends, and the last ends with
/// the stream, so that the addresses rise strictly. An empty stream has no
/// records. An error comes with the address of the instruction that could not
/// be decoded, which lies before the end of the stream, and nothing else is
/// handed out.
pub fn decode(bytes: &[u8], base: usize) -> (result: Result<Vec<Instruction>, DecodeError>)
    requires
        base + bytes.len() <= usize::MAX,
    ensures
        decode_result_view(result) == spec_decode(bytes@, base as int),
        result matches Ok(instructions) ==> {
            &&& spec_contiguous(
                instruction_views(instructions@),
                base as int,
                base + bytes.len(),
            )
            &&& forall|i: int, j: int|
                0 <= i < j < instructions@.len() ==> (#[trigger] instructions@[i]).address < (
                #[trigger] instructions@[j]).address
            &&& instructions@.len() > 0 ==> instructions@[0].address == base
                && instructions@.last()@.end() == base + bytes.len()
            &&& instructions@.len() == 0 <==> bytes.len() == 0
        },
        result matches Err(error) ==> base <= error.address < base + bytes.len(),
{
    let result = decode_from(bytes, base, Cursor::start());
    proof {
        if result is Ok {
            let instructions = result->Ok_0;
            let records = instruction_views(instructions@);
            lemma_contiguous_ascends(records, base as int, base + bytes.len());
            assert forall|i: int, j: int| 0 <= i < j < instructions@.len() implies (
            #[trigger] instructions@[i]).address < (#[trigger] instructions@[j]).address by {
                assert(records[i].address < records[j].address);
            }
            if instructions@.len() > 0 {
                assert(records[0].address == base);
                assert(records.last() == instructions@.last()@);
                assert(records[0].encoded_len() >= 1);
            }
        }
    }
    result
}

} // verus!
