//! Instruction records: what the decoder produces.

use crate::opcodes::{Error, Opcode};
use crate::shape::{spec_switch_padding, switch_padding};
use vstd::prelude::*;

verus! {

/// The operand of one instruction, as it was read from the stream.
#[allow(inconsistent_fields)]
#[derive(Debug, Clone, PartialEq, Eq)]
pub enum Operand {
    /// No operand.
    Absent,
    /// A local-variable index of one byte.
    Local(u8),
    /// A local-variable index of two bytes, read after a wide prefix.
    WideLocal(u16),
    /// A local-variable index and a signed increment of one byte each.
    Increment { index: u8, delta: i8 },
    /// A local-variable index and a signed increment of two bytes each, read
    /// after a wide prefix.
    WideIncrement { index: u16, delta: i16 },
    /// A signed byte literal.
    Byte(i8),
    /// A signed short literal.
    Short(i16),
    /// The code of a primitive array type.
    ArrayType(u8),
    /// A constant-pool index of one byte.
    Pool8(u8),
    /// A constant-pool index of two bytes.
    Pool16(u16),
    /// A constant-pool index and a count of dimensions.
    MultiArray { index: u16, dimensions: u8 },
    /// A constant-pool index and an argument count.
    InterfaceCall { index: u16, count: u8 },
    /// A constant-pool index of a call site.
    DynamicCall { index: u16 },
    /// A branch offset of two bytes, relative to the instruction's address.
    Branch16(i16),
    /// A branch offset of four bytes, relative to the instruction's address.
    Branch32(i32),
    /// A jump table over the keys from `low` to `high`: `offsets` holds one
    /// branch offset for each key, in order.
    TableSwitch { default: i32, low: i32, high: i32, offsets: Vec<i32> },
    /// A jump table of pairs, each a key and the branch offset for it, in the
    /// order of the stream.
    LookupSwitch { default: i32, pairs: Vec<(i32, i32)> },
}

/// The mathematical value of an [`Operand`].
pub enum OperandView {
    Absent,
    Local(int),
    WideLocal(int),
    Increment { index: int, delta: int },
    WideIncrement { index: int, delta: int },
    Byte(int),
    Short(int),
    ArrayType(int),
    Pool8(int),
    Pool16(int),
    MultiArray { index: int, dimensions: int },
    InterfaceCall { index: int, count: int },
    DynamicCall { index: int },
    Branch16(int),
    Branch32(int),
    TableSwitch { default: int, low: int, high: int, offsets: Seq<int> },
    LookupSwitch { default: int, pairs: Seq<(int, int)> },
}

impl View for Operand {
    type V = OperandView;

    open spec fn view(&self) -> OperandView {
        match *self {
            Operand::Absent => OperandView::Absent,
            Operand::Local(index) => OperandView::Local(index as int),
            Operand::WideLocal(index) => OperandView::WideLocal(index as int),
            Operand::Increment { index, delta } => OperandView::Increment {
                index: index as int,
                delta: delta as int,
            },
            Operand::WideIncrement { index, delta } => OperandView::WideIncrement {
                index: index as int,
                delta: delta as int,
            },
            Operand::Byte(value) => OperandView::Byte(value as int),
            Operand::Short(value) => OperandView::Short(value as int),
            Operand::ArrayType(code) => OperandView::ArrayType(code as int),
            Operand::Pool8(index) => OperandView::Pool8(index as int),
            Operand::Pool16(index) => OperandView::Pool16(index as int),
            Operand::MultiArray { index, dimensions } => OperandView::MultiArray {
                index: index as int,
                dimensions: dimensions as int,
            },
            Operand::InterfaceCall { index, count } => OperandView::InterfaceCall {
                index: index as int,
                count: count as int,
            },
            Operand::DynamicCall { index } => OperandView::DynamicCall { index: index as int },
            Operand::Branch16(offset) => OperandView::Branch16(offset as int),
            Operand::Branch32(offset) => OperandView::Branch32(offset as int),
            Operand::TableSwitch { default, low, high, offsets } => OperandView::TableSwitch {
                default: default as int,
                low: low as int,
                high: high as int,
                offsets: Seq::new(offsets@.len(), |i: int| offsets@[i] as int),
            },
            Operand::LookupSwitch { default, pairs } => OperandView::LookupSwitch {
                default: default as int,
                pairs: Seq::new(pairs@.len(), |i: int| (pairs@[i].0 as int, pairs@[i].1 as int)),
            },
        }
    }
}

impl OperandView {
    /// The number of bytes that encode the operand of an instruction at
    /// `address`, the padding of a jump table included.
    pub open spec fn encoded_len(self, address: int) -> int {
        match self {
            OperandView::Absent => 0,
            OperandView::Local(_) => 1,
            OperandView::WideLocal(_) => 2,
            OperandView::Increment { .. } => 2,
            OperandView::WideIncrement { .. } => 4,
            OperandView::Byte(_) => 1,
            OperandView::Short(_) => 2,
            OperandView::ArrayType(_) => 1,
            OperandView::Pool8(_) => 1,
            OperandView::Pool16(_) => 2,
            OperandView::MultiArray { .. } => 3,
            OperandView::InterfaceCall { .. } => 4,
            OperandView::DynamicCall { .. } => 4,
            OperandView::Branch16(_) => 2,
            OperandView::Branch32(_) => 4,
            OperandView::TableSwitch { offsets, .. } => spec_switch_padding(address) + 12 + 4
                * offsets.len(),
            OperandView::LookupSwitch { pairs, .. } => spec_switch_padding(address) + 8 + 8
                * pairs.len(),
        }
    }

    /// Whether the keys of a lookup switch rise strictly from pair to pair.
    /// Every other operand has no keys, and none of them are out of order.
    pub open spec fn keys_ascending(self) -> bool {
        match self {
            OperandView::LookupSwitch { pairs, .. } => forall|i: int, j: int|
                0 <= i < j < pairs.len() ==> (#[trigger] pairs[i]).0 < (#[trigger] pairs[j]).0,
            _ => true,
        }
    }

    /// The branch offsets that the operand holds, in the order of the stream;
    /// the default offset of a jump table is not among them.
    pub open spec fn branch_offsets(self) -> Seq<int> {
        match self {
            OperandView::Branch16(offset) => seq![offset],
            OperandView::Branch32(offset) => seq![offset],
            OperandView::TableSwitch { offsets, .. } => offsets,
            OperandView::LookupSwitch { pairs, .. } => Seq::new(pairs.len(), |i: int| pairs[i].1),
            _ => Seq::empty(),
        }
    }
}

impl Operand {
    /// Whether the keys of a lookup switch rise strictly from pair to pair,
    /// as a well-formed table has them. The decoder takes the pairs as they
    /// come; this is for whoever wants to hold a table to the order.
    #[verifier::loop_isolation(false)]
    pub fn keys_ascending(&self) -> (ascending: bool)
        ensures
            ascending == self@.keys_ascending(),
    {
        match self {
            Operand::LookupSwitch { pairs, .. } => {
                let mut i: usize = 1;
                while i < pairs.len()
                    invariant
                        1 <= i,
                        forall|a: int, b: int|
                            0 <= a < b < i && b < pairs@.len() ==> (#[trigger] pairs@[a]).0 < (
                            #[trigger] pairs@[b]).0,
                    decreases pairs@.len() - i,
                {
                    if pairs[i - 1].0 >= pairs[i].0 {
                        proof {
                            let view = self@->LookupSwitch_pairs;
                            assert(view[i - 1].0 >= view[i as int].0);
                        }
                        return false;
                    }
                    proof {
                        assert forall|a: int, b: int| 0 <= a < b < i + 1 && b < pairs@.len() implies (
                        #[trigger] pairs@[a]).0 < (#[trigger] pairs@[b]).0 by {
                            if b == i && a < i - 1 {
                                assert(pairs@[a].0 < pairs@[i - 1].0);
                            }
                        }
                    }
                    i += 1;
                }
                proof {
                    let view = self@->LookupSwitch_pairs;
                    assert forall|a: int, b: int| 0 <= a < b < view.len() implies (
                    #[trigger] view[a]).0 < (#[trigger] view[b]).0 by {
                        assert(pairs@[a].0 < pairs@[b].0);
                    }
                }
                true
            },
            _ => true,
        }
    }

    /// The number of bytes that encode this operand of an instruction at
    /// `address`, the padding of a jump table included.
    pub fn encoded_len(&self, address: usize) -> (len: usize)
        requires
            self@.encoded_len(address as int) <= usize::MAX,
        ensures
            len == self@.encoded_len(address as int),
    {
        match self {
            Operand::Absent => 0,
            Operand::Local(_) | Operand::Byte(_) | Operand::ArrayType(_) | Operand::Pool8(_) => 1,
            Operand::WideLocal(_)
            | Operand::Increment { .. }
            | Operand::Short(_)
            | Operand::Pool16(_)
            | Operand::Branch16(_) => 2,
            Operand::MultiArray { .. } => 3,
            Operand::WideIncrement { .. }
            | Operand::InterfaceCall { .. }
            | Operand::DynamicCall { .. }
            | Operand::Branch32(_) => 4,
            Operand::TableSwitch { offsets, .. } => switch_padding(address) + 12 + 4
                * offsets.len(),
            Operand::LookupSwitch { pairs, .. } => switch_padding(address) + 8 + 8 * pairs.len(),
        }
    }
}

/// One decoded instruction.
#[derive(Debug, Clone, PartialEq, Eq)]
pub struct Instruction {
    /// The offset of the opcode byte from the start of the method body.
    pub address: usize,
    /// The opcode.
    pub opcode: Opcode,
    /// The operand.
    pub operand: Operand,
}

/// The mathematical value of an [`Instruction`].
pub struct InstructionView {
    pub address: int,
    pub opcode: Opcode,
    pub operand: OperandView,
}

impl View for Instruction {
    type V = InstructionView;

    open spec fn view(&self) -> InstructionView {
        InstructionView {
            address: self.address as int,
            opcode: self.opcode,
            operand: self.operand@,
        }
    }
}

impl InstructionView {
    /// The number of bytes that encode the instruction: the opcode byte and
    /// the operand.
    pub open spec fn encoded_len(self) -> int {
        1 + self.operand.encoded_len(self.address)
    }

    /// The address of the byte after the instruction.
    pub open spec fn end(self) -> int {
        self.address + self.encoded_len()
    }
}

impl Instruction {
    /// The number of bytes that encode this instruction: the opcode byte and
    /// the operand, the padding of a jump table included.
    pub fn encoded_len(&self) -> (len: usize)
        requires
            self@.encoded_len() <= usize::MAX,
        ensures
            len == self@.encoded_len(),
            len >= 1,
    {
        1 + self.operand.encoded_len(self.address)
    }

    /// The targets of the branch offsets that the operand holds, in the
    /// order of the stream: each is the address of this instruction plus the
    /// offset, or nothing where that sum is no address. The default offset of
    /// a jump table is not among them.
    pub fn branch_targets(&self) -> (targets: Vec<Option<usize>>)
        ensures
            targets@.len() == self@.operand.branch_offsets().len(),
            forall|i: int|
                0 <= i < targets@.len() ==> #[trigger] targets@[i] == spec_branch_target(
                    self@.address,
                    self@.operand.branch_offsets()[i],
                ),
    {
        let mut targets: Vec<Option<usize>> = Vec::new();
        match &self.operand {
            Operand::Branch16(offset) => {
                let wide: i32 = *offset as i32;
                targets.push(branch_target(self.address, wide));
            },
            Operand::Branch32(offset) => {
                targets.push(branch_target(self.address, *offset));
            },
            Operand::TableSwitch { offsets, .. } => {
                let mut i: usize = 0;
                while i < offsets.len()
                    invariant
                        i <= offsets@.len(),
                        targets@.len() == i,
                        forall|j: int|
                            0 <= j < i ==> #[trigger] targets@[j] == spec_branch_target(
                                self.address as int,
                                offsets@[j] as int,
                            ),
                    decreases offsets@.len() - i,
                {
                    targets.push(branch_target(self.address, offsets[i]));
                    i += 1;
                }
            },
            Operand::LookupSwitch { pairs, .. } => {
                let mut i: usize = 0;
                while i < pairs.len()
                    invariant
                        i <= pairs@.len(),
                        targets@.len() == i,
                        forall|j: int|
                            0 <= j < i ==> #[trigger] targets@[j] == spec_branch_target(
                                self.address as int,
                                pairs@[j].1 as int,
                            ),
                    decreases pairs@.len() - i,
                {
                    targets.push(branch_target(self.address, pairs[i].1));
                    i += 1;
                }
            },
            _ => {},
        }
        targets
    }
}

/// An error of the decoder and the address at which it occurred.
#[derive(Debug, Clone, Copy, PartialEq, Eq, Structural)]
pub struct DecodeError {
    /// What went wrong.
    pub error: Error,
    /// The address of the instruction that could not be decoded.
    pub address: usize,
}

/// The mathematical value of a [`DecodeError`].
pub struct DecodeErrorView {
    pub error: Error,
    pub address: int,
}

impl View for DecodeError {
    type V = DecodeErrorView;

    open spec fn view(&self) -> DecodeErrorView {
        DecodeErrorView { error: self.error, address: self.address as int }
    }
}

/// The address that lies `offset` bytes from `address`, if it is an address.
pub open spec fn spec_branch_target(address: int, offset: int) -> Option<usize> {
    if 0 <= address + offset <= usize::MAX {
        Some((address + offset) as usize)
    } else {
        None
    }
}

/// The target of a branch: the address that lies `offset` bytes from
/// `address`, the address of the branching instruction. There is none where
/// the sum is negative or beyond the largest address.
pub fn branch_target(address: usize, offset: i32) -> (target: Option<usize>)
    ensures
        target == spec_branch_target(address as int, offset as int),
        target matches Some(t) ==> t == address + offset,
        target is None <==> address + offset < 0 || address + offset > usize::MAX,
{
    if offset >= 0 {
        let forward: usize = offset as usize;
        if forward <= usize::MAX - address {
            Some(address + forward)
        } else {
            None
        }
    } else {
        let backward: u64 = (-(offset as i64)) as u64;
        if backward <= address as u64 {
            Some(address - backward as usize)
        } else {
            None
        }
    }
}

} // verus!
