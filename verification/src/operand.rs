//! Reading the operand of one instruction from the stream.

use crate::endian::{be_i16, be_i32, be_i8, be_u16, be_u32, read_i16, read_i32, read_i8, read_u16,
    read_u32};
use crate::instruction::{Operand, OperandView};
use crate::opcodes::Error;
use crate::shape::{spec_switch_padding, switch_padding, OperandRule, ShapeClass};
use vstd::prelude::*;

verus! {

/// The operand that `rule` reads at `at`, where at least
/// `rule.operand_len(wide)` bytes stand. Neither jump table is read here.
pub open spec fn spec_fixed_operand(bytes: Seq<u8>, at: int, rule: OperandRule, wide: bool)
    -> OperandView {
    match rule {
        OperandRule::LocalIndex => if wide {
            OperandView::WideLocal(be_u16(bytes, at))
        } else {
            OperandView::Local(bytes[at] as int)
        },
        OperandRule::LocalIncrement => if wide {
            OperandView::WideIncrement { index: be_u16(bytes, at), delta: be_i16(bytes, at + 2) }
        } else {
            OperandView::Increment { index: bytes[at] as int, delta: be_i8(bytes, at + 1) }
        },
        OperandRule::SignedByte => OperandView::Byte(be_i8(bytes, at)),
        OperandRule::SignedShort => OperandView::Short(be_i16(bytes, at)),
        OperandRule::ArrayType => OperandView::ArrayType(bytes[at] as int),
        OperandRule::PoolIndex8 => OperandView::Pool8(bytes[at] as int),
        OperandRule::PoolIndex16 => OperandView::Pool16(be_u16(bytes, at)),
        OperandRule::MultiArray => OperandView::MultiArray {
            index: be_u16(bytes, at),
            dimensions: bytes[at + 2] as int,
        },
        OperandRule::InterfaceCall => OperandView::InterfaceCall {
            index: be_u16(bytes, at),
            count: bytes[at + 2] as int,
        },
        OperandRule::DynamicCall => OperandView::DynamicCall { index: be_u16(bytes, at) },
        OperandRule::Branch16 => OperandView::Branch16(be_i16(bytes, at)),
        OperandRule::Branch32 => OperandView::Branch32(be_i32(bytes, at)),
        _ => OperandView::Absent,
    }
}

/// The operand of a table switch at `address` whose operand bytes begin at
/// `at`, or why there is none.
///
/// After the padding stand the default offset, the low and the high bound,
/// and one offset for each key from low to high. The bytes of the padding
/// are not looked at.
pub open spec fn spec_table_switch(bytes: Seq<u8>, address: int, at: int) -> Result<
    OperandView,
    Error,
> {
    let fields = at + spec_switch_padding(address);
    if bytes.len() < fields + 12 {
        Err(Error::TruncatedInstruction)
    } else {
        let low = be_i32(bytes, fields + 4);
        let high = be_i32(bytes, fields + 8);
        if low > high {
            Err(Error::InvalidSwitchRange)
        } else if bytes.len() < fields + 12 + 4 * (high - low + 1) {
            Err(Error::TruncatedInstruction)
        } else {
            Ok(
                OperandView::TableSwitch {
                    default: be_i32(bytes, fields),
                    low,
                    high,
                    offsets: Seq::new(
                        (high - low + 1) as nat,
                        |i: int| be_i32(bytes, fields + 12 + 4 * i),
                    ),
                },
            )
        }
    }
}

/// The operand of a lookup switch at `address` whose operand bytes begin at
/// `at`, or why there is none.
///
/// After the padding stand the default offset, the unsigned number of pairs,
/// and the pairs, each a key and an offset. The keys are taken as they come,
/// in whatever order.
pub open spec fn spec_lookup_switch(bytes: Seq<u8>, address: int, at: int) -> Result<
    OperandView,
    Error,
> {
    let fields = at + spec_switch_padding(address);
    if bytes.len() < fields + 8 {
        Err(Error::TruncatedInstruction)
    } else {
        let count = be_u32(bytes, fields + 4);
        if bytes.len() < fields + 8 + 8 * count {
            Err(Error::TruncatedInstruction)
        } else {
            Ok(
                OperandView::LookupSwitch {
                    default: be_i32(bytes, fields),
                    pairs: Seq::new(
                        count as nat,
                        |i: int|
                            (be_i32(bytes, fields + 8 + 8 * i), be_i32(bytes, fields + 12 + 8 * i)),
                    ),
                },
            )
        }
    }
}

/// The operand that `rule` reads for an instruction at `address` whose
/// operand bytes begin at `at`, widened where `wide` is set, or why there is
/// none: too few bytes remain, or a table switch has its bounds in the wrong
/// order.
pub open spec fn spec_read_operand(
    bytes: Seq<u8>,
    address: int,
    at: int,
    rule: OperandRule,
    wide: bool,
) -> Result<OperandView, Error> {
    match rule {
        OperandRule::TableSwitch => spec_table_switch(bytes, address, at),
        OperandRule::LookupSwitch => spec_lookup_switch(bytes, address, at),
        _ => if bytes.len() - at < rule.operand_len(wide) {
            Err(Error::TruncatedInstruction)
        } else {
            Ok(spec_fixed_operand(bytes, at, rule, wide))
        },
    }
}

/// The view of what a read of an operand gave.
pub open spec fn operand_result_view(result: Result<Operand, Error>) -> Result<
    OperandView,
    Error,
> {
    match result {
        Ok(operand) => Ok(operand@),
        Err(error) => Err(error),
    }
}

/// An operand that was read takes as many bytes as its rule says, and those
/// bytes lie within the stream.
pub proof fn lemma_operand_len(bytes: Seq<u8>, address: int, at: int, rule: OperandRule, wide: bool)
    requires
        0 <= at <= bytes.len(),
    ensures
        spec_read_operand(bytes, address, at, rule, wide) matches Ok(operand) ==> {
            &&& 0 <= operand.encoded_len(address)
            &&& at + operand.encoded_len(address) <= bytes.len()
            &&& rule.class() != ShapeClass::Variable ==> operand.encoded_len(address)
                == rule.operand_len(wide)
        },
{
}

/// Reads an operand of fixed length.
fn read_fixed_operand(bytes: &[u8], at: usize, rule: OperandRule, wide: bool) -> (operand: Operand)
    requires
        rule.class() != ShapeClass::Variable,
        at + rule.operand_len(wide) <= bytes.len(),
    ensures
        operand@ == spec_fixed_operand(bytes@, at as int, rule, wide),
{
    match rule {
        OperandRule::LocalIndex => if wide {
            Operand::WideLocal(read_u16(bytes, at))
        } else {
            Operand::Local(bytes[at])
        },
        OperandRule::LocalIncrement => if wide {
            Operand::WideIncrement { index: read_u16(bytes, at), delta: read_i16(bytes, at + 2) }
        } else {
            Operand::Increment { index: bytes[at], delta: read_i8(bytes, at + 1) }
        },
        OperandRule::SignedByte => Operand::Byte(read_i8(bytes, at)),
        OperandRule::SignedShort => Operand::Short(read_i16(bytes, at)),
        OperandRule::ArrayType => Operand::ArrayType(bytes[at]),
        OperandRule::PoolIndex8 => Operand::Pool8(bytes[at]),
        OperandRule::PoolIndex16 => Operand::Pool16(read_u16(bytes, at)),
        OperandRule::MultiArray => Operand::MultiArray {
            index: read_u16(bytes, at),
            dimensions: bytes[at + 2],
        },
        OperandRule::InterfaceCall => Operand::InterfaceCall {
            index: read_u16(bytes, at),
            count: bytes[at + 2],
        },
        OperandRule::DynamicCall => Operand::DynamicCall { index: read_u16(bytes, at) },
        OperandRule::Branch16 => Operand::Branch16(read_i16(bytes, at)),
        OperandRule::Branch32 => Operand::Branch32(read_i32(bytes, at)),
        _ => Operand::Absent,
    }
}

/// Reads the operand of a table switch at `address`.
fn read_table_switch(bytes: &[u8], address: usize, at: usize) -> (result: Result<Operand, Error>)
    requires
        at <= bytes.len(),
    ensures
        operand_result_view(result) == spec_table_switch(bytes@, address as int, at as int),
{
    let padding: usize = switch_padding(address);
    let remaining: usize = bytes.len() - at;
    if remaining < padding + 12 {
        return Err(Error::TruncatedInstruction);
    }
    let fields: usize = at + padding;
    let default: i32 = read_i32(bytes, fields);
    let low: i32 = read_i32(bytes, fields + 4);
    let high: i32 = read_i32(bytes, fields + 8);
    if low > high {
        return Err(Error::InvalidSwitchRange);
    }
    let wanted: u64 = (high as i64 - low as i64 + 1) as u64;
    let available: usize = remaining - padding - 12;
    if ((available / 4) as u64) < wanted {
        return Err(Error::TruncatedInstruction);
    }
    let count: usize = wanted as usize;
    let table: usize = fields + 12;
    let mut offsets: Vec<i32> = Vec::new();
    let mut i: usize = 0;
    while i < count
        invariant
            i <= count,
            table + 4 * count <= bytes.len(),
            offsets@.len() == i,
            forall|j: int| 0 <= j < i ==> offsets@[j] as int == be_i32(bytes@, table + 4 * j),
        decreases count - i,
    {
        offsets.push(read_i32(bytes, table + 4 * i));
        i += 1;
    }
    let operand = Operand::TableSwitch { default, low, high, offsets };
    proof {
        let expected = spec_table_switch(bytes@, address as int, at as int);
        assert(expected is Ok);
        assert(operand@->TableSwitch_offsets =~= expected->Ok_0->TableSwitch_offsets);
    }
    Ok(operand)
}

/// Reads the operand of a lookup switch at `address`.
fn read_lookup_switch(bytes: &[u8], address: usize, at: usize) -> (result: Result<Operand, Error>)
    requires
        at <= bytes.len(),
    ensures
        operand_result_view(result) == spec_lookup_switch(bytes@, address as int, at as int),
{
    let padding: usize = switch_padding(address);
    let remaining: usize = bytes.len() - at;
    if remaining < padding + 8 {
        return Err(Error::TruncatedInstruction);
    }
    let fields: usize = at + padding;
    let default: i32 = read_i32(bytes, fields);
    let wanted: u32 = read_u32(bytes, fields + 4);
    let available: usize = remaining - padding - 8;
    if ((available / 8) as u64) < wanted as u64 {
        return Err(Error::TruncatedInstruction);
    }
    let count: usize = wanted as usize;
    let list: usize = fields + 8;
    let mut pairs: Vec<(i32, i32)> = Vec::new();
    let mut i: usize = 0;
    while i < count
        invariant
            i <= count,
            list + 8 * count <= bytes.len(),
            pairs@.len() == i,
            forall|j: int|
                0 <= j < i ==> pairs@[j].0 as int == be_i32(bytes@, list + 8 * j)
                    && pairs@[j].1 as int == be_i32(bytes@, list + 4 + 8 * j),
        decreases count - i,
    {
        let key: i32 = read_i32(bytes, list + 8 * i);
        let offset: i32 = read_i32(bytes, list + 8 * i + 4);
        pairs.push((key, offset));
        i += 1;
    }
    let operand = Operand::LookupSwitch { default, pairs };
    proof {
        let expected = spec_lookup_switch(bytes@, address as int, at as int);
        assert(expected is Ok);
        assert(operand@->LookupSwitch_pairs =~= expected->Ok_0->LookupSwitch_pairs);
    }
    Ok(operand)
}

/// Reads the operand that `rule` asks for, for an instruction at `address`
/// whose operand bytes begin at index `at` of `bytes`; `wide` says that a
/// wide prefix stands in front of the instruction.
///
/// It fails with `TruncatedInstruction` where fewer bytes remain than the
/// operand takes, or `at` lies behind the stream, and with
/// `InvalidSwitchRange` where a table switch has a low bound above its high
/// bound. An operand that was read ends within the stream.
pub fn read_operand(
    bytes: &[u8],
    address: usize,
    at: usize,
    rule: OperandRule,
    wide: bool,
) -> (result: Result<Operand, Error>)
    ensures
        operand_result_view(result) == spec_read_operand(
            bytes@,
            address as int,
            at as int,
            rule,
            wide,
        ),
        result matches Ok(operand) ==> 0 <= operand@.encoded_len(address as int) && at
            + operand@.encoded_len(address as int) <= bytes.len(),
        result matches Err(error) ==> error == Error::TruncatedInstruction || (error
            == Error::InvalidSwitchRange && rule == OperandRule::TableSwitch),
{
    if at > bytes.len() {
        return Err(Error::TruncatedInstruction);
    }
    proof {
        lemma_operand_len(bytes@, address as int, at as int, rule, wide);
    }
    match rule {
        OperandRule::TableSwitch => read_table_switch(bytes, address, at),
        OperandRule::LookupSwitch => read_lookup_switch(bytes, address, at),
        _ => {
            let needed: usize = if wide && rule.class() == ShapeClass::WideEligible {
                2 * rule.fixed_size()
            } else {
                rule.fixed_size()
            };
            if bytes.len() - at < needed {
                Err(Error::TruncatedInstruction)
            } else {
                Ok(read_fixed_operand(bytes, at, rule, wide))
            }
        },
    }
}

} // verus!
