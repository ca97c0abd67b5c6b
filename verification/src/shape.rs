//! Operand shapes: how many bytes follow each opcode and how they are read.

use crate::opcodes::Opcode;
use vstd::prelude::*;

verus! {

/// How the operand bytes of an opcode are read.
#[derive(Debug, Clone, Copy, PartialEq, Eq, Structural)]
pub enum OperandRule {
    /// No operand bytes.
    Nothing,
    /// An unsigned local-variable index: one byte, two after a wide prefix.
    LocalIndex,
    /// A local-variable index and a signed increment: one byte each, two
    /// each after a wide prefix.
    LocalIncrement,
    /// One signed byte.
    SignedByte,
    /// One signed big-endian short.
    SignedShort,
    /// One byte that names a primitive array type.
    ArrayType,
    /// A one-byte index into the constant pool.
    PoolIndex8,
    /// A two-byte index into the constant pool.
    PoolIndex16,
    /// A two-byte index into the constant pool and a count of dimensions.
    MultiArray,
    /// A two-byte index into the constant pool, an argument count and one
    /// byte that is not read.
    InterfaceCall,
    /// A two-byte index into the constant pool and two bytes that are not
    /// read.
    DynamicCall,
    /// A signed two-byte branch offset.
    Branch16,
    /// A signed four-byte branch offset.
    Branch32,
    /// Padding, a default offset, a low and a high bound, and one offset for
    /// each key from low to high.
    TableSwitch,
    /// Padding, a default offset, a pair count, and that many pairs of a key
    /// and an offset.
    LookupSwitch,
}

/// The four classes of operand shape.
#[derive(Debug, Clone, Copy, PartialEq, Eq, Structural)]
pub enum ShapeClass {
    /// No operand bytes follow the opcode.
    FixedZero,
    /// The same number of operand bytes, from one to four, always follows.
    FixedN,
    /// The number of operand bytes depends on the address of the instruction
    /// and on the operand itself.
    Variable,
    /// A fixed number of operand bytes that a wide prefix doubles.
    WideEligible,
}

impl OperandRule {
    /// The class of this rule.
    pub open spec fn spec_class(self) -> ShapeClass {
        match self {
            OperandRule::Nothing => ShapeClass::FixedZero,
            OperandRule::LocalIndex | OperandRule::LocalIncrement => ShapeClass::WideEligible,
            OperandRule::TableSwitch | OperandRule::LookupSwitch => ShapeClass::Variable,
            _ => ShapeClass::FixedN,
        }
    }

    /// The class of this rule.
    #[verifier::when_used_as_spec(spec_class)]
    pub fn class(self) -> (class: ShapeClass)
        ensures
            class == self.spec_class(),
    {
        match self {
            OperandRule::Nothing => ShapeClass::FixedZero,
            OperandRule::LocalIndex | OperandRule::LocalIncrement => ShapeClass::WideEligible,
            OperandRule::TableSwitch | OperandRule::LookupSwitch => ShapeClass::Variable,
            _ => ShapeClass::FixedN,
        }
    }

    /// The number of operand bytes that the rule reads without a wide
    /// prefix. For the two jump tables this counts only the fields of fixed
    /// layout that follow the padding: the default offset and the bounds, or
    /// the default offset and the pair count.
    pub open spec fn fixed_len(self) -> nat {
        match self {
            OperandRule::Nothing => 0,
            OperandRule::LocalIndex => 1,
            OperandRule::LocalIncrement => 2,
            OperandRule::SignedByte => 1,
            OperandRule::SignedShort => 2,
            OperandRule::ArrayType => 1,
            OperandRule::PoolIndex8 => 1,
            OperandRule::PoolIndex16 => 2,
            OperandRule::MultiArray => 3,
            OperandRule::InterfaceCall => 4,
            OperandRule::DynamicCall => 4,
            OperandRule::Branch16 => 2,
            OperandRule::Branch32 => 4,
            OperandRule::TableSwitch => 12,
            OperandRule::LookupSwitch => 8,
        }
    }

    /// The number of operand bytes that the rule reads without a wide
    /// prefix; of a jump table, the fields of fixed layout.
    pub fn fixed_size(self) -> (size: usize)
        ensures
            size == self.fixed_len(),
    {
        match self {
            OperandRule::Nothing => 0,
            OperandRule::LocalIndex
            | OperandRule::SignedByte
            | OperandRule::ArrayType
            | OperandRule::PoolIndex8 => 1,
            OperandRule::LocalIncrement
            | OperandRule::SignedShort
            | OperandRule::PoolIndex16
            | OperandRule::Branch16 => 2,
            OperandRule::MultiArray => 3,
            OperandRule::InterfaceCall | OperandRule::DynamicCall | OperandRule::Branch32 => 4,
            OperandRule::LookupSwitch => 8,
            OperandRule::TableSwitch => 12,
        }
    }

    /// The number of operand bytes that the rule reads, after a wide prefix
    /// where `wide` is set. The prefix doubles the bytes of a rule that it
    /// can widen and leaves every other rule as it is.
    pub open spec fn operand_len(self, wide: bool) -> nat {
        if wide && self.class() == ShapeClass::WideEligible {
            2 * self.fixed_len()
        } else {
            self.fixed_len()
        }
    }
}

impl Opcode {
    /// How the operand bytes of this opcode are read.
    pub open spec fn spec_operand_rule(self) -> OperandRule {
        match self {
            Opcode::BIPush => OperandRule::SignedByte,
            Opcode::SIPush => OperandRule::SignedShort,
            Opcode::Ldc => OperandRule::PoolIndex8,
            Opcode::LdcW | Opcode::Ldc2W | Opcode::GetStatic | Opcode::PutStatic
            | Opcode::GetField | Opcode::PutField | Opcode::InvokeVirtual
            | Opcode::InvokeSpecial | Opcode::InvokeStatic | Opcode::New | Opcode::ANewArray
            | Opcode::CheckCast | Opcode::InstanceOf => OperandRule::PoolIndex16,
            Opcode::ILoad | Opcode::LLoad | Opcode::FLoad | Opcode::DLoad | Opcode::ALoad
            | Opcode::IStore | Opcode::LStore | Opcode::FStore | Opcode::DStore | Opcode::AStore
            | Opcode::Ret => OperandRule::LocalIndex,
            Opcode::IInc => OperandRule::LocalIncrement,
            Opcode::IfEq | Opcode::IfNe | Opcode::IfLt | Opcode::IfGe | Opcode::IfGt
            | Opcode::IfLe | Opcode::IfICmpEq | Opcode::IfICmpNe | Opcode::IfICmpLt
            | Opcode::IfICmpGe | Opcode::IfICmpGt | Opcode::IfICmpLe | Opcode::IfACmpEq
            | Opcode::IfACmpNe | Opcode::Goto | Opcode::Jsr | Opcode::IfNull
            | Opcode::IfNonNull => OperandRule::Branch16,
            Opcode::TableSwitch => OperandRule::TableSwitch,
            Opcode::LookupSwitch => OperandRule::LookupSwitch,
            Opcode::InvokeInterface => OperandRule::InterfaceCall,
            Opcode::InvokeDynamic => OperandRule::DynamicCall,
            Opcode::NewArray => OperandRule::ArrayType,
            Opcode::MultiANewArray => OperandRule::MultiArray,
            Opcode::GotoW | Opcode::JsrW => OperandRule::Branch32,
            _ => OperandRule::Nothing,
        }
    }

    /// How the operand bytes of this opcode are read.
    #[verifier::when_used_as_spec(spec_operand_rule)]
    pub fn operand_rule(self) -> (rule: OperandRule)
        ensures
            rule == self.spec_operand_rule(),
    {
        match self {
            Opcode::BIPush => OperandRule::SignedByte,
            Opcode::SIPush => OperandRule::SignedShort,
            Opcode::Ldc => OperandRule::PoolIndex8,
            Opcode::LdcW | Opcode::Ldc2W | Opcode::GetStatic | Opcode::PutStatic
            | Opcode::GetField | Opcode::PutField | Opcode::InvokeVirtual
            | Opcode::InvokeSpecial | Opcode::InvokeStatic | Opcode::New | Opcode::ANewArray
            | Opcode::CheckCast | Opcode::InstanceOf => OperandRule::PoolIndex16,
            Opcode::ILoad | Opcode::LLoad | Opcode::FLoad | Opcode::DLoad | Opcode::ALoad
            | Opcode::IStore | Opcode::LStore | Opcode::FStore | Opcode::DStore | Opcode::AStore
            | Opcode::Ret => OperandRule::LocalIndex,
            Opcode::IInc => OperandRule::LocalIncrement,
            Opcode::IfEq | Opcode::IfNe | Opcode::IfLt | Opcode::IfGe | Opcode::IfGt
            | Opcode::IfLe | Opcode::IfICmpEq | Opcode::IfICmpNe | Opcode::IfICmpLt
            | Opcode::IfICmpGe | Opcode::IfICmpGt | Opcode::IfICmpLe | Opcode::IfACmpEq
            | Opcode::IfACmpNe | Opcode::Goto | Opcode::Jsr | Opcode::IfNull
            | Opcode::IfNonNull => OperandRule::Branch16,
            Opcode::TableSwitch => OperandRule::TableSwitch,
            Opcode::LookupSwitch => OperandRule::LookupSwitch,
            Opcode::InvokeInterface => OperandRule::InterfaceCall,
            Opcode::InvokeDynamic => OperandRule::DynamicCall,
            Opcode::NewArray => OperandRule::ArrayType,
            Opcode::MultiANewArray => OperandRule::MultiArray,
            Opcode::GotoW | Opcode::JsrW => OperandRule::Branch32,
            _ => OperandRule::Nothing,
        }
    }

    /// The class of operand shape of this opcode.
    pub open spec fn spec_shape_class(self) -> ShapeClass {
        self.operand_rule().class()
    }

    /// The class of operand shape of this opcode.
    #[verifier::when_used_as_spec(spec_shape_class)]
    pub fn shape_class(self) -> (class: ShapeClass)
        ensures
            class == self.spec_shape_class(),
    {
        self.operand_rule().class()
    }

    /// Whether a wide prefix may stand in front of this opcode.
    pub open spec fn spec_is_wide_eligible(self) -> bool {
        self.shape_class() == ShapeClass::WideEligible
    }

    /// Whether a wide prefix may stand in front of this opcode.
    #[verifier::when_used_as_spec(spec_is_wide_eligible)]
    pub fn is_wide_eligible(self) -> (eligible: bool)
        ensures
            eligible == self.spec_is_wide_eligible(),
    {
        self.shape_class() == ShapeClass::WideEligible
    }

    /// The number of operand bytes that follow this opcode when no wide
    /// prefix stands in front of it: from 0 to 4. The two jump tables have
    /// no such number; for them it gives the size of the fields of fixed
    /// layout that follow the padding, 12 and 8 bytes.
    pub fn parameter_size(&self) -> (size: usize)
        ensures
            size == self.operand_rule().fixed_len(),
            self.shape_class() != ShapeClass::Variable ==> size <= 4,
            size == 0 <==> self.shape_class() == ShapeClass::FixedZero,
    {
        self.operand_rule().fixed_size()
    }

    /// The number of operand bytes that follow this opcode when a wide prefix
    /// stands in front of it, if the prefix can widen it.
    pub fn widened_parameter_size(&self) -> (size: Option<usize>)
        ensures
            size is Some <==> self.is_wide_eligible(),
            size matches Some(n) ==> n == 2 * self.operand_rule().fixed_len() && n
                == self.operand_rule().operand_len(true),
    {
        match self.operand_rule() {
            OperandRule::LocalIndex => Some(2),
            OperandRule::LocalIncrement => Some(4),
            _ => None,
        }
    }
}

/// The number of padding bytes between a jump-table opcode at `address` and
/// its first four-byte field, which stands at the next multiple of four.
pub open spec fn spec_switch_padding(address: int) -> int {
    (4 - ((address + 1) % 4)) % 4
}

/// The number of padding bytes between a jump-table opcode at `address` and
/// its first four-byte field: 3, 2, 1 or 0 where `address` leaves the
/// remainder 0, 1, 2 or 3 on division by four.
pub fn switch_padding(address: usize) -> (padding: usize)
    ensures
        padding == spec_switch_padding(address as int),
        padding == 3 - address % 4,
        (address + 1 + padding) % 4 == 0,
{
    3 - address % 4
}

/// The padding depends on the address modulo four alone, and brings the byte
/// after it to a multiple of four.
pub proof fn lemma_switch_padding(address: int)
    ensures
        address % 4 == 0 ==> spec_switch_padding(address) == 3,
        address % 4 == 1 ==> spec_switch_padding(address) == 2,
        address % 4 == 2 ==> spec_switch_padding(address) == 1,
        address % 4 == 3 ==> spec_switch_padding(address) == 0,
        (address + 1 + spec_switch_padding(address)) % 4 == 0,
        spec_switch_padding(address) == spec_switch_padding(address % 4),
{
}

} // verus!
