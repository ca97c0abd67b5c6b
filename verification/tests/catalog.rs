use jvm::opcodes::{Error, Opcode};
use jvm::shape::{switch_padding, OperandRule, ShapeClass};

#[test]
fn every_defined_byte_round_trips() {
    let mut defined = 0;
    for byte in 0..=255u8 {
        if let Ok(opcode) = Opcode::try_from(byte) {
            assert_eq!(opcode.numeric_value(), byte);
            defined += 1;
        }
    }
    assert_eq!(defined, 205);
}

#[test]
fn reserved_bytes_are_unknown() {
    for byte in 0xcb..=0xfdu8 {
        assert_eq!(Opcode::try_from(byte), Err(Error::UnknownOpcode(byte)));
    }
    assert_eq!(Opcode::try_from(0xca), Ok(Opcode::Breakpoint));
    assert_eq!(Opcode::try_from(0xfe), Ok(Opcode::ImpDep1));
    assert_eq!(Opcode::try_from(0xff), Ok(Opcode::ImpDep2));
}

#[test]
fn known_values() {
    assert_eq!(Opcode::try_from(0x00), Ok(Opcode::Nop));
    assert_eq!(Opcode::try_from(0x32), Ok(Opcode::AALoad));
    assert_eq!(Opcode::try_from(0x19), Ok(Opcode::ALoad));
    assert_eq!(Opcode::try_from(0x60), Ok(Opcode::IAdd));
    assert_eq!(Opcode::try_from(0xaa), Ok(Opcode::TableSwitch));
    assert_eq!(Opcode::try_from(0xab), Ok(Opcode::LookupSwitch));
    assert_eq!(Opcode::try_from(0xc4), Ok(Opcode::Wide));
    assert_eq!(Opcode::IAdd.numeric_value(), 0x60);
    assert_eq!(Opcode::Wide.numeric_value(), 0xc4);
    assert_eq!(Opcode::GotoW.numeric_value(), 0xc8);
}

#[test]
fn parameter_sizes() {
    assert_eq!(Opcode::IConst0.parameter_size(), 0);
    assert_eq!(Opcode::IConst1.parameter_size(), 0);
    assert_eq!(Opcode::IConst2.parameter_size(), 0);
    assert_eq!(Opcode::IConst3.parameter_size(), 0);
    assert_eq!(Opcode::IConst4.parameter_size(), 0);
    assert_eq!(Opcode::IAdd.parameter_size(), 0);
    assert_eq!(Opcode::Wide.parameter_size(), 0);
    assert_eq!(Opcode::BIPush.parameter_size(), 1);
    assert_eq!(Opcode::ILoad.parameter_size(), 1);
    assert_eq!(Opcode::SIPush.parameter_size(), 2);
    assert_eq!(Opcode::IInc.parameter_size(), 2);
    assert_eq!(Opcode::Goto.parameter_size(), 2);
    assert_eq!(Opcode::MultiANewArray.parameter_size(), 3);
    assert_eq!(Opcode::InvokeInterface.parameter_size(), 4);
    assert_eq!(Opcode::InvokeDynamic.parameter_size(), 4);
    assert_eq!(Opcode::GotoW.parameter_size(), 4);
    assert_eq!(Opcode::TableSwitch.parameter_size(), 12);
    assert_eq!(Opcode::LookupSwitch.parameter_size(), 8);
}

#[test]
fn fixed_shapes_take_at_most_four_bytes() {
    for byte in 0..=255u8 {
        if let Ok(opcode) = Opcode::try_from(byte) {
            let size = opcode.parameter_size();
            match opcode.shape_class() {
                ShapeClass::FixedZero => assert_eq!(size, 0),
                ShapeClass::FixedN => assert!(1 <= size && size <= 4),
                ShapeClass::WideEligible => {
                    assert!(size == 1 || size == 2);
                    assert_eq!(opcode.widened_parameter_size(), Some(2 * size));
                }
                ShapeClass::Variable => {
                    assert!(opcode == Opcode::TableSwitch || opcode == Opcode::LookupSwitch)
                }
            }
            assert_eq!(opcode.is_wide_eligible(), opcode.shape_class() == ShapeClass::WideEligible);
            if !opcode.is_wide_eligible() {
                assert_eq!(opcode.widened_parameter_size(), None);
            }
        }
    }
}

#[test]
fn wide_eligible_opcodes() {
    let eligible = [
        Opcode::ILoad,
        Opcode::LLoad,
        Opcode::FLoad,
        Opcode::DLoad,
        Opcode::ALoad,
        Opcode::IStore,
        Opcode::LStore,
        Opcode::FStore,
        Opcode::DStore,
        Opcode::AStore,
        Opcode::Ret,
        Opcode::IInc,
    ];
    let mut count = 0;
    for byte in 0..=255u8 {
        if let Ok(opcode) = Opcode::try_from(byte) {
            if opcode.is_wide_eligible() {
                assert!(eligible.contains(&opcode));
                count += 1;
            }
        }
    }
    assert_eq!(count, eligible.len());
    assert_eq!(Opcode::IInc.widened_parameter_size(), Some(4));
    assert_eq!(Opcode::ILoad.widened_parameter_size(), Some(2));
    assert_eq!(Opcode::Wide.widened_parameter_size(), None);
}

#[test]
fn operand_rules() {
    assert_eq!(Opcode::Nop.operand_rule(), OperandRule::Nothing);
    assert_eq!(Opcode::BIPush.operand_rule(), OperandRule::SignedByte);
    assert_eq!(Opcode::SIPush.operand_rule(), OperandRule::SignedShort);
    assert_eq!(Opcode::Ldc.operand_rule(), OperandRule::PoolIndex8);
    assert_eq!(Opcode::LdcW.operand_rule(), OperandRule::PoolIndex16);
    assert_eq!(Opcode::Ldc2W.operand_rule(), OperandRule::PoolIndex16);
    assert_eq!(Opcode::NewArray.operand_rule(), OperandRule::ArrayType);
    assert_eq!(Opcode::ANewArray.operand_rule(), OperandRule::PoolIndex16);
    assert_eq!(Opcode::IfICmpEq.operand_rule(), OperandRule::Branch16);
    assert_eq!(Opcode::IfNonNull.operand_rule(), OperandRule::Branch16);
    assert_eq!(Opcode::JsrW.operand_rule(), OperandRule::Branch32);
    assert_eq!(Opcode::Ret.operand_rule(), OperandRule::LocalIndex);
    assert_eq!(Opcode::IInc.operand_rule(), OperandRule::LocalIncrement);
    assert_eq!(Opcode::InvokeInterface.operand_rule(), OperandRule::InterfaceCall);
    assert_eq!(Opcode::InvokeDynamic.operand_rule(), OperandRule::DynamicCall);
    assert_eq!(Opcode::MultiANewArray.operand_rule(), OperandRule::MultiArray);
    assert_eq!(Opcode::TableSwitch.operand_rule(), OperandRule::TableSwitch);
    assert_eq!(Opcode::LookupSwitch.operand_rule(), OperandRule::LookupSwitch);
    assert_eq!(Opcode::Wide.operand_rule(), OperandRule::Nothing);
    assert_eq!(OperandRule::Nothing.class(), ShapeClass::FixedZero);
    assert_eq!(OperandRule::Branch16.class(), ShapeClass::FixedN);
    assert_eq!(OperandRule::LocalIndex.class(), ShapeClass::WideEligible);
    assert_eq!(OperandRule::LookupSwitch.class(), ShapeClass::Variable);
}

#[test]
fn padding_by_address() {
    assert_eq!(switch_padding(0), 3);
    assert_eq!(switch_padding(1), 2);
    assert_eq!(switch_padding(2), 1);
    assert_eq!(switch_padding(3), 0);
    assert_eq!(switch_padding(4), 3);
    assert_eq!(switch_padding(1001), 2);
    assert_eq!(switch_padding(usize::MAX), 0);
    for address in 0..64usize {
        assert_eq!(switch_padding(address), (4 - ((address + 1) % 4)) % 4);
    }
}
