use att_operands::instruction_set::get_register_size;
use att_operands::instruction_set::ArgumentSize;
use att_operands::instruction_set::ArityError;
use att_operands::instruction_set::InstructionArgument;
use att_operands::instruction_set::InstructionArguments;
use att_operands::instruction_set::Register;
use att_operands::instruction_set::SizeError;

#[test]
fn width_of_64_bit_registers() {
    assert_eq!(get_register_size(&Register::RAX), ArgumentSize::Bit64);
    assert_eq!(get_register_size(&Register::RBX), ArgumentSize::Bit64);
    assert_eq!(get_register_size(&Register::RCX), ArgumentSize::Bit64);
    assert_eq!(get_register_size(&Register::RDX), ArgumentSize::Bit64);
    assert_eq!(get_register_size(&Register::RSP), ArgumentSize::Bit64);
    assert_eq!(get_register_size(&Register::RBP), ArgumentSize::Bit64);
    assert_eq!(get_register_size(&Register::RSI), ArgumentSize::Bit64);
    assert_eq!(get_register_size(&Register::RDI), ArgumentSize::Bit64);
    assert_eq!(get_register_size(&Register::RIP), ArgumentSize::Bit64);
}

#[test]
fn width_of_32_bit_registers() {
    assert_eq!(get_register_size(&Register::EAX), ArgumentSize::Bit32);
    assert_eq!(get_register_size(&Register::EBX), ArgumentSize::Bit32);
    assert_eq!(get_register_size(&Register::ECX), ArgumentSize::Bit32);
    assert_eq!(get_register_size(&Register::EDX), ArgumentSize::Bit32);
    assert_eq!(get_register_size(&Register::ESP), ArgumentSize::Bit32);
    assert_eq!(get_register_size(&Register::EBP), ArgumentSize::Bit32);
    assert_eq!(get_register_size(&Register::ESI), ArgumentSize::Bit32);
    assert_eq!(get_register_size(&Register::EDI), ArgumentSize::Bit32);
}

#[test]
fn width_of_segment_registers() {
    assert_eq!(get_register_size(&Register::ES), ArgumentSize::Bit16);
    assert_eq!(get_register_size(&Register::CS), ArgumentSize::Bit16);
    assert_eq!(get_register_size(&Register::SS), ArgumentSize::Bit16);
    assert_eq!(get_register_size(&Register::DS), ArgumentSize::Bit16);
    assert_eq!(get_register_size(&Register::FS), ArgumentSize::Bit16);
    assert_eq!(get_register_size(&Register::GS), ArgumentSize::Bit16);
}

#[test]
fn width_is_stable_across_repeated_calls() {
    let first = get_register_size(&Register::RBP);
    let second = get_register_size(&Register::RBP);
    assert_eq!(first, second);
}

#[test]
fn new_record_holds_only_the_first_operand() {
    let args = InstructionArguments::new(InstructionArgument::Immediate { immediate: 7 });
    assert_eq!(
        args.first_argument,
        InstructionArgument::Immediate { immediate: 7 }
    );
    assert_eq!(args.second_argument, None);
    assert_eq!(args.opcode, None);
    assert_eq!(args.explicit_size, None);
}

#[test]
fn one_argument_constructor_matches_new() {
    let args = InstructionArguments::new_one_argument(InstructionArgument::Register {
        register: Register::RDI,
    });
    assert_eq!(
        args.first_argument,
        InstructionArgument::Register {
            register: Register::RDI
        }
    );
    assert_eq!(args.second_argument, None);
    assert_eq!(args.opcode, None);
}

#[test]
fn one_argument_opcode_constructor_stores_the_byte() {
    let args = InstructionArguments::new_one_argument_opcode(
        InstructionArgument::Immediate { immediate: -4 },
        0x83,
    );
    assert_eq!(
        args.first_argument,
        InstructionArgument::Immediate { immediate: -4 }
    );
    assert_eq!(args.second_argument, None);
    assert_eq!(args.opcode, Some(0x83));
}

#[test]
fn two_arguments_constructor_stores_both_operands() {
    let args = InstructionArguments::new_two_arguments(
        InstructionArgument::Register {
            register: Register::RAX,
        },
        InstructionArgument::Immediate { immediate: 1 },
    );
    assert_eq!(
        args.first_argument,
        InstructionArgument::Register {
            register: Register::RAX
        }
    );
    assert_eq!(
        args.second_argument,
        Some(InstructionArgument::Immediate { immediate: 1 })
    );
    assert_eq!(args.opcode, None);
}

#[test]
fn two_arguments_opcode_constructor_stores_everything() {
    let args = InstructionArguments::new_two_arguments_opcode(
        InstructionArgument::EffectiveAddress {
            register: Register::RBP,
            displacement: -8,
        },
        InstructionArgument::Register {
            register: Register::RCX,
        },
        0x0f,
    );
    assert_eq!(
        args.first_argument,
        InstructionArgument::EffectiveAddress {
            register: Register::RBP,
            displacement: -8,
        }
    );
    assert_eq!(
        args.second_argument,
        Some(InstructionArgument::Register {
            register: Register::RCX
        })
    );
    assert_eq!(args.opcode, Some(0x0f));
}

#[test]
fn arity_assertions_on_a_two_operand_record() {
    let args = InstructionArguments::new_two_arguments(
        InstructionArgument::Register {
            register: Register::RAX,
        },
        InstructionArgument::Immediate { immediate: 1 },
    );
    assert_eq!(args.assert_two_arguments(), Ok(()));
    assert_eq!(args.assert_one_argument(), Err(ArityError::ExpectedOne));
}

#[test]
fn arity_assertions_on_a_single_operand_record() {
    let args =
        InstructionArguments::new_one_argument(InstructionArgument::Immediate { immediate: 1 });
    assert_eq!(args.assert_one_argument(), Ok(()));
    assert_eq!(args.assert_two_arguments(), Err(ArityError::ExpectedTwo));
}

#[test]
fn size_of_a_single_register_operand_is_its_width() {
    let args = InstructionArguments::new_one_argument(InstructionArgument::Register {
        register: Register::EAX,
    });
    assert_eq!(args.size(), Ok(ArgumentSize::Bit32));
    let args = InstructionArguments::new_one_argument(InstructionArgument::Register {
        register: Register::RAX,
    });
    assert_eq!(args.size(), Ok(ArgumentSize::Bit64));
    let args = InstructionArguments::new_one_argument(InstructionArgument::Register {
        register: Register::CS,
    });
    assert_eq!(args.size(), Ok(ArgumentSize::Bit16));
}

#[test]
fn size_of_a_single_immediate_operand_is_64_bit() {
    let args =
        InstructionArguments::new_one_argument(InstructionArgument::Immediate { immediate: 5 });
    assert_eq!(args.size(), Ok(ArgumentSize::Bit64));
}

#[test]
fn size_of_a_single_effective_address_operand_is_64_bit() {
    let args = InstructionArguments::new_one_argument(InstructionArgument::EffectiveAddress {
        register: Register::ESP,
        displacement: 16,
    });
    assert_eq!(args.size(), Ok(ArgumentSize::Bit64));
}

#[test]
fn size_of_a_two_operand_record_is_unsupported() {
    let args = InstructionArguments::new_two_arguments(
        InstructionArgument::Register {
            register: Register::EAX,
        },
        InstructionArgument::Register {
            register: Register::EBX,
        },
    );
    assert_eq!(args.size(), Err(SizeError::Unsupported));
}
