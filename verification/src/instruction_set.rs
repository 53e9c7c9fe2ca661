//! The operand data model: register identities with their intrinsic width
//! classes, the tagged operand representation, and the instruction-argument
//! record with its arity assertions and size resolution.

use vstd::prelude::*;

verus! {

/// Width class of a register identity.
#[derive(Clone, Copy, Debug, PartialEq, Eq, Structural)]
pub enum RegisterSize {
    Bit32,
    Bit64,
    Segment,
}

/// The closed set of architectural register identities: the 64-bit
/// general-purpose registers, the instruction pointer, the 32-bit
/// general-purpose registers, and the 16-bit segment registers.
#[derive(Clone, Copy, Debug, PartialEq, Eq, Structural)]
pub enum Register {
    RAX,
    RBX,
    RCX,
    RDX,
    RSP,
    RBP,
    RSI,
    RDI,

    RIP,

    EAX,
    EBX,
    ECX,
    EDX,
    ESP,
    EBP,
    ESI,
    EDI,

    ES,
    CS,
    SS,
    DS,
    FS,
    GS,
}

/// Operand width, in bits.
#[derive(Clone, Copy, Debug, PartialEq, Eq, Structural)]
pub enum ArgumentSize {
    Bit64,
    Bit32,
    Bit16,
    Bit8,
}

/// The width class intrinsic to each register identity. This mapping is the
/// sole source of truth for operand-size inference involving registers.
pub open spec fn spec_register_size(reg: Register) -> ArgumentSize {
    match reg {
        Register::RAX | Register::RBX | Register::RCX | Register::RDX | Register::RSP
        | Register::RBP | Register::RSI | Register::RDI | Register::RIP => ArgumentSize::Bit64,
        Register::EAX | Register::EBX | Register::ECX | Register::EDX | Register::ESP
        | Register::EBP | Register::ESI | Register::EDI => ArgumentSize::Bit32,
        Register::ES | Register::CS | Register::SS | Register::DS | Register::FS
        | Register::GS => ArgumentSize::Bit16,
    }
}

/// Looks up the intrinsic width class of a register identity.
pub fn get_register_size(reg: &Register) -> (size: ArgumentSize)
    ensures
        size == spec_register_size(*reg),
{
    match *reg {
        Register::RAX | Register::RBX | Register::RCX | Register::RDX | Register::RSP
        | Register::RBP | Register::RSI | Register::RDI | Register::RIP => ArgumentSize::Bit64,
        Register::EAX | Register::EBX | Register::ECX | Register::EDX | Register::ESP
        | Register::EBP | Register::ESI | Register::EDI => ArgumentSize::Bit32,
        Register::ES | Register::CS | Register::SS | Register::DS | Register::FS
        | Register::GS => ArgumentSize::Bit16,
    }
}

/// Every register identity maps to exactly one width class, and that class is
/// 64, 32 or 16 bits: no register ever resolves to an 8-bit width.
pub proof fn lemma_register_width_class(reg: Register)
    ensures
        spec_register_size(reg) is Bit64 || spec_register_size(reg) is Bit32
            || spec_register_size(reg) is Bit16,
{
}

/// A single instruction operand: an immediate value, a register reference, or
/// a memory reference of the form `displacement(base)`.
#[derive(Clone, Copy, Debug, PartialEq, Eq, Structural)]
pub enum InstructionArgument {
    Immediate { immediate: i64 },
    Register { register: Register },
    EffectiveAddress { register: Register, displacement: i32 },
}

/// Signalled by the arity assertions when the operand count of a record does
/// not match the caller's expectation.
#[derive(Clone, Copy, Debug, PartialEq, Eq, Structural)]
pub enum ArityError {
    ExpectedOne,
    ExpectedTwo,
}

/// Signalled when size resolution is requested on a record for which it is
/// not defined.
#[derive(Clone, Copy, Debug, PartialEq, Eq, Structural)]
pub enum SizeError {
    Unsupported,
}

/// One or two operands of an instruction, with an optional opcode-extension
/// byte and an optional explicit size override. Built once by the caller and
/// immutable afterwards.
#[derive(Debug)]
pub struct InstructionArguments {
    pub first_argument: InstructionArgument,
    pub second_argument: Option<InstructionArgument>,
    pub opcode: Option<u8>,
    pub explicit_size: Option<ArgumentSize>,
}

impl InstructionArguments {
    /// The size an argument record resolves to. A single register operand
    /// yields its intrinsic width; a single immediate or effective-address
    /// operand is treated as a full-width 64-bit operand. Size resolution on
    /// a two-operand record is not defined, and is rejected rather than
    /// guessed.
    pub open spec fn spec_size(&self) -> Result<ArgumentSize, SizeError> {
        match self.second_argument {
            Some(_) => Err(SizeError::Unsupported),
            None => match self.first_argument {
                InstructionArgument::Register { register } => Ok(spec_register_size(register)),
                InstructionArgument::Immediate { .. } => Ok(ArgumentSize::Bit64),
                InstructionArgument::EffectiveAddress { .. } => Ok(ArgumentSize::Bit64),
            },
        }
    }

    /// Builds a record holding only a first operand.
    pub fn new(argument: InstructionArgument) -> (args: InstructionArguments)
        ensures
            args.first_argument == argument,
            args.second_argument is None,
            args.opcode is None,
            args.explicit_size is None,
    {
        InstructionArguments {
            first_argument: argument,
            second_argument: None,
            opcode: None,
            explicit_size: None,
        }
    }

    /// Adds a second operand to the record.
    fn second_argument(&mut self, second_argument: InstructionArgument)
        ensures
            final(self).first_argument == old(self).first_argument,
            final(self).second_argument == Some(second_argument),
            final(self).opcode == old(self).opcode,
            final(self).explicit_size == old(self).explicit_size,
    {
        self.second_argument = Some(second_argument);
    }

    /// Adds an opcode-extension byte to the record.
    fn opcode(&mut self, opcode: u8)
        ensures
            final(self).first_argument == old(self).first_argument,
            final(self).second_argument == old(self).second_argument,
            final(self).opcode == Some(opcode),
            final(self).explicit_size == old(self).explicit_size,
    {
        self.opcode = Some(opcode);
    }

    /// Adds an explicit size override to the record.
    #[allow(dead_code)]
    fn explicit_size(&mut self, explicit_size: ArgumentSize)
        ensures
            final(self).first_argument == old(self).first_argument,
            final(self).second_argument == old(self).second_argument,
            final(self).opcode == old(self).opcode,
            final(self).explicit_size == Some(explicit_size),
    {
        self.explicit_size = Some(explicit_size);
    }

    /// Builds a record holding only a first operand.
    pub fn new_one_argument(argument: InstructionArgument) -> (args: InstructionArguments)
        ensures
            args.first_argument == argument,
            args.second_argument is None,
            args.opcode is None,
            args.explicit_size is None,
    {
        InstructionArguments::new(argument)
    }

    /// Builds a record holding a first operand and an opcode-extension byte.
    pub fn new_one_argument_opcode(argument: InstructionArgument, opcode: u8) -> (args:
        InstructionArguments)
        ensures
            args.first_argument == argument,
            args.second_argument is None,
            args.opcode == Some(opcode),
            args.explicit_size is None,
    {
        let mut args = InstructionArguments::new(argument);
        args.opcode(opcode);
        args
    }

    /// Builds a record holding two operands.
    pub fn new_two_arguments(
        first_argument: InstructionArgument,
        second_argument: InstructionArgument,
    ) -> (args: InstructionArguments)
        ensures
            args.first_argument == first_argument,
            args.second_argument == Some(second_argument),
            args.opcode is None,
            args.explicit_size is None,
    {
        let mut args = InstructionArguments::new(first_argument);
        args.second_argument(second_argument);
        args
    }

    /// Builds a record holding two operands and an opcode-extension byte.
    pub fn new_two_arguments_opcode(
        first_argument: InstructionArgument,
        second_argument: InstructionArgument,
        opcode: u8,
    ) -> (args: InstructionArguments)
        ensures
            args.first_argument == first_argument,
            args.second_argument == Some(second_argument),
            args.opcode == Some(opcode),
            args.explicit_size is None,
    {
        let mut args = InstructionArguments::new(first_argument);
        args.second_argument(second_argument);
        args.opcode(opcode);
        args
    }

    /// Succeeds exactly when the record holds no second operand.
    pub fn assert_one_argument(&self) -> (result: Result<(), ArityError>)
        ensures
            result is Ok <==> self.second_argument is None,
            result is Err ==> result == Err::<(), ArityError>(ArityError::ExpectedOne),
    {
        match self.second_argument {
            Some(_) => Err(ArityError::ExpectedOne),
            None => Ok(()),
        }
    }

    /// Succeeds exactly when the record holds a second operand.
    pub fn assert_two_arguments(&self) -> (result: Result<(), ArityError>)
        ensures
            result is Ok <==> self.second_argument is Some,
            result is Err ==> result == Err::<(), ArityError>(ArityError::ExpectedTwo),
    {
        match self.second_argument {
            Some(_) => Ok(()),
            None => Err(ArityError::ExpectedTwo),
        }
    }

    /// Resolves the operand size of the record, as `spec_size` states it.
    pub fn size(&self) -> (result: Result<ArgumentSize, SizeError>)
        ensures
            result == self.spec_size(),
    {
        match self.second_argument {
            Some(_) => Err(SizeError::Unsupported),
            None => match self.first_argument {
                InstructionArgument::Register { ref register } => Ok(get_register_size(register)),
                InstructionArgument::Immediate { .. } => Ok(ArgumentSize::Bit64),
                InstructionArgument::EffectiveAddress { .. } => Ok(ArgumentSize::Bit64),
            },
        }
    }
}

/// Size resolution on any two-operand record is unsupported, whatever the
/// operands are.
pub proof fn lemma_size_two_arguments(args: InstructionArguments)
    requires
        args.second_argument is Some,
    ensures
        args.spec_size() == Err::<ArgumentSize, SizeError>(SizeError::Unsupported),
{
}

/// A single-operand record holding an immediate or an effective address
/// resolves to the full 64-bit width.
pub proof fn lemma_size_full_width(args: InstructionArguments)
    requires
        args.second_argument is None,
        args.first_argument is Immediate || args.first_argument is EffectiveAddress,
    ensures
        args.spec_size() == Ok::<ArgumentSize, SizeError>(ArgumentSize::Bit64),
{
}

/// A single-operand record holding a register resolves to that register's
/// intrinsic width class.
pub proof fn lemma_size_register(args: InstructionArguments, reg: Register)
    requires
        args.second_argument is None,
        args.first_argument == (InstructionArgument::Register { register: reg }),
    ensures
        args.spec_size() == Ok::<ArgumentSize, SizeError>(spec_register_size(reg)),
{
}

} // verus!
