//! AT&T-syntax text rendering of registers, operands and argument records.
//! The grammar: registers as `%` plus the lowercase name, immediates as `$0x`
//! plus lowercase hexadecimal of the 64-bit two's-complement value, memory
//! operands as `displacement(base)`, and two-operand records joined by a
//! single comma with no whitespace.

use vstd::prelude::*;
use vstd::string::StringExecFns;

use crate::instruction_set::{InstructionArgument, InstructionArguments, Register};

verus! {

/// The lowercase hexadecimal digit for a value below sixteen.
pub open spec fn hex_digit_char(d: nat) -> char
    recommends
        d < 16,
{
    if d == 0 {
        '0'
    } else if d == 1 {
        '1'
    } else if d == 2 {
        '2'
    } else if d == 3 {
        '3'
    } else if d == 4 {
        '4'
    } else if d == 5 {
        '5'
    } else if d == 6 {
        '6'
    } else if d == 7 {
        '7'
    } else if d == 8 {
        '8'
    } else if d == 9 {
        '9'
    } else if d == 10 {
        'a'
    } else if d == 11 {
        'b'
    } else if d == 12 {
        'c'
    } else if d == 13 {
        'd'
    } else if d == 14 {
        'e'
    } else {
        'f'
    }
}

/// The lowercase hexadecimal text of a value, most significant digit first,
/// with no leading zeros (a single `0` for zero itself).
pub open spec fn hex_text(n: nat) -> Seq<char>
    decreases n,
{
    if n < 16 {
        seq![hex_digit_char(n)]
    } else {
        hex_text(n / 16).push(hex_digit_char(n % 16))
    }
}

/// The 64-bit two's-complement bit pattern of a signed immediate, as a
/// natural number.
pub open spec fn immediate_bits(v: i64) -> nat {
    if v >= 0 {
        v as nat
    } else {
        (v + 0x1_0000_0000_0000_0000) as nat
    }
}

/// The magnitude of a signed displacement.
pub open spec fn displacement_magnitude(d: i32) -> nat {
    if d >= 0 {
        d as nat
    } else {
        (-(d as int)) as nat
    }
}

/// The text of a register: `%` followed by its lowercase name.
pub open spec fn register_text(reg: Register) -> Seq<char> {
    match reg {
        Register::RAX => "%rax"@,
        Register::RBX => "%rbx"@,
        Register::RCX => "%rcx"@,
        Register::RDX => "%rdx"@,
        Register::RSP => "%rsp"@,
        Register::RBP => "%rbp"@,
        Register::RSI => "%rsi"@,
        Register::RDI => "%rdi"@,
        Register::RIP => "%rip"@,
        Register::EAX => "%eax"@,
        Register::EBX => "%ebx"@,
        Register::ECX => "%ecx"@,
        Register::EDX => "%edx"@,
        Register::ESP => "%esp"@,
        Register::EBP => "%ebp"@,
        Register::ESI => "%esi"@,
        Register::EDI => "%edi"@,
        Register::ES => "%es"@,
        Register::CS => "%cs"@,
        Register::SS => "%ss"@,
        Register::DS => "%ds"@,
        Register::FS => "%fs"@,
        Register::GS => "%gs"@,
    }
}

/// The text of an operand: `$0x..` for an immediate, the register text for a
/// register, and `displacement(base)` for an effective address, where a zero
/// displacement is omitted and a negative one is written `-0x..`.
pub open spec fn argument_text(arg: InstructionArgument) -> Seq<char> {
    match arg {
        InstructionArgument::Register { register } => register_text(register),
        InstructionArgument::Immediate { immediate } => "$0x"@ + hex_text(
            immediate_bits(immediate),
        ),
        InstructionArgument::EffectiveAddress { register, displacement } => {
            if displacement == 0 {
                "("@ + register_text(register) + ")"@
            } else if displacement > 0 {
                "0x"@ + hex_text(displacement as nat) + "("@ + register_text(register) + ")"@
            } else {
                "-0x"@ + hex_text(displacement_magnitude(displacement)) + "("@ + register_text(
                    register,
                ) + ")"@
            }
        },
    }
}

/// The text of an argument record: both operand texts joined by a single
/// comma when a second operand is present, the first operand text alone
/// otherwise.
pub open spec fn arguments_text(args: InstructionArguments) -> Seq<char> {
    match args.second_argument {
        Some(second) => argument_text(args.first_argument) + ","@ + argument_text(second),
        None => argument_text(args.first_argument),
    }
}

/// One lowercase hexadecimal digit as text.
fn hex_digit_str(d: u64) -> (text: &'static str)
    requires
        d < 16,
    ensures
        text@ == seq![hex_digit_char(d as nat)],
{
    let text: &'static str = if d == 0 {
        "0"
    } else if d == 1 {
        "1"
    } else if d == 2 {
        "2"
    } else if d == 3 {
        "3"
    } else if d == 4 {
        "4"
    } else if d == 5 {
        "5"
    } else if d == 6 {
        "6"
    } else if d == 7 {
        "7"
    } else if d == 8 {
        "8"
    } else if d == 9 {
        "9"
    } else if d == 10 {
        "a"
    } else if d == 11 {
        "b"
    } else if d == 12 {
        "c"
    } else if d == 13 {
        "d"
    } else if d == 14 {
        "e"
    } else {
        "f"
    };
    proof {
        reveal_strlit("0");
        reveal_strlit("1");
        reveal_strlit("2");
        reveal_strlit("3");
        reveal_strlit("4");
        reveal_strlit("5");
        reveal_strlit("6");
        reveal_strlit("7");
        reveal_strlit("8");
        reveal_strlit("9");
        reveal_strlit("a");
        reveal_strlit("b");
        reveal_strlit("c");
        reveal_strlit("d");
        reveal_strlit("e");
        reveal_strlit("f");
        assert(text@ =~= seq![hex_digit_char(d as nat)]);
    }
    text
}

/// The lowercase hexadecimal text of a value, as `hex_text` states it.
fn hex_string(n: u64) -> (text: String)
    ensures
        text@ == hex_text(n as nat),
    decreases n,
{
    if n < 16 {
        hex_digit_str(n).to_owned()
    } else {
        let mut text = hex_string(n / 16);
        text.append(hex_digit_str(n % 16));
        proof {
            assert(text@ =~= hex_text(n as nat));
        }
        text
    }
}

/// The 64-bit two's-complement bit pattern of a signed immediate.
fn immediate_bits_u64(v: i64) -> (bits: u64)
    ensures
        bits as nat == immediate_bits(v),
{
    if v >= 0 {
        v as u64
    } else {
        ((v as i128) + 0x1_0000_0000_0000_0000i128) as u64
    }
}

/// The magnitude of a signed displacement.
fn displacement_magnitude_u64(d: i32) -> (magnitude: u64)
    ensures
        magnitude as nat == displacement_magnitude(d),
{
    if d >= 0 {
        d as u64
    } else {
        (-(d as i64)) as u64
    }
}

impl Register {
    /// Renders the register as AT&T text: `%` followed by its lowercase name.
    pub fn render(&self) -> (text: String)
        ensures
            text@ == register_text(*self),
    {
        match *self {
            Register::RAX => "%rax".to_owned(),
            Register::RBX => "%rbx".to_owned(),
            Register::RCX => "%rcx".to_owned(),
            Register::RDX => "%rdx".to_owned(),
            Register::RSP => "%rsp".to_owned(),
            Register::RBP => "%rbp".to_owned(),
            Register::RSI => "%rsi".to_owned(),
            Register::RDI => "%rdi".to_owned(),
            Register::RIP => "%rip".to_owned(),
            Register::EAX => "%eax".to_owned(),
            Register::EBX => "%ebx".to_owned(),
            Register::ECX => "%ecx".to_owned(),
            Register::EDX => "%edx".to_owned(),
            Register::ESP => "%esp".to_owned(),
            Register::EBP => "%ebp".to_owned(),
            Register::ESI => "%esi".to_owned(),
            Register::EDI => "%edi".to_owned(),
            Register::ES => "%es".to_owned(),
            Register::CS => "%cs".to_owned(),
            Register::SS => "%ss".to_owned(),
            Register::DS => "%ds".to_owned(),
            Register::FS => "%fs".to_owned(),
            Register::GS => "%gs".to_owned(),
        }
    }
}

impl InstructionArgument {
    /// Renders the operand as AT&T text, as `argument_text` states it.
    pub fn render(&self) -> (text: String)
        ensures
            text@ == argument_text(*self),
    {
        match *self {
            InstructionArgument::Register { register } => register.render(),
            InstructionArgument::Immediate { immediate } => {
                let mut text = "$0x".to_owned();
                let hex = hex_string(immediate_bits_u64(immediate));
                text.append(hex.as_str());
                text
            },
            InstructionArgument::EffectiveAddress { register, displacement } => {
                let base = register.render();
                if displacement == 0 {
                    let mut text = "(".to_owned();
                    text.append(base.as_str());
                    text.append(")");
                    text
                } else if displacement > 0 {
                    let mut text = "0x".to_owned();
                    let hex = hex_string(displacement_magnitude_u64(displacement));
                    text.append(hex.as_str());
                    text.append("(");
                    text.append(base.as_str());
                    text.append(")");
                    text
                } else {
                    let mut text = "-0x".to_owned();
                    let hex = hex_string(displacement_magnitude_u64(displacement));
                    text.append(hex.as_str());
                    text.append("(");
                    text.append(base.as_str());
                    text.append(")");
                    text
                }
            },
        }
    }
}

impl InstructionArguments {
    /// Renders the record as AT&T text, as `arguments_text` states it.
    pub fn render(&self) -> (text: String)
        ensures
            text@ == arguments_text(*self),
    {
        match &self.second_argument {
            Some(second) => {
                let mut text = self.first_argument.render();
                text.append(",");
                let second_text = second.render();
                text.append(second_text.as_str());
                text
            },
            None => self.first_argument.render(),
        }
    }
}

/// Rendered register text always begins with `%`, and everything after it is
/// a lowercase letter.
pub proof fn lemma_register_text_shape(reg: Register)
    ensures
        register_text(reg).len() >= 3,
        register_text(reg)[0] == '%',
        forall|i: int|
            1 <= i < register_text(reg).len() ==> 'a' <= #[trigger] register_text(reg)[i] <= 'z',
{
    reveal_strlit("%rax");
    reveal_strlit("%rbx");
    reveal_strlit("%rcx");
    reveal_strlit("%rdx");
    reveal_strlit("%rsp");
    reveal_strlit("%rbp");
    reveal_strlit("%rsi");
    reveal_strlit("%rdi");
    reveal_strlit("%rip");
    reveal_strlit("%eax");
    reveal_strlit("%ebx");
    reveal_strlit("%ecx");
    reveal_strlit("%edx");
    reveal_strlit("%esp");
    reveal_strlit("%ebp");
    reveal_strlit("%esi");
    reveal_strlit("%edi");
    reveal_strlit("%es");
    reveal_strlit("%cs");
    reveal_strlit("%ss");
    reveal_strlit("%ds");
    reveal_strlit("%fs");
    reveal_strlit("%gs");
}

/// A two-operand record renders as the first operand's text, one comma, and
/// the second operand's text, with no whitespace around the comma.
pub proof fn lemma_two_argument_text(args: InstructionArguments, second: InstructionArgument)
    requires
        args.second_argument == Some(second),
    ensures
        arguments_text(args) == argument_text(args.first_argument) + ","@ + argument_text(second),
{
}

} // verus!
