//! Opcode decoder: a pure, total function from an opcode byte to an
//! instruction descriptor (operation, addressing mode, encoded length,
//! base cycle cost), plus the resolved-operand type that the execution
//! engine consumes.

use vstd::prelude::*;

verus! {

/// Errors of the instruction-execution core.
///
/// `DecodeError` carries the opcode byte that has no defined mapping; it is
/// fatal to continued interpretation of the instruction stream.
/// `InvariantViolation` signals that a resolved operand's variant does not
/// match what an operation handler expects; with a correct decode table it is
/// unreachable, but it still fails loudly rather than proceeding with wrong
/// data.
#[derive(Copy, Clone, Debug, PartialEq, Eq, Structural)]
pub enum CoreError {
    DecodeError(u8),
    InvariantViolation,
}

/// The closed set of named operations of the instruction set.
#[derive(Copy, Clone, Debug, PartialEq, Eq, Structural)]
pub enum InstructionOperation {
    Adc, And, Asl, Bcc, Bcs, Beq, Bit, Bmi, Bne, Bpl, Brk, Bvc, Bvs, Clc,
    Cld, Cli, Clv, Cmp, Cpx, Cpy, Dec, Dex, Dey, Eor, Inc, Inx, Iny, Jmp,
    Jsr, Lda, Ldx, Ldy, Lsr, Nop, Ora, Pha, Php, Pla, Plp, Rol, Ror, Rti,
    Rts, Sbc, Sec, Sed, Sei, Sta, Stx, Sty, Tax, Tay, Tsx, Txa, Txs, Tya,
}

/// The thirteen addressing modes.
#[derive(Copy, Clone, Debug, PartialEq, Eq, Structural)]
pub enum InstructionMode {
    Implied,
    Accumulator,
    Immediate,
    Relative,
    ZeroPage,
    ZeroPageX,
    ZeroPageY,
    Absolute,
    AbsoluteX,
    AbsoluteY,
    Indirect,
    IndirectX,
    IndirectY,
}

/// Encoded length in bytes of an instruction, as a pure function of its
/// addressing mode: one byte for Implied/Accumulator, two for the one-operand
/// byte modes, three for the modes that carry a 16-bit address.
pub open spec fn spec_len_bytes(mode: InstructionMode) -> u8 {
    match mode {
        InstructionMode::Implied | InstructionMode::Accumulator => 1,
        InstructionMode::Immediate
            | InstructionMode::Relative
            | InstructionMode::ZeroPage
            | InstructionMode::ZeroPageX
            | InstructionMode::ZeroPageY
            | InstructionMode::IndirectX
            | InstructionMode::IndirectY
            => 2,
        InstructionMode::Absolute
            | InstructionMode::AbsoluteX
            | InstructionMode::AbsoluteY
            | InstructionMode::Indirect
            => 3,
    }
}

impl InstructionMode {
    /// Encoded instruction length in bytes for this addressing mode.
    pub fn len_bytes(&self) -> (r: u8)
        ensures
            r == spec_len_bytes(*self),
    {
        match self {
            InstructionMode::Implied | InstructionMode::Accumulator => 1,
            InstructionMode::Immediate
                | InstructionMode::Relative
                | InstructionMode::ZeroPage
                | InstructionMode::ZeroPageX
                | InstructionMode::ZeroPageY
                | InstructionMode::IndirectX
                | InstructionMode::IndirectY
                => 2,
            InstructionMode::Absolute
                | InstructionMode::AbsoluteX
                | InstructionMode::AbsoluteY
                | InstructionMode::Indirect
                => 3,
        }
    }
}

/// The length table of the thirteen addressing modes, stated mode by mode.
pub proof fn lemma_length_table()
    ensures
        spec_len_bytes(InstructionMode::Implied) == 1,
        spec_len_bytes(InstructionMode::Accumulator) == 1,
        spec_len_bytes(InstructionMode::Immediate) == 2,
        spec_len_bytes(InstructionMode::Relative) == 2,
        spec_len_bytes(InstructionMode::ZeroPage) == 2,
        spec_len_bytes(InstructionMode::ZeroPageX) == 2,
        spec_len_bytes(InstructionMode::ZeroPageY) == 2,
        spec_len_bytes(InstructionMode::IndirectX) == 2,
        spec_len_bytes(InstructionMode::IndirectY) == 2,
        spec_len_bytes(InstructionMode::Absolute) == 3,
        spec_len_bytes(InstructionMode::AbsoluteX) == 3,
        spec_len_bytes(InstructionMode::AbsoluteY) == 3,
        spec_len_bytes(InstructionMode::Indirect) == 3,
{
}

/// An immutable instruction descriptor, constructed fresh each decode cycle.
/// `cycles_base` is the cycle cost with no addressing-time penalties; the
/// resolver and executor add those.
#[derive(Copy, Clone, Debug, PartialEq, Eq, Structural)]
pub struct Instruction {
    pub operation: InstructionOperation,
    pub mode: InstructionMode,
    pub len: u8,
    pub cycles_base: u8,
}

/// A descriptor built from a declarative (operation, mode, base-cycle)
/// triple; the length is derived from the mode.
pub open spec fn spec_instruction(
    operation: InstructionOperation,
    mode: InstructionMode,
    cycles_base: u8,
) -> Instruction {
    Instruction { operation, mode, len: spec_len_bytes(mode), cycles_base }
}

/// The 256-entry opcode table: every byte maps either to a descriptor or to
/// the explicit `DecodeError` carrying the unassigned opcode.
pub open spec fn spec_decode(opcode: u8) -> Result<Instruction, CoreError> {
    if opcode == 0x69 {
        Ok(spec_instruction(InstructionOperation::Adc, InstructionMode::Immediate, 2))
    } else if opcode == 0x65 {
        Ok(spec_instruction(InstructionOperation::Adc, InstructionMode::ZeroPage, 3))
    } else if opcode == 0x75 {
        Ok(spec_instruction(InstructionOperation::Adc, InstructionMode::ZeroPageX, 4))
    } else if opcode == 0x6D {
        Ok(spec_instruction(InstructionOperation::Adc, InstructionMode::Absolute, 4))
    } else if opcode == 0x7D {
        Ok(spec_instruction(InstructionOperation::Adc, InstructionMode::AbsoluteX, 4))
    } else if opcode == 0x79 {
        Ok(spec_instruction(InstructionOperation::Adc, InstructionMode::AbsoluteY, 4))
    } else if opcode == 0x61 {
        Ok(spec_instruction(InstructionOperation::Adc, InstructionMode::IndirectX, 6))
    } else if opcode == 0x71 {
        Ok(spec_instruction(InstructionOperation::Adc, InstructionMode::IndirectY, 5))
    } else if opcode == 0x00 {
        Ok(spec_instruction(InstructionOperation::Brk, InstructionMode::Implied, 7))
    } else if opcode == 0xA9 {
        Ok(spec_instruction(InstructionOperation::Lda, InstructionMode::Immediate, 2))
    } else if opcode == 0xA5 {
        Ok(spec_instruction(InstructionOperation::Lda, InstructionMode::ZeroPage, 3))
    } else if opcode == 0xB5 {
        Ok(spec_instruction(InstructionOperation::Lda, InstructionMode::ZeroPageX, 4))
    } else if opcode == 0xAD {
        Ok(spec_instruction(InstructionOperation::Lda, InstructionMode::Absolute, 4))
    } else if opcode == 0xBD {
        Ok(spec_instruction(InstructionOperation::Lda, InstructionMode::AbsoluteX, 4))
    } else if opcode == 0xB9 {
        Ok(spec_instruction(InstructionOperation::Lda, InstructionMode::AbsoluteY, 4))
    } else if opcode == 0xA1 {
        Ok(spec_instruction(InstructionOperation::Lda, InstructionMode::IndirectX, 6))
    } else if opcode == 0xB1 {
        Ok(spec_instruction(InstructionOperation::Lda, InstructionMode::IndirectY, 5))
    } else if opcode == 0xEA {
        Ok(spec_instruction(InstructionOperation::Nop, InstructionMode::Implied, 2))
    } else {
        Err(CoreError::DecodeError(opcode))
    }
}

/// The operand variants that an operation's handler accepts. `Adc` and `Lda`
/// consume a byte, either given immediately or read from a resolved address;
/// `Brk` and `Nop` take no operand. The decode table pairs each operation
/// only with modes whose resolved operand the handler accepts.
pub open spec fn operation_accepts_mode(
    operation: InstructionOperation,
    mode: InstructionMode,
) -> bool {
    match operation {
        InstructionOperation::Adc | InstructionOperation::Lda => {
            ||| mode == InstructionMode::Immediate
            ||| mode == InstructionMode::ZeroPage
            ||| mode == InstructionMode::ZeroPageX
            ||| mode == InstructionMode::ZeroPageY
            ||| mode == InstructionMode::Absolute
            ||| mode == InstructionMode::AbsoluteX
            ||| mode == InstructionMode::AbsoluteY
            ||| mode == InstructionMode::IndirectX
            ||| mode == InstructionMode::IndirectY
        },
        InstructionOperation::Brk | InstructionOperation::Nop => {
            mode == InstructionMode::Implied
        },
        _ => false,
    }
}

/// Well-formedness of a decoded descriptor: its length is the pure function
/// of its mode, its base cycle cost is in the hardware's range, and its mode
/// is one its operation's handler accepts.
pub open spec fn instruction_wf(i: Instruction) -> bool {
    &&& i.len == spec_len_bytes(i.mode)
    &&& 1 <= i.cycles_base <= 7
    &&& operation_accepts_mode(i.operation, i.mode)
}

/// Exhaustiveness of the decoder: every byte of the 256-value input domain
/// maps either to a well-formed descriptor or to the explicit decode error
/// carrying that byte — there is no undefined case.
pub proof fn lemma_decode_exhaustive(opcode: u8)
    ensures
        spec_decode(opcode) matches Ok(i) ==> instruction_wf(i),
        spec_decode(opcode) matches Err(e) ==> e == CoreError::DecodeError(opcode),
{
}

impl Instruction {
    /// Decode an opcode byte. Pure and total: every byte returns either a
    /// valid descriptor or the explicit decode error; nothing panics.
    pub fn from_opcode(opcode: u8) -> (r: Result<Instruction, CoreError>)
        ensures
            r == spec_decode(opcode),
    {
        match opcode {
            0x69 => Ok(Self::build(InstructionOperation::Adc, InstructionMode::Immediate, 2)),
            0x65 => Ok(Self::build(InstructionOperation::Adc, InstructionMode::ZeroPage, 3)),
            0x75 => Ok(Self::build(InstructionOperation::Adc, InstructionMode::ZeroPageX, 4)),
            0x6D => Ok(Self::build(InstructionOperation::Adc, InstructionMode::Absolute, 4)),
            0x7D => Ok(Self::build(InstructionOperation::Adc, InstructionMode::AbsoluteX, 4)),
            0x79 => Ok(Self::build(InstructionOperation::Adc, InstructionMode::AbsoluteY, 4)),
            0x61 => Ok(Self::build(InstructionOperation::Adc, InstructionMode::IndirectX, 6)),
            0x71 => Ok(Self::build(InstructionOperation::Adc, InstructionMode::IndirectY, 5)),
            0x00 => Ok(Self::build(InstructionOperation::Brk, InstructionMode::Implied, 7)),
            0xA9 => Ok(Self::build(InstructionOperation::Lda, InstructionMode::Immediate, 2)),
            0xA5 => Ok(Self::build(InstructionOperation::Lda, InstructionMode::ZeroPage, 3)),
            0xB5 => Ok(Self::build(InstructionOperation::Lda, InstructionMode::ZeroPageX, 4)),
            0xAD => Ok(Self::build(InstructionOperation::Lda, InstructionMode::Absolute, 4)),
            0xBD => Ok(Self::build(InstructionOperation::Lda, InstructionMode::AbsoluteX, 4)),
            0xB9 => Ok(Self::build(InstructionOperation::Lda, InstructionMode::AbsoluteY, 4)),
            0xA1 => Ok(Self::build(InstructionOperation::Lda, InstructionMode::IndirectX, 6)),
            0xB1 => Ok(Self::build(InstructionOperation::Lda, InstructionMode::IndirectY, 5)),
            0xEA => Ok(Self::build(InstructionOperation::Nop, InstructionMode::Implied, 2)),
            _ => Err(CoreError::DecodeError(opcode)),
        }
    }

    /// Build a descriptor from a declarative (operation, mode, base-cycle)
    /// triple, deriving the length from the mode.
    fn build(
        operation: InstructionOperation,
        mode: InstructionMode,
        cycles_base: u8,
    ) -> (r: Instruction)
        ensures
            r == spec_instruction(operation, mode, cycles_base),
    {
        Instruction { operation, mode, len: mode.len_bytes(), cycles_base }
    }

    /// The named operation of this descriptor.
    pub fn operation(&self) -> (r: InstructionOperation)
        ensures
            r == self.operation,
    {
        self.operation
    }

    /// The addressing mode of this descriptor.
    pub fn mode(&self) -> (r: InstructionMode)
        ensures
            r == self.mode,
    {
        self.mode
    }

    /// The encoded length in bytes of this descriptor.
    pub fn len(&self) -> (r: u8)
        ensures
            r == self.len,
    {
        self.len
    }

    /// The base cycle cost of this descriptor, with no addressing penalties.
    pub fn cycles_base(&self) -> (r: u8)
        ensures
            r == self.cycles_base,
    {
        self.cycles_base
    }
}

/// A resolved operand: the tagged variant the addressing resolver produces
/// and an operation handler consumes.
#[derive(Copy, Clone, Debug, PartialEq, Eq, Structural)]
pub enum InstructionInput {
    Implied,
    Accumulator,
    Byte(u8),
    Address(u16),
}

impl InstructionInput {
    /// Checked projection to the `Address` variant. A mismatch is an
    /// internal-invariant violation — unreachable with a correct decode
    /// table — reported loudly rather than proceeding with wrong data.
    pub fn unwrap_address(self) -> (r: Result<u16, CoreError>)
        ensures
            self matches InstructionInput::Address(a) ==> r == Ok::<u16, CoreError>(a),
            !(self is Address) ==> r == Err::<u16, CoreError>(CoreError::InvariantViolation),
    {
        match self {
            InstructionInput::Address(value) => Ok(value),
            _ => Err(CoreError::InvariantViolation),
        }
    }
}

} // verus!
