use vstd::prelude::*;

use crate::cpu::AddressingMode;

verus! {

/// The operation an instruction performs, independent of how it addresses memory.
#[derive(Clone, Copy, Debug, PartialEq, Eq, Structural)]
pub enum Mnemonic {
    Brk,
    Tax,
    Inx,
    Lda,
    Sta,
    And,
}

impl Mnemonic {
    /// Whether the operation reads or writes an effective address.
    pub open spec fn uses_memory(self) -> bool {
        self == Mnemonic::Lda || self == Mnemonic::Sta || self == Mnemonic::And
    }
}

/// What the table records of one opcode: its operation, its encoded length in
/// bytes (the opcode byte included), its base cycle cost and its addressing mode.
#[derive(Clone, Copy, Debug, PartialEq, Eq, Structural)]
pub struct OpCode {
    pub code: u8,
    pub mnemonic: Mnemonic,
    pub len: u8,
    pub cycles: u8,
    pub mode: AddressingMode,
}

pub open spec fn op(code: u8, mnemonic: Mnemonic, len: u8, cycles: u8, mode: AddressingMode) -> Option<OpCode> {
    Some(OpCode { code, mnemonic, len, cycles, mode })
}

/// The instruction set: the descriptor of each opcode the processor knows.
/// Indexed modes that cross a page cost one cycle more on real hardware; the
/// cycle counts here are the base costs.
pub open spec fn instruction_set(code: u8) -> Option<OpCode> {
    match code {
        0x00 => op(0x00, Mnemonic::Brk, 1, 7, AddressingMode::NoneAddressing),
        0xAA => op(0xAA, Mnemonic::Tax, 1, 2, AddressingMode::NoneAddressing),
        0xE8 => op(0xE8, Mnemonic::Inx, 1, 2, AddressingMode::NoneAddressing),
        0xA9 => op(0xA9, Mnemonic::Lda, 2, 2, AddressingMode::Immediate),
        0xA5 => op(0xA5, Mnemonic::Lda, 2, 3, AddressingMode::ZeroPage),
        0xB5 => op(0xB5, Mnemonic::Lda, 2, 4, AddressingMode::ZeroPageX),
        0xAD => op(0xAD, Mnemonic::Lda, 3, 4, AddressingMode::Absolute),
        0xBD => op(0xBD, Mnemonic::Lda, 3, 4, AddressingMode::AbsoluteX),
        0xB9 => op(0xB9, Mnemonic::Lda, 3, 4, AddressingMode::AbsoluteY),
        0xA1 => op(0xA1, Mnemonic::Lda, 2, 6, AddressingMode::IndirectX),
        0xB1 => op(0xB1, Mnemonic::Lda, 2, 5, AddressingMode::IndirectY),
        0x85 => op(0x85, Mnemonic::Sta, 2, 3, AddressingMode::ZeroPage),
        0x95 => op(0x95, Mnemonic::Sta, 2, 4, AddressingMode::ZeroPageX),
        0x8D => op(0x8D, Mnemonic::Sta, 3, 4, AddressingMode::Absolute),
        0x9D => op(0x9D, Mnemonic::Sta, 3, 5, AddressingMode::AbsoluteX),
        0x99 => op(0x99, Mnemonic::Sta, 3, 5, AddressingMode::AbsoluteY),
        0x81 => op(0x81, Mnemonic::Sta, 2, 6, AddressingMode::IndirectX),
        0x91 => op(0x91, Mnemonic::Sta, 2, 6, AddressingMode::IndirectY),
        0x29 => op(0x29, Mnemonic::And, 2, 2, AddressingMode::Immediate),
        0x25 => op(0x25, Mnemonic::And, 2, 3, AddressingMode::ZeroPage),
        0x35 => op(0x35, Mnemonic::And, 2, 4, AddressingMode::ZeroPageX),
        0x2D => op(0x2D, Mnemonic::And, 3, 4, AddressingMode::Absolute),
        0x3D => op(0x3D, Mnemonic::And, 3, 4, AddressingMode::AbsoluteX),
        0x39 => op(0x39, Mnemonic::And, 3, 4, AddressingMode::AbsoluteY),
        0x21 => op(0x21, Mnemonic::And, 2, 6, AddressingMode::IndirectX),
        0x31 => op(0x31, Mnemonic::And, 2, 5, AddressingMode::IndirectY),
        _ => None,
    }
}

/// Every descriptor of the instruction set is keyed by its own opcode, takes
/// at least its opcode byte, and gives a memory operation a memory operand.
pub proof fn lemma_instruction_set_consistent(code: u8)
    ensures
        instruction_set(code) matches Some(o) ==> {
            &&& o.code == code
            &&& 1 <= o.len <= 3
            &&& o.mnemonic.uses_memory() ==> o.mode != AddressingMode::NoneAddressing
        },
{
}

impl OpCode {
    pub fn new(code: u8, mnemonic: Mnemonic, len: u8, cycles: u8, mode: AddressingMode) -> (r: OpCode)
        ensures
            r == (OpCode { code, mnemonic, len, cycles, mode }),
    {
        OpCode { code: code, mnemonic: mnemonic, len: len, cycles: cycles, mode: mode }
    }
}

/// The descriptor of `code`, or `None` where the instruction set has no entry.
fn describe(code: u8) -> (r: Option<OpCode>)
    ensures
        r == instruction_set(code),
{
    let o = match code {
        0x00 => (Mnemonic::Brk, 1, 7, AddressingMode::NoneAddressing),
        0xAA => (Mnemonic::Tax, 1, 2, AddressingMode::NoneAddressing),
        0xE8 => (Mnemonic::Inx, 1, 2, AddressingMode::NoneAddressing),
        0xA9 => (Mnemonic::Lda, 2, 2, AddressingMode::Immediate),
        0xA5 => (Mnemonic::Lda, 2, 3, AddressingMode::ZeroPage),
        0xB5 => (Mnemonic::Lda, 2, 4, AddressingMode::ZeroPageX),
        0xAD => (Mnemonic::Lda, 3, 4, AddressingMode::Absolute),
        0xBD => (Mnemonic::Lda, 3, 4, AddressingMode::AbsoluteX),
        0xB9 => (Mnemonic::Lda, 3, 4, AddressingMode::AbsoluteY),
        0xA1 => (Mnemonic::Lda, 2, 6, AddressingMode::IndirectX),
        0xB1 => (Mnemonic::Lda, 2, 5, AddressingMode::IndirectY),
        0x85 => (Mnemonic::Sta, 2, 3, AddressingMode::ZeroPage),
        0x95 => (Mnemonic::Sta, 2, 4, AddressingMode::ZeroPageX),
        0x8D => (Mnemonic::Sta, 3, 4, AddressingMode::Absolute),
        0x9D => (Mnemonic::Sta, 3, 5, AddressingMode::AbsoluteX),
        0x99 => (Mnemonic::Sta, 3, 5, AddressingMode::AbsoluteY),
        0x81 => (Mnemonic::Sta, 2, 6, AddressingMode::IndirectX),
        0x91 => (Mnemonic::Sta, 2, 6, AddressingMode::IndirectY),
        0x29 => (Mnemonic::And, 2, 2, AddressingMode::Immediate),
        0x25 => (Mnemonic::And, 2, 3, AddressingMode::ZeroPage),
        0x35 => (Mnemonic::And, 2, 4, AddressingMode::ZeroPageX),
        0x2D => (Mnemonic::And, 3, 4, AddressingMode::Absolute),
        0x3D => (Mnemonic::And, 3, 4, AddressingMode::AbsoluteX),
        0x39 => (Mnemonic::And, 3, 4, AddressingMode::AbsoluteY),
        0x21 => (Mnemonic::And, 2, 6, AddressingMode::IndirectX),
        0x31 => (Mnemonic::And, 2, 5, AddressingMode::IndirectY),
        _ => {
            return None;
        },
    };
    Some(OpCode::new(code, o.0, o.1, o.2, o.3))
}

/// The instruction table, indexed by opcode byte. It is built once and never
/// changed afterwards.
pub struct OpcodeTable {
    entries: Vec<Option<OpCode>>,
}

impl OpcodeTable {
    #[verifier::type_invariant]
    spec fn well_formed(self) -> bool {
        &&& self.entries@.len() == 256
        &&& forall|c: int| 0 <= c < 256 ==> #[trigger] self.entries@[c] == instruction_set(c as u8)
    }

    /// Builds the table of the whole instruction set.
    pub fn new() -> (r: OpcodeTable) {
        let mut entries: Vec<Option<OpCode>> = Vec::with_capacity(256);
        let mut c: u16 = 0;
        while c < 256
            invariant
                c <= 256,
                entries@.len() == c,
                forall|j: int| 0 <= j < c ==> #[trigger] entries@[j] == instruction_set(j as u8),
            decreases 256 - c,
        {
            entries.push(describe(c as u8));
            c = c + 1;
        }
        OpcodeTable { entries }
    }

    /// The descriptor of `code`, or `None` where the instruction set has no entry.
    pub fn lookup(&self, code: u8) -> (r: Option<OpCode>)
        ensures
            r == instruction_set(code),
    {
        proof {
            use_type_invariant(self);
        }
        self.entries[code as usize]
    }
}

} // verus!
