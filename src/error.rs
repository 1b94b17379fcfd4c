use vstd::prelude::*;

verus! {

/// The ways in which loading or running a program can fail.
#[derive(Clone, Copy, Debug, PartialEq, Eq, Structural)]
pub enum CpuError {
    /// The byte `code` fetched at address `pc` names no instruction of the table.
    UnrecognizedOpcode { code: u8, pc: u16 },
    /// A program image of `len` bytes does not fit between the base address and
    /// the end of the address space.
    ImageOverflow { len: usize },
    /// The run ended because its step budget was used up before a halt.
    StepLimitReached,
}

} // verus!
