use vstd::prelude::*;

use crate::error::CpuError;
use crate::memory::{image_fits, lemma_combine_bytes, next_addr, with_image, with_word, word_at, Memory, PROGRAM_BASE};
use crate::opcodes::{instruction_set, lemma_instruction_set_consistent, Mnemonic, OpCode, OpcodeTable};
use crate::registers::{lemma_zn_bits, CpuFlags, Flag, Register};

verus! {

/// Address of the little-endian reset vector, which holds the start address of code.
pub const RESET_VECTOR: u16 = 0xFFFC;

/// How an instruction's operand bytes become an effective address.
#[derive(Clone, Copy, Debug, PartialEq, Eq, Structural)]
pub enum AddressingMode {
    Immediate,
    ZeroPage,
    ZeroPageX,
    ZeroPageY,
    Absolute,
    AbsoluteX,
    AbsoluteY,
    IndirectX,
    IndirectY,
    NoneAddressing,
}

/// What a single step of execution ended with.
#[derive(Clone, Copy, Debug, PartialEq, Eq, Structural)]
pub enum StepOutcome {
    /// An instruction was executed and the next one is due.
    Continue,
    /// The break instruction was reached.
    Halted,
}

/// The state that execution reads and changes: the registers and the memory.
pub struct Machine {
    pub register: Register,
    pub memory: Seq<u8>,
}

/// The word stored in page zero at `ptr`; its high byte wraps within page zero.
pub open spec fn zero_page_word(mem: Seq<u8>, ptr: u8) -> u16 {
    (mem[ptr as int] as int + 256 * mem[ptr.wrapping_add(1) as int] as int) as u16
}

/// The effective address of an operand in `mode`, the program counter being
/// at the first operand byte.
pub open spec fn operand_address(m: Machine, mode: AddressingMode) -> u16 {
    let pc = m.register.program_counter;
    let mem = m.memory;
    let x = m.register.x;
    let y = m.register.y;
    match mode {
        AddressingMode::Immediate => pc,
        AddressingMode::ZeroPage => mem[pc as int] as u16,
        AddressingMode::ZeroPageX => mem[pc as int].wrapping_add(x) as u16,
        AddressingMode::ZeroPageY => mem[pc as int].wrapping_add(y) as u16,
        AddressingMode::Absolute => word_at(mem, pc),
        AddressingMode::AbsoluteX => word_at(mem, pc).wrapping_add(x as u16),
        AddressingMode::AbsoluteY => word_at(mem, pc).wrapping_add(y as u16),
        AddressingMode::IndirectX => zero_page_word(mem, mem[pc as int].wrapping_add(x)),
        AddressingMode::IndirectY => zero_page_word(mem, mem[pc as int].wrapping_add(y)),
        AddressingMode::NoneAddressing => 0,
    }
}

/// The byte at the effective address of `mode`.
pub open spec fn operand(m: Machine, mode: AddressingMode) -> u8 {
    m.memory[operand_address(m, mode) as int]
}

/// `m` with its memory replaced by `mem`.
pub open spec fn with_memory(m: Machine, mem: Seq<u8>) -> Machine {
    Machine { register: m.register, memory: mem }
}

/// `m` with its registers replaced by `r`.
pub open spec fn with_register(m: Machine, r: Register) -> Machine {
    Machine { register: r, memory: m.memory }
}

/// Load-accumulator: the operand goes to the accumulator, which sets Zero and Negative.
pub open spec fn lda_spec(m: Machine, mode: AddressingMode) -> Machine {
    let v = operand(m, mode);
    with_register(m, Register { accumulator: v, ..m.register }.with_zn(v))
}

/// Store-accumulator: the accumulator goes to the effective address; no flag changes.
pub open spec fn sta_spec(m: Machine, mode: AddressingMode) -> Machine {
    Machine {
        register: m.register,
        memory: m.memory.update(operand_address(m, mode) as int, m.register.accumulator),
    }
}

/// Logical AND of the operand into the accumulator, which sets Zero and Negative.
pub open spec fn and_spec(m: Machine, mode: AddressingMode) -> Machine {
    let v = operand(m, mode) & m.register.accumulator;
    with_register(m, Register { accumulator: v, ..m.register }.with_zn(v))
}

/// Transfer accumulator to X, which sets Zero and Negative.
pub open spec fn tax_spec(m: Machine) -> Machine {
    let v = m.register.accumulator;
    with_register(m, Register { x: v, ..m.register }.with_zn(v))
}

/// Increment X, wrapping at 8 bits, which sets Zero and Negative.
pub open spec fn inx_spec(m: Machine) -> Machine {
    let v = m.register.x.wrapping_add(1);
    with_register(m, Register { x: v, ..m.register }.with_zn(v))
}

/// The effect of an instruction's body, the program counter being at its
/// first operand byte.
pub open spec fn execute_spec(m: Machine, o: OpCode) -> Machine {
    match o.mnemonic {
        Mnemonic::Lda => lda_spec(m, o.mode),
        Mnemonic::Sta => sta_spec(m, o.mode),
        Mnemonic::And => and_spec(m, o.mode),
        Mnemonic::Tax => tax_spec(m),
        Mnemonic::Inx => inx_spec(m),
        Mnemonic::Brk => m,
    }
}

/// One fetch-decode-execute step. An opcode outside the instruction set is
/// an error and leaves the machine as it was. The break instruction halts
/// with the program counter past it. Any other instruction runs its body;
/// unless the body moved the program counter, it then skips the operand bytes.
pub open spec fn step_spec(m: Machine) -> (Machine, Result<StepOutcome, CpuError>) {
    let pc = m.register.program_counter;
    let code = m.memory[pc as int];
    let pc1 = next_addr(pc);
    match instruction_set(code) {
        None => (m, Err(CpuError::UnrecognizedOpcode { code, pc })),
        Some(o) => {
            let fetched = with_register(m, Register { program_counter: pc1, ..m.register });
            if o.mnemonic == Mnemonic::Brk {
                (fetched, Ok(StepOutcome::Halted))
            } else {
                let done = execute_spec(fetched, o);
                let pc2 = if done.register.program_counter == pc1 {
                    pc1.wrapping_add((o.len - 1) as u16)
                } else {
                    done.register.program_counter
                };
                (
                    with_register(done, Register { program_counter: pc2, ..done.register }),
                    Ok(StepOutcome::Continue),
                )
            }
        },
    }
}

/// Up to `steps` steps from `m`: until a halt (`Ok`), an error, or the
/// budget is used up (`StepLimitReached`).
pub open spec fn run_spec(m: Machine, steps: nat) -> (Machine, Result<(), CpuError>)
    decreases steps,
{
    if steps == 0 {
        (m, Err(CpuError::StepLimitReached))
    } else {
        let (m1, r) = step_spec(m);
        match r {
            Err(e) => (m1, Err(e)),
            Ok(StepOutcome::Halted) => (m1, Ok(())),
            Ok(StepOutcome::Continue) => run_spec(m1, (steps - 1) as nat),
        }
    }
}

/// The registers after a reset: accumulator, X, Y and the flags cleared, the
/// program counter taken from the reset vector, the stack pointer kept.
pub open spec fn reset_spec(m: Machine) -> Machine {
    with_register(
        m,
        Register {
            accumulator: 0,
            x: 0,
            y: 0,
            processor_status: CpuFlags { bits: 0 },
            program_counter: word_at(m.memory, RESET_VECTOR),
            ..m.register
        },
    )
}

/// The memory after loading `program`: the image at the program base, and
/// the program base in the reset vector.
pub open spec fn loaded_memory(mem: Seq<u8>, program: Seq<u8>) -> Seq<u8> {
    with_word(with_image(mem, program, PROGRAM_BASE as int), RESET_VECTOR, PROGRAM_BASE)
}

/// The processor: registers, memory and the instruction table it decodes with.
pub struct Cpu {
    pub register: Register,
    pub memory: Memory,
    pub opcodes: OpcodeTable,
}

impl Cpu {
    /// The registers and memory of the processor.
    pub open spec fn machine(&self) -> Machine {
        Machine { register: self.register, memory: self.memory@ }
    }

    /// The effective address of the operand of an instruction in `mode`, the
    /// program counter being at its first operand byte. A mode without a
    /// memory operand has none to give.
    pub fn get_operand_anddress(&self, mode: &AddressingMode) -> (r: u16)
        requires
            *mode != AddressingMode::NoneAddressing,
        ensures
            r == operand_address(self.machine(), *mode),
    {
        let pc = self.register.program_counter;
        match mode {
            AddressingMode::Immediate => pc,
            AddressingMode::ZeroPage => self.memory.read(pc) as u16,
            AddressingMode::ZeroPageX => {
                let pos = self.memory.read(pc);
                pos.wrapping_add(self.register.x) as u16
            },
            AddressingMode::ZeroPageY => {
                let pos = self.memory.read(pc);
                pos.wrapping_add(self.register.y) as u16
            },
            AddressingMode::Absolute => self.memory.read_u16(pc),
            AddressingMode::AbsoluteX => {
                let base = self.memory.read_u16(pc);
                base.wrapping_add(self.register.x as u16)
            },
            AddressingMode::AbsoluteY => {
                let base = self.memory.read_u16(pc);
                base.wrapping_add(self.register.y as u16)
            },
            AddressingMode::IndirectX => {
                let base = self.memory.read(pc);
                let ptr: u8 = base.wrapping_add(self.register.x);
                self.read_zero_page_word(ptr)
            },
            AddressingMode::IndirectY => {
                let base = self.memory.read(pc);
                let ptr: u8 = base.wrapping_add(self.register.y);
                self.read_zero_page_word(ptr)
            },
            AddressingMode::NoneAddressing => 0,
        }
    }

    /// The word in page zero at `ptr`, its high byte read from `ptr + 1`
    /// wrapped within page zero.
    fn read_zero_page_word(&self, ptr: u8) -> (r: u16)
        ensures
            r == zero_page_word(self.memory@, ptr),
    {
        let lo = self.memory.read(ptr as u16);
        let hi = self.memory.read(ptr.wrapping_add(1) as u16);
        proof {
            lemma_combine_bytes(lo, hi);
        }
        ((hi as u16) << 8u16) | (lo as u16)
    }

    /// Logical AND of the operand into the accumulator.
    pub fn and(&mut self, mode: &AddressingMode)
        requires
            *mode != AddressingMode::NoneAddressing,
        ensures
            final(self).machine() == and_spec(old(self).machine(), *mode),
    {
        let address = self.get_operand_anddress(mode);
        let data = self.memory.read(address);
        let value = data & self.register.accumulator;
        self.register.set_accumulator(value);
    }

    /// Transfer accumulator to X.
    pub fn tax(&mut self)
        ensures
            final(self).machine() == tax_spec(old(self).machine()),
    {
        self.register.x = self.register.accumulator;
        let x = self.register.x;
        self.register.update_zero_and_negative_flags(x);
    }

    /// Load accumulator from the operand.
    pub fn lda(&mut self, mode: &AddressingMode)
        requires
            *mode != AddressingMode::NoneAddressing,
        ensures
            final(self).machine() == lda_spec(old(self).machine(), *mode),
    {
        let address = self.get_operand_anddress(mode);
        let value = self.memory.read(address);
        self.register.accumulator = value;
        self.register.update_zero_and_negative_flags(value);
    }

    /// Increment X, wrapping from 0xFF to 0x00.
    pub fn inx(&mut self)
        ensures
            final(self).machine() == inx_spec(old(self).machine()),
    {
        self.register.x = self.register.x.wrapping_add(1);
        let x = self.register.x;
        self.register.update_zero_and_negative_flags(x);
    }

    /// Store accumulator at the effective address.
    pub fn sta(&mut self, mode: &AddressingMode)
        requires
            *mode != AddressingMode::NoneAddressing,
        ensures
            final(self).machine() == sta_spec(old(self).machine(), *mode),
    {
        let address = self.get_operand_anddress(mode);
        let a = self.register.accumulator;
        self.memory.write(address, a);
    }

    /// A processor with zeroed memory, power-on registers and the full
    /// instruction table.
    pub fn new() -> (r: Cpu)
        ensures
            r.register == Register::new_spec(),
            r.memory@ == Seq::new(0x10000, |i: int| 0u8),
    {
        Cpu { register: Register::new(), memory: Memory::new(), opcodes: OpcodeTable::new() }
    }

    /// Loads `program` at the program base and points the reset vector at it.
    /// An image too large for the space above the base is refused and nothing
    /// is written.
    pub fn load(&mut self, program: Vec<u8>) -> (r: Result<(), CpuError>)
        ensures
            image_fits(program@.len()) ==> r is Ok && final(self).machine() == with_memory(
                old(self).machine(),
                loaded_memory(old(self).memory@, program@),
            ),
            !image_fits(program@.len()) ==> r == Err::<(), CpuError>(
                CpuError::ImageOverflow { len: program@.len() as usize },
            ) && final(self).machine() == old(self).machine(),
    {
        self.memory.load_program(program)?;
        self.memory.write_u16(RESET_VECTOR, PROGRAM_BASE);
        Ok(())
    }

    /// Clears accumulator, X, Y and the flags, and sets the program counter
    /// from the reset vector.
    pub fn reset(&mut self)
        ensures
            final(self).machine() == reset_spec(old(self).machine()),
    {
        self.register.accumulator = 0;
        self.register.x = 0;
        self.register.y = 0;
        self.register.processor_status = CpuFlags::from_bits_truncate(0);
        self.register.program_counter = self.memory.read_u16(RESET_VECTOR);
    }

    /// Runs the body of instruction `o`, the program counter being at its
    /// first operand byte.
    fn execute(&mut self, o: &OpCode) -> (halted: bool)
        requires
            o.mnemonic.uses_memory() ==> o.mode != AddressingMode::NoneAddressing,
        ensures
            final(self).machine() == execute_spec(old(self).machine(), *o),
            halted == (o.mnemonic == Mnemonic::Brk),
    {
        match o.mnemonic {
            Mnemonic::Lda => self.lda(&o.mode),
            Mnemonic::Sta => self.sta(&o.mode),
            Mnemonic::And => self.and(&o.mode),
            Mnemonic::Tax => self.tax(),
            Mnemonic::Inx => self.inx(),
            Mnemonic::Brk => {
                return true;
            },
        }
        false
    }

    /// Fetches, decodes and executes one instruction.
    pub fn step(&mut self) -> (r: Result<StepOutcome, CpuError>)
        ensures
            final(self).machine() == step_spec(old(self).machine()).0,
            r == step_spec(old(self).machine()).1,
    {
        let pc = self.register.program_counter;
        let code = self.memory.read(pc);
        let o = match self.opcodes.lookup(code) {
            Some(o) => o,
            None => {
                return Err(CpuError::UnrecognizedOpcode { code, pc });
            },
        };
        proof {
            lemma_instruction_set_consistent(code);
        }
        let pc1 = pc.wrapping_add(1);
        self.register.program_counter = pc1;
        if self.execute(&o) {
            return Ok(StepOutcome::Halted);
        }
        if self.register.program_counter == pc1 {
            self.register.program_counter = pc1.wrapping_add((o.len - 1) as u16);
        }
        Ok(StepOutcome::Continue)
    }

    /// Executes at most `max_steps` instructions: `Ok` at the break
    /// instruction, the error of a step that failed, or `StepLimitReached`
    /// when the budget runs out first.
    pub fn run_for(&mut self, max_steps: u64) -> (r: Result<(), CpuError>)
        ensures
            final(self).machine() == run_spec(old(self).machine(), max_steps as nat).0,
            r == run_spec(old(self).machine(), max_steps as nat).1,
    {
        let ghost start = self.machine();
        let mut left: u64 = max_steps;
        loop
            invariant
                start == old(self).machine(),
                run_spec(start, max_steps as nat) == run_spec(self.machine(), left as nat),
            decreases left,
        {
            if left == 0 {
                return Err(CpuError::StepLimitReached);
            }
            match self.step() {
                Err(e) => {
                    return Err(e);
                },
                Ok(StepOutcome::Halted) => {
                    return Ok(());
                },
                Ok(StepOutcome::Continue) => {},
            }
            left = left - 1;
        }
    }

    /// Executes instructions until the break instruction or a failure, with
    /// the largest step budget there is.
    pub fn run(&mut self) -> (r: Result<(), CpuError>)
        ensures
            final(self).machine() == run_spec(old(self).machine(), u64::MAX as nat).0,
            r == run_spec(old(self).machine(), u64::MAX as nat).1,
    {
        self.run_for(u64::MAX)
    }

    /// Loads `program`, resets and runs it.
    pub fn load_and_run(&mut self, program: Vec<u8>) -> (r: Result<(), CpuError>)
        ensures
            image_fits(program@.len()) ==> ({
                let booted = reset_spec(
                    with_memory(old(self).machine(), loaded_memory(old(self).memory@, program@)),
                );
                &&& final(self).machine() == run_spec(booted, u64::MAX as nat).0
                &&& r == run_spec(booted, u64::MAX as nat).1
            }),
            !image_fits(program@.len()) ==> r == Err::<(), CpuError>(
                CpuError::ImageOverflow { len: program@.len() as usize },
            ) && final(self).machine() == old(self).machine(),
    {
        self.load(program)?;
        self.reset();
        self.run()
    }
}

/// Resetting twice in a row gives the same state as resetting once.
pub proof fn lemma_reset_idempotent(m: Machine)
    ensures
        reset_spec(reset_spec(m)) == reset_spec(m),
{
}

/// A byte with no entry in the instruction set is reported as an
/// unrecognized opcode at its address, never skipped: the step fails, and so
/// does a run that reaches it, with the machine left as it was.
pub proof fn lemma_unrecognized_opcode(m: Machine, steps: nat)
    requires
        instruction_set(m.memory[m.register.program_counter as int]) is None,
        steps > 0,
    ensures
        step_spec(m) == (m, Err::<StepOutcome, CpuError>(
            CpuError::UnrecognizedOpcode {
                code: m.memory[m.register.program_counter as int],
                pc: m.register.program_counter,
            },
        )),
        run_spec(m, steps) == (m, Err::<(), CpuError>(
            CpuError::UnrecognizedOpcode {
                code: m.memory[m.register.program_counter as int],
                pc: m.register.program_counter,
            },
        )),
{
}

/// Loading and running "load accumulator immediate `v`; break" halts with
/// `v` in the accumulator, Zero set iff `v` is zero and Negative set iff bit 7
/// of `v` is set, whatever the memory held before.
pub proof fn lemma_load_immediate_then_halt(m: Machine, v: u8)
    requires
        m.memory.len() == 0x10000,
    ensures
        ({
            let booted = reset_spec(with_memory(m, loaded_memory(m.memory, seq![0xA9u8, v, 0x00u8])));
            let (f, r) = run_spec(booted, u64::MAX as nat);
            &&& r is Ok
            &&& f.register.accumulator == v
            &&& f.register.processor_status.has(Flag::Zero) == (v == 0)
            &&& f.register.processor_status.has(Flag::Negative) == (v & 0x80 != 0)
        }),
{
    let program = seq![0xA9u8, v, 0x00u8];
    let mem = loaded_memory(m.memory, program);
    let image = with_image(m.memory, program, PROGRAM_BASE as int);
    assert(image[0x8000] == 0xA9u8);
    assert(image[0x8001] == v);
    assert(image[0x8002] == 0x00u8);
    assert(mem[0xFFFC] == 0x00u8);
    assert(mem[0xFFFD] == 0x80u8);
    assert(mem[0x8000] == 0xA9u8);
    assert(mem[0x8001] == v);
    assert(mem[0x8002] == 0x00u8);
    let booted = reset_spec(with_memory(m, mem));
    assert(booted.register.program_counter == 0x8000);
    let (m1, r1) = step_spec(booted);
    assert(m1.register.program_counter == 0x8002);
    assert(m1.register.accumulator == v);
    assert(r1 == Ok::<StepOutcome, CpuError>(StepOutcome::Continue));
    let (m2, r2) = step_spec(m1);
    assert(r2 == Ok::<StepOutcome, CpuError>(StepOutcome::Halted));
    assert(run_spec(m1, (u64::MAX - 1) as nat) == (m2, Ok::<(), CpuError>(())));
    lemma_zn_bits(0, v);
}

} // verus!
