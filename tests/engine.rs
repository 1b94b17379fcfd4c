use cpu6502::cpu::{AddressingMode, Cpu, StepOutcome};
use cpu6502::error::CpuError;
use cpu6502::memory::Memory;
use cpu6502::opcodes::{Mnemonic, OpCode, OpcodeTable};
use cpu6502::registers::{CpuFlags, Flag, Register};

const ZERO: u8 = 0b0000_0010;
const NEGATIVE: u8 = 0b1000_0000;

#[test]
fn lda_immediate_every_value() {
    for v in 0..=255u8 {
        let mut cpu = Cpu::new();
        assert_eq!(cpu.load_and_run(vec![0xA9, v, 0x00]), Ok(()));
        assert_eq!(cpu.register.accumulator, v);
        assert_eq!(cpu.register.processor_status.is_set(Flag::Zero), v == 0);
        assert_eq!(cpu.register.processor_status.is_set(Flag::Negative), v & 0x80 != 0);
    }
}

#[test]
fn lda_negative_value_sets_negative_flag() {
    let mut cpu = Cpu::new();
    cpu.load_and_run(vec![0xA9, 0x80, 0x00]).unwrap();
    assert_eq!(cpu.register.processor_status.bits(), NEGATIVE);
}

#[test]
fn tax_copies_accumulator() {
    let mut cpu = Cpu::new();
    cpu.load_and_run(vec![0xA9, 0x0A, 0xAA, 0x00]).unwrap();
    assert_eq!(cpu.register.x, 0x0A);
}

#[test]
fn inx_wraps_through_zero() {
    let mut cpu = Cpu::new();
    cpu.load_and_run(vec![0xA9, 0xFF, 0xAA, 0xE8, 0x00]).unwrap();
    assert_eq!(cpu.register.x, 0);
    assert!(cpu.register.processor_status.is_set(Flag::Zero));
    cpu.load_and_run(vec![0xA9, 0xFF, 0xAA, 0xE8, 0xE8, 0x00]).unwrap();
    assert_eq!(cpu.register.x, 1);
}

#[test]
fn zero_page_load_reads_seeded_cell() {
    let mut cpu = Cpu::new();
    cpu.memory.write(0x10, 0x55);
    cpu.load_and_run(vec![0xA5, 0x10, 0x00]).unwrap();
    assert_eq!(cpu.register.accumulator, 0x55);
}

#[test]
fn and_immediate_to_zero() {
    let mut cpu = Cpu::new();
    cpu.load_and_run(vec![0xA9, 0xF0, 0x29, 0x0F, 0x00]).unwrap();
    assert_eq!(cpu.register.accumulator, 0x00);
    assert!(cpu.register.processor_status.is_set(Flag::Zero));
}

#[test]
fn and_keeps_common_bits() {
    let mut cpu = Cpu::new();
    cpu.memory.write(0x20, 0b1100_1100);
    cpu.load_and_run(vec![0xA9, 0b1010_1010, 0x25, 0x20, 0x00]).unwrap();
    assert_eq!(cpu.register.accumulator, 0b1000_1000);
    assert_eq!(cpu.register.processor_status.bits(), NEGATIVE);
}

#[test]
fn reset_twice_gives_same_registers() {
    let mut cpu = Cpu::new();
    cpu.load(vec![0xA9, 0x01, 0x00]).unwrap();
    cpu.register.accumulator = 9;
    cpu.register.x = 3;
    cpu.reset();
    let first = cpu.register;
    cpu.reset();
    assert_eq!(cpu.register, first);
    assert_eq!(first.program_counter, 0x8000);
    assert_eq!(first.accumulator, 0);
    assert_eq!(first.x, 0);
    assert_eq!(first.processor_status.bits(), 0);
}

#[test]
fn word_round_trip() {
    let mut mem = Memory::new();
    for &(addr, w) in &[(0x0000u16, 0x1234u16), (0x8000, 0xFFFF), (0x00FF, 0xABCD), (0xFFFF, 0xBEEF)] {
        mem.write_u16(addr, w);
        assert_eq!(mem.read_u16(addr), w);
    }
}

#[test]
fn word_is_little_endian_and_wraps() {
    let mut mem = Memory::new();
    mem.write_u16(0x0200, 0x1234);
    assert_eq!(mem.read(0x0200), 0x34);
    assert_eq!(mem.read(0x0201), 0x12);
    mem.write_u16(0xFFFF, 0xBEEF);
    assert_eq!(mem.read(0xFFFF), 0xEF);
    assert_eq!(mem.read(0x0000), 0xBE);
}

#[test]
fn unknown_opcode_is_reported() {
    let mut cpu = Cpu::new();
    let r = cpu.load_and_run(vec![0xA9, 0x01, 0x02, 0x00]);
    assert_eq!(r, Err(CpuError::UnrecognizedOpcode { code: 0x02, pc: 0x8002 }));
    assert_eq!(cpu.register.program_counter, 0x8002);
    assert_eq!(cpu.register.accumulator, 1);
}

#[test]
fn oversized_image_is_refused_untouched() {
    let mut cpu = Cpu::new();
    let r = cpu.load(vec![0xEA; 0x8001]);
    assert_eq!(r, Err(CpuError::ImageOverflow { len: 0x8001 }));
    assert_eq!(cpu.memory.read(0x8000), 0);
    assert_eq!(cpu.memory.read_u16(0xFFFC), 0);
    assert_eq!(cpu.load_and_run(vec![0x00; 0x8001]), Err(CpuError::ImageOverflow { len: 0x8001 }));
}

#[test]
fn largest_image_fits() {
    let mut mem = Memory::new();
    assert_eq!(mem.load_program(vec![0x07; 0x8000]), Ok(()));
    assert_eq!(mem.read(0x8000), 0x07);
    assert_eq!(mem.read(0xFFFF), 0x07);
    assert_eq!(mem.read(0x7FFF), 0x00);
}

#[test]
fn step_and_budget() {
    let mut cpu = Cpu::new();
    cpu.load(vec![0xE8, 0xE8, 0x00]).unwrap();
    cpu.reset();
    assert_eq!(cpu.step(), Ok(StepOutcome::Continue));
    assert_eq!(cpu.register.program_counter, 0x8001);
    assert_eq!(cpu.run_for(1), Err(CpuError::StepLimitReached));
    assert_eq!(cpu.register.x, 2);
    assert_eq!(cpu.run_for(1), Ok(()));
    assert_eq!(cpu.register.program_counter, 0x8003);
    assert_eq!(cpu.run_for(0), Err(CpuError::StepLimitReached));
}

#[test]
fn store_in_each_mode() {
    let mut cpu = Cpu::new();
    cpu.memory.write(0x40, 0x00);
    cpu.memory.write(0x41, 0x03);
    cpu.memory.write(0x50, 0x10);
    cpu.memory.write(0x51, 0x03);
    cpu.load_and_run(vec![
        0xA9, 0x05, 0xAA, // A = 5, X = 5
        0x85, 0x10, // STA $10
        0x95, 0x10, // STA $10,X -> $15
        0x8D, 0x00, 0x02, // STA $0200
        0x9D, 0x00, 0x02, // STA $0200,X -> $0205
        0x99, 0x00, 0x02, // STA $0200,Y -> $0200 (Y = 0)
        0x81, 0x3B, // STA ($3B,X) -> pointer $40 -> $0300
        0x91, 0x50, // STA ($50),Y -> pointer $50 -> $0310
        0x00,
    ])
    .unwrap();
    assert_eq!(cpu.memory.read(0x10), 5);
    assert_eq!(cpu.memory.read(0x15), 5);
    assert_eq!(cpu.memory.read(0x0200), 5);
    assert_eq!(cpu.memory.read(0x0205), 5);
    assert_eq!(cpu.memory.read(0x0300), 5);
    assert_eq!(cpu.memory.read(0x0310), 5);
}

#[test]
fn load_in_each_mode() {
    let mut cpu = Cpu::new();
    cpu.load(vec![0x00]).unwrap();
    cpu.reset();
    cpu.register.x = 2;
    cpu.register.y = 3;
    cpu.memory.write(0x0010, 0x11);
    cpu.memory.write(0x0012, 0x22);
    cpu.memory.write(0x1234, 0x33);
    cpu.memory.write(0x1236, 0x44);
    cpu.memory.write(0x1237, 0x55);
    cpu.memory.write(0x0001, 0x66);
    cpu.memory.write(0x0012, 0x22);
    cpu.register.program_counter = 0x0100;
    cpu.memory.write(0x0100, 0x10);
    cpu.memory.write(0x0101, 0x34);
    cpu.memory.write(0x0102, 0x12);
    assert_eq!(cpu.get_operand_anddress(&AddressingMode::Immediate), 0x0100);
    assert_eq!(cpu.get_operand_anddress(&AddressingMode::ZeroPage), 0x0010);
    assert_eq!(cpu.get_operand_anddress(&AddressingMode::ZeroPageX), 0x0012);
    assert_eq!(cpu.get_operand_anddress(&AddressingMode::ZeroPageY), 0x0013);
    assert_eq!(cpu.get_operand_anddress(&AddressingMode::Absolute), 0x3410);
    assert_eq!(cpu.get_operand_anddress(&AddressingMode::AbsoluteX), 0x3412);
    assert_eq!(cpu.get_operand_anddress(&AddressingMode::AbsoluteY), 0x3413);
    // pointer $12 holds $22 low and $00 high
    assert_eq!(cpu.get_operand_anddress(&AddressingMode::IndirectX), 0x0022);
    cpu.memory.write(0x0013, 0x36);
    cpu.memory.write(0x0014, 0x12);
    assert_eq!(cpu.get_operand_anddress(&AddressingMode::IndirectY), 0x1236);
    cpu.lda(&AddressingMode::IndirectY);
    assert_eq!(cpu.register.accumulator, 0x44);
}

#[test]
fn indexed_addresses_wrap() {
    let mut cpu = Cpu::new();
    cpu.register.program_counter = 0x0300;
    cpu.memory.write(0x0300, 0xFF);
    cpu.memory.write(0x0301, 0xFF);
    cpu.register.x = 2;
    assert_eq!(cpu.get_operand_anddress(&AddressingMode::ZeroPageX), 0x0001);
    assert_eq!(cpu.get_operand_anddress(&AddressingMode::AbsoluteX), 0x0001);
    cpu.register.x = 0;
    cpu.memory.write(0x00FF, 0x78);
    cpu.memory.write(0x0000, 0x56);
    assert_eq!(cpu.get_operand_anddress(&AddressingMode::IndirectX), 0x5678);
}

#[test]
fn flag_set_and_clear() {
    let mut r = Register::new();
    assert_eq!(r.processor_status.bits(), 0b0010_0100);
    assert!(r.processor_status.is_set(Flag::InterruptDisable));
    assert!(r.processor_status.is_set(Flag::Break2));
    r.set_carry_flag();
    assert_eq!(r.processor_status.bits(), 0b0010_0101);
    r.clear_carry_flag();
    assert_eq!(r.processor_status.bits(), 0b0010_0100);
    r.update_zero_and_negative_flags(0);
    assert_eq!(r.processor_status.bits(), 0b0010_0100 | ZERO);
    r.update_zero_and_negative_flags(0x90);
    assert_eq!(r.processor_status.bits(), 0b0010_0100 | NEGATIVE);
    r.set_accumulator(0x01);
    assert_eq!(r.accumulator, 1);
    assert_eq!(r.processor_status.bits(), 0b0010_0100);
    let mut f = CpuFlags::from_bits_truncate(0xFF);
    f.clear(Flag::Overflow);
    assert_eq!(f.bits(), 0b1011_1111);
    f.set(Flag::Overflow);
    assert_eq!(f.bits(), 0xFF);
}

#[test]
fn table_lookup() {
    let t = OpcodeTable::new();
    assert_eq!(
        t.lookup(0xB1),
        Some(OpCode::new(0xB1, Mnemonic::Lda, 2, 5, AddressingMode::IndirectY))
    );
    assert_eq!(t.lookup(0x95).map(|o| o.mnemonic), Some(Mnemonic::Sta));
    assert_eq!(t.lookup(0x29).map(|o| o.len), Some(2));
    assert_eq!(t.lookup(0x02), None);
    assert_eq!(t.lookup(0xFF), None);
}
