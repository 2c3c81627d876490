use mos6502_core::bus::AddressBus;
use mos6502_core::bus::MappedDevice;
use mos6502_core::bus::Ram;
use mos6502_core::cpu::CpuCore;
use mos6502_core::cpu::instruction::CoreError;
use mos6502_core::cpu::instruction::Instruction;
use mos6502_core::cpu::instruction::InstructionInput;
use mos6502_core::cpu::instruction::InstructionMode;
use mos6502_core::cpu::instruction::InstructionOperation;

fn machine(program: &[u8], origin: u16) -> (CpuCore, AddressBus) {
    let mut bus = AddressBus::new(0x00);
    assert!(bus.map_device(0x0000, 0xFFFF, MappedDevice::Ram(Ram::new(0x10000))));
    let mut a = origin;
    for &b in program {
        bus.write(a, b);
        a = a.wrapping_add(1);
    }
    let mut cpu = CpuCore::new(false);
    cpu.pc = origin;
    (cpu, bus)
}

#[test]
fn resolve_leaves_pc_at_next_opcode() {
    let (mut cpu, bus) = machine(&[0xBD, 0x34, 0x12], 0x8000);
    cpu.x = 5;
    let ins = Instruction::from_opcode(0xBD).unwrap();
    let (input, extra) = cpu.resolve(&bus, ins);
    assert_eq!(cpu.pc, 0x8003);
    assert_eq!(input, InstructionInput::Address(0x1239));
    assert_eq!(extra, 0);

    let (mut cpu2, bus2) = machine(&[0xEA], 0x1234);
    let nop = Instruction::from_opcode(0xEA).unwrap();
    let (input2, extra2) = cpu2.resolve(&bus2, nop);
    assert_eq!(cpu2.pc, 0x1235);
    assert_eq!(input2, InstructionInput::Implied);
    assert_eq!(extra2, 0);
}

#[test]
fn indirect_pointer_at_page_boundary_wraps_high_fetch() {
    // The hardware bug: a pointer with low byte 0xFF fetches its high byte
    // from the start of the same page rather than crossing it.
    let (mut cpu, mut bus) = machine(&[0x6C, 0xFF, 0x20], 0x8000);
    bus.write(0x20FF, 0x34);
    bus.write(0x2000, 0x12);
    bus.write(0x2100, 0x99);
    let ins = Instruction {
        operation: InstructionOperation::Jmp,
        mode: InstructionMode::Indirect,
        len: 3,
        cycles_base: 5,
    };
    let (input, extra) = cpu.resolve(&bus, ins);
    assert_eq!(input, InstructionInput::Address(0x1234));
    assert_eq!(extra, 0);
}

#[test]
fn relative_displacement_is_signed() {
    let (mut cpu, bus) = machine(&[0xF0, 0xFB], 0x8000);
    let ins = Instruction {
        operation: InstructionOperation::Beq,
        mode: InstructionMode::Relative,
        len: 2,
        cycles_base: 2,
    };
    let (input, _) = cpu.resolve(&bus, ins);
    // Displacement -5 applied to the address after the instruction, 0x8002.
    assert_eq!(input, InstructionInput::Address(0x7FFD));

    let (mut cpu2, bus2) = machine(&[0xF0, 0x10], 0x8000);
    let (input2, _) = cpu2.resolve(&bus2, ins);
    assert_eq!(input2, InstructionInput::Address(0x8012));
}

#[test]
fn zero_page_y_wraps_within_page() {
    let (mut cpu, bus) = machine(&[0xB6, 0xF0], 0x8000);
    cpu.y = 0x20;
    let ins = Instruction {
        operation: InstructionOperation::Ldx,
        mode: InstructionMode::ZeroPageY,
        len: 2,
        cycles_base: 4,
    };
    let (input, extra) = cpu.resolve(&bus, ins);
    assert_eq!(input, InstructionInput::Address(0x0010));
    assert_eq!(extra, 0);
}

#[test]
fn store_class_always_pays_index_penalty() {
    // No page crossing, yet a store through an indexed mode pays the cycle.
    let (mut cpu, bus) = machine(&[0x9D, 0x00, 0x20], 0x8000);
    cpu.x = 0x01;
    let ins = Instruction {
        operation: InstructionOperation::Sta,
        mode: InstructionMode::AbsoluteX,
        len: 3,
        cycles_base: 4,
    };
    let (input, extra) = cpu.resolve(&bus, ins);
    assert_eq!(input, InstructionInput::Address(0x2001));
    assert_eq!(extra, 1);
}

#[test]
fn accumulator_mode_resolves_to_accumulator_operand() {
    let (mut cpu, bus) = machine(&[0x0A], 0x8000);
    let ins = Instruction {
        operation: InstructionOperation::Asl,
        mode: InstructionMode::Accumulator,
        len: 1,
        cycles_base: 2,
    };
    let (input, extra) = cpu.resolve(&bus, ins);
    assert_eq!(input, InstructionInput::Accumulator);
    assert_eq!(extra, 0);
    assert_eq!(cpu.pc, 0x8001);
}

#[test]
fn adc_sum_without_carry_or_overflow() {
    let (mut cpu, mut bus) = machine(&[0x69, 0x10], 0x8000);
    cpu.a = 0x50;
    let cycles = cpu.step(&mut bus).unwrap();
    assert_eq!(cpu.a, 0x60);
    assert!(!cpu.flags.carry);
    assert!(!cpu.flags.overflow);
    assert!(!cpu.flags.zero);
    assert!(!cpu.flags.negative);
    assert_eq!(cycles, 2);
}

#[test]
fn adc_sum_with_carry_out() {
    let (mut cpu, mut bus) = machine(&[0x69, 0xD0], 0x8000);
    cpu.a = 0x50;
    cpu.step(&mut bus).unwrap();
    assert_eq!(cpu.a, 0x20);
    assert!(cpu.flags.carry);
    assert!(!cpu.flags.overflow);
}

#[test]
fn adc_signed_overflow() {
    let (mut cpu, mut bus) = machine(&[0x69, 0x50], 0x8000);
    cpu.a = 0x50;
    cpu.step(&mut bus).unwrap();
    assert_eq!(cpu.a, 0xA0);
    assert!(cpu.flags.overflow);
    assert!(cpu.flags.negative);
    assert!(!cpu.flags.carry);
}

#[test]
fn adc_uses_carry_in() {
    let (mut cpu, mut bus) = machine(&[0x69, 0x10], 0x8000);
    cpu.a = 0x50;
    cpu.flags.carry = true;
    cpu.step(&mut bus).unwrap();
    assert_eq!(cpu.a, 0x61);
    assert!(!cpu.flags.carry);
}

#[test]
fn adc_decimal_mode_corrects_nibbles() {
    let (mut cpu, mut bus) = machine(&[0x69, 0x01], 0x8000);
    cpu.decimal_enabled = true;
    cpu.flags.decimal = true;
    cpu.a = 0x09;
    cpu.step(&mut bus).unwrap();
    assert_eq!(cpu.a, 0x10);
    assert!(!cpu.flags.carry);

    let (mut cpu2, mut bus2) = machine(&[0x69, 0x01], 0x8000);
    cpu2.decimal_enabled = true;
    cpu2.flags.decimal = true;
    cpu2.a = 0x99;
    cpu2.step(&mut bus2).unwrap();
    assert_eq!(cpu2.a, 0x00);
    assert!(cpu2.flags.carry);
    // Zero comes from the uncorrected binary sum, which is 0x9A here.
    assert!(!cpu2.flags.zero);
}

#[test]
fn adc_decimal_flag_ignored_when_not_honoured() {
    let (mut cpu, mut bus) = machine(&[0x69, 0x01], 0x8000);
    cpu.decimal_enabled = false;
    cpu.flags.decimal = true;
    cpu.a = 0x09;
    cpu.step(&mut bus).unwrap();
    assert_eq!(cpu.a, 0x0A);
}

#[test]
fn lda_immediate_sets_zero_and_negative() {
    let (mut cpu, mut bus) = machine(&[0xA9, 0x00], 0x8000);
    cpu.a = 0x55;
    cpu.step(&mut bus).unwrap();
    assert_eq!(cpu.a, 0x00);
    assert!(cpu.flags.zero);
    assert!(!cpu.flags.negative);

    let (mut cpu2, mut bus2) = machine(&[0xA9, 0x80], 0x8000);
    cpu2.step(&mut bus2).unwrap();
    assert_eq!(cpu2.a, 0x80);
    assert!(!cpu2.flags.zero);
    assert!(cpu2.flags.negative);
}

#[test]
fn lda_absolute_indexed_page_cross_costs_one_extra() {
    // base 0x80F0 + X 0x20 crosses into page 0x81: base cycles 4 plus 1.
    let (mut cpu, mut bus) = machine(&[0xBD, 0xF0, 0x80], 0x4000);
    cpu.x = 0x20;
    bus.write(0x8110, 0x3C);
    let cycles = cpu.step(&mut bus).unwrap();
    assert_eq!(cpu.a, 0x3C);
    assert_eq!(cycles, 5);

    // base 0x80F0 + X 0x05 stays on page 0x80: exactly the base 4 cycles.
    let (mut cpu2, mut bus2) = machine(&[0xBD, 0xF0, 0x80], 0x4000);
    cpu2.x = 0x05;
    bus2.write(0x80F5, 0x7A);
    let cycles2 = cpu2.step(&mut bus2).unwrap();
    assert_eq!(cpu2.a, 0x7A);
    assert_eq!(cycles2, 4);
}

#[test]
fn lda_zero_page_x_wraps_within_page() {
    let (mut cpu, mut bus) = machine(&[0xB5, 0xF0], 0x8000);
    cpu.x = 0x20;
    bus.write(0x0010, 0x99);
    cpu.step(&mut bus).unwrap();
    assert_eq!(cpu.a, 0x99);
}

#[test]
fn lda_indirect_x_dereferences_zero_page_pointer() {
    let (mut cpu, mut bus) = machine(&[0xA1, 0x20], 0x8000);
    cpu.x = 0x04;
    bus.write(0x0024, 0x74);
    bus.write(0x0025, 0x20);
    bus.write(0x2074, 0x5A);
    let cycles = cpu.step(&mut bus).unwrap();
    assert_eq!(cpu.a, 0x5A);
    assert_eq!(cycles, 6);
}

#[test]
fn lda_indirect_y_charges_page_cross() {
    let (mut cpu, mut bus) = machine(&[0xB1, 0x40], 0x8000);
    cpu.y = 0x10;
    bus.write(0x0040, 0xF8);
    bus.write(0x0041, 0x20);
    bus.write(0x2108, 0x11);
    let cycles = cpu.step(&mut bus).unwrap();
    assert_eq!(cpu.a, 0x11);
    assert_eq!(cycles, 6);
}

#[test]
fn nop_changes_nothing_but_pc_and_cycles() {
    let (mut cpu, mut bus) = machine(&[0xEA], 0x8000);
    cpu.a = 0x12;
    cpu.x = 0x34;
    cpu.y = 0x56;
    cpu.sp = 0x78;
    cpu.flags.carry = true;
    cpu.flags.negative = true;
    let before = cpu;
    let cycles = cpu.step(&mut bus).unwrap();
    assert_eq!(cycles, 2);
    assert_eq!(cpu.a, before.a);
    assert_eq!(cpu.x, before.x);
    assert_eq!(cpu.y, before.y);
    assert_eq!(cpu.sp, before.sp);
    assert_eq!(cpu.flags, before.flags);
    assert_eq!(cpu.pc, 0x8001);
    assert_eq!(cpu.cycles, before.cycles + 2);
}

#[test]
fn brk_pushes_pc_and_flags_and_loads_vector() {
    let (mut cpu, mut bus) = machine(&[0x00], 0x8000);
    cpu.sp = 0xFF;
    cpu.flags.carry = true;
    bus.write(0xFFFE, 0x34);
    bus.write(0xFFFF, 0x12);
    let flags_byte = cpu.flags.to_byte();
    let cycles = cpu.step(&mut bus).unwrap();
    assert_eq!(cycles, 7);
    assert_eq!(cpu.sp, 0xFC);
    // Pushed in order: pc high, pc low, packed flags; pc had advanced to 0x8001.
    assert_eq!(bus.read(0x01FF), 0x80);
    assert_eq!(bus.read(0x01FE), 0x01);
    assert_eq!(bus.read(0x01FD), flags_byte);
    assert!(cpu.flags.interrupt_disable);
    assert!(cpu.flags.break_command);
    assert_eq!(cpu.pc, 0x1234);
}

#[test]
fn brk_stack_pointer_wraps_within_page() {
    let (mut cpu, mut bus) = machine(&[0x00], 0x8000);
    cpu.sp = 0x01;
    bus.write(0xFFFE, 0x00);
    bus.write(0xFFFF, 0x90);
    cpu.step(&mut bus).unwrap();
    assert_eq!(cpu.sp, 0xFE);
    assert_eq!(bus.read(0x0101), 0x80);
    assert_eq!(bus.read(0x0100), 0x01);
}

#[test]
fn step_on_unassigned_opcode_reports_and_leaves_state() {
    let (mut cpu, mut bus) = machine(&[0x02], 0x8000);
    let before = cpu;
    let r = cpu.step(&mut bus);
    assert_eq!(r, Err(CoreError::DecodeError(0x02)));
    assert_eq!(cpu, before);
}

#[test]
fn power_on_or_reset_loads_reset_vector() {
    let (mut cpu, mut bus) = machine(&[], 0x0000);
    cpu.pc = 0xCAFE;
    cpu.sp = 0xFF;
    bus.write(0xFFFC, 0x00);
    bus.write(0xFFFD, 0x80);
    cpu.power_on_or_reset(&mut bus);
    assert_eq!(cpu.pc, 0x8000);
    assert_eq!(cpu.sp, 0xFC);
    assert!(cpu.flags.interrupt_disable);
    assert_eq!(cpu.cycles, 7);
    assert_eq!(bus.read(0x01FF), 0xCA);
    assert_eq!(bus.read(0x01FE), 0xFE);
}

#[test]
fn non_maskable_interrupt_ignores_interrupt_disable() {
    let (mut cpu, mut bus) = machine(&[], 0x0000);
    cpu.pc = 0x8000;
    cpu.flags.interrupt_disable = true;
    bus.write(0xFFFA, 0x00);
    bus.write(0xFFFB, 0x90);
    cpu.interrupt_non_maskable(&mut bus);
    assert_eq!(cpu.pc, 0x9000);
    assert_eq!(cpu.sp, 0xFC);
    assert_eq!(cpu.cycles, 7);
}

#[test]
fn maskable_interrupt_suppressed_while_disabled() {
    let (mut cpu, mut bus) = machine(&[], 0x0000);
    cpu.pc = 0x8000;
    cpu.flags.interrupt_disable = true;
    bus.write(0xFFFE, 0x00);
    bus.write(0xFFFF, 0xA0);
    let before = cpu;
    assert!(!cpu.interrupt_maskable(&mut bus));
    assert_eq!(cpu, before);

    cpu.flags.interrupt_disable = false;
    assert!(cpu.interrupt_maskable(&mut bus));
    assert_eq!(cpu.pc, 0xA000);
    assert_eq!(cpu.cycles, 7);
}

#[test]
fn interrupt_priority_non_maskable_first() {
    let (mut cpu, mut bus) = machine(&[], 0x0000);
    cpu.pc = 0x8000;
    bus.write(0xFFFA, 0x00);
    bus.write(0xFFFB, 0x90);
    bus.write(0xFFFE, 0x00);
    bus.write(0xFFFF, 0xA0);
    // Both lines asserted: the non-maskable class wins.
    let cycles = cpu.service_interrupts(&mut bus, true, true);
    assert_eq!(cycles, 7);
    assert_eq!(cpu.pc, 0x9000);
    // Both lines idle: nothing happens.
    let before = cpu;
    assert_eq!(cpu.service_interrupts(&mut bus, false, false), 0);
    assert_eq!(cpu, before);
}

#[test]
fn cycle_counter_accumulates_across_steps() {
    let (mut cpu, mut bus) = machine(&[0xEA, 0xA9, 0x01, 0x69, 0x02], 0x8000);
    cpu.step(&mut bus).unwrap();
    cpu.step(&mut bus).unwrap();
    cpu.step(&mut bus).unwrap();
    assert_eq!(cpu.a, 0x03);
    assert_eq!(cpu.cycles, 6);
    assert_eq!(cpu.pc, 0x8005);
}
