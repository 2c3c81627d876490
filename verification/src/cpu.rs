//! CPU execution core: the register file with its status flags, the
//! addressing-mode resolver, and the fetch → decode → resolve → execute →
//! account loop that drives one instruction to completion per step.

pub mod instruction;

use vstd::prelude::*;
use crate::bus::AddressBus;
use crate::bus::BusView;
use crate::bus::bus_read_v;
use crate::bus::bus_write_v;
use crate::cpu::instruction::CoreError;
use crate::cpu::instruction::Instruction;
use crate::cpu::instruction::InstructionInput;
use crate::cpu::instruction::InstructionMode;
use crate::cpu::instruction::InstructionOperation;
use crate::cpu::instruction::spec_decode;

verus! {

/// Address of the low byte of the reset vector.
pub const VECTOR_RESET: u16 = 0xFFFC;

/// Address of the low byte of the interrupt vector used by the break
/// instruction and the maskable interrupt class.
pub const VECTOR_IRQ_BRK: u16 = 0xFFFE;

/// Address of the low byte of the non-maskable interrupt vector.
pub const VECTOR_NMI: u16 = 0xFFFA;

/// Base address of the fixed 256-byte stack page.
pub const STACK_PAGE: u16 = 0x0100;

/// A 16-bit value reduced modulo the address space. The branches spell out
/// the single-wrap cases that address arithmetic produces; all agree with
/// the final modulo form.
pub open spec fn wrap16(v: int) -> u16 {
    if 0 <= v < 0x10000 {
        v as u16
    } else if 0x10000 <= v < 0x20000 {
        (v - 0x10000) as u16
    } else if -0x10000 <= v < 0 {
        (v + 0x10000) as u16
    } else {
        (v % 0x10000) as u16
    }
}

/// An 8-bit value reduced modulo a page.
pub open spec fn wrap8(v: int) -> u8 {
    if 0 <= v < 0x100 {
        v as u8
    } else if 0x100 <= v < 0x200 {
        (v - 0x100) as u8
    } else if -0x100 <= v < 0 {
        (v + 0x100) as u8
    } else {
        (v % 0x100) as u8
    }
}

/// A cycle count reduced modulo the counter's width.
pub open spec fn wrap64(v: int) -> u64 {
    if 0 <= v < 0x1_0000_0000_0000_0000 {
        v as u64
    } else if 0x1_0000_0000_0000_0000 <= v < 0x2_0000_0000_0000_0000 {
        (v - 0x1_0000_0000_0000_0000) as u64
    } else {
        (v % 0x1_0000_0000_0000_0000) as u64
    }
}

/// The status flags: seven meaningful bits and one reserved bit that always
/// reads as set in the packed byte.
#[derive(Copy, Clone, Debug, PartialEq, Eq, Structural)]
pub struct StatusFlags {
    pub carry: bool,
    pub zero: bool,
    pub interrupt_disable: bool,
    pub decimal: bool,
    pub break_command: bool,
    pub overflow: bool,
    pub negative: bool,
}

/// The packed flag byte: carry in bit 0, zero in bit 1, interrupt-disable in
/// bit 2, decimal in bit 3, break in bit 4, the reserved always-set bit 5,
/// overflow in bit 6, negative in bit 7.
pub open spec fn spec_status_byte(f: StatusFlags) -> u8 {
    ((if f.carry { 1int } else { 0 })
        + (if f.zero { 2int } else { 0 })
        + (if f.interrupt_disable { 4int } else { 0 })
        + (if f.decimal { 8int } else { 0 })
        + (if f.break_command { 16int } else { 0 })
        + 32
        + (if f.overflow { 64int } else { 0 })
        + (if f.negative { 128int } else { 0 })) as u8
}

impl StatusFlags {
    /// All flags clear.
    pub fn new() -> (r: StatusFlags)
        ensures
            r == (StatusFlags {
                carry: false,
                zero: false,
                interrupt_disable: false,
                decimal: false,
                break_command: false,
                overflow: false,
                negative: false,
            }),
    {
        StatusFlags {
            carry: false,
            zero: false,
            interrupt_disable: false,
            decimal: false,
            break_command: false,
            overflow: false,
            negative: false,
        }
    }

    /// Pack the flags into the byte pushed during interrupt sequences.
    pub fn to_byte(&self) -> (r: u8)
        ensures
            r == spec_status_byte(*self),
    {
        let mut b: u8 = 32;
        if self.carry {
            b = b + 1;
        }
        if self.zero {
            b = b + 2;
        }
        if self.interrupt_disable {
            b = b + 4;
        }
        if self.decimal {
            b = b + 8;
        }
        if self.break_command {
            b = b + 16;
        }
        if self.overflow {
            b = b + 64;
        }
        if self.negative {
            b = b + 128;
        }
        b
    }
}

/// The flags after a load or transfer of `value`: zero iff the result is
/// zero, negative iff its top bit is set, everything else untouched.
pub open spec fn zn_flags(f: StatusFlags, value: u8) -> StatusFlags {
    StatusFlags { zero: value == 0, negative: value >= 128, ..f }
}

/// Whether an operation is store-class. Store-class operations always pay
/// the indexed-addressing cycle penalty, crossing or not.
pub open spec fn is_store_operation(op: InstructionOperation) -> bool {
    ||| op == InstructionOperation::Sta
    ||| op == InstructionOperation::Stx
    ||| op == InstructionOperation::Sty
}

/// Whether adding an index moved the effective address onto another
/// 256-byte page.
pub open spec fn page_crossed(base: u16, effective: u16) -> bool {
    base / 256 != effective / 256
}

/// A 16-bit little-endian read: low byte at `address`, high byte right
/// after it.
pub open spec fn bus_read16_v(bv: BusView, address: u16) -> u16 {
    (bus_read_v(bv, address) + 256 * bus_read_v(bv, wrap16(address + 1))) as u16
}

/// A 16-bit little-endian read of a zero-page pointer; the high byte's fetch
/// wraps within the zero page.
pub open spec fn zp_read16_v(bv: BusView, ptr: u8) -> u16 {
    (bus_read_v(bv, ptr as u16) + 256 * bus_read_v(bv, wrap8(ptr + 1) as u16)) as u16
}

/// The register file and cycle counter. The bus is not owned here: every
/// entry point borrows it from the enclosing host for the duration of the
/// call. `decimal_enabled` records whether the emulated hardware honours
/// binary-coded-decimal correction during decimal-mode arithmetic.
#[derive(Copy, Clone, Debug, PartialEq, Eq, Structural)]
pub struct CpuCore {
    pub a: u8,
    pub x: u8,
    pub y: u8,
    pub sp: u8,
    pub pc: u16,
    pub flags: StatusFlags,
    pub cycles: u64,
    pub decimal_enabled: bool,
}

/// The resolved operand and extra cycle cost for an instruction whose opcode
/// sits at `cpu.pc`, with operand bytes following it. Reads go through the
/// bus; no register changes.
pub open spec fn spec_resolve(cpu: CpuCore, bv: BusView, ins: Instruction) -> (InstructionInput, u8) {
    let pc = cpu.pc;
    match ins.mode {
        InstructionMode::Implied => (InstructionInput::Implied, 0),
        InstructionMode::Accumulator => (InstructionInput::Accumulator, 0),
        InstructionMode::Immediate => (InstructionInput::Byte(bus_read_v(bv, wrap16(pc + 1))), 0),
        InstructionMode::Relative => {
            let off = bus_read_v(bv, wrap16(pc + 1));
            let disp: int = if off < 128 { off as int } else { off as int - 256 };
            (InstructionInput::Address(wrap16(pc + 2 + disp)), 0)
        },
        InstructionMode::ZeroPage => (
            InstructionInput::Address(bus_read_v(bv, wrap16(pc + 1)) as u16),
            0,
        ),
        InstructionMode::ZeroPageX => (
            InstructionInput::Address(wrap8(bus_read_v(bv, wrap16(pc + 1)) + cpu.x) as u16),
            0,
        ),
        InstructionMode::ZeroPageY => (
            InstructionInput::Address(wrap8(bus_read_v(bv, wrap16(pc + 1)) + cpu.y) as u16),
            0,
        ),
        InstructionMode::Absolute => (
            InstructionInput::Address(bus_read16_v(bv, wrap16(pc + 1))),
            0,
        ),
        InstructionMode::AbsoluteX => {
            let base = bus_read16_v(bv, wrap16(pc + 1));
            let eff = wrap16(base + cpu.x);
            (
                InstructionInput::Address(eff),
                if is_store_operation(ins.operation) || page_crossed(base, eff) { 1 } else { 0 },
            )
        },
        InstructionMode::AbsoluteY => {
            let base = bus_read16_v(bv, wrap16(pc + 1));
            let eff = wrap16(base + cpu.y);
            (
                InstructionInput::Address(eff),
                if is_store_operation(ins.operation) || page_crossed(base, eff) { 1 } else { 0 },
            )
        },
        InstructionMode::Indirect => {
            let ptr = bus_read16_v(bv, wrap16(pc + 1));
            let lo = bus_read_v(bv, ptr);
            let hi_addr: u16 = if ptr % 256 == 255 { (ptr - 255) as u16 } else { (ptr + 1) as u16 };
            let hi = bus_read_v(bv, hi_addr);
            (InstructionInput::Address((lo + 256 * hi) as u16), 0)
        },
        InstructionMode::IndirectX => {
            let zp = bus_read_v(bv, wrap16(pc + 1));
            let ptr = wrap8(zp + cpu.x);
            (InstructionInput::Address(zp_read16_v(bv, ptr)), 0)
        },
        InstructionMode::IndirectY => {
            let zp = bus_read_v(bv, wrap16(pc + 1));
            let base = zp_read16_v(bv, zp);
            let eff = wrap16(base + cpu.y);
            (
                InstructionInput::Address(eff),
                if is_store_operation(ins.operation) || page_crossed(base, eff) { 1 } else { 0 },
            )
        },
    }
}

/// A 16-bit little-endian read through the bus.
fn read16(bus: &AddressBus, address: u16) -> (r: u16)
    ensures
        r == bus_read16_v(bus@, address),
{
    let lo = bus.read(address);
    let hi = bus.read(address.wrapping_add(1));
    lo as u16 + 256 * (hi as u16)
}

impl CpuCore {
    /// A freshly powered register file: registers and flags clear, stack
    /// pointer at the top of the stack page, cycle counter at zero.
    pub fn new(decimal_enabled: bool) -> (r: CpuCore)
        ensures
            r == (CpuCore {
                a: 0,
                x: 0,
                y: 0,
                sp: 0xFF,
                pc: 0,
                flags: StatusFlags {
                    carry: false,
                    zero: false,
                    interrupt_disable: false,
                    decimal: false,
                    break_command: false,
                    overflow: false,
                    negative: false,
                },
                cycles: 0,
                decimal_enabled,
            }),
    {
        CpuCore {
            a: 0,
            x: 0,
            y: 0,
            sp: 0xFF,
            pc: 0,
            flags: StatusFlags::new(),
            cycles: 0,
            decimal_enabled,
        }
    }

    /// Materialize the operand for an instruction whose opcode sits at the
    /// current program counter, reading operand bytes through the bus, and
    /// advance the program counter by the instruction's length: afterwards
    /// it points exactly at the next opcode. No other register changes.
    pub fn resolve(&mut self, bus: &AddressBus, ins: Instruction) -> (r: (InstructionInput, u8))
        ensures
            r == spec_resolve(*old(self), bus@, ins),
            *final(self) == (CpuCore { pc: wrap16(old(self).pc + ins.len), ..*old(self) }),
    {
        let pc = self.pc;
        let r = match ins.mode {
            InstructionMode::Implied => (InstructionInput::Implied, 0),
            InstructionMode::Accumulator => (InstructionInput::Accumulator, 0),
            InstructionMode::Immediate => (
                InstructionInput::Byte(bus.read(pc.wrapping_add(1))),
                0,
            ),
            InstructionMode::Relative => {
                let off = bus.read(pc.wrapping_add(1));
                let after = pc.wrapping_add(2);
                let target = if off < 128 {
                    after.wrapping_add(off as u16)
                } else {
                    after.wrapping_add(off as u16).wrapping_sub(256)
                };
                (InstructionInput::Address(target), 0)
            },
            InstructionMode::ZeroPage => (
                InstructionInput::Address(bus.read(pc.wrapping_add(1)) as u16),
                0,
            ),
            InstructionMode::ZeroPageX => {
                let zp = bus.read(pc.wrapping_add(1));
                (InstructionInput::Address(zp.wrapping_add(self.x) as u16), 0)
            },
            InstructionMode::ZeroPageY => {
                let zp = bus.read(pc.wrapping_add(1));
                (InstructionInput::Address(zp.wrapping_add(self.y) as u16), 0)
            },
            InstructionMode::Absolute => (
                InstructionInput::Address(read16(bus, pc.wrapping_add(1))),
                0,
            ),
            InstructionMode::AbsoluteX => {
                let base = read16(bus, pc.wrapping_add(1));
                let eff = base.wrapping_add(self.x as u16);
                let penalty = is_store(ins.operation) || base / 256 != eff / 256;
                (InstructionInput::Address(eff), if penalty { 1 } else { 0 })
            },
            InstructionMode::AbsoluteY => {
                let base = read16(bus, pc.wrapping_add(1));
                let eff = base.wrapping_add(self.y as u16);
                let penalty = is_store(ins.operation) || base / 256 != eff / 256;
                (InstructionInput::Address(eff), if penalty { 1 } else { 0 })
            },
            InstructionMode::Indirect => {
                let ptr = read16(bus, pc.wrapping_add(1));
                let lo = bus.read(ptr);
                let hi_addr = if ptr % 256 == 255 { ptr - 255 } else { ptr + 1 };
                let hi = bus.read(hi_addr);
                (InstructionInput::Address(lo as u16 + 256 * (hi as u16)), 0)
            },
            InstructionMode::IndirectX => {
                let zp = bus.read(pc.wrapping_add(1));
                let ptr = zp.wrapping_add(self.x);
                let lo = bus.read(ptr as u16);
                let hi = bus.read(ptr.wrapping_add(1) as u16);
                (InstructionInput::Address(lo as u16 + 256 * (hi as u16)), 0)
            },
            InstructionMode::IndirectY => {
                let zp = bus.read(pc.wrapping_add(1));
                let lo = bus.read(zp as u16);
                let hi = bus.read(zp.wrapping_add(1) as u16);
                let base = lo as u16 + 256 * (hi as u16);
                let eff = base.wrapping_add(self.y as u16);
                let penalty = is_store(ins.operation) || base / 256 != eff / 256;
                (InstructionInput::Address(eff), if penalty { 1 } else { 0 })
            },
        };
        self.pc = self.pc.wrapping_add(ins.len as u16);
        r
    }

    /// Push one byte onto the stack page; the stack pointer wraps within
    /// the page by design — below 0x00 it continues at 0xFF.
    fn push(&mut self, bus: &mut AddressBus, value: u8)
        ensures
            final(bus)@ == bus_write_v(old(bus)@, (STACK_PAGE + old(self).sp) as u16, value),
            *final(self) == (CpuCore { sp: wrap8(old(self).sp - 1), ..*old(self) }),
    {
        bus.write(STACK_PAGE + self.sp as u16, value);
        self.sp = self.sp.wrapping_sub(1);
    }

    /// The shared push/flag/vector-load template of the break instruction,
    /// reset and the interrupt classes: push program-counter high byte, low
    /// byte, then packed flags; set interrupt-disable and break; load the
    /// program counter from `vector`.
    fn interrupt_sequence(&mut self, bus: &mut AddressBus, vector: u16)
        ensures
            ({
                let r = spec_interrupt(*old(self), old(bus)@, vector);
                *final(self) == r.0 && final(bus)@ == r.1
            }),
    {
        let pch = (self.pc / 256) as u8;
        let pcl = (self.pc % 256) as u8;
        self.push(bus, pch);
        self.push(bus, pcl);
        let status = self.flags.to_byte();
        self.push(bus, status);
        self.flags.interrupt_disable = true;
        self.flags.break_command = true;
        self.pc = read16(bus, vector);
    }

    /// Power-on or reset: the interrupt template applied to the reset
    /// vector, at the same fixed seven-cycle cost. Reset preempts both
    /// interrupt classes: the host calls it directly, regardless of any
    /// pending interrupt.
    pub fn power_on_or_reset(&mut self, bus: &mut AddressBus)
        ensures
            ({
                let r = spec_interrupt(*old(self), old(bus)@, VECTOR_RESET);
                *final(self) == spec_commit_cycles(r.0, 7) && final(bus)@ == r.1
            }),
    {
        self.interrupt_sequence(bus, VECTOR_RESET);
        self.cycles = self.cycles.wrapping_add(7);
    }

    /// The non-maskable interrupt class: the shared template applied to its
    /// own vector, at the fixed seven-cycle cost. Only reset preempts it.
    pub fn interrupt_non_maskable(&mut self, bus: &mut AddressBus)
        ensures
            ({
                let r = spec_interrupt(*old(self), old(bus)@, VECTOR_NMI);
                *final(self) == spec_commit_cycles(r.0, 7) && final(bus)@ == r.1
            }),
    {
        self.interrupt_sequence(bus, VECTOR_NMI);
        self.cycles = self.cycles.wrapping_add(7);
    }

    /// The maskable interrupt class: suppressed, with nothing touched, while
    /// interrupt-disable is set; otherwise the shared template applied to
    /// the interrupt vector, at the fixed seven-cycle cost.
    pub fn interrupt_maskable(&mut self, bus: &mut AddressBus) -> (taken: bool)
        ensures
            old(self).flags.interrupt_disable ==> {
                &&& !taken
                &&& *final(self) == *old(self)
                &&& final(bus)@ == old(bus)@
            },
            !old(self).flags.interrupt_disable ==> taken && ({
                let r = spec_interrupt(*old(self), old(bus)@, VECTOR_IRQ_BRK);
                *final(self) == spec_commit_cycles(r.0, 7) && final(bus)@ == r.1
            }),
    {
        if self.flags.interrupt_disable {
            return false;
        }
        self.interrupt_sequence(bus, VECTOR_IRQ_BRK);
        self.cycles = self.cycles.wrapping_add(7);
        true
    }

    /// Service the interrupt lines between completed steps, in the fixed
    /// priority order: the non-maskable class preempts the maskable one,
    /// and the maskable class is suppressed while interrupt-disable is set.
    /// Reset preempts both: the host calls `power_on_or_reset` directly.
    /// Returns the cycles consumed.
    pub fn service_interrupts(
        &mut self,
        bus: &mut AddressBus,
        nmi_line: bool,
        irq_line: bool,
    ) -> (cycles: u64)
        ensures
            nmi_line ==> cycles == 7 && ({
                let r = spec_interrupt(*old(self), old(bus)@, VECTOR_NMI);
                *final(self) == spec_commit_cycles(r.0, 7) && final(bus)@ == r.1
            }),
            !nmi_line && irq_line && !old(self).flags.interrupt_disable ==> cycles == 7 && ({
                let r = spec_interrupt(*old(self), old(bus)@, VECTOR_IRQ_BRK);
                *final(self) == spec_commit_cycles(r.0, 7) && final(bus)@ == r.1
            }),
            !nmi_line && (!irq_line || old(self).flags.interrupt_disable) ==> {
                &&& cycles == 0
                &&& *final(self) == *old(self)
                &&& final(bus)@ == old(bus)@
            },
    {
        if nmi_line {
            self.interrupt_non_maskable(bus);
            7
        } else if irq_line {
            if self.interrupt_maskable(bus) {
                7
            } else {
                0
            }
        } else {
            0
        }
    }

    /// Execute exactly one instruction to completion and return the cycles
    /// it consumed; all register, flag and bus mutations of the step become
    /// visible together at its end. Errors terminate the step with the
    /// machine unchanged.
    pub fn step(&mut self, bus: &mut AddressBus) -> (r: Result<u64, CoreError>)
        ensures
            (match spec_step(*old(self), old(bus)@) {
                Ok(t) => {
                    &&& r == Ok::<u64, CoreError>(t.2)
                    &&& *final(self) == t.0
                    &&& final(bus)@ == t.1
                },
                Err(e) => {
                    &&& r == Err::<u64, CoreError>(e)
                    &&& *final(self) == *old(self)
                    &&& final(bus)@ == old(bus)@
                },
            }),
    {
        let pc0 = self.pc;
        let opcode = bus.read(self.pc);
        let ins = match Instruction::from_opcode(opcode) {
            Ok(ins) => ins,
            Err(e) => {
                return Err(e);
            },
        };
        let resolved = self.resolve(bus, ins);
        let input = resolved.0;
        let extra = resolved.1;
        match ins.operation {
            InstructionOperation::Nop => {
                match input {
                    InstructionInput::Implied => {},
                    _ => {
                        self.pc = pc0;
                        return Err(CoreError::InvariantViolation);
                    },
                }
                let cycles = ins.cycles_base as u64;
                self.cycles = self.cycles.wrapping_add(cycles);
                Ok(cycles)
            },
            InstructionOperation::Lda => {
                let v = match input {
                    InstructionInput::Byte(v) => v,
                    InstructionInput::Address(a) => bus.read(a),
                    _ => {
                        self.pc = pc0;
                        return Err(CoreError::InvariantViolation);
                    },
                };
                self.a = v;
                self.flags.zero = v == 0;
                self.flags.negative = v >= 128;
                let cycles = ins.cycles_base as u64 + extra as u64;
                self.cycles = self.cycles.wrapping_add(cycles);
                Ok(cycles)
            },
            InstructionOperation::Adc => {
                let v = match input {
                    InstructionInput::Byte(v) => v,
                    InstructionInput::Address(a) => bus.read(a),
                    _ => {
                        self.pc = pc0;
                        return Err(CoreError::InvariantViolation);
                    },
                };
                let res = adc_values(self.a, v, self.flags, self.decimal_enabled);
                self.a = res.0;
                self.flags = res.1;
                let cycles = ins.cycles_base as u64 + extra as u64;
                self.cycles = self.cycles.wrapping_add(cycles);
                Ok(cycles)
            },
            InstructionOperation::Brk => {
                match input {
                    InstructionInput::Implied => {},
                    _ => {
                        self.pc = pc0;
                        return Err(CoreError::InvariantViolation);
                    },
                }
                self.interrupt_sequence(bus, VECTOR_IRQ_BRK);
                let cycles = ins.cycles_base as u64;
                self.cycles = self.cycles.wrapping_add(cycles);
                Ok(cycles)
            },
            _ => {
                // The decode table never produces the remaining operations.
                self.pc = pc0;
                Err(CoreError::InvariantViolation)
            },
        }
    }
}

/// Result and flags of binary add-with-carry: the sum of accumulator,
/// operand and carry-in, truncated to 8 bits; carry from the 9-bit unsigned
/// result; overflow from signed two's-complement overflow (operand signs
/// equal, differing from the result's sign); zero and negative from the
/// 8-bit result.
pub open spec fn spec_adc_binary(a: u8, m: u8, f: StatusFlags) -> (u8, StatusFlags) {
    let c: int = if f.carry { 1 } else { 0 };
    let sum = a + m + c;
    let r = wrap8(sum);
    (
        r,
        StatusFlags {
            carry: sum > 255,
            zero: r == 0,
            negative: r >= 128,
            overflow: ((a < 128) == (m < 128)) && ((a < 128) != (r < 128)),
            ..f
        },
    )
}

/// Result and flags of add-with-carry under binary-coded-decimal
/// correction: each nibble is adjusted past nine; zero comes from the
/// uncorrected binary sum, negative and overflow from the intermediate
/// high nibble before its correction, carry from the corrected high nibble.
pub open spec fn spec_adc_decimal(a: u8, m: u8, f: StatusFlags) -> (u8, StatusFlags) {
    let cin: int = if f.carry { 1 } else { 0 };
    let binary = wrap8(a + m + cin);
    let lo0 = a % 16 + m % 16 + cin;
    let lo = if lo0 > 9 { lo0 + 6 } else { lo0 };
    let hi0 = a / 16 + m / 16 + (if lo > 15 { 1int } else { 0int });
    let negative = hi0 % 16 >= 8;
    let overflow = ((a >= 128) == (m >= 128)) && ((a >= 128) != negative);
    let hi = if hi0 > 9 { hi0 + 6 } else { hi0 };
    (
        ((hi % 16) * 16 + lo % 16) as u8,
        StatusFlags { carry: hi > 15, zero: binary == 0, negative, overflow, ..f },
    )
}

/// Add-with-carry: binary-coded-decimal correction applies only when the
/// decimal flag is set and the emulated hardware honours it.
pub open spec fn spec_adc(a: u8, m: u8, f: StatusFlags, decimal_enabled: bool) -> (u8, StatusFlags) {
    if decimal_enabled && f.decimal {
        spec_adc_decimal(a, m, f)
    } else {
        spec_adc_binary(a, m, f)
    }
}

/// Executable add-with-carry on plain values.
fn adc_values(a: u8, m: u8, f: StatusFlags, decimal_enabled: bool) -> (r: (u8, StatusFlags))
    ensures
        r == spec_adc(a, m, f, decimal_enabled),
{
    let cin: u16 = if f.carry { 1 } else { 0 };
    if decimal_enabled && f.decimal {
        let bsum: u16 = a as u16 + m as u16 + cin;
        let binary: u8 = if bsum > 255 { (bsum - 256) as u8 } else { bsum as u8 };
        let lo0: u16 = (a % 16) as u16 + (m % 16) as u16 + cin;
        let lo: u16 = if lo0 > 9 { lo0 + 6 } else { lo0 };
        let hi0: u16 = (a / 16) as u16 + (m / 16) as u16 + (if lo > 15 { 1 } else { 0 });
        let negative = hi0 % 16 >= 8;
        let overflow = ((a >= 128) == (m >= 128)) && ((a >= 128) != negative);
        let hi: u16 = if hi0 > 9 { hi0 + 6 } else { hi0 };
        let result = ((hi % 16) * 16 + lo % 16) as u8;
        (
            result,
            StatusFlags { carry: hi > 15, zero: binary == 0, negative, overflow, ..f },
        )
    } else {
        let sum: u16 = a as u16 + m as u16 + cin;
        let r: u8 = if sum > 255 { (sum - 256) as u8 } else { sum as u8 };
        (
            r,
            StatusFlags {
                carry: sum > 255,
                zero: r == 0,
                negative: r >= 128,
                overflow: ((a < 128) == (m < 128)) && ((a < 128) != (r < 128)),
                ..f
            },
        )
    }
}

/// The CPU state and bus after the shared interrupt template applied to
/// `vector`: program-counter high byte, low byte and packed status flags are
/// pushed in that order (the stack pointer wrapping within its page),
/// interrupt-disable and break become set, and the program counter loads
/// from the vector.
pub open spec fn spec_interrupt(cpu: CpuCore, bv: BusView, vector: u16) -> (CpuCore, BusView) {
    let b1 = bus_write_v(bv, (STACK_PAGE + cpu.sp) as u16, (cpu.pc / 256) as u8);
    let b2 = bus_write_v(b1, (STACK_PAGE + wrap8(cpu.sp - 1)) as u16, (cpu.pc % 256) as u8);
    let b3 = bus_write_v(b2, (STACK_PAGE + wrap8(cpu.sp - 2)) as u16, spec_status_byte(cpu.flags));
    (
        CpuCore {
            sp: wrap8(cpu.sp - 3),
            pc: bus_read16_v(b3, vector),
            flags: StatusFlags { interrupt_disable: true, break_command: true, ..cpu.flags },
            ..cpu
        },
        b3,
    )
}

/// The cycle counter advanced by a completed step's cost.
pub open spec fn spec_commit_cycles(cpu: CpuCore, cycles: u64) -> CpuCore {
    CpuCore { cycles: wrap64(cpu.cycles + cycles), ..cpu }
}

/// The byte an operation handler works on: given immediately or read
/// through the bus from the resolved address. `None` marks the variants the
/// byte-consuming handlers refuse.
pub open spec fn spec_operand_value(bv: BusView, input: InstructionInput) -> Option<u8> {
    match input {
        InstructionInput::Byte(v) => Some(v),
        InstructionInput::Address(a) => Some(bus_read_v(bv, a)),
        InstructionInput::Implied => None,
        InstructionInput::Accumulator => None,
    }
}

/// One complete instruction step: fetch the opcode at the program counter,
/// decode it, resolve the operand (advancing the program counter by the
/// instruction's length), execute the operation, and account base plus
/// extra cycles. An opcode with no mapping yields the decode error with the
/// machine unchanged; an operand variant its handler refuses yields the
/// invariant violation with the machine unchanged.
pub open spec fn spec_step(cpu: CpuCore, bv: BusView) -> Result<(CpuCore, BusView, u64), CoreError> {
    match spec_decode(bus_read_v(bv, cpu.pc)) {
        Err(e) => Err(e),
        Ok(ins) => {
            let resolved = spec_resolve(cpu, bv, ins);
            let input = resolved.0;
            let extra = resolved.1;
            let cpu1 = CpuCore { pc: wrap16(cpu.pc + ins.len), ..cpu };
            match ins.operation {
                InstructionOperation::Nop => if input is Implied {
                    let cycles = ins.cycles_base as u64;
                    Ok((spec_commit_cycles(cpu1, cycles), bv, cycles))
                } else {
                    Err(CoreError::InvariantViolation)
                },
                InstructionOperation::Lda => match spec_operand_value(bv, input) {
                    Some(v) => {
                        let cycles = (ins.cycles_base + extra) as u64;
                        Ok((
                            spec_commit_cycles(
                                CpuCore { a: v, flags: zn_flags(cpu1.flags, v), ..cpu1 },
                                cycles,
                            ),
                            bv,
                            cycles,
                        ))
                    },
                    None => Err(CoreError::InvariantViolation),
                },
                InstructionOperation::Adc => match spec_operand_value(bv, input) {
                    Some(v) => {
                        let res = spec_adc(cpu.a, v, cpu.flags, cpu.decimal_enabled);
                        let cycles = (ins.cycles_base + extra) as u64;
                        Ok((
                            spec_commit_cycles(
                                CpuCore { a: res.0, flags: res.1, ..cpu1 },
                                cycles,
                            ),
                            bv,
                            cycles,
                        ))
                    },
                    None => Err(CoreError::InvariantViolation),
                },
                InstructionOperation::Brk => if input is Implied {
                    let r = spec_interrupt(cpu1, bv, VECTOR_IRQ_BRK);
                    let cycles = ins.cycles_base as u64;
                    Ok((spec_commit_cycles(r.0, cycles), r.1, cycles))
                } else {
                    Err(CoreError::InvariantViolation)
                },
                _ => Err(CoreError::InvariantViolation),
            }
        },
    }
}

/// The no-operation instruction leaves every register and every flag bit
/// unchanged, touches nothing on the bus, advances the program counter past
/// its single byte, and costs exactly two cycles.
pub proof fn lemma_nop_preserves_state(cpu: CpuCore, bv: BusView)
    requires
        bus_read_v(bv, cpu.pc) == 0xEA,
    ensures
        spec_step(cpu, bv) == Ok::<(CpuCore, BusView, u64), CoreError>((
            (CpuCore { pc: wrap16(cpu.pc + 1), cycles: wrap64(cpu.cycles + 2), ..cpu }),
            bv,
            2,
        )),
{
}

/// A load-accumulator with absolute indexed addressing costs its base four
/// cycles, plus exactly one more when adding the index crosses a 256-byte
/// page boundary.
pub proof fn lemma_indexed_load_cycles(cpu: CpuCore, bv: BusView)
    requires
        bus_read_v(bv, cpu.pc) == 0xBD || bus_read_v(bv, cpu.pc) == 0xB9,
    ensures
        ({
            let base = bus_read16_v(bv, wrap16(cpu.pc + 1));
            let index = if bus_read_v(bv, cpu.pc) == 0xBD { cpu.x } else { cpu.y };
            let eff = wrap16(base + index);
            &&& spec_step(cpu, bv) matches Ok(t)
            &&& t.2 == 4 + (if page_crossed(base, eff) { 1int } else { 0int })
        }),
{
}

/// The break instruction: the stack pointer decreases by exactly three
/// (wrapping within the stack page), the pushed bytes are program-counter
/// high, program-counter low and the packed status flags in that order,
/// interrupt-disable and break become set, the program counter loads from
/// the fixed interrupt vector, and the total cost is seven cycles.
pub proof fn lemma_brk(cpu: CpuCore, bv: BusView)
    requires
        bus_read_v(bv, cpu.pc) == 0x00,
    ensures
        ({
            let pc1 = wrap16(cpu.pc + 1);
            let b1 = bus_write_v(bv, (STACK_PAGE + cpu.sp) as u16, (pc1 / 256) as u8);
            let b2 = bus_write_v(
                b1,
                (STACK_PAGE + wrap8(cpu.sp - 1)) as u16,
                (pc1 % 256) as u8,
            );
            let b3 = bus_write_v(
                b2,
                (STACK_PAGE + wrap8(cpu.sp - 2)) as u16,
                spec_status_byte(cpu.flags),
            );
            &&& spec_step(cpu, bv) matches Ok(t)
            &&& t.2 == 7
            &&& t.0.sp == wrap8(cpu.sp - 3)
            &&& t.0.flags.interrupt_disable
            &&& t.0.flags.break_command
            &&& t.0.pc == bus_read16_v(bv, VECTOR_IRQ_BRK)
            &&& t.1 == b3
        }),
{
    let pc1 = wrap16(cpu.pc + 1);
    let s0 = (STACK_PAGE + cpu.sp) as u16;
    let s1 = (STACK_PAGE + wrap8(cpu.sp - 1)) as u16;
    let s2 = (STACK_PAGE + wrap8(cpu.sp - 2)) as u16;
    let b1 = bus_write_v(bv, s0, (pc1 / 256) as u8);
    let b2 = bus_write_v(b1, s1, (pc1 % 256) as u8);
    // The three stack-page writes sit far below the vector, so the vector
    // bytes read the same before and after the pushes.
    crate::bus::lemma_write_preserves_other_reads(bv, s0, (pc1 / 256) as u8, VECTOR_IRQ_BRK);
    crate::bus::lemma_write_preserves_other_reads(b1, s1, (pc1 % 256) as u8, VECTOR_IRQ_BRK);
    crate::bus::lemma_write_preserves_other_reads(b2, s2, spec_status_byte(cpu.flags), VECTOR_IRQ_BRK);
    crate::bus::lemma_write_preserves_other_reads(bv, s0, (pc1 / 256) as u8, 0xFFFF);
    crate::bus::lemma_write_preserves_other_reads(b1, s1, (pc1 % 256) as u8, 0xFFFF);
    crate::bus::lemma_write_preserves_other_reads(b2, s2, spec_status_byte(cpu.flags), 0xFFFF);
}

/// Executable twin of `is_store_operation`.
fn is_store(op: InstructionOperation) -> (r: bool)
    ensures
        r == is_store_operation(op),
{
    match op {
        InstructionOperation::Sta | InstructionOperation::Stx | InstructionOperation::Sty => true,
        _ => false,
    }
}

} // verus!
