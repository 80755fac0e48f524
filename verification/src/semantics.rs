//! The meaning of every instruction, as functions from one machine state to
//! the next. A state is the registers and the bus contents; an access the
//! hardware does not serve, or an address computation that overflows,
//! leaves no next state.
use vstd::prelude::*;

use crate::bus::{
    bus_can_read, bus_can_read_u16, bus_can_write, bus_read, bus_read_u16, bus_write,
    lemma_all_accesses_keep_roms, lemma_all_reads_keep_ram, lemma_ram_access, lemma_read_keeps_ram, lemma_rom_ignores_ram,
    BusView,
};
use crate::cpu::AddressingMode;
use crate::opcodes::{opcode_for, Instruction};

verus! {

/// The CPU as mathematical values: its registers and its bus.
#[verifier::ext_equal]
pub struct CpuView {
    pub register_a: u8,
    pub register_x: u8,
    pub register_y: u8,
    pub status: u8,
    pub program_counter: u16,
    pub stack_pointer: u8,
    pub bus: BusView,
}

/// What one fetch-decode-execute step leads to.
pub enum Transition {
    /// The instruction completed; execution goes on from this state.
    Next(CpuView),
    /// BRK was fetched; the machine stops in this state.
    Halt(CpuView),
    /// The step needed an access the hardware does not serve, an opcode the
    /// CPU does not implement, or an address past $FFFF.
    Fault,
}

/// How a run of the CPU ended.
#[derive(Clone, Copy, Debug, PartialEq, Eq, Structural)]
pub enum Execution {
    /// Still running: the step budget ran out (or, for a single step, the
    /// instruction completed).
    Running,
    /// BRK was executed.
    Halted,
    /// A step faulted (see `Transition::Fault`).
    Faulted,
}

/// An operation that can fail ended as `expected` says: it succeeded exactly
/// when a next state exists, and then reached that state.
pub open spec fn completes(expected: Option<CpuView>, ok: bool, after: CpuView) -> bool {
    match expected {
        Some(c) => ok && after == c,
        None => !ok,
    }
}

/// An operation that can fail and answers a value ended as `expected` says,
/// answering `v` when it succeeded.
pub open spec fn completes_with<T>(expected: Option<CpuView>, r: Option<T>, v: T, after: CpuView) -> bool {
    match expected {
        Some(c) => r == Some(v) && after == c,
        None => r is None,
    }
}

/// A read-like operation that can fail ended as `expected` says.
pub open spec fn yields<T>(expected: Option<(CpuView, T)>, r: Option<T>, after: CpuView) -> bool {
    match expected {
        Some((c, v)) => r == Some(v) && after == c,
        None => r is None,
    }
}

/// `a + b` modulo 256.
pub open spec fn add8(a: u8, b: u8) -> u8 {
    ((a + b) % 256) as u8
}

/// `a - b` modulo 256.
pub open spec fn sub8(a: u8, b: u8) -> u8 {
    ((a - b + 256) % 256) as u8
}

/// `a + b` modulo 65536.
pub open spec fn add16(a: u16, b: u16) -> u16 {
    ((a + b) % 0x10000) as u16
}

/// A byte read as a two's-complement offset, widened to 16 bits.
pub open spec fn sign_extend(d: u8) -> u16 {
    if d < 0x80 {
        d as u16
    } else {
        (0xff00 + d) as u16
    }
}

/// The status byte with Z (bit 1) set exactly when `result` is 0 and N
/// (bit 7) set exactly when bit 7 of `result` is set.
pub open spec fn with_zero_negative(status: u8, result: u8) -> u8 {
    let s = if result == 0 {
        status | 0b0000_0010
    } else {
        status & 0b1111_1101
    };
    if result >= 0x80 {
        s | 0b1000_0000
    } else {
        s & 0b0111_1111
    }
}

/// The status byte with the carry (bit 0) set to `carry`.
pub open spec fn with_carry(status: u8, carry: bool) -> u8 {
    if carry {
        status | 0b0000_0001
    } else {
        status & 0b1111_1110
    }
}

/// The carry flag as 0 or 1.
pub open spec fn carry_of(status: u8) -> u8 {
    status % 2
}

/// A read of `addr`: the state afterwards and the byte read.
pub open spec fn cpu_read(c: CpuView, addr: u16) -> Option<(CpuView, u8)> {
    if bus_can_read(c.bus, addr) {
        Some((CpuView { bus: bus_read(c.bus, addr).0, ..c }, bus_read(c.bus, addr).1))
    } else {
        None
    }
}

/// A little-endian word read at `pos`.
pub open spec fn cpu_read_u16(c: CpuView, pos: u16) -> Option<(CpuView, u16)> {
    if bus_can_read_u16(c.bus, pos) {
        Some((CpuView { bus: bus_read_u16(c.bus, pos).0, ..c }, bus_read_u16(c.bus, pos).1))
    } else {
        None
    }
}

/// A word whose low byte is read at `lo_addr` and then its high byte at
/// `hi_addr`.
pub open spec fn cpu_read_pair(c: CpuView, lo_addr: u16, hi_addr: u16) -> Option<(CpuView, u16)> {
    match cpu_read(c, lo_addr) {
        Some((c1, lo)) => match cpu_read(c1, hi_addr) {
            Some((c2, hi)) => Some((c2, (hi * 256 + lo) as u16)),
            None => None,
        },
        None => None,
    }
}

/// A write of `data` to `addr`.
pub open spec fn cpu_write(c: CpuView, addr: u16, data: u8) -> Option<CpuView> {
    if bus_can_write(c.bus, addr) {
        Some(CpuView { bus: bus_write(c.bus, addr, data), ..c })
    } else {
        None
    }
}

/// The effective address of the operand of the instruction whose operand
/// bytes start at the program counter, and the state after the reads that
/// computed it. Zero-page indexing wraps within the zero page; absolute and
/// post-indexed indirect indexing wrap within 64 KiB.
pub open spec fn operand_address(c: CpuView, mode: AddressingMode) -> Option<(CpuView, u16)> {
    let pc = c.program_counter;
    match mode {
        AddressingMode::Immediate => Some((c, pc)),
        AddressingMode::ZeroPage => match cpu_read(c, pc) {
            Some((c1, p)) => Some((c1, p as u16)),
            None => None,
        },
        AddressingMode::Absolute => cpu_read_u16(c, pc),
        AddressingMode::ZeroPage_X => match cpu_read(c, pc) {
            Some((c1, p)) => Some((c1, add8(p, c.register_x) as u16)),
            None => None,
        },
        AddressingMode::ZeroPage_Y => match cpu_read(c, pc) {
            Some((c1, p)) => Some((c1, add8(p, c.register_y) as u16)),
            None => None,
        },
        AddressingMode::Absolute_X => match cpu_read_u16(c, pc) {
            Some((c1, base)) => Some((c1, add16(base, c.register_x as u16))),
            None => None,
        },
        AddressingMode::Absolute_Y => match cpu_read_u16(c, pc) {
            Some((c1, base)) => Some((c1, add16(base, c.register_y as u16))),
            None => None,
        },
        AddressingMode::Indirect_X => match cpu_read(c, pc) {
            Some((c1, base)) => {
                let ptr = add8(base, c.register_x);
                cpu_read_pair(c1, ptr as u16, add8(ptr, 1) as u16)
            },
            None => None,
        },
        AddressingMode::Indirect_Y => match cpu_read(c, pc) {
            Some((c1, base)) => match cpu_read_pair(c1, base as u16, add8(base, 1) as u16) {
                Some((c2, target)) => Some((c2, add16(target, c.register_y as u16))),
                None => None,
            },
            None => None,
        },
        AddressingMode::NoneAddressing => None,
    }
}

/// The operand's address and value, and the state after reading them.
pub open spec fn operand_at(c: CpuView, mode: AddressingMode) -> Option<(CpuView, u16, u8)> {
    match operand_address(c, mode) {
        Some((c1, addr)) => match cpu_read(c1, addr) {
            Some((c2, v)) => Some((c2, addr, v)),
            None => None,
        },
        None => None,
    }
}

/// The operand's value and the state after reading it.
pub open spec fn operand(c: CpuView, mode: AddressingMode) -> Option<(CpuView, u8)> {
    match operand_at(c, mode) {
        Some((c1, addr, v)) => Some((c1, v)),
        None => None,
    }
}

/// The operand's value (meaningful when the reads are served).
pub open spec fn operand_value(c: CpuView, mode: AddressingMode) -> u8 {
    match operand_at(c, mode) {
        Some((c1, addr, v)) => v,
        None => 0,
    }
}

/// A loaded with `v`, Z and N set from it.
pub open spec fn set_a(c: CpuView, v: u8) -> CpuView {
    CpuView { register_a: v, status: with_zero_negative(c.status, v), ..c }
}

/// X loaded with `v`, Z and N set from it.
pub open spec fn set_x(c: CpuView, v: u8) -> CpuView {
    CpuView { register_x: v, status: with_zero_negative(c.status, v), ..c }
}

/// Y loaded with `v`, Z and N set from it.
pub open spec fn set_y(c: CpuView, v: u8) -> CpuView {
    CpuView { register_y: v, status: with_zero_negative(c.status, v), ..c }
}

/// Pushes `v`: it is stored at $0100 + S, and S decreases (wrapping).
pub open spec fn push(c: CpuView, v: u8) -> CpuView {
    CpuView {
        bus: bus_write(c.bus, (0x100 + c.stack_pointer) as u16, v),
        stack_pointer: sub8(c.stack_pointer, 1),
        ..c
    }
}

/// Pops a byte: S increases (wrapping) and the byte at $0100 + S is read.
pub open spec fn pop(c: CpuView) -> (CpuView, u8) {
    let sp = add8(c.stack_pointer, 1);
    let addr = (0x100 + sp) as u16;
    (CpuView { stack_pointer: sp, bus: bus_read(c.bus, addr).0, ..c }, bus_read(c.bus, addr).1)
}

/// Pushes a word, high byte first.
pub open spec fn push_u16(c: CpuView, data: u16) -> CpuView {
    push(push(c, (data / 256) as u8), (data % 256) as u8)
}

/// Pops a word, low byte first.
pub open spec fn pop_u16(c: CpuView) -> (CpuView, u16) {
    let first = pop(c);
    let second = pop(first.0);
    (second.0, (second.1 * 256 + first.1) as u16)
}

/// Stores `result` back at `addr`, with the status set to `status` and then
/// Z and N set from `result`.
pub open spec fn store_back(c: CpuView, addr: u16, status: u8, result: u8) -> Option<CpuView> {
    match cpu_write(c, addr, result) {
        Some(c1) => Some(CpuView { status: with_zero_negative(status, result), ..c1 }),
        None => None,
    }
}

/// ADC and SBC once the 16-bit sum is known: A takes its low byte, C is set
/// when the sum exceeds $FF, V is computed from the sum, the result and the
/// old A, and Z and N follow the result.
pub open spec fn add_to_a(c: CpuView, sum: u16) -> CpuView {
    let result = (sum % 256) as u8;
    let s1 = with_carry(c.status, sum > 0xff);
    let s2 = if (sum ^ (result as u16)) & ((result ^ c.register_a) as u16) & 0x80 != 0 {
        s1 | 0b0100_0000
    } else {
        s1 & 0b1011_1111
    };
    CpuView { register_a: result, status: with_zero_negative(s2, result), ..c }
}

/// The 16-bit value SBC adds to A: the operand's ones' complement,
/// sign-extended.
pub open spec fn sbc_operand(m: u8) -> int {
    if m < 0x80 {
        0xffff - m
    } else {
        0xff - m
    }
}

/// SBC once the operand `m` is read: A, the carry and the widened
/// complement of `m` are summed in 16 bits; the instruction fails when that
/// sum exceeds $FFFF.
pub open spec fn subtract_from_a(c: CpuView, m: u8) -> Option<CpuView> {
    let sum = sbc_operand(m) + carry_of(c.status) + c.register_a;
    if sum > 0xffff {
        None
    } else {
        Some(add_to_a(c, sum as u16))
    }
}

/// A relative branch: when `condition` holds, the offset byte at the
/// program counter is added to the address just after it.
pub open spec fn branch(c: CpuView, condition: bool) -> Option<CpuView> {
    if condition {
        match cpu_read(c, c.program_counter) {
            Some((c1, d)) => Some(
                CpuView {
                    program_counter: add16(add16(c.program_counter, 1), sign_extend(d)),
                    ..c1
                },
            ),
            None => None,
        }
    } else {
        Some(c)
    }
}

/// CMP, CPX and CPY: C is set when `reg` is at least the operand, and Z and
/// N follow `reg` minus the operand.
pub open spec fn compare(c: CpuView, mode: AddressingMode, reg: u8) -> Option<CpuView> {
    match operand(c, mode) {
        Some((c1, m)) => Some(
            CpuView {
                status: with_zero_negative(with_carry(c1.status, reg >= m), sub8(reg, m)),
                ..c1
            },
        ),
        None => None,
    }
}

/// BIT, as this CPU carries it out: the AND of A with the operand decides
/// bits of A itself (bit 0 set when the AND is zero, else cleared; bits 6
/// and 7 set when set in the AND).
pub open spec fn bit_test(a: u8, m: u8) -> u8 {
    let r = a & m;
    let a1 = if r == 0 {
        a | 0b0000_0001
    } else {
        a & 0b1111_1110
    };
    let a2 = if r & 0b0100_0000 == 0b0100_0000 {
        a1 | 0b0100_0000
    } else {
        a1
    };
    if r & 0b1000_0000 == 0b1000_0000 {
        a2 | 0b1000_0000
    } else {
        a2
    }
}

/// JMP through a pointer. When the pointer's low byte is $FF, the high byte
/// of the target is read from the start of the same page.
pub open spec fn jump_indirect(c: CpuView) -> Option<CpuView> {
    match cpu_read_u16(c, c.program_counter) {
        Some((c1, ptr)) => if ptr % 256 == 0xff {
            match cpu_read_pair(c1, ptr, (ptr - 0xff) as u16) {
                Some((c2, target)) => Some(CpuView { program_counter: target, ..c2 }),
                None => None,
            }
        } else {
            match cpu_read_u16(c1, ptr) {
                Some((c2, target)) => Some(CpuView { program_counter: target, ..c2 }),
                None => None,
            }
        },
        None => None,
    }
}

/// JSR: the address of its last operand byte is pushed (the instruction
/// fails when that address is past $FFFF), then the target is read and
/// jumped to.
pub open spec fn call_subroutine(c: CpuView) -> Option<CpuView> {
    if c.program_counter + 2 > 0xffff {
        None
    } else {
        let c1 = push_u16(c, (c.program_counter + 1) as u16);
        match cpu_read_u16(c1, c1.program_counter) {
            Some((c2, target)) => Some(CpuView { program_counter: target, ..c2 }),
            None => None,
        }
    }
}

/// RTS: the pushed address is popped and execution resumes just after it
/// (failing when that would be past $FFFF).
pub open spec fn return_from_subroutine(c: CpuView) -> Option<CpuView> {
    let (c1, ret) = pop_u16(c);
    if ret == 0xffff {
        None
    } else {
        Some(CpuView { program_counter: (ret + 1) as u16, ..c1 })
    }
}

/// The state after executing `ins` with operand mode `mode`, the program
/// counter pointing just past the opcode.
pub open spec fn instruction_effect(c: CpuView, ins: Instruction, mode: AddressingMode) -> Option<CpuView> {
    match ins {
        Instruction::Lda => match operand(c, mode) {
            Some((c1, v)) => Some(set_a(c1, v)),
            None => None,
        },
        Instruction::Ldx => match operand(c, mode) {
            Some((c1, v)) => Some(set_x(c1, v)),
            None => None,
        },
        Instruction::Ldy => match operand(c, mode) {
            Some((c1, v)) => Some(set_y(c1, v)),
            None => None,
        },
        Instruction::Sta => match operand_address(c, mode) {
            Some((c1, addr)) => cpu_write(c1, addr, c1.register_a),
            None => None,
        },
        // STX and STY, as this CPU carries them out, load the register
        // from the operand.
        Instruction::Stx => match operand(c, mode) {
            Some((c1, v)) => Some(CpuView { register_x: v, ..c1 }),
            None => None,
        },
        Instruction::Sty => match operand(c, mode) {
            Some((c1, v)) => Some(CpuView { register_y: v, ..c1 }),
            None => None,
        },
        Instruction::Tax => Some(set_x(c, c.register_a)),
        Instruction::Tay => Some(set_y(c, c.register_a)),
        Instruction::Tsx => Some(set_x(c, c.stack_pointer)),
        Instruction::Txa => Some(set_a(c, c.register_x)),
        Instruction::Txs => Some(CpuView { stack_pointer: c.register_x, ..c }),
        Instruction::Tya => Some(set_a(c, c.register_y)),
        Instruction::Inx => Some(set_x(c, add8(c.register_x, 1))),
        Instruction::Iny => Some(set_y(c, add8(c.register_y, 1))),
        Instruction::Dex => Some(set_x(c, sub8(c.register_x, 1))),
        Instruction::Dey => Some(set_y(c, sub8(c.register_y, 1))),
        Instruction::Adc => match operand(c, mode) {
            Some((c1, m)) => Some(add_to_a(c1, (m + carry_of(c1.status) + c1.register_a) as u16)),
            None => None,
        },
        Instruction::Sbc => match operand(c, mode) {
            Some((c1, m)) => subtract_from_a(c1, m),
            None => None,
        },
        Instruction::And => match operand(c, mode) {
            Some((c1, m)) => Some(set_a(c1, c1.register_a & m)),
            None => None,
        },
        Instruction::Ora => match operand(c, mode) {
            Some((c1, m)) => Some(set_a(c1, c1.register_a | m)),
            None => None,
        },
        Instruction::Eor => match operand(c, mode) {
            Some((c1, m)) => Some(set_a(c1, c1.register_a ^ m)),
            None => None,
        },
        Instruction::Asl => match operand_at(c, mode) {
            Some((c1, addr, d)) => store_back(
                c1,
                addr,
                with_carry(c1.status, d >= 0x80),
                ((d * 2) % 256) as u8,
            ),
            None => None,
        },
        Instruction::Lsr => match operand_at(c, mode) {
            Some((c1, addr, d)) => store_back(c1, addr, with_carry(c1.status, d % 2 == 1), d / 2),
            None => None,
        },
        Instruction::LsrAccumulator => {
            let a = c.register_a;
            Some(set_a(CpuView { status: with_carry(c.status, a % 2 == 1), ..c }, a / 2))
        },
        Instruction::Rol => match operand_at(c, mode) {
            Some((c1, addr, d)) => store_back(
                c1,
                addr,
                with_carry(c1.status, d >= 0x80),
                ((d * 2) % 256 + carry_of(c1.status)) as u8,
            ),
            None => None,
        },
        Instruction::Ror => match operand_at(c, mode) {
            Some((c1, addr, d)) => store_back(
                c1,
                addr,
                with_carry(c1.status, d % 2 == 1),
                (d / 2 + carry_of(c1.status) * 128) as u8,
            ),
            None => None,
        },
        Instruction::Inc => match operand_at(c, mode) {
            Some((c1, addr, d)) => store_back(c1, addr, c1.status, add8(d, 1)),
            None => None,
        },
        Instruction::Dec => match operand_at(c, mode) {
            Some((c1, addr, d)) => store_back(c1, addr, c1.status, sub8(d, 1)),
            None => None,
        },
        Instruction::Cmp => compare(c, mode, c.register_a),
        Instruction::Cpx => compare(c, mode, c.register_x),
        Instruction::Cpy => compare(c, mode, c.register_y),
        Instruction::Bit => match operand(c, mode) {
            Some((c1, m)) => Some(CpuView { register_a: bit_test(c1.register_a, m), ..c1 }),
            None => None,
        },
        Instruction::Bcc => branch(c, c.status & 0b0000_0001 == 0),
        Instruction::Bcs => branch(c, c.status & 0b0000_0001 == 1),
        Instruction::Beq => branch(c, c.status & 0b0000_0010 == 2),
        Instruction::Bne => branch(c, c.status & 0b0000_0010 == 0),
        Instruction::Bmi => branch(c, c.status & 0b1000_0000 != 0),
        Instruction::Bpl => branch(c, c.status & 0b1000_0000 == 0),
        Instruction::Bvc => branch(c, c.status & 0b0100_0000 == 0),
        Instruction::Bvs => branch(c, c.status & 0b0100_0000 != 0),
        Instruction::Clc => Some(CpuView { status: c.status & 0b1111_1110, ..c }),
        Instruction::Sec => Some(CpuView { status: c.status | 0b0000_0001, ..c }),
        Instruction::Sed => Some(CpuView { status: c.status | 0b0000_1000, ..c }),
        Instruction::Sei => Some(CpuView { status: c.status | 0b0000_0100, ..c }),
        // CLD, CLI and CLV, as this CPU carries them out, clear bits of A.
        Instruction::Cld => Some(CpuView { register_a: c.register_a & 0b1111_0111, ..c }),
        Instruction::Cli => Some(CpuView { register_a: c.register_a & 0b1111_1011, ..c }),
        Instruction::Clv => Some(CpuView { register_a: c.register_a & 0b1011_1111, ..c }),
        Instruction::Pha => Some(push(c, c.register_a | 0b0011_0000)),
        Instruction::Php => Some(push(c, c.status | 0b0011_0000)),
        Instruction::Pla => {
            let (c1, v) = pop(c);
            Some(set_a(c1, v))
        },
        Instruction::Plp => {
            let (c1, v) = pop(c);
            Some(CpuView { status: (v & 0b1110_1111) | 0b0010_0000, ..c1 })
        },
        Instruction::Rti => {
            let (c1, v) = pop(c);
            Some(CpuView { status: (v & 0b1101_1111) | 0b0001_0000, ..c1 })
        },
        Instruction::JmpAbsolute => match cpu_read_u16(c, c.program_counter) {
            Some((c1, target)) => Some(CpuView { program_counter: target, ..c1 }),
            None => None,
        },
        Instruction::JmpIndirect => jump_indirect(c),
        Instruction::Jsr => call_subroutine(c),
        Instruction::Rts => return_from_subroutine(c),
        Instruction::Nop => Some(c),
        // BRK stops the machine when fetched (see `step_transition`).
        Instruction::Brk => Some(c),
    }
}

/// One fetch-decode-execute step: the opcode at the program counter is
/// read and decoded, the program counter moves past it, BRK halts, and any
/// other instruction executes; if it left the program counter where it
/// was, the counter then skips the instruction's operand bytes.
#[verifier::opaque]
pub open spec fn step_transition(c: CpuView) -> Transition {
    match cpu_read(c, c.program_counter) {
        None => Transition::Fault,
        Some((c1, code)) => if c1.program_counter == 0xffff {
            Transition::Fault
        } else {
            let c2 = CpuView { program_counter: (c1.program_counter + 1) as u16, ..c1 };
            match opcode_for(code) {
                None => Transition::Fault,
                Some(op) => if op.instruction == Instruction::Brk {
                    Transition::Halt(c2)
                } else {
                    match instruction_effect(c2, op.instruction, op.mode) {
                        None => Transition::Fault,
                        Some(c3) => if c3.program_counter != c2.program_counter {
                            Transition::Next(c3)
                        } else if c3.program_counter + op.len - 1 > 0xffff {
                            Transition::Fault
                        } else {
                            Transition::Next(
                                CpuView {
                                    program_counter: (c3.program_counter + op.len - 1) as u16,
                                    ..c3
                                },
                            )
                        },
                    }
                },
            }
        },
    }
}

/// At most `fuel` steps from `c`: the state reached and how the run ended.
/// After a fault the state component is `c`, the last state before it.
pub open spec fn run_steps(c: CpuView, fuel: nat) -> (CpuView, Execution)
    decreases fuel,
{
    if fuel == 0 {
        (c, Execution::Running)
    } else {
        match step_transition(c) {
            Transition::Next(c1) => run_steps(c1, (fuel - 1) as nat),
            Transition::Halt(c1) => (c1, Execution::Halted),
            Transition::Fault => (c, Execution::Faulted),
        }
    }
}

/// The number of instructions `run` executes at most.
pub const STEP_LIMIT: u64 = 0xffff_ffff_ffff_ffff;

/// The state after a reset: A, X and Y cleared, the status at its power-on
/// value, the stack pointer at $FD, and the program counter loaded from the
/// reset vector at $FFFC.
pub open spec fn reset_state(c: CpuView) -> CpuView {
    CpuView {
        register_a: 0,
        register_x: 0,
        register_y: 0,
        status: 0b100100,
        stack_pointer: 0xfd,
        program_counter: bus_read_u16(c.bus, 0xfffc).1,
        bus: bus_read_u16(c.bus, 0xfffc).0,
    }
}

/// Work RAM with `program` copied to $0600 onward.
pub open spec fn ram_with_program(ram: Seq<u8>, program: Seq<u8>) -> Seq<u8> {
    Seq::new(
        ram.len(),
        |i: int|
            if 0x600 <= i < 0x600 + program.len() {
                program[i - 0x600]
            } else {
                ram[i]
            },
    )
}

/// The state with `program` copied into work RAM at $0600.
pub open spec fn with_program(c: CpuView, program: Seq<u8>) -> CpuView {
    CpuView {
        bus: BusView { cpu_vram: ram_with_program(c.bus.cpu_vram, program), ..c.bus },
        ..c
    }
}

/// The state a program starts in: loaded at $0600, registers reset, and the
/// program counter at $0600.
pub open spec fn started(c: CpuView, program: Seq<u8>) -> CpuView {
    CpuView { program_counter: 0x0600, ..reset_state(with_program(c, program)) }
}

/// Copying a program into work RAM leaves the reset vector readable.
pub proof fn lemma_program_keeps_rom(c: CpuView, program: Seq<u8>)
    requires
        bus_can_read_u16(c.bus, 0xfffc),
    ensures
        bus_can_read_u16(with_program(c, program).bus, 0xfffc),
{
    let ram = ram_with_program(c.bus.cpu_vram, program);
    lemma_rom_ignores_ram(c.bus, ram, 0xfffc);
    lemma_rom_ignores_ram(bus_read(c.bus, 0xfffc).0, ram, 0xfffd);
}

/// Z and N report on the result and no other status bit changes.
pub proof fn lemma_zero_negative_bits(status: u8, result: u8)
    ensures
        (with_zero_negative(status, result) & 0b0000_0010 != 0) == (result == 0),
        (with_zero_negative(status, result) & 0b1000_0000 != 0) == (result >= 0x80),
        with_zero_negative(status, result) & 0b0111_1101 == status & 0b0111_1101,
{
    let s = if result == 0 {
        status | 0b0000_0010
    } else {
        status & 0b1111_1101
    };
    let t = if result >= 0x80 {
        s | 0b1000_0000
    } else {
        s & 0b0111_1111
    };
    assert(t & 0b0000_0010 != 0 <==> result == 0) by (bit_vector)
        requires
            s == (if result == 0 { status | 2u8 } else { status & 0xfdu8 }),
            t == (if result >= 0x80 { s | 0x80u8 } else { s & 0x7fu8 }),
    ;
    assert(t & 0b1000_0000 != 0 <==> result >= 0x80) by (bit_vector)
        requires
            t == (if result >= 0x80 { s | 0x80u8 } else { s & 0x7fu8 }),
    ;
    assert(t & 0b0111_1101 == status & 0b0111_1101) by (bit_vector)
        requires
            s == (if result == 0 { status | 2u8 } else { status & 0xfdu8 }),
            t == (if result >= 0x80 { s | 0x80u8 } else { s & 0x7fu8 }),
    ;
}

/// A pushed byte is popped back, and the stack pointer returns to where it
/// was.
pub proof fn lemma_stack_round_trip(c: CpuView, v: u8)
    requires
        c.bus.cpu_vram.len() == 2048,
    ensures
        pop(push(c, v)).1 == v,
        pop(push(c, v)).0.stack_pointer == c.stack_pointer,
        pop(push(c, v)).0.bus.cpu_vram == c.bus.cpu_vram.update(0x100 + c.stack_pointer, v),
{
    lemma_ram_access(c.bus, (0x100 + c.stack_pointer) as u16);
    let c1 = push(c, v);
    lemma_ram_access(c1.bus, (0x100 + c.stack_pointer) as u16);
}

/// A pushed word is popped back, and the stack pointer returns to where it
/// was.
pub proof fn lemma_stack_word_round_trip(c: CpuView, w: u16)
    requires
        c.bus.cpu_vram.len() == 2048,
    ensures
        pop_u16(push_u16(c, w)).1 == w,
        pop_u16(push_u16(c, w)).0.stack_pointer == c.stack_pointer,
        push_u16(c, w).bus.cpu_vram.len() == 2048,
{
    let hi = (w / 256) as u8;
    let lo = (w % 256) as u8;
    let sp = c.stack_pointer;
    let c1 = push(c, hi);
    lemma_ram_access(c.bus, (0x100 + sp) as u16);
    let c2 = push(c1, lo);
    lemma_ram_access(c1.bus, (0x100 + sub8(sp, 1)) as u16);
    let (c3, lo2) = pop(c2);
    lemma_ram_access(c2.bus, (0x100 + sub8(sp, 1)) as u16);
    assert(lo2 == lo);
    let (c4, hi2) = pop(c3);
    lemma_ram_access(c3.bus, (0x100 + sp) as u16);
    assert(hi2 == hi);
}

/// JSR followed by RTS comes back to the address after JSR's two operand
/// bytes, with the stack pointer where it was.
pub proof fn lemma_jsr_then_rts(c: CpuView)
    requires
        c.bus.cpu_vram.len() == 2048,
        call_subroutine(c) is Some,
    ensures
        return_from_subroutine(call_subroutine(c)->0) is Some,
        (return_from_subroutine(call_subroutine(c)->0)->0).program_counter == c.program_counter
            + 2,
        (return_from_subroutine(call_subroutine(c)->0)->0).stack_pointer == c.stack_pointer,
{
    let ret = (c.program_counter + 1) as u16;
    let c1 = push_u16(c, ret);
    lemma_stack_word_round_trip(c, ret);
    let pc = c1.program_counter;
    lemma_read_keeps_ram(c1.bus, pc);
    lemma_read_keeps_ram(bus_read(c1.bus, pc).0, (pc + 1) as u16);
    let called = call_subroutine(c)->0;
    assert(bus_read_u16(c1.bus, pc).0.cpu_vram == c1.bus.cpu_vram);
    assert(called.bus == bus_read_u16(c1.bus, pc).0);
    lemma_pop_u16_depends_on_ram(called, c1);
}

/// Popping reads only work RAM and the stack pointer.
pub proof fn lemma_pop_u16_depends_on_ram(c: CpuView, d: CpuView)
    requires
        c.bus.cpu_vram == d.bus.cpu_vram,
        c.stack_pointer == d.stack_pointer,
        c.bus.cpu_vram.len() == 2048,
    ensures
        pop_u16(c).1 == pop_u16(d).1,
        pop_u16(c).0.stack_pointer == pop_u16(d).0.stack_pointer,
{
    let sp1 = add8(c.stack_pointer, 1);
    lemma_ram_access(c.bus, (0x100 + sp1) as u16);
    lemma_ram_access(d.bus, (0x100 + sp1) as u16);
    let sp2 = add8(sp1, 1);
    lemma_ram_access(pop(c).0.bus, (0x100 + sp2) as u16);
    lemma_ram_access(pop(d).0.bus, (0x100 + sp2) as u16);
}

/// Fetching BRK halts the machine with the program counter just past it.
pub proof fn lemma_brk_halts(c: CpuView)
    requires
        cpu_read(c, c.program_counter) matches Some((c1, code)) && code == 0,
        c.program_counter < 0xffff,
    ensures
        step_transition(c) == Transition::Halt(
            CpuView {
                program_counter: (c.program_counter + 1) as u16,
                ..(cpu_read(c, c.program_counter)->0).0
            },
        ),
{
    reveal(step_transition);
}

/// The carry is bit 0: `with_carry` sets it as asked and leaves the other
/// bits alone.
pub proof fn lemma_carry_bits(status: u8, carry: bool)
    ensures
        (with_carry(status, carry) & 1 == 1) == carry,
        with_carry(status, carry) & 0b1111_1110 == status & 0b1111_1110,
        carry_of(with_carry(status, carry)) == (if carry { 1u8 } else { 0u8 }),
{
    let s = with_carry(status, carry);
    assert((s & 1 == 1) == carry && s & 0b1111_1110 == status & 0b1111_1110 && s % 2 == (if carry { 1u8 } else { 0u8 })) by (bit_vector)
        requires
            s == (if carry { status | 1u8 } else { status & 0xfeu8 }),
    ;
}

/// CMP, CPX and CPY set C when the register is at least the operand and Z
/// when they are equal, and N from bit 7 of their difference; the registers
/// are unchanged.
pub proof fn lemma_compare_flags(c: CpuView, mode: AddressingMode, reg: u8)
    requires
        compare(c, mode, reg) is Some,
    ensures
        ({
            let m = operand_value(c, mode);
            let after = compare(c, mode, reg)->0;
            &&& (after.status & 1 == 1) == (reg >= m)
            &&& (after.status & 0b10 != 0) == (reg == m)
            &&& (after.status & 0b1000_0000 != 0) == (sub8(reg, m) >= 0x80)
            &&& after.register_a == c.register_a
            &&& after.register_x == c.register_x
            &&& after.register_y == c.register_y
        }),
{
    let (c1, m) = operand(c, mode)->0;
    let s1 = with_carry(c1.status, reg >= m);
    lemma_carry_bits(c1.status, reg >= m);
    lemma_zero_negative_bits(s1, sub8(reg, m));
    let s2 = with_zero_negative(s1, sub8(reg, m));
    assert((s2 & 1 == 1) == (s1 & 1 == 1)) by (bit_vector)
        requires
            s2 & 0b0111_1101u8 == s1 & 0b0111_1101u8,
    ;
}

/// ADC stores the low byte of A + operand + carry in A, sets the carry
/// exactly when that sum exceeds $FF, and, as this CPU computes it, always
/// clears the overflow flag.
pub proof fn lemma_adc_result(c: CpuView, mode: AddressingMode)
    requires
        instruction_effect(c, Instruction::Adc, mode) is Some,
    ensures
        ({
            let m = operand_value(c, mode);
            let sum = c.register_a + m + carry_of(c.status);
            let after = instruction_effect(c, Instruction::Adc, mode)->0;
            &&& after.register_a == sum % 256
            &&& (after.status & 1 == 1) == (sum > 0xff)
            &&& after.status & 0b0100_0000 == 0
        }),
{
    let (c1, m) = operand(c, mode)->0;
    lemma_operand_keeps_registers(c, mode);
    let sum = (m + carry_of(c1.status) + c1.register_a) as u16;
    let result = (sum % 256) as u8;
    let s1 = with_carry(c1.status, sum > 0xff);
    lemma_carry_bits(c1.status, sum > 0xff);
    let a = c1.register_a;
    assert((sum ^ (result as u16)) & ((result ^ a) as u16) & 0x80 == 0) by (bit_vector)
        requires
            result == sum % 256,
    ;
    let s2 = s1 & 0b1011_1111;
    lemma_zero_negative_bits(s2, result);
    let s3 = with_zero_negative(s2, result);
    assert((s3 & 1 == 1) == (s1 & 1 == 1) && s3 & 0b0100_0000 == 0) by (bit_vector)
        requires
            s3 & 0b0111_1101u8 == s2 & 0b0111_1101u8,
            s2 == s1 & 0b1011_1111u8,
    ;
}

/// Locating and reading an operand changes only the bus.
pub proof fn lemma_operand_keeps_registers(c: CpuView, mode: AddressingMode)
    requires
        operand(c, mode) is Some,
    ensures
        ({
            let c1 = (operand(c, mode)->0).0;
            &&& c1.register_a == c.register_a
            &&& c1.register_x == c.register_x
            &&& c1.register_y == c.register_y
            &&& c1.status == c.status
            &&& c1.stack_pointer == c.stack_pointer
            &&& c1.program_counter == c.program_counter
        }),
{
}

/// Two states hold the same cartridge ROMs.
pub open spec fn same_roms(c1: CpuView, c2: CpuView) -> bool {
    &&& c1.bus.prg_rom == c2.bus.prg_rom
    &&& c1.bus.ppu.chr_rom == c2.bus.ppu.chr_rom
}

/// Locating an operand leaves the ROMs as they were.
pub proof fn lemma_operand_keeps_roms(c: CpuView, mode: AddressingMode)
    ensures
        operand_address(c, mode) is Some ==> same_roms(c, (operand_address(c, mode)->0).0),
        operand_at(c, mode) is Some ==> same_roms(c, (operand_at(c, mode)->0).0),
{
    lemma_all_accesses_keep_roms();
}

/// The cartridge's ROMs are read-only: no instruction changes them.
#[verifier::rlimit(100)]
pub proof fn lemma_instruction_keeps_roms(c: CpuView, ins: Instruction, mode: AddressingMode)
    requires
        instruction_effect(c, ins, mode) is Some,
    ensures
        same_roms(c, instruction_effect(c, ins, mode)->0),
{
    lemma_all_accesses_keep_roms();
    lemma_operand_keeps_roms(c, mode);
    match ins {
        Instruction::JmpIndirect => {
            let (c1, ptr) = cpu_read_u16(c, c.program_counter)->0;
            assert(same_roms(c, c1));
        },
        Instruction::Jsr => {
            let c1 = push_u16(c, (c.program_counter + 1) as u16);
            assert(same_roms(c, c1));
        },
        _ => {},
    }
}

/// The cartridge's ROMs are read-only: no step changes them.
pub proof fn lemma_step_keeps_roms(c: CpuView)
    ensures
        match step_transition(c) {
            Transition::Next(c1) => same_roms(c, c1),
            Transition::Halt(c1) => same_roms(c, c1),
            Transition::Fault => true,
        },
{
    reveal(step_transition);
    lemma_all_accesses_keep_roms();
    if let Some((c1, code)) = cpu_read(c, c.program_counter) {
        if let Some(op) = opcode_for(code) {
            let c2 = CpuView { program_counter: (c1.program_counter + 1) as u16, ..c1 };
            if instruction_effect(c2, op.instruction, op.mode) is Some {
                lemma_instruction_keeps_roms(c2, op.instruction, op.mode);
            }
        }
    }
}

/// The cartridge's ROMs are read-only: a whole run leaves them as they were.
pub proof fn lemma_run_keeps_roms(c: CpuView, fuel: nat)
    ensures
        same_roms(c, run_steps(c, fuel).0),
    decreases fuel,
{
    if fuel > 0 {
        lemma_step_keeps_roms(c);
        if let Transition::Next(c1) = step_transition(c) {
            lemma_run_keeps_roms(c1, (fuel - 1) as nat);
        }
    }
}

/// The status after an instruction that loads `v`: Z tells whether `v` is
/// zero, N copies bit 7 of `v`, and every other bit is as `before`.
pub open spec fn reports(before: u8, after: u8, v: u8) -> bool {
    &&& (after & 0b0000_0010 != 0) == (v == 0)
    &&& (after & 0b1000_0000 != 0) == (v >= 0x80)
    &&& after & 0b0111_1101 == before & 0b0111_1101
}

/// Two states agree on everything but A and the status.
pub open spec fn same_but_a_status(c1: CpuView, c2: CpuView) -> bool {
    &&& c1.register_x == c2.register_x
    &&& c1.register_y == c2.register_y
    &&& c1.stack_pointer == c2.stack_pointer
    &&& c1.program_counter == c2.program_counter
}

proof fn lemma_add_to_a_facts(c: CpuView, sum: u16)
    ensures
        add_to_a(c, sum).register_a == sum % 256,
        (add_to_a(c, sum).status & 1 == 1) == (sum > 0xff),
        add_to_a(c, sum).status & 0b0100_0000 == 0,
        (add_to_a(c, sum).status & 0b10 != 0) == (sum % 256 == 0),
        (add_to_a(c, sum).status & 0x80 != 0) == (sum % 256 >= 0x80),
        same_but_a_status(c, add_to_a(c, sum)),
        add_to_a(c, sum).bus == c.bus,
{
    let result = (sum % 256) as u8;
    let s1 = with_carry(c.status, sum > 0xff);
    lemma_carry_bits(c.status, sum > 0xff);
    let a = c.register_a;
    assert((sum ^ (result as u16)) & ((result ^ a) as u16) & 0x80 == 0) by (bit_vector)
        requires
            result == sum % 256,
    ;
    let s2 = s1 & 0b1011_1111;
    lemma_zero_negative_bits(s2, result);
    let s3 = with_zero_negative(s2, result);
    assert((s3 & 1 == 1) == (s1 & 1 == 1) && s3 & 0b0100_0000 == 0) by (bit_vector)
        requires
            s3 & 0b0111_1101u8 == s2 & 0b0111_1101u8,
            s2 == s1 & 0b1011_1111u8,
    ;
}

/// SBC subtracts with the carry as "no borrow": A becomes
/// A + (255 - m) + C modulo 256, which is A - m when C is set and A - m - 1
/// when it is clear. The carry comes out set when no borrow occurred; V is
/// cleared; Z and N follow the new A; X, Y, S and the program counter stay.
/// As this CPU computes it, the instruction fails when the operand is below
/// $80 and A + C exceeds it (its 16-bit sum overflows).
pub proof fn lemma_sbc_result(c: CpuView, mode: AddressingMode)
    requires
        operand(c, mode) is Some,
    ensures
        ({
            let m = operand_value(c, mode);
            let carry = c.status % 2;
            let served = m >= 0x80 || c.register_a + carry <= m;
            &&& (instruction_effect(c, Instruction::Sbc, mode) is Some) == served
            &&& served ==> {
                let after = instruction_effect(c, Instruction::Sbc, mode)->0;
                &&& after.register_a == (c.register_a + (255 - m) + carry) % 256
                &&& (after.status & 1 == 1) == (m < 0x80 || c.register_a + carry > m)
                &&& after.status & 0b0100_0000 == 0
                &&& (after.status & 0b10 != 0) == (after.register_a == 0)
                &&& (after.status & 0x80 != 0) == (after.register_a >= 0x80)
                &&& same_but_a_status(c, after)
            }
        }),
{
    let (c1, m) = operand(c, mode)->0;
    lemma_operand_keeps_registers(c, mode);
    assert(operand_value(c, mode) == m);
    lemma_subtract_facts(c1, m);
}

proof fn lemma_subtract_facts(c: CpuView, m: u8)
    ensures
        ({
            let carry = c.status % 2;
            let served = m >= 0x80 || c.register_a + carry <= m;
            &&& (subtract_from_a(c, m) is Some) == served
            &&& served ==> {
                let after = subtract_from_a(c, m)->0;
                &&& after.register_a == (c.register_a + (255 - m) + carry) % 256
                &&& (after.status & 1 == 1) == (m < 0x80 || c.register_a + carry > m)
                &&& after.status & 0b0100_0000 == 0
                &&& (after.status & 0b10 != 0) == (after.register_a == 0)
                &&& (after.status & 0x80 != 0) == (after.register_a >= 0x80)
                &&& same_but_a_status(c, after)
            }
        }),
{
    let carry = c.status % 2;
    let sum = sbc_operand(m) + carry + c.register_a;
    if sum <= 0xffff {
        lemma_add_to_a_facts(c, sum as u16);
    }
}

/// ADC adds the operand and the carry to A: A becomes A + m + C modulo 256,
/// the carry comes out set exactly when that sum exceeds $FF, V is cleared
/// (as this CPU computes it), Z and N follow the new A, and X, Y, S and the
/// program counter stay. ADC is served whenever its operand is.
pub proof fn lemma_adc_law(c: CpuView, mode: AddressingMode)
    requires
        operand(c, mode) is Some,
    ensures
        instruction_effect(c, Instruction::Adc, mode) is Some,
        ({
            let m = operand_value(c, mode);
            let sum = c.register_a + m + c.status % 2;
            let after = instruction_effect(c, Instruction::Adc, mode)->0;
            &&& after.register_a == sum % 256
            &&& (after.status & 1 == 1) == (sum > 0xff)
            &&& after.status & 0b0100_0000 == 0
            &&& (after.status & 0b10 != 0) == (after.register_a == 0)
            &&& (after.status & 0x80 != 0) == (after.register_a >= 0x80)
            &&& same_but_a_status(c, after)
        }),
{
    let (c1, m) = operand(c, mode)->0;
    lemma_operand_keeps_registers(c, mode);
    lemma_add_to_a_facts(c1, (m + carry_of(c1.status) + c1.register_a) as u16);
}

/// The status after a compare of `reg` with `m`: C set when `reg` is at
/// least `m`, Z when they are equal, N from bit 7 of `reg - m`.
pub open spec fn compare_reports(after: u8, reg: u8, m: u8) -> bool {
    &&& (after & 1 == 1) == (reg >= m)
    &&& (after & 0b10 != 0) == (reg == m)
    &&& (after & 0x80 != 0) == ((reg - m + 256) % 256 >= 0x80)
}

/// CMP compares A, CPX compares X and CPY compares Y with the operand; the
/// registers themselves stay, and each is served whenever its operand is.
pub proof fn lemma_compare_instructions(c: CpuView, mode: AddressingMode)
    requires
        operand(c, mode) is Some,
    ensures
        ({
            let m = operand_value(c, mode);
            let cmp = instruction_effect(c, Instruction::Cmp, mode);
            let cpx = instruction_effect(c, Instruction::Cpx, mode);
            let cpy = instruction_effect(c, Instruction::Cpy, mode);
            &&& cmp is Some && compare_reports((cmp->0).status, c.register_a, m)
            &&& cpx is Some && compare_reports((cpx->0).status, c.register_x, m)
            &&& cpy is Some && compare_reports((cpy->0).status, c.register_y, m)
            &&& (cmp->0).register_a == c.register_a && same_but_a_status(c, cmp->0)
            &&& (cpx->0).register_a == c.register_a && same_but_a_status(c, cpx->0)
            &&& (cpy->0).register_a == c.register_a && same_but_a_status(c, cpy->0)
        }),
{
    lemma_compare_register(c, mode, Instruction::Cmp, c.register_a);
    lemma_compare_register(c, mode, Instruction::Cpx, c.register_x);
    lemma_compare_register(c, mode, Instruction::Cpy, c.register_y);
}

proof fn lemma_compare_register(c: CpuView, mode: AddressingMode, ins: Instruction, reg: u8)
    requires
        operand(c, mode) is Some,
        instruction_effect(c, ins, mode) == compare(c, mode, reg),
    ensures
        instruction_effect(c, ins, mode) is Some,
        compare_reports((instruction_effect(c, ins, mode)->0).status, reg, operand_value(c, mode)),
        (instruction_effect(c, ins, mode)->0).register_a == c.register_a,
        same_but_a_status(c, instruction_effect(c, ins, mode)->0),
{
    lemma_operand_keeps_registers(c, mode);
    lemma_compare_flags(c, mode, reg);
}

/// LDA, LDX and LDY load their register with the operand and report it in
/// Z and N; STX and STY, as this CPU carries them out, load their register
/// without touching the status. Every other register stays, and each is
/// served whenever its operand is.
pub proof fn lemma_load_instructions(c: CpuView, mode: AddressingMode)
    requires
        operand(c, mode) is Some,
    ensures
        ({
            let m = operand_value(c, mode);
            let lda = instruction_effect(c, Instruction::Lda, mode);
            let ldx = instruction_effect(c, Instruction::Ldx, mode);
            let ldy = instruction_effect(c, Instruction::Ldy, mode);
            let stx = instruction_effect(c, Instruction::Stx, mode);
            let sty = instruction_effect(c, Instruction::Sty, mode);
            &&& lda is Some && ldx is Some && ldy is Some && stx is Some && sty is Some
            &&& (lda->0).register_a == m && reports(c.status, (lda->0).status, m)
            &&& same_but_a_status(c, lda->0)
            &&& (ldx->0).register_x == m && reports(c.status, (ldx->0).status, m)
            &&& (ldx->0).register_a == c.register_a && (ldx->0).register_y == c.register_y
            &&& (ldy->0).register_y == m && reports(c.status, (ldy->0).status, m)
            &&& (ldy->0).register_a == c.register_a && (ldy->0).register_x == c.register_x
            &&& (stx->0).register_x == m && (stx->0).status == c.status
            &&& (stx->0).register_a == c.register_a && (stx->0).register_y == c.register_y
            &&& (sty->0).register_y == m && (sty->0).status == c.status
            &&& (sty->0).register_a == c.register_a && (sty->0).register_x == c.register_x
        }),
{
    lemma_operand_keeps_registers(c, mode);
    lemma_zero_negative_bits(c.status, operand_value(c, mode));
}

/// AND, ORA and EOR combine A with the operand bit by bit and report the
/// result in Z and N; X, Y, S and the program counter stay.
pub proof fn lemma_logic_instructions(c: CpuView, mode: AddressingMode)
    requires
        operand(c, mode) is Some,
    ensures
        ({
            let m = operand_value(c, mode);
            let and = instruction_effect(c, Instruction::And, mode);
            let ora = instruction_effect(c, Instruction::Ora, mode);
            let eor = instruction_effect(c, Instruction::Eor, mode);
            &&& and is Some && ora is Some && eor is Some
            &&& (and->0).register_a == c.register_a & m
            &&& reports(c.status, (and->0).status, c.register_a & m)
            &&& (ora->0).register_a == c.register_a | m
            &&& reports(c.status, (ora->0).status, c.register_a | m)
            &&& (eor->0).register_a == c.register_a ^ m
            &&& reports(c.status, (eor->0).status, c.register_a ^ m)
            &&& same_but_a_status(c, and->0) && same_but_a_status(c, ora->0)
            &&& same_but_a_status(c, eor->0)
        }),
{
    let m = operand_value(c, mode);
    lemma_operand_keeps_registers(c, mode);
    lemma_zero_negative_bits(c.status, c.register_a & m);
    lemma_zero_negative_bits(c.status, c.register_a | m);
    lemma_zero_negative_bits(c.status, c.register_a ^ m);
}

/// The transfers copy one register into another, and the counters step X
/// or Y by one with wrap-around; all but TXS report the new value in Z and
/// N. Memory and the untouched registers stay.
pub proof fn lemma_register_instructions(c: CpuView, mode: AddressingMode)
    ensures
        ({
            let tax = instruction_effect(c, Instruction::Tax, mode)->0;
            let tay = instruction_effect(c, Instruction::Tay, mode)->0;
            let tsx = instruction_effect(c, Instruction::Tsx, mode)->0;
            let txa = instruction_effect(c, Instruction::Txa, mode)->0;
            let txs = instruction_effect(c, Instruction::Txs, mode)->0;
            let tya = instruction_effect(c, Instruction::Tya, mode)->0;
            let inx = instruction_effect(c, Instruction::Inx, mode)->0;
            let iny = instruction_effect(c, Instruction::Iny, mode)->0;
            let dex = instruction_effect(c, Instruction::Dex, mode)->0;
            let dey = instruction_effect(c, Instruction::Dey, mode)->0;
            &&& tax.register_x == c.register_a && reports(c.status, tax.status, c.register_a)
            &&& tax.register_a == c.register_a && tax.register_y == c.register_y && tax.bus == c.bus
            &&& tay.register_y == c.register_a && reports(c.status, tay.status, c.register_a)
            &&& tay.register_a == c.register_a && tay.register_x == c.register_x
            &&& tsx.register_x == c.stack_pointer && reports(c.status, tsx.status, c.stack_pointer)
            &&& tsx.stack_pointer == c.stack_pointer
            &&& txa.register_a == c.register_x && reports(c.status, txa.status, c.register_x)
            &&& txa.register_x == c.register_x
            &&& txs.stack_pointer == c.register_x && txs.status == c.status
            &&& txs.register_x == c.register_x && txs.register_a == c.register_a
            &&& tya.register_a == c.register_y && reports(c.status, tya.status, c.register_y)
            &&& tya.register_y == c.register_y
            &&& inx.register_x == (c.register_x + 1) % 256
            &&& reports(c.status, inx.status, inx.register_x) && inx.register_y == c.register_y
            &&& iny.register_y == (c.register_y + 1) % 256
            &&& reports(c.status, iny.status, iny.register_y) && iny.register_x == c.register_x
            &&& dex.register_x == (c.register_x + 255) % 256
            &&& reports(c.status, dex.status, dex.register_x) && dex.register_y == c.register_y
            &&& dey.register_y == (c.register_y + 255) % 256
            &&& reports(c.status, dey.status, dey.register_y) && dey.register_x == c.register_x
            &&& inx.register_a == c.register_a && dex.register_a == c.register_a
            &&& iny.register_a == c.register_a && dey.register_a == c.register_a
        }),
{
    lemma_zero_negative_bits(c.status, c.register_a);
    lemma_zero_negative_bits(c.status, c.register_x);
    lemma_zero_negative_bits(c.status, c.register_y);
    lemma_zero_negative_bits(c.status, c.stack_pointer);
    lemma_zero_negative_bits(c.status, add8(c.register_x, 1));
    lemma_zero_negative_bits(c.status, add8(c.register_y, 1));
    lemma_zero_negative_bits(c.status, sub8(c.register_x, 1));
    lemma_zero_negative_bits(c.status, sub8(c.register_y, 1));
}

/// SEC and CLC set and clear the carry (bit 0), SEI sets bit 2 and SED
/// bit 3, each leaving the other status bits; CLD, CLI and CLV, as this
/// CPU carries them out, clear bit 3, 2 or 6 of A and leave the status.
pub proof fn lemma_flag_instructions(c: CpuView, mode: AddressingMode)
    ensures
        ({
            let sec = instruction_effect(c, Instruction::Sec, mode)->0;
            let clc = instruction_effect(c, Instruction::Clc, mode)->0;
            let sei = instruction_effect(c, Instruction::Sei, mode)->0;
            let sed = instruction_effect(c, Instruction::Sed, mode)->0;
            let cld = instruction_effect(c, Instruction::Cld, mode)->0;
            let cli = instruction_effect(c, Instruction::Cli, mode)->0;
            let clv = instruction_effect(c, Instruction::Clv, mode)->0;
            &&& sec.status & 1 == 1 && sec.status & 0xfe == c.status & 0xfe
            &&& clc.status & 1 == 0 && clc.status & 0xfe == c.status & 0xfe
            &&& sei.status & 0b100 != 0 && sei.status & 0xfb == c.status & 0xfb
            &&& sed.status & 0b1000 != 0 && sed.status & 0xf7 == c.status & 0xf7
            &&& sec.register_a == c.register_a && clc.register_a == c.register_a
            &&& sei.register_a == c.register_a && sed.register_a == c.register_a
            &&& cld.register_a & 0b1000 == 0 && cld.register_a & 0xf7 == c.register_a & 0xf7
            &&& cli.register_a & 0b100 == 0 && cli.register_a & 0xfb == c.register_a & 0xfb
            &&& clv.register_a & 0x40 == 0 && clv.register_a & 0xbf == c.register_a & 0xbf
            &&& cld.status == c.status && cli.status == c.status && clv.status == c.status
        }),
{
    let s = c.status;
    let a = c.register_a;
    assert((s | 1) & 1 == 1 && (s | 1) & 0xfe == s & 0xfe) by (bit_vector);
    assert((s & 0xfe) & 1 == 0 && (s & 0xfe) & 0xfe == s & 0xfe) by (bit_vector);
    assert((s | 4) & 4 != 0 && (s | 4) & 0xfb == s & 0xfb) by (bit_vector);
    assert((s | 8) & 8 != 0 && (s | 8) & 0xf7 == s & 0xf7) by (bit_vector);
    assert((a & 0xf7) & 8 == 0 && (a & 0xf7) & 0xf7 == a & 0xf7) by (bit_vector);
    assert((a & 0xfb) & 4 == 0 && (a & 0xfb) & 0xfb == a & 0xfb) by (bit_vector);
    assert((a & 0xbf) & 0x40 == 0 && (a & 0xbf) & 0xbf == a & 0xbf) by (bit_vector);
}

/// Each conditional branch is taken exactly when its flag is as named: BCC
/// on carry clear, BCS on carry set, BNE on zero clear, BEQ on zero set,
/// BPL on negative clear, BMI on negative set, BVC on overflow clear, BVS
/// on overflow set. Not taken, the state stays.
pub proof fn lemma_branch_conditions(c: CpuView, mode: AddressingMode)
    ensures
        instruction_effect(c, Instruction::Bcc, mode) == (if c.status & 1 == 0 {
            branch(c, true)
        } else {
            Some(c)
        }),
        instruction_effect(c, Instruction::Bcs, mode) == (if c.status & 1 != 0 {
            branch(c, true)
        } else {
            Some(c)
        }),
        instruction_effect(c, Instruction::Bne, mode) == (if c.status & 0b10 == 0 {
            branch(c, true)
        } else {
            Some(c)
        }),
        instruction_effect(c, Instruction::Beq, mode) == (if c.status & 0b10 != 0 {
            branch(c, true)
        } else {
            Some(c)
        }),
        instruction_effect(c, Instruction::Bpl, mode) == (if c.status & 0x80 == 0 {
            branch(c, true)
        } else {
            Some(c)
        }),
        instruction_effect(c, Instruction::Bmi, mode) == (if c.status & 0x80 != 0 {
            branch(c, true)
        } else {
            Some(c)
        }),
        instruction_effect(c, Instruction::Bvc, mode) == (if c.status & 0x40 == 0 {
            branch(c, true)
        } else {
            Some(c)
        }),
        instruction_effect(c, Instruction::Bvs, mode) == (if c.status & 0x40 != 0 {
            branch(c, true)
        } else {
            Some(c)
        }),
{
    let s = c.status;
    assert((s & 1 == 1) == (s & 1 != 0) && (s & 2 == 2) == (s & 2 != 0)) by (bit_vector);
}

/// A taken branch reads the offset byte at the program counter and jumps to
/// the address after it plus the offset read as a signed byte (wrapping
/// within 64 KiB); only the bus read and the program counter change.
pub proof fn lemma_branch_target(c: CpuView)
    requires
        cpu_read(c, c.program_counter) is Some,
    ensures
        ({
            let (c1, d) = cpu_read(c, c.program_counter)->0;
            let offset: int = if d < 0x80 {
                d as int
            } else {
                d - 256
            };
            branch(c, true) == Some(
                CpuView {
                    program_counter: ((c.program_counter + 1 + offset) % 0x10000) as u16,
                    ..c1
                },
            )
        }),
{
}

/// PHA and PHP store A or the status, with bits 4 and 5 set, at $0100 + S
/// and move S down by one; PLA and PLP move S up by one and load A or the
/// status from $0100 + S (PLA reporting it in Z and N, PLP clearing bit 4
/// and setting bit 5). Nothing else changes.
pub proof fn lemma_stack_instructions(c: CpuView, mode: AddressingMode)
    requires
        c.bus.cpu_vram.len() == 2048,
    ensures
        ({
            let sp = c.stack_pointer;
            let up = (sp + 1) % 256;
            let top = c.bus.cpu_vram[0x100 + up];
            let pha = instruction_effect(c, Instruction::Pha, mode)->0;
            let php = instruction_effect(c, Instruction::Php, mode)->0;
            let pla = instruction_effect(c, Instruction::Pla, mode)->0;
            let plp = instruction_effect(c, Instruction::Plp, mode)->0;
            &&& pha.bus.cpu_vram == c.bus.cpu_vram.update(0x100 + sp, c.register_a | 0x30)
            &&& pha.stack_pointer == (sp + 255) % 256 && pha.status == c.status
            &&& pha.register_a == c.register_a
            &&& php.bus.cpu_vram == c.bus.cpu_vram.update(0x100 + sp, c.status | 0x30)
            &&& php.stack_pointer == (sp + 255) % 256 && php.status == c.status
            &&& pla.stack_pointer == up && pla.register_a == top
            &&& reports(c.status, pla.status, top) && pla.bus == c.bus
            &&& plp.stack_pointer == up && plp.status == (top & 0b1110_1111) | 0b0010_0000
            &&& plp.register_a == c.register_a && plp.bus == c.bus
        }),
{
    let sp = c.stack_pointer;
    lemma_ram_access(c.bus, (0x100 + sp) as u16);
    lemma_ram_access(c.bus, (0x100 + add8(sp, 1)) as u16);
    lemma_zero_negative_bits(c.status, c.bus.cpu_vram[0x100 + add8(sp, 1)]);
}

/// The status after a shift or rotate that stores `v` and shifts out
/// `carry`: C is `carry`, Z and N report `v`, and bits 2 to 6 are as
/// `before`.
pub open spec fn reports_with_carry(before: u8, after: u8, v: u8, carry: bool) -> bool {
    &&& (after & 1 == 1) == carry
    &&& (after & 0b0000_0010 != 0) == (v == 0)
    &&& (after & 0b1000_0000 != 0) == (v >= 0x80)
    &&& after & 0b0111_1100 == before & 0b0111_1100
}

proof fn lemma_carry_then_report(s: u8, carry: bool, v: u8)
    ensures
        reports_with_carry(s, with_zero_negative(with_carry(s, carry), v), v, carry),
{
    let s1 = with_carry(s, carry);
    lemma_carry_bits(s, carry);
    lemma_zero_negative_bits(s1, v);
    let s2 = with_zero_negative(s1, v);
    assert((s2 & 1 == 1) == (s1 & 1 == 1) && s2 & 0b0111_1100 == s & 0b0111_1100) by (bit_vector)
        requires
            s2 & 0b0111_1101u8 == s1 & 0b0111_1101u8,
            s1 & 0b1111_1110u8 == s & 0b1111_1110u8,
    ;
}

/// The read-modify-write instructions on an operand in work RAM store back
/// the operand shifted left (ASL) or right (LSR), rotated through the carry
/// (ROL, ROR), plus one (INC) or minus one (DEC), all modulo 256. The
/// shifts and rotates put the bit shifted out into C; all report the
/// stored byte in Z and N; the registers stay.
pub proof fn lemma_read_modify_write_instructions(c: CpuView, mode: AddressingMode)
    requires
        operand_at(c, mode) is Some,
        (operand_at(c, mode)->0).1 < 0x800,
        c.bus.cpu_vram.len() == 2048,
    ensures
        ({
            let (c1, addr, m) = operand_at(c, mode)->0;
            let carry_in: int = (c.status % 2) as int;
            let ram = c.bus.cpu_vram;
            let asl = instruction_effect(c, Instruction::Asl, mode);
            let lsr = instruction_effect(c, Instruction::Lsr, mode);
            let rol = instruction_effect(c, Instruction::Rol, mode);
            let ror = instruction_effect(c, Instruction::Ror, mode);
            let inc = instruction_effect(c, Instruction::Inc, mode);
            let dec = instruction_effect(c, Instruction::Dec, mode);
            &&& asl is Some && lsr is Some && rol is Some && ror is Some && inc is Some
                && dec is Some
            &&& (asl->0).bus.cpu_vram == ram.update(addr as int, ((m * 2) % 256) as u8)
            &&& reports_with_carry(c.status, (asl->0).status, ((m * 2) % 256) as u8, m >= 0x80)
            &&& (lsr->0).bus.cpu_vram == ram.update(addr as int, m / 2)
            &&& reports_with_carry(c.status, (lsr->0).status, m / 2, m % 2 == 1)
            &&& (rol->0).bus.cpu_vram == ram.update(addr as int, ((m * 2) % 256 + carry_in) as u8)
            &&& reports_with_carry(
                c.status,
                (rol->0).status,
                ((m * 2) % 256 + carry_in) as u8,
                m >= 0x80,
            )
            &&& (ror->0).bus.cpu_vram == ram.update(addr as int, (m / 2 + 128 * carry_in) as u8)
            &&& reports_with_carry(
                c.status,
                (ror->0).status,
                (m / 2 + 128 * carry_in) as u8,
                m % 2 == 1,
            )
            &&& (inc->0).bus.cpu_vram == ram.update(addr as int, ((m + 1) % 256) as u8)
            &&& reports(c.status, (inc->0).status, ((m + 1) % 256) as u8)
            &&& (dec->0).bus.cpu_vram == ram.update(addr as int, ((m + 255) % 256) as u8)
            &&& reports(c.status, (dec->0).status, ((m + 255) % 256) as u8)
            &&& (asl->0).register_a == c.register_a && same_but_a_status(c, asl->0)
            &&& (lsr->0).register_a == c.register_a && same_but_a_status(c, lsr->0)
            &&& (rol->0).register_a == c.register_a && same_but_a_status(c, rol->0)
            &&& (ror->0).register_a == c.register_a && same_but_a_status(c, ror->0)
            &&& (inc->0).register_a == c.register_a && same_but_a_status(c, inc->0)
            &&& (dec->0).register_a == c.register_a && same_but_a_status(c, dec->0)
        }),
{
    lemma_all_reads_keep_ram();
    let (c1, addr, m) = operand_at(c, mode)->0;
    assert(c1.bus.cpu_vram == c.bus.cpu_vram);
    lemma_ram_access(c1.bus, addr);
    lemma_operand_keeps_registers(c, mode);
    assert(c1.status == c.status);
    let carry_in = carry_of(c.status);
    lemma_carry_then_report(c.status, m >= 0x80, ((m * 2) % 256) as u8);
    lemma_carry_then_report(c.status, m % 2 == 1, m / 2);
    lemma_carry_then_report(c.status, m >= 0x80, ((m * 2) % 256 + carry_in) as u8);
    lemma_carry_then_report(c.status, m % 2 == 1, (m / 2 + carry_in * 128) as u8);
    lemma_zero_negative_bits(c.status, add8(m, 1));
    lemma_zero_negative_bits(c.status, sub8(m, 1));
}

/// STA stores A at the operand's address (shown here for work RAM);
/// registers and status stay.
pub proof fn lemma_store_accumulator(c: CpuView, mode: AddressingMode)
    requires
        operand_address(c, mode) is Some,
        (operand_address(c, mode)->0).1 < 0x800,
        c.bus.cpu_vram.len() == 2048,
    ensures
        instruction_effect(c, Instruction::Sta, mode) is Some,
        ({
            let after = instruction_effect(c, Instruction::Sta, mode)->0;
            &&& after.bus.cpu_vram == c.bus.cpu_vram.update(
                (operand_address(c, mode)->0).1 as int,
                c.register_a,
            )
            &&& after.register_a == c.register_a && after.status == c.status
            &&& same_but_a_status(c, after)
        }),
{
    lemma_all_reads_keep_ram();
    let (c1, addr) = operand_address(c, mode)->0;
    assert(c1.bus.cpu_vram == c.bus.cpu_vram);
    lemma_ram_access(c1.bus, addr);
    lemma_operand_address_keeps_registers(c, mode);
}

/// Locating an operand changes only the bus.
pub proof fn lemma_operand_address_keeps_registers(c: CpuView, mode: AddressingMode)
    requires
        operand_address(c, mode) is Some,
    ensures
        ({
            let c1 = (operand_address(c, mode)->0).0;
            &&& c1.register_a == c.register_a
            &&& c1.register_x == c.register_x
            &&& c1.register_y == c.register_y
            &&& c1.status == c.status
            &&& c1.stack_pointer == c.stack_pointer
            &&& c1.program_counter == c.program_counter
        }),
{
}

/// BIT, as this CPU carries it out, sets bit 0 of A exactly when A AND the
/// operand is zero and leaves the other bits of A and the status as they
/// were.
pub proof fn lemma_bit_instruction(c: CpuView, mode: AddressingMode)
    requires
        operand(c, mode) is Some,
    ensures
        instruction_effect(c, Instruction::Bit, mode) is Some,
        ({
            let m = operand_value(c, mode);
            let after = instruction_effect(c, Instruction::Bit, mode)->0;
            &&& (after.register_a & 1 == 1) == (c.register_a & m == 0)
            &&& after.register_a & 0xfe == c.register_a & 0xfe
            &&& after.status == c.status
            &&& same_but_a_status(c, after)
        }),
{
    lemma_operand_keeps_registers(c, mode);
    let a = c.register_a;
    let m = operand_value(c, mode);
    let r = bit_test(a, m);
    let x = a & m;
    let a1 = if x == 0 { a | 1 } else { a & 0xfe };
    let a2 = if x & 0x40 == 0x40 { a1 | 0x40 } else { a1 };
    assert((r & 1 == 1) == (x == 0) && r & 0xfe == a & 0xfe) by (bit_vector)
        requires
            x == a & m,
            a1 == (if x == 0 { a | 1u8 } else { a & 0xfeu8 }),
            a2 == (if x & 0x40u8 == 0x40u8 { a1 | 0x40u8 } else { a1 }),
            r == (if x & 0x80u8 == 0x80u8 { a2 | 0x80u8 } else { a2 }),
    ;
}

/// RTI, as this CPU carries it out, pulls only the status: S moves up by
/// one and the status becomes the byte at $0100 + S with bit 5 cleared and
/// bit 4 set.
pub proof fn lemma_return_from_interrupt(c: CpuView, mode: AddressingMode)
    requires
        c.bus.cpu_vram.len() == 2048,
    ensures
        ({
            let up = (c.stack_pointer + 1) % 256;
            let after = instruction_effect(c, Instruction::Rti, mode)->0;
            &&& after.stack_pointer == up
            &&& after.status == (c.bus.cpu_vram[0x100 + up] & 0b1101_1111) | 0b0001_0000
            &&& after.register_a == c.register_a && after.program_counter == c.program_counter
        }),
{
    lemma_ram_access(c.bus, (0x100 + add8(c.stack_pointer, 1)) as u16);
}

/// JMP absolute loads the program counter with the little-endian word at
/// the program counter (shown here for a program in work RAM).
pub proof fn lemma_jump_absolute(c: CpuView, mode: AddressingMode)
    requires
        c.program_counter + 1 < 0x800,
        c.bus.cpu_vram.len() == 2048,
    ensures
        instruction_effect(c, Instruction::JmpAbsolute, mode) is Some,
        (instruction_effect(c, Instruction::JmpAbsolute, mode)->0).program_counter == c.bus.cpu_vram[c.program_counter
            + 1] * 256 + c.bus.cpu_vram[c.program_counter as int],
{
    let pc = c.program_counter;
    lemma_ram_access(c.bus, pc);
    lemma_ram_access(c.bus, (pc + 1) as u16);
}

/// When an instruction other than BRK leaves the program counter where the
/// opcode fetch put it, the step moves the counter past the whole
/// instruction: by its length from the opcode's address.
pub proof fn lemma_step_moves_past_instruction(c: CpuView)
    requires
        cpu_read(c, c.program_counter) is Some,
        c.program_counter < 0xffff,
        opcode_for((cpu_read(c, c.program_counter)->0).1) is Some,
    ensures
        ({
            let (c1, code) = cpu_read(c, c.program_counter)->0;
            let op = opcode_for(code)->0;
            let c2 = CpuView { program_counter: (c.program_counter + 1) as u16, ..c1 };
            let e = instruction_effect(c2, op.instruction, op.mode);
            op.instruction != Instruction::Brk && e is Some && (e->0).program_counter
                == c2.program_counter && c.program_counter + op.len <= 0xffff ==> step_transition(c)
                == Transition::Next(
                CpuView { program_counter: (c.program_counter + op.len) as u16, ..e->0 },
            )
        }),
{
    reveal(step_transition);
}

} // verus!
