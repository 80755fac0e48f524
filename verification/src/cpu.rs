//! The 6502 CPU: registers, addressing modes, the instruction set, and the
//! fetch-decode-execute loop.
use vstd::prelude::*;

use crate::bus::{
    bus_can_read, bus_can_read_u16, bus_can_write, bus_can_write_u16, bus_read, bus_read_u16,
    bus_write, bus_write_u16, lemma_ram_access, Bus,
};
use crate::opcodes::{lemma_opcode_lengths, lookup, Instruction, OpCode};
use crate::semantics::{
    add16, add8, add_to_a, branch, carry_of, compare, completes, completes_with, cpu_read,
    cpu_read_pair, cpu_read_u16, cpu_write, instruction_effect, jump_indirect, operand, operand_address,
    operand_at, operand_value, pop, pop_u16, push, push_u16, set_a, set_x, set_y, sub8, with_carry,
    with_zero_negative, yields, CpuView, lemma_zero_negative_bits, Execution, Transition, step_transition, run_steps,
    reset_state, with_program, ram_with_program, started, lemma_program_keeps_rom, STEP_LIMIT,
};

verus! {

/// How an instruction locates its operand.
#[derive(Clone, Copy, Debug, PartialEq, Eq, Structural)]
#[allow(non_camel_case_types)]
pub enum AddressingMode {
    Immediate,
    ZeroPage,
    ZeroPage_X,
    ZeroPage_Y,
    Absolute,
    Absolute_X,
    Absolute_Y,
    Indirect_X,
    Indirect_Y,
    NoneAddressing,
}

/// Byte-addressable memory as the CPU sees it. A read may change the
/// memory (the PPU data port advances on every access), and an access the
/// hardware does not serve is excluded by the `readable`/`writable`
/// predicates.
pub trait Mem {
    /// Whether a read of `addr` is served.
    spec fn readable(&self, addr: u16) -> bool;

    /// Whether a write to `addr` is served.
    spec fn writable(&self, addr: u16) -> bool;

    /// Whether a little-endian word can be read at `pos`.
    spec fn readable_u16(&self, pos: u16) -> bool;

    /// Whether `data` can be written as a little-endian word at `pos`.
    spec fn writable_u16(&self, pos: u16, data: u16) -> bool;

    /// Reads the byte at `addr`.
    fn mem_read(&mut self, addr: u16) -> (data: u8)
        requires
            old(self).readable(addr),
    ;

    /// Writes `data` to `addr`.
    fn mem_write(&mut self, addr: u16, data: u8)
        requires
            old(self).writable(addr),
    ;

    /// Reads the little-endian word at `pos`: low byte, then high byte.
    fn mem_read_u16(&mut self, pos: u16) -> (data: u16)
        requires
            old(self).readable_u16(pos),
    ;

    /// Writes `data` as a little-endian word at `pos`: low byte, then high
    /// byte.
    fn mem_write_u16(&mut self, pos: u16, data: u16)
        requires
            old(self).writable_u16(pos, data),
    ;
}

/// A little-endian word assembled from its two bytes.
pub proof fn lemma_word(hi: u8, lo: u8)
    ensures
        ((hi as u16) << 8u16) | (lo as u16) == hi * 256 + lo,
{
    assert(((hi as u16) << 8u16) | (lo as u16) == hi * 256 + lo) by (bit_vector);
}

/// A word split into its two bytes.
pub proof fn lemma_split(data: u16)
    ensures
        (data & 0xffu16) as u8 == data % 256,
        (data >> 8u16) as u8 == data / 256,
{
    assert((data & 0xffu16) as u8 == data % 256) by (bit_vector);
    assert((data >> 8u16) as u8 == data / 256) by (bit_vector);
}


const STACK: u16 = 0x0100;

const STACK_RESET: u8 = 0xfd;

/// The 6502 core: its registers and the bus it reads and writes through.
pub struct CPU {
    pub register_a: u8,
    pub register_x: u8,
    pub register_y: u8,
    /// # Status Register (P) http://wiki.nesdev.com/w/index.php/Status_flags
    ///  7 6 5 4 3 2 1 0
    ///  N V _ B D I Z C
    ///  | |   | | | | +--- Carry Flag
    ///  | |   | | | +----- Zero Flag
    ///  | |   | | +------- Interrupt Disable
    ///  | |   | +--------- Decimal Mode (not used on NES)
    ///  | |   +----------- Break Command
    ///  | +--------------- Overflow Flag
    ///  +----------------- Negative Flag
    pub status: u8,
    pub program_counter: u16,
    pub stack_pointer: u8,
    pub bus: Bus,
}

impl View for CPU {
    type V = CpuView;

    open spec fn view(&self) -> CpuView {
        CpuView {
            register_a: self.register_a,
            register_x: self.register_x,
            register_y: self.register_y,
            status: self.status,
            program_counter: self.program_counter,
            stack_pointer: self.stack_pointer,
            bus: self.bus@,
        }
    }
}

impl Mem for CPU {
    open spec fn readable(&self, addr: u16) -> bool {
        bus_can_read(self.bus@, addr)
    }

    open spec fn writable(&self, addr: u16) -> bool {
        bus_can_write(self.bus@, addr)
    }

    open spec fn readable_u16(&self, pos: u16) -> bool {
        bus_can_read_u16(self.bus@, pos)
    }

    open spec fn writable_u16(&self, pos: u16, data: u16) -> bool {
        bus_can_write_u16(self.bus@, pos, data)
    }

    fn mem_read(&mut self, addr: u16) -> (data: u8)
        ensures
            final(self)@ == (CpuView { bus: bus_read(old(self).bus@, addr).0, ..old(self)@ }),
            data == bus_read(old(self).bus@, addr).1,
    {
        self.bus.mem_read(addr)
    }

    fn mem_read_u16(&mut self, pos: u16) -> (data: u16)
        ensures
            final(self)@ == (CpuView { bus: bus_read_u16(old(self).bus@, pos).0, ..old(self)@ }),
            data == bus_read_u16(old(self).bus@, pos).1,
    {
        self.bus.mem_read_u16(pos)
    }

    fn mem_write(&mut self, addr: u16, data: u8)
        ensures
            final(self)@ == (CpuView { bus: bus_write(old(self).bus@, addr, data), ..old(self)@ }),
    {
        self.bus.mem_write(addr, data);
    }

    fn mem_write_u16(&mut self, pos: u16, data: u16)
        ensures
            final(self)@ == (CpuView { bus: bus_write_u16(old(self).bus@, pos, data), ..old(self)@ }),
    {
        self.bus.mem_write_u16(pos, data);
    }
}

/// Facts about the bit operations the instructions use on a byte.
proof fn lemma_byte_bits(d: u8)
    ensures
        d & 1u8 == d % 2,
        d >> 1u8 == d / 2,
        (d >> 7u8 == 1) == (d >= 0x80),
        d << 1u8 == (d * 2) % 256,
        (d & 0x80u8 != 0) == (d >= 0x80),
{
    assert(d & 1u8 == d % 2) by (bit_vector);
    assert(d >> 1u8 == d / 2) by (bit_vector);
    assert((d >> 7u8 == 1) == (d >= 0x80)) by (bit_vector);
    assert(d << 1u8 == (d * 2) % 256) by (bit_vector);
    assert((d & 0x80u8 != 0) == (d >= 0x80)) by (bit_vector);
}

/// The wrapping byte and word arithmetic of std, in terms of `%`.
proof fn lemma_wrapping(a: u8, b: u8, x: u16, y: u16)
    ensures
        vstd::wrapping::u8_specs::wrapping_add(a, b) == add8(a, b),
        vstd::wrapping::u8_specs::wrapping_sub(a, b) == sub8(a, b),
        vstd::wrapping::u16_specs::wrapping_add(x, y) == add16(x, y),
{
}

impl CPU {
    /// A CPU on `bus` in its power-on state: registers cleared, status
    /// $24, stack pointer $FF, program counter 0.
    pub fn new(bus: Bus) -> (cpu: Self)
        ensures
            cpu@ == (CpuView {
                register_a: 0,
                register_x: 0,
                register_y: 0,
                status: 0b100100,
                program_counter: 0,
                stack_pointer: 0xff,
                bus: bus@,
            }),
    {
        CPU {
            register_a: 0,
            status: 0b100100,
            program_counter: 0,
            register_x: 0,
            register_y: 0,
            stack_pointer: 0xff,
            bus: bus,
        }
    }

    fn try_read(&mut self, addr: u16) -> (r: Option<u8>)
        ensures
            yields(cpu_read(old(self)@, addr), r, final(self)@),
    {
        if self.bus.is_readable(addr) {
            Some(self.mem_read(addr))
        } else {
            None
        }
    }

    fn try_read_u16(&mut self, pos: u16) -> (r: Option<u16>)
        ensures
            yields(cpu_read_u16(old(self)@, pos), r, final(self)@),
    {
        if pos == 0xffff || !self.bus.is_readable(pos) {
            return None;
        }
        let lo = self.mem_read(pos);
        if !self.bus.is_readable(pos + 1) {
            return None;
        }
        let hi = self.mem_read(pos + 1);
        proof {
            lemma_word(hi, lo);
        }
        Some(((hi as u16) << 8) | (lo as u16))
    }

    fn try_write(&mut self, addr: u16, data: u8) -> (ok: bool)
        ensures
            completes(cpu_write(old(self)@, addr, data), ok, final(self)@),
    {
        if self.bus.is_writable(addr) {
            self.mem_write(addr, data);
            true
        } else {
            false
        }
    }

    fn set_carry_flag(&mut self)
        ensures
            final(self)@ == (CpuView { status: with_carry(old(self).status, true), ..old(self)@ }),
    {
        self.status = self.status | 0b0000_0001;
    }

    fn clear_carry_flag(&mut self)
        ensures
            final(self)@ == (CpuView { status: with_carry(old(self).status, false), ..old(self)@ }),
    {
        self.status = self.status & 0b1111_1110;
    }

    fn stack_push(&mut self, data: u8)
        ensures
            final(self)@ == push(old(self)@, data),
    {
        let addr = self.stack_pointer as u16 + STACK;
        proof {
            lemma_ram_access(self.bus@, addr);
        }
        self.mem_write(addr, data);
        self.stack_pointer = self.stack_pointer.wrapping_sub(1);
    }

    fn stack_push_u16(&mut self, data: u16)
        ensures
            final(self)@ == push_u16(old(self)@, data),
    {
        let hi = (data >> 8) as u8;
        let lo = (data & 0xff) as u8;
        proof {
            lemma_split(data);
        }
        self.stack_push(hi);
        self.stack_push(lo);
    }

    fn stack_pop(&mut self) -> (data: u8)
        ensures
            final(self)@ == pop(old(self)@).0,
            data == pop(old(self)@).1,
    {
        self.stack_pointer = self.stack_pointer.wrapping_add(1);
        proof {
            lemma_ram_access(self.bus@, (self.stack_pointer + STACK) as u16);
        }
        self.mem_read(self.stack_pointer as u16 + STACK)
    }

    fn stack_pop_u16(&mut self) -> (data: u16)
        ensures
            final(self)@ == pop_u16(old(self)@).0,
            data == pop_u16(old(self)@).1,
    {
        let lo = self.stack_pop();
        let hi = self.stack_pop();
        proof {
            lemma_word(hi, lo);
        }
        ((hi as u16) << 8) | (lo as u16)
    }

    /// The effective address of the current instruction's operand (see
    /// `operand_address`), or `None` when a read it needs is not served or
    /// the mode names no memory operand.
    pub fn get_operand_address(&mut self, mode: &AddressingMode) -> (addr: Option<u16>)
        ensures
            yields(operand_address(old(self)@, *mode), addr, final(self)@),
    {
        match mode {
            AddressingMode::Immediate => Some(self.program_counter),
            AddressingMode::ZeroPage => self.zero_page_address(0),
            AddressingMode::Absolute => self.try_read_u16(self.program_counter),
            AddressingMode::ZeroPage_X => self.zero_page_address(self.register_x),
            AddressingMode::ZeroPage_Y => self.zero_page_address(self.register_y),
            AddressingMode::Absolute_X => self.absolute_address(self.register_x),
            AddressingMode::Absolute_Y => self.absolute_address(self.register_y),
            AddressingMode::Indirect_X => self.indexed_indirect_address(),
            AddressingMode::Indirect_Y => self.indirect_indexed_address(),
            AddressingMode::NoneAddressing => None,
        }
    }

    fn zero_page_address(&mut self, index: u8) -> (addr: Option<u16>)
        ensures
            yields(
                match cpu_read(old(self)@, old(self).program_counter) {
                    Some((c1, p)) => Some((c1, add8(p, index) as u16)),
                    None => None,
                },
                addr,
                final(self)@,
            ),
    {
        match self.try_read(self.program_counter) {
            Some(pos) => Some(pos.wrapping_add(index) as u16),
            None => None,
        }
    }

    fn absolute_address(&mut self, index: u8) -> (addr: Option<u16>)
        ensures
            yields(
                match cpu_read_u16(old(self)@, old(self).program_counter) {
                    Some((c1, base)) => Some((c1, add16(base, index as u16))),
                    None => None,
                },
                addr,
                final(self)@,
            ),
    {
        match self.try_read_u16(self.program_counter) {
            Some(base) => Some(base.wrapping_add(index as u16)),
            None => None,
        }
    }

    fn read_pair(&mut self, lo_addr: u16, hi_addr: u16) -> (r: Option<u16>)
        ensures
            yields(cpu_read_pair(old(self)@, lo_addr, hi_addr), r, final(self)@),
    {
        let lo = match self.try_read(lo_addr) {
            Some(v) => v,
            None => return None,
        };
        let hi = match self.try_read(hi_addr) {
            Some(v) => v,
            None => return None,
        };
        proof {
            lemma_word(hi, lo);
        }
        Some((hi as u16) << 8 | (lo as u16))
    }

    fn indexed_indirect_address(&mut self) -> (addr: Option<u16>)
        ensures
            yields(
                operand_address(old(self)@, AddressingMode::Indirect_X),
                addr,
                final(self)@,
            ),
    {
        let base = match self.try_read(self.program_counter) {
            Some(b) => b,
            None => return None,
        };
        let ptr: u8 = base.wrapping_add(self.register_x);
        let next: u8 = ptr.wrapping_add(1);
        proof {
            lemma_wrapping(base, old(self).register_x, 0, 0);
            lemma_wrapping(ptr, 1, 0, 0);
        }
        self.read_pair(ptr as u16, next as u16)
    }

    fn indirect_indexed_address(&mut self) -> (addr: Option<u16>)
        ensures
            yields(
                operand_address(old(self)@, AddressingMode::Indirect_Y),
                addr,
                final(self)@,
            ),
    {
        let base = match self.try_read(self.program_counter) {
            Some(b) => b,
            None => return None,
        };
        let deref_base = match self.read_pair(base as u16, base.wrapping_add(1) as u16) {
            Some(w) => w,
            None => return None,
        };
        let deref = deref_base.wrapping_add(self.register_y as u16);
        Some(deref)
    }

    fn fetch_operand_at(&mut self, mode: &AddressingMode) -> (r: Option<(u16, u8)>)
        ensures
            match operand_at(old(self)@, *mode) {
                Some((c, addr, v)) => r == Some((addr, v)) && final(self)@ == c,
                None => r is None,
            },
    {
        let addr = match self.get_operand_address(mode) {
            Some(a) => a,
            None => return None,
        };
        match self.try_read(addr) {
            Some(v) => Some((addr, v)),
            None => None,
        }
    }

    fn fetch_operand(&mut self, mode: &AddressingMode) -> (r: Option<u8>)
        ensures
            yields(operand(old(self)@, *mode), r, final(self)@),
    {
        match self.fetch_operand_at(mode) {
            Some((_, v)) => Some(v),
            None => None,
        }
    }

    fn branch(&mut self, condition: bool) -> (ok: bool)
        ensures
            completes(branch(old(self)@, condition), ok, final(self)@),
    {
        if condition {
            let data = match self.try_read(self.program_counter) {
                Some(d) => d,
                None => return false,
            };
            // The offset byte is signed: widen it with its sign.
            let offset: u16 = if data < 0x80 {
                data as u16
            } else {
                0xff00 | (data as u16)
            };
            proof {
                assert(data >= 0x80 ==> 0xff00u16 | (data as u16) == 0xff00 + data) by (bit_vector);
            }
            let jump_addr = self.program_counter.wrapping_add(1).wrapping_add(offset);
            self.program_counter = jump_addr;
        }
        true
    }

    fn compare(&mut self, mode: &AddressingMode, compare_with: u8) -> (ok: bool)
        ensures
            completes(compare(old(self)@, *mode, compare_with), ok, final(self)@),
    {
        let data = match self.fetch_operand(mode) {
            Some(d) => d,
            None => return false,
        };
        if compare_with >= data {
            self.set_carry_flag();
        } else {
            self.clear_carry_flag();
        }
        self.update_zero_and_negative_flags(compare_with.wrapping_sub(data));
        true
    }

    fn lda(&mut self, mode: &AddressingMode) -> (ok: bool)
        ensures
            completes(instruction_effect(old(self)@, Instruction::Lda, *mode), ok, final(self)@),
    {
        let value = match self.fetch_operand(mode) {
            Some(v) => v,
            None => return false,
        };
        self.register_a = value;
        self.update_zero_and_negative_flags(self.register_a);
        true
    }

    fn ldx(&mut self, mode: &AddressingMode) -> (ok: bool)
        ensures
            completes(instruction_effect(old(self)@, Instruction::Ldx, *mode), ok, final(self)@),
    {
        let value = match self.fetch_operand(mode) {
            Some(v) => v,
            None => return false,
        };
        self.register_x = value;
        self.update_zero_and_negative_flags(self.register_x);
        true
    }

    fn ldy(&mut self, mode: &AddressingMode) -> (ok: bool)
        ensures
            completes(instruction_effect(old(self)@, Instruction::Ldy, *mode), ok, final(self)@),
    {
        let value = match self.fetch_operand(mode) {
            Some(v) => v,
            None => return false,
        };
        self.register_y = value;
        self.update_zero_and_negative_flags(self.register_y);
        true
    }

    fn tax(&mut self)
        ensures
            final(self)@ == set_x(old(self)@, old(self).register_a),
    {
        self.register_x = self.register_a;
        self.update_zero_and_negative_flags(self.register_x);
    }

    fn tay(&mut self)
        ensures
            final(self)@ == set_y(old(self)@, old(self).register_a),
    {
        self.register_y = self.register_a;
        self.update_zero_and_negative_flags(self.register_y);
    }

    fn tsx(&mut self)
        ensures
            final(self)@ == set_x(old(self)@, old(self).stack_pointer),
    {
        self.register_x = self.stack_pointer;
        self.update_zero_and_negative_flags(self.register_x);
    }

    fn txa(&mut self)
        ensures
            final(self)@ == set_a(old(self)@, old(self).register_x),
    {
        self.register_a = self.register_x;
        self.update_zero_and_negative_flags(self.register_a);
    }

    fn txs(&mut self)
        ensures
            final(self)@ == (CpuView { stack_pointer: old(self).register_x, ..old(self)@ }),
    {
        self.stack_pointer = self.register_x;
    }

    fn tya(&mut self)
        ensures
            final(self)@ == set_a(old(self)@, old(self).register_y),
    {
        self.register_a = self.register_y;
        self.update_zero_and_negative_flags(self.register_a);
    }

    fn inx(&mut self)
        ensures
            final(self)@ == set_x(old(self)@, add8(old(self).register_x, 1)),
    {
        self.register_x = self.register_x.wrapping_add(1);
        self.update_zero_and_negative_flags(self.register_x);
    }

    fn iny(&mut self)
        ensures
            final(self)@ == set_y(old(self)@, add8(old(self).register_y, 1)),
    {
        self.register_y = self.register_y.wrapping_add(1);
        self.update_zero_and_negative_flags(self.register_y);
    }

    fn dex(&mut self)
        ensures
            final(self)@ == set_x(old(self)@, sub8(old(self).register_x, 1)),
    {
        self.register_x = self.register_x.wrapping_sub(1);
        self.update_zero_and_negative_flags(self.register_x);
    }

    fn dey(&mut self)
        ensures
            final(self)@ == set_y(old(self)@, sub8(old(self).register_y, 1)),
    {
        self.register_y = self.register_y.wrapping_sub(1);
        self.update_zero_and_negative_flags(self.register_y);
    }

    fn sta(&mut self, mode: &AddressingMode) -> (ok: bool)
        ensures
            completes(instruction_effect(old(self)@, Instruction::Sta, *mode), ok, final(self)@),
    {
        let addr = match self.get_operand_address(mode) {
            Some(a) => a,
            None => return false,
        };
        self.try_write(addr, self.register_a)
    }

    fn stx(&mut self, mode: &AddressingMode) -> (ok: bool)
        ensures
            completes(instruction_effect(old(self)@, Instruction::Stx, *mode), ok, final(self)@),
    {
        let data = match self.fetch_operand(mode) {
            Some(v) => v,
            None => return false,
        };
        self.register_x = data;
        true
    }

    fn sty(&mut self, mode: &AddressingMode) -> (ok: bool)
        ensures
            completes(instruction_effect(old(self)@, Instruction::Sty, *mode), ok, final(self)@),
    {
        let data = match self.fetch_operand(mode) {
            Some(v) => v,
            None => return false,
        };
        self.register_y = data;
        true
    }

    fn lsr_accumualtor(&mut self)
        ensures
            Some(final(self)@) == instruction_effect(
                old(self)@,
                Instruction::LsrAccumulator,
                AddressingMode::NoneAddressing,
            ),
    {
        let mut data = self.register_a;
        proof {
            lemma_byte_bits(data);
        }
        if data & 1 == 1 {
            self.set_carry_flag();
        } else {
            self.clear_carry_flag();
        }
        data = data >> 1;
        self.register_a = data;
        self.update_zero_and_negative_flags(data);
    }

    fn lsr(&mut self, mode: &AddressingMode) -> (r: Option<u8>)
        ensures
            completes_with(
                instruction_effect(old(self)@, Instruction::Lsr, *mode),
                r,
                operand_value(old(self)@, *mode) / 2,
                final(self)@,
            ),
    {
        let (addr, mut data) = match self.fetch_operand_at(mode) {
            Some(p) => p,
            None => return None,
        };
        proof {
            lemma_byte_bits(data);
        }
        if data & 1 == 1 {
            self.set_carry_flag();
        } else {
            self.clear_carry_flag();
        }
        data = data >> 1;
        if !self.try_write(addr, data) {
            return None;
        }
        self.update_zero_and_negative_flags(data);
        Some(data)
    }

    fn asl(&mut self, mode: &AddressingMode) -> (r: Option<u8>)
        ensures
            completes_with(
                instruction_effect(old(self)@, Instruction::Asl, *mode),
                r,
                ((operand_value(old(self)@, *mode) * 2) % 256) as u8,
                final(self)@,
            ),
    {
        let (addr, mut data) = match self.fetch_operand_at(mode) {
            Some(p) => p,
            None => return None,
        };
        proof {
            lemma_byte_bits(data);
        }
        if data >> 7 == 1 {
            self.set_carry_flag();
        } else {
            self.clear_carry_flag();
        }
        data = data << 1;
        if !self.try_write(addr, data) {
            return None;
        }
        self.update_zero_and_negative_flags(data);
        Some(data)
    }

    #[verifier::rlimit(40)]
    fn rol(&mut self, mode: &AddressingMode) -> (r: Option<u8>)
        ensures
            completes_with(
                instruction_effect(old(self)@, Instruction::Rol, *mode),
                r,
                ((operand_value(old(self)@, *mode) * 2) % 256 + carry_of(old(self).status)) as u8,
                final(self)@,
            ),
    {
        let (addr, mut data) = match self.fetch_operand_at(mode) {
            Some(p) => p,
            None => return None,
        };
        let carry = self.status & 0x1;
        proof {
            lemma_byte_bits(data);
            lemma_byte_bits(self.status);
            assert(data << 1u8 <= 254) by (bit_vector);
        }
        if data >> 7 == 1 {
            self.set_carry_flag();
        } else {
            self.clear_carry_flag();
        }
        data = (data << 1) + carry;
        if !self.try_write(addr, data) {
            return None;
        }
        self.update_zero_and_negative_flags(data);
        Some(data)
    }

    fn ror(&mut self, mode: &AddressingMode) -> (r: Option<u8>)
        ensures
            completes_with(
                instruction_effect(old(self)@, Instruction::Ror, *mode),
                r,
                (operand_value(old(self)@, *mode) / 2 + carry_of(old(self).status) * 128) as u8,
                final(self)@,
            ),
    {
        let (addr, mut data) = match self.fetch_operand_at(mode) {
            Some(p) => p,
            None => return None,
        };
        let carry = self.status & 0x1;
        proof {
            lemma_byte_bits(data);
            lemma_byte_bits(self.status);
            assert(carry <= 1 ==> (data >> 1u8) | (carry << 7u8) == data / 2 + carry * 128)
                by (bit_vector);
        }
        if data & 1 == 1 {
            self.set_carry_flag();
        } else {
            self.clear_carry_flag();
        }
        data = (data >> 1) | (carry << 7);
        if !self.try_write(addr, data) {
            return None;
        }
        self.update_zero_and_negative_flags(data);
        Some(data)
    }

    fn inc(&mut self, mode: &AddressingMode) -> (r: Option<u8>)
        ensures
            completes_with(
                instruction_effect(old(self)@, Instruction::Inc, *mode),
                r,
                add8(operand_value(old(self)@, *mode), 1),
                final(self)@,
            ),
    {
        let (addr, data) = match self.fetch_operand_at(mode) {
            Some(p) => p,
            None => return None,
        };
        proof {
            lemma_wrapping(data, 1, 0, 0);
        }
        let data = data.wrapping_add(1);
        if !self.try_write(addr, data) {
            return None;
        }
        self.update_zero_and_negative_flags(data);
        Some(data)
    }

    /// DEC; answers the operand as it was before the decrement.
    fn dec(&mut self, mode: &AddressingMode) -> (r: Option<u8>)
        ensures
            completes_with(
                instruction_effect(old(self)@, Instruction::Dec, *mode),
                r,
                operand_value(old(self)@, *mode),
                final(self)@,
            ),
    {
        let (addr, data) = match self.fetch_operand_at(mode) {
            Some(p) => p,
            None => return None,
        };
        let result = data.wrapping_sub(1);
        proof {
            lemma_wrapping(data, 1, 0, 0);
        }
        if !self.try_write(addr, result) {
            return None;
        }
        self.update_zero_and_negative_flags(result);
        Some(data)
    }

    fn ora(&mut self, mode: &AddressingMode) -> (ok: bool)
        ensures
            completes(instruction_effect(old(self)@, Instruction::Ora, *mode), ok, final(self)@),
    {
        let data = match self.fetch_operand(mode) {
            Some(v) => v,
            None => return false,
        };
        self.register_a = self.register_a | data;
        self.update_zero_and_negative_flags(self.register_a);
        true
    }

    fn and(&mut self, mode: &AddressingMode) -> (ok: bool)
        ensures
            completes(instruction_effect(old(self)@, Instruction::And, *mode), ok, final(self)@),
    {
        let data = match self.fetch_operand(mode) {
            Some(v) => v,
            None => return false,
        };
        self.register_a = self.register_a & data;
        self.update_zero_and_negative_flags(self.register_a);
        true
    }

    fn eor(&mut self, mode: &AddressingMode) -> (ok: bool)
        ensures
            completes(instruction_effect(old(self)@, Instruction::Eor, *mode), ok, final(self)@),
    {
        let data = match self.fetch_operand(mode) {
            Some(v) => v,
            None => return false,
        };
        self.register_a ^= data;
        self.update_zero_and_negative_flags(self.register_a);
        true
    }

    fn bit(&mut self, mode: &AddressingMode) -> (ok: bool)
        ensures
            completes(instruction_effect(old(self)@, Instruction::Bit, *mode), ok, final(self)@),
    {
        let data = match self.fetch_operand(mode) {
            Some(v) => v,
            None => return false,
        };
        let result = self.register_a & data;
        if result == 0 {
            self.register_a = self.register_a | 0b0000_0001;
        } else {
            self.register_a = self.register_a & 0b1111_1110;
        }
        if result & 0b0100_0000 == 0b0100_0000 {
            self.register_a = self.register_a | 0b0100_0000;
        }
        if result & 0b1000_0000 == 0b1000_0000 {
            self.register_a = self.register_a | 0b1000_0000;
        }
        true
    }

    /// Loads A from a 16-bit sum, for ADC and SBC (see `add_to_a`).
    fn add_to_register_a(&mut self, data: u16)
        ensures
            final(self)@ == add_to_a(old(self)@, data),
    {
        if data > 0xff {
            self.set_carry_flag();
        } else {
            self.clear_carry_flag();
        }
        let result = data as u8;
        proof {
            assert(data as u8 == data % 256) by (bit_vector);
        }
        if (data ^ result as u16) & (result ^ self.register_a) as u16 & 0x80 != 0 {
            self.status = self.status | 0b0100_0000;
        } else {
            self.status = self.status & 0b1011_1111;
        }
        self.register_a = result;
        self.update_zero_and_negative_flags(self.register_a);
    }

    fn adc(&mut self, mode: &AddressingMode) -> (ok: bool)
        ensures
            completes(instruction_effect(old(self)@, Instruction::Adc, *mode), ok, final(self)@),
    {
        let m = match self.fetch_operand(mode) {
            Some(v) => v,
            None => return false,
        };
        let mut data = m as u16;
        let carry = self.status & 0b0000_0001;
        proof {
            lemma_byte_bits(self.status);
        }
        data = data + carry as u16 + self.register_a as u16;
        self.add_to_register_a(data);
        true
    }

    /// SBC. The 16-bit sum of A, the carry and the sign-extended ones'
    /// complement of the operand can exceed $FFFF; the instruction fails
    /// then.
    fn sbc(&mut self, mode: &AddressingMode) -> (ok: bool)
        ensures
            completes(instruction_effect(old(self)@, Instruction::Sbc, *mode), ok, final(self)@),
    {
        let m = match self.fetch_operand(mode) {
            Some(v) => v,
            None => return false,
        };
        // The operand as a signed byte, negated, minus one (its ones'
        // complement), widened with its sign.
        let data: u16 = if m < 0x80 {
            0xffff - m as u16
        } else {
            0xff - m as u16
        };
        let carry = self.status & 0b0000_0001;
        proof {
            lemma_byte_bits(self.status);
        }
        if data as u32 + carry as u32 + self.register_a as u32 > 0xffff {
            return false;
        }
        let data = data + carry as u16 + self.register_a as u16;
        self.add_to_register_a(data);
        true
    }

    fn pha(&mut self)
        ensures
            final(self)@ == push(old(self)@, old(self).register_a | 0b0011_0000),
    {
        let mut data = self.register_a;
        data = data | 0b0011_0000;
        self.stack_push(data);
    }

    fn php(&mut self)
        ensures
            final(self)@ == push(old(self)@, old(self).status | 0b0011_0000),
    {
        let mut flags = self.status;
        flags = flags | 0b0011_0000;
        self.stack_push(flags);
    }

    fn pla(&mut self)
        ensures
            final(self)@ == set_a(pop(old(self)@).0, pop(old(self)@).1),
    {
        self.register_a = self.stack_pop();
        self.update_zero_and_negative_flags(self.register_a);
    }

    fn plp(&mut self)
        ensures
            final(self)@ == (CpuView {
                status: (pop(old(self)@).1 & 0b1110_1111) | 0b0010_0000,
                ..pop(old(self)@).0
            }),
    {
        self.status = self.stack_pop();
        self.status = self.status & 0b1110_1111;
        self.status = self.status | 0b0010_0000;
    }

    fn rti(&mut self)
        ensures
            final(self)@ == (CpuView {
                status: (pop(old(self)@).1 & 0b1101_1111) | 0b0001_0000,
                ..pop(old(self)@).0
            }),
    {
        self.status = self.stack_pop();
        self.status &= 0b1101_1111;
        self.status |= 0b0001_0000;
    }

    fn bcc(&mut self) -> (ok: bool)
        ensures
            completes(branch(old(self)@, old(self).status & 0b0000_0001 == 0), ok, final(self)@),
    {
        self.branch(self.status & 0b0000_0001 == 0)
    }

    fn bcs(&mut self) -> (ok: bool)
        ensures
            completes(branch(old(self)@, old(self).status & 0b0000_0001 == 1), ok, final(self)@),
    {
        self.branch(self.status & 0b0000_0001 == 1)
    }

    fn beq(&mut self) -> (ok: bool)
        ensures
            completes(branch(old(self)@, old(self).status & 0b0000_0010 == 2), ok, final(self)@),
    {
        self.branch(self.status & 0b0000_0010 == 2)
    }

    fn bmi(&mut self) -> (ok: bool)
        ensures
            completes(branch(old(self)@, old(self).status & 0b1000_0000 != 0), ok, final(self)@),
    {
        self.branch(self.status & 0b1000_0000 != 0)
    }

    fn bne(&mut self) -> (ok: bool)
        ensures
            completes(branch(old(self)@, old(self).status & 0b0000_0010 == 0), ok, final(self)@),
    {
        self.branch(self.status & 0b0000_0010 == 0)
    }

    fn bpl(&mut self) -> (ok: bool)
        ensures
            completes(branch(old(self)@, old(self).status & 0b1000_0000 == 0), ok, final(self)@),
    {
        self.branch(self.status & 0b1000_0000 == 0)
    }

    fn bvc(&mut self) -> (ok: bool)
        ensures
            completes(branch(old(self)@, old(self).status & 0b0100_0000 == 0), ok, final(self)@),
    {
        self.branch(self.status & 0b0100_0000 == 0)
    }

    fn bvs(&mut self) -> (ok: bool)
        ensures
            completes(branch(old(self)@, old(self).status & 0b0100_0000 != 0), ok, final(self)@),
    {
        self.branch(self.status & 0b0100_0000 != 0)
    }

    fn cld(&mut self)
        ensures
            final(self)@ == (CpuView { register_a: old(self).register_a & 0b1111_0111, ..old(self)@ }),
    {
        self.register_a = self.register_a & 0b1111_0111;
    }

    fn cli(&mut self)
        ensures
            final(self)@ == (CpuView { register_a: old(self).register_a & 0b1111_1011, ..old(self)@ }),
    {
        self.register_a = self.register_a & 0b1111_1011;
    }

    fn clv(&mut self)
        ensures
            final(self)@ == (CpuView { register_a: old(self).register_a & 0b1011_1111, ..old(self)@ }),
    {
        self.register_a = self.register_a & 0b1011_1111;
    }

    fn sed(&mut self)
        ensures
            final(self)@ == (CpuView { status: old(self).status | 0b0000_1000, ..old(self)@ }),
    {
        self.status |= 0b0000_1000;
    }

    fn sei(&mut self)
        ensures
            final(self)@ == (CpuView { status: old(self).status | 0b0000_0100, ..old(self)@ }),
    {
        self.status |= 0b0000_0100;
    }

    fn cmp(&mut self, mode: &AddressingMode) -> (ok: bool)
        ensures
            completes(compare(old(self)@, *mode, old(self).register_a), ok, final(self)@),
    {
        self.compare(mode, self.register_a)
    }

    fn cpx(&mut self, mode: &AddressingMode) -> (ok: bool)
        ensures
            completes(compare(old(self)@, *mode, old(self).register_x), ok, final(self)@),
    {
        self.compare(mode, self.register_x)
    }

    fn cpy(&mut self, mode: &AddressingMode) -> (ok: bool)
        ensures
            completes(compare(old(self)@, *mode, old(self).register_y), ok, final(self)@),
    {
        self.compare(mode, self.register_y)
    }

    fn jmp_absolute(&mut self) -> (ok: bool)
        ensures
            completes(
                instruction_effect(
                    old(self)@,
                    Instruction::JmpAbsolute,
                    AddressingMode::NoneAddressing,
                ),
                ok,
                final(self)@,
            ),
    {
        let data = match self.try_read_u16(self.program_counter) {
            Some(d) => d,
            None => return false,
        };
        self.program_counter = data;
        true
    }

    fn jmp_indirect(&mut self) -> (ok: bool)
        ensures
            completes(jump_indirect(old(self)@), ok, final(self)@),
    {
        let addr = match self.try_read_u16(self.program_counter) {
            Some(a) => a,
            None => return false,
        };
        proof {
            assert((addr & 0x00FFu16 == 0x00FF) == (addr % 256 == 0xff)) by (bit_vector);
            assert(addr % 256 == 0xff ==> addr & 0xFF00u16 == addr - 0xff) by (bit_vector);
        }
        let indirect_ref = if addr & 0x00FF == 0x00FF {
            // The 6502 does not carry into the high byte of the pointer.
            match self.read_pair(addr, addr & 0xFF00) {
                Some(v) => v,
                None => return false,
            }
        } else {
            match self.try_read_u16(addr) {
                Some(v) => v,
                None => return false,
            }
        };
        self.program_counter = indirect_ref;
        true
    }

    fn jsr(&mut self) -> (ok: bool)
        ensures
            completes(
                instruction_effect(old(self)@, Instruction::Jsr, AddressingMode::NoneAddressing),
                ok,
                final(self)@,
            ),
    {
        if self.program_counter > 0xfffd {
            return false;
        }
        self.stack_push_u16(self.program_counter as u16 + 2 - 1);
        let target_addr = match self.try_read_u16(self.program_counter) {
            Some(t) => t,
            None => return false,
        };
        self.program_counter = target_addr;
        true
    }

    fn rts(&mut self) -> (ok: bool)
        ensures
            completes(
                instruction_effect(old(self)@, Instruction::Rts, AddressingMode::NoneAddressing),
                ok,
                final(self)@,
            ),
    {
        let ret = self.stack_pop_u16();
        if ret == 0xffff {
            return false;
        }
        self.program_counter = ret + 1;
        true
    }

    /// Carries out one decoded instruction; `false` when it fails (see
    /// `instruction_effect`).
    fn execute(&mut self, opcode: &OpCode) -> (ok: bool)
        ensures
            completes(
                instruction_effect(old(self)@, opcode.instruction, opcode.mode),
                ok,
                final(self)@,
            ),
    {
        match opcode.instruction {
            Instruction::Lda | Instruction::Ldx | Instruction::Ldy | Instruction::Stx | Instruction::Sty | Instruction::Sta | Instruction::Adc | Instruction::Sbc | Instruction::And | Instruction::Ora | Instruction::Eor | Instruction::Bit | Instruction::Cmp | Instruction::Cpx | Instruction::Cpy => self.execute_operand(opcode),
            Instruction::Asl | Instruction::Lsr | Instruction::Rol | Instruction::Ror | Instruction::Inc | Instruction::Dec => self.execute_read_modify_write(opcode),
            Instruction::Bcc | Instruction::Bcs | Instruction::Beq | Instruction::Bne | Instruction::Bmi | Instruction::Bpl | Instruction::Bvc | Instruction::Bvs | Instruction::JmpAbsolute | Instruction::JmpIndirect | Instruction::Jsr | Instruction::Rts => self.execute_control(opcode),
            Instruction::Tax | Instruction::Tay | Instruction::Tsx | Instruction::Txa | Instruction::Txs | Instruction::Tya | Instruction::Inx | Instruction::Iny | Instruction::Dex | Instruction::Dey | Instruction::LsrAccumulator => self.execute_register(opcode),
            Instruction::Pha | Instruction::Php | Instruction::Pla | Instruction::Plp | Instruction::Rti | Instruction::Cld | Instruction::Cli | Instruction::Clv | Instruction::Sed | Instruction::Sei | Instruction::Clc | Instruction::Sec | Instruction::Nop | Instruction::Brk => self.execute_status_stack(opcode),
        }
    }

    /// Carries out an instruction that reads or stores its operand.
    fn execute_operand(&mut self, opcode: &OpCode) -> (ok: bool)
        requires
            is_operand(opcode.instruction),
        ensures
            completes(
                instruction_effect(old(self)@, opcode.instruction, opcode.mode),
                ok,
                final(self)@,
            ),
    {
        let mode = &opcode.mode;
        match opcode.instruction {
            Instruction::Lda => self.lda(mode),
            Instruction::Ldx => self.ldx(mode),
            Instruction::Ldy => self.ldy(mode),
            Instruction::Stx => self.stx(mode),
            Instruction::Sty => self.sty(mode),
            Instruction::Sta => self.sta(mode),
            Instruction::Adc => self.adc(mode),
            Instruction::Sbc => self.sbc(mode),
            Instruction::And => self.and(mode),
            Instruction::Ora => self.ora(mode),
            Instruction::Eor => self.eor(mode),
            Instruction::Bit => self.bit(mode),
            Instruction::Cmp => self.cmp(mode),
            Instruction::Cpx => self.cpx(mode),
            Instruction::Cpy => self.cpy(mode),
            _ => false,
        }
    }

    /// Carries out a read-modify-write instruction.
    fn execute_read_modify_write(&mut self, opcode: &OpCode) -> (ok: bool)
        requires
            is_read_modify_write(opcode.instruction),
        ensures
            completes(
                instruction_effect(old(self)@, opcode.instruction, opcode.mode),
                ok,
                final(self)@,
            ),
    {
        let mode = &opcode.mode;
        match opcode.instruction {
            Instruction::Asl => self.asl(mode).is_some(),
            Instruction::Lsr => self.lsr(mode).is_some(),
            Instruction::Rol => self.rol(mode).is_some(),
            Instruction::Ror => self.ror(mode).is_some(),
            Instruction::Inc => self.inc(mode).is_some(),
            Instruction::Dec => self.dec(mode).is_some(),
            _ => false,
        }
    }

    /// Carries out a branch, jump or return.
    fn execute_control(&mut self, opcode: &OpCode) -> (ok: bool)
        requires
            is_control(opcode.instruction),
        ensures
            completes(
                instruction_effect(old(self)@, opcode.instruction, opcode.mode),
                ok,
                final(self)@,
            ),
    {
        let mode = &opcode.mode;
        match opcode.instruction {
            Instruction::Bcc => self.bcc(),
            Instruction::Bcs => self.bcs(),
            Instruction::Beq => self.beq(),
            Instruction::Bne => self.bne(),
            Instruction::Bmi => self.bmi(),
            Instruction::Bpl => self.bpl(),
            Instruction::Bvc => self.bvc(),
            Instruction::Bvs => self.bvs(),
            Instruction::JmpAbsolute => self.jmp_absolute(),
            Instruction::JmpIndirect => self.jmp_indirect(),
            Instruction::Jsr => self.jsr(),
            Instruction::Rts => self.rts(),
            _ => false,
        }
    }

    /// Carries out an instruction on registers alone.
    fn execute_register(&mut self, opcode: &OpCode) -> (ok: bool)
        requires
            is_register(opcode.instruction),
        ensures
            completes(
                instruction_effect(old(self)@, opcode.instruction, opcode.mode),
                ok,
                final(self)@,
            ),
    {
        let mode = &opcode.mode;
        match opcode.instruction {
            Instruction::Tax => {
                self.tax();
                true
            },
            Instruction::Tay => {
                self.tay();
                true
            },
            Instruction::Tsx => {
                self.tsx();
                true
            },
            Instruction::Txa => {
                self.txa();
                true
            },
            Instruction::Txs => {
                self.txs();
                true
            },
            Instruction::Tya => {
                self.tya();
                true
            },
            Instruction::Inx => {
                self.inx();
                true
            },
            Instruction::Iny => {
                self.iny();
                true
            },
            Instruction::Dex => {
                self.dex();
                true
            },
            Instruction::Dey => {
                self.dey();
                true
            },
            Instruction::LsrAccumulator => {
                self.lsr_accumualtor();
                true
            },
            _ => false,
        }
    }

    /// Carries out a flag or stack instruction.
    fn execute_status_stack(&mut self, opcode: &OpCode) -> (ok: bool)
        requires
            is_status_stack(opcode.instruction),
        ensures
            completes(
                instruction_effect(old(self)@, opcode.instruction, opcode.mode),
                ok,
                final(self)@,
            ),
    {
        let mode = &opcode.mode;
        match opcode.instruction {
            Instruction::Pha => {
                self.pha();
                true
            },
            Instruction::Php => {
                self.php();
                true
            },
            Instruction::Pla => {
                self.pla();
                true
            },
            Instruction::Plp => {
                self.plp();
                true
            },
            Instruction::Rti => {
                self.rti();
                true
            },
            Instruction::Cld => {
                self.cld();
                true
            },
            Instruction::Cli => {
                self.cli();
                true
            },
            Instruction::Clv => {
                self.clv();
                true
            },
            Instruction::Sed => {
                self.sed();
                true
            },
            Instruction::Sei => {
                self.sei();
                true
            },
            Instruction::Clc => {
                self.clear_carry_flag();
                true
            },
            Instruction::Sec => {
                self.set_carry_flag();
                true
            },
            Instruction::Nop => true,
            Instruction::Brk => true,
            _ => false,
        }
    }

    /// One fetch-decode-execute step (see `step_transition`): `Running`
    /// when the instruction completed, `Halted` on BRK, `Faulted` when the
    /// step cannot be carried out.
    pub fn step(&mut self) -> (r: Execution)
        ensures
            match step_transition(old(self)@) {
                Transition::Next(c) => r == Execution::Running && final(self)@ == c,
                Transition::Halt(c) => r == Execution::Halted && final(self)@ == c,
                Transition::Fault => r == Execution::Faulted,
            },
    {
        proof {
            reveal(step_transition);
        }
        let code = match self.try_read(self.program_counter) {
            Some(c) => c,
            None => return Execution::Faulted,
        };
        if self.program_counter == 0xffff {
            return Execution::Faulted;
        }
        self.program_counter += 1;
        let program_counter_state = self.program_counter;
        let opcode = match lookup(code) {
            Some(op) => op,
            None => return Execution::Faulted,
        };
        proof {
            lemma_opcode_lengths(code);
        }
        if opcode.instruction == Instruction::Brk {
            return Execution::Halted;
        }
        if !self.execute(&opcode) {
            return Execution::Faulted;
        }
        if program_counter_state == self.program_counter {
            let skip = (opcode.len - 1) as u16;
            if self.program_counter > 0xffff - skip {
                return Execution::Faulted;
            }
            self.program_counter += skip;
        }
        Execution::Running
    }

    /// Runs from the current state until BRK or a fault, or until
    /// `STEP_LIMIT` instructions have executed.
    pub fn run(&mut self) -> (outcome: Execution)
        ensures
            outcome == run_steps(old(self)@, STEP_LIMIT as nat).1,
            outcome != Execution::Faulted ==> final(self)@ == run_steps(
                old(self)@,
                STEP_LIMIT as nat,
            ).0,
    {
        let ghost start = self@;
        let mut fuel: u64 = STEP_LIMIT;
        loop
            invariant
                start == old(self)@,
                run_steps(self@, fuel as nat) == run_steps(start, STEP_LIMIT as nat),
            decreases fuel,
        {
            if fuel == 0 {
                return Execution::Running;
            }
            let ghost before = self@;
            assert(run_steps(before, fuel as nat) == match step_transition(before) {
                Transition::Next(c1) => run_steps(c1, (fuel - 1) as nat),
                Transition::Halt(c1) => (c1, Execution::Halted),
                Transition::Fault => (before, Execution::Faulted),
            });
            let r = self.step();
            match r {
                Execution::Running => {},
                _ => return r,
            }
            fuel = fuel - 1;
        }
    }

    /// Registers to their power-on values, and the program counter loaded
    /// from the reset vector at $FFFC.
    pub fn reset(&mut self)
        requires
            bus_can_read_u16(old(self).bus@, 0xFFFC),
        ensures
            final(self)@ == reset_state(old(self)@),
    {
        self.register_a = 0;
        self.register_x = 0;
        self.register_y = 0;
        self.status = 0b100100;
        self.stack_pointer = STACK_RESET;
        self.program_counter = self.mem_read_u16(0xFFFC);
    }

    /// Copies `program` into work RAM from $0600 on.
    pub fn load(&mut self, program: Vec<u8>)
        requires
            program.len() <= 0x200,
        ensures
            final(self)@ == with_program(old(self)@, program@),
    {
        let n = program.len() as u16;
        let mut i: u16 = 0;
        while i < n
            invariant
                n == program.len(),
                n <= 0x200,
                i <= n,
                self@ == with_program(old(self)@, program@.take(i as int)),
            decreases n - i,
        {
            proof {
                self.bus.lemma_sizes();
                lemma_ram_access(self.bus@, (0x0600 + i) as u16);
            }
            self.mem_write(0x0600 + i, program[i as usize]);
            i = i + 1;
            proof {
                let ram = ram_with_program(old(self)@.bus.cpu_vram, program@.take(i as int));
                assert(self@.bus.cpu_vram =~= ram);
                assert(self@ =~= with_program(old(self)@, program@.take(i as int)));
            }
        }
        assert(program@.take(n as int) =~= program@);
    }

    /// Loads `program` at $0600, resets the registers, starts at $0600 and
    /// runs (see `run`).
    pub fn load_and_run(&mut self, program: Vec<u8>) -> (outcome: Execution)
        requires
            program.len() <= 0x200,
            bus_can_read_u16(old(self).bus@, 0xFFFC),
        ensures
            outcome == run_steps(started(old(self)@, program@), STEP_LIMIT as nat).1,
            outcome != Execution::Faulted ==> final(self)@ == run_steps(
                started(old(self)@, program@),
                STEP_LIMIT as nat,
            ).0,
    {
        self.load(program);
        proof {
            lemma_program_keeps_rom(old(self)@, program@);
        }
        self.reset();
        self.program_counter = 0x0600;
        self.run()
    }

    /// Sets Z when `result` is 0 and N from bit 7 of `result`; no other bit
    /// of the status changes.
    fn update_zero_and_negative_flags(&mut self, result: u8)
        ensures
            final(self)@ == (CpuView {
                status: with_zero_negative(old(self).status, result),
                ..old(self)@
            }),
            (final(self).status & 0b0000_0010 != 0) == (result == 0),
            (final(self).status & 0b1000_0000 != 0) == (result >= 0x80),
            final(self).status & 0b0111_1101 == old(self).status & 0b0111_1101,
    {
        proof {
            lemma_byte_bits(result);
            lemma_zero_negative_bits(old(self).status, result);
        }
        if result == 0 {
            self.status = self.status | 0b0000_0010;
        } else {
            self.status = self.status & 0b1111_1101;
        }
        if result & 0b1000_0000 != 0 {
            self.status = self.status | 0b1000_0000;
        } else {
            self.status = self.status & 0b0111_1111;
        }
    }
}

/// Whether `ins` is an instruction that reads or stores its operand.
spec fn is_operand(ins: Instruction) -> bool {
    match ins {
        Instruction::Lda | Instruction::Ldx | Instruction::Ldy | Instruction::Stx | Instruction::Sty | Instruction::Sta | Instruction::Adc | Instruction::Sbc | Instruction::And | Instruction::Ora | Instruction::Eor | Instruction::Bit | Instruction::Cmp | Instruction::Cpx | Instruction::Cpy => true,
        _ => false,
    }
}

/// Whether `ins` is a read-modify-write instruction.
spec fn is_read_modify_write(ins: Instruction) -> bool {
    match ins {
        Instruction::Asl | Instruction::Lsr | Instruction::Rol | Instruction::Ror | Instruction::Inc | Instruction::Dec => true,
        _ => false,
    }
}

/// Whether `ins` is a branch, jump or return.
spec fn is_control(ins: Instruction) -> bool {
    match ins {
        Instruction::Bcc | Instruction::Bcs | Instruction::Beq | Instruction::Bne | Instruction::Bmi | Instruction::Bpl | Instruction::Bvc | Instruction::Bvs | Instruction::JmpAbsolute | Instruction::JmpIndirect | Instruction::Jsr | Instruction::Rts => true,
        _ => false,
    }
}

/// Whether `ins` is an instruction on registers alone.
spec fn is_register(ins: Instruction) -> bool {
    match ins {
        Instruction::Tax | Instruction::Tay | Instruction::Tsx | Instruction::Txa | Instruction::Txs | Instruction::Tya | Instruction::Inx | Instruction::Iny | Instruction::Dex | Instruction::Dey | Instruction::LsrAccumulator => true,
        _ => false,
    }
}

/// Whether `ins` is a flag or stack instruction.
spec fn is_status_stack(ins: Instruction) -> bool {
    match ins {
        Instruction::Pha | Instruction::Php | Instruction::Pla | Instruction::Plp | Instruction::Rti | Instruction::Cld | Instruction::Cli | Instruction::Clv | Instruction::Sed | Instruction::Sei | Instruction::Clc | Instruction::Sec | Instruction::Nop | Instruction::Brk => true,
        _ => false,
    }
}

} // verus!
