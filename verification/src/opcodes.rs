//! The opcode table: which byte encodes which instruction, how many bytes
//! the instruction occupies, and how it addresses its operand.
use vstd::prelude::*;

use crate::cpu::AddressingMode;

verus! {

/// The instructions the CPU carries out.
#[derive(Clone, Copy, Debug, PartialEq, Eq, Structural)]
pub enum Instruction {
    Adc,
    And,
    Asl,
    Bcc,
    Bcs,
    Beq,
    Bit,
    Bmi,
    Bne,
    Bpl,
    Brk,
    Bvc,
    Bvs,
    Clc,
    Cld,
    Cli,
    Clv,
    Cmp,
    Cpx,
    Cpy,
    Dec,
    Dex,
    Dey,
    Eor,
    Inc,
    Inx,
    Iny,
    JmpAbsolute,
    JmpIndirect,
    Jsr,
    Lda,
    Ldx,
    Ldy,
    Lsr,
    LsrAccumulator,
    Nop,
    Ora,
    Pha,
    Php,
    Pla,
    Plp,
    Rol,
    Ror,
    Rti,
    Rts,
    Sbc,
    Sec,
    Sed,
    Sei,
    Sta,
    Stx,
    Sty,
    Tax,
    Tay,
    Tsx,
    Txa,
    Txs,
    Tya,
}

/// One entry of the opcode table.
#[derive(Clone, Copy, Debug)]
pub struct OpCode {
    pub code: u8,
    pub instruction: Instruction,
    pub len: u8,
    pub mode: AddressingMode,
}

/// The opcode table: the official 6502 opcodes the CPU executes. Any other
/// byte is not an instruction.
pub open spec fn opcode_for(code: u8) -> Option<OpCode> {
    match code {
        0x00 => Some(OpCode { code: 0x00, instruction: Instruction::Brk, len: 1, mode: AddressingMode::NoneAddressing }),
        0x01 => Some(OpCode { code: 0x01, instruction: Instruction::Ora, len: 2, mode: AddressingMode::Indirect_X }),
        0x05 => Some(OpCode { code: 0x05, instruction: Instruction::Ora, len: 2, mode: AddressingMode::ZeroPage }),
        0x06 => Some(OpCode { code: 0x06, instruction: Instruction::Asl, len: 2, mode: AddressingMode::ZeroPage }),
        0x08 => Some(OpCode { code: 0x08, instruction: Instruction::Php, len: 1, mode: AddressingMode::NoneAddressing }),
        0x09 => Some(OpCode { code: 0x09, instruction: Instruction::Ora, len: 2, mode: AddressingMode::Immediate }),
        0x0a => Some(OpCode { code: 0x0a, instruction: Instruction::Asl, len: 1, mode: AddressingMode::NoneAddressing }),
        0x0d => Some(OpCode { code: 0x0d, instruction: Instruction::Ora, len: 3, mode: AddressingMode::Absolute }),
        0x0e => Some(OpCode { code: 0x0e, instruction: Instruction::Asl, len: 3, mode: AddressingMode::Absolute }),
        0x10 => Some(OpCode { code: 0x10, instruction: Instruction::Bpl, len: 2, mode: AddressingMode::NoneAddressing }),
        0x11 => Some(OpCode { code: 0x11, instruction: Instruction::Ora, len: 2, mode: AddressingMode::Indirect_Y }),
        0x15 => Some(OpCode { code: 0x15, instruction: Instruction::Ora, len: 2, mode: AddressingMode::ZeroPage_X }),
        0x16 => Some(OpCode { code: 0x16, instruction: Instruction::Asl, len: 2, mode: AddressingMode::ZeroPage_X }),
        0x18 => Some(OpCode { code: 0x18, instruction: Instruction::Clc, len: 1, mode: AddressingMode::NoneAddressing }),
        0x19 => Some(OpCode { code: 0x19, instruction: Instruction::Ora, len: 3, mode: AddressingMode::Absolute_Y }),
        0x1d => Some(OpCode { code: 0x1d, instruction: Instruction::Ora, len: 3, mode: AddressingMode::Absolute_X }),
        0x1e => Some(OpCode { code: 0x1e, instruction: Instruction::Asl, len: 3, mode: AddressingMode::Absolute_X }),
        0x20 => Some(OpCode { code: 0x20, instruction: Instruction::Jsr, len: 3, mode: AddressingMode::NoneAddressing }),
        0x21 => Some(OpCode { code: 0x21, instruction: Instruction::And, len: 2, mode: AddressingMode::Indirect_X }),
        0x24 => Some(OpCode { code: 0x24, instruction: Instruction::Bit, len: 2, mode: AddressingMode::ZeroPage }),
        0x25 => Some(OpCode { code: 0x25, instruction: Instruction::And, len: 2, mode: AddressingMode::ZeroPage }),
        0x26 => Some(OpCode { code: 0x26, instruction: Instruction::Rol, len: 2, mode: AddressingMode::ZeroPage }),
        0x28 => Some(OpCode { code: 0x28, instruction: Instruction::Plp, len: 1, mode: AddressingMode::NoneAddressing }),
        0x29 => Some(OpCode { code: 0x29, instruction: Instruction::And, len: 2, mode: AddressingMode::Immediate }),
        0x2a => Some(OpCode { code: 0x2a, instruction: Instruction::Rol, len: 1, mode: AddressingMode::NoneAddressing }),
        0x2c => Some(OpCode { code: 0x2c, instruction: Instruction::Bit, len: 3, mode: AddressingMode::Absolute }),
        0x2d => Some(OpCode { code: 0x2d, instruction: Instruction::And, len: 3, mode: AddressingMode::Absolute }),
        0x2e => Some(OpCode { code: 0x2e, instruction: Instruction::Rol, len: 3, mode: AddressingMode::Absolute }),
        0x30 => Some(OpCode { code: 0x30, instruction: Instruction::Bmi, len: 2, mode: AddressingMode::NoneAddressing }),
        0x31 => Some(OpCode { code: 0x31, instruction: Instruction::And, len: 2, mode: AddressingMode::Indirect_Y }),
        0x35 => Some(OpCode { code: 0x35, instruction: Instruction::And, len: 2, mode: AddressingMode::ZeroPage_X }),
        0x36 => Some(OpCode { code: 0x36, instruction: Instruction::Rol, len: 2, mode: AddressingMode::ZeroPage_X }),
        0x38 => Some(OpCode { code: 0x38, instruction: Instruction::Sec, len: 1, mode: AddressingMode::NoneAddressing }),
        0x39 => Some(OpCode { code: 0x39, instruction: Instruction::And, len: 3, mode: AddressingMode::Absolute_Y }),
        0x3d => Some(OpCode { code: 0x3d, instruction: Instruction::And, len: 3, mode: AddressingMode::Absolute_X }),
        0x3e => Some(OpCode { code: 0x3e, instruction: Instruction::Rol, len: 3, mode: AddressingMode::Absolute_X }),
        0x40 => Some(OpCode { code: 0x40, instruction: Instruction::Rti, len: 1, mode: AddressingMode::NoneAddressing }),
        0x41 => Some(OpCode { code: 0x41, instruction: Instruction::Eor, len: 2, mode: AddressingMode::Indirect_X }),
        0x45 => Some(OpCode { code: 0x45, instruction: Instruction::Eor, len: 2, mode: AddressingMode::ZeroPage }),
        0x46 => Some(OpCode { code: 0x46, instruction: Instruction::Lsr, len: 2, mode: AddressingMode::ZeroPage }),
        0x48 => Some(OpCode { code: 0x48, instruction: Instruction::Pha, len: 1, mode: AddressingMode::NoneAddressing }),
        0x49 => Some(OpCode { code: 0x49, instruction: Instruction::Eor, len: 2, mode: AddressingMode::Immediate }),
        0x4a => Some(OpCode { code: 0x4a, instruction: Instruction::LsrAccumulator, len: 1, mode: AddressingMode::NoneAddressing }),
        0x4c => Some(OpCode { code: 0x4c, instruction: Instruction::JmpAbsolute, len: 3, mode: AddressingMode::NoneAddressing }),
        0x4d => Some(OpCode { code: 0x4d, instruction: Instruction::Eor, len: 3, mode: AddressingMode::Absolute }),
        0x4e => Some(OpCode { code: 0x4e, instruction: Instruction::Lsr, len: 3, mode: AddressingMode::Absolute }),
        0x50 => Some(OpCode { code: 0x50, instruction: Instruction::Bvc, len: 2, mode: AddressingMode::NoneAddressing }),
        0x51 => Some(OpCode { code: 0x51, instruction: Instruction::Eor, len: 2, mode: AddressingMode::Indirect_Y }),
        0x55 => Some(OpCode { code: 0x55, instruction: Instruction::Eor, len: 2, mode: AddressingMode::ZeroPage_X }),
        0x56 => Some(OpCode { code: 0x56, instruction: Instruction::Lsr, len: 2, mode: AddressingMode::ZeroPage_X }),
        0x58 => Some(OpCode { code: 0x58, instruction: Instruction::Cli, len: 1, mode: AddressingMode::NoneAddressing }),
        0x59 => Some(OpCode { code: 0x59, instruction: Instruction::Eor, len: 3, mode: AddressingMode::Absolute_Y }),
        0x5d => Some(OpCode { code: 0x5d, instruction: Instruction::Eor, len: 3, mode: AddressingMode::Absolute_X }),
        0x60 => Some(OpCode { code: 0x60, instruction: Instruction::Rts, len: 1, mode: AddressingMode::NoneAddressing }),
        0x61 => Some(OpCode { code: 0x61, instruction: Instruction::Adc, len: 2, mode: AddressingMode::Indirect_X }),
        0x65 => Some(OpCode { code: 0x65, instruction: Instruction::Adc, len: 2, mode: AddressingMode::ZeroPage }),
        0x66 => Some(OpCode { code: 0x66, instruction: Instruction::Ror, len: 2, mode: AddressingMode::ZeroPage }),
        0x68 => Some(OpCode { code: 0x68, instruction: Instruction::Pla, len: 1, mode: AddressingMode::NoneAddressing }),
        0x69 => Some(OpCode { code: 0x69, instruction: Instruction::Adc, len: 2, mode: AddressingMode::Immediate }),
        0x6a => Some(OpCode { code: 0x6a, instruction: Instruction::Ror, len: 1, mode: AddressingMode::NoneAddressing }),
        0x6c => Some(OpCode { code: 0x6c, instruction: Instruction::JmpIndirect, len: 3, mode: AddressingMode::NoneAddressing }),
        0x6d => Some(OpCode { code: 0x6d, instruction: Instruction::Adc, len: 3, mode: AddressingMode::Absolute }),
        0x6e => Some(OpCode { code: 0x6e, instruction: Instruction::Ror, len: 3, mode: AddressingMode::Absolute }),
        0x70 => Some(OpCode { code: 0x70, instruction: Instruction::Bvs, len: 2, mode: AddressingMode::NoneAddressing }),
        0x71 => Some(OpCode { code: 0x71, instruction: Instruction::Adc, len: 2, mode: AddressingMode::Indirect_Y }),
        0x75 => Some(OpCode { code: 0x75, instruction: Instruction::Adc, len: 2, mode: AddressingMode::ZeroPage_X }),
        0x76 => Some(OpCode { code: 0x76, instruction: Instruction::Ror, len: 2, mode: AddressingMode::ZeroPage_X }),
        0x78 => Some(OpCode { code: 0x78, instruction: Instruction::Sei, len: 1, mode: AddressingMode::NoneAddressing }),
        0x79 => Some(OpCode { code: 0x79, instruction: Instruction::Adc, len: 3, mode: AddressingMode::Absolute_Y }),
        0x7d => Some(OpCode { code: 0x7d, instruction: Instruction::Adc, len: 3, mode: AddressingMode::Absolute_X }),
        0x7e => Some(OpCode { code: 0x7e, instruction: Instruction::Ror, len: 3, mode: AddressingMode::Absolute_X }),
        0x81 => Some(OpCode { code: 0x81, instruction: Instruction::Sta, len: 2, mode: AddressingMode::Indirect_X }),
        0x84 => Some(OpCode { code: 0x84, instruction: Instruction::Sty, len: 2, mode: AddressingMode::ZeroPage }),
        0x85 => Some(OpCode { code: 0x85, instruction: Instruction::Sta, len: 2, mode: AddressingMode::ZeroPage }),
        0x86 => Some(OpCode { code: 0x86, instruction: Instruction::Stx, len: 2, mode: AddressingMode::ZeroPage }),
        0x88 => Some(OpCode { code: 0x88, instruction: Instruction::Dey, len: 1, mode: AddressingMode::NoneAddressing }),
        0x8a => Some(OpCode { code: 0x8a, instruction: Instruction::Txa, len: 1, mode: AddressingMode::NoneAddressing }),
        0x8c => Some(OpCode { code: 0x8c, instruction: Instruction::Sty, len: 3, mode: AddressingMode::Absolute }),
        0x8d => Some(OpCode { code: 0x8d, instruction: Instruction::Sta, len: 3, mode: AddressingMode::Absolute }),
        0x8e => Some(OpCode { code: 0x8e, instruction: Instruction::Stx, len: 3, mode: AddressingMode::Absolute }),
        0x90 => Some(OpCode { code: 0x90, instruction: Instruction::Bcc, len: 2, mode: AddressingMode::NoneAddressing }),
        0x91 => Some(OpCode { code: 0x91, instruction: Instruction::Sta, len: 2, mode: AddressingMode::Indirect_Y }),
        0x94 => Some(OpCode { code: 0x94, instruction: Instruction::Sty, len: 2, mode: AddressingMode::ZeroPage_X }),
        0x95 => Some(OpCode { code: 0x95, instruction: Instruction::Sta, len: 2, mode: AddressingMode::ZeroPage_X }),
        0x96 => Some(OpCode { code: 0x96, instruction: Instruction::Stx, len: 2, mode: AddressingMode::ZeroPage_Y }),
        0x98 => Some(OpCode { code: 0x98, instruction: Instruction::Tya, len: 1, mode: AddressingMode::NoneAddressing }),
        0x99 => Some(OpCode { code: 0x99, instruction: Instruction::Sta, len: 3, mode: AddressingMode::Absolute_Y }),
        0x9a => Some(OpCode { code: 0x9a, instruction: Instruction::Txs, len: 1, mode: AddressingMode::NoneAddressing }),
        0x9d => Some(OpCode { code: 0x9d, instruction: Instruction::Sta, len: 3, mode: AddressingMode::Absolute_X }),
        0xa0 => Some(OpCode { code: 0xa0, instruction: Instruction::Ldy, len: 2, mode: AddressingMode::Immediate }),
        0xa1 => Some(OpCode { code: 0xa1, instruction: Instruction::Lda, len: 2, mode: AddressingMode::Indirect_X }),
        0xa2 => Some(OpCode { code: 0xa2, instruction: Instruction::Ldx, len: 2, mode: AddressingMode::Immediate }),
        0xa4 => Some(OpCode { code: 0xa4, instruction: Instruction::Ldy, len: 2, mode: AddressingMode::ZeroPage }),
        0xa5 => Some(OpCode { code: 0xa5, instruction: Instruction::Lda, len: 2, mode: AddressingMode::ZeroPage }),
        0xa6 => Some(OpCode { code: 0xa6, instruction: Instruction::Ldx, len: 2, mode: AddressingMode::ZeroPage }),
        0xa8 => Some(OpCode { code: 0xa8, instruction: Instruction::Tay, len: 1, mode: AddressingMode::NoneAddressing }),
        0xa9 => Some(OpCode { code: 0xa9, instruction: Instruction::Lda, len: 2, mode: AddressingMode::Immediate }),
        0xaa => Some(OpCode { code: 0xaa, instruction: Instruction::Tax, len: 1, mode: AddressingMode::NoneAddressing }),
        0xac => Some(OpCode { code: 0xac, instruction: Instruction::Ldy, len: 3, mode: AddressingMode::Absolute }),
        0xad => Some(OpCode { code: 0xad, instruction: Instruction::Lda, len: 3, mode: AddressingMode::Absolute }),
        0xae => Some(OpCode { code: 0xae, instruction: Instruction::Ldx, len: 3, mode: AddressingMode::Absolute }),
        0xb0 => Some(OpCode { code: 0xb0, instruction: Instruction::Bcs, len: 2, mode: AddressingMode::NoneAddressing }),
        0xb1 => Some(OpCode { code: 0xb1, instruction: Instruction::Lda, len: 2, mode: AddressingMode::Indirect_Y }),
        0xb4 => Some(OpCode { code: 0xb4, instruction: Instruction::Ldy, len: 2, mode: AddressingMode::ZeroPage_X }),
        0xb5 => Some(OpCode { code: 0xb5, instruction: Instruction::Lda, len: 2, mode: AddressingMode::ZeroPage_X }),
        0xb6 => Some(OpCode { code: 0xb6, instruction: Instruction::Ldx, len: 2, mode: AddressingMode::ZeroPage_Y }),
        0xb8 => Some(OpCode { code: 0xb8, instruction: Instruction::Clv, len: 1, mode: AddressingMode::NoneAddressing }),
        0xb9 => Some(OpCode { code: 0xb9, instruction: Instruction::Lda, len: 3, mode: AddressingMode::Absolute_Y }),
        0xba => Some(OpCode { code: 0xba, instruction: Instruction::Tsx, len: 1, mode: AddressingMode::NoneAddressing }),
        0xbc => Some(OpCode { code: 0xbc, instruction: Instruction::Ldy, len: 3, mode: AddressingMode::Absolute_X }),
        0xbd => Some(OpCode { code: 0xbd, instruction: Instruction::Lda, len: 3, mode: AddressingMode::Absolute_X }),
        0xbe => Some(OpCode { code: 0xbe, instruction: Instruction::Ldx, len: 3, mode: AddressingMode::Absolute_Y }),
        0xc0 => Some(OpCode { code: 0xc0, instruction: Instruction::Cpy, len: 2, mode: AddressingMode::Immediate }),
        0xc1 => Some(OpCode { code: 0xc1, instruction: Instruction::Cmp, len: 2, mode: AddressingMode::Indirect_X }),
        0xc4 => Some(OpCode { code: 0xc4, instruction: Instruction::Cpy, len: 2, mode: AddressingMode::ZeroPage }),
        0xc5 => Some(OpCode { code: 0xc5, instruction: Instruction::Cmp, len: 2, mode: AddressingMode::ZeroPage }),
        0xc6 => Some(OpCode { code: 0xc6, instruction: Instruction::Dec, len: 2, mode: AddressingMode::ZeroPage }),
        0xc8 => Some(OpCode { code: 0xc8, instruction: Instruction::Iny, len: 1, mode: AddressingMode::NoneAddressing }),
        0xc9 => Some(OpCode { code: 0xc9, instruction: Instruction::Cmp, len: 2, mode: AddressingMode::Immediate }),
        0xca => Some(OpCode { code: 0xca, instruction: Instruction::Dex, len: 1, mode: AddressingMode::NoneAddressing }),
        0xcc => Some(OpCode { code: 0xcc, instruction: Instruction::Cpy, len: 3, mode: AddressingMode::Absolute }),
        0xcd => Some(OpCode { code: 0xcd, instruction: Instruction::Cmp, len: 3, mode: AddressingMode::Absolute }),
        0xce => Some(OpCode { code: 0xce, instruction: Instruction::Dec, len: 3, mode: AddressingMode::Absolute }),
        0xd0 => Some(OpCode { code: 0xd0, instruction: Instruction::Bne, len: 2, mode: AddressingMode::NoneAddressing }),
        0xd1 => Some(OpCode { code: 0xd1, instruction: Instruction::Cmp, len: 2, mode: AddressingMode::Indirect_Y }),
        0xd5 => Some(OpCode { code: 0xd5, instruction: Instruction::Cmp, len: 2, mode: AddressingMode::ZeroPage_X }),
        0xd6 => Some(OpCode { code: 0xd6, instruction: Instruction::Dec, len: 2, mode: AddressingMode::ZeroPage_X }),
        0xd8 => Some(OpCode { code: 0xd8, instruction: Instruction::Cld, len: 1, mode: AddressingMode::NoneAddressing }),
        0xd9 => Some(OpCode { code: 0xd9, instruction: Instruction::Cmp, len: 3, mode: AddressingMode::Absolute_Y }),
        0xdd => Some(OpCode { code: 0xdd, instruction: Instruction::Cmp, len: 3, mode: AddressingMode::Absolute_X }),
        0xde => Some(OpCode { code: 0xde, instruction: Instruction::Dec, len: 3, mode: AddressingMode::Absolute_X }),
        0xe0 => Some(OpCode { code: 0xe0, instruction: Instruction::Cpx, len: 2, mode: AddressingMode::Immediate }),
        0xe1 => Some(OpCode { code: 0xe1, instruction: Instruction::Sbc, len: 2, mode: AddressingMode::Indirect_X }),
        0xe4 => Some(OpCode { code: 0xe4, instruction: Instruction::Cpx, len: 2, mode: AddressingMode::ZeroPage }),
        0xe5 => Some(OpCode { code: 0xe5, instruction: Instruction::Sbc, len: 2, mode: AddressingMode::ZeroPage }),
        0xe6 => Some(OpCode { code: 0xe6, instruction: Instruction::Inc, len: 2, mode: AddressingMode::ZeroPage }),
        0xe8 => Some(OpCode { code: 0xe8, instruction: Instruction::Inx, len: 1, mode: AddressingMode::NoneAddressing }),
        0xe9 => Some(OpCode { code: 0xe9, instruction: Instruction::Sbc, len: 2, mode: AddressingMode::Immediate }),
        0xea => Some(OpCode { code: 0xea, instruction: Instruction::Nop, len: 1, mode: AddressingMode::NoneAddressing }),
        0xec => Some(OpCode { code: 0xec, instruction: Instruction::Cpx, len: 3, mode: AddressingMode::Absolute }),
        0xed => Some(OpCode { code: 0xed, instruction: Instruction::Sbc, len: 3, mode: AddressingMode::Absolute }),
        0xee => Some(OpCode { code: 0xee, instruction: Instruction::Inc, len: 3, mode: AddressingMode::Absolute }),
        0xf0 => Some(OpCode { code: 0xf0, instruction: Instruction::Beq, len: 2, mode: AddressingMode::NoneAddressing }),
        0xf1 => Some(OpCode { code: 0xf1, instruction: Instruction::Sbc, len: 2, mode: AddressingMode::Indirect_Y }),
        0xf5 => Some(OpCode { code: 0xf5, instruction: Instruction::Sbc, len: 2, mode: AddressingMode::ZeroPage_X }),
        0xf6 => Some(OpCode { code: 0xf6, instruction: Instruction::Inc, len: 2, mode: AddressingMode::ZeroPage_X }),
        0xf8 => Some(OpCode { code: 0xf8, instruction: Instruction::Sed, len: 1, mode: AddressingMode::NoneAddressing }),
        0xf9 => Some(OpCode { code: 0xf9, instruction: Instruction::Sbc, len: 3, mode: AddressingMode::Absolute_Y }),
        0xfd => Some(OpCode { code: 0xfd, instruction: Instruction::Sbc, len: 3, mode: AddressingMode::Absolute_X }),
        0xfe => Some(OpCode { code: 0xfe, instruction: Instruction::Inc, len: 3, mode: AddressingMode::Absolute_X }),
        _ => None,
    }
}

/// Looks `code` up in the opcode table.
pub fn lookup(code: u8) -> (op: Option<OpCode>)
    ensures
        op == opcode_for(code),
{
    match code {
        0x00 => Some(OpCode { code: 0x00, instruction: Instruction::Brk, len: 1, mode: AddressingMode::NoneAddressing }),
        0x01 => Some(OpCode { code: 0x01, instruction: Instruction::Ora, len: 2, mode: AddressingMode::Indirect_X }),
        0x05 => Some(OpCode { code: 0x05, instruction: Instruction::Ora, len: 2, mode: AddressingMode::ZeroPage }),
        0x06 => Some(OpCode { code: 0x06, instruction: Instruction::Asl, len: 2, mode: AddressingMode::ZeroPage }),
        0x08 => Some(OpCode { code: 0x08, instruction: Instruction::Php, len: 1, mode: AddressingMode::NoneAddressing }),
        0x09 => Some(OpCode { code: 0x09, instruction: Instruction::Ora, len: 2, mode: AddressingMode::Immediate }),
        0x0a => Some(OpCode { code: 0x0a, instruction: Instruction::Asl, len: 1, mode: AddressingMode::NoneAddressing }),
        0x0d => Some(OpCode { code: 0x0d, instruction: Instruction::Ora, len: 3, mode: AddressingMode::Absolute }),
        0x0e => Some(OpCode { code: 0x0e, instruction: Instruction::Asl, len: 3, mode: AddressingMode::Absolute }),
        0x10 => Some(OpCode { code: 0x10, instruction: Instruction::Bpl, len: 2, mode: AddressingMode::NoneAddressing }),
        0x11 => Some(OpCode { code: 0x11, instruction: Instruction::Ora, len: 2, mode: AddressingMode::Indirect_Y }),
        0x15 => Some(OpCode { code: 0x15, instruction: Instruction::Ora, len: 2, mode: AddressingMode::ZeroPage_X }),
        0x16 => Some(OpCode { code: 0x16, instruction: Instruction::Asl, len: 2, mode: AddressingMode::ZeroPage_X }),
        0x18 => Some(OpCode { code: 0x18, instruction: Instruction::Clc, len: 1, mode: AddressingMode::NoneAddressing }),
        0x19 => Some(OpCode { code: 0x19, instruction: Instruction::Ora, len: 3, mode: AddressingMode::Absolute_Y }),
        0x1d => Some(OpCode { code: 0x1d, instruction: Instruction::Ora, len: 3, mode: AddressingMode::Absolute_X }),
        0x1e => Some(OpCode { code: 0x1e, instruction: Instruction::Asl, len: 3, mode: AddressingMode::Absolute_X }),
        0x20 => Some(OpCode { code: 0x20, instruction: Instruction::Jsr, len: 3, mode: AddressingMode::NoneAddressing }),
        0x21 => Some(OpCode { code: 0x21, instruction: Instruction::And, len: 2, mode: AddressingMode::Indirect_X }),
        0x24 => Some(OpCode { code: 0x24, instruction: Instruction::Bit, len: 2, mode: AddressingMode::ZeroPage }),
        0x25 => Some(OpCode { code: 0x25, instruction: Instruction::And, len: 2, mode: AddressingMode::ZeroPage }),
        0x26 => Some(OpCode { code: 0x26, instruction: Instruction::Rol, len: 2, mode: AddressingMode::ZeroPage }),
        0x28 => Some(OpCode { code: 0x28, instruction: Instruction::Plp, len: 1, mode: AddressingMode::NoneAddressing }),
        0x29 => Some(OpCode { code: 0x29, instruction: Instruction::And, len: 2, mode: AddressingMode::Immediate }),
        0x2a => Some(OpCode { code: 0x2a, instruction: Instruction::Rol, len: 1, mode: AddressingMode::NoneAddressing }),
        0x2c => Some(OpCode { code: 0x2c, instruction: Instruction::Bit, len: 3, mode: AddressingMode::Absolute }),
        0x2d => Some(OpCode { code: 0x2d, instruction: Instruction::And, len: 3, mode: AddressingMode::Absolute }),
        0x2e => Some(OpCode { code: 0x2e, instruction: Instruction::Rol, len: 3, mode: AddressingMode::Absolute }),
        0x30 => Some(OpCode { code: 0x30, instruction: Instruction::Bmi, len: 2, mode: AddressingMode::NoneAddressing }),
        0x31 => Some(OpCode { code: 0x31, instruction: Instruction::And, len: 2, mode: AddressingMode::Indirect_Y }),
        0x35 => Some(OpCode { code: 0x35, instruction: Instruction::And, len: 2, mode: AddressingMode::ZeroPage_X }),
        0x36 => Some(OpCode { code: 0x36, instruction: Instruction::Rol, len: 2, mode: AddressingMode::ZeroPage_X }),
        0x38 => Some(OpCode { code: 0x38, instruction: Instruction::Sec, len: 1, mode: AddressingMode::NoneAddressing }),
        0x39 => Some(OpCode { code: 0x39, instruction: Instruction::And, len: 3, mode: AddressingMode::Absolute_Y }),
        0x3d => Some(OpCode { code: 0x3d, instruction: Instruction::And, len: 3, mode: AddressingMode::Absolute_X }),
        0x3e => Some(OpCode { code: 0x3e, instruction: Instruction::Rol, len: 3, mode: AddressingMode::Absolute_X }),
        0x40 => Some(OpCode { code: 0x40, instruction: Instruction::Rti, len: 1, mode: AddressingMode::NoneAddressing }),
        0x41 => Some(OpCode { code: 0x41, instruction: Instruction::Eor, len: 2, mode: AddressingMode::Indirect_X }),
        0x45 => Some(OpCode { code: 0x45, instruction: Instruction::Eor, len: 2, mode: AddressingMode::ZeroPage }),
        0x46 => Some(OpCode { code: 0x46, instruction: Instruction::Lsr, len: 2, mode: AddressingMode::ZeroPage }),
        0x48 => Some(OpCode { code: 0x48, instruction: Instruction::Pha, len: 1, mode: AddressingMode::NoneAddressing }),
        0x49 => Some(OpCode { code: 0x49, instruction: Instruction::Eor, len: 2, mode: AddressingMode::Immediate }),
        0x4a => Some(OpCode { code: 0x4a, instruction: Instruction::LsrAccumulator, len: 1, mode: AddressingMode::NoneAddressing }),
        0x4c => Some(OpCode { code: 0x4c, instruction: Instruction::JmpAbsolute, len: 3, mode: AddressingMode::NoneAddressing }),
        0x4d => Some(OpCode { code: 0x4d, instruction: Instruction::Eor, len: 3, mode: AddressingMode::Absolute }),
        0x4e => Some(OpCode { code: 0x4e, instruction: Instruction::Lsr, len: 3, mode: AddressingMode::Absolute }),
        0x50 => Some(OpCode { code: 0x50, instruction: Instruction::Bvc, len: 2, mode: AddressingMode::NoneAddressing }),
        0x51 => Some(OpCode { code: 0x51, instruction: Instruction::Eor, len: 2, mode: AddressingMode::Indirect_Y }),
        0x55 => Some(OpCode { code: 0x55, instruction: Instruction::Eor, len: 2, mode: AddressingMode::ZeroPage_X }),
        0x56 => Some(OpCode { code: 0x56, instruction: Instruction::Lsr, len: 2, mode: AddressingMode::ZeroPage_X }),
        0x58 => Some(OpCode { code: 0x58, instruction: Instruction::Cli, len: 1, mode: AddressingMode::NoneAddressing }),
        0x59 => Some(OpCode { code: 0x59, instruction: Instruction::Eor, len: 3, mode: AddressingMode::Absolute_Y }),
        0x5d => Some(OpCode { code: 0x5d, instruction: Instruction::Eor, len: 3, mode: AddressingMode::Absolute_X }),
        0x60 => Some(OpCode { code: 0x60, instruction: Instruction::Rts, len: 1, mode: AddressingMode::NoneAddressing }),
        0x61 => Some(OpCode { code: 0x61, instruction: Instruction::Adc, len: 2, mode: AddressingMode::Indirect_X }),
        0x65 => Some(OpCode { code: 0x65, instruction: Instruction::Adc, len: 2, mode: AddressingMode::ZeroPage }),
        0x66 => Some(OpCode { code: 0x66, instruction: Instruction::Ror, len: 2, mode: AddressingMode::ZeroPage }),
        0x68 => Some(OpCode { code: 0x68, instruction: Instruction::Pla, len: 1, mode: AddressingMode::NoneAddressing }),
        0x69 => Some(OpCode { code: 0x69, instruction: Instruction::Adc, len: 2, mode: AddressingMode::Immediate }),
        0x6a => Some(OpCode { code: 0x6a, instruction: Instruction::Ror, len: 1, mode: AddressingMode::NoneAddressing }),
        0x6c => Some(OpCode { code: 0x6c, instruction: Instruction::JmpIndirect, len: 3, mode: AddressingMode::NoneAddressing }),
        0x6d => Some(OpCode { code: 0x6d, instruction: Instruction::Adc, len: 3, mode: AddressingMode::Absolute }),
        0x6e => Some(OpCode { code: 0x6e, instruction: Instruction::Ror, len: 3, mode: AddressingMode::Absolute }),
        0x70 => Some(OpCode { code: 0x70, instruction: Instruction::Bvs, len: 2, mode: AddressingMode::NoneAddressing }),
        0x71 => Some(OpCode { code: 0x71, instruction: Instruction::Adc, len: 2, mode: AddressingMode::Indirect_Y }),
        0x75 => Some(OpCode { code: 0x75, instruction: Instruction::Adc, len: 2, mode: AddressingMode::ZeroPage_X }),
        0x76 => Some(OpCode { code: 0x76, instruction: Instruction::Ror, len: 2, mode: AddressingMode::ZeroPage_X }),
        0x78 => Some(OpCode { code: 0x78, instruction: Instruction::Sei, len: 1, mode: AddressingMode::NoneAddressing }),
        0x79 => Some(OpCode { code: 0x79, instruction: Instruction::Adc, len: 3, mode: AddressingMode::Absolute_Y }),
        0x7d => Some(OpCode { code: 0x7d, instruction: Instruction::Adc, len: 3, mode: AddressingMode::Absolute_X }),
        0x7e => Some(OpCode { code: 0x7e, instruction: Instruction::Ror, len: 3, mode: AddressingMode::Absolute_X }),
        0x81 => Some(OpCode { code: 0x81, instruction: Instruction::Sta, len: 2, mode: AddressingMode::Indirect_X }),
        0x84 => Some(OpCode { code: 0x84, instruction: Instruction::Sty, len: 2, mode: AddressingMode::ZeroPage }),
        0x85 => Some(OpCode { code: 0x85, instruction: Instruction::Sta, len: 2, mode: AddressingMode::ZeroPage }),
        0x86 => Some(OpCode { code: 0x86, instruction: Instruction::Stx, len: 2, mode: AddressingMode::ZeroPage }),
        0x88 => Some(OpCode { code: 0x88, instruction: Instruction::Dey, len: 1, mode: AddressingMode::NoneAddressing }),
        0x8a => Some(OpCode { code: 0x8a, instruction: Instruction::Txa, len: 1, mode: AddressingMode::NoneAddressing }),
        0x8c => Some(OpCode { code: 0x8c, instruction: Instruction::Sty, len: 3, mode: AddressingMode::Absolute }),
        0x8d => Some(OpCode { code: 0x8d, instruction: Instruction::Sta, len: 3, mode: AddressingMode::Absolute }),
        0x8e => Some(OpCode { code: 0x8e, instruction: Instruction::Stx, len: 3, mode: AddressingMode::Absolute }),
        0x90 => Some(OpCode { code: 0x90, instruction: Instruction::Bcc, len: 2, mode: AddressingMode::NoneAddressing }),
        0x91 => Some(OpCode { code: 0x91, instruction: Instruction::Sta, len: 2, mode: AddressingMode::Indirect_Y }),
        0x94 => Some(OpCode { code: 0x94, instruction: Instruction::Sty, len: 2, mode: AddressingMode::ZeroPage_X }),
        0x95 => Some(OpCode { code: 0x95, instruction: Instruction::Sta, len: 2, mode: AddressingMode::ZeroPage_X }),
        0x96 => Some(OpCode { code: 0x96, instruction: Instruction::Stx, len: 2, mode: AddressingMode::ZeroPage_Y }),
        0x98 => Some(OpCode { code: 0x98, instruction: Instruction::Tya, len: 1, mode: AddressingMode::NoneAddressing }),
        0x99 => Some(OpCode { code: 0x99, instruction: Instruction::Sta, len: 3, mode: AddressingMode::Absolute_Y }),
        0x9a => Some(OpCode { code: 0x9a, instruction: Instruction::Txs, len: 1, mode: AddressingMode::NoneAddressing }),
        0x9d => Some(OpCode { code: 0x9d, instruction: Instruction::Sta, len: 3, mode: AddressingMode::Absolute_X }),
        0xa0 => Some(OpCode { code: 0xa0, instruction: Instruction::Ldy, len: 2, mode: AddressingMode::Immediate }),
        0xa1 => Some(OpCode { code: 0xa1, instruction: Instruction::Lda, len: 2, mode: AddressingMode::Indirect_X }),
        0xa2 => Some(OpCode { code: 0xa2, instruction: Instruction::Ldx, len: 2, mode: AddressingMode::Immediate }),
        0xa4 => Some(OpCode { code: 0xa4, instruction: Instruction::Ldy, len: 2, mode: AddressingMode::ZeroPage }),
        0xa5 => Some(OpCode { code: 0xa5, instruction: Instruction::Lda, len: 2, mode: AddressingMode::ZeroPage }),
        0xa6 => Some(OpCode { code: 0xa6, instruction: Instruction::Ldx, len: 2, mode: AddressingMode::ZeroPage }),
        0xa8 => Some(OpCode { code: 0xa8, instruction: Instruction::Tay, len: 1, mode: AddressingMode::NoneAddressing }),
        0xa9 => Some(OpCode { code: 0xa9, instruction: Instruction::Lda, len: 2, mode: AddressingMode::Immediate }),
        0xaa => Some(OpCode { code: 0xaa, instruction: Instruction::Tax, len: 1, mode: AddressingMode::NoneAddressing }),
        0xac => Some(OpCode { code: 0xac, instruction: Instruction::Ldy, len: 3, mode: AddressingMode::Absolute }),
        0xad => Some(OpCode { code: 0xad, instruction: Instruction::Lda, len: 3, mode: AddressingMode::Absolute }),
        0xae => Some(OpCode { code: 0xae, instruction: Instruction::Ldx, len: 3, mode: AddressingMode::Absolute }),
        0xb0 => Some(OpCode { code: 0xb0, instruction: Instruction::Bcs, len: 2, mode: AddressingMode::NoneAddressing }),
        0xb1 => Some(OpCode { code: 0xb1, instruction: Instruction::Lda, len: 2, mode: AddressingMode::Indirect_Y }),
        0xb4 => Some(OpCode { code: 0xb4, instruction: Instruction::Ldy, len: 2, mode: AddressingMode::ZeroPage_X }),
        0xb5 => Some(OpCode { code: 0xb5, instruction: Instruction::Lda, len: 2, mode: AddressingMode::ZeroPage_X }),
        0xb6 => Some(OpCode { code: 0xb6, instruction: Instruction::Ldx, len: 2, mode: AddressingMode::ZeroPage_Y }),
        0xb8 => Some(OpCode { code: 0xb8, instruction: Instruction::Clv, len: 1, mode: AddressingMode::NoneAddressing }),
        0xb9 => Some(OpCode { code: 0xb9, instruction: Instruction::Lda, len: 3, mode: AddressingMode::Absolute_Y }),
        0xba => Some(OpCode { code: 0xba, instruction: Instruction::Tsx, len: 1, mode: AddressingMode::NoneAddressing }),
        0xbc => Some(OpCode { code: 0xbc, instruction: Instruction::Ldy, len: 3, mode: AddressingMode::Absolute_X }),
        0xbd => Some(OpCode { code: 0xbd, instruction: Instruction::Lda, len: 3, mode: AddressingMode::Absolute_X }),
        0xbe => Some(OpCode { code: 0xbe, instruction: Instruction::Ldx, len: 3, mode: AddressingMode::Absolute_Y }),
        0xc0 => Some(OpCode { code: 0xc0, instruction: Instruction::Cpy, len: 2, mode: AddressingMode::Immediate }),
        0xc1 => Some(OpCode { code: 0xc1, instruction: Instruction::Cmp, len: 2, mode: AddressingMode::Indirect_X }),
        0xc4 => Some(OpCode { code: 0xc4, instruction: Instruction::Cpy, len: 2, mode: AddressingMode::ZeroPage }),
        0xc5 => Some(OpCode { code: 0xc5, instruction: Instruction::Cmp, len: 2, mode: AddressingMode::ZeroPage }),
        0xc6 => Some(OpCode { code: 0xc6, instruction: Instruction::Dec, len: 2, mode: AddressingMode::ZeroPage }),
        0xc8 => Some(OpCode { code: 0xc8, instruction: Instruction::Iny, len: 1, mode: AddressingMode::NoneAddressing }),
        0xc9 => Some(OpCode { code: 0xc9, instruction: Instruction::Cmp, len: 2, mode: AddressingMode::Immediate }),
        0xca => Some(OpCode { code: 0xca, instruction: Instruction::Dex, len: 1, mode: AddressingMode::NoneAddressing }),
        0xcc => Some(OpCode { code: 0xcc, instruction: Instruction::Cpy, len: 3, mode: AddressingMode::Absolute }),
        0xcd => Some(OpCode { code: 0xcd, instruction: Instruction::Cmp, len: 3, mode: AddressingMode::Absolute }),
        0xce => Some(OpCode { code: 0xce, instruction: Instruction::Dec, len: 3, mode: AddressingMode::Absolute }),
        0xd0 => Some(OpCode { code: 0xd0, instruction: Instruction::Bne, len: 2, mode: AddressingMode::NoneAddressing }),
        0xd1 => Some(OpCode { code: 0xd1, instruction: Instruction::Cmp, len: 2, mode: AddressingMode::Indirect_Y }),
        0xd5 => Some(OpCode { code: 0xd5, instruction: Instruction::Cmp, len: 2, mode: AddressingMode::ZeroPage_X }),
        0xd6 => Some(OpCode { code: 0xd6, instruction: Instruction::Dec, len: 2, mode: AddressingMode::ZeroPage_X }),
        0xd8 => Some(OpCode { code: 0xd8, instruction: Instruction::Cld, len: 1, mode: AddressingMode::NoneAddressing }),
        0xd9 => Some(OpCode { code: 0xd9, instruction: Instruction::Cmp, len: 3, mode: AddressingMode::Absolute_Y }),
        0xdd => Some(OpCode { code: 0xdd, instruction: Instruction::Cmp, len: 3, mode: AddressingMode::Absolute_X }),
        0xde => Some(OpCode { code: 0xde, instruction: Instruction::Dec, len: 3, mode: AddressingMode::Absolute_X }),
        0xe0 => Some(OpCode { code: 0xe0, instruction: Instruction::Cpx, len: 2, mode: AddressingMode::Immediate }),
        0xe1 => Some(OpCode { code: 0xe1, instruction: Instruction::Sbc, len: 2, mode: AddressingMode::Indirect_X }),
        0xe4 => Some(OpCode { code: 0xe4, instruction: Instruction::Cpx, len: 2, mode: AddressingMode::ZeroPage }),
        0xe5 => Some(OpCode { code: 0xe5, instruction: Instruction::Sbc, len: 2, mode: AddressingMode::ZeroPage }),
        0xe6 => Some(OpCode { code: 0xe6, instruction: Instruction::Inc, len: 2, mode: AddressingMode::ZeroPage }),
        0xe8 => Some(OpCode { code: 0xe8, instruction: Instruction::Inx, len: 1, mode: AddressingMode::NoneAddressing }),
        0xe9 => Some(OpCode { code: 0xe9, instruction: Instruction::Sbc, len: 2, mode: AddressingMode::Immediate }),
        0xea => Some(OpCode { code: 0xea, instruction: Instruction::Nop, len: 1, mode: AddressingMode::NoneAddressing }),
        0xec => Some(OpCode { code: 0xec, instruction: Instruction::Cpx, len: 3, mode: AddressingMode::Absolute }),
        0xed => Some(OpCode { code: 0xed, instruction: Instruction::Sbc, len: 3, mode: AddressingMode::Absolute }),
        0xee => Some(OpCode { code: 0xee, instruction: Instruction::Inc, len: 3, mode: AddressingMode::Absolute }),
        0xf0 => Some(OpCode { code: 0xf0, instruction: Instruction::Beq, len: 2, mode: AddressingMode::NoneAddressing }),
        0xf1 => Some(OpCode { code: 0xf1, instruction: Instruction::Sbc, len: 2, mode: AddressingMode::Indirect_Y }),
        0xf5 => Some(OpCode { code: 0xf5, instruction: Instruction::Sbc, len: 2, mode: AddressingMode::ZeroPage_X }),
        0xf6 => Some(OpCode { code: 0xf6, instruction: Instruction::Inc, len: 2, mode: AddressingMode::ZeroPage_X }),
        0xf8 => Some(OpCode { code: 0xf8, instruction: Instruction::Sed, len: 1, mode: AddressingMode::NoneAddressing }),
        0xf9 => Some(OpCode { code: 0xf9, instruction: Instruction::Sbc, len: 3, mode: AddressingMode::Absolute_Y }),
        0xfd => Some(OpCode { code: 0xfd, instruction: Instruction::Sbc, len: 3, mode: AddressingMode::Absolute_X }),
        0xfe => Some(OpCode { code: 0xfe, instruction: Instruction::Inc, len: 3, mode: AddressingMode::Absolute_X }),
        _ => None,
    }
}

/// How many operand bytes follow the opcode of `ins` in mode `mode`:
/// one for an immediate, zero-page or indirect operand, two for an absolute
/// address; for the instructions that name no memory operand, one for a
/// branch offset, two for a jump target, none otherwise.
pub open spec fn operand_bytes(ins: Instruction, mode: AddressingMode) -> int {
    match mode {
        AddressingMode::Immediate | AddressingMode::ZeroPage | AddressingMode::ZeroPage_X
        | AddressingMode::ZeroPage_Y | AddressingMode::Indirect_X
        | AddressingMode::Indirect_Y => 1,
        AddressingMode::Absolute | AddressingMode::Absolute_X | AddressingMode::Absolute_Y => 2,
        AddressingMode::NoneAddressing => match ins {
            Instruction::Bcc | Instruction::Bcs | Instruction::Beq | Instruction::Bne
            | Instruction::Bmi | Instruction::Bpl | Instruction::Bvc | Instruction::Bvs => 1,
            Instruction::JmpAbsolute | Instruction::JmpIndirect | Instruction::Jsr => 2,
            _ => 0,
        },
    }
}

/// Every entry of the table is filed under its own code, and its length is
/// the opcode byte plus the operand bytes its instruction and mode call for.
pub proof fn lemma_opcode_lengths(code: u8)
    ensures
        opcode_for(code) matches Some(op) ==> op.code == code && op.len == 1 + operand_bytes(
            op.instruction,
            op.mode,
        ),
{
}

/// The operation of a group-one opcode (bits 1..0 = 01), chosen by its top
/// three bits.
pub open spec fn group_one_instruction(aaa: u8) -> Instruction {
    if aaa == 0 {
        Instruction::Ora
    } else if aaa == 1 {
        Instruction::And
    } else if aaa == 2 {
        Instruction::Eor
    } else if aaa == 3 {
        Instruction::Adc
    } else if aaa == 4 {
        Instruction::Sta
    } else if aaa == 5 {
        Instruction::Lda
    } else if aaa == 6 {
        Instruction::Cmp
    } else {
        Instruction::Sbc
    }
}

/// The addressing mode of a group-one opcode, chosen by bits 4..2.
pub open spec fn group_one_mode(bbb: u8) -> AddressingMode {
    if bbb == 0 {
        AddressingMode::Indirect_X
    } else if bbb == 1 {
        AddressingMode::ZeroPage
    } else if bbb == 2 {
        AddressingMode::Immediate
    } else if bbb == 3 {
        AddressingMode::Absolute
    } else if bbb == 4 {
        AddressingMode::Indirect_Y
    } else if bbb == 5 {
        AddressingMode::ZeroPage_X
    } else if bbb == 6 {
        AddressingMode::Absolute_Y
    } else {
        AddressingMode::Absolute_X
    }
}

/// The 6502's regular encoding of its group-one instructions: opcode
/// aaabbb01 is the operation named by aaa (ORA, AND, EOR, ADC, STA, LDA,
/// CMP, SBC) in the mode named by bbb, except that there is no STA
/// immediate.
pub proof fn lemma_group_one_encoding(aaa: u8, bbb: u8)
    requires
        aaa < 8,
        bbb < 8,
    ensures
        ({
            let code = (aaa * 32 + bbb * 4 + 1) as u8;
            if aaa == 4 && bbb == 2 {
                opcode_for(code) is None
            } else {
                &&& opcode_for(code) is Some
                &&& (opcode_for(code)->0).instruction == group_one_instruction(aaa)
                &&& (opcode_for(code)->0).mode == group_one_mode(bbb)
            }
        }),
{
}

/// The mode of the immediate, zero-page and absolute forms of CPX, CPY,
/// LDX and LDY, chosen by bits 4..2 of the opcode (0, 1 or 3).
pub open spec fn index_row_mode(bbb: u8) -> AddressingMode {
    if bbb == 0 {
        AddressingMode::Immediate
    } else if bbb == 1 {
        AddressingMode::ZeroPage
    } else {
        AddressingMode::Absolute
    }
}

/// CPY is $C0 + 4b, CPX is $E0 + 4b, LDY is $A0 + 4b and LDX is $A2 + 4b,
/// in immediate (b = 0), zero-page (b = 1) or absolute (b = 3) mode.
pub proof fn lemma_index_register_encoding(bbb: u8)
    requires
        bbb == 0 || bbb == 1 || bbb == 3,
    ensures
        opcode_for((0xc0 + 4 * bbb) as u8) is Some,
        (opcode_for((0xc0 + 4 * bbb) as u8)->0).instruction == Instruction::Cpy,
        (opcode_for((0xc0 + 4 * bbb) as u8)->0).mode == index_row_mode(bbb),
        opcode_for((0xe0 + 4 * bbb) as u8) is Some,
        (opcode_for((0xe0 + 4 * bbb) as u8)->0).instruction == Instruction::Cpx,
        (opcode_for((0xe0 + 4 * bbb) as u8)->0).mode == index_row_mode(bbb),
        opcode_for((0xa0 + 4 * bbb) as u8) is Some,
        (opcode_for((0xa0 + 4 * bbb) as u8)->0).instruction == Instruction::Ldy,
        (opcode_for((0xa0 + 4 * bbb) as u8)->0).mode == index_row_mode(bbb),
        opcode_for((0xa2 + 4 * bbb) as u8) is Some,
        (opcode_for((0xa2 + 4 * bbb) as u8)->0).instruction == Instruction::Ldx,
        (opcode_for((0xa2 + 4 * bbb) as u8)->0).mode == index_row_mode(bbb),
{
}

} // verus!
