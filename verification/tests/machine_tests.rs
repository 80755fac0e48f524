use nes::addr_register::AddrRegister;
use nes::bus::Bus;
use nes::cartridge::{Mirroring, Rom};
use nes::control_register::ControlRegister;
use nes::cpu::{AddressingMode, Mem, CPU};
use nes::opcodes::{lookup, Instruction};
use nes::ppu::PPU;
use nes::semantics::Execution;

fn rom_with(prg_rom: Vec<u8>, mirroring: Mirroring) -> Rom {
    Rom { prg_rom, chr_rom: (0..0x2000u32).map(|i| (i % 251) as u8).collect(), screen_mirroring: mirroring }
}

fn cpu() -> CPU {
    CPU::new(Bus::new(rom_with(vec![1; 0x8000], Mirroring::Vertical)))
}

fn run(program: Vec<u8>) -> (CPU, Execution) {
    let mut cpu = cpu();
    let outcome = cpu.load_and_run(program);
    (cpu, outcome)
}

#[test]
fn new_cpu_power_on_state() {
    let cpu = cpu();
    assert_eq!(cpu.register_a, 0);
    assert_eq!(cpu.status, 0b100100);
    assert_eq!(cpu.stack_pointer, 0xff);
    assert_eq!(cpu.program_counter, 0);
}

#[test]
fn reset_loads_vector_from_rom() {
    let mut prg = vec![0; 0x8000];
    prg[0x7ffc] = 0x34;
    prg[0x7ffd] = 0x12;
    let mut cpu = CPU::new(Bus::new(rom_with(prg, Mirroring::Vertical)));
    cpu.register_a = 9;
    cpu.reset();
    assert_eq!(cpu.program_counter, 0x1234);
    assert_eq!(cpu.register_a, 0);
    assert_eq!(cpu.stack_pointer, 0xfd);
    assert_eq!(cpu.status, 0b100100);
}

#[test]
fn load_copies_program_to_0600() {
    let mut cpu = cpu();
    cpu.load(vec![7, 8, 9]);
    assert_eq!(cpu.mem_read(0x0600), 7);
    assert_eq!(cpu.mem_read(0x0602), 9);
    assert_eq!(cpu.mem_read(0x0603), 0);
}

#[test]
fn brk_halts_with_pc_past_it() {
    let (cpu, outcome) = run(vec![0x00]);
    assert_eq!(outcome, Execution::Halted);
    assert_eq!(cpu.program_counter, 0x0601);
}

#[test]
fn step_reports_progress() {
    let mut cpu = cpu();
    cpu.load(vec![0xe8, 0x00]);
    cpu.program_counter = 0x0600;
    assert_eq!(cpu.step(), Execution::Running);
    assert_eq!(cpu.register_x, 1);
    assert_eq!(cpu.program_counter, 0x0601);
    assert_eq!(cpu.step(), Execution::Halted);
}

#[test]
fn unknown_opcode_faults() {
    let (_, outcome) = run(vec![0x02]);
    assert_eq!(outcome, Execution::Faulted);
    // 0x53 is dispatched to LSR but is not an official opcode.
    let (_, outcome) = run(vec![0x53, 0x10, 0x00]);
    assert_eq!(outcome, Execution::Faulted);
}

#[test]
fn accumulator_shift_through_memory_path_faults() {
    // ASL A is decoded with no memory operand, which the operand address
    // computation refuses.
    let (_, outcome) = run(vec![0xa9, 0x01, 0x0a, 0x00]);
    assert_eq!(outcome, Execution::Faulted);
}

#[test]
fn lsr_accumulator_shifts_and_sets_carry() {
    let (cpu, outcome) = run(vec![0xa9, 0x03, 0x4a, 0x00]);
    assert_eq!(outcome, Execution::Halted);
    assert_eq!(cpu.register_a, 1);
    assert_eq!(cpu.status & 1, 1);
}

#[test]
fn sta_then_lda_zero_page() {
    let (cpu, _) = run(vec![0xa9, 0x42, 0x85, 0x20, 0xa9, 0x00, 0xa5, 0x20, 0x00]);
    assert_eq!(cpu.register_a, 0x42);
}

#[test]
fn indexed_and_indirect_modes() {
    // X = 2; store 0x0300 as a pointer at $12/$13; store 0x77 at $0300;
    // LDA ($10,X) reads it back.
    let program = vec![
        0xa2, 0x02, // LDX #2
        0xa9, 0x00, 0x85, 0x12, // pointer low
        0xa9, 0x03, 0x85, 0x13, // pointer high
        0xa9, 0x77, 0x8d, 0x00, 0x03, // STA $0300
        0xa9, 0x00, 0xa1, 0x10, // LDA ($10,X)
        0x00,
    ];
    let (cpu, outcome) = run(program);
    assert_eq!(outcome, Execution::Halted);
    assert_eq!(cpu.register_a, 0x77);
}

#[test]
fn indirect_indexed_mode() {
    let program = vec![
        0xa0, 0x04, // LDY #4
        0xa9, 0x00, 0x85, 0x20, 0xa9, 0x03, 0x85, 0x21, // ($20) = $0300
        0xa9, 0x5a, 0x8d, 0x04, 0x03, // STA $0304
        0xa9, 0x00, 0xb1, 0x20, // LDA ($20),Y
        0x00,
    ];
    let (cpu, _) = run(program);
    assert_eq!(cpu.register_a, 0x5a);
}

#[test]
fn get_operand_address_modes() {
    let mut cpu = cpu();
    cpu.load(vec![0x10, 0x20]);
    cpu.program_counter = 0x0600;
    cpu.register_x = 0xf5;
    assert_eq!(cpu.get_operand_address(&AddressingMode::Immediate), Some(0x0600));
    assert_eq!(cpu.get_operand_address(&AddressingMode::ZeroPage), Some(0x10));
    // Zero-page indexing wraps within the zero page.
    assert_eq!(cpu.get_operand_address(&AddressingMode::ZeroPage_X), Some(0x05));
    assert_eq!(cpu.get_operand_address(&AddressingMode::Absolute), Some(0x2010));
    assert_eq!(cpu.get_operand_address(&AddressingMode::Absolute_X), Some(0x2105));
    assert_eq!(cpu.get_operand_address(&AddressingMode::NoneAddressing), None);
}

#[test]
fn pha_pla_round_trip_sets_bits_4_and_5() {
    // PHA, as this CPU carries it out, pushes A with bits 4 and 5 set.
    let (cpu, _) = run(vec![0xa9, 0x05, 0x48, 0xa9, 0x00, 0x68, 0x00]);
    assert_eq!(cpu.register_a, 0x35);
    assert_eq!(cpu.stack_pointer, 0xfd);
}

#[test]
fn php_plp_round_trip() {
    let (cpu, _) = run(vec![0x38, 0x08, 0x18, 0x28, 0x00]);
    // SEC; PHP pushes status | 0x30; CLC; PLP restores it without bit 4.
    assert_eq!(cpu.status & 1, 1);
    assert_eq!(cpu.status & 0b0001_0000, 0);
    assert_eq!(cpu.status & 0b0010_0000, 0b0010_0000);
}

#[test]
fn jsr_rts_returns_after_call() {
    let program = vec![
        0x20, 0x06, 0x06, // JSR $0606
        0xe8, // INX
        0x00, // BRK
        0xea, // (padding)
        0xe8, // $0606: INX
        0x60, // RTS
    ];
    let (cpu, outcome) = run(program);
    assert_eq!(outcome, Execution::Halted);
    assert_eq!(cpu.register_x, 2);
    assert_eq!(cpu.stack_pointer, 0xfd);
    assert_eq!(cpu.program_counter, 0x0605);
}

#[test]
fn bne_loop_counts_down() {
    let (cpu, outcome) = run(vec![0xa2, 0x03, 0xca, 0xd0, 0xfd, 0x00]);
    assert_eq!(outcome, Execution::Halted);
    assert_eq!(cpu.register_x, 0);
    assert_eq!(cpu.status & 0b10, 0b10);
}

#[test]
fn branch_not_taken_skips_offset() {
    let (cpu, _) = run(vec![0xa9, 0x01, 0xf0, 0x02, 0xe8, 0x00, 0xe8, 0x00]);
    // BEQ not taken (Z clear): INX at $0604 runs, then BRK.
    assert_eq!(cpu.register_x, 1);
    assert_eq!(cpu.program_counter, 0x0606);
}

#[test]
fn jmp_absolute_and_indirect() {
    let program = vec![
        0x4c, 0x05, 0x06, // $0600: JMP $0605
        0xe8, 0x00, // $0603: skipped
        0xa9, 0x12, 0x85, 0x30, // $0605: ($30) = $12
        0xa9, 0x06, 0x85, 0x31, // $0609: ($31) = $06
        0x6c, 0x30, 0x00, // $060D: JMP ($0030) -> $0612
        0xe8, 0x00, // $0610: skipped
        0xa0, 0x09, 0x00, // $0612: LDY #9; BRK
    ];
    let (cpu, outcome) = run(program);
    assert_eq!(outcome, Execution::Halted);
    assert_eq!(cpu.register_x, 0);
    assert_eq!(cpu.register_y, 9);
}

#[test]
fn jmp_indirect_does_not_cross_page() {
    let mut cpu = cpu();
    // Pointer at $02FF: low byte at $02FF, high byte from $0200.
    cpu.mem_write(0x02ff, 0x34);
    cpu.mem_write(0x0200, 0x12);
    cpu.mem_write(0x0300, 0x56);
    cpu.load(vec![0x6c, 0xff, 0x02]);
    cpu.program_counter = 0x0600;
    assert_eq!(cpu.step(), Execution::Running);
    assert_eq!(cpu.program_counter, 0x1234);
}

#[test]
fn cmp_sets_carry_and_zero() {
    let (cpu, _) = run(vec![0xa9, 0x05, 0xc9, 0x05, 0x00]);
    assert_eq!(cpu.status & 0b11, 0b11);
    let (cpu, _) = run(vec![0xa9, 0x05, 0xc9, 0x06, 0x00]);
    assert_eq!(cpu.status & 0b11, 0);
    assert_eq!(cpu.status & 0x80, 0x80);
    let (cpu, _) = run(vec![0xa2, 0x07, 0xe0, 0x03, 0x00]);
    assert_eq!(cpu.status & 0b11, 0b01);
}

#[test]
fn adc_sets_result_and_carry_and_clears_overflow() {
    let (cpu, _) = run(vec![0xa9, 0x7f, 0x69, 0x01, 0x00]);
    assert_eq!(cpu.register_a, 0x80);
    assert_eq!(cpu.status & 0b0100_0000, 0);
    assert_eq!(cpu.status & 0x80, 0x80);
    assert_eq!(cpu.status & 1, 0);
    let (cpu, _) = run(vec![0x38, 0xa9, 0x80, 0x69, 0x80, 0x00]);
    assert_eq!(cpu.register_a, 0x01);
    assert_eq!(cpu.status & 1, 1);
}

#[test]
fn sbc_fails_when_its_word_sum_overflows() {
    let (_, outcome) = run(vec![0xa9, 0x05, 0xe9, 0x01, 0x00]);
    assert_eq!(outcome, Execution::Faulted);
}

#[test]
fn sbc_with_high_operand() {
    // Operand 0x90: the widened complement is 0x6f; with A = 0x10 and no
    // carry the sum is 0x7f.
    let (cpu, outcome) = run(vec![0xa9, 0x10, 0xe9, 0x90, 0x00]);
    assert_eq!(outcome, Execution::Halted);
    assert_eq!(cpu.register_a, 0x7f);
    assert_eq!(cpu.status & 1, 0);
}

#[test]
fn logic_ops() {
    let (cpu, _) = run(vec![0xa9, 0b1100, 0x29, 0b1010, 0x00]);
    assert_eq!(cpu.register_a, 0b1000);
    let (cpu, _) = run(vec![0xa9, 0b1100, 0x09, 0b1010, 0x00]);
    assert_eq!(cpu.register_a, 0b1110);
    let (cpu, _) = run(vec![0xa9, 0b1100, 0x49, 0b1010, 0x00]);
    assert_eq!(cpu.register_a, 0b0110);
}

#[test]
fn read_modify_write_on_memory() {
    let mut cpu = cpu();
    cpu.mem_write(0x40, 0x81);
    cpu.load_and_run(vec![0x06, 0x40, 0x00]); // ASL $40
    assert_eq!(cpu.mem_read(0x40), 0x02);
    assert_eq!(cpu.status & 1, 1);

    let mut cpu = cpu_with_byte(0x40, 0x81);
    cpu.load_and_run(vec![0x38, 0x66, 0x40, 0x00]); // SEC; ROR $40
    assert_eq!(cpu.mem_read(0x40), 0xc0);
    assert_eq!(cpu.status & 1, 1);

    let mut cpu = cpu_with_byte(0x40, 0x81);
    cpu.load_and_run(vec![0x38, 0x26, 0x40, 0x00]); // SEC; ROL $40
    assert_eq!(cpu.mem_read(0x40), 0x03);

    let mut cpu = cpu_with_byte(0x40, 0x00);
    cpu.load_and_run(vec![0xc6, 0x40, 0x00]); // DEC $40
    assert_eq!(cpu.mem_read(0x40), 0xff);
    assert_eq!(cpu.status & 0x80, 0x80);

    let mut cpu = cpu_with_byte(0x40, 0xff);
    cpu.load_and_run(vec![0xe6, 0x40, 0x00]); // INC $40
    assert_eq!(cpu.mem_read(0x40), 0x00);
    assert_eq!(cpu.status & 0b10, 0b10);
}

fn cpu_with_byte(addr: u16, value: u8) -> CPU {
    let mut cpu = cpu();
    cpu.mem_write(addr, value);
    cpu
}

#[test]
fn transfers_and_counters() {
    let (cpu, _) = run(vec![0xa9, 0x09, 0xa8, 0x88, 0x98, 0xaa, 0x9a, 0xba, 0xc8, 0x00]);
    // A=9, TAY Y=9, DEY Y=8, TYA A=8, TAX X=8, TXS S=8, TSX X=8, INY Y=9
    assert_eq!(cpu.register_a, 8);
    assert_eq!(cpu.register_x, 8);
    assert_eq!(cpu.register_y, 9);
    assert_eq!(cpu.stack_pointer, 8);
}

#[test]
fn flag_instructions() {
    let (cpu, _) = run(vec![0xf8, 0x78, 0x38, 0x00]);
    assert_eq!(cpu.status & 0b1101, 0b1101);
    // CLD, CLI and CLV, as this CPU carries them out, clear bits of A.
    let (cpu, _) = run(vec![0xa9, 0xff, 0xd8, 0x58, 0xb8, 0x00]);
    assert_eq!(cpu.register_a, 0b1011_0011);
}

#[test]
fn stx_sty_load_from_memory() {
    let mut cpu = cpu_with_byte(0x50, 0x3c);
    cpu.load_and_run(vec![0x86, 0x50, 0x84, 0x50, 0x00]);
    assert_eq!(cpu.register_x, 0x3c);
    assert_eq!(cpu.register_y, 0x3c);
    assert_eq!(cpu.mem_read(0x50), 0x3c);
}

#[test]
fn bit_changes_accumulator() {
    let mut cpu = cpu_with_byte(0x50, 0xc0);
    cpu.load_and_run(vec![0xa9, 0xc1, 0x24, 0x50, 0x00]);
    // A & M = 0xc0: bit 0 cleared, bits 6 and 7 set.
    assert_eq!(cpu.register_a, 0xc0);
}

#[test]
fn rti_pops_status_only() {
    let (cpu, _) = run(vec![0xa9, 0xff, 0x48, 0x40, 0x00]);
    // PHA pushes 0xff; RTI pops it, clears bit 5 and sets bit 4.
    assert_eq!(cpu.status, 0b1101_1111);
}

#[test]
fn reading_write_only_register_faults() {
    let (_, outcome) = run(vec![0xad, 0x00, 0x20, 0x00]);
    assert_eq!(outcome, Execution::Faulted);
}

#[test]
fn writing_rom_faults() {
    let (mut cpu, outcome) = run(vec![0x8d, 0x00, 0x80, 0x00]);
    assert_eq!(outcome, Execution::Faulted);
    assert_eq!(cpu.mem_read(0x8000), 1);
}

#[test]
fn ram_write_read_through_mirrors() {
    let mut bus = Bus::new(rom_with(vec![0; 0x8000], Mirroring::Vertical));
    bus.mem_write(0x0123, 7);
    assert_eq!(bus.mem_read(0x0123), 7);
    assert_eq!(bus.mem_read(0x0923), 7);
    assert_eq!(bus.mem_read(0x1123), 7);
    assert_eq!(bus.mem_read(0x1923), 7);
    // RAM writes above $07FF are not served.
    assert!(!bus.is_writable(0x0923));
    assert!(bus.is_writable(0x07ff));
}

#[test]
fn word_access() {
    let mut bus = Bus::new(rom_with(vec![0; 0x8000], Mirroring::Vertical));
    bus.mem_write_u16(0x0010, 0xbeef);
    assert_eq!(bus.mem_read(0x0010), 0xef);
    assert_eq!(bus.mem_read(0x0011), 0xbe);
    assert_eq!(bus.mem_read_u16(0x0010), 0xbeef);
}

#[test]
fn refused_accesses() {
    let bus = Bus::new(rom_with(vec![0; 0x8000], Mirroring::Vertical));
    for addr in [0x2000u16, 0x2001, 0x2003, 0x2005, 0x2006, 0x4014, 0x2008, 0x3ffe] {
        assert!(!bus.is_readable(addr), "{:x}", addr);
    }
    assert!(bus.is_readable(0x2002));
    assert!(bus.is_readable(0x4000));
    assert!(!bus.is_writable(0x8000));
    assert!(!bus.is_writable(0xffff));
}

#[test]
fn unused_addresses_read_zero() {
    let mut bus = Bus::new(rom_with(vec![9; 0x8000], Mirroring::Vertical));
    assert_eq!(bus.mem_read(0x2002), 0);
    assert_eq!(bus.mem_read(0x5000), 0);
}

#[test]
fn prg_rom_16k_is_mirrored() {
    let prg: Vec<u8> = (0..0x4000u32).map(|i| (i % 255) as u8).collect();
    let mut bus = Bus::new(rom_with(prg, Mirroring::Vertical));
    assert_eq!(bus.mem_read(0x8005), 5);
    assert_eq!(bus.mem_read(0xc005), 5);
    assert_eq!(bus.mem_read(0xffff), bus.mem_read(0xbfff));
}

#[test]
fn short_prg_rom_is_not_readable_past_its_end() {
    let bus = Bus::new(rom_with(vec![0; 0x100], Mirroring::Vertical));
    assert!(bus.is_readable(0x80ff));
    assert!(!bus.is_readable(0x8100));
}

#[test]
fn ppu_address_latch_and_buffered_vram() {
    let mut bus = Bus::new(rom_with(vec![0; 0x8000], Mirroring::Vertical));
    bus.mem_write(0x2006, 0x23);
    bus.mem_write(0x2006, 0x05);
    bus.mem_write(0x2007, 0x66);
    // Point at $2B05, which vertical mirroring maps onto $2305.
    bus.mem_write(0x200e, 0x2b); // mirror of $2006
    bus.mem_write(0x2006, 0x05);
    assert_eq!(bus.mem_read(0x2007), 0); // the buffer from before
    bus.mem_write(0x2006, 0x2b);
    bus.mem_write(0x2006, 0x05);
    assert_eq!(bus.mem_read(0x3fff), 0x66); // mirror of $2007: previous read
}

#[test]
fn ppu_chr_reads_are_buffered_palette_reads_are_not() {
    let mut ppu = PPU::new(vec![10, 11, 12, 13], Mirroring::Horizontal);
    ppu.write_to_addr(0x00);
    ppu.write_to_addr(0x01);
    assert_eq!(ppu.read_data(), 0);
    assert_eq!(ppu.read_data(), 11);
    assert_eq!(ppu.read_data(), 12);
    ppu.write_to_addr(0x3f);
    ppu.write_to_addr(0x02);
    ppu.write_to_data(0x2a);
    ppu.write_to_addr(0x3f);
    ppu.write_to_addr(0x02);
    assert_eq!(ppu.read_data(), 0x2a);
}

#[test]
fn ppu_increment_of_32() {
    let mut ppu = PPU::new(vec![0; 0x2000], Mirroring::Horizontal);
    ppu.write_to_ctrl(0b100);
    ppu.write_to_addr(0x20);
    ppu.write_to_addr(0x00);
    ppu.write_to_data(1);
    ppu.write_to_data(2); // lands at $2020
    ppu.write_to_ctrl(0);
    ppu.write_to_addr(0x20);
    ppu.write_to_addr(0x20);
    ppu.read_data();
    assert_eq!(ppu.read_data(), 2);
    assert_eq!(ppu.vram[0x20], 2);
    assert_eq!(ppu.vram[0x00], 1);
}

#[test]
fn ppu_refuses_unused_space() {
    let mut ppu = PPU::new(vec![0; 0x2000], Mirroring::Vertical);
    ppu.write_to_addr(0x30);
    ppu.write_to_addr(0x00);
    assert!(!ppu.can_read_data());
    assert!(!ppu.can_write_data());
    ppu.write_to_addr(0x3f);
    ppu.write_to_addr(0x20);
    assert!(!ppu.can_read_data());
    ppu.write_to_addr(0x3f);
    ppu.write_to_addr(0x1f);
    assert!(ppu.can_read_data());
}

#[test]
fn mirror_vram_addr_values() {
    let v = PPU::new(vec![], Mirroring::Vertical);
    assert_eq!(v.mirror_vram_addr(0x2000), 0x000);
    assert_eq!(v.mirror_vram_addr(0x2400), 0x400);
    assert_eq!(v.mirror_vram_addr(0x2800), 0x000);
    assert_eq!(v.mirror_vram_addr(0x2c05), 0x405);
    let h = PPU::new(vec![], Mirroring::Horizontal);
    assert_eq!(h.mirror_vram_addr(0x2000), 0x000);
    assert_eq!(h.mirror_vram_addr(0x2400), 0x000);
    assert_eq!(h.mirror_vram_addr(0x2800), 0x400);
    assert_eq!(h.mirror_vram_addr(0x2c05), 0x405);
    let f = PPU::new(vec![], Mirroring::FourScreen);
    assert_eq!(f.mirror_vram_addr(0x2c05), 0xc05);
    // The $3000 range folds onto the name tables.
    assert_eq!(v.mirror_vram_addr(0x3405), 0x405);
}

#[test]
fn four_screen_upper_tables_are_not_served() {
    let mut ppu = PPU::new(vec![], Mirroring::FourScreen);
    ppu.write_to_addr(0x28);
    ppu.write_to_addr(0x00);
    assert!(!ppu.can_read_data());
    ppu.write_to_addr(0x24);
    ppu.write_to_addr(0x00);
    assert!(ppu.can_read_data());
}

#[test]
fn addr_register_latch_and_wrap() {
    let mut r = AddrRegister::new();
    assert_eq!(r.get(), 0);
    r.update(0xff);
    r.update(0xff);
    assert_eq!(r.get(), 0x3fff);
    r.increment(1);
    assert_eq!(r.get(), 0);
    r.update(0x12);
    r.update(0xf0);
    assert_eq!(r.get(), 0x12f0);
    r.increment(0x20);
    assert_eq!(r.get(), 0x1310);
    r.update(0x01);
    r.reset_latch();
    r.update(0x05);
    assert_eq!(r.get(), 0x0510);
}

#[test]
fn control_register_increment() {
    let mut c = ControlRegister::new();
    assert_eq!(c.vram_addr_increment(), 1);
    c.update(0b0000_0100);
    assert_eq!(c.vram_addr_increment(), 32);
    c.update(0b1111_1011);
    assert_eq!(c.vram_addr_increment(), 1);
}

#[test]
fn opcode_table_entries() {
    let lda = lookup(0xa9).unwrap();
    assert_eq!(lda.instruction, Instruction::Lda);
    assert_eq!(lda.len, 2);
    assert_eq!(lda.mode, AddressingMode::Immediate);
    let jmp = lookup(0x6c).unwrap();
    assert_eq!(jmp.instruction, Instruction::JmpIndirect);
    assert_eq!(jmp.len, 3);
    assert_eq!(lookup(0x00).unwrap().instruction, Instruction::Brk);
    assert!(lookup(0x53).is_none());
    assert!(lookup(0x5e).is_none());
    let count = (0..=255u8).filter(|c| lookup(*c).is_some()).count();
    assert_eq!(count, 150);
}

#[test]
fn zero_and_negative_flags_leave_other_bits() {
    let (cpu, _) = run(vec![0x38, 0xa9, 0x80, 0x00]);
    assert_eq!(cpu.status, 0b1010_0101);
    let (cpu, _) = run(vec![0x38, 0xa9, 0x00, 0x00]);
    assert_eq!(cpu.status, 0b0010_0111);
}
