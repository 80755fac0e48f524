//! The CPU's memory bus: 2 KiB of work RAM, the PPU registers and the
//! cartridge's program ROM, each at its place in the 16-bit address space.
use vstd::prelude::*;

use crate::addr_register::{addr_after_write, lemma_address_latch, AddrView};
use crate::cartridge::Rom;
use crate::cpu::Mem;
use crate::ppu::{
    ppu_after_write, ppu_can_read, ppu_can_write, ppu_initial, ppu_read, PpuView, PPU,
};

verus! {

const RAM: u16 = 0x0000;

const RAM_MIRRORS_END: u16 = 0x1fff;

const PPU_REGISTERS: u16 = 0x2000;

const PPU_REGISTERS_READABLE_START: u16 = 0x2008;

const PPU_REGISTERS_MIRRORS_END: u16 = 0x3fff;

const PPU_DATA_REGISTER: u16 = 0x2007;

const PPU_ADDRESS_REGISTER: u16 = 0x2006;

const PPU_CTRL_REGISTER: u16 = 0x2000;

const PPU_SCROLL_REGISTER: u16 = 0x2005;

/// Everything the bus holds, as mathematical values.
#[verifier::ext_equal]
pub struct BusView {
    pub cpu_vram: Seq<u8>,
    pub prg_rom: Seq<u8>,
    pub ppu: PpuView,
}

/// The address a CPU access lands on once the eight PPU registers, which
/// repeat every 8 bytes over $2008..$3FFF, are mirrored down to $2000..$2007.
pub open spec fn mirror_down(addr: u16) -> u16 {
    if 0x2008 <= addr <= 0x3fff {
        (0x2000 + addr % 8) as u16
    } else {
        addr
    }
}

/// The PPU registers that cannot be read ($2000, $2001, $2003, $2005,
/// $2006) and the OAM DMA port ($4014).
pub open spec fn is_write_only(addr: u16) -> bool {
    addr == 0x2000 || addr == 0x2001 || addr == 0x2003 || addr == 0x2005 || addr == 0x2006
        || addr == 0x4014
}

/// Offset into program ROM for an address in $8000..$FFFF: a single 16 KiB
/// bank is mirrored into both halves of the space.
pub open spec fn prg_index(len: nat, addr: u16) -> int {
    let offset: int = addr - 0x8000;
    if len == 0x4000 && offset >= 0x4000 {
        offset % 0x4000
    } else {
        offset
    }
}

/// Whether a CPU read of `addr` is served: not a write-only register, a
/// data-port read the PPU can serve, and a program-ROM address inside the
/// ROM.
pub closed spec fn bus_can_read(b: BusView, addr: u16) -> bool {
    let a = mirror_down(addr);
    if a <= 0x1fff {
        true
    } else if is_write_only(a) {
        false
    } else if a == 0x2007 {
        ppu_can_read(b.ppu)
    } else if a >= 0x8000 {
        prg_index(b.prg_rom.len(), a) < b.prg_rom.len()
    } else {
        true
    }
}

/// A CPU read of `addr`: the bus afterwards and the byte read. Work RAM
/// repeats every 2 KiB up to $1FFF, the data port goes to the PPU, program
/// ROM answers $8000..$FFFF, and every other address reads as 0.
pub closed spec fn bus_read(b: BusView, addr: u16) -> (BusView, u8) {
    let a = mirror_down(addr);
    if a <= 0x1fff {
        (b, b.cpu_vram[(a % 0x800) as int])
    } else if a == 0x2007 {
        (BusView { ppu: ppu_read(b.ppu).0, ..b }, ppu_read(b.ppu).1)
    } else if a >= 0x8000 {
        (b, b.prg_rom[prg_index(b.prg_rom.len(), a)])
    } else {
        (b, 0)
    }
}

/// Whether a CPU write of `addr` is served. RAM writes are stored at the
/// address itself, so only the first 2 KiB of the RAM range can be
/// written; the data port must accept the write; program ROM is read-only.
pub closed spec fn bus_can_write(b: BusView, addr: u16) -> bool {
    let a = mirror_down(addr);
    if a <= 0x1fff {
        a < 0x800
    } else if a == 0x2007 {
        ppu_can_write(b.ppu)
    } else if a >= 0x8000 {
        false
    } else {
        true
    }
}

/// The bus after a CPU write of `data` to `addr`: RAM stores it, $2000 sets
/// the PPU control flags, $2006 feeds the PPU address register, $2007 goes
/// to the PPU data port, and every other address ignores the write.
pub closed spec fn bus_write(b: BusView, addr: u16, data: u8) -> BusView {
    let a = mirror_down(addr);
    if a <= 0x1fff {
        BusView { cpu_vram: b.cpu_vram.update(a as int, data), ..b }
    } else if a == 0x2000 {
        BusView { ppu: PpuView { ctrl: data, ..b.ppu }, ..b }
    } else if a == 0x2006 {
        BusView { ppu: PpuView { addr: addr_after_write(b.ppu.addr, data), ..b.ppu }, ..b }
    } else if a == 0x2007 {
        BusView { ppu: ppu_after_write(b.ppu, data), ..b }
    } else {
        b
    }
}

/// Whether a little-endian word can be read at `pos`: both bytes are
/// readable, the second after the first has been read.
pub open spec fn bus_can_read_u16(b: BusView, pos: u16) -> bool {
    &&& pos < 0xffff
    &&& bus_can_read(b, pos)
    &&& bus_can_read(bus_read(b, pos).0, (pos + 1) as u16)
}

/// A little-endian word read at `pos`: low byte first, then high byte.
pub open spec fn bus_read_u16(b: BusView, pos: u16) -> (BusView, u16) {
    let first = bus_read(b, pos);
    let second = bus_read(first.0, (pos + 1) as u16);
    (second.0, (second.1 * 256 + first.1) as u16)
}

/// Whether `data` can be written as a little-endian word at `pos`.
pub open spec fn bus_can_write_u16(b: BusView, pos: u16, data: u16) -> bool {
    &&& pos < 0xffff
    &&& bus_can_write(b, pos)
    &&& bus_can_write(bus_write(b, pos, (data % 256) as u8), (pos + 1) as u16)
}

/// The bus after `data` is written as a little-endian word at `pos`.
pub open spec fn bus_write_u16(b: BusView, pos: u16, data: u16) -> BusView {
    bus_write(bus_write(b, pos, (data % 256) as u8), (pos + 1) as u16, (data / 256) as u8)
}

/// The bus a cartridge starts with.
pub open spec fn bus_initial(prg_rom: Seq<u8>, chr_rom: Seq<u8>, mirroring: crate::cartridge::Mirroring) -> BusView {
    BusView {
        cpu_vram: Seq::new(2048, |i: int| 0u8),
        prg_rom,
        ppu: ppu_initial(chr_rom, mirroring),
    }
}

/// The first 2 KiB of the address space are plain RAM: always readable and
/// writable, a read returns the stored byte and changes nothing, and a
/// write stores the byte and changes nothing else.
pub proof fn lemma_ram_access(b: BusView, addr: u16)
    requires
        addr < 0x800,
    ensures
        bus_can_read(b, addr),
        bus_can_write(b, addr),
        bus_read(b, addr) == (b, b.cpu_vram[addr as int]),
        forall|d: u8|
            #[trigger] bus_write(b, addr, d) == (BusView {
                cpu_vram: b.cpu_vram.update(addr as int, d),
                ..b
            }),
{
}

/// Reads of program ROM ($8000 and up) do not depend on work RAM, and do
/// not change it.
pub proof fn lemma_rom_ignores_ram(b: BusView, ram: Seq<u8>, addr: u16)
    requires
        addr >= 0x8000,
    ensures
        bus_can_read(BusView { cpu_vram: ram, ..b }, addr) == bus_can_read(b, addr),
        bus_read(BusView { cpu_vram: ram, ..b }, addr) == (
        BusView { cpu_vram: ram, ..bus_read(b, addr).0 },
        bus_read(b, addr).1,
        ),
{
}

/// A byte written to work RAM is read back at its address and at each of
/// its mirrors every 2 KiB up to $1FFF.
pub proof fn lemma_ram_read_after_write(b: BusView, addr: u16, mirror: u16, data: u8)
    requires
        addr < 0x800,
        mirror <= 0x1fff,
        mirror % 0x800 == addr,
        b.cpu_vram.len() == 2048,
    ensures
        bus_can_write(b, addr),
        bus_can_read(bus_write(b, addr, data), mirror),
        bus_read(bus_write(b, addr, data), mirror).1 == data,
{
}

/// Reading never changes work RAM.
pub proof fn lemma_read_keeps_ram(b: BusView, addr: u16)
    ensures
        bus_read(b, addr).0.cpu_vram == b.cpu_vram,
        bus_read(b, addr).0.prg_rom == b.prg_rom,
{
}

/// The cartridge's ROMs never change under any read or write.
pub proof fn lemma_accesses_keep_roms(b: BusView, addr: u16, data: u8)
    ensures
        bus_read(b, addr).0.prg_rom == b.prg_rom,
        bus_read(b, addr).0.ppu.chr_rom == b.ppu.chr_rom,
        bus_write(b, addr, data).prg_rom == b.prg_rom,
        bus_write(b, addr, data).ppu.chr_rom == b.ppu.chr_rom,
{
}

/// `lemma_read_keeps_ram` for every bus state and address at once.
pub proof fn lemma_all_reads_keep_ram()
    ensures
        forall|b: BusView, addr: u16| (#[trigger] bus_read(b, addr)).0.cpu_vram == b.cpu_vram,
{
}

/// `lemma_accesses_keep_roms` for every bus state and address at once.
pub proof fn lemma_all_accesses_keep_roms()
    ensures
        forall|b: BusView, addr: u16|
            (#[trigger] bus_read(b, addr)).0.prg_rom == b.prg_rom && bus_read(b, addr).0.ppu.chr_rom
                == b.ppu.chr_rom,
        forall|b: BusView, addr: u16, data: u8|
            (#[trigger] bus_write(b, addr, data)).prg_rom == b.prg_rom && bus_write(
                b,
                addr,
                data,
            ).ppu.chr_rom == b.ppu.chr_rom,
{
}

/// Served reads and writes keep the sizes of work RAM, VRAM and the palette.
pub proof fn lemma_accesses_keep_sizes(b: BusView, addr: u16, data: u8)
    requires
        b.cpu_vram.len() == 2048,
        b.ppu.vram.len() == 2048,
        b.ppu.palette_table.len() == 32,
    ensures
        bus_read(b, addr).0.cpu_vram.len() == 2048,
        bus_read(b, addr).0.ppu.vram.len() == 2048,
        bus_read(b, addr).0.ppu.palette_table.len() == 32,
        bus_can_write(b, addr) ==> bus_write(b, addr, data).cpu_vram.len() == 2048,
        bus_can_write(b, addr) ==> bus_write(b, addr, data).ppu.vram.len() == 2048,
        bus_can_write(b, addr) ==> bus_write(b, addr, data).ppu.palette_table.len() == 32,
{
}

/// Work RAM repeats every 2 KiB over $0000..$1FFF.
pub proof fn lemma_ram_mirrors(b: BusView, addr: u16)
    requires
        addr <= 0x1fff,
    ensures
        bus_can_read(b, addr),
        bus_read(b, addr) == bus_read(b, (addr % 0x800) as u16),
{
}

/// The eight PPU registers repeat every 8 bytes over $2008..$3FFF, for
/// reads and for writes.
pub proof fn lemma_ppu_register_mirrors(b: BusView, addr: u16, data: u8)
    requires
        0x2008 <= addr <= 0x3fff,
    ensures
        bus_can_read(b, addr) == bus_can_read(b, (0x2000 + addr % 8) as u16),
        bus_read(b, addr) == bus_read(b, (0x2000 + addr % 8) as u16),
        bus_can_write(b, addr) == bus_can_write(b, (0x2000 + addr % 8) as u16),
        bus_write(b, addr, data) == bus_write(b, (0x2000 + addr % 8) as u16, data),
{
}

/// A single 16 KiB bank of program ROM answers both $8000..$BFFF and
/// $C000..$FFFF.
pub proof fn lemma_prg_rom_mirror(b: BusView, offset: u16)
    requires
        b.prg_rom.len() == 0x4000,
        offset < 0x4000,
    ensures
        bus_can_read(b, (0x8000 + offset) as u16),
        bus_can_read(b, (0xc000 + offset) as u16),
        bus_read(b, (0xc000 + offset) as u16) == bus_read(b, (0x8000 + offset) as u16),
        bus_read(b, (0x8000 + offset) as u16).1 == b.prg_rom[offset as int],
{
}

/// The write-only PPU registers (and their mirrors) and the DMA port cannot
/// be read, and program ROM cannot be written.
pub proof fn lemma_refused_accesses(b: BusView, addr: u16)
    ensures
        is_write_only(mirror_down(addr)) ==> !bus_can_read(b, addr),
        addr >= 0x8000 ==> !bus_can_write(b, addr),
{
}

/// Two CPU writes to $2006, high byte first, point the PPU at that 14-bit
/// address and leave the latch ready for the next high byte.
pub proof fn lemma_ppu_address_writes(b: BusView, hi: u8, lo: u8)
    requires
        b.ppu.addr.hi_ptr,
    ensures
        bus_write(bus_write(b, 0x2006, hi), 0x2006, lo).ppu.addr == (AddrView {
            value: ((hi * 256 + lo) % 0x4000) as u16,
            hi_ptr: true,
        }),
{
    lemma_address_latch(b.ppu.addr, hi, lo);
}

/// A CPU write of `d` to the control register $2000, or to any of its
/// mirrors $2008 + 8k, sets the PPU control flags to `d` and leaves the
/// PPU address, its memories and work RAM alone.
pub proof fn lemma_control_register_write(b: BusView, k: u16, d: u8)
    requires
        k < 0x400,
    ensures
        bus_can_write(b, (0x2000 + 8 * k) as u16),
        bus_write(b, (0x2000 + 8 * k) as u16, d).ppu.ctrl == d,
        bus_write(b, (0x2000 + 8 * k) as u16, d).ppu.addr == b.ppu.addr,
        bus_write(b, (0x2000 + 8 * k) as u16, d).ppu.vram == b.ppu.vram,
        bus_write(b, (0x2000 + 8 * k) as u16, d).ppu.palette_table == b.ppu.palette_table,
        bus_write(b, (0x2000 + 8 * k) as u16, d).ppu.data_buffer == b.ppu.data_buffer,
        bus_write(b, (0x2000 + 8 * k) as u16, d).cpu_vram == b.cpu_vram,
{
    assert((0x2000 + 8 * k) % 8 == 0) by (nonlinear_arith);
}

/// CPU accesses to the data port $2007, or any of its mirrors $2007 + 8k,
/// are served exactly when the PPU serves them, and go to the PPU: a read
/// answers the PPU's byte, a write hands the byte to the PPU, and nothing
/// else on the bus changes.
pub proof fn lemma_data_port_access(b: BusView, k: u16, d: u8)
    requires
        k < 0x400,
    ensures
        bus_can_read(b, (0x2007 + 8 * k) as u16) == ppu_can_read(b.ppu),
        bus_read(b, (0x2007 + 8 * k) as u16).1 == ppu_read(b.ppu).1,
        bus_read(b, (0x2007 + 8 * k) as u16).0 == (BusView { ppu: ppu_read(b.ppu).0, ..b }),
        bus_can_write(b, (0x2007 + 8 * k) as u16) == ppu_can_write(b.ppu),
        bus_write(b, (0x2007 + 8 * k) as u16, d) == (BusView { ppu: ppu_after_write(b.ppu, d), ..b }),
{
    assert((0x2007 + 8 * k) % 8 == 7) by (nonlinear_arith);
}

/// A CPU write to the address register $2006 (or a mirror) feeds the PPU
/// address register and changes nothing else.
pub proof fn lemma_address_register_write(b: BusView, k: u16, d: u8)
    requires
        k < 0x400,
    ensures
        bus_can_write(b, (0x2006 + 8 * k) as u16),
        bus_write(b, (0x2006 + 8 * k) as u16, d) == (BusView {
            ppu: PpuView { addr: addr_after_write(b.ppu.addr, d), ..b.ppu },
            ..b
        }),
{
    assert((0x2006 + 8 * k) % 8 == 6) by (nonlinear_arith);
}

/// Writes to the scroll register ($2005) and to $2001..$2004 (and their
/// mirrors), and to $4000..$7FFF, change nothing on the bus.
pub proof fn lemma_ignored_writes(b: BusView, addr: u16, d: u8)
    requires
        (0x2000 <= addr <= 0x3fff && 1 <= addr % 8 <= 5) || (0x4000 <= addr < 0x8000),
    ensures
        bus_can_write(b, addr),
        bus_write(b, addr, d) == b,
{
}


/// The CPU's bus: work RAM, the PPU, and the cartridge's program ROM.
pub struct Bus {
    cpu_vram: [u8; 2048],
    prg_rom: Vec<u8>,
    ppu: PPU,
}

impl View for Bus {
    type V = BusView;

    closed spec fn view(&self) -> BusView {
        BusView { cpu_vram: self.cpu_vram@, prg_rom: self.prg_rom@, ppu: self.ppu@ }
    }
}

proof fn lemma_register_mirror(addr: u16)
    requires
        0x2008 <= addr <= 0x3fff,
    ensures
        addr & 0b0010_0000_0000_0111u16 == 0x2000 + addr % 8,
{
    assert(addr & 0b0010_0000_0000_0111u16 == 0x2000 + addr % 8) by (bit_vector)
        requires
            0x2008 <= addr <= 0x3fff,
    ;
}

proof fn lemma_ram_mirror(addr: u16)
    ensures
        addr & 0x7ffu16 == addr % 0x800,
        addr & 0b1111_1111_1111_1111u16 == addr,
{
    assert(addr & 0x7ffu16 == addr % 0x800) by (bit_vector);
    assert(addr & 0b1111_1111_1111_1111u16 == addr) by (bit_vector);
}

impl Bus {
    /// Work RAM and VRAM are 2 KiB each, the palette 32 bytes.
    pub proof fn lemma_sizes(&self)
        ensures
            self@.cpu_vram.len() == 2048,
            self@.ppu.vram.len() == 2048,
            self@.ppu.palette_table.len() == 32,
    {
        self.ppu.lemma_sizes();
    }

    /// A bus for the cartridge `rom`, with work RAM cleared.
    pub fn new(rom: Rom) -> (bus: Bus)
        ensures
            bus@ == bus_initial(rom.prg_rom@, rom.chr_rom@, rom.screen_mirroring),
    {
        let ppu = PPU::new(rom.chr_rom, rom.screen_mirroring);
        let bus = Bus { cpu_vram: [0;2048], prg_rom: rom.prg_rom, ppu: ppu };
        assert(bus.cpu_vram@ =~= Seq::new(2048, |i: int| 0u8));
        bus
    }

    fn read_prg_rom(&self, addr: u16) -> (data: u8)
        requires
            0x8000 <= addr,
            prg_index(self@.prg_rom.len(), addr) < self@.prg_rom.len(),
        ensures
            data == self@.prg_rom[prg_index(self@.prg_rom.len(), addr)],
    {
        let mut offset = addr - 0x8000;
        if self.prg_rom.len() == 0x4000 && offset >= 0x4000 {
            offset = offset % 0x4000;
        }
        self.prg_rom[offset as usize]
    }

    /// Whether a read of `addr` would be served (see `bus_can_read`).
    pub fn is_readable(&self, addr: u16) -> (r: bool)
        ensures
            r == bus_can_read(self@, addr),
    {
        let a = self.mirror_down(addr);
        if a <= RAM_MIRRORS_END {
            true
        } else if a == PPU_REGISTERS || a == 0x2001 || a == 0x2003 || a == 0x2005 || a == 0x2006
            || a == 0x4014 {
            false
        } else if a == PPU_DATA_REGISTER {
            self.ppu.can_read_data()
        } else if a >= 0x8000 {
            let offset = a - 0x8000;
            if self.prg_rom.len() == 0x4000 && offset >= 0x4000 {
                ((offset % 0x4000) as usize) < self.prg_rom.len()
            } else {
                (offset as usize) < self.prg_rom.len()
            }
        } else {
            true
        }
    }

    /// Whether a write to `addr` would be served (see `bus_can_write`).
    pub fn is_writable(&self, addr: u16) -> (r: bool)
        ensures
            r == bus_can_write(self@, addr),
    {
        let a = self.mirror_down(addr);
        if a <= RAM_MIRRORS_END {
            a < 0x800
        } else if a == PPU_DATA_REGISTER {
            self.ppu.can_write_data()
        } else {
            a < 0x8000
        }
    }

    fn mirror_down(&self, addr: u16) -> (a: u16)
        ensures
            a == mirror_down(addr),
    {
        if PPU_REGISTERS_READABLE_START <= addr && addr <= PPU_REGISTERS_MIRRORS_END {
            proof {
                lemma_register_mirror(addr);
            }
            addr & 0b0010_0000_0000_0111
        } else {
            addr
        }
    }
}

impl Mem for Bus {
    open spec fn readable(&self, addr: u16) -> bool {
        bus_can_read(self@, addr)
    }

    open spec fn writable(&self, addr: u16) -> bool {
        bus_can_write(self@, addr)
    }

    open spec fn readable_u16(&self, pos: u16) -> bool {
        bus_can_read_u16(self@, pos)
    }

    open spec fn writable_u16(&self, pos: u16, data: u16) -> bool {
        bus_can_write_u16(self@, pos, data)
    }

    fn mem_read(&mut self, addr: u16) -> (data: u8)
        ensures
            final(self)@ == bus_read(old(self)@, addr).0,
            data == bus_read(old(self)@, addr).1,
    {
        // $2008..$3FFF repeats the eight PPU registers.
        let addr = self.mirror_down(addr);
        match addr {
            RAM..=RAM_MIRRORS_END => {
                let mirror_down_addr = addr & 0x7FF;
                proof {
                    lemma_ram_mirror(addr);
                }
                self.cpu_vram[mirror_down_addr as usize]
            },
            PPU_DATA_REGISTER => self.ppu.read_data(),
            0x8000..=0xffff => self.read_prg_rom(addr),
            // The precondition rules out the write-only registers; every
            // other address reads as 0.
            _ => 0,
        }
    }

    fn mem_write(&mut self, addr: u16, data: u8)
        ensures
            final(self)@ == bus_write(old(self)@, addr, data),
    {
        // $2008..$3FFF repeats the eight PPU registers.
        let addr = self.mirror_down(addr);
        match addr {
            RAM..=RAM_MIRRORS_END => {
                let mirror_down_addr = addr & 0b1111_1111_1111_1111;
                proof {
                    lemma_ram_mirror(addr);
                }
                self.cpu_vram[mirror_down_addr as usize] = data;
            },
            PPU_CTRL_REGISTER => self.ppu.write_to_ctrl(data),
            PPU_SCROLL_REGISTER => {},
            PPU_ADDRESS_REGISTER => self.ppu.write_to_addr(data),
            PPU_DATA_REGISTER => self.ppu.write_to_data(data),
            // The precondition rules out program ROM; every other address
            // ignores the write.
            _ => {},
        }
    }

    fn mem_read_u16(&mut self, pos: u16) -> (data: u16)
        ensures
            final(self)@ == bus_read_u16(old(self)@, pos).0,
            data == bus_read_u16(old(self)@, pos).1,
    {
        let lo = self.mem_read(pos) as u16;
        let hi = self.mem_read(pos + 1) as u16;
        proof {
            crate::cpu::lemma_word(hi as u8, lo as u8);
        }
        (hi << 8) | lo
    }

    fn mem_write_u16(&mut self, pos: u16, data: u16)
        ensures
            final(self)@ == bus_write_u16(old(self)@, pos, data),
    {
        let lo = (data & 0xff) as u8;
        let hi = (data >> 8) as u8;
        proof {
            crate::cpu::lemma_split(data);
        }
        self.mem_write(pos, lo);
        self.mem_write(pos + 1, hi)
    }
}

} // verus!
