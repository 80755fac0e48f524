//! The picture-processing unit as seen from the CPU: its memories, its
//! address and control registers, and the buffered data port ($2007).
use vstd::prelude::*;

use crate::addr_register::{addr_after_increment, addr_after_write, AddrRegister, AddrView};
use crate::cartridge::Mirroring;
use crate::control_register::{increment_for, ControlRegister};

verus! {

/// Everything the PPU holds, as mathematical values.
#[verifier::ext_equal]
pub struct PpuView {
    pub chr_rom: Seq<u8>,
    pub vram: Seq<u8>,
    pub palette_table: Seq<u8>,
    pub oam_data: Seq<u8>,
    pub mirroring: Mirroring,
    pub addr: AddrView,
    pub ctrl: u8,
    pub data_buffer: u8,
}

/// Index into the 2 KiB of name-table RAM that a PPU address in the name
/// table space ($2000..$2FFF, and its mirror up to $3FFF) selects under the
/// cartridge's mirroring.
pub open spec fn vram_index(mirroring: Mirroring, addr: u16) -> int {
    let index: int = (addr & 0x2fffu16) - 0x2000;
    let nametable = index / 0x400;
    match mirroring {
        Mirroring::Vertical => if nametable == 2 || nametable == 3 {
            index - 0x800
        } else {
            index
        },
        Mirroring::Horizontal => if nametable == 1 || nametable == 2 {
            index - 0x400
        } else if nametable == 3 {
            index - 0x800
        } else {
            index
        },
        Mirroring::FourScreen => index,
    }
}

/// Whether a read of $2007 is served: character ROM must hold the address,
/// a name-table address must land in the 2 KiB of VRAM, and a palette
/// address must fall within the 32 palette bytes; $3000..$3EFF is unused.
pub open spec fn ppu_can_read(p: PpuView) -> bool {
    let a = p.addr.value;
    if a <= 0x1fff {
        a < p.chr_rom.len()
    } else if a <= 0x2fff {
        0 <= vram_index(p.mirroring, a) < 0x800
    } else if a <= 0x3eff {
        false
    } else if a <= 0x3fff {
        a - 0x3f00 < 32
    } else {
        false
    }
}

/// The PPU with its address advanced past one data access.
pub open spec fn ppu_advanced(p: PpuView) -> PpuView {
    PpuView { addr: addr_after_increment(p.addr, increment_for(p.ctrl)), ..p }
}

/// A read of $2007: the new PPU state and the byte returned. Character ROM
/// and name-table reads return the byte buffered by the previous read and
/// buffer the byte now addressed; palette reads return the palette byte
/// directly. Either way the address advances.
pub open spec fn ppu_read(p: PpuView) -> (PpuView, u8) {
    let a = p.addr.value;
    let q = ppu_advanced(p);
    if a <= 0x1fff {
        (PpuView { data_buffer: p.chr_rom[a as int], ..q }, p.data_buffer)
    } else if a <= 0x2fff {
        (PpuView { data_buffer: p.vram[vram_index(p.mirroring, a)], ..q }, p.data_buffer)
    } else {
        (q, p.palette_table[a - 0x3f00])
    }
}

/// Whether a write to $2007 is served: the same addresses as for a read,
/// except that writes into character ROM are accepted and dropped.
pub open spec fn ppu_can_write(p: PpuView) -> bool {
    let a = p.addr.value;
    if a <= 0x1fff {
        true
    } else if a <= 0x2fff {
        0 <= vram_index(p.mirroring, a) < 0x800
    } else if a <= 0x3eff {
        false
    } else if a <= 0x3fff {
        a - 0x3f00 < 32
    } else {
        false
    }
}

/// A write of `value` to $2007: name-table and palette bytes are stored,
/// character ROM is left alone, and the address advances.
pub open spec fn ppu_after_write(p: PpuView, value: u8) -> PpuView {
    let a = p.addr.value;
    let q = ppu_advanced(p);
    if a <= 0x1fff {
        q
    } else if a <= 0x2fff {
        PpuView { vram: p.vram.update(vram_index(p.mirroring, a), value), ..q }
    } else {
        PpuView { palette_table: p.palette_table.update(a - 0x3f00, value), ..q }
    }
}

/// The PPU a cartridge starts with: its character ROM and mirroring, all
/// RAM cleared, address 0 with the latch on the high byte, control clear.
pub open spec fn ppu_initial(chr_rom: Seq<u8>, mirroring: Mirroring) -> PpuView {
    PpuView {
        chr_rom,
        vram: Seq::new(2048, |i: int| 0u8),
        palette_table: Seq::new(32, |i: int| 0u8),
        oam_data: Seq::new(256, |i: int| 0u8),
        mirroring,
        addr: AddrView { value: 0, hi_ptr: true },
        ctrl: 0,
        data_buffer: 0,
    }
}

proof fn lemma_nametable_address(addr: u16)
    requires
        0x2000 <= addr <= 0x2fff,
    ensures
        addr & 0x2fffu16 == addr,
{
    assert(addr & 0x2fffu16 == addr) by (bit_vector)
        requires
            0x2000 <= addr <= 0x2fff,
    ;
}

/// Reads of character ROM and name tables are buffered: a read answers the
/// byte buffered by the previous read and buffers the addressed byte. A
/// palette read answers the palette byte at once.
pub proof fn lemma_buffered_read(p: PpuView)
    requires
        ppu_can_read(p),
    ensures
        p.addr.value <= 0x1fff ==> ppu_read(p).1 == p.data_buffer && ppu_read(p).0.data_buffer
            == p.chr_rom[p.addr.value as int],
        0x2000 <= p.addr.value <= 0x2fff ==> ppu_read(p).1 == p.data_buffer
            && ppu_read(p).0.data_buffer == p.vram[vram_index(p.mirroring, p.addr.value)],
        0x3f00 <= p.addr.value ==> ppu_read(p).1 == p.palette_table[p.addr.value - 0x3f00]
            && ppu_read(p).0.data_buffer == p.data_buffer,
        ppu_read(p).0.addr == addr_after_increment(p.addr, increment_for(p.ctrl)),
{
}

/// A byte written to a name table through the data port is what a read of
/// the same address buffers.
pub proof fn lemma_vram_write_then_read(p: PpuView, value: u8)
    requires
        0x2000 <= p.addr.value <= 0x2fff,
        ppu_can_write(p),
        p.vram.len() == 2048,
    ensures
        ppu_can_read(PpuView { addr: p.addr, ..ppu_after_write(p, value) }),
        ppu_read(PpuView { addr: p.addr, ..ppu_after_write(p, value) }).0.data_buffer == value,
{
}

/// Vertical mirroring shares $2000 with $2800 and $2400 with $2C00;
/// horizontal mirroring shares $2000 with $2400 and $2800 with $2C00.
/// Either way every name-table address lands in the 2 KiB of VRAM.
pub proof fn lemma_nametable_mirroring(addr: u16)
    requires
        0x2000 <= addr < 0x2400,
    ensures
        vram_index(Mirroring::Vertical, addr) == vram_index(Mirroring::Vertical, (addr + 0x800) as u16),
        vram_index(Mirroring::Vertical, (addr + 0x400) as u16) == vram_index(
            Mirroring::Vertical,
            (addr + 0xc00) as u16,
        ),
        vram_index(Mirroring::Horizontal, addr) == vram_index(
            Mirroring::Horizontal,
            (addr + 0x400) as u16,
        ),
        vram_index(Mirroring::Horizontal, (addr + 0x800) as u16) == vram_index(
            Mirroring::Horizontal,
            (addr + 0xc00) as u16,
        ),
        forall|k: u16|
            0 <= k < 4 ==> 0 <= #[trigger] vram_index(Mirroring::Vertical, (addr + k * 0x400) as u16)
                < 0x800 && 0 <= vram_index(Mirroring::Horizontal, (addr + k * 0x400) as u16) < 0x800,
{
    lemma_nametable_address(addr);
    lemma_nametable_address((addr + 0x400) as u16);
    lemma_nametable_address((addr + 0x800) as u16);
    lemma_nametable_address((addr + 0xc00) as u16);
    assert forall|k: u16| 0 <= k < 4 implies 0 <= #[trigger] vram_index(
        Mirroring::Vertical,
        (addr + k * 0x400) as u16,
    ) < 0x800 && 0 <= vram_index(Mirroring::Horizontal, (addr + k * 0x400) as u16) < 0x800 by {
        lemma_nametable_address((addr + k * 0x400) as u16);
    }
}

/// Every data-port access, read or write, advances the PPU address by 32
/// when bit 2 of the control register is set and by 1 otherwise, wrapping
/// within the 14-bit space; the latch and the control flags stay.
pub proof fn lemma_data_access_advances(p: PpuView, v: u8)
    ensures
        ppu_read(p).0.addr.value == (p.addr.value + (if p.ctrl & 0b100 != 0 {
            32int
        } else {
            1int
        })) % 0x4000,
        ppu_after_write(p, v).addr.value == (p.addr.value + (if p.ctrl & 0b100 != 0 {
            32int
        } else {
            1int
        })) % 0x4000,
        ppu_read(p).0.addr.hi_ptr == p.addr.hi_ptr,
        ppu_after_write(p, v).addr.hi_ptr == p.addr.hi_ptr,
        ppu_read(p).0.ctrl == p.ctrl,
        ppu_after_write(p, v).ctrl == p.ctrl,
{
}

/// A palette byte written through the data port is read straight back, and
/// writes leave character ROM as it was.
pub proof fn lemma_palette_write_then_read(p: PpuView, value: u8)
    requires
        0x3f00 <= p.addr.value,
        ppu_can_write(p),
        p.palette_table.len() == 32,
    ensures
        ppu_can_read(PpuView { addr: p.addr, ..ppu_after_write(p, value) }),
        ppu_read(PpuView { addr: p.addr, ..ppu_after_write(p, value) }).1 == value,
        ppu_after_write(p, value).chr_rom == p.chr_rom,
{
}

/// A write into character ROM space is accepted and changes no memory.
pub proof fn lemma_chr_write_dropped(p: PpuView, value: u8)
    requires
        p.addr.value <= 0x1fff,
    ensures
        ppu_can_write(p),
        ppu_after_write(p, value).chr_rom == p.chr_rom,
        ppu_after_write(p, value).vram == p.vram,
        ppu_after_write(p, value).palette_table == p.palette_table,
        ppu_after_write(p, value).data_buffer == p.data_buffer,
{
}

/// The picture-processing unit: character ROM, name-table RAM, palette,
/// sprite memory, and the registers the CPU drives it through.
pub struct PPU {
    pub chr_rom: Vec<u8>,
    pub vram: [u8; 2048],
    pub palette_table: [u8; 32],
    pub oam_data: [u8; 256],
    pub mirroring: Mirroring,
    addr: AddrRegister,
    ctrl: ControlRegister,
    internal_dat_buf: u8,
}

impl View for PPU {
    type V = PpuView;

    closed spec fn view(&self) -> PpuView {
        PpuView {
            chr_rom: self.chr_rom@,
            vram: self.vram@,
            palette_table: self.palette_table@,
            oam_data: self.oam_data@,
            mirroring: self.mirroring,
            addr: self.addr@,
            ctrl: self.ctrl@,
            data_buffer: self.internal_dat_buf,
        }
    }
}

impl PPU {
    /// VRAM is 2 KiB, the palette 32 bytes and OAM 256 bytes.
    pub proof fn lemma_sizes(&self)
        ensures
            self@.vram.len() == 2048,
            self@.palette_table.len() == 32,
            self@.oam_data.len() == 256,
    {
    }

    /// A PPU for a cartridge with character ROM `chr_rom` wired with
    /// `mirroring` (see `ppu_initial`).
    pub fn new(chr_rom: Vec<u8>, mirroring: Mirroring) -> (ppu: Self)
        ensures
            ppu@ == ppu_initial(chr_rom@, mirroring),
    {
        let ppu = PPU {
            chr_rom: chr_rom,
            vram: [0;2048],
            palette_table: [0;32],
            oam_data: [0;256],
            mirroring: mirroring,
            addr: AddrRegister::new(),
            ctrl: ControlRegister::new(),
            internal_dat_buf: 0,
        };
        assert(ppu.vram@ =~= Seq::new(2048, |i: int| 0u8));
        assert(ppu.palette_table@ =~= Seq::new(32, |i: int| 0u8));
        assert(ppu.oam_data@ =~= Seq::new(256, |i: int| 0u8));
        ppu
    }

    /// Takes a CPU write to the address register ($2006).
    pub fn write_to_addr(&mut self, data: u8)
        ensures
            final(self)@ == (PpuView { addr: addr_after_write(old(self)@.addr, data), ..old(self)@ }),
    {
        self.addr.update(data);
    }

    /// Takes a CPU write to the control register ($2000).
    pub fn write_to_ctrl(&mut self, data: u8)
        ensures
            final(self)@ == (PpuView { ctrl: data, ..old(self)@ }),
    {
        self.ctrl.update(data);
    }

    fn vram_addr_increment(&mut self)
        ensures
            final(self)@ == ppu_advanced(old(self)@),
    {
        let inc = self.ctrl.vram_addr_increment();
        self.addr.increment(inc);
    }

    /// Takes a CPU read of the data port ($2007).
    pub fn read_data(&mut self) -> (data: u8)
        requires
            ppu_can_read(old(self)@),
        ensures
            final(self)@ == ppu_read(old(self)@).0,
            data == ppu_read(old(self)@).1,
    {
        let addr = self.addr.get();
        self.vram_addr_increment();
        match addr {
            0..=0x1fff => {
                let result = self.internal_dat_buf;
                self.internal_dat_buf = self.chr_rom[addr as usize];
                result
            },
            0x2000..=0x2fff => {
                let result = self.internal_dat_buf;
                let index = self.mirror_vram_addr(addr);
                self.internal_dat_buf = self.vram[index as usize];
                result
            },
            // The precondition leaves only the palette, $3F00..$3F1F.
            _ => self.palette_table[(addr - 0x3f00) as usize],
        }
    }

    /// Takes a CPU write to the data port ($2007).
    pub fn write_to_data(&mut self, value: u8)
        requires
            ppu_can_write(old(self)@),
        ensures
            final(self)@ == ppu_after_write(old(self)@, value),
    {
        let addr = self.addr.get();
        match addr {
            // Character ROM cannot be written: the byte is dropped.
            0..=0x1fff => {},
            0x2000..=0x2fff => {
                let index = self.mirror_vram_addr(addr);
                self.vram[index as usize] = value;
            },
            // The precondition leaves only the palette, $3F00..$3F1F.
            _ => {
                self.palette_table[(addr - 0x3f00) as usize] = value;
            },
        }
        self.vram_addr_increment();
    }

    /// Whether a read of the data port would be served (see `ppu_can_read`).
    pub fn can_read_data(&self) -> (r: bool)
        ensures
            r == ppu_can_read(self@),
    {
        let a = self.addr.get();
        if a <= 0x1fff {
            (a as usize) < self.chr_rom.len()
        } else if a <= 0x2fff {
            proof {
                lemma_nametable_address(a);
            }
            self.mirror_vram_addr(a) < 0x800
        } else if a <= 0x3eff {
            false
        } else if a <= 0x3fff {
            a - 0x3f00 < 32
        } else {
            false
        }
    }

    /// Whether a write to the data port would be served (see `ppu_can_write`).
    pub fn can_write_data(&self) -> (r: bool)
        ensures
            r == ppu_can_write(self@),
    {
        let a = self.addr.get();
        if a <= 0x1fff {
            true
        } else if a <= 0x2fff {
            proof {
                lemma_nametable_address(a);
            }
            self.mirror_vram_addr(a) < 0x800
        } else if a <= 0x3eff {
            false
        } else if a <= 0x3fff {
            a - 0x3f00 < 32
        } else {
            false
        }
    }

    /// The VRAM index a name-table address maps to under the cartridge's
    /// mirroring. With vertical or horizontal mirroring it always falls in
    /// the 2 KiB of VRAM.
    pub fn mirror_vram_addr(&self, addr: u16) -> (index: u16)
        requires
            0x2000 <= addr & 0x2fffu16,
        ensures
            index == vram_index(self@.mirroring, addr),
            index < 0x1000,
            self@.mirroring != Mirroring::FourScreen ==> index < 0x800,
    {
        let mirrored_vram = addr & 0x2fff;
        assert(mirrored_vram <= 0x2fff) by (bit_vector)
            requires
                mirrored_vram == addr & 0x2fffu16,
        ;
        let vram_index = mirrored_vram - 0x2000;
        let nametable = vram_index / 0x400;
        match (&self.mirroring, nametable) {
            (Mirroring::Vertical, 2) | (Mirroring::Vertical, 3) => vram_index - 0x800,
            (Mirroring::Horizontal, 2) => vram_index - 0x400,
            (Mirroring::Horizontal, 1) => vram_index - 0x400,
            (Mirroring::Horizontal, 3) => vram_index - 0x800,
            _ => vram_index,
        }
    }
}

} // verus!
