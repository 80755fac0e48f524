//! The PPU address register ($2006): a 14-bit address written one byte at
//! a time, high byte first.
use vstd::prelude::*;

verus! {

/// What the address register holds: the current address and whether the
/// next write goes to the high byte.
pub struct AddrView {
    pub value: u16,
    pub hi_ptr: bool,
}

/// The register after a CPU write of `data` to $2006: the byte picked by the
/// latch is replaced, the address is kept within the PPU's 14-bit space,
/// and the latch flips.
pub open spec fn addr_after_write(r: AddrView, data: u8) -> AddrView {
    let combined: int = if r.hi_ptr {
        data * 256 + r.value % 256
    } else {
        (r.value / 256) * 256 + data
    };
    AddrView { value: (combined % 0x4000) as u16, hi_ptr: !r.hi_ptr }
}

/// The register after the address advances by `inc`, wrapping within the
/// 14-bit space; the latch is untouched.
pub open spec fn addr_after_increment(r: AddrView, inc: u8) -> AddrView {
    AddrView { value: ((r.value + inc) % 0x4000) as u16, hi_ptr: r.hi_ptr }
}

/// Two writes, high byte first, set the address to those two bytes (kept
/// within 14 bits) and bring the latch back to the high byte.
pub proof fn lemma_address_latch(r: AddrView, hi: u8, lo: u8)
    requires
        r.hi_ptr,
    ensures
        addr_after_write(addr_after_write(r, hi), lo) == (AddrView {
            value: ((hi * 256 + lo) % 0x4000) as u16,
            hi_ptr: true,
        }),
{
    let first = addr_after_write(r, hi);
    let v: int = (hi * 256 + r.value % 256) % 0x4000;
    assert(first.value == v);
    assert((v / 256) * 256 + lo == (hi * 256 + lo) % 0x4000) by (nonlinear_arith)
        requires
            v == (hi * 256 + r.value % 256) % 0x4000,
            0 <= r.value % 256 < 256,
            0 <= hi < 256,
            0 <= lo < 256,
    ;
}

/// The address register: high byte, low byte, and the write latch.
pub struct AddrRegister {
    value: (u8, u8),
    hi_ptr: bool,
}

impl View for AddrRegister {
    type V = AddrView;

    closed spec fn view(&self) -> AddrView {
        AddrView { value: (self.value.0 * 256 + self.value.1) as u16, hi_ptr: self.hi_ptr }
    }
}

proof fn lemma_word(hi: u8, lo: u8)
    ensures
        ((hi as u16) << 8u16) | (lo as u16) == hi * 256 + lo,
{
    assert(((hi as u16) << 8u16) | (lo as u16) == hi * 256 + lo) by (bit_vector);
}

proof fn lemma_split(data: u16)
    ensures
        ((data >> 8u16) as u8) * 256 + ((data & 0xffu16) as u8) == data,
{
    assert(((data >> 8u16) as u8) * 256 + ((data & 0xffu16) as u8) == data) by (bit_vector);
}

proof fn lemma_mask14(v: u16)
    ensures
        v & 0x3fffu16 == v % 0x4000,
        v <= 0x3fff ==> v % 0x4000 == v,
{
    assert(v & 0x3fffu16 == v % 0x4000) by (bit_vector);
}

impl AddrRegister {
    /// A register holding address 0 with the latch on the high byte.
    pub fn new() -> (r: Self)
        ensures
            r@ == (AddrView { value: 0, hi_ptr: true }),
    {
        AddrRegister { value: (0, 0), hi_ptr: true }
    }

    fn set(&mut self, data: u16)
        ensures
            final(self)@ == (AddrView { value: data, hi_ptr: old(self).hi_ptr }),
    {
        self.value.0 = (data >> 8) as u8;
        self.value.1 = (data & 0xff) as u8;
        proof {
            lemma_split(data);
        }
    }

    /// Takes one byte written by the CPU to $2006.
    pub fn update(&mut self, data: u8)
        ensures
            final(self)@ == addr_after_write(old(self)@, data),
            final(self)@.value <= 0x3fff,
    {
        proof {
            let h = self.value.0;
            let l = self.value.1;
            assert((h * 256 + l) % 256 == l && (h * 256 + l) / 256 == h) by (nonlinear_arith)
                requires
                    h < 256,
                    l < 256,
            ;
        }
        if self.hi_ptr {
            self.value.0 = data;
        } else {
            self.value.1 = data;
        }
        let v = self.get();
        proof {
            lemma_mask14(v);
        }
        if v > 0x3fff {
            self.set(v & 0b11111111111111);
        }
        self.hi_ptr = !self.hi_ptr;
    }

    /// Advances the address by `inc`, carrying into the high byte and
    /// wrapping within the 14-bit space.
    pub fn increment(&mut self, inc: u8)
        ensures
            final(self)@ == addr_after_increment(old(self)@, inc),
            final(self)@.value <= 0x3fff,
    {
        let lo = self.value.1;
        let hi = self.value.0;
        self.value.1 = self.value.1.wrapping_add(inc);
        if lo > self.value.1 {
            self.value.0 = self.value.0.wrapping_add(1);
        }
        let v = self.get();
        proof {
            lemma_mask14(v);
            let l2 = self.value.1;
            let h2 = self.value.0;
            assert(v == (hi * 256 + lo + inc) % 0x10000) by (nonlinear_arith)
                requires
                    hi < 256,
                    lo < 256,
                    inc < 256,
                    l2 == (if lo + inc > 255 { lo + inc - 256 } else { lo + inc as int }),
                    h2 == (if lo > l2 { if hi + 1 > 255 { hi + 1 - 256 } else { hi + 1 } } else { hi as int }),
                    v == h2 * 256 + l2,
            ;
            assert(((hi * 256 + lo + inc) % 0x10000) % 0x4000 == (hi * 256 + lo + inc) % 0x4000)
                by (nonlinear_arith)
                requires
                    hi * 256 + lo + inc >= 0,
            ;
        }
        if v > 0x3fff {
            self.set(v & 0b11111111111111);
        }
    }

    /// Resets the write latch so the next write goes to the high byte.
    pub fn reset_latch(&mut self)
        ensures
            final(self)@ == (AddrView { value: old(self)@.value, hi_ptr: true }),
    {
        self.hi_ptr = true;
    }

    /// The current address.
    pub fn get(&self) -> (addr: u16)
        ensures
            addr == self@.value,
    {
        proof {
            lemma_word(self.value.0, self.value.1);
        }
        ((self.value.0 as u16) << 8) | (self.value.1 as u16)
    }
}

} // verus!
