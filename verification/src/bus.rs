//! The address bus: byte storage for work RAM and the stub register blocks,
//! with the hardware-mandated mirroring semantics.
//!
//! Address decoding, in priority order:
//! - `[0x0000, 0x2000)`: work RAM, mirrored every `0x800` bytes;
//! - `[0x2000, 0x4000)`: graphics register block, 8 registers mirrored every
//!   8 bytes across the whole range;
//! - `[0x4000, 0x4018)`: audio/input register block, flat;
//! - everything above `0x4017` is intentionally unimplemented, so the
//!   contracts below exclude it.
//!
//! The view of a [`Bus`] is the concatenation of the three backing arrays,
//! and [`bus_cell`] maps each decodable address to its index in that view.
//! Mirror images of one another map to the same cell, so aliasing is genuine
//! shared storage, not a recomputed convenience.

use vstd::prelude::*;

verus! {

/// Number of bytes of work RAM.
pub const RAM_SIZE: usize = 0x800;

/// Number of graphics registers.
pub const PPU_SIZE: usize = 8;

/// Number of audio/input registers.
pub const APU_SIZE: usize = 0x18;

/// One past the last address the bus implements.
pub const BUS_LIMIT: usize = 0x4018;

pub struct Bus {
    ram: Vec<u8>,
    ppu: Vec<u8>,
    apu: Vec<u8>,
}

/// Whether `addr` lies in one of the implemented regions.
pub open spec fn bus_addr_ok(addr: int) -> bool {
    0 <= addr < BUS_LIMIT
}

/// The index in the concatenated view that `addr` decodes to.
pub open spec fn bus_cell(addr: int) -> int {
    if addr < 0x2000 {
        addr % 0x800
    } else if addr < 0x4000 {
        0x800 + (addr - 0x2000) % 8
    } else {
        0x808 + (addr - 0x4000)
    }
}

/// The byte an 8-bit read at `addr` returns, given the bus view `v`.
pub open spec fn bus_read_spec(v: Seq<u8>, addr: int) -> u8 {
    v[bus_cell(addr)]
}

impl View for Bus {
    type V = Seq<u8>;

    closed spec fn view(&self) -> Seq<u8> {
        self.ram@ + self.ppu@ + self.apu@
    }
}

impl Bus {
    pub closed spec fn wf(&self) -> bool {
        &&& self.ram@.len() == RAM_SIZE
        &&& self.ppu@.len() == PPU_SIZE
        &&& self.apu@.len() == APU_SIZE
    }

    pub fn new() -> (r: Bus)
        ensures
            r.wf(),
            r@.len() == 0x820,
            forall|i: int| 0 <= i < 0x820 ==> r@[i] == 0u8,
    {
        Bus { ram: vec![0; RAM_SIZE], ppu: vec![0; PPU_SIZE], apu: vec![0; APU_SIZE] }
    }

    pub fn read8(&self, addr: u16) -> (r: u8)
        requires
            self.wf(),
            bus_addr_ok(addr as int),
        ensures
            r == bus_read_spec(self@, addr as int),
    {
        let addr = addr as usize;

        // RAM
        if addr < 0x2000 {
            let addr: usize = addr % 0x800;
            return self.ram[addr];
        }

        // Graphics registers
        if addr < 0x4000 {
            let addr: usize = (addr - 0x2000) % 8;
            return self.ppu[addr];
        }

        // Audio and input registers
        self.apu[addr - 0x4000]
    }

    pub fn write8(&mut self, addr: u16, val: u8)
        requires
            old(self).wf(),
            bus_addr_ok(addr as int),
        ensures
            final(self).wf(),
            final(self)@ == old(self)@.update(bus_cell(addr as int), val),
    {
        let addr = addr as usize;

        if addr < 0x2000 {
            self.ram.set(addr % 0x800, val);
        } else if addr < 0x4000 {
            self.ppu.set((addr - 0x2000) % 8, val);
        } else {
            self.apu.set(addr - 0x4000, val);
        }

        proof {
            assert(self@ =~= old(self)@.update(bus_cell(addr as int), val));
        }
    }

    pub fn read16(&self, addr: u16) -> (r: u16)
        requires
            self.wf(),
            addr as int + 1 < 0x4018,
        ensures
            r == bus_read16_spec(self@, addr as int),
    {
        let l: u16 = self.read8(addr) as u16;
        let h: u16 = self.read8(addr + 1) as u16;
        l | (h << 8)
    }

    pub fn write16(&mut self, addr: u16, val: u16)
        requires
            old(self).wf(),
            addr as int + 1 < 0x4018,
        ensures
            final(self).wf(),
            final(self)@ == bus_write16_spec(old(self)@, addr as int, val),
    {
        proof {
            assert(val & 0xFF < 0x100 && val >> 8 < 0x100) by (bit_vector);
        }
        self.write8(addr, (val & 0xFF) as u8);
        self.write8(addr + 1, (val >> 8) as u8);
    }

    /// Scans for a zero terminator starting at `addr` and returns the bytes
    /// before it, or `None` when every implemented address from `addr` on
    /// holds a non-zero byte (the address space is exhausted first).
    pub fn read_str(&self, addr: u16) -> (r: Option<Vec<u8>>)
        requires
            self.wf(),
        ensures
            r matches Some(s) ==> {
                &&& addr as int + s@.len() < 0x4018
                &&& bus_read_spec(self@, addr as int + s@.len()) == 0
                &&& forall|j: int|
                    0 <= j < s@.len() ==> s@[j] == bus_read_spec(self@, addr as int + j)
                        && s@[j] != 0
            },
            r is None ==> forall|i: int|
                addr as int <= i < 0x4018 ==> bus_read_spec(self@, i) != 0,
    {
        let mut buf: Vec<u8> = Vec::new();
        let mut a: usize = addr as usize;
        while a < 0x4018
            invariant
                self.wf(),
                addr as int <= a as int,
                buf@.len() == a - addr,
                forall|j: int|
                    0 <= j < buf@.len() ==> buf@[j] == bus_read_spec(self@, addr as int + j)
                        && buf@[j] != 0,
            decreases 0x4018 - a,
        {
            let byte = self.read8(a as u16);
            if byte == 0 {
                return Some(buf);
            }
            buf.push(byte);
            a = a + 1;
        }
        proof {
            assert forall|i: int| addr as int <= i < 0x4018 implies bus_read_spec(self@, i) != 0 by {
                let j = i - addr;
                assert(buf@[j] == bus_read_spec(self@, addr as int + j) && buf@[j] != 0);
            }
        }
        None
    }

    pub fn write_buffer(&mut self, addr: u16, buffer: &[u8])
        requires
            old(self).wf(),
            addr as int + buffer@.len() <= 0x4018,
        ensures
            final(self).wf(),
            final(self)@ == bus_write_seq(old(self)@, addr as int, buffer@),
    {
        let ghost orig = self@;
        proof {
            assert(buffer@.skip(0) =~= buffer@);
        }
        let mut i: usize = 0;
        while i < buffer.len()
            invariant
                self.wf(),
                0 <= i <= buffer@.len(),
                addr as int + buffer@.len() <= 0x4018,
                bus_write_seq(self@, addr as int + i, buffer@.skip(i as int))
                    == bus_write_seq(orig, addr as int, buffer@),
            decreases buffer@.len() - i,
        {
            let a: u16 = addr + i as u16;
            proof {
                assert(buffer@.skip(i as int)[0] == buffer@[i as int]);
                assert(buffer@.skip(i as int).skip(1) =~= buffer@.skip(i + 1));
            }
            self.write8(a, buffer[i]);
            i = i + 1;
        }
    }

    pub fn read_buffer(&self, addr: u16, out_buffer: &mut Vec<u8>)
        requires
            self.wf(),
            addr as int + old(out_buffer)@.len() <= 0x4018,
        ensures
            final(out_buffer)@.len() == old(out_buffer)@.len(),
            forall|i: int|
                0 <= i < final(out_buffer)@.len() ==> final(out_buffer)@[i]
                    == bus_read_spec(self@, addr as int + i),
    {
        let n = out_buffer.len();
        let mut i: usize = 0;
        while i < n
            invariant
                self.wf(),
                0 <= i <= n,
                n == out_buffer@.len(),
                addr as int + n <= 0x4018,
                forall|j: int|
                    0 <= j < i ==> out_buffer@[j] == bus_read_spec(self@, addr as int + j),
            decreases n - i,
        {
            let a: u16 = addr + i as u16;
            let byte = self.read8(a);
            out_buffer.set(i, byte);
            i = i + 1;
        }
    }
}

/// The low byte of a 16-bit word.
pub open spec fn low_byte(w: u16) -> u8 {
    (w & 0xFF) as u8
}

/// The high byte of a 16-bit word.
pub open spec fn high_byte(w: u16) -> u8 {
    (w >> 8) as u8
}

/// The little-endian word that two consecutive 8-bit reads assemble.
pub open spec fn combine16(l: u8, h: u8) -> u16 {
    (l as u16) | ((h as u16) << 8)
}

/// What a 16-bit read at `addr` returns: low byte at `addr`, high byte at
/// `addr + 1`, each resolved through the address decoding.
pub open spec fn bus_read16_spec(v: Seq<u8>, addr: int) -> u16 {
    combine16(bus_read_spec(v, addr), bus_read_spec(v, addr + 1))
}

/// The bus view after a 16-bit write at `addr`: two independent byte writes,
/// low byte first.
pub open spec fn bus_write16_spec(v: Seq<u8>, addr: int, val: u16) -> Seq<u8> {
    v.update(bus_cell(addr), low_byte(val)).update(bus_cell(addr + 1), high_byte(val))
}

/// The bus view after writing `data` byte by byte at consecutive addresses
/// starting at `addr`.
pub open spec fn bus_write_seq(v: Seq<u8>, addr: int, data: Seq<u8>) -> Seq<u8>
    decreases data.len(),
{
    if data.len() == 0 {
        v
    } else {
        bus_write_seq(v.update(bus_cell(addr), data[0]), addr + 1, data.skip(1))
    }
}

/// Work-RAM mirroring: a byte written at any address `a` below `0x800` is
/// the byte read back at `a`, `a + 0x800`, `a + 0x1000` and `a + 0x1800`.
pub proof fn lemma_ram_mirrors(v: Seq<u8>, a: int, val: u8)
    requires
        v.len() == 0x820,
        0 <= a < 0x800,
    ensures
        bus_read_spec(v.update(bus_cell(a), val), a) == val,
        bus_read_spec(v.update(bus_cell(a), val), a + 0x800) == val,
        bus_read_spec(v.update(bus_cell(a), val), a + 0x1000) == val,
        bus_read_spec(v.update(bus_cell(a), val), a + 0x1800) == val,
{
    assert(bus_cell(a) == a);
    assert((a + 0x800) % 0x800 == a);
    assert((a + 0x1000) % 0x800 == a);
    assert((a + 0x1800) % 0x800 == a);
}

/// Graphics-register mirroring: a byte written at any address in
/// `[0x2000, 0x4000)` is the byte read back at every address of that range
/// congruent to it modulo 8.
pub proof fn lemma_ppu_mirrors(v: Seq<u8>, a: int, b: int, val: u8)
    requires
        v.len() == 0x820,
        0x2000 <= a < 0x4000,
        0x2000 <= b < 0x4000,
        a % 8 == b % 8,
    ensures
        bus_read_spec(v.update(bus_cell(a), val), b) == val,
{
    assert((a - 0x2000) % 8 == (b - 0x2000) % 8);
}

/// Writing a buffer into the low work RAM touches exactly the cells of its
/// addresses, in order, and nothing else.
pub proof fn lemma_bus_write_seq_low_ram(v: Seq<u8>, addr: int, data: Seq<u8>)
    requires
        v.len() == 0x820,
        0 <= addr,
        addr + data.len() <= 0x800,
    ensures
        bus_write_seq(v, addr, data).len() == v.len(),
        forall|j: int|
            0 <= j < v.len() ==> bus_write_seq(v, addr, data)[j] == (if addr <= j < addr
                + data.len() {
                data[j - addr]
            } else {
                v[j]
            }),
    decreases data.len(),
{
    if data.len() > 0 {
        lemma_bus_write_seq_low_ram(v.update(bus_cell(addr), data[0]), addr + 1, data.skip(1));
        assert(bus_cell(addr) == addr);
        assert forall|j: int|
            0 <= j < v.len() implies bus_write_seq(v, addr, data)[j] == (if addr <= j < addr
            + data.len() {
            data[j - addr]
        } else {
            v[j]
        }) by {
            if addr + 1 <= j < addr + data.len() {
                assert(data.skip(1)[j - addr - 1] == data[j - addr]);
            }
        }
    }
}

/// Writing a zero-free byte string into the low work RAM followed by a zero
/// terminator, then scanning from its start, reads back exactly the string:
/// every byte before the terminator is the byte written, and the terminator
/// is the first zero.
pub proof fn lemma_string_round_trip(v: Seq<u8>, addr: int, data: Seq<u8>)
    requires
        v.len() == 0x820,
        0 <= addr,
        addr + data.len() + 1 <= 0x800,
        forall|j: int| 0 <= j < data.len() ==> data[j] != 0,
    ensures
        ({
            let v2 = bus_write_seq(v, addr, data.push(0));
            &&& forall|j: int|
                0 <= j < data.len() ==> bus_read_spec(v2, addr + j) == data[j] && bus_read_spec(
                    v2,
                    addr + j,
                ) != 0
            &&& bus_read_spec(v2, addr + data.len()) == 0
        }),
{
    lemma_bus_write_seq_low_ram(v, addr, data.push(0));
    let v2 = bus_write_seq(v, addr, data.push(0));
    assert forall|j: int|
        0 <= j < data.len() implies bus_read_spec(v2, addr + j) == data[j] && bus_read_spec(
        v2,
        addr + j,
    ) != 0 by {
        assert(bus_cell(addr + j) == addr + j);
        assert(data.push(0)[j] == data[j]);
    }
    assert(bus_cell(addr + data.len()) == addr + data.len());
    assert(data.push(0)[data.len() as int] == 0);
}

/// A 16-bit write followed by a 16-bit read at the same address returns the
/// original word.
pub proof fn lemma_write16_read16(v: Seq<u8>, addr: int, val: u16)
    requires
        v.len() == 0x820,
        0 <= addr,
        addr + 1 < 0x4018,
    ensures
        bus_read16_spec(bus_write16_spec(v, addr, val), addr) == val,
{
    assert(bus_cell(addr) != bus_cell(addr + 1));
    assert(combine16(low_byte(val), high_byte(val)) == val) by (bit_vector);
}

} // verus!
