//! The flat memory image: one byte array covering the whole 16-bit address
//! space, with the mirroring of work RAM and of the graphics registers kept
//! consistent by writing every image through on each store.
//!
//! Reads normalise a mirrored address to the first image of its congruence
//! class before indexing; writes store the byte at every image of the
//! class, so a write at any image is read back at every one. The view of a
//! [`Memory`] is the raw byte array, [`mem_read_spec`] says what a read
//! returns and [`mem_write_spec`] what a write leaves behind.

use vstd::prelude::*;

verus! {

/// Number of bytes in the full 16-bit address space.
pub const MEM_SIZE: usize = 0x10000;

pub struct Memory {
    data: Vec<u8>,
}

/// The byte an 8-bit read at `addr` returns, given the raw bytes `v`: a
/// mirrored address reads the first image of its congruence class.
pub open spec fn mem_read_spec(v: Seq<u8>, addr: u16) -> u8 {
    if 0x800 <= addr < 0x2000 {
        v[addr as int % 0x800]
    } else if 0x2000 <= addr < 0x4000 {
        v[0x2000 + (addr - 0x2000) % 8]
    } else {
        v[addr as int]
    }
}

/// The raw bytes after storing `val` at every graphics-register mirror image
/// from index `s` upward, in steps of 8.
pub open spec fn ppu_fill(v: Seq<u8>, s: int, val: u8) -> Seq<u8>
    decreases (if s < 0x4000 { 0x4000 - s } else { 0 }),
{
    if s < 0x4000 {
        ppu_fill(v.update(s, val), s + 8, val)
    } else {
        v
    }
}

/// The raw bytes after an 8-bit write of `val` at `addr`.
pub open spec fn mem_write_spec(v: Seq<u8>, addr: u16, val: u8) -> Seq<u8> {
    let v1 = v.update(addr as int, val);
    if 0x800 <= addr < 0x2000 {
        let r = addr as int % 0x800;
        v1.update(r, val).update(r + 0x800, val).update(r + 0x1000, val).update(r + 0x1800, val)
    } else if 0x2000 <= addr < 0x4000 {
        ppu_fill(v1, 0x2000 + (addr - 0x2000) % 8, val)
    } else {
        v1
    }
}

impl View for Memory {
    type V = Seq<u8>;

    closed spec fn view(&self) -> Seq<u8> {
        self.data@
    }
}

impl Memory {
    pub closed spec fn wf(&self) -> bool {
        self.data@.len() == MEM_SIZE
    }

    pub fn new() -> (r: Memory)
        ensures
            r.wf(),
            r@.len() == MEM_SIZE,
            forall|i: int| 0 <= i < MEM_SIZE ==> r@[i] == 0u8,
    {
        let mut buffer: Vec<u8> = Vec::new();
        buffer.resize(MEM_SIZE, 0);
        Memory { data: buffer }
    }

    /// Builds the memory image from an initial byte buffer, padded with
    /// zeroes (or cut off) to cover the whole address space.
    pub fn from_buffer(initial: Vec<u8>) -> (r: Memory)
        ensures
            r.wf(),
            r@.len() == MEM_SIZE,
            forall|i: int|
                0 <= i < MEM_SIZE ==> r@[i] == (if i < initial@.len() {
                    initial@[i]
                } else {
                    0u8
                }),
    {
        let mut initial = initial;
        let ghost orig = initial@;
        initial.resize(MEM_SIZE, 0);
        proof {
            if MEM_SIZE <= orig.len() {
                assert(forall|i: int|
                    0 <= i < MEM_SIZE ==> initial@[i] == orig.subrange(0, MEM_SIZE as int)[i]);
            } else {
                assert(forall|i: int|
                    0 <= i < orig.len() ==> initial@[i] == initial@.subrange(0, orig.len() as int)[i]);
            }
        }
        Memory { data: initial }
    }

    pub fn read8(&self, addr: u16) -> (r: u8)
        requires
            self.wf(),
        ensures
            r == mem_read_spec(self@, addr),
    {
        let addr = addr as usize;

        // Mirror images of the work RAM
        if addr >= 0x800 && addr < 0x2000 {
            let addr: usize = addr % 0x800;
            return self.data[addr];
        }

        // Mirror images of the graphics registers
        if addr >= 0x2000 && addr < 0x4000 {
            let addr: usize = 0x2000 + (addr - 0x2000) % 8;
            return self.data[addr];
        }

        self.data[addr]
    }

    pub fn write8(&mut self, addr: u16, val: u8)
        requires
            old(self).wf(),
        ensures
            final(self).wf(),
            final(self)@ == mem_write_spec(old(self)@, addr, val),
    {
        let addr = addr as usize;
        self.data.set(addr, val);

        // Mirror images of the work RAM
        if addr >= 0x800 && addr < 0x2000 {
            let addr: usize = addr % 0x800;
            self.data.set(addr, val);
            self.data.set(addr + 0x800, val);
            self.data.set(addr + 0x1000, val);
            self.data.set(addr + 0x1800, val);
            return;
        }

        // Mirror images of the graphics registers
        if addr >= 0x2000 && addr < 0x4000 {
            let ghost v1 = self.data@;
            let mut s: usize = 0x2000 + (addr - 0x2000) % 8;
            let ghost s0 = s as int;
            while s < 0x4000
                invariant
                    self.data@.len() == MEM_SIZE,
                    s0 <= s as int,
                    s < 0x4000 + 8,
                    ppu_fill(self.data@, s as int, val) == ppu_fill(v1, s0, val),
                decreases (if s < 0x4000 { 0x4000 - s as int } else { 0 }),
            {
                self.data.set(s, val);
                s = s + 8;
            }
            return;
        }

        self.data.set(addr, val);
    }

    pub fn read16(&self, addr: u16) -> (r: u16)
        requires
            self.wf(),
        ensures
            r == mem_read16_spec(self@, addr),
    {
        let l: u16 = self.read8(addr) as u16;
        let h: u16 = self.read8(addr.wrapping_add(1)) as u16;
        l | (h << 8)
    }

    pub fn write16(&mut self, addr: u16, val: u16)
        requires
            old(self).wf(),
        ensures
            final(self).wf(),
            final(self)@ == mem_write16_spec(old(self)@, addr, val),
    {
        proof {
            assert(val & 0xFF < 0x100 && val >> 8 < 0x100) by (bit_vector);
        }
        self.write8(addr, (val & 0xFF) as u8);
        self.write8(addr.wrapping_add(1), (val >> 8) as u8);
    }

    /// Scans the raw bytes for a zero terminator starting at `addr` and
    /// returns the bytes before it, or `None` when the address space is
    /// exhausted before a terminator is found.
    pub fn read_str(&self, addr: usize) -> (r: Option<Vec<u8>>)
        requires
            self.wf(),
            addr <= MEM_SIZE,
        ensures
            r matches Some(s) ==> {
                &&& addr + s@.len() < MEM_SIZE
                &&& self@[addr + s@.len()] == 0
                &&& forall|j: int| 0 <= j < s@.len() ==> s@[j] == self@[addr + j] && s@[j] != 0
            },
            r is None ==> forall|i: int| addr <= i < MEM_SIZE ==> self@[i] != 0,
    {
        let mut buf: Vec<u8> = Vec::new();
        let mut a: usize = addr;
        while a < MEM_SIZE
            invariant
                self.wf(),
                addr as int <= a as int,
                buf@.len() == a - addr,
                forall|j: int| 0 <= j < buf@.len() ==> buf@[j] == self@[addr + j] && buf@[j] != 0,
            decreases MEM_SIZE - a,
        {
            let byte = self.data[a];
            if byte == 0 {
                return Some(buf);
            }
            buf.push(byte);
            a = a + 1;
        }
        proof {
            assert forall|i: int| addr <= i < MEM_SIZE implies self@[i] != 0 by {
                let j = i - addr;
                assert(buf@[j] == self@[addr + j] && buf@[j] != 0);
            }
        }
        None
    }

    pub fn write_buffer(&mut self, addr: u16, buffer: &[u8])
        requires
            old(self).wf(),
            addr as int + buffer@.len() <= MEM_SIZE,
        ensures
            final(self).wf(),
            final(self)@ == mem_write_seq(old(self)@, addr, buffer@),
    {
        let ghost orig = self@;
        proof {
            assert(buffer@.skip(0) =~= buffer@);
        }
        let mut i: usize = 0;
        while i < buffer.len()
            invariant
                self.wf(),
                0 <= i <= buffer@.len(),
                addr as int + buffer@.len() <= MEM_SIZE,
                mem_write_seq(self@, (addr + i) as u16, buffer@.skip(i as int))
                    == mem_write_seq(orig, addr, buffer@),
            decreases buffer@.len() - i,
        {
            let a: u16 = addr + i as u16;
            proof {
                assert(buffer@.skip(i as int)[0] == buffer@[i as int]);
                assert(buffer@.skip(i as int).skip(1) =~= buffer@.skip(i + 1));
            }
            self.write8(a, buffer[i]);
            i = i + 1;
        }
    }

    pub fn read_buffer(&self, addr: u16, out_buffer: &mut Vec<u8>)
        requires
            self.wf(),
            addr as int + old(out_buffer)@.len() <= MEM_SIZE,
        ensures
            final(out_buffer)@.len() == old(out_buffer)@.len(),
            forall|i: int|
                0 <= i < final(out_buffer)@.len() ==> final(out_buffer)@[i]
                    == mem_read_spec(self@, (addr + i) as u16),
    {
        let n = out_buffer.len();
        let mut i: usize = 0;
        while i < n
            invariant
                self.wf(),
                0 <= i <= n,
                n == out_buffer@.len(),
                addr as int + n <= MEM_SIZE,
                forall|j: int|
                    0 <= j < i ==> out_buffer@[j] == mem_read_spec(self@, (addr + j) as u16),
            decreases n - i,
        {
            let a: u16 = addr + i as u16;
            let byte = self.read8(a);
            out_buffer.set(i, byte);
            i = i + 1;
        }
    }
}

/// The little-endian word assembled from a low and a high byte.
pub open spec fn mem_combine16(l: u8, h: u8) -> u16 {
    (l as u16) | ((h as u16) << 8)
}

/// The address one past `addr`, wrapping at the top of the 16-bit space.
pub open spec fn wrap_inc(addr: u16) -> u16 {
    (((addr + 1) as int) % 0x10000) as u16
}

/// What a 16-bit read at `addr` returns: low byte at `addr`, high byte at
/// the next address, which wraps at the top of the space as two independent
/// byte reads do.
pub open spec fn mem_read16_spec(v: Seq<u8>, addr: u16) -> u16 {
    mem_combine16(mem_read_spec(v, addr), mem_read_spec(v, wrap_inc(addr)))
}

/// The raw bytes after a 16-bit write at `addr`: two independent byte
/// writes, low byte first.
pub open spec fn mem_write16_spec(v: Seq<u8>, addr: u16, val: u16) -> Seq<u8> {
    mem_write_spec(mem_write_spec(v, addr, (val & 0xFF) as u8), wrap_inc(addr), (val >> 8) as u8)
}

/// The raw bytes after writing `data` byte by byte at consecutive addresses
/// starting at `addr`.
pub open spec fn mem_write_seq(v: Seq<u8>, addr: u16, data: Seq<u8>) -> Seq<u8>
    decreases data.len(),
{
    if data.len() == 0 {
        v
    } else {
        mem_write_seq(mem_write_spec(v, addr, data[0]), (addr + 1) as u16, data.skip(1))
    }
}

/// Work-RAM mirroring: a byte written at any address below `0x2000` is the
/// byte read back at every address below `0x2000` congruent to it modulo
/// `0x800`.
pub proof fn lemma_mem_ram_mirrors(v: Seq<u8>, a: u16, b: u16, val: u8)
    requires
        v.len() == MEM_SIZE,
        a < 0x2000,
        b < 0x2000,
        a as int % 0x800 == b as int % 0x800,
    ensures
        mem_read_spec(mem_write_spec(v, a, val), b) == val,
{
}

/// Each index of `ppu_fill(v, s, val)`: the progression `s, s + 8, ...`
/// below `0x4000` holds `val`, every other index is unchanged.
pub proof fn lemma_ppu_fill_index(v: Seq<u8>, s: int, val: u8, j: int)
    requires
        v.len() == MEM_SIZE,
        0 <= s,
        0 <= j < v.len(),
    ensures
        ppu_fill(v, s, val).len() == v.len(),
        ppu_fill(v, s, val)[j] == (if s <= j < 0x4000 && (j - s) % 8 == 0 {
            val
        } else {
            v[j]
        }),
    decreases (if s < 0x4000 { 0x4000 - s } else { 0 }),
{
    if s < 0x4000 {
        lemma_ppu_fill_index(v.update(s, val), s + 8, val, j);
        vstd::arithmetic::div_mod::lemma_mod_multiples_vanish(-1, j - s, 8);
    }
}

/// Whether two addresses resolve to the same storage: congruent modulo
/// `0x800` among the work-RAM images, congruent modulo 8 among the
/// graphics-register images, equal elsewhere.
pub open spec fn mem_aliased(a: u16, b: u16) -> bool {
    if a < 0x2000 && b < 0x2000 {
        a as int % 0x800 == b as int % 0x800
    } else if 0x2000 <= a < 0x4000 && 0x2000 <= b < 0x4000 {
        a as int % 8 == b as int % 8
    } else {
        a == b
    }
}

/// The complete observable effect of an 8-bit write: every alias of `addr`
/// subsequently reads `val`, and every other address reads its old byte.
pub proof fn lemma_mem_write8_visibility(v: Seq<u8>, a: u16, b: u16, val: u8)
    requires
        v.len() == MEM_SIZE,
    ensures
        mem_read_spec(mem_write_spec(v, a, val), b) == (if mem_aliased(a, b) {
            val
        } else {
            mem_read_spec(v, b)
        }),
{
    if 0x2000 <= a < 0x4000 {
        let v1 = v.update(a as int, val);
        let ca = 0x2000 + (a - 0x2000) % 8;
        vstd::arithmetic::div_mod::lemma_mod_multiples_vanish(-0x400, a as int, 8);
        if b < 0x2000 {
            lemma_ppu_fill_index(v1, ca as int, val, b as int % 0x800);
        } else if b < 0x4000 {
            let cb = 0x2000 + (b - 0x2000) % 8;
            vstd::arithmetic::div_mod::lemma_mod_multiples_vanish(-0x400, b as int, 8);
            lemma_ppu_fill_index(v1, ca as int, val, cb as int);
        } else {
            lemma_ppu_fill_index(v1, ca as int, val, b as int);
        }
    }
}

/// An 8-bit write preserves the length of the raw bytes.
pub proof fn lemma_mem_write_spec_len(v: Seq<u8>, addr: u16, val: u8)
    requires
        v.len() == MEM_SIZE,
    ensures
        mem_write_spec(v, addr, val).len() == v.len(),
{
    if 0x2000 <= addr < 0x4000 {
        let v1 = v.update(addr as int, val);
        lemma_ppu_fill_index(v1, (0x2000 + (addr - 0x2000) % 8) as int, val, 0);
    }
}

/// Graphics-register mirroring: a byte written at any address in
/// `[0x2000, 0x4000)` is the byte read back at every address of that range
/// congruent to it modulo 8.
pub proof fn lemma_mem_ppu_mirrors(v: Seq<u8>, a: u16, b: u16, val: u8)
    requires
        v.len() == MEM_SIZE,
        0x2000 <= a < 0x4000,
        0x2000 <= b < 0x4000,
        a as int % 8 == b as int % 8,
    ensures
        mem_read_spec(mem_write_spec(v, a, val), b) == val,
{
    lemma_mem_write8_visibility(v, a, b, val);
}

/// Writing a buffer into the low work RAM touches exactly the bytes of its
/// addresses, in order, and nothing else.
pub proof fn lemma_mem_write_seq_low_ram(v: Seq<u8>, addr: u16, data: Seq<u8>)
    requires
        v.len() == MEM_SIZE,
        addr + data.len() <= 0x800,
    ensures
        mem_write_seq(v, addr, data).len() == v.len(),
        forall|j: int|
            0 <= j < v.len() ==> mem_write_seq(v, addr, data)[j] == (if addr <= j < addr
                + data.len() {
                data[j - addr]
            } else {
                v[j]
            }),
    decreases data.len(),
{
    if data.len() > 0 {
        lemma_mem_write_seq_low_ram(v.update(addr as int, data[0]), (addr + 1) as u16, data.skip(1));
        assert forall|j: int|
            0 <= j < v.len() implies mem_write_seq(v, addr, data)[j] == (if addr <= j < addr
            + data.len() {
            data[j - addr]
        } else {
            v[j]
        }) by {
            if addr + 1 <= j < addr + data.len() {
                assert(data.skip(1)[j - addr - 1] == data[j - addr]);
            }
        }
    }
}

/// Writing a zero-free byte string into the low work RAM followed by a zero
/// terminator, then scanning the raw bytes from its start, reads back
/// exactly the string: every byte before the terminator is the byte
/// written, and the terminator is the first zero.
pub proof fn lemma_mem_string_round_trip(v: Seq<u8>, addr: u16, data: Seq<u8>)
    requires
        v.len() == MEM_SIZE,
        addr + data.len() + 1 <= 0x800,
        forall|j: int| 0 <= j < data.len() ==> data[j] != 0,
    ensures
        ({
            let v2 = mem_write_seq(v, addr, data.push(0));
            &&& forall|j: int| 0 <= j < data.len() ==> v2[addr + j] == data[j] && v2[addr + j] != 0
            &&& v2[addr + data.len()] == 0
        }),
{
    lemma_mem_write_seq_low_ram(v, addr, data.push(0));
    let v2 = mem_write_seq(v, addr, data.push(0));
    assert forall|j: int|
        0 <= j < data.len() implies v2[addr + j] == data[j] && v2[addr + j] != 0 by {
        assert(data.push(0)[j] == data[j]);
    }
    assert(data.push(0)[data.len() as int] == 0);
}

/// Two consecutive remainders by a modulus of at least 2 differ.
proof fn lemma_succ_mod_ne(x: int, m: int)
    requires
        0 <= x,
        2 <= m,
    ensures
        (x + 1) % m != x % m,
{
    vstd::arithmetic::div_mod::lemma_fundamental_div_mod(x, m);
    vstd::arithmetic::div_mod::lemma_mod_bound(x, m);
    let q = x / m;
    let r = x % m;
    if r + 1 < m {
        vstd::arithmetic::div_mod::lemma_fundamental_div_mod_converse(x + 1, m, q, r + 1);
    } else {
        assert((q + 1) * m == q * m + m) by (nonlinear_arith);
        vstd::arithmetic::div_mod::lemma_fundamental_div_mod_converse(x + 1, m, q + 1, 0);
    }
}

/// An address and its successor (wrapping at the top of the space) never
/// share storage.
proof fn lemma_succ_not_aliased(addr: u16)
    ensures
        !mem_aliased(wrap_inc(addr), addr),
{
    if addr != 0xFFFF {
        if addr as int + 1 < 0x2000 {
            lemma_succ_mod_ne(addr as int, 0x800);
        } else if 0x2000 <= addr && addr as int + 1 < 0x4000 {
            lemma_succ_mod_ne(addr as int, 8);
        }
    }
}

/// A 16-bit write followed by a 16-bit read at the same address returns the
/// original word, at every address of the 16-bit space.
pub proof fn lemma_mem_write16_read16(v: Seq<u8>, addr: u16, val: u16)
    requires
        v.len() == MEM_SIZE,
    ensures
        mem_read16_spec(mem_write16_spec(v, addr, val), addr) == val,
{
    let lo = (val & 0xFF) as u8;
    let hi = (val >> 8) as u8;
    let w1 = mem_write_spec(v, addr, lo);
    lemma_mem_write_spec_len(v, addr, lo);
    lemma_succ_not_aliased(addr);
    lemma_mem_write8_visibility(v, addr, addr, lo);
    lemma_mem_write8_visibility(w1, wrap_inc(addr), addr, hi);
    lemma_mem_write8_visibility(w1, wrap_inc(addr), wrap_inc(addr), hi);
    assert(mem_combine16((val & 0xFF) as u8, (val >> 8) as u8) == val) by (bit_vector);
}

} // verus!
