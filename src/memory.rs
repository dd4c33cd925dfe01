use vstd::prelude::*;

verus! {

/// Size of the physical address space: every 32-bit address names a byte.
pub const RAM_SIZE: u64 = 0x1_0000_0000;

/// The RAM size that a host with this pointer width can hold: the whole
/// address space on a 64-bit host.
pub open spec fn host_ram_size() -> nat {
    if RAM_SIZE <= usize::MAX {
        RAM_SIZE as nat
    } else {
        usize::MAX as nat
    }
}

/// The little-endian 16-bit value held at `a` and `a + 1`.
pub open spec fn le16(ram: Seq<u8>, a: int) -> u16 {
    (ram[a] as u16) | ((ram[a + 1] as u16) << 8u16)
}

/// The little-endian 32-bit value held at `a .. a + 4`.
pub open spec fn le32(ram: Seq<u8>, a: int) -> u32 {
    (ram[a] as u32) | ((ram[a + 1] as u32) << 8u32) | ((ram[a + 2] as u32) << 16u32) | ((
    ram[a + 3] as u32) << 24u32)
}

/// The little-endian 64-bit value held at `a .. a + 8`.
pub open spec fn le64(ram: Seq<u8>, a: int) -> u64 {
    (ram[a] as u64) | ((ram[a + 1] as u64) << 8u64) | ((ram[a + 2] as u64) << 16u64) | ((
    ram[a + 3] as u64) << 24u64) | ((ram[a + 4] as u64) << 32u64) | ((ram[a + 5] as u64)
        << 40u64) | ((ram[a + 6] as u64) << 48u64) | ((ram[a + 7] as u64) << 56u64)
}

/// `ram` with the two bytes of `v` stored little-endian at `a`.
pub open spec fn put16(ram: Seq<u8>, a: int, v: u16) -> Seq<u8> {
    ram.update(a, v as u8).update(a + 1, (v >> 8u16) as u8)
}

/// `ram` with the four bytes of `v` stored little-endian at `a`.
pub open spec fn put32(ram: Seq<u8>, a: int, v: u32) -> Seq<u8> {
    ram.update(a, v as u8).update(a + 1, (v >> 8u32) as u8).update(a + 2, (v >> 16u32) as u8).update(
        a + 3,
        (v >> 24u32) as u8,
    )
}

/// `ram` with the eight bytes of `v` stored little-endian at `a`.
pub open spec fn put64(ram: Seq<u8>, a: int, v: u64) -> Seq<u8> {
    ram.update(a, v as u8).update(a + 1, (v >> 8u64) as u8).update(a + 2, (v >> 16u64) as u8).update(
        a + 3,
        (v >> 24u64) as u8,
    ).update(a + 4, (v >> 32u64) as u8).update(a + 5, (v >> 40u64) as u8).update(
        a + 6,
        (v >> 48u64) as u8,
    ).update(a + 7, (v >> 56u64) as u8)
}

/// A byte load right after a byte store at the same address gives the stored
/// byte back, and leaves every other byte as it was.
pub proof fn lemma_byte_round_trip(ram: Seq<u8>, a: int, v: u8)
    requires
        0 <= a < ram.len(),
    ensures
        ram.update(a, v)[a] == v,
        forall|i: int| 0 <= i < ram.len() && i != a ==> ram.update(a, v)[i] == ram[i],
{
}

/// A half-word load right after a half-word store at the same address gives
/// the stored value back; the bytes outside the two stored ones are untouched.
pub proof fn lemma_half_word_round_trip(ram: Seq<u8>, a: int, v: u16)
    requires
        0 <= a,
        a + 2 <= ram.len(),
    ensures
        le16(put16(ram, a, v), a) == v,
        put16(ram, a, v).len() == ram.len(),
        forall|i: int| 0 <= i < ram.len() && !(a <= i < a + 2) ==> put16(ram, a, v)[i] == ram[i],
{
    let s = put16(ram, a, v);
    let b0 = s[a];
    let b1 = s[a + 1];
    assert(b0 == v as u8 && b1 == (v >> 8u16) as u8);
    assert((b0 as u16) | ((b1 as u16) << 8u16) == v) by (bit_vector)
        requires
            b0 == v as u8,
            b1 == (v >> 8u16) as u8,
    ;
}

/// A word load right after a word store at the same address gives the stored
/// value back; the bytes outside the four stored ones are untouched.
pub proof fn lemma_word_round_trip(ram: Seq<u8>, a: int, v: u32)
    requires
        0 <= a,
        a + 4 <= ram.len(),
    ensures
        le32(put32(ram, a, v), a) == v,
        put32(ram, a, v).len() == ram.len(),
        forall|i: int| 0 <= i < ram.len() && !(a <= i < a + 4) ==> put32(ram, a, v)[i] == ram[i],
{
    let s = put32(ram, a, v);
    let b0 = s[a];
    let b1 = s[a + 1];
    let b2 = s[a + 2];
    let b3 = s[a + 3];
    assert(b0 == v as u8 && b1 == (v >> 8u32) as u8 && b2 == (v >> 16u32) as u8 && b3 == (v
        >> 24u32) as u8);
    assert((b0 as u32) | ((b1 as u32) << 8u32) | ((b2 as u32) << 16u32) | ((b3 as u32) << 24u32)
        == v) by (bit_vector)
        requires
            b0 == v as u8,
            b1 == (v >> 8u32) as u8,
            b2 == (v >> 16u32) as u8,
            b3 == (v >> 24u32) as u8,
    ;
}

/// A double-word load right after a double-word store at the same address
/// gives the stored value back; the bytes outside the eight stored ones are
/// untouched.
pub proof fn lemma_double_word_round_trip(ram: Seq<u8>, a: int, v: u64)
    requires
        0 <= a,
        a + 8 <= ram.len(),
    ensures
        le64(put64(ram, a, v), a) == v,
        put64(ram, a, v).len() == ram.len(),
        forall|i: int| 0 <= i < ram.len() && !(a <= i < a + 8) ==> put64(ram, a, v)[i] == ram[i],
{
    let s = put64(ram, a, v);
    let b0 = s[a];
    let b1 = s[a + 1];
    let b2 = s[a + 2];
    let b3 = s[a + 3];
    let b4 = s[a + 4];
    let b5 = s[a + 5];
    let b6 = s[a + 6];
    let b7 = s[a + 7];
    assert(b0 == v as u8 && b1 == (v >> 8u64) as u8 && b2 == (v >> 16u64) as u8 && b3 == (v
        >> 24u64) as u8);
    assert(b4 == (v >> 32u64) as u8 && b5 == (v >> 40u64) as u8 && b6 == (v >> 48u64) as u8 && b7
        == (v >> 56u64) as u8);
    assert((b0 as u64) | ((b1 as u64) << 8u64) | ((b2 as u64) << 16u64) | ((b3 as u64) << 24u64)
        | ((b4 as u64) << 32u64) | ((b5 as u64) << 40u64) | ((b6 as u64) << 48u64) | ((b7 as u64)
        << 56u64) == v) by (bit_vector)
        requires
            b0 == v as u8,
            b1 == (v >> 8u64) as u8,
            b2 == (v >> 16u64) as u8,
            b3 == (v >> 24u64) as u8,
            b4 == (v >> 32u64) as u8,
            b5 == (v >> 40u64) as u8,
            b6 == (v >> 48u64) as u8,
            b7 == (v >> 56u64) as u8,
    ;
}

/// Flat byte-addressable RAM.
pub struct RV32Memory {
    pub ram: Vec<u8>,
}

impl RV32Memory {
    /// A zeroed RAM covering the whole 32-bit physical address space.
    pub fn new() -> (r: RV32Memory)
        ensures
            r.ram@.len() == host_ram_size(),
            forall|i: int| 0 <= i < r.ram@.len() ==> r.ram@[i] == 0u8,
    {
        let size: usize = if RAM_SIZE <= usize::MAX as u64 {
            RAM_SIZE as usize
        } else {
            usize::MAX
        };
        RV32Memory::with_size(size)
    }

    /// A zeroed RAM of `size` bytes.
    pub fn with_size(size: usize) -> (r: RV32Memory)
        ensures
            r.ram@.len() == size,
            forall|i: int| 0 <= i < size ==> r.ram@[i] == 0u8,
    {
        RV32Memory { ram: vec![0u8; size] }
    }

    pub fn read_byte(&self, address: usize) -> (r: u8)
        requires
            address < self.ram.len(),
        ensures
            r == self.ram@[address as int],
    {
        self.ram[address]
    }

    pub fn write_byte(&mut self, address: usize, byte: u8)
        requires
            address < old(self).ram.len(),
        ensures
            final(self).ram@ == old(self).ram@.update(address as int, byte),
    {
        self.ram.set(address, byte);
    }

    pub fn read_half_word(&self, address: usize) -> (r: u16)
        requires
            address + 2 <= self.ram.len(),
        ensures
            r == le16(self.ram@, address as int),
    {
        (self.ram[address] as u16) | ((self.ram[address + 1] as u16) << 8u16)
    }

    pub fn write_half_word(&mut self, address: usize, half: u16)
        requires
            address + 2 <= old(self).ram.len(),
        ensures
            final(self).ram@ == put16(old(self).ram@, address as int, half),
    {
        self.ram.set(address, #[verifier::truncate] (half as u8));
        self.ram.set(address + 1, #[verifier::truncate] ((half >> 8u16) as u8));
    }

    pub fn read_word(&self, address: usize) -> (r: u32)
        requires
            address + 4 <= self.ram.len(),
        ensures
            r == le32(self.ram@, address as int),
    {
        (self.ram[address] as u32) | ((self.ram[address + 1] as u32) << 8u32) | ((self.ram[address
            + 2] as u32) << 16u32) | ((self.ram[address + 3] as u32) << 24u32)
    }

    pub fn write_word(&mut self, address: usize, word: u32)
        requires
            address + 4 <= old(self).ram.len(),
        ensures
            final(self).ram@ == put32(old(self).ram@, address as int, word),
    {
        self.ram.set(address, #[verifier::truncate] (word as u8));
        self.ram.set(address + 1, #[verifier::truncate] ((word >> 8u32) as u8));
        self.ram.set(address + 2, #[verifier::truncate] ((word >> 16u32) as u8));
        self.ram.set(address + 3, #[verifier::truncate] ((word >> 24u32) as u8));
    }

    pub fn read_double_word(&self, address: usize) -> (r: u64)
        requires
            address + 8 <= self.ram.len(),
        ensures
            r == le64(self.ram@, address as int),
    {
        (self.ram[address] as u64) | ((self.ram[address + 1] as u64) << 8u64) | ((self.ram[address
            + 2] as u64) << 16u64) | ((self.ram[address + 3] as u64) << 24u64) | ((self.ram[address
            + 4] as u64) << 32u64) | ((self.ram[address + 5] as u64) << 40u64) | ((self.ram[address
            + 6] as u64) << 48u64) | ((self.ram[address + 7] as u64) << 56u64)
    }

    pub fn write_double_word(&mut self, address: usize, double: u64)
        requires
            address + 8 <= old(self).ram.len(),
        ensures
            final(self).ram@ == put64(old(self).ram@, address as int, double),
    {
        self.ram.set(address, #[verifier::truncate] (double as u8));
        self.ram.set(address + 1, #[verifier::truncate] ((double >> 8u64) as u8));
        self.ram.set(address + 2, #[verifier::truncate] ((double >> 16u64) as u8));
        self.ram.set(address + 3, #[verifier::truncate] ((double >> 24u64) as u8));
        self.ram.set(address + 4, #[verifier::truncate] ((double >> 32u64) as u8));
        self.ram.set(address + 5, #[verifier::truncate] ((double >> 40u64) as u8));
        self.ram.set(address + 6, #[verifier::truncate] ((double >> 48u64) as u8));
        self.ram.set(address + 7, #[verifier::truncate] ((double >> 56u64) as u8));
    }
}

} // verus!
