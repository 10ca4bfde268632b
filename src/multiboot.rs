//! The multiboot boot-information record and its memory map.
//!
//! Field names follow the multiboot specification; `type_` carries a
//! trailing underscore because `type` is a keyword.
use vstd::prelude::*;

verus! {

/// Byte length of one memory-map entry.
pub const MMAP_ENTRY_SIZE: usize = 24;

/// Type code of a memory-map entry that describes usable RAM.
pub const MMAP_USABLE: u32 = 1;

/// Byte length of the part of the boot-information record that is decoded.
pub const BOOT_INFO_HEADER_SIZE: usize = 52;

/// The little-endian `u32` held by four bytes.
pub open spec fn u32_from_le(b0: u8, b1: u8, b2: u8, b3: u8) -> u32 {
    (b0 as u32) | ((b1 as u32) << 8u32) | ((b2 as u32) << 16u32) | ((b3 as u32) << 24u32)
}

/// The little-endian `u64` held by eight bytes.
pub open spec fn u64_from_le(lo: u32, hi: u32) -> u64 {
    (lo as u64) | ((hi as u64) << 32u64)
}

/// The little-endian `u32` at byte offset `off` of `b`.
pub open spec fn le_u32_at(b: Seq<u8>, off: int) -> u32 {
    u32_from_le(b[off], b[off + 1], b[off + 2], b[off + 3])
}

/// The little-endian `u64` at byte offset `off` of `b`.
pub open spec fn le_u64_at(b: Seq<u8>, off: int) -> u64 {
    u64_from_le(le_u32_at(b, off), le_u32_at(b, off + 4))
}

/// Byte `k` (0 is the least significant) of the little-endian encoding of `x`.
pub open spec fn le_byte(x: u64, k: u64) -> u8 {
    ((x >> (8 * k)) & 0xff) as u8
}

/// One entry of a multiboot memory map: a range of physical memory and its type.
#[derive(Clone, Copy, Debug, PartialEq, Eq, Structural)]
pub struct MmapEntry {
    pub size: u32,
    pub base_addr: u64,
    pub length: u64,
    pub type_: u32,
}

/// The entry encoded by the 24 bytes at offset `off` of `b`.
pub open spec fn entry_at(b: Seq<u8>, off: int) -> MmapEntry {
    MmapEntry {
        size: le_u32_at(b, off),
        base_addr: le_u64_at(b, off + 4),
        length: le_u64_at(b, off + 12),
        type_: le_u32_at(b, off + 20),
    }
}

/// The entries that a memory-map buffer holds: one for every whole 24 bytes,
/// in buffer order.
pub open spec fn entries_of(b: Seq<u8>) -> Seq<MmapEntry> {
    Seq::new(b.len() / 24, |i: int| entry_at(b, 24 * i))
}

/// The 24 bytes that encode `e`.
pub open spec fn encode_entry(e: MmapEntry) -> Seq<u8> {
    seq![
        le_byte(e.size as u64, 0), le_byte(e.size as u64, 1), le_byte(e.size as u64, 2),
        le_byte(e.size as u64, 3),
        le_byte(e.base_addr, 0), le_byte(e.base_addr, 1), le_byte(e.base_addr, 2),
        le_byte(e.base_addr, 3), le_byte(e.base_addr, 4), le_byte(e.base_addr, 5),
        le_byte(e.base_addr, 6), le_byte(e.base_addr, 7),
        le_byte(e.length, 0), le_byte(e.length, 1), le_byte(e.length, 2),
        le_byte(e.length, 3), le_byte(e.length, 4), le_byte(e.length, 5),
        le_byte(e.length, 6), le_byte(e.length, 7),
        le_byte(e.type_ as u64, 0), le_byte(e.type_ as u64, 1), le_byte(e.type_ as u64, 2),
        le_byte(e.type_ as u64, 3),
    ]
}

/// The memory-map buffer that holds `es`, entry after entry.
pub open spec fn encode_entries(es: Seq<MmapEntry>) -> Seq<u8> {
    Seq::new(24 * es.len(), |k: int| encode_entry(es[k / 24])[k % 24])
}

proof fn lemma_u32_round_trip(x: u32)
    ensures
        u32_from_le(
            le_byte(x as u64, 0),
            le_byte(x as u64, 1),
            le_byte(x as u64, 2),
            le_byte(x as u64, 3),
        ) == x,
{
    assert(((((x as u64) >> 0u64) & 0xff) as u8 as u32) | (((((x as u64) >> 8u64) & 0xff) as u8
        as u32) << 8u32) | (((((x as u64) >> 16u64) & 0xff) as u8 as u32) << 16u32) | (((((
    x as u64) >> 24u64) & 0xff) as u8 as u32) << 24u32) == x) by (bit_vector);
}

proof fn lemma_u64_round_trip(x: u64)
    ensures
        u64_from_le(
            u32_from_le(le_byte(x, 0), le_byte(x, 1), le_byte(x, 2), le_byte(x, 3)),
            u32_from_le(le_byte(x, 4), le_byte(x, 5), le_byte(x, 6), le_byte(x, 7)),
        ) == x,
{
    let lo = u32_from_le(le_byte(x, 0), le_byte(x, 1), le_byte(x, 2), le_byte(x, 3));
    let hi = u32_from_le(le_byte(x, 4), le_byte(x, 5), le_byte(x, 6), le_byte(x, 7));
    assert(lo == (x & 0xffff_ffff) as u32) by (bit_vector)
        requires
            lo == ((((x >> 0u64) & 0xff) as u8 as u32) | ((((x >> 8u64) & 0xff) as u8 as u32)
                << 8u32) | ((((x >> 16u64) & 0xff) as u8 as u32) << 16u32) | ((((x >> 24u64)
                & 0xff) as u8 as u32) << 24u32)),
    ;
    assert(hi == (x >> 32u64) as u32) by (bit_vector)
        requires
            hi == ((((x >> 32u64) & 0xff) as u8 as u32) | ((((x >> 40u64) & 0xff) as u8 as u32)
                << 8u32) | ((((x >> 48u64) & 0xff) as u8 as u32) << 16u32) | ((((x >> 56u64)
                & 0xff) as u8 as u32) << 24u32)),
    ;
    assert(((lo as u64) | ((hi as u64) << 32u64)) == x) by (bit_vector)
        requires
            lo == (x & 0xffff_ffff) as u32,
            hi == (x >> 32u64) as u32,
    ;
}

/// Decoding the bytes that encode an entry gives the entry back.
pub proof fn lemma_entry_round_trip(e: MmapEntry)
    ensures
        entry_at(encode_entry(e), 0) == e,
{
    lemma_u32_round_trip(e.size);
    lemma_u64_round_trip(e.base_addr);
    lemma_u64_round_trip(e.length);
    lemma_u32_round_trip(e.type_);
}

/// Memory-map round trip: a buffer built from `es` decodes to exactly `es`,
/// with the same number of entries, the same fields and the same order.
pub proof fn lemma_mmap_round_trip(es: Seq<MmapEntry>)
    ensures
        entries_of(encode_entries(es)) == es,
{
    let b = encode_entries(es);
    assert(b.len() / 24 == es.len()) by (nonlinear_arith)
        requires
            b.len() == 24 * es.len(),
    ;
    assert forall|i: int| 0 <= i < es.len() implies #[trigger] entry_at(b, 24 * i) == es[i] by {
        let e = es[i];
        let own = encode_entry(e);
        assert forall|j: int| 0 <= j < 24 implies b[24 * i + j] == own[j] by {
            assert((24 * i + j) / 24 == i && (24 * i + j) % 24 == j) by (nonlinear_arith)
                requires
                    0 <= j < 24,
                    0 <= i,
            ;
        }
        assert(24 * i + 24 <= b.len()) by (nonlinear_arith)
            requires
                i < es.len(),
                b.len() == 24 * es.len(),
        ;
        lemma_entry_round_trip(e);
    }
    assert(entries_of(b) =~= es);
}


/// The little-endian `u32` at byte offset `off` of `b`.
pub fn read_u32_le(b: &[u8], off: usize) -> (r: u32)
    requires
        off + 4 <= b@.len(),
    ensures
        r == le_u32_at(b@, off as int),
{
    (b[off] as u32) | ((b[off + 1] as u32) << 8u32) | ((b[off + 2] as u32) << 16u32) | ((b[off
        + 3] as u32) << 24u32)
}

/// The little-endian `u64` at byte offset `off` of `b`.
pub fn read_u64_le(b: &[u8], off: usize) -> (r: u64)
    requires
        off + 8 <= b@.len(),
    ensures
        r == le_u64_at(b@, off as int),
{
    let _len = b.len();
    let lo = read_u32_le(b, off);
    let hi = read_u32_le(b, off + 4);
    (lo as u64) | ((hi as u64) << 32u64)
}

/// Decodes a memory-map buffer: one entry for every whole 24 bytes, in order.
pub fn parse_mmap_entries(buf: &[u8]) -> (r: Vec<MmapEntry>)
    ensures
        r@ == entries_of(buf@),
{
    let total = buf.len();
    let n = total / MMAP_ENTRY_SIZE;
    let mut out: Vec<MmapEntry> = Vec::new();
    let mut i: usize = 0;
    while i < n
        invariant
            n == buf@.len() / 24,
            total == buf@.len(),
            i <= n,
            out@ == entries_of(buf@).subrange(0, i as int),
        decreases n - i,
    {
        assert(i * 24 + 24 <= buf@.len()) by (nonlinear_arith)
            requires
                i < n,
                n == buf@.len() / 24,
        ;
        let off = i * MMAP_ENTRY_SIZE;
        let e = MmapEntry {
            size: read_u32_le(buf, off),
            base_addr: read_u64_le(buf, off + 4),
            length: read_u64_le(buf, off + 12),
            type_: read_u32_le(buf, off + 20),
        };
        out.push(e);
        i = i + 1;
        assert(out@ =~= entries_of(buf@).subrange(0, i as int));
    }
    assert(out@ =~= entries_of(buf@));
    out
}

/// The part of the multiboot boot-information record that this kernel reads.
#[derive(Clone, Copy, Debug, PartialEq, Eq, Structural)]
pub struct BootInfo {
    pub flags: u32,
    pub mem_lower: u32,
    pub mem_upper: u32,
    pub boot_device: u32,
    pub cmdline: u32,
    pub mods_count: u32,
    pub mods_addr: u32,
    pub mmap_length: u32,
    pub mmap_addr: u32,
}

/// The record held by the first 52 bytes of a boot-information block.
pub open spec fn boot_info_at(b: Seq<u8>) -> BootInfo {
    BootInfo {
        flags: le_u32_at(b, 0),
        mem_lower: le_u32_at(b, 4),
        mem_upper: le_u32_at(b, 8),
        boot_device: le_u32_at(b, 12),
        cmdline: le_u32_at(b, 16),
        mods_count: le_u32_at(b, 20),
        mods_addr: le_u32_at(b, 24),
        mmap_length: le_u32_at(b, 44),
        mmap_addr: le_u32_at(b, 48),
    }
}

/// The sum of the lengths of the usable entries of `es`.
pub open spec fn usable_total(es: Seq<MmapEntry>) -> nat
    decreases es.len(),
{
    if es.len() == 0 {
        0
    } else {
        usable_total(es.drop_last()) + if es.last().type_ == MMAP_USABLE {
            es.last().length as nat
        } else {
            0
        }
    }
}

proof fn lemma_usable_total_bound(es: Seq<MmapEntry>)
    ensures
        usable_total(es) <= es.len() * 0xffff_ffff_ffff_ffff,
    decreases es.len(),
{
    if es.len() > 0 {
        lemma_usable_total_bound(es.drop_last());
    }
}

impl BootInfo {
    /// Decodes the record from the first bytes of a boot-information block;
    /// `None` when fewer than 52 bytes are given.
    pub fn from_bytes(b: &[u8]) -> (r: Option<BootInfo>)
        ensures
            b@.len() < 52 ==> r.is_none(),
            b@.len() >= 52 ==> r == Some(boot_info_at(b@)),
    {
        if b.len() < BOOT_INFO_HEADER_SIZE {
            return None;
        }
        Some(
            BootInfo {
                flags: read_u32_le(b, 0),
                mem_lower: read_u32_le(b, 4),
                mem_upper: read_u32_le(b, 8),
                boot_device: read_u32_le(b, 12),
                cmdline: read_u32_le(b, 16),
                mods_count: read_u32_le(b, 20),
                mods_addr: read_u32_le(b, 24),
                mmap_length: read_u32_le(b, 44),
                mmap_addr: read_u32_le(b, 48),
            },
        )
    }

    /// Number of entries in the memory map that the record describes.
    pub fn mmap_entry_count(&self) -> (r: usize)
        ensures
            r == self.mmap_length / 24,
    {
        self.mmap_length as usize / MMAP_ENTRY_SIZE
    }

    /// The entries of the memory map, given the bytes found at `mmap_addr`;
    /// only the first `mmap_length` of them are read.
    pub fn get_mmap_entries(&self, map: &[u8]) -> (r: Vec<MmapEntry>)
        requires
            self.mmap_length <= map@.len(),
        ensures
            r@ == entries_of(map@.subrange(0, self.mmap_length as int)),
            r@.len() == self.mmap_length / 24,
    {
        let len = self.mmap_length as usize;
        let mut own: Vec<u8> = Vec::new();
        let mut i: usize = 0;
        while i < len
            invariant
                len == self.mmap_length,
                len <= map@.len(),
                i <= len,
                own@ == map@.subrange(0, i as int),
            decreases len - i,
        {
            own.push(map[i]);
            i = i + 1;
            assert(own@ =~= map@.subrange(0, i as int));
        }
        parse_mmap_entries(own.as_slice())
    }
}

/// Total length of the usable memory that `entries` describe.
pub fn usable_memory_total(entries: &[MmapEntry]) -> (r: u128)
    ensures
        r == usable_total(entries@),
{
    let mut total: u128 = 0;
    let mut i: usize = 0;
    while i < entries.len()
        invariant
            i <= entries@.len(),
            total == usable_total(entries@.subrange(0, i as int)),
        decreases entries@.len() - i,
    {
        let e = entries[i];
        proof {
            let pre = entries@.subrange(0, i as int + 1);
            assert(pre.drop_last() =~= entries@.subrange(0, i as int));
            lemma_usable_total_bound(entries@.subrange(0, i as int));
            assert(i * 0xffff_ffff_ffff_ffffnat + 0xffff_ffff_ffff_ffffnat < 0x1_0000_0000_0000_0000_0000_0000_0000_0000)
                by (nonlinear_arith)
                requires
                    i < 0x1_0000_0000_0000_0000nat,
            ;
        }
        if e.type_ == MMAP_USABLE {
            total = total + e.length as u128;
        }
        i = i + 1;
    }
    assert(entries@.subrange(0, i as int) =~= entries@);
    total
}

} // verus!
