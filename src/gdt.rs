//! Segment descriptors and the global descriptor table.
use vstd::prelude::*;

verus! {

/// Selector of the kernel code segment (entry 1 of the table).
pub const KERNEL_CODE_SELECTOR: u16 = 0x08;

/// Selector of the kernel data segment (entry 2 of the table).
pub const KERNEL_DATA_SELECTOR: u16 = 0x10;

/// Flag nibble bit: the limit counts 4 KiB pages instead of bytes.
pub const FLAG_GRANULARITY: u8 = 0x80;

/// Flag nibble bit: 32-bit operand size.
pub const FLAG_SIZE_32: u8 = 0x40;

/// Flag nibble bit: 64-bit code segment.
pub const FLAG_LONG_MODE: u8 = 0x20;

/// Access-byte bits that privilege levels occupy.
pub const PRIVILEGE_MASK: u8 = 0x60;

/// One bit of a segment descriptor's access byte.
#[derive(Clone, Copy, Debug, PartialEq, Eq, Structural)]
pub enum AccessByte {
    Accessed,
    ReadWrite,
    Direction,
    Executable,
    NotSystemDescriptor,
    Present,
}

/// The access-byte bit that `a` stands for.
pub open spec fn access_bit(a: AccessByte) -> u8 {
    match a {
        AccessByte::Accessed => 0x01,
        AccessByte::ReadWrite => 0x02,
        AccessByte::Direction => 0x04,
        AccessByte::Executable => 0x08,
        AccessByte::NotSystemDescriptor => 0x10,
        AccessByte::Present => 0x80,
    }
}

impl AccessByte {
    pub fn bit(self) -> (r: u8)
        ensures
            r == access_bit(self),
    {
        match self {
            AccessByte::Accessed => 0x01,
            AccessByte::ReadWrite => 0x02,
            AccessByte::Direction => 0x04,
            AccessByte::Executable => 0x08,
            AccessByte::NotSystemDescriptor => 0x10,
            AccessByte::Present => 0x80,
        }
    }
}

/// A policy error of the descriptor builder.
#[derive(Clone, Copy, Debug, PartialEq, Eq, Structural)]
pub enum GdtError {
    /// A privilege level above 3.
    InvalidPrivilege,
    /// Long mode asked for on a segment with 32-bit operand size.
    LongModeWith32BitSize,
    /// Long mode asked for on a segment that is not executable.
    LongModeNonExecutable,
}

/// The fields of a segment descriptor.
pub struct SegmentView {
    pub access: u8,
    /// Only the high nibble is used.
    pub flags: u8,
    pub base: u32,
    /// Only the low 20 bits are used.
    pub limit: u32,
}

/// The 64-bit x86 segment descriptor with these fields: limit bits 0-15 at
/// bits 0-15, base bits 0-23 at bits 16-39, the access byte at bits 40-47,
/// limit bits 16-19 at bits 48-51, the flag nibble at bits 52-55 and base
/// bits 24-31 at bits 56-63.
pub open spec fn descriptor_spec(base: u32, limit: u32, access: u8, flags: u8) -> u64 {
    ((limit as u64) & 0xffff) | (((base as u64) & 0xff_ffff) << 16u64) | ((access as u64)
        << 40u64) | ((((limit as u64) >> 16u64) & 0xf) << 48u64) | (((flags as u64) & 0xf0)
        << 48u64) | (((base as u64) >> 24u64) << 56u64)
}

/// The base address that descriptor `d` holds.
pub open spec fn descriptor_base(d: u64) -> u32 {
    (((d >> 16u64) & 0xff_ffff) | ((d >> 56u64) << 24u64)) as u32
}

/// The 20-bit limit that descriptor `d` holds.
pub open spec fn descriptor_limit(d: u64) -> u32 {
    ((d & 0xffff) | (((d >> 48u64) & 0xf) << 16u64)) as u32
}

/// The access byte of descriptor `d`.
pub open spec fn descriptor_access(d: u64) -> u8 {
    ((d >> 40u64) & 0xff) as u8
}

/// The flag nibble of descriptor `d`, in the high half of a byte.
pub open spec fn descriptor_flags(d: u64) -> u8 {
    ((d >> 48u64) & 0xf0) as u8
}

/// Descriptor round trip: packing fields into a descriptor and reading them
/// back out gives the base and the access byte unchanged, the limit's 20
/// bits and the flag nibble.
pub proof fn lemma_descriptor_round_trip(base: u32, limit: u32, access: u8, flags: u8)
    ensures
        descriptor_base(descriptor_spec(base, limit, access, flags)) == base,
        descriptor_limit(descriptor_spec(base, limit, access, flags)) == limit & 0xf_ffff,
        descriptor_access(descriptor_spec(base, limit, access, flags)) == access,
        descriptor_flags(descriptor_spec(base, limit, access, flags)) == flags & 0xf0,
{
    let d = descriptor_spec(base, limit, access, flags);
    assert(descriptor_base(d) == base) by (bit_vector)
        requires
            d == descriptor_spec(base, limit, access, flags),
    ;
    assert(descriptor_limit(d) == limit & 0xf_ffff) by (bit_vector)
        requires
            d == descriptor_spec(base, limit, access, flags),
    ;
    assert(descriptor_access(d) == access) by (bit_vector)
        requires
            d == descriptor_spec(base, limit, access, flags),
    ;
    assert(descriptor_flags(d) == flags & 0xf0) by (bit_vector)
        requires
            d == descriptor_spec(base, limit, access, flags),
    ;
}

/// A segment descriptor under construction.
pub struct GdtSegment {
    access_byte: u8,
    flag: u8,
    base: u32,
    limit: u32,
}

impl View for GdtSegment {
    type V = SegmentView;

    closed spec fn view(&self) -> SegmentView {
        SegmentView { access: self.access_byte, flags: self.flag, base: self.base, limit: self.limit }
    }
}

impl GdtSegment {
    /// A segment with these bounds, no access bit and no flag.
    pub fn new(base: u32, limit: u32) -> (r: GdtSegment)
        ensures
            r@ == (SegmentView { access: 0, flags: 0, base, limit }),
    {
        GdtSegment { access_byte: 0, flag: 0, base, limit }
    }

    pub fn access_byte(&self) -> (r: u8)
        ensures
            r == self@.access,
    {
        self.access_byte
    }

    pub fn flag(&self) -> (r: u8)
        ensures
            r == self@.flags,
    {
        self.flag
    }

    pub fn base(&self) -> (r: u32)
        ensures
            r == self@.base,
    {
        self.base
    }

    pub fn limit(&self) -> (r: u32)
        ensures
            r == self@.limit,
    {
        self.limit
    }

    /// The packed 64-bit descriptor.
    pub fn as_u64(&self) -> (r: u64)
        ensures
            r == descriptor_spec(self@.base, self@.limit, self@.access, self@.flags),
    {
        let b32 = self.base;
        let l32 = self.limit;
        let fl = self.flag;
        let acc = self.access_byte;
        let base = b32 as u64;
        let limit = l32 as u64;
        let mut high: u64 = limit & 0x000f_0000;
        high = high | (((fl as u64) << 16u64) & 0x00f0_0000);
        high = high | (((acc as u64) << 8u64) & 0x0000_ff00);
        high = high | ((base >> 16u64) & 0x0000_00ff);
        high = high | (base & 0xff00_0000);
        let low: u64 = ((base & 0xffff) << 16u64) | (limit & 0xffff);
        let desc = (high << 32u64) | low;
        assert(desc == descriptor_spec(b32, l32, acc, fl)) by (bit_vector)
            requires
                base == b32 as u64,
                limit == l32 as u64,
                desc == ((((((limit & 0x000f_0000) | (((fl as u64) << 16u64) & 0x00f0_0000)) | (
                ((acc as u64) << 8u64) & 0x0000_ff00)) | ((base >> 16u64) & 0x0000_00ff)) | (base
                    & 0xff00_0000)) << 32u64) | (((base & 0xffff) << 16u64) | (limit & 0xffff)),
        ;
        desc
    }

    /// The segment that descriptor `n` describes.
    pub fn from_u64(n: u64) -> (r: GdtSegment)
        ensures
            r@ == (SegmentView {
                access: descriptor_access(n),
                flags: descriptor_flags(n),
                base: descriptor_base(n),
                limit: descriptor_limit(n),
            }),
    {
        GdtSegment {
            access_byte: ((n >> 40u64) & 0xff) as u8,
            flag: ((n >> 48u64) & 0xf0) as u8,
            base: (((n >> 16u64) & 0xff_ffff) | ((n >> 56u64) << 24u64)) as u32,
            limit: ((n & 0xffff) | (((n >> 48u64) & 0xf) << 16u64)) as u32,
        }
    }

    /// The flag nibble and the access byte as one word: flags in the high byte.
    pub fn flag_as_u16(self) -> (r: u16)
        ensures
            r == (self@.flags as u16) * 256 + self@.access as u16,
    {
        let fl = self.flag;
        let acc = self.access_byte;
        let r = ((fl as u16) << 8u16) | (acc as u16);
        assert(r == (fl as u16) * 256 + acc as u16) by (bit_vector)
            requires
                r == ((fl as u16) << 8u16) | (acc as u16),
        ;
        r
    }

    /// Toggles the access-byte bit `item`.
    pub fn with_access_byte(self, item: AccessByte) -> (r: GdtSegment)
        ensures
            r@ == (SegmentView { access: self@.access ^ access_bit(item), ..self@ }),
    {
        let mut s = self;
        s.access_byte = s.access_byte ^ item.bit();
        s
    }

    /// Sets the descriptor privilege level; levels above 3 are rejected.
    pub fn set_privilege(self, privilege_level: u8) -> (r: Result<GdtSegment, GdtError>)
        ensures
            privilege_level > 3 <==> r == Err::<GdtSegment, _>(GdtError::InvalidPrivilege),
            privilege_level <= 3 ==> (r matches Ok(s) && s@ == (SegmentView {
                access: (self@.access & !PRIVILEGE_MASK) | (privilege_level * 32) as u8,
                ..self@
            })),
    {
        if privilege_level > 3 {
            return Err(GdtError::InvalidPrivilege);
        }
        let mut s = self;
        s.access_byte = s.access_byte & !PRIVILEGE_MASK;
        s.access_byte = s.access_byte | (privilege_level * 32);
        Ok(s)
    }

    /// Sets or clears page granularity.
    pub fn set_page_granularity(self, enable: bool) -> (r: GdtSegment)
        ensures
            r@ == (SegmentView {
                flags: if enable {
                    self@.flags | FLAG_GRANULARITY
                } else {
                    self@.flags & !FLAG_GRANULARITY
                },
                ..self@
            }),
    {
        let mut s = self;
        if enable {
            s.flag = s.flag | FLAG_GRANULARITY;
        } else {
            s.flag = s.flag & !FLAG_GRANULARITY;
        }
        s
    }

    /// Sets or clears 32-bit operand size.
    pub fn set_32bit_segment_size(self, enable: bool) -> (r: GdtSegment)
        ensures
            r@ == (SegmentView {
                flags: if enable {
                    self@.flags | FLAG_SIZE_32
                } else {
                    self@.flags & !FLAG_SIZE_32
                },
                ..self@
            }),
    {
        let mut s = self;
        if enable {
            s.flag = s.flag | FLAG_SIZE_32;
        } else {
            s.flag = s.flag & !FLAG_SIZE_32;
        }
        s
    }

    /// Sets or clears long mode. Setting it is rejected on a segment with
    /// 32-bit operand size, and on one that is not executable.
    pub fn set_long_mode(self, enable: bool) -> (r: Result<GdtSegment, GdtError>)
        ensures
            r == Err::<GdtSegment, _>(GdtError::LongModeWith32BitSize) <==> enable && self@.flags
                & FLAG_SIZE_32 != 0,
            r == Err::<GdtSegment, _>(GdtError::LongModeNonExecutable) <==> enable && self@.flags
                & FLAG_SIZE_32 == 0 && self@.access & access_bit(AccessByte::Executable) == 0,
            r is Ok <==> !enable || (self@.flags & FLAG_SIZE_32 == 0 && self@.access & access_bit(
                AccessByte::Executable) != 0),
            r matches Ok(s) ==> s@ == (SegmentView {
                flags: if enable {
                    self@.flags | FLAG_LONG_MODE
                } else {
                    self@.flags & !FLAG_LONG_MODE
                },
                ..self@
            }),
    {
        let mut s = self;
        if enable {
            if s.flag & FLAG_SIZE_32 != 0 {
                return Err(GdtError::LongModeWith32BitSize);
            }
            if s.access_byte & AccessByte::Executable.bit() == 0 {
                return Err(GdtError::LongModeNonExecutable);
            }
            s.flag = s.flag | FLAG_LONG_MODE;
        } else {
            s.flag = s.flag & !FLAG_LONG_MODE;
        }
        Ok(s)
    }
}

/// The flat kernel code descriptor: base 0, limit 0xFFFFF in 4 KiB pages,
/// present, ring 0, executable and accessed, 32-bit.
pub const KERNEL_CODE_DESCRIPTOR: u64 = 0x00cf_9900_0000_ffff;

/// The flat kernel data descriptor: as the code one, but read-write instead
/// of executable.
pub const KERNEL_DATA_DESCRIPTOR: u64 = 0x00cf_9300_0000_ffff;

/// The three descriptors of the kernel's table: null, flat code, flat data.
pub fn create_gdt_entries() -> (r: [u64; 3])
    ensures
        r@ == seq![0u64, KERNEL_CODE_DESCRIPTOR, KERNEL_DATA_DESCRIPTOR],
{
    let code = GdtSegment::new(0, 0xffff_ffff).with_access_byte(AccessByte::Present).with_access_byte(
        AccessByte::NotSystemDescriptor,
    ).with_access_byte(AccessByte::Executable).with_access_byte(
        AccessByte::Accessed,
    ).set_32bit_segment_size(true).set_page_granularity(true);
    let data = GdtSegment::new(0, 0xffff_ffff).with_access_byte(AccessByte::Present).with_access_byte(
        AccessByte::NotSystemDescriptor,
    ).with_access_byte(AccessByte::ReadWrite).with_access_byte(
        AccessByte::Accessed,
    ).set_32bit_segment_size(true).set_page_granularity(true);
    let blank = GdtSegment::new(0, 0);
    let c = code.as_u64();
    let d = data.as_u64();
    let b = blank.as_u64();
    assert(descriptor_spec(0, 0xffff_ffff, 0x99, 0xc0) == 0x00cf_9900_0000_ffffu64) by (bit_vector);
    assert(descriptor_spec(0, 0xffff_ffff, 0x93, 0xc0) == 0x00cf_9300_0000_ffffu64) by (bit_vector);
    assert(descriptor_spec(0, 0, 0, 0) == 0u64) by (bit_vector);
    assert(((((0u8 ^ 0x80u8) ^ 0x10u8) ^ 0x08u8) ^ 0x01u8) == 0x99u8) by (bit_vector);
    assert(((((0u8 ^ 0x80u8) ^ 0x10u8) ^ 0x02u8) ^ 0x01u8) == 0x93u8) by (bit_vector);
    assert(((0u8 | 0x40u8) | 0x80u8) == 0xc0u8) by (bit_vector);
    let r = [b, c, d];
    assert(r@ =~= seq![0u64, KERNEL_CODE_DESCRIPTOR, KERNEL_DATA_DESCRIPTOR]);
    r
}

/// Value of a descriptor-table register's limit field for a table of
/// `entries` 8-byte descriptors: its byte length minus one.
pub fn table_limit(entries: usize) -> (r: u16)
    requires
        1 <= entries <= 8192,
    ensures
        r == 8 * entries - 1,
{
    (entries * 8 - 1) as u16
}

/// What the descriptor-table load instructions read: the table's byte
/// length minus one and its linear address.
#[derive(Clone, Copy, Debug, PartialEq, Eq, Structural)]
pub struct GdtTable {
    pub limit: u16,
    pub base: u32,
}

impl GdtTable {
    /// The register value for a table of `entries` descriptors at `base`.
    pub fn new(base: u32, entries: usize) -> (r: GdtTable)
        requires
            1 <= entries <= 8192,
        ensures
            r.base == base,
            r.limit == 8 * entries - 1,
    {
        GdtTable { limit: table_limit(entries), base }
    }
}

} // verus!
