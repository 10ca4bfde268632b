//! The interrupt descriptor table and the legacy interrupt controller.
use vstd::prelude::*;
use crate::bits::CanManipulateBits;
use crate::gdt::{table_limit, KERNEL_CODE_SELECTOR};

verus! {

/// Number of entries of the interrupt descriptor table.
pub const IDT_TABLE_SIZE: usize = 256;

/// Vector of the general-protection fault.
pub const GENERAL_PROTECTION_VECTOR: usize = 13;

/// The kind of a gate descriptor.
#[derive(Clone, Copy, Debug, PartialEq, Eq, Structural)]
pub enum GateType {
    Task,
    Interrupt16Bit,
    Trap16Bit,
    Interrupt32Bit,
    Trap32Bit,
}

/// The 4-bit type code of `g`.
pub open spec fn gate_type_code(g: GateType) -> u8 {
    match g {
        GateType::Task => 0x5,
        GateType::Interrupt16Bit => 0x6,
        GateType::Trap16Bit => 0x7,
        GateType::Interrupt32Bit => 0xe,
        GateType::Trap32Bit => 0xf,
    }
}

impl GateType {
    pub fn code(self) -> (r: u8)
        ensures
            r == gate_type_code(self),
    {
        match self {
            GateType::Task => 0x5,
            GateType::Interrupt16Bit => 0x6,
            GateType::Trap16Bit => 0x7,
            GateType::Interrupt32Bit => 0xe,
            GateType::Trap32Bit => 0xf,
        }
    }
}

/// The 64-bit gate descriptor: handler address bits 0-15 at bits 0-15, the
/// code-segment selector at bits 16-31, its type code at bits 40-43, the
/// privilege level at bits 45-46, the present flag at bit 47 and handler
/// address bits 16-31 at bits 48-63.
pub open spec fn gate_spec(isr: u32, selector: u16, gate_type: u8, dpl: u8) -> u64 {
    ((isr as u64) & 0xffff) | ((selector as u64) << 16u64) | (((gate_type as u64) & 0xf)
        << 40u64) | (((dpl as u64) & 0x3) << 45u64) | (1u64 << 47u64) | (((isr as u64)
        >> 16u64) << 48u64)
}

/// The present flag of gate `d`.
pub open spec fn gate_present(d: u64) -> bool {
    (d >> 47u64) & 1 == 1
}

/// The handler address that gate `d` holds.
pub open spec fn gate_offset(d: u64) -> u32 {
    ((d & 0xffff) | ((d >> 48u64) << 16u64)) as u32
}

/// What an interrupt vector of the kernel holds for handler `isr`:
/// a 32-bit interrupt gate into the kernel code segment, at privilege 0.
pub open spec fn kernel_gate(isr: u32) -> u64 {
    gate_spec(isr, KERNEL_CODE_SELECTOR, gate_type_code(GateType::Interrupt32Bit), 0)
}

proof fn lemma_gate_fields(isr: u32, selector: u16, gate_type: u8, dpl: u8)
    ensures
        gate_present(gate_spec(isr, selector, gate_type, dpl)),
        gate_offset(gate_spec(isr, selector, gate_type, dpl)) == isr,
{
    let d = gate_spec(isr, selector, gate_type, dpl);
    assert(gate_present(d) && gate_offset(d) == isr) by (bit_vector)
        requires
            d == gate_spec(isr, selector, gate_type, dpl),
    ;
}

/// One entry of the interrupt descriptor table.
#[derive(Clone, Copy)]
pub struct Entry(u64);

impl View for Entry {
    type V = u64;

    closed spec fn view(&self) -> u64 {
        self.0
    }
}

impl Entry {
    /// The all-zero entry: not present.
    pub fn new_invalid() -> (r: Entry)
        ensures
            r@ == 0,
    {
        Entry(0)
    }

    /// A present gate to handler address `isr` in segment
    /// `segment_selector`, callable by software from privilege `dpl`.
    pub fn new(isr: u32, segment_selector: u16, gate_type: GateType, dpl: u8) -> (r: Entry)
        requires
            dpl <= 3,
        ensures
            r@ == gate_spec(isr, segment_selector, gate_type_code(gate_type), dpl),
    {
        let code = gate_type.code();
        let lo = isr as u64 & 0xffff;
        let hi = (isr >> 16u32) as u64;
        let sel = segment_selector as u64;
        let ty = code as u64;
        let pl = dpl as u64;
        let e1 = 0u64.set_bits(0, 16, lo);
        let e2 = e1.set_bits(48, 16, hi);
        let e3 = e2.set_bits(16, 16, sel);
        let e4 = e3.set_bits(40, 4, ty);
        let e5 = e4.set_bits(45, 2, pl);
        let e6 = e5.set_one_bit(47, true);
        assert(e6 == gate_spec(isr, segment_selector, code, dpl)) by (bit_vector)
            requires
                lo == (isr as u64) & 0xffff,
                hi == (isr >> 16u32) as u64,
                sel == segment_selector as u64,
                ty == code as u64,
                pl == dpl as u64,
                code <= 0xf,
                dpl <= 3,
                e1 == (0u64 & !((((1u64 << 16u64) - 1) as u64) << 0u64)) | ((lo << 0u64) & ((((1u64
                    << 16u64) - 1) as u64) << 0u64)),
                e2 == (e1 & !((((1u64 << 16u64) - 1) as u64) << 48u64)) | ((hi << 48u64) & ((((
                1u64 << 16u64) - 1) as u64) << 48u64)),
                e3 == (e2 & !((((1u64 << 16u64) - 1) as u64) << 16u64)) | ((sel << 16u64) & ((((
                1u64 << 16u64) - 1) as u64) << 16u64)),
                e4 == (e3 & !((((1u64 << 4u64) - 1) as u64) << 40u64)) | ((ty << 40u64) & ((((1u64
                    << 4u64) - 1) as u64) << 40u64)),
                e5 == (e4 & !((((1u64 << 2u64) - 1) as u64) << 45u64)) | ((pl << 45u64) & ((((1u64
                    << 2u64) - 1) as u64) << 45u64)),
                e6 == e5 | (1u64 << 47u64),
        ;
        Entry(e6)
    }

    pub fn value(&self) -> (r: u64)
        ensures
            r == self@,
    {
        self.0
    }

    /// Whether both halves of the handler address are zero.
    pub fn has_no_handler(&self) -> (r: bool)
        ensures
            r == (gate_offset(self@) == 0),
    {
        let d = self.0;
        let r = (d & 0xffff) == 0 && (d >> 48u64) == 0;
        assert(r == (gate_offset(d) == 0)) by (bit_vector)
            requires
                r == ((d & 0xffff) == 0 && (d >> 48u64) == 0),
        ;
        r
    }
}

/// An entry that the table may hold before it is loaded: empty, or a
/// present gate.
pub open spec fn entry_ok(d: u64) -> bool {
    d == 0 || gate_present(d)
}

/// The table once every entry without a handler address got the dummy
/// handler `dummy`.
pub open spec fn fill_spec(t: Seq<u64>, dummy: u32) -> Seq<u64> {
    Seq::new(
        t.len(),
        |i: int|
            if gate_offset(t[i]) == 0 {
                kernel_gate(dummy)
            } else {
                t[i]
            },
    )
}

/// The interrupt descriptor table.
pub struct InterruptTable {
    inner: Vec<Entry>,
}

impl View for InterruptTable {
    type V = Seq<u64>;

    closed spec fn view(&self) -> Seq<u64> {
        self.inner@.map_values(|e: Entry| e@)
    }
}

impl InterruptTable {
    /// 256 entries, each of them empty or a present gate.
    pub open spec fn wf(&self) -> bool {
        &&& self@.len() == IDT_TABLE_SIZE
        &&& forall|i: int| 0 <= i < IDT_TABLE_SIZE ==> entry_ok(#[trigger] self@[i])
    }

    /// A table of 256 empty entries.
    pub fn new() -> (r: InterruptTable)
        ensures
            r.wf(),
            r@ == Seq::new(IDT_TABLE_SIZE as nat, |i: int| 0u64),
    {
        let mut inner: Vec<Entry> = Vec::new();
        let mut i: usize = 0;
        while i < IDT_TABLE_SIZE
            invariant
                i <= IDT_TABLE_SIZE,
                inner@.len() == i,
                forall|j: int| 0 <= j < i ==> (#[trigger] inner@[j])@ == 0,
            decreases IDT_TABLE_SIZE - i,
        {
            inner.push(Entry::new_invalid());
            i = i + 1;
        }
        let r = InterruptTable { inner };
        assert(r@ =~= Seq::new(IDT_TABLE_SIZE as nat, |i: int| 0u64));
        r
    }

    /// The entry of vector `i`.
    pub fn entry(&self, i: usize) -> (r: Entry)
        requires
            self.wf(),
            i < IDT_TABLE_SIZE,
        ensures
            r@ == self@[i as int],
    {
        self.inner[i]
    }

    /// Points vector `entry_id` at handler address `isr`.
    pub fn set_interrupt(&mut self, entry_id: usize, isr: u32)
        requires
            old(self).wf(),
            entry_id < IDT_TABLE_SIZE,
        ensures
            final(self).wf(),
            final(self)@ == old(self)@.update(entry_id as int, kernel_gate(isr)),
    {
        let entry = Entry::new(isr, KERNEL_CODE_SELECTOR, GateType::Interrupt32Bit, 0);
        self.inner.set(entry_id, entry);
        proof {
            lemma_gate_fields(isr, KERNEL_CODE_SELECTOR, gate_type_code(GateType::Interrupt32Bit), 0);
            assert(self@ =~= old(self)@.update(entry_id as int, kernel_gate(isr)));
        }
    }

    /// Gives the dummy handler `dummy` to every entry whose handler address
    /// is zero, so that no vector is left without a gate.
    pub fn fill_unset(&mut self, dummy: u32)
        requires
            old(self).wf(),
        ensures
            final(self).wf(),
            final(self)@ == fill_spec(old(self)@, dummy),
    {
        let gate = Entry::new(dummy, KERNEL_CODE_SELECTOR, GateType::Interrupt32Bit, 0);
        proof {
            lemma_gate_fields(dummy, KERNEL_CODE_SELECTOR, gate_type_code(GateType::Interrupt32Bit), 0);
        }
        let mut i: usize = 0;
        while i < IDT_TABLE_SIZE
            invariant
                i <= IDT_TABLE_SIZE,
                gate@ == kernel_gate(dummy),
                gate_present(gate@),
                old(self).wf(),
                self.wf(),
                forall|j: int| 0 <= j < i ==> #[trigger] self@[j] == fill_spec(old(self)@, dummy)[j],
                forall|j: int| i <= j < IDT_TABLE_SIZE ==> #[trigger] self@[j] == old(self)@[j],
            decreases IDT_TABLE_SIZE - i,
        {
            let ghost before = self@;
            let e = self.inner[i];
            assert(e@ == before[i as int]);
            assert(fill_spec(old(self)@, dummy)[i as int] == if gate_offset(before[i as int]) == 0 {
                kernel_gate(dummy)
            } else {
                before[i as int]
            });
            if e.has_no_handler() {
                self.inner.set(i, gate);
                assert(self@ =~= before.update(i as int, gate@));
            }
            i = i + 1;
        }
        assert(self@ =~= fill_spec(old(self)@, dummy));
    }
}

/// Completeness: once the table is filled, every one of its 256 entries is
/// a present gate, with a handler of its own or the dummy one; with a
/// nonzero dummy address, no entry is left without a handler address.
pub proof fn lemma_idt_complete(t: Seq<u64>, dummy: u32)
    requires
        t.len() == IDT_TABLE_SIZE,
        forall|i: int| 0 <= i < IDT_TABLE_SIZE ==> entry_ok(#[trigger] t[i]),
    ensures
        fill_spec(t, dummy).len() == IDT_TABLE_SIZE,
        forall|i: int| 0 <= i < IDT_TABLE_SIZE ==> gate_present(#[trigger] fill_spec(t, dummy)[i]),
        dummy != 0 ==> forall|i: int|
            0 <= i < IDT_TABLE_SIZE ==> gate_offset(#[trigger] fill_spec(t, dummy)[i]) != 0,
{
    lemma_gate_fields(dummy, KERNEL_CODE_SELECTOR, gate_type_code(GateType::Interrupt32Bit), 0);
    assert forall|i: int| 0 <= i < IDT_TABLE_SIZE implies gate_present(
        #[trigger] fill_spec(t, dummy)[i],
    ) by {
        let d = t[i];
        assert(d == 0 ==> gate_offset(d) == 0) by (bit_vector);
    }
}

/// What the interrupt-table load instruction reads: the table's byte
/// length minus one and its linear address.
#[derive(Clone, Copy, Debug, PartialEq, Eq, Structural)]
pub struct Idtr {
    pub limit: u16,
    pub base: u32,
}

impl Idtr {
    /// The register value for the 256-entry table at `base`.
    pub fn new(base: u32) -> (r: Idtr)
        ensures
            r.base == base,
            r.limit == 8 * IDT_TABLE_SIZE - 1,
    {
        Idtr { limit: table_limit(IDT_TABLE_SIZE), base }
    }
}

} // verus!
