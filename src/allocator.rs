//! The physical bump allocator: an arena carved out of the first usable
//! memory region, handing out increasing addresses and reclaimed only as a
//! whole, when every allocation has been freed.
//!
//! A release never gives back its own bytes; once the count of live
//! allocations is zero the cursor returns to the start, even if memory
//! handed out earlier is still in use. That suits the early-boot phase, in
//! which allocations share one lifetime, and nothing else.
use vstd::prelude::*;
use crate::multiboot::{MmapEntry, MMAP_USABLE};
use crate::mutex::{SpinMutex, SpinMutexGuard};

verus! {

/// Guard kept free on either side of the kernel image.
pub const KERNEL_PADDING: u64 = 4;

/// The arena's state, as plain numbers.
pub struct ArenaView {
    pub start: int,
    pub end: int,
    pub next: int,
    pub allocs: int,
}

/// The arena's bounds hold its cursor, and an arena with nothing allocated
/// has its cursor at the start.
pub open spec fn arena_wf(v: ArenaView) -> bool {
    &&& 0 <= v.start <= v.next <= v.end <= usize::MAX
    &&& 0 <= v.allocs <= usize::MAX
    &&& v.allocs == 0 ==> v.next == v.start
}

/// The least multiple of `align` that is at least `addr`.
pub open spec fn align_up_spec(addr: int, align: int) -> int {
    ((addr + align - 1) / align) * align
}

proof fn lemma_align_up_bounds(addr: int, align: int)
    requires
        addr >= 0,
        align > 0,
    ensures
        addr <= align_up_spec(addr, align) < addr + align,
        align_up_spec(addr, align) % align == 0,
{
    let x = addr + align - 1;
    let q = x / align;
    vstd::arithmetic::div_mod::lemma_fundamental_div_mod(x, align);
    assert(0 <= x % align < align);
    assert(q * align == align * q) by (nonlinear_arith);
    assert((q * align) % align == 0) by (nonlinear_arith)
        requires
            align > 0,
    ;
}

/// An allocation of `size` bytes aligned to `align`: the new arena and the
/// address handed out, or the arena unchanged and `None` when the aligned
/// cursor plus `size` passes the end.
pub open spec fn alloc_spec(v: ArenaView, size: int, align: int) -> (ArenaView, Option<int>) {
    let a = align_up_spec(v.next, align);
    if a + size <= v.end {
        (ArenaView { next: a + size, allocs: v.allocs + 1, ..v }, Some(a))
    } else {
        (v, None)
    }
}

/// A release: one allocation fewer, and the cursor back at the start when
/// none is left.
pub open spec fn dealloc_spec(v: ArenaView) -> ArenaView {
    if v.allocs - 1 == 0 {
        ArenaView { next: v.start, allocs: 0, ..v }
    } else {
        ArenaView { allocs: v.allocs - 1, ..v }
    }
}

/// The least multiple of `align` that is at least `addr`.
pub fn align_up(addr: usize, align: usize) -> (r: u128)
    requires
        align > 0,
    ensures
        r == align_up_spec(addr as int, align as int),
        addr <= r < addr + align,
        r as int % (align as int) == 0,
{
    let a: u128 = addr as u128 + align as u128 - 1;
    let rem: u128 = a % (align as u128);
    proof {
        lemma_align_up_bounds(addr as int, align as int);
        vstd::arithmetic::div_mod::lemma_fundamental_div_mod(a as int, align as int);
        let q = a as int / align as int;
        assert(q * align == align * q) by (nonlinear_arith);
    }
    a - rem
}

/// The bump allocator over one arena of physical memory.
pub struct BumpAlloc {
    start: usize,
    end: usize,
    next: usize,
    allocs: usize,
}

impl View for BumpAlloc {
    type V = ArenaView;

    closed spec fn view(&self) -> ArenaView {
        ArenaView {
            start: self.start as int,
            end: self.end as int,
            next: self.next as int,
            allocs: self.allocs as int,
        }
    }
}

/// Why the arena could not be set up.
#[derive(Clone, Copy, Debug, PartialEq, Eq, Structural)]
pub enum AllocInitError {
    /// No region is usable RAM at a nonzero base address.
    NoUsableMemory,
    /// Once the kernel image is cut out, the region ends before it starts.
    NoMemoryLeft,
    /// The arena's bounds do not fit in a `usize`.
    AddressOverflow,
}

/// A region that the arena may be carved from: usable RAM at a nonzero base.
pub open spec fn is_arena_candidate(e: MmapEntry) -> bool {
    e.type_ == MMAP_USABLE && e.base_addr != 0
}

/// Start of the arena carved from `e`: past the kernel image when the region
/// starts below the kernel's end.
pub open spec fn arena_start_spec(e: MmapEntry, kernel_end: u64) -> int {
    if e.base_addr < kernel_end {
        kernel_end + KERNEL_PADDING
    } else {
        e.base_addr as int
    }
}

/// End of the arena carved from `e`: when the region ends before the
/// kernel starts, kept at least the padding below the kernel's start. The
/// end is only ever lowered, never moved past the region.
pub open spec fn arena_end_spec(e: MmapEntry, kernel_start: u64) -> int {
    let region_end = e.base_addr + e.length;
    if region_end < kernel_start && kernel_start - KERNEL_PADDING < region_end {
        kernel_start - KERNEL_PADDING
    } else {
        region_end
    }
}

/// Index of the first candidate region of `es`.
pub open spec fn first_candidate(es: Seq<MmapEntry>, i: int) -> bool {
    &&& 0 <= i < es.len()
    &&& is_arena_candidate(es[i])
    &&& forall|j: int| 0 <= j < i ==> !is_arena_candidate(#[trigger] es[j])
}

impl BumpAlloc {
    /// An allocator over the empty arena at address 0.
    pub fn new() -> (r: BumpAlloc)
        ensures
            r@ == (ArenaView { start: 0, end: 0, next: 0, allocs: 0 }),
            arena_wf(r@),
    {
        BumpAlloc { start: 0, end: 0, next: 0, allocs: 0 }
    }

    pub fn start(&self) -> (r: usize)
        ensures
            r == self@.start,
    {
        self.start
    }

    pub fn end(&self) -> (r: usize)
        ensures
            r == self@.end,
    {
        self.end
    }

    pub fn next(&self) -> (r: usize)
        ensures
            r == self@.next,
    {
        self.next
    }

    pub fn allocs(&self) -> (r: usize)
        ensures
            r == self@.allocs,
    {
        self.allocs
    }

    /// Sets the arena up from the boot memory map and the kernel image's
    /// bounds: the first region that is usable RAM at a nonzero base, with
    /// its start moved past the kernel's end (plus padding) when it starts
    /// below it, and its end lowered to the padding below the kernel's start
    /// when it ends within that padding. The arena never leaves the region.
    /// On error the allocator is unchanged.
    pub fn init(&mut self, entries: &[MmapEntry], kernel_start: u64, kernel_end: u64) -> (r:
        Result<(), AllocInitError>)
        ensures
            r == Err::<(), _>(AllocInitError::NoUsableMemory) <==> forall|j: int|
                0 <= j < entries@.len() ==> !is_arena_candidate(#[trigger] entries@[j]),
            r is Err ==> final(self)@ == old(self)@,
            forall|i: int|
                first_candidate(entries@, i) ==> {
                    let s = arena_start_spec(entries@[i], kernel_end);
                    let e = arena_end_spec(entries@[i], kernel_start);
                    &&& (r == Err::<(), _>(AllocInitError::NoMemoryLeft) <==> e < s)
                    &&& (r == Err::<(), _>(AllocInitError::AddressOverflow) <==> s <= e
                        && e > usize::MAX)
                    &&& (r is Ok <==> s <= e <= usize::MAX)
                    &&& r is Ok ==> final(self)@ == (ArenaView {
                        start: s,
                        end: e,
                        next: s,
                        allocs: 0,
                    })
                    &&& r is Ok ==> entries@[i].base_addr <= final(self)@.start
                        && final(self)@.end <= entries@[i].base_addr + entries@[i].length
                },
            r is Ok ==> arena_wf(final(self)@),
    {
        let mut i: usize = 0;
        while i < entries.len() && !(entries[i].type_ == MMAP_USABLE && entries[i].base_addr != 0)
            invariant
                i <= entries@.len(),
                forall|j: int| 0 <= j < i ==> !is_arena_candidate(#[trigger] entries@[j]),
            decreases entries@.len() - i,
        {
            i = i + 1;
        }
        if i == entries.len() {
            return Err(AllocInitError::NoUsableMemory);
        }
        let block = entries[i];
        assert(first_candidate(entries@, i as int));
        let region_end: u128 = block.base_addr as u128 + block.length as u128;
        let mut end: u128 = region_end;
        if region_end < kernel_start as u128 {
            if kernel_start < KERNEL_PADDING {
                return Err(AllocInitError::NoMemoryLeft);
            }
            let below_kernel = (kernel_start - KERNEL_PADDING) as u128;
            if below_kernel < region_end {
                end = below_kernel;
            }
        }
        let mut start: u128 = block.base_addr as u128;
        if start < kernel_end as u128 {
            start = kernel_end as u128 + KERNEL_PADDING as u128;
        }
        if end < start {
            return Err(AllocInitError::NoMemoryLeft);
        }
        if end > usize::MAX as u128 {
            return Err(AllocInitError::AddressOverflow);
        }
        self.start = start as usize;
        self.end = end as usize;
        self.next = start as usize;
        self.allocs = 0;
        Ok(())
    }

    /// Hands out `size` bytes aligned to `align`: the aligned cursor, which
    /// then moves past them. `None`, with nothing changed, when they do not
    /// fit before the arena's end.
    pub fn allocate(&mut self, size: usize, align: usize) -> (r: Option<usize>)
        requires
            arena_wf(old(self)@),
            align > 0,
            old(self)@.allocs < usize::MAX,
        ensures
            arena_wf(final(self)@),
            final(self)@ == alloc_spec(old(self)@, size as int, align as int).0,
            r is None <==> alloc_spec(old(self)@, size as int, align as int).1 is None,
            r matches Some(a) ==> alloc_spec(old(self)@, size as int, align as int).1 == Some(
                a as int,
            ),
            r matches Some(a) ==> old(self)@.start <= a && a + size <= old(self)@.end && a
                as int % (align as int) == 0,
    {
        let a = align_up(self.next, align);
        if a + size as u128 > self.end as u128 {
            return None;
        }
        let addr = a as usize;
        self.next = addr + size;
        self.allocs = self.allocs + 1;
        Some(addr)
    }

    /// Releases one allocation; when none is left the whole arena is free
    /// again and the cursor goes back to the start.
    pub fn deallocate(&mut self)
        requires
            arena_wf(old(self)@),
            old(self)@.allocs > 0,
        ensures
            arena_wf(final(self)@),
            final(self)@ == dealloc_spec(old(self)@),
    {
        self.allocs = self.allocs - 1;
        if self.allocs == 0 {
            self.next = self.start;
        }
    }
}

/// Every address that the arena hands out lies within its bounds, and an
/// allocation fails only when no such address is left.
pub proof fn lemma_alloc_contained(v: ArenaView, size: nat, align: nat)
    requires
        arena_wf(v),
        align > 0,
        v.allocs < usize::MAX,
    ensures
        arena_wf(alloc_spec(v, size as int, align as int).0),
        alloc_spec(v, size as int, align as int).1 matches Some(a) ==> v.start <= a && a + size
            <= v.end,
        alloc_spec(v, size as int, align as int).1 is None <==> align_up_spec(v.next, align as int)
            + size > v.end,
{
    lemma_align_up_bounds(v.next, align as int);
}

/// A call on the arena: an allocation of a size with an alignment, or a release.
pub enum ArenaOp {
    Allocate(usize, usize),
    Release,
}

/// The arena after `op`, for a call that its contract admits; a call that
/// it does not admit leaves the arena as it is.
pub open spec fn apply_op(v: ArenaView, op: ArenaOp) -> ArenaView {
    match op {
        ArenaOp::Allocate(size, align) => if align > 0 && v.allocs < usize::MAX {
            alloc_spec(v, size as int, align as int).0
        } else {
            v
        },
        ArenaOp::Release => if v.allocs > 0 {
            dealloc_spec(v)
        } else {
            v
        },
    }
}

/// The arena after the calls of `ops`, in order.
pub open spec fn run_ops(v: ArenaView, ops: Seq<ArenaOp>) -> ArenaView
    decreases ops.len(),
{
    if ops.len() == 0 {
        v
    } else {
        apply_op(run_ops(v, ops.drop_last()), ops.last())
    }
}

/// Containment over any sequence of calls: the arena keeps its bounds and
/// stays well formed, so every later allocation lies within the bounds it
/// was set up with.
pub proof fn lemma_ops_contained(v: ArenaView, ops: Seq<ArenaOp>, size: nat, align: nat)
    requires
        arena_wf(v),
        align > 0,
    ensures
        arena_wf(run_ops(v, ops)),
        run_ops(v, ops).start == v.start,
        run_ops(v, ops).end == v.end,
        run_ops(v, ops).allocs < usize::MAX ==> (alloc_spec(run_ops(v, ops), size as int, align as int).1 matches Some(a) ==> v.start <= a && a + size <= v.end),
    decreases ops.len(),
{
    if ops.len() > 0 {
        lemma_ops_contained(v, ops.drop_last(), size, align);
        let w = run_ops(v, ops.drop_last());
        match ops.last() {
            ArenaOp::Allocate(s, a) => {
                if a > 0 && w.allocs < usize::MAX {
                    lemma_alloc_contained(w, s as nat, a as nat);
                }
            },
            ArenaOp::Release => {},
        }
    }
    if run_ops(v, ops).allocs < usize::MAX {
        lemma_alloc_contained(run_ops(v, ops), size, align);
    }
}

/// Once the last allocation is released, the next one starts at the
/// arena's start aligned up, whatever the cursor was; at the start itself
/// when it is already aligned.
pub proof fn lemma_reset_on_zero(v: ArenaView, size: nat, align: nat)
    requires
        arena_wf(v),
        v.allocs == 1,
        align > 0,
    ensures
        dealloc_spec(v).allocs == 0,
        dealloc_spec(v).next == v.start,
        alloc_spec(dealloc_spec(v), size as int, align as int).1 matches Some(a) ==> a
            == align_up_spec(v.start, align as int),
        v.start % (align as int) == 0 ==> align_up_spec(v.start, align as int) == v.start,
{
    if v.start % (align as int) == 0 {
        let s = v.start;
        let al = align as int;
        let q = s / al;
        vstd::arithmetic::div_mod::lemma_fundamental_div_mod(s, al);
        assert(s == al * q);
        vstd::arithmetic::div_mod::lemma_div_multiples_vanish_fancy(q, al - 1, al);
        assert(s + al - 1 == al * q + (al - 1));
        assert((s + al - 1) / al == q);
        assert(q * al == al * q) by (nonlinear_arith);
    }
}

/// A value behind a spin mutex, as the kernel keeps its allocator.
pub struct Locked<T> {
    inner: SpinMutex<T>,
}

impl<T> View for Locked<T> {
    /// The value while the lock is free; `None` while it is held.
    type V = Option<T>;

    closed spec fn view(&self) -> Option<T> {
        self.inner@
    }
}

impl<T> Locked<T> {
    /// An unlocked wrapper around `inner`.
    pub fn new(inner: T) -> (r: Locked<T>)
        ensures
            r@ == Some(inner),
    {
        Locked { inner: SpinMutex::new(inner) }
    }

    /// Acquires the free lock.
    pub fn lock(&mut self) -> (r: SpinMutexGuard<T>)
        requires
            old(self)@ is Some,
        ensures
            final(self)@ is None,
            old(self)@ == Some(r@),
    {
        self.inner.lock()
    }

    /// Releases the held lock with the guard's value.
    pub fn unlock(&mut self, guard: SpinMutexGuard<T>)
        requires
            old(self)@ is None,
        ensures
            final(self)@ == Some(guard@),
    {
        self.inner.unlock(guard)
    }
}

} // verus!
