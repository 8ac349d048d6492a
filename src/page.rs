//! The bounded physical-page pool: one descriptor per page slot of a fixed,
//! contiguous physical range, with reference counts and ownership flags.
use vstd::prelude::*;

use crate::error::EINVAL;

verus! {

/// Log2 of the page size.
pub const PGSHIFT: u64 = 12;

/// Size of one page in bytes.
pub const PGSIZE: u64 = 4096;

/// Largest number of page slots a pool manages.
pub const MAX_PAGES: usize = 0x100000;

/// Flag bit: the page belongs to the pool and returns to it when released.
pub const PAGE_FLAG_POOL: u64 = 1;

/// Flag bit: the page is mapped into the address space.
pub const PAGE_FLAG_MAPPED: u64 = 2;

/// Owner tag of a page that nobody has claimed.
pub const OWNER_NONE: u64 = 0;

/// Owner tag of a page claimed by the privilege level this runtime manages.
pub const OWNER_VMPL: u64 = 1;

/// The descriptor of one physical page.
#[derive(Clone, Copy, Debug)]
pub struct Page {
    pub ref_count: u64,
    pub flags: u64,
    pub vmpl: u64,
}

pub open spec fn page_is_pool(p: Page) -> bool {
    p.flags & PAGE_FLAG_POOL != 0
}

pub open spec fn page_is_mapped(p: Page) -> bool {
    p.flags & PAGE_FLAG_MAPPED != 0
}

pub open spec fn page_is_claimed(p: Page) -> bool {
    p.vmpl == OWNER_VMPL
}

/// A page sits in the free state when the pool owns it and nobody claims it.
pub open spec fn page_is_free(p: Page) -> bool {
    page_is_pool(p) && p.vmpl == OWNER_NONE
}

/// What a pool is: the first physical address it manages and its descriptors.
pub ghost struct PoolView {
    pub base: u64,
    pub pages: Seq<Page>,
}

impl PoolView {
    /// One past the last managed physical address.
    pub open spec fn end(self) -> int {
        self.base + self.pages.len() * (PGSIZE as int)
    }

    pub open spec fn in_range(self, pa: u64) -> bool {
        self.base <= pa && pa < self.end()
    }

    /// The slot that holds the descriptor of `pa`, if `pa` is managed.
    pub open spec fn slot_of(self, pa: u64) -> Option<usize> {
        if self.in_range(pa) {
            Some(((pa - self.base) / (PGSIZE as int)) as usize)
        } else {
            None
        }
    }

    /// The physical address of the page held in slot `i`.
    pub open spec fn addr_of(self, i: int) -> int {
        self.base + i * (PGSIZE as int)
    }

    pub open spec fn wf(self) -> bool {
        &&& self.pages.len() <= MAX_PAGES
        &&& self.end() <= u64::MAX
        &&& forall|i: int|
            0 <= i < self.pages.len() ==> {
                let p = #[trigger] self.pages[i];
                &&& (p.vmpl == OWNER_NONE || p.vmpl == OWNER_VMPL)
                &&& p.vmpl == OWNER_NONE ==> p.ref_count == 0
            }
    }
}

/// A fixed-capacity table of page descriptors over a contiguous physical range.
pub struct PagePool {
    base: u64,
    pages: Vec<Page>,
}

impl View for PagePool {
    type V = PoolView;

    closed spec fn view(&self) -> PoolView {
        PoolView { base: self.base, pages: self.pages@ }
    }
}

proof fn lemma_slot_bound(off: int, n: int)
    requires
        0 <= off < n * 4096,
        0 <= n,
    ensures
        0 <= off / 4096 < n,
        (off / 4096) * 4096 <= off < (off / 4096) * 4096 + 4096,
{
    assert(0 <= off / 4096 < n) by (nonlinear_arith)
        requires 0 <= off < n * 4096, 0 <= n;
    assert((off / 4096) * 4096 <= off < (off / 4096) * 4096 + 4096) by (nonlinear_arith)
        requires 0 <= off;
}

impl PagePool {
    /// A pool over `num_pages` slots starting at physical address `base`, with
    /// every descriptor zeroed: no page is pool-owned, mapped or claimed.
    pub fn new(base: u64, num_pages: usize) -> (r: PagePool)
        requires
            num_pages <= MAX_PAGES,
            base + num_pages * PGSIZE <= u64::MAX,
        ensures
            r@.wf(),
            r@.base == base,
            r@.pages.len() == num_pages,
            forall|i: int| 0 <= i < num_pages ==> r@.pages[i] == (Page { ref_count: 0, flags: 0, vmpl: 0 }),
    {
        let mut pages: Vec<Page> = Vec::new();
        let mut i: usize = 0;
        while i < num_pages
            invariant
                i <= num_pages,
                pages@.len() == i,
                forall|j: int| 0 <= j < i ==> pages@[j] == (Page { ref_count: 0, flags: 0, vmpl: 0 }),
            decreases num_pages - i,
        {
            pages.push(Page { ref_count: 0, flags: 0, vmpl: 0 });
            i = i + 1;
        }
        PagePool { base, pages }
    }

    /// The first managed physical address.
    pub fn base(&self) -> (r: u64)
        ensures
            r == self@.base,
    {
        self.base
    }

    /// The number of page slots.
    pub fn capacity(&self) -> (r: usize)
        ensures
            r == self@.pages.len(),
    {
        self.pages.len()
    }

    /// The descriptor held in slot `i`.
    pub fn page(&self, i: usize) -> (r: Page)
        requires
            i < self@.pages.len(),
        ensures
            r == self@.pages[i as int],
    {
        self.pages[i]
    }
}

/// Translates a physical address to the slot of its descriptor; `None` when the
/// address lies outside the managed range, which callers treat as fatal.
pub fn vmpl_pa2page(pool: &PagePool, pa: u64) -> (r: Option<usize>)
    requires
        pool@.wf(),
    ensures
        r == pool@.slot_of(pa),
{
    let n = pool.pages.len();
    proof {
        assert(pool@.pages.len() == n);
    }
    if pa < pool.base {
        return None;
    }
    let off = pa - pool.base;
    let limit = (n as u64) * PGSIZE;
    if off >= limit {
        return None;
    }
    proof {
        lemma_slot_bound(off as int, n as int);
        assert(off >> 12u64 == off / 4096) by (bit_vector);
    }
    Some((off >> PGSHIFT) as usize)
}

/// The physical address of the page whose descriptor sits in slot `i`.
pub fn vmpl_page2pa(pool: &PagePool, i: usize) -> (r: u64)
    requires
        pool@.wf(),
        i < pool@.pages.len(),
    ensures
        r == pool@.addr_of(i as int),
{
    proof {
        assert(i * 4096 < pool@.pages.len() * 4096) by (nonlinear_arith)
            requires i < pool@.pages.len();
    }
    pool.base + (i as u64) * PGSIZE
}

/// Every slot is reached from exactly one page address: the page held in a slot
/// translates back to that slot.
pub proof fn lemma_slot_of_addr(v: PoolView, i: int)
    requires
        v.wf(),
        0 <= i < v.pages.len(),
    ensures
        v.addr_of(i) <= u64::MAX,
        v.slot_of(v.addr_of(i) as u64) == Some(i as usize),
{
    assert(i * 4096 + 4096 <= v.pages.len() * 4096) by (nonlinear_arith)
        requires i < v.pages.len();
    assert((i * 4096) / 4096 == i) by (nonlinear_arith);
}

/// Translating a page-aligned managed address to its slot and back gives the
/// address again; so two distinct page addresses never share a slot.
pub proof fn lemma_addr_of_slot(v: PoolView, pa: u64)
    requires
        v.wf(),
        v.in_range(pa),
        (pa - v.base) % (PGSIZE as int) == 0,
    ensures
        v.slot_of(pa) is Some,
        v.addr_of(v.slot_of(pa).unwrap() as int) == pa,
{
    let off = pa - v.base;
    lemma_slot_bound(off, v.pages.len() as int);
    assert((off / 4096) * 4096 == off) by (nonlinear_arith)
        requires off % 4096 == 0, 0 <= off;
}


/// Marks slot `i` as claimed with no references: used right after a page is
/// allocated and before its first acquire.
pub fn vmpl_page_mark(pool: &mut PagePool, i: usize)
    requires
        old(pool)@.wf(),
        i < old(pool)@.pages.len(),
    ensures
        final(pool)@.wf(),
        final(pool)@.base == old(pool)@.base,
        final(pool)@.pages == old(pool)@.pages.update(
            i as int,
            Page { ref_count: 0, vmpl: OWNER_VMPL, ..old(pool)@.pages[i as int] },
        ),
{
    let p = pool.pages[i];
    pool.pages.set(i, Page { ref_count: 0, flags: p.flags, vmpl: OWNER_VMPL });
}

/// Acquires one more reference to the claimed page in slot `i`.
pub fn vmpl_page_get(pool: &mut PagePool, i: usize)
    requires
        old(pool)@.wf(),
        i < old(pool)@.pages.len(),
        page_is_claimed(old(pool)@.pages[i as int]),
        old(pool)@.pages[i as int].ref_count < u64::MAX,
    ensures
        final(pool)@.wf(),
        final(pool)@.base == old(pool)@.base,
        final(pool)@.pages == old(pool)@.pages.update(
            i as int,
            Page { ref_count: (old(pool)@.pages[i as int].ref_count + 1) as u64, ..old(pool)@.pages[i as int] },
        ),
{
    let p = pool.pages[i];
    pool.pages.set(i, Page { ref_count: p.ref_count + 1, flags: p.flags, vmpl: p.vmpl });
}

/// Returns the pool-owned, unreferenced page in slot `i` to the free state.
pub fn vmpl_page_free(pool: &mut PagePool, i: usize)
    requires
        old(pool)@.wf(),
        i < old(pool)@.pages.len(),
        page_is_pool(old(pool)@.pages[i as int]),
        old(pool)@.pages[i as int].ref_count == 0,
    ensures
        final(pool)@.wf(),
        final(pool)@.base == old(pool)@.base,
        final(pool)@.pages == old(pool)@.pages.update(
            i as int,
            Page { vmpl: OWNER_NONE, ..old(pool)@.pages[i as int] },
        ),
        page_is_free(final(pool)@.pages[i as int]),
{
    let p = pool.pages[i];
    pool.pages.set(i, Page { ref_count: p.ref_count, flags: p.flags, vmpl: OWNER_NONE });
}

/// Releases one reference to the claimed page in slot `i`. When the count
/// reaches zero and the pool owns the page, the page goes back to the free
/// state at once; the result tells whether it did.
pub fn vmpl_page_put(pool: &mut PagePool, i: usize) -> (freed: bool)
    requires
        old(pool)@.wf(),
        i < old(pool)@.pages.len(),
        page_is_claimed(old(pool)@.pages[i as int]),
        old(pool)@.pages[i as int].ref_count > 0,
    ensures
        final(pool)@.wf(),
        final(pool)@.base == old(pool)@.base,
        freed == (old(pool)@.pages[i as int].ref_count == 1 && page_is_pool(old(pool)@.pages[i as int])),
        final(pool)@.pages == old(pool)@.pages.update(
            i as int,
            Page {
                ref_count: (old(pool)@.pages[i as int].ref_count - 1) as u64,
                vmpl: if freed { OWNER_NONE } else { OWNER_VMPL },
                ..old(pool)@.pages[i as int]
            },
        ),
{
    let p = pool.pages[i];
    let count = p.ref_count - 1;
    pool.pages.set(i, Page { ref_count: count, flags: p.flags, vmpl: p.vmpl });
    if count == 0 && p.flags & PAGE_FLAG_POOL != 0 {
        vmpl_page_free(pool, i);
        true
    } else {
        false
    }
}

/// Whether the pool owns the page at the managed address `pa`.
pub fn vmpl_page_is_from_pool(pool: &PagePool, pa: u64) -> (r: bool)
    requires
        pool@.wf(),
        pool@.in_range(pa),
    ensures
        r == page_is_pool(pool@.pages[pool@.slot_of(pa).unwrap() as int]),
{
    let i = vmpl_pa2page(pool, pa).unwrap();
    pool.pages[i].flags & PAGE_FLAG_POOL != 0
}

/// Whether the page at the managed address `pa` is mapped.
pub fn vmpl_page_is_mapped(pool: &PagePool, pa: u64) -> (r: bool)
    requires
        pool@.wf(),
        pool@.in_range(pa),
    ensures
        r == page_is_mapped(pool@.pages[pool@.slot_of(pa).unwrap() as int]),
{
    let i = vmpl_pa2page(pool, pa).unwrap();
    pool.pages[i].flags & PAGE_FLAG_MAPPED != 0
}


/// Claims the lowest free page of the pool: it leaves the free state with no
/// references. `None` when no page is free: exhaustion is reported, not fatal.
pub fn vmpl_page_alloc(pool: &mut PagePool) -> (r: Option<usize>)
    requires
        old(pool)@.wf(),
    ensures
        final(pool)@.wf(),
        final(pool)@.base == old(pool)@.base,
        match r {
            Some(i) => {
                &&& i < old(pool)@.pages.len()
                &&& page_is_free(old(pool)@.pages[i as int])
                &&& forall|j: int| 0 <= j < i ==> !page_is_free(#[trigger] old(pool)@.pages[j])
                &&& final(pool)@.pages == old(pool)@.pages.update(
                    i as int,
                    Page { ref_count: 0, vmpl: OWNER_VMPL, ..old(pool)@.pages[i as int] },
                )
            },
            None => {
                &&& forall|j: int| 0 <= j < old(pool)@.pages.len() ==> !page_is_free(#[trigger] old(pool)@.pages[j])
                &&& final(pool)@ == old(pool)@
            },
        },
{
    let n = pool.pages.len();
    let mut i: usize = 0;
    while i < n
        invariant
            pool@ == old(pool)@,
            pool@.wf(),
            n == pool@.pages.len(),
            i <= n,
            forall|j: int| 0 <= j < i ==> !page_is_free(#[trigger] pool@.pages[j]),
        decreases n - i,
    {
        let p = pool.pages[i];
        if p.flags & PAGE_FLAG_POOL != 0 && p.vmpl == OWNER_NONE {
            vmpl_page_mark(pool, i);
            return Some(i);
        }
        i = i + 1;
    }
    None
}

/// Hands the physical range of `num_pages` pages starting at `phys` to the
/// pool: each of those pages becomes pool-owned, unclaimed and unreferenced.
/// Returns 0, or `EINVAL` (changing nothing) when `phys` is not a managed page
/// address or the range runs past the managed range.
pub fn vmpl_page_init(pool: &mut PagePool, phys: u64, num_pages: u64) -> (r: i32)
    requires
        old(pool)@.wf(),
    ensures
        final(pool)@.wf(),
        final(pool)@.base == old(pool)@.base,
        final(pool)@.pages.len() == old(pool)@.pages.len(),
        ({
            let v = old(pool)@;
            let ok = v.in_range(phys) && (phys - v.base) % (PGSIZE as int) == 0
                && (phys - v.base) / (PGSIZE as int) + num_pages <= v.pages.len();
            &&& (r == 0) == ok
            &&& !ok ==> r == EINVAL && final(pool)@ == v
            &&& ok ==> forall|i: int| 0 <= i < v.pages.len() ==> #[trigger] final(pool)@.pages[i] == (
                if (phys - v.base) / (PGSIZE as int) <= i < (phys - v.base) / (PGSIZE as int) + num_pages {
                    Page { ref_count: 0, flags: v.pages[i].flags | PAGE_FLAG_POOL, vmpl: OWNER_NONE }
                } else {
                    v.pages[i]
                })
        }),
{
    let n = pool.pages.len();
    let first = match vmpl_pa2page(pool, phys) {
        Some(i) => i,
        None => return EINVAL,
    };
    let off = phys - pool.base;
    proof {
        lemma_slot_bound(off as int, n as int);
        assert(off & 0xfff == off % 4096) by (bit_vector);
    }
    if off & 0xfff != 0 {
        return EINVAL;
    }
    if num_pages > (n - first) as u64 {
        return EINVAL;
    }
    let count = num_pages as usize;
    let ghost v = pool@;
    let mut k: usize = 0;
    while k < count
        invariant
            v.wf(),
            n == v.pages.len(),
            first + count <= n,
            k <= count,
            pool@.wf(),
            pool@.base == v.base,
            pool@.pages.len() == n,
            forall|i: int| 0 <= i < n ==> #[trigger] pool@.pages[i] == (
                if first <= i < first + k {
                    Page { ref_count: 0, flags: v.pages[i].flags | PAGE_FLAG_POOL, vmpl: OWNER_NONE }
                } else {
                    v.pages[i]
                }),
        decreases count - k,
    {
        let p = pool.pages[first + k];
        pool.pages.set(first + k, Page { ref_count: 0, flags: p.flags | PAGE_FLAG_POOL, vmpl: OWNER_NONE });
        k = k + 1;
    }
    0
}

/// Sets the mapped flag on every page that overlaps the `len` bytes starting at
/// the page address `phys`. Returns 0, or `EINVAL` (changing nothing) when
/// `phys` is not a managed page address or the bytes run past the managed range.
pub fn vmpl_page_mark_mapped(pool: &mut PagePool, phys: u64, len: u64) -> (r: i32)
    requires
        old(pool)@.wf(),
    ensures
        final(pool)@.wf(),
        final(pool)@.base == old(pool)@.base,
        final(pool)@.pages.len() == old(pool)@.pages.len(),
        ({
            let v = old(pool)@;
            let first = (phys - v.base) / (PGSIZE as int);
            let count = (len as int) / (PGSIZE as int) + if (len as int) % (PGSIZE as int) == 0 { 0int } else { 1int };
            let ok = v.in_range(phys) && (phys - v.base) % (PGSIZE as int) == 0 && first + count <= v.pages.len();
            &&& (r == 0) == ok
            &&& !ok ==> r == EINVAL && final(pool)@ == v
            &&& ok ==> forall|i: int| 0 <= i < v.pages.len() ==> #[trigger] final(pool)@.pages[i] == (
                if first <= i < first + count {
                    Page { flags: v.pages[i].flags | PAGE_FLAG_MAPPED, ..v.pages[i] }
                } else {
                    v.pages[i]
                })
        }),
{
    let n = pool.pages.len();
    let first = match vmpl_pa2page(pool, phys) {
        Some(i) => i,
        None => return EINVAL,
    };
    let off = phys - pool.base;
    proof {
        lemma_slot_bound(off as int, n as int);
        assert(off & 0xfff == off % 4096) by (bit_vector);
    }
    if off & 0xfff != 0 {
        return EINVAL;
    }
    let whole = len / PGSIZE;
    let count64 = if len % PGSIZE == 0 { whole } else { whole + 1 };
    if count64 > (n - first) as u64 {
        return EINVAL;
    }
    let count = count64 as usize;
    let ghost v = pool@;
    let mut k: usize = 0;
    while k < count
        invariant
            v.wf(),
            n == v.pages.len(),
            first + count <= n,
            k <= count,
            pool@.wf(),
            pool@.base == v.base,
            pool@.pages.len() == n,
            forall|i: int| 0 <= i < n ==> #[trigger] pool@.pages[i] == (
                if first <= i < first + k {
                    Page { flags: v.pages[i].flags | PAGE_FLAG_MAPPED, ..v.pages[i] }
                } else {
                    v.pages[i]
                }),
        decreases count - k,
    {
        let p = pool.pages[first + k];
        pool.pages.set(first + k, Page { ref_count: p.ref_count, flags: p.flags | PAGE_FLAG_MAPPED, vmpl: p.vmpl });
        k = k + 1;
    }
    0
}

/// Claims the page at `pa` with no references, when `pa` lies at or above the
/// managed range's start; below it nothing happens.
pub fn vmpl_page_mark_addr(pool: &mut PagePool, pa: u64)
    requires
        old(pool)@.wf(),
        pa < old(pool)@.end(),
    ensures
        final(pool)@.wf(),
        final(pool)@.base == old(pool)@.base,
        pa < old(pool)@.base ==> final(pool)@ == old(pool)@,
        old(pool)@.in_range(pa) ==> final(pool)@.pages == old(pool)@.pages.update(
            old(pool)@.slot_of(pa).unwrap() as int,
            Page { ref_count: 0, vmpl: OWNER_VMPL, ..old(pool)@.pages[old(pool)@.slot_of(pa).unwrap() as int] },
        ),
{
    if pa >= pool.base {
        let i = vmpl_pa2page(pool, pa).unwrap();
        vmpl_page_mark(pool, i);
    }
}

/// Looks up the page at `pa` and, when the pool owns it, acquires one more
/// reference to it. `None` for an address below the managed range.
pub fn vmpl_page_get_addr(pool: &mut PagePool, pa: u64) -> (r: Option<usize>)
    requires
        old(pool)@.wf(),
        pa < old(pool)@.end(),
        old(pool)@.in_range(pa) ==> {
            let p = old(pool)@.pages[old(pool)@.slot_of(pa).unwrap() as int];
            page_is_pool(p) ==> page_is_claimed(p) && p.ref_count < u64::MAX
        },
    ensures
        final(pool)@.wf(),
        final(pool)@.base == old(pool)@.base,
        r == old(pool)@.slot_of(pa),
        pa < old(pool)@.base ==> final(pool)@ == old(pool)@,
        old(pool)@.in_range(pa) ==> {
            let i = r.unwrap() as int;
            let p = old(pool)@.pages[i];
            final(pool)@.pages == if page_is_pool(p) {
                old(pool)@.pages.update(i, Page { ref_count: (p.ref_count + 1) as u64, ..p })
            } else {
                old(pool)@.pages
            }
        },
{
    if pa < pool.base {
        return None;
    }
    let i = vmpl_pa2page(pool, pa).unwrap();
    if vmpl_page_is_from_pool(pool, pa) {
        vmpl_page_get(pool, i);
    }
    Some(i)
}

/// Releases one reference to the page at the managed address `pa` when the
/// pool owns it (see `vmpl_page_put`); a page outside the pool is left alone.
pub fn vmpl_page_put_addr(pool: &mut PagePool, pa: u64)
    requires
        old(pool)@.wf(),
        old(pool)@.in_range(pa),
        ({
            let p = old(pool)@.pages[old(pool)@.slot_of(pa).unwrap() as int];
            page_is_pool(p) ==> page_is_claimed(p) && p.ref_count > 0
        }),
    ensures
        final(pool)@.wf(),
        final(pool)@.base == old(pool)@.base,
        ({
            let i = old(pool)@.slot_of(pa).unwrap() as int;
            let p = old(pool)@.pages[i];
            final(pool)@.pages == if page_is_pool(p) {
                old(pool)@.pages.update(
                    i,
                    Page {
                        ref_count: (p.ref_count - 1) as u64,
                        vmpl: if p.ref_count == 1 { OWNER_NONE } else { OWNER_VMPL },
                        ..p
                    },
                )
            } else {
                old(pool)@.pages
            }
        }),
{
    let i = vmpl_pa2page(pool, pa).unwrap();
    if vmpl_page_is_from_pool(pool, pa) {
        vmpl_page_put(pool, i);
    }
}


/// Number of pages of `s` in the free state.
pub open spec fn count_free(s: Seq<Page>) -> nat
    decreases s.len(),
{
    if s.len() == 0 {
        0
    } else {
        count_free(s.drop_last()) + if page_is_free(s.last()) { 1nat } else { 0nat }
    }
}

/// Number of pages of `s` that the pool owns.
pub open spec fn count_pool(s: Seq<Page>) -> nat
    decreases s.len(),
{
    if s.len() == 0 {
        0
    } else {
        count_pool(s.drop_last()) + if page_is_pool(s.last()) { 1nat } else { 0nat }
    }
}

/// A summary of a pool's occupancy.
#[derive(Clone, Copy, Debug, PartialEq, Eq, Structural)]
pub struct PageStats {
    /// Slots in the table.
    pub total: usize,
    /// Pages the pool owns.
    pub pool: usize,
    /// Pool pages in the free state.
    pub free: usize,
}

/// Counts the pool's slots, its pool-owned pages and its free pages.
pub fn vmpl_page_stats(pool: &PagePool) -> (r: PageStats)
    requires
        pool@.wf(),
    ensures
        r.total == pool@.pages.len(),
        r.pool == count_pool(pool@.pages),
        r.free == count_free(pool@.pages),
{
    let n = pool.pages.len();
    let mut owned: usize = 0;
    let mut free: usize = 0;
    let mut i: usize = 0;
    while i < n
        invariant
            n == pool@.pages.len(),
            i <= n,
            owned <= i,
            free <= i,
            owned == count_pool(pool@.pages.subrange(0, i as int)),
            free == count_free(pool@.pages.subrange(0, i as int)),
        decreases n - i,
    {
        proof {
            assert(pool@.pages.subrange(0, i + 1).drop_last() =~= pool@.pages.subrange(0, i as int));
        }
        let p = pool.pages[i];
        if p.flags & PAGE_FLAG_POOL != 0 {
            owned = owned + 1;
            if p.vmpl == OWNER_NONE {
                free = free + 1;
            }
        }
        i = i + 1;
    }
    proof {
        assert(pool@.pages.subrange(0, n as int) =~= pool@.pages);
    }
    PageStats { total: n, pool: owned, free }
}

/// Exercises the pool: claims a free page and returns it at once. The pool
/// ends as it began; the result tells whether a page was free.
pub fn vmpl_page_test(pool: &mut PagePool) -> (r: bool)
    requires
        old(pool)@.wf(),
    ensures
        final(pool)@ == old(pool)@,
        r == exists|j: int| 0 <= j < old(pool)@.pages.len() && page_is_free(#[trigger] old(pool)@.pages[j]),
{
    match vmpl_page_alloc(pool) {
        Some(i) => {
            vmpl_page_free(pool, i);
            proof {
                assert(pool@.pages =~= old(pool)@.pages);
            }
            true
        },
        None => false,
    }
}

/// Translates a physical address to its slot (see `vmpl_pa2page`).
pub fn dune_pa2page(pool: &PagePool, pa: u64) -> (r: Option<usize>)
    requires
        pool@.wf(),
    ensures
        r == pool@.slot_of(pa),
{
    vmpl_pa2page(pool, pa)
}

/// The physical address of the page in slot `i` (see `vmpl_page2pa`).
pub fn dune_page2pa(pool: &PagePool, i: usize) -> (r: u64)
    requires
        pool@.wf(),
        i < pool@.pages.len(),
    ensures
        r == pool@.addr_of(i as int),
{
    vmpl_page2pa(pool, i)
}

/// Whether the pool owns the page at `pa` (see `vmpl_page_is_from_pool`).
pub fn dune_page_is_from_pool(pool: &PagePool, pa: u64) -> (r: bool)
    requires
        pool@.wf(),
        pool@.in_range(pa),
    ensures
        r == page_is_pool(pool@.pages[pool@.slot_of(pa).unwrap() as int]),
{
    vmpl_page_is_from_pool(pool, pa)
}

/// Acquires one more reference to the page in slot `i` (see `vmpl_page_get`).
pub fn dune_page_get(pool: &mut PagePool, i: usize)
    requires
        old(pool)@.wf(),
        i < old(pool)@.pages.len(),
        page_is_claimed(old(pool)@.pages[i as int]),
        old(pool)@.pages[i as int].ref_count < u64::MAX,
    ensures
        final(pool)@.wf(),
        final(pool)@.base == old(pool)@.base,
        final(pool)@.pages == old(pool)@.pages.update(
            i as int,
            Page { ref_count: (old(pool)@.pages[i as int].ref_count + 1) as u64, ..old(pool)@.pages[i as int] },
        ),
{
    vmpl_page_get(pool, i)
}

/// Releases one reference to the page in slot `i` (see `vmpl_page_put`).
pub fn dune_page_put(pool: &mut PagePool, i: usize) -> (freed: bool)
    requires
        old(pool)@.wf(),
        i < old(pool)@.pages.len(),
        page_is_claimed(old(pool)@.pages[i as int]),
        old(pool)@.pages[i as int].ref_count > 0,
    ensures
        final(pool)@.wf(),
        final(pool)@.base == old(pool)@.base,
        freed == (old(pool)@.pages[i as int].ref_count == 1 && page_is_pool(old(pool)@.pages[i as int])),
        final(pool)@.pages == old(pool)@.pages.update(
            i as int,
            Page {
                ref_count: (old(pool)@.pages[i as int].ref_count - 1) as u64,
                vmpl: if freed { OWNER_NONE } else { OWNER_VMPL },
                ..old(pool)@.pages[i as int]
            },
        ),
{
    vmpl_page_put(pool, i)
}

/// Looks up the page at `pa`, acquiring it when pool-owned (see `vmpl_page_get_addr`).
pub fn dune_page_get_addr(pool: &mut PagePool, pa: u64) -> (r: Option<usize>)
    requires
        old(pool)@.wf(),
        pa < old(pool)@.end(),
        old(pool)@.in_range(pa) ==> {
            let p = old(pool)@.pages[old(pool)@.slot_of(pa).unwrap() as int];
            page_is_pool(p) ==> page_is_claimed(p) && p.ref_count < u64::MAX
        },
    ensures
        final(pool)@.wf(),
        final(pool)@.base == old(pool)@.base,
        r == old(pool)@.slot_of(pa),
        pa < old(pool)@.base ==> final(pool)@ == old(pool)@,
        old(pool)@.in_range(pa) ==> {
            let i = r.unwrap() as int;
            let p = old(pool)@.pages[i];
            final(pool)@.pages == if page_is_pool(p) {
                old(pool)@.pages.update(i, Page { ref_count: (p.ref_count + 1) as u64, ..p })
            } else {
                old(pool)@.pages
            }
        },
{
    vmpl_page_get_addr(pool, pa)
}

/// Claims the page at `pa` (see `vmpl_page_mark_addr`).
pub fn dune_page_mark_addr(pool: &mut PagePool, pa: u64)
    requires
        old(pool)@.wf(),
        pa < old(pool)@.end(),
    ensures
        final(pool)@.wf(),
        final(pool)@.base == old(pool)@.base,
        pa < old(pool)@.base ==> final(pool)@ == old(pool)@,
        old(pool)@.in_range(pa) ==> final(pool)@.pages == old(pool)@.pages.update(
            old(pool)@.slot_of(pa).unwrap() as int,
            Page { ref_count: 0, vmpl: OWNER_VMPL, ..old(pool)@.pages[old(pool)@.slot_of(pa).unwrap() as int] },
        ),
{
    vmpl_page_mark_addr(pool, pa)
}

/// Releases the page at `pa` when pool-owned (see `vmpl_page_put_addr`).
pub fn dune_page_put_addr(pool: &mut PagePool, pa: u64)
    requires
        old(pool)@.wf(),
        old(pool)@.in_range(pa),
        ({
            let p = old(pool)@.pages[old(pool)@.slot_of(pa).unwrap() as int];
            page_is_pool(p) ==> page_is_claimed(p) && p.ref_count > 0
        }),
    ensures
        final(pool)@.wf(),
        final(pool)@.base == old(pool)@.base,
        ({
            let i = old(pool)@.slot_of(pa).unwrap() as int;
            let p = old(pool)@.pages[i];
            final(pool)@.pages == if page_is_pool(p) {
                old(pool)@.pages.update(
                    i,
                    Page {
                        ref_count: (p.ref_count - 1) as u64,
                        vmpl: if p.ref_count == 1 { OWNER_NONE } else { OWNER_VMPL },
                        ..p
                    },
                )
            } else {
                old(pool)@.pages
            }
        }),
{
    vmpl_page_put_addr(pool, pa)
}

/// Setup of the second front-end needs nothing beyond the shared table.
pub fn dune_page_init(_fd: i32) -> (r: i32)
    ensures
        r == 0,
{
    0
}

/// Claims a free page with no references (see `vmpl_page_alloc`).
pub fn dune_page_alloc(pool: &mut PagePool) -> (r: Option<usize>)
    requires
        old(pool)@.wf(),
    ensures
        final(pool)@.wf(),
        final(pool)@.base == old(pool)@.base,
        match r {
            Some(i) => {
                &&& i < old(pool)@.pages.len()
                &&& page_is_free(old(pool)@.pages[i as int])
                &&& forall|j: int| 0 <= j < i ==> !page_is_free(#[trigger] old(pool)@.pages[j])
                &&& final(pool)@.pages == old(pool)@.pages.update(
                    i as int,
                    Page { ref_count: 0, vmpl: OWNER_VMPL, ..old(pool)@.pages[i as int] },
                )
            },
            None => {
                &&& forall|j: int| 0 <= j < old(pool)@.pages.len() ==> !page_is_free(#[trigger] old(pool)@.pages[j])
                &&& final(pool)@ == old(pool)@
            },
        },
{
    let r = vmpl_page_alloc(pool);
    match r {
        Some(i) => {
            vmpl_page_mark(pool, i);
            proof {
                assert(pool@.pages =~= old(pool)@.pages.update(
                    i as int,
                    Page { ref_count: 0, vmpl: OWNER_VMPL, ..old(pool)@.pages[i as int] },
                ));
            }
        },
        None => {},
    }
    r
}

/// Returns an unreferenced pool page to the free state (see `vmpl_page_free`).
pub fn dune_page_free(pool: &mut PagePool, i: usize)
    requires
        old(pool)@.wf(),
        i < old(pool)@.pages.len(),
        page_is_pool(old(pool)@.pages[i as int]),
        old(pool)@.pages[i as int].ref_count == 0,
    ensures
        final(pool)@.wf(),
        final(pool)@.base == old(pool)@.base,
        final(pool)@.pages == old(pool)@.pages.update(
            i as int,
            Page { vmpl: OWNER_NONE, ..old(pool)@.pages[i as int] },
        ),
{
    vmpl_page_free(pool, i)
}

/// Occupancy of the pool (see `vmpl_page_stats`).
pub fn dune_page_stats(pool: &PagePool) -> (r: PageStats)
    requires
        pool@.wf(),
    ensures
        r.total == pool@.pages.len(),
        r.pool == count_pool(pool@.pages),
        r.free == count_free(pool@.pages),
{
    vmpl_page_stats(pool)
}

/// Claims a free page through this front-end and frees it again; the pool ends
/// as it began.
pub fn dune_page_test(pool: &mut PagePool) -> (r: bool)
    requires
        old(pool)@.wf(),
    ensures
        final(pool)@ == old(pool)@,
        r == exists|j: int| 0 <= j < old(pool)@.pages.len() && page_is_free(#[trigger] old(pool)@.pages[j]),
{
    match dune_page_alloc(pool) {
        Some(i) => {
            dune_page_free(pool, i);
            proof {
                assert(pool@.pages =~= old(pool)@.pages);
            }
            true
        },
        None => false,
    }
}


/// In a well-formed pool no reference count is negative (they are unsigned)
/// and every page in the free state has a count of exactly zero; acquire,
/// release, free, mark and alloc all keep the pool well formed, so this holds
/// after any sequence of them.
pub proof fn lemma_free_pages_unreferenced(v: PoolView, i: int)
    requires
        v.wf(),
        0 <= i < v.pages.len(),
        page_is_free(v.pages[i]),
    ensures
        v.pages[i].ref_count == 0,
{
}

} // verus!
