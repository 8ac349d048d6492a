//! Memory-manager setup: the page pool over the managed physical range, and
//! the address-space bookkeeping of the memory manager.
use vstd::prelude::*;

use crate::config::VmplLayout;
use crate::error::{EINVAL, ENOMEM};
use crate::page::{dune_page_init, vmpl_page_init, Page, PagePool, MAX_PAGES, OWNER_NONE, PAGE_FLAG_POOL, PGSIZE};
use crate::vma::{FitAlgorithm, VmplVma};

verus! {

/// Sets up the page pool: a table of `num_pages` slots from the physical
/// address `base`, of which the `pool_pages` pages from `pool_phys` are handed
/// to the pool, free. Fails with `ENOMEM` when the table cannot be had (more
/// slots than the maximum, or a range past the address space) or the pool
/// pages do not lie in it.
pub fn mm_init(base: u64, num_pages: usize, pool_phys: u64, pool_pages: u64) -> (r: Result<PagePool, i32>)
    ensures
        (num_pages > MAX_PAGES || base + num_pages * PGSIZE > u64::MAX) ==> r == Err::<PagePool, i32>(ENOMEM),
        (num_pages <= MAX_PAGES && base + num_pages * PGSIZE <= u64::MAX) ==> {
            let ok = base <= pool_phys && pool_phys < base + num_pages * PGSIZE && (pool_phys - base) % (
            PGSIZE as int) == 0 && (pool_phys - base) / (PGSIZE as int) + pool_pages <= num_pages;
            match r {
                Ok(p) => {
                    &&& ok
                    &&& p@.wf()
                    &&& p@.base == base
                    &&& p@.pages.len() == num_pages
                    &&& forall|i: int| 0 <= i < num_pages ==> #[trigger] p@.pages[i] == (
                        if (pool_phys - base) / (PGSIZE as int) <= i < (pool_phys - base) / (PGSIZE as int)
                            + pool_pages {
                            Page { ref_count: 0, flags: PAGE_FLAG_POOL, vmpl: OWNER_NONE }
                        } else {
                            Page { ref_count: 0, flags: 0, vmpl: 0 }
                        })
                },
                Err(e) => !ok && e == ENOMEM,
            }
        },
{
    if num_pages > MAX_PAGES {
        return Err(ENOMEM);
    }
    proof {
        assert(num_pages * 4096 <= MAX_PAGES * 4096) by (nonlinear_arith)
            requires num_pages <= MAX_PAGES;
    }
    let span = (num_pages as u64) * PGSIZE;
    if base > u64::MAX - span {
        return Err(ENOMEM);
    }
    let mut pool = PagePool::new(base, num_pages);
    if vmpl_page_init(&mut pool, pool_phys, pool_pages) != 0 {
        return Err(ENOMEM);
    }
    if dune_page_init(0) != 0 {
        return Err(ENOMEM);
    }
    proof {
        assert((0u64 | 1u64) == 1u64) by (bit_vector);
    }
    Ok(pool)
}

/// The memory manager's view of the address space.
pub struct VmplVm {
    pub vmas: Vec<VmplVma>,
    pub fit_algorithm: FitAlgorithm,
    pub va_start: u64,
    pub va_end: u64,
    pub phys_limit: u64,
    pub mmap_base: u64,
    pub start_stack: u64,
}

/// Sets up the memory manager over the virtual range `[va_start, va_end)` of
/// the driver's `layout`, with no areas yet and first-fit placement. Fails with
/// `EINVAL` on an empty or reversed range.
pub fn vm_init(layout: VmplLayout, va_start: u64, va_end: u64) -> (r: Result<VmplVm, i32>)
    ensures
        va_start >= va_end ==> r is Err && r == Err::<VmplVm, i32>(EINVAL),
        va_start < va_end ==> match r {
            Ok(vm) => {
                &&& vm.vmas@.len() == 0
                &&& vm.fit_algorithm == FitAlgorithm::FirstFit
                &&& vm.va_start == va_start
                &&& vm.va_end == va_end
                &&& vm.phys_limit == layout.phys_limit
                &&& vm.mmap_base == layout.base_map
                &&& vm.start_stack == layout.base_stack
            },
            Err(_) => false,
        },
{
    if va_start >= va_end {
        return Err(EINVAL);
    }
    Ok(
        VmplVm {
            vmas: Vec::new(),
            fit_algorithm: FitAlgorithm::FirstFit,
            va_start,
            va_end,
            phys_limit: layout.phys_limit,
            mmap_base: layout.base_map,
            start_stack: layout.base_stack,
        },
    )
}

} // verus!
