use vmpl::add;
use vmpl::error::{EINVAL, ENOMEM};
use vmpl::mm::{mm_init, vm_init};
use vmpl::config::VmplLayout;
use vmpl::page::{
    dune_page_alloc, dune_page_get_addr, dune_page_init, dune_page_put_addr, dune_page_stats, dune_page_test,
    dune_pa2page, dune_page2pa, vmpl_page2pa, vmpl_page_alloc, vmpl_page_free, vmpl_page_get, vmpl_page_init,
    vmpl_page_is_from_pool, vmpl_page_is_mapped, vmpl_page_mark_addr, vmpl_page_mark_mapped, vmpl_page_put,
    vmpl_page_stats, vmpl_page_test, vmpl_pa2page, PagePool, OWNER_NONE, OWNER_VMPL,
};
use vmpl::vma::FitAlgorithm;

fn pool_with_free_pages() -> PagePool {
    let mut pool = PagePool::new(0x1000, 16);
    assert_eq!(vmpl_page_init(&mut pool, 0x3000, 4), 0);
    pool
}

#[test]
fn it_works() {
    let result = add(2, 2);
    assert_eq!(result, 4);
}

#[test]
fn page_test() {
    let mut pool = pool_with_free_pages();
    let before: Vec<_> = (0..pool.capacity()).map(|i| (pool.page(i).ref_count, pool.page(i).flags, pool.page(i).vmpl)).collect();
    assert!(vmpl_page_test(&mut pool));
    assert!(dune_page_test(&mut pool));
    let after: Vec<_> = (0..pool.capacity()).map(|i| (pool.page(i).ref_count, pool.page(i).flags, pool.page(i).vmpl)).collect();
    assert_eq!(before, after);
}

#[test]
fn address_translation_is_bounds_checked() {
    let pool = PagePool::new(0x1000, 16);
    assert_eq!(vmpl_pa2page(&pool, 0x1000), Some(0));
    assert_eq!(vmpl_pa2page(&pool, 0x2000), Some(1));
    assert_eq!(vmpl_pa2page(&pool, 0x2fff), Some(1));
    assert_eq!(vmpl_pa2page(&pool, 0x0), None);
    assert_eq!(vmpl_pa2page(&pool, 0x11000), None);
    assert_eq!(vmpl_pa2page(&pool, 0x10fff), Some(15));
    assert_eq!(dune_pa2page(&pool, 0xfff), None);
}

#[test]
fn slot_and_address_round_trip() {
    let pool = PagePool::new(0x1000, 16);
    for i in 0..16usize {
        let pa = vmpl_page2pa(&pool, i);
        assert_eq!(pa, 0x1000 + (i as u64) * 4096);
        assert_eq!(vmpl_pa2page(&pool, pa), Some(i));
        assert_eq!(dune_page2pa(&pool, i), pa);
    }
}

#[test]
fn acquire_release_frees_only_at_zero() {
    let mut pool = pool_with_free_pages();
    let i = vmpl_page_alloc(&mut pool).unwrap();
    assert_eq!(i, 2);
    assert_eq!(pool.page(i).ref_count, 0);
    assert_eq!(pool.page(i).vmpl, OWNER_VMPL);
    vmpl_page_get(&mut pool, i);
    vmpl_page_get(&mut pool, i);
    assert_eq!(pool.page(i).ref_count, 2);
    assert!(!vmpl_page_put(&mut pool, i));
    assert_eq!(pool.page(i).ref_count, 1);
    assert_eq!(pool.page(i).vmpl, OWNER_VMPL);
    assert!(vmpl_page_put(&mut pool, i));
    assert_eq!(pool.page(i).ref_count, 0);
    assert_eq!(pool.page(i).vmpl, OWNER_NONE);
    assert_eq!(vmpl_page_alloc(&mut pool), Some(2));
}

#[test]
fn release_of_non_pool_page_does_not_free() {
    let mut pool = PagePool::new(0x1000, 4);
    vmpl_page_mark_addr(&mut pool, 0x2000);
    vmpl_page_get(&mut pool, 1);
    assert!(!vmpl_page_put(&mut pool, 1));
    assert_eq!(pool.page(1).vmpl, OWNER_VMPL);
    assert_eq!(pool.page(1).ref_count, 0);
}

#[test]
fn allocation_exhausts_to_none() {
    let mut pool = pool_with_free_pages();
    let mut got = Vec::new();
    while let Some(i) = vmpl_page_alloc(&mut pool) {
        got.push(i);
    }
    assert_eq!(got, vec![2, 3, 4, 5]);
    assert_eq!(dune_page_alloc(&mut pool), None);
    assert!(!vmpl_page_test(&mut pool));
    vmpl_page_free(&mut pool, 4);
    assert_eq!(dune_page_alloc(&mut pool), Some(4));
}

#[test]
fn pool_growth_rejects_bad_ranges() {
    let mut pool = PagePool::new(0x1000, 16);
    assert_eq!(vmpl_page_init(&mut pool, 0x0, 1), EINVAL);
    assert_eq!(vmpl_page_init(&mut pool, 0x1800, 1), EINVAL);
    assert_eq!(vmpl_page_init(&mut pool, 0x10000, 2), EINVAL);
    assert_eq!(vmpl_page_init(&mut pool, 0x10000, 1), 0);
    assert!(vmpl_page_is_from_pool(&pool, 0x10000));
    assert!(!vmpl_page_is_from_pool(&pool, 0x1000));
    assert_eq!(dune_page_init(3), 0);
}

#[test]
fn address_helpers_count_pool_pages_only() {
    let mut pool = pool_with_free_pages();
    assert_eq!(dune_page_get_addr(&mut pool, 0x0), None);
    let i = vmpl_page_alloc(&mut pool).unwrap();
    assert_eq!(dune_page_get_addr(&mut pool, 0x3000), Some(i));
    assert_eq!(pool.page(i).ref_count, 1);
    assert_eq!(dune_page_get_addr(&mut pool, 0x1000), Some(0));
    assert_eq!(pool.page(0).ref_count, 0);
    dune_page_put_addr(&mut pool, 0x3000);
    assert_eq!(pool.page(i).ref_count, 0);
    assert_eq!(pool.page(i).vmpl, OWNER_NONE);
}

#[test]
fn mapped_flag_covers_partial_pages() {
    let mut pool = pool_with_free_pages();
    assert_eq!(vmpl_page_mark_mapped(&mut pool, 0x3000, 4097), 0);
    assert!(vmpl_page_is_mapped(&pool, 0x3000));
    assert!(vmpl_page_is_mapped(&pool, 0x4000));
    assert!(!vmpl_page_is_mapped(&pool, 0x5000));
    assert!(vmpl_page_is_from_pool(&pool, 0x3000));
    assert_eq!(vmpl_page_mark_mapped(&mut pool, 0x10000, 8192), EINVAL);
}

#[test]
fn stats_count_pool_and_free_pages() {
    let mut pool = pool_with_free_pages();
    let s = vmpl_page_stats(&pool);
    assert_eq!((s.total, s.pool, s.free), (16, 4, 4));
    vmpl_page_alloc(&mut pool);
    let s = dune_page_stats(&pool);
    assert_eq!((s.total, s.pool, s.free), (16, 4, 3));
}

#[test]
fn mm_init_builds_pool_or_fails_with_enomem() {
    let pool = mm_init(0x1000, 8, 0x2000, 2).ok().unwrap();
    let s = vmpl_page_stats(&pool);
    assert_eq!((s.total, s.pool, s.free), (8, 2, 2));
    assert_eq!(mm_init(0x1000, 8, 0x9000, 1).err(), Some(ENOMEM));
    assert_eq!(mm_init(0x1000, 0x100001, 0x1000, 1).err(), Some(ENOMEM));
    assert_eq!(mm_init(u64::MAX - 0x1000, 2, 0x1000, 1).err(), Some(ENOMEM));
}

#[test]
fn vm_init_takes_layout() {
    let layout = VmplLayout::new(0x1_0000_0000, 0x2000_0000, 0x7000_0000);
    let vm = vm_init(layout, 0x1000, 0x8000).ok().unwrap();
    assert_eq!(vm.phys_limit, 0x1_0000_0000);
    assert_eq!(vm.mmap_base, 0x2000_0000);
    assert_eq!(vm.start_stack, 0x7000_0000);
    assert_eq!(vm.fit_algorithm, FitAlgorithm::FirstFit);
    assert!(vm.vmas.is_empty());
    assert_eq!(vm_init(layout, 0x8000, 0x8000).err(), Some(EINVAL));
}
