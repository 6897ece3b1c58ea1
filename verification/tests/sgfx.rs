use portals::sgfx::sg_init_pool;
use portals::sgfx::sg_pixelformat_all;
use portals::sgfx::sg_pixelformat_info;
use portals::sgfx::sg_pixelformat_s;
use portals::sgfx::sg_pixelformat_sbr;
use portals::sgfx::sg_pixelformat_sbrm;
use portals::sgfx::sg_pixelformat_sf;
use portals::sgfx::sg_pixelformat_sfbr;
use portals::sgfx::sg_pixelformat_sfrm;
use portals::sgfx::sg_pixelformat_sr;
use portals::sgfx::sg_pixelformat_srm;
use portals::sgfx::sg_pixelformat_srmd;
use portals::sgfx::sg_pool_alloc_index;
use portals::sgfx::sg_pool_t;
use portals::sgfx::sg_resource_state;
use portals::sgfx::sg_slot_alloc;
use portals::sgfx::sg_slot_index;
use portals::sgfx::sg_slot_t;

#[test]
fn init_pool_reserves_slot_zero() {
    let mut pool = sg_pool_t::default();
    sg_init_pool(&mut pool, 4);
    assert_eq!(pool.size, 5);
    assert_eq!(pool.queue_top, 4);
    assert_eq!(pool.gen_ctrs, vec![0, 0, 0, 0, 0]);
    assert_eq!(pool.free_queue, vec![4, 3, 2, 1]);
}

#[test]
fn init_pool_keeps_existing_generation_counters() {
    let mut pool = sg_pool_t::default();
    sg_init_pool(&mut pool, 2);
    pool.gen_ctrs[1] = 9;
    sg_init_pool(&mut pool, 4);
    assert_eq!(pool.gen_ctrs, vec![0, 9, 0, 0, 0]);
}

#[test]
fn alloc_index_pops_lowest_slot_first() {
    let mut pool = sg_pool_t::default();
    sg_init_pool(&mut pool, 3);
    assert_eq!(sg_pool_alloc_index(&mut pool), 1);
    assert_eq!(sg_pool_alloc_index(&mut pool), 2);
    assert_eq!(sg_pool_alloc_index(&mut pool), 3);
    // pool exhausted: the invalid slot index comes back
    assert_eq!(sg_pool_alloc_index(&mut pool), 0);
    assert_eq!(sg_pool_alloc_index(&mut pool), 0);
}

#[test]
fn slot_alloc_builds_generation_tagged_ids() {
    let mut pool = sg_pool_t::default();
    sg_init_pool(&mut pool, 4);
    let idx = sg_pool_alloc_index(&mut pool);
    assert_eq!(idx, 1);

    let mut slot = sg_slot_t::default();
    let id = sg_slot_alloc(&mut pool, &mut slot, idx);
    assert_eq!(id, 0x0001_0001);
    assert_eq!(slot.id, id);
    assert!(slot.state == sg_resource_state::ALLOC);

    // a second generation in the same slot gets a distinct id
    let mut slot2 = sg_slot_t::default();
    let id2 = sg_slot_alloc(&mut pool, &mut slot2, 1);
    assert_eq!(id2, 0x0002_0001);
    assert_eq!(pool.gen_ctrs[1], 2);

    assert_eq!(sg_slot_index(id), 1);
    assert_eq!(sg_slot_index(id2), 1);
}

#[test]
fn slot_index_takes_low_bits() {
    assert_eq!(sg_slot_index(0x0007_0123), 0x123);
    assert_eq!(sg_slot_index(0xFFFF_FFFF), 0xFFFF);
}

#[test]
fn pixelformat_helpers_set_expected_flags() {
    let mut pfi = sg_pixelformat_info::default();
    sg_pixelformat_s(&mut pfi);
    assert!(pfi.sample && !pfi.filter && !pfi.render && !pfi.blend && !pfi.msaa && !pfi.depth);

    let mut pfi = sg_pixelformat_info::default();
    sg_pixelformat_sf(&mut pfi);
    assert!(pfi.sample && pfi.filter && !pfi.render && !pfi.blend && !pfi.msaa && !pfi.depth);

    let mut pfi = sg_pixelformat_info::default();
    sg_pixelformat_sr(&mut pfi);
    assert!(pfi.sample && !pfi.filter && pfi.render && !pfi.blend && !pfi.msaa && !pfi.depth);

    let mut pfi = sg_pixelformat_info::default();
    sg_pixelformat_all(&mut pfi);
    assert!(pfi.sample && pfi.filter && pfi.render && pfi.blend && pfi.msaa && !pfi.depth);

    let mut pfi = sg_pixelformat_info::default();
    sg_pixelformat_srmd(&mut pfi);
    assert!(pfi.sample && !pfi.filter && pfi.render && !pfi.blend && pfi.msaa && pfi.depth);

    let mut pfi = sg_pixelformat_info::default();
    sg_pixelformat_srm(&mut pfi);
    assert!(pfi.sample && !pfi.filter && pfi.render && !pfi.blend && pfi.msaa && !pfi.depth);

    let mut pfi = sg_pixelformat_info::default();
    sg_pixelformat_sfrm(&mut pfi);
    assert!(pfi.sample && pfi.filter && pfi.render && !pfi.blend && pfi.msaa && !pfi.depth);

    let mut pfi = sg_pixelformat_info::default();
    sg_pixelformat_sbrm(&mut pfi);
    assert!(pfi.sample && !pfi.filter && pfi.render && pfi.blend && pfi.msaa && !pfi.depth);

    let mut pfi = sg_pixelformat_info::default();
    sg_pixelformat_sbr(&mut pfi);
    assert!(pfi.sample && !pfi.filter && pfi.render && pfi.blend && !pfi.msaa && !pfi.depth);

    let mut pfi = sg_pixelformat_info::default();
    sg_pixelformat_sfbr(&mut pfi);
    assert!(pfi.sample && pfi.filter && pfi.render && pfi.blend && !pfi.msaa && !pfi.depth);
}
