use merlion_std::alloc_impl::{align_up_to, brk_granted, heap_start, page_up, plan_alloc, BumpHeap, HEAP_INIT};

#[test]
fn rounding_up() {
    assert_eq!(align_up_to(0, 8), 0);
    assert_eq!(align_up_to(1, 8), 8);
    assert_eq!(align_up_to(8, 8), 8);
    assert_eq!(align_up_to(9, 8), 16);
    assert_eq!(align_up_to(13, 1), 13);
    assert_eq!(page_up(0x80_0001), 0x80_1000);
    assert_eq!(page_up(0x80_1000), 0x80_1000);
}

#[test]
fn start_above_base() {
    assert_eq!(heap_start(0x90_0000), 0x90_0000);
    assert_eq!(heap_start(0x10), HEAP_INIT);
    assert_eq!(heap_start(-1), 0xffff_ffff_ffff_ffff);
    assert!(brk_granted(1));
    assert!(!brk_granted(0));
    assert!(!brk_granted(-12));
}

#[test]
fn plan_within_break() {
    let p = plan_alloc(0x80_0001, 0x80_1000, 16, 8);
    assert_eq!(p.addr, 0x80_0008);
    assert_eq!(p.new_pos, 0x80_0018);
    assert_eq!(p.grow_to, None);
}

#[test]
fn plan_past_break() {
    let p = plan_alloc(0x80_0ff0, 0x80_1000, 0x20, 16);
    assert_eq!(p.addr, 0x80_0ff0);
    assert_eq!(p.new_pos, 0x80_1010);
    assert_eq!(p.grow_to, Some(0x80_2000));
}

#[test]
fn heap_sequence() {
    let mut h = BumpHeap::new();
    assert!(h.needs_start());
    h.start(0);
    assert_eq!((h.pos, h.end), (HEAP_INIT, HEAP_INIT));
    assert!(!h.needs_start());
    let p = h.plan(100, 8);
    assert_eq!(p.grow_to, Some(HEAP_INIT + 4096));
    let a = h.commit(100, 8, 1).unwrap();
    assert_eq!(a, HEAP_INIT);
    assert_eq!((h.pos, h.end), (HEAP_INIT + 100, HEAP_INIT + 4096));
    let b = h.commit(8, 16, 0).unwrap();
    assert_eq!(b, HEAP_INIT + 112);
    assert!(b >= a + 100);
    assert_eq!(h.pos, HEAP_INIT + 120);
}

#[test]
fn heap_refused_growth_leaves_state() {
    let mut h = BumpHeap::new();
    h.start(0x80_0000);
    assert_eq!(h.commit(10, 1, -12), None);
    assert_eq!((h.pos, h.end), (0x80_0000, 0x80_0000));
    assert_eq!(h.commit(10, 1, 0), None);
    assert_eq!(h.commit(10, 1, 0x80_1000), Some(0x80_0000));
}

#[test]
fn blocks_never_overlap_earlier_ones() {
    let mut h = BumpHeap::new();
    h.start(0x80_0010);
    let reqs: [(u64, u64, i64); 6] = [(24, 8, 1), (1, 1, 1), (64, 64, 1), (4096, 16, 1), (3, 4, 0), (0, 2, 1)];
    let mut blocks: Vec<(u64, u64)> = Vec::new();
    for (size, align, reply) in reqs {
        if let Some(a) = h.commit(size, align, reply) {
            assert_eq!(a % align, 0);
            blocks.push((a, size));
        }
    }
    for i in 0..blocks.len() {
        for j in i + 1..blocks.len() {
            assert!(blocks[i].0 + blocks[i].1 <= blocks[j].0);
        }
        assert!(blocks[i].0 + blocks[i].1 <= h.pos);
    }
    assert_eq!(blocks[0], (0x80_0010, 24));
    assert_eq!(blocks[2], (0x80_0040, 64));
}
