//! The bump heap behind the global allocator: the break is queried once,
//! each block is placed at the next address aligned as asked, and the
//! break grows in whole pages when a block runs past it. Memory is never
//! handed back.
use vstd::prelude::*;
use vstd::arithmetic::power2::pow2;
use vstd::bits::{low_bits_mask, lemma_u64_low_bits_mask_is_mod};

verus! {

/// The lowest address the heap starts at (the kernel's heap base).
pub const HEAP_INIT: u64 = 0x0080_0000;

/// The page size the break grows by.
pub const HEAP_PAGE: u64 = 4096;

/// `a` is a power of two.
pub open spec fn is_pow2(a: u64) -> bool {
    exists|k: nat| k < 64 && pow2(k) == a
}

/// The least multiple of `a` that is at least `x`.
pub open spec fn align_up(x: int, a: int) -> int {
    if x % a == 0 {
        x
    } else {
        x - x % a + a
    }
}

proof fn lemma_mask_is_mod(y: u64, a: u64)
    requires
        is_pow2(a),
    ensures
        a > 0,
        y & !((a - 1) as u64) == y - y % a,
{
    let k = choose|k: nat| k < 64 && pow2(k) == a;
    vstd::arithmetic::power2::lemma_pow2_pos(k);
    lemma_u64_low_bits_mask_is_mod(y, k);
    assert(low_bits_mask(k) == a - 1);
    let m: u64 = (a - 1) as u64;
    assert(y & !m == y - (y & m)) by (bit_vector);
}

/// What rounding up gives, for a power of two that fits.
proof fn lemma_align_up_facts(x: u64, a: u64)
    requires
        is_pow2(a),
        x + (a - 1) <= u64::MAX,
    ensures
        align_up(x as int, a as int) % (a as int) == 0,
        x <= align_up(x as int, a as int) < x + a,
{
    lemma_mask_is_mod(x, a);
    if x % a != 0 {
        assert((x - x % a + a) % (a as int) == 0) by (nonlinear_arith)
            requires a > 0;
    }
}

/// Rounds `x` up to a multiple of the power of two `a`.
pub fn align_up_to(x: u64, a: u64) -> (r: u64)
    requires
        is_pow2(a),
        x + (a - 1) <= u64::MAX,
    ensures
        r == align_up(x as int, a as int),
        r % a == 0,
        x <= r < x + a,
{
    proof {
        lemma_mask_is_mod(x, a);
    }
    let y = x + (a - 1);
    proof {
        lemma_mask_is_mod(y, a);
    }
    let r = y & !(a - 1);
    proof {
        assert((y - y % a) % (a as int) == 0) by (nonlinear_arith)
            requires a > 0;
        assert(y == x + (a - 1));
        if x % a == 0 {
            assert(y % a == a - 1) by (nonlinear_arith)
                requires y == x + (a - 1), x % a == 0, a > 0;
        } else {
            assert(y % a == x % a - 1) by (nonlinear_arith)
                requires y == x + (a - 1), x % a != 0, a > 0;
        }
    }
    r
}

proof fn lemma_page_is_pow2()
    ensures
        is_pow2(HEAP_PAGE),
{
    vstd::arithmetic::power2::lemma2_to64();
    assert(pow2(12) == 4096);
}

/// Rounds `x` up to a whole page.
pub fn page_up(x: u64) -> (r: u64)
    requires
        x + (HEAP_PAGE - 1) <= u64::MAX,
    ensures
        r == align_up(x as int, HEAP_PAGE as int),
        r % HEAP_PAGE == 0,
        x <= r < x + HEAP_PAGE,
{
    proof {
        lemma_page_is_pow2();
    }
    align_up_to(x, HEAP_PAGE)
}

/// Where the heap starts, given the break the kernel reported: the break
/// itself when it lies above the heap base, else the base.
pub fn heap_start(brk_reply: i64) -> (r: u64)
    ensures
        r == (if brk_reply as u64 > HEAP_INIT {
            brk_reply as u64
        } else {
            HEAP_INIT
        }),
{
    let brk = brk_reply as u64;
    if brk > HEAP_INIT {
        brk
    } else {
        HEAP_INIT
    }
}

/// Whether the kernel granted a request to move the break.
pub fn brk_granted(brk_reply: i64) -> (r: bool)
    ensures
        r == (brk_reply > 0),
{
    brk_reply > 0
}

/// Where a block goes: its address, the heap position after it, and the
/// new break when the block runs past the current one.
pub struct AllocPlan {
    pub addr: u64,
    pub new_pos: u64,
    pub grow_to: Option<u64>,
}

/// The block of `size` bytes aligned to `align` placed at `pos` with the
/// break at `end`.
pub open spec fn plan_spec(pos: u64, end: u64, size: u64, align: u64) -> AllocPlan {
    let addr = align_up(pos as int, align as int);
    let new_pos = addr + size;
    AllocPlan {
        addr: addr as u64,
        new_pos: new_pos as u64,
        grow_to: if new_pos > end {
            Some(align_up(new_pos, HEAP_PAGE as int) as u64)
        } else {
            None
        },
    }
}

/// The arguments for which placing a block stays within 64-bit addresses.
pub open spec fn plan_fits(pos: u64, size: u64, align: u64) -> bool {
    &&& is_pow2(align)
    &&& pos + (align - 1) + size + (HEAP_PAGE - 1) <= u64::MAX
}

/// Places a block of `size` bytes aligned to `align` at the heap position
/// `pos`, with the break at `end`.
pub fn plan_alloc(pos: u64, end: u64, size: u64, align: u64) -> (r: AllocPlan)
    requires
        plan_fits(pos, size, align),
    ensures
        r == plan_spec(pos, end, size, align),
        r.addr % align == 0,
        pos <= r.addr < pos + align,
        r.new_pos == r.addr + size,
        match r.grow_to {
            Some(e) => end < r.new_pos <= e && e % HEAP_PAGE == 0 && e < r.new_pos + HEAP_PAGE,
            None => r.new_pos <= end,
        },
{
    let addr = align_up_to(pos, align);
    let new_pos = addr + size;
    if new_pos > end {
        let e = page_up(new_pos);
        AllocPlan { addr, new_pos, grow_to: Some(e) }
    } else {
        AllocPlan { addr, new_pos, grow_to: None }
    }
}

/// The heap's state: the next free address and the current break
/// (both zero before the heap is started).
pub struct BumpHeap {
    pub pos: u64,
    pub end: u64,
}

/// The heap after one allocation, and the address handed out (`None` when
/// the kernel refused to move the break; the heap is then unchanged).
pub open spec fn commit_spec(h: BumpHeap, size: u64, align: u64, grow_reply: i64) -> (BumpHeap, Option<u64>) {
    let p = plan_spec(h.pos, h.end, size, align);
    match p.grow_to {
        Some(e) => if grow_reply <= 0 {
            (h, None)
        } else {
            (BumpHeap { pos: p.new_pos, end: e }, Some(p.addr))
        },
        None => (BumpHeap { pos: p.new_pos, end: h.end }, Some(p.addr)),
    }
}

impl BumpHeap {
    /// A heap that has not been started.
    pub fn new() -> (r: Self)
        ensures
            r.pos == 0,
            r.end == 0,
    {
        BumpHeap { pos: 0, end: 0 }
    }

    /// Whether the heap still has to ask the kernel for its start.
    pub fn needs_start(&self) -> (r: bool)
        ensures
            r == (self.pos == 0),
    {
        self.pos == 0
    }

    /// Starts the heap at the break the kernel reported.
    pub fn start(&mut self, brk_reply: i64)
        ensures
            final(self).pos == final(self).end,
            final(self).pos == (if brk_reply as u64 > HEAP_INIT {
                brk_reply as u64
            } else {
                HEAP_INIT
            }),
    {
        let s = heap_start(brk_reply);
        self.pos = s;
        self.end = s;
    }

    /// Where the next block of `size` bytes aligned to `align` goes.
    pub fn plan(&self, size: u64, align: u64) -> (r: AllocPlan)
        requires
            plan_fits(self.pos, size, align),
        ensures
            r == plan_spec(self.pos, self.end, size, align),
    {
        plan_alloc(self.pos, self.end, size, align)
    }

    /// Allocates the block that `plan` describes; `grow_reply` is the
    /// kernel's answer to moving the break, read only when the plan grows
    /// the heap.
    pub fn commit(&mut self, size: u64, align: u64, grow_reply: i64) -> (r: Option<u64>)
        requires
            plan_fits(old(self).pos, size, align),
        ensures
            (*final(self), r) == commit_spec(*old(self), size, align, grow_reply),
    {
        let p = plan_alloc(self.pos, self.end, size, align);
        match p.grow_to {
            Some(e) => {
                if !brk_granted(grow_reply) {
                    return None;
                }
                self.end = e;
            },
            None => {},
        }
        self.pos = p.new_pos;
        Some(p.addr)
    }
}

/// A block handed out starts at or after the heap position, is aligned as
/// asked, ends where the next position begins, and lies below the break;
/// the position and the break never move down, and a position at or below
/// the break stays so.
pub proof fn law_block_within_heap(h: BumpHeap, size: u64, align: u64, reply: i64)
    requires
        plan_fits(h.pos, size, align),
    ensures
        ({
            let (h2, r) = commit_spec(h, size, align, reply);
            &&& h.pos <= h2.pos
            &&& h.end <= h2.end
            &&& (h.pos <= h.end ==> h2.pos <= h2.end)
            &&& (r matches Some(a) ==> {
                &&& h.pos <= a
                &&& a % align == 0
                &&& h2.pos == a + size
                &&& h2.pos <= h2.end
            })
            &&& (r is None ==> h2 == h)
        }),
{
    let p = plan_spec(h.pos, h.end, size, align);
    lemma_align_up_facts(h.pos, align);
    lemma_page_is_pow2();
    lemma_align_up_facts((p.addr + size) as u64, HEAP_PAGE);
}

/// Two blocks handed out one after the other never overlap.
pub proof fn law_successive_blocks_disjoint(
    h: BumpHeap,
    s1: u64,
    a1: u64,
    r1: i64,
    s2: u64,
    a2: u64,
    r2: i64,
)
    requires
        plan_fits(h.pos, s1, a1),
        plan_fits(commit_spec(h, s1, a1, r1).0.pos, s2, a2),
    ensures
        ({
            let (h1, b1) = commit_spec(h, s1, a1, r1);
            let (h2, b2) = commit_spec(h1, s2, a2, r2);
            b1 matches Some(x) ==> (b2 matches Some(y) ==> x + s1 <= y)
        }),
{
    let (h1, b1) = commit_spec(h, s1, a1, r1);
    law_block_within_heap(h, s1, a1, r1);
    law_block_within_heap(h1, s2, a2, r2);
}

/// The heap after serving the requests `reqs` in order from `h`, each a
/// block size, an alignment and the kernel's answer should the break have
/// to move, with what each request was handed (`None` when refused).
pub open spec fn run_heap(h: BumpHeap, reqs: Seq<(u64, u64, i64)>) -> (BumpHeap, Seq<Option<u64>>)
    decreases reqs.len(),
{
    if reqs.len() == 0 {
        (h, Seq::empty())
    } else {
        let (h1, blocks) = run_heap(h, reqs.drop_last());
        let q = reqs.last();
        let (h2, b) = commit_spec(h1, q.0, q.1, q.2);
        (h2, blocks.push(b))
    }
}

/// Every request of `reqs`, served in order from `h`, is placed within
/// 64-bit addresses.
pub open spec fn run_fits(h: BumpHeap, reqs: Seq<(u64, u64, i64)>) -> bool
    decreases reqs.len(),
{
    if reqs.len() == 0 {
        true
    } else {
        &&& run_fits(h, reqs.drop_last())
        &&& plan_fits(run_heap(h, reqs.drop_last()).0.pos, reqs.last().0, reqs.last().1)
    }
}

/// Every block handed out while serving `reqs` from `h` is aligned as its
/// request asked, lies at or above the starting position and ends by the
/// final one, and no block overlaps any block handed out before it.
pub proof fn law_blocks_disjoint(h: BumpHeap, reqs: Seq<(u64, u64, i64)>)
    requires
        run_fits(h, reqs),
    ensures
        ({
            let (h2, blocks) = run_heap(h, reqs);
            &&& blocks.len() == reqs.len()
            &&& h.pos <= h2.pos
            &&& forall|i: int| #![trigger blocks[i]]
                0 <= i < blocks.len() ==> (blocks[i] matches Some(x) ==> h.pos <= x && x
                    + reqs[i].0 <= h2.pos && x % reqs[i].1 == 0)
            &&& forall|i: int, j: int| #![trigger blocks[i], blocks[j]]
                0 <= i < j < blocks.len() ==> (blocks[i] matches Some(x) ==> (
                blocks[j] matches Some(y) ==> x + reqs[i].0 <= y))
        }),
    decreases reqs.len(),
{
    if reqs.len() > 0 {
        let p = reqs.drop_last();
        law_blocks_disjoint(h, p);
        let (h1, bs) = run_heap(h, p);
        let q = reqs.last();
        law_block_within_heap(h1, q.0, q.1, q.2);
        let (h2, blocks) = run_heap(h, reqs);
        assert(blocks == bs.push(commit_spec(h1, q.0, q.1, q.2).1));
        assert forall|i: int| 0 <= i < blocks.len() implies (#[trigger] blocks[i] matches Some(x) ==> h.pos
            <= x && x + reqs[i].0 <= h2.pos && x % reqs[i].1 == 0) by {
            if i < bs.len() {
                assert(blocks[i] == bs[i]);
                assert(reqs[i] == p[i]);
            }
        }
        assert forall|i: int, j: int| #![trigger blocks[i], blocks[j]]
            0 <= i < j < blocks.len() implies (blocks[i] matches Some(
            x,
        ) ==> (blocks[j] matches Some(y) ==> x + reqs[i].0 <= y)) by {
            assert(blocks[i] == bs[i]);
            assert(reqs[i] == p[i]);
            if j < bs.len() {
                assert(blocks[j] == bs[j]);
            }
        }
    }
}

/// When `commit` hands out a block and when it refuses: the block goes at
/// the least address at or above the heap position that is a multiple of
/// the alignment; it is refused exactly when it would run past the break
/// and the kernel did not grant moving the break. A block that ends at or
/// below the break is always handed out, whatever the reply.
pub proof fn law_commit_outcome(h: BumpHeap, size: u64, align: u64, reply: i64)
    requires
        plan_fits(h.pos, size, align),
    ensures
        ({
            let (h2, r) = commit_spec(h, size, align, reply);
            let a = align_up(h.pos as int, align as int);
            &&& a % (align as int) == 0
            &&& h.pos <= a < h.pos + align
            &&& (r is None <==> (a + size > h.end && reply <= 0))
            &&& (r matches Some(x) ==> x == a && h2.pos == a + size)
            &&& (a + size <= h.end ==> r == Some(a as u64) && h2.end == h.end)
        }),
{
    lemma_align_up_facts(h.pos, align);
}

} // verus!
