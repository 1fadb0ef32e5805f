//! Collections: a small slot map and set, and the FNV-1a hasher that
//! names their hasher type.
use vstd::prelude::*;

pub mod hashbrown_inline;

pub use std::collections::BTreeMap;
pub use std::collections::BTreeSet;
pub use std::collections::BinaryHeap;
pub use std::collections::LinkedList;
pub use std::collections::VecDeque;

verus! {

/// The FNV-1a 64-bit offset basis.
pub const FNV_OFFSET_BASIS: u64 = 0xcbf29ce484222325;

/// The FNV-1a 64-bit prime.
pub const FNV_PRIME: u64 = 0x100000001b3;

/// FNV-1a over `bytes` from `state`: for each byte in order, xor it in,
/// then multiply by the prime modulo 2^64.
pub open spec fn fnv1a(state: u64, bytes: Seq<u8>) -> u64
    decreases bytes.len(),
{
    if bytes.len() == 0 {
        state
    } else {
        (fnv1a(state, bytes.drop_last()) ^ (bytes.last() as u64)).wrapping_mul(FNV_PRIME)
    }
}

/// A hasher that computes FNV-1a.
pub struct FnvHasher(u64);

impl View for FnvHasher {
    type V = u64;

    closed spec fn view(&self) -> u64 {
        self.0
    }
}

impl FnvHasher {
    /// A hasher at the offset basis.
    pub fn new() -> (r: Self)
        ensures
            r@ == FNV_OFFSET_BASIS,
    {
        FnvHasher(FNV_OFFSET_BASIS)
    }

    /// The hash of everything written so far.
    pub fn finish(&self) -> (r: u64)
        ensures
            r == self@,
    {
        self.0
    }

    /// Feeds `bytes` into the hash.
    pub fn write(&mut self, bytes: &[u8])
        ensures
            final(self)@ == fnv1a(old(self)@, bytes@),
    {
        let ghost start = self.0;
        let n = bytes.len();
        let mut i: usize = 0;
        while i < n
            invariant
                n == bytes@.len(),
                i <= n,
                self.0 == fnv1a(start, bytes@.take(i as int)),
            decreases n - i,
        {
            proof {
                assert(bytes@.take(i + 1).drop_last() =~= bytes@.take(i as int));
            }
            let b = bytes[i];
            self.0 = self.0 ^ (b as u64);
            self.0 = self.0.wrapping_mul(FNV_PRIME);
            i += 1;
        }
        proof {
            assert(bytes@.take(n as int) =~= bytes@);
        }
    }
}

/// Hashing `a` then `b` gives the hash of `a` followed by `b`: the state
/// carries everything needed to go on.
pub proof fn law_fnv_write_concat(state: u64, a: Seq<u8>, b: Seq<u8>)
    ensures
        fnv1a(fnv1a(state, a), b) == fnv1a(state, a + b),
    decreases b.len(),
{
    if b.len() == 0 {
        assert(a + b =~= a);
    } else {
        law_fnv_write_concat(state, a, b.drop_last());
        assert((a + b).drop_last() =~= a + b.drop_last());
    }
}

/// One hashing step takes in a byte as its value, zero-extended: feeding
/// `b` after `bytes` xors the 64-bit state with a number below 256 (only
/// the low byte of the state changes) and then multiplies by the prime
/// modulo 2^64.
pub proof fn law_fnv_step(state: u64, bytes: Seq<u8>, b: u8)
    ensures
        fnv1a(state, bytes.push(b)) == ((fnv1a(state, bytes) ^ (b as u64)) as nat * FNV_PRIME as nat
            % 0x1_0000_0000_0000_0000nat) as u64,
        fnv1a(state, seq![b]) == ((state ^ (b as u64)) as nat * FNV_PRIME as nat
            % 0x1_0000_0000_0000_0000nat) as u64,
        (b as u64) < 256,
        (state ^ (b as u64)) >> 8u64 == state >> 8u64,
{
    assert(bytes.push(b).drop_last() =~= bytes);
    assert(seq![b].drop_last() =~= Seq::<u8>::empty());
    assert(fnv1a(state, Seq::<u8>::empty()) == state);
    let x: u64 = b as u64;
    assert(x < 256 ==> (state ^ x) >> 8u64 == state >> 8u64) by (bit_vector);
}

/// The hash of the single byte 0xff (as in the UTF-8 text of a letter
/// such as "é") from the offset basis.
pub proof fn law_fnv_high_byte()
    ensures
        fnv1a(FNV_OFFSET_BASIS, seq![0xffu8]) == 0xaf64724c8602eb6eu64,
{
    law_fnv_step(FNV_OFFSET_BASIS, Seq::empty(), 0xffu8);
    assert(0xcbf29ce484222325u64 ^ 0xffu64 == 0xcbf29ce4842223dau64) by (bit_vector);
    assert((0xcbf29ce4842223danat * 0x100000001b3nat) % 0x1_0000_0000_0000_0000nat
        == 0xaf64724c8602eb6enat);
}

impl core::hash::Hasher for FnvHasher {
    fn finish(&self) -> (r: u64)
        ensures
            r == self@,
    {
        FnvHasher::finish(self)
    }

    fn write(&mut self, bytes: &[u8])
        ensures
            final(self)@ == fnv1a(old(self)@, bytes@),
    {
        FnvHasher::write(self, bytes)
    }
}

impl core::hash::BuildHasher for FnvBuildHasher {
    type Hasher = FnvHasher;

    fn build_hasher(&self) -> (r: FnvHasher)
        ensures
            r@ == FNV_OFFSET_BASIS,
    {
        FnvBuildHasher::build_hasher(self)
    }
}

/// Builds FNV-1a hashers.
pub struct FnvBuildHasher;

impl FnvBuildHasher {
    /// A fresh hasher at the offset basis.
    pub fn build_hasher(&self) -> (r: FnvHasher)
        ensures
            r@ == FNV_OFFSET_BASIS,
    {
        FnvHasher::new()
    }
}

impl Default for FnvBuildHasher {
    fn default() -> (r: Self) {
        FnvBuildHasher
    }
}

/// A map using the FNV hasher type.
pub type HashMap<K, V> = hashbrown_inline::HashMap<K, V, FnvBuildHasher>;

/// A set using the FNV hasher type.
pub type HashSet<K> = hashbrown_inline::HashSet<K, FnvBuildHasher>;

} // verus!
