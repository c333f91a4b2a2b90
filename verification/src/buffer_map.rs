//! A bounded pool of reusable layer buffers, keyed by pixel dimensions.
//!
//! Allocating and destroying native pixel-backed surfaces is expensive, and
//! tile geometry is stable across most repaints, so no-longer-needed buffers
//! are pooled and handed out again by size. The pool enforces a total-byte
//! budget: when an insertion would exceed it, the oldest entries are evicted
//! (destroyed) until the total fits again.

use crate::geometry::Size2D;
use crate::layers::LayerBuffer;
use vstd::prelude::*;

verus! {

/// Largest byte budget a pool may be created with; keeps the running byte
/// total plus one buffer inside `u64`.
pub const MAX_BUDGET: u64 = 0x1000_0000_0000_0000;

/// Every buffer's pixel extents are non-negative and bounded.
pub open spec fn all_wf_dims(s: Seq<LayerBuffer>) -> bool {
    forall|i: int| 0 <= i < s.len() ==> (#[trigger] s[i]).wf_dims()
}

/// Total bytes of pixel storage held by the pooled buffers.
pub open spec fn total_bytes(s: Seq<LayerBuffer>) -> int
    decreases s.len(),
{
    if s.len() == 0 {
        0
    } else {
        s.first().byte_size() + total_bytes(s.drop_first())
    }
}

/// Eviction: drop the oldest pooled buffers (front of the sequence) until
/// the byte total is within the budget.
pub open spec fn evict_model(s: Seq<LayerBuffer>, budget: int) -> Seq<LayerBuffer>
    decreases s.len(),
{
    if total_bytes(s) <= budget {
        s
    } else if s.len() == 0 {
        s
    } else {
        evict_model(s.drop_first(), budget)
    }
}

/// Insertion: the buffer joins as the newest entry, then eviction restores
/// the budget.
pub open spec fn insert_model(s: Seq<LayerBuffer>, b: LayerBuffer, budget: int) -> Seq<
    LayerBuffer,
> {
    evict_model(s.push(b), budget)
}

/// Whether some pooled buffer has the given pixel dimensions.
pub open spec fn has_size(s: Seq<LayerBuffer>, size: Size2D<i64>) -> bool {
    exists|i: int| 0 <= i < s.len() && (#[trigger] s[i]).pixel_size() == size
}

/// A buffer with bounded pixel extents occupies between 0 and 2^28 bytes.
pub proof fn lemma_byte_size_bounds(b: LayerBuffer)
    requires
        b.wf_dims(),
    ensures
        0 <= b.byte_size() <= 0x1000_0000,
{
    assert(0 <= b.screen_pos.size.width * 4 * b.screen_pos.size.height <= 0x1000_0000)
        by (nonlinear_arith)
        requires
            0 <= b.screen_pos.size.width <= 8192,
            0 <= b.screen_pos.size.height <= 8192,
    ;
}

proof fn lemma_total_bytes_nonneg(s: Seq<LayerBuffer>)
    requires
        all_wf_dims(s),
    ensures
        total_bytes(s) >= 0,
    decreases s.len(),
{
    if s.len() > 0 {
        lemma_byte_size_bounds(s.first());
        assert(all_wf_dims(s.drop_first()));
        lemma_total_bytes_nonneg(s.drop_first());
    }
}

proof fn lemma_total_bytes_push(s: Seq<LayerBuffer>, b: LayerBuffer)
    ensures
        total_bytes(s.push(b)) == total_bytes(s) + b.byte_size(),
    decreases s.len(),
{
    let p = s.push(b);
    assert(p.len() == s.len() + 1);
    assert(total_bytes(p) == p.first().byte_size() + total_bytes(p.drop_first()));
    if s.len() == 0 {
        assert(p.first() == b);
        assert(p.drop_first() =~= Seq::<LayerBuffer>::empty());
        assert(total_bytes(p.drop_first()) == 0);
        assert(total_bytes(s) == 0);
    } else {
        lemma_total_bytes_push(s.drop_first(), b);
        assert(p.first() == s.first());
        assert(p.drop_first() =~= s.drop_first().push(b));
        assert(total_bytes(p.drop_first()) == total_bytes(s.drop_first()) + b.byte_size());
        assert(total_bytes(s) == s.first().byte_size() + total_bytes(s.drop_first()));
    }
}

proof fn lemma_total_bytes_remove(s: Seq<LayerBuffer>, i: int)
    requires
        0 <= i < s.len(),
    ensures
        total_bytes(s.remove(i)) == total_bytes(s) - s[i].byte_size(),
    decreases i,
{
    if i == 0 {
        assert(s.remove(0) =~= s.drop_first());
    } else {
        lemma_total_bytes_remove(s.drop_first(), i - 1);
        assert(s.remove(i).drop_first() =~= s.drop_first().remove(i - 1));
    }
}

/// Eviction only drops from the front: the newest entry survives whenever
/// its own byte size fits the budget.
proof fn lemma_evict_keeps_last(s: Seq<LayerBuffer>, budget: int)
    requires
        s.len() > 0,
        all_wf_dims(s),
        s.last().byte_size() <= budget,
    ensures
        evict_model(s, budget).len() > 0,
        evict_model(s, budget).last() == s.last(),
    decreases s.len(),
{
    if total_bytes(s) <= budget {
    } else {
        if s.len() == 1 {
            assert(s.drop_first() =~= Seq::<LayerBuffer>::empty());
            assert(total_bytes(s.drop_first()) == 0);
            assert(s.first() == s.last());
            assert(total_bytes(s) == s.last().byte_size());
            assert(false);
        } else {
            assert(all_wf_dims(s.drop_first()));
            assert(s.drop_first().last() == s.last());
            lemma_evict_keeps_last(s.drop_first(), budget);
        }
    }
}

/// Round-trip reuse: inserting a buffer of pixel size `S` into a pool whose
/// budget can hold it guarantees that a lookup for `S` afterwards finds a
/// pooled buffer; `BufferMap::find` then returns a buffer whose dimensions
/// equal `S` (not necessarily the same instance, if several are pooled).
pub proof fn lemma_cache_round_trip(s: Seq<LayerBuffer>, b: LayerBuffer, budget: int)
    requires
        all_wf_dims(s),
        b.wf_dims(),
        b.byte_size() <= budget,
    ensures
        has_size(insert_model(s, b, budget), b.pixel_size()),
{
    let pushed = s.push(b);
    assert(pushed.last() == b);
    assert(all_wf_dims(pushed));
    lemma_evict_keeps_last(pushed, budget);
    let r = insert_model(s, b, budget);
    assert(r[r.len() - 1].pixel_size() == b.pixel_size());
}

/// Whether `a` is an order-preserving subsequence of `b`: everything in
/// `a` appears in `b`, in the same relative order. Removing pooled buffers
/// — and nothing else — leaves such a subsequence.
pub open spec fn is_subsequence(a: Seq<LayerBuffer>, b: Seq<LayerBuffer>) -> bool
    decreases a.len() + b.len(),
{
    if a.len() == 0 {
        true
    } else if b.len() == 0 {
        false
    } else if a.first() == b.first() {
        is_subsequence(a.drop_first(), b.drop_first())
    } else {
        is_subsequence(a, b.drop_first())
    }
}

pub proof fn lemma_subsequence_refl(s: Seq<LayerBuffer>)
    ensures
        is_subsequence(s, s),
    decreases s.len(),
{
    if s.len() > 0 {
        lemma_subsequence_refl(s.drop_first());
    }
}

/// A subsequence of a shorter tail is a subsequence of the whole.
proof fn lemma_subsequence_extend_right(a: Seq<LayerBuffer>, b: Seq<LayerBuffer>)
    requires
        b.len() > 0,
        is_subsequence(a, b.drop_first()),
    ensures
        is_subsequence(a, b),
    decreases a.len() + b.len(),
{
    if a.len() == 0 {
    } else if a.first() == b.first() {
        lemma_subsequence_drop_left(a, b.drop_first());
    } else {
    }
}

/// Dropping the head of a subsequence keeps it a subsequence.
proof fn lemma_subsequence_drop_left(a: Seq<LayerBuffer>, z: Seq<LayerBuffer>)
    requires
        a.len() > 0,
        is_subsequence(a, z),
    ensures
        is_subsequence(a.drop_first(), z),
    decreases a.len() + z.len(),
{
    if z.len() == 0 {
    } else if a.first() == z.first() {
        if a.drop_first().len() > 0 {
            lemma_subsequence_drop_left(a.drop_first(), z.drop_first());
        }
        lemma_subsequence_extend_right(a.drop_first(), z);
    } else {
        lemma_subsequence_drop_left(a, z.drop_first());
        lemma_subsequence_extend_right(a.drop_first(), z);
    }
}

pub proof fn lemma_subsequence_trans(a: Seq<LayerBuffer>, b: Seq<LayerBuffer>, c: Seq<LayerBuffer>)
    requires
        is_subsequence(a, b),
        is_subsequence(b, c),
    ensures
        is_subsequence(a, c),
    decreases a.len() + b.len() + c.len(),
{
    if a.len() == 0 {
    } else if c.len() == 0 {
    } else if b.first() == c.first() {
        if a.first() == b.first() {
            lemma_subsequence_trans(a.drop_first(), b.drop_first(), c.drop_first());
        } else {
            lemma_subsequence_trans(a, b.drop_first(), c.drop_first());
            lemma_subsequence_extend_right(a, c);
        }
    } else {
        lemma_subsequence_trans(a, b, c.drop_first());
        lemma_subsequence_extend_right(a, c);
    }
}

/// Removing one element leaves an order-preserving subsequence.
pub proof fn lemma_subsequence_remove(s: Seq<LayerBuffer>, j: int)
    requires
        0 <= j < s.len(),
    ensures
        is_subsequence(s.remove(j), s),
    decreases j,
{
    if j == 0 {
        assert(s.remove(0) =~= s.drop_first());
        if s.len() > 1 {
            lemma_subsequence_refl(s);
            lemma_subsequence_drop_left(s, s);
        }
    } else {
        lemma_subsequence_remove(s.drop_first(), j - 1);
        assert(s.remove(j).first() == s.first());
        assert(s.remove(j).drop_first() =~= s.drop_first().remove(j - 1));
    }
}

/// A subsequence is no longer than the sequence it came from.
pub proof fn lemma_subsequence_len(a: Seq<LayerBuffer>, b: Seq<LayerBuffer>)
    requires
        is_subsequence(a, b),
    ensures
        a.len() <= b.len(),
    decreases a.len() + b.len(),
{
    if a.len() == 0 {
    } else if a.first() == b.first() {
        lemma_subsequence_len(a.drop_first(), b.drop_first());
    } else {
        lemma_subsequence_len(a, b.drop_first());
    }
}

/// A bounded pool of reusable layer buffers: the data structure that stores
/// unused layer buffers between paints.
pub struct BufferMap {
    /// Pooled buffers, oldest first.
    buffers: Vec<LayerBuffer>,
    /// Bytes of pixel storage currently pooled.
    mem: u64,
    /// The total-byte budget.
    max_size: u64,
}

impl BufferMap {
    /// The pooled buffers, oldest first.
    pub closed spec fn view(&self) -> Seq<LayerBuffer> {
        self.buffers@
    }

    /// The pool's total-byte budget.
    pub closed spec fn budget(&self) -> u64 {
        self.max_size
    }

    /// The byte accounting matches the contents, the budget is respected,
    /// and every pooled buffer has bounded dimensions.
    pub closed spec fn wf(&self) -> bool {
        &&& self.mem == total_bytes(self.buffers@)
        &&& total_bytes(self.buffers@) <= self.max_size
        &&& all_wf_dims(self.buffers@)
        &&& self.max_size <= MAX_BUDGET
    }

    /// An empty pool with the given total-byte budget.
    pub fn new(max_size: u64) -> (r: BufferMap)
        requires
            max_size <= MAX_BUDGET,
        ensures
            r.wf(),
            r.view() == Seq::<LayerBuffer>::empty(),
            r.budget() == max_size,
    {
        let r = BufferMap { buffers: Vec::new(), mem: 0, max_size };
        proof {
            assert(r.buffers@ =~= Seq::<LayerBuffer>::empty());
        }
        r
    }

    /// Removes and returns a pooled buffer matching the requested pixel
    /// dimensions, if one exists. The caller re-stamps its rectangles,
    /// resolution and content age before reuse; the pool does not validate
    /// content age.
    pub fn find(&mut self, size: Size2D<i64>) -> (r: Option<LayerBuffer>)
        requires
            old(self).wf(),
        ensures
            final(self).wf(),
            final(self).budget() == old(self).budget(),
            r is Some ==> {
                &&& has_size(old(self).view(), size)
                &&& r.unwrap().pixel_size() == size
                &&& r.unwrap().wf_dims()
                &&& exists|j: int|
                    0 <= j < old(self).view().len() && old(self).view()[j] == r.unwrap()
                        && final(self).view() == #[trigger] old(self).view().remove(j)
            },
            r is None ==> {
                &&& !has_size(old(self).view(), size)
                &&& final(self).view() == old(self).view()
            },
    {
        let mut i: usize = 0;
        while i < self.buffers.len()
            invariant
                self.wf(),
                *self == *old(self),
                0 <= i <= self.buffers@.len(),
                forall|j: int| 0 <= j < i ==> (#[trigger] self.buffers@[j]).pixel_size() != size,
            decreases self.buffers@.len() - i,
        {
            if self.buffers[i].screen_pos.size == size {
                let ghost j = i as int;
                let ghost prev = self.buffers@;
                proof {
                    assert(prev[j].pixel_size() == size);
                    assert(has_size(prev, size));
                    lemma_total_bytes_remove(prev, j);
                    lemma_byte_size_bounds(prev[j]);
                    assert forall|k: int| 0 <= k < prev.remove(j).len() implies (#[trigger] prev.remove(
                        j,
                    )[k]).wf_dims() by {
                        if k < j {
                            assert(prev.remove(j)[k] == prev[k]);
                        } else {
                            assert(prev.remove(j)[k] == prev[k + 1]);
                        }
                    }
                    lemma_total_bytes_nonneg(prev.remove(j));
                }
                let b = self.buffers.remove(i);
                proof {
                    assert(b.wf_dims());
                    assert(b.pixel_size() == size);
                    assert(0 <= j < prev.len() && prev[j] == b && self.buffers@ == prev.remove(j));
                    assert(exists|jj: int|
                        0 <= jj < prev.len() && prev[jj] == b && self.buffers@
                            == #[trigger] prev.remove(jj));
                }
                let bs = crate::layers::tile_byte_len(b.screen_pos.size);
                self.mem = self.mem - bs as u64;
                return Some(b);
            }
            i = i + 1;
        }
        None
    }

    /// Returns ownership of a no-longer-needed buffer to the pool as its
    /// newest entry, then evicts (destroys) the oldest entries while the
    /// byte total exceeds the budget.
    pub fn insert(&mut self, buffer: LayerBuffer)
        requires
            old(self).wf(),
            buffer.wf_dims(),
        ensures
            final(self).wf(),
            final(self).budget() == old(self).budget(),
            final(self).view() == insert_model(
                old(self).view(),
                buffer,
                old(self).budget() as int,
            ),
    {
        proof {
            lemma_total_bytes_push(self.buffers@, buffer);
            lemma_byte_size_bounds(buffer);
        }
        let bs = crate::layers::tile_byte_len(buffer.screen_pos.size);
        self.buffers.push(buffer);
        self.mem = self.mem + bs as u64;
        while self.mem > self.max_size
            invariant
                self.max_size == old(self).max_size,
                self.mem == total_bytes(self.buffers@),
                all_wf_dims(self.buffers@),
                evict_model(self.buffers@, self.max_size as int) == insert_model(
                    old(self).view(),
                    buffer,
                    old(self).budget() as int,
                ),
            decreases self.buffers@.len(),
        {
            proof {
                if self.buffers@.len() == 0 {
                    assert(total_bytes(self.buffers@) == 0);
                    assert(false);
                }
                lemma_total_bytes_remove(self.buffers@, 0);
                lemma_byte_size_bounds(self.buffers@[0]);
                assert(self.buffers@.remove(0) =~= self.buffers@.drop_first());
                assert(all_wf_dims(self.buffers@.drop_first()));
                lemma_total_bytes_nonneg(self.buffers@.drop_first());
            }
            let front = self.buffers.remove(0);
            let fbs = crate::layers::tile_byte_len(front.screen_pos.size);
            self.mem = self.mem - fbs as u64;
        }
    }

    /// Destroys every pooled buffer's native resource and empties the pool;
    /// used once at shutdown.
    pub fn clear(&mut self)
        requires
            old(self).wf(),
        ensures
            final(self).wf(),
            final(self).budget() == old(self).budget(),
            final(self).view() == Seq::<LayerBuffer>::empty(),
    {
        self.buffers = Vec::new();
        self.mem = 0;
        proof {
            assert(self.buffers@ =~= Seq::<LayerBuffer>::empty());
        }
    }
}

} // verus!
