//! The paint coordinator: a single-threaded message loop that owns the
//! current render-tree snapshot, the epoch counter, the paint permission
//! flag, the buffer cache and the outstanding-buffer accounting. It
//! interprets inbound control and work messages, fans tiles out to the
//! worker pool round-robin, collects results in submission order, and
//! drives a two-phase exit sequence.

use crate::buffer_map::{has_size, insert_model, BufferMap};
use crate::compositor_msg::{Epoch, LayerId, LayerMetadata, PaintState, PipelineId};
use crate::display_list::{find_layer, lemma_find_layer_wf, metadata_of, StackingContext};
use crate::layers::{
    zero_pixels, BufferRequest, LayerBuffer, LayerBufferSet, NativePaintingGraphicsContext,
    ScaleFactor,
};
use crate::vec_util::vec_index_mut;
use crate::worker::{
    assigned_count, lemma_assigned_mono, lemma_assigned_step, WorkerThreadProxy,
};
use vstd::prelude::*;

verus! {

/// One layer's worth of tile requests within a paint batch, tagged with the
/// epoch the batch was generated against.
#[derive(Clone, PartialEq, Eq, Debug)]
pub struct PaintRequest {
    pub buffer_requests: Vec<BufferRequest>,
    pub scale: ScaleFactor,
    pub layer_id: LayerId,
    pub epoch: Epoch,
}

/// How the pipeline is asked to exit: completely (the compositor abandons
/// its buffers) or pipeline-only (outstanding buffers are drained first).
#[derive(Clone, Copy, PartialEq, Eq, Structural, Debug)]
pub enum PipelineExitType {
    Complete,
    PipelineOnly,
}

/// The messages the coordinator consumes, processed one at a time in
/// arrival order.
pub enum Msg {
    /// Install a new render-tree snapshot; advances the epoch.
    PaintInit(StackingContext),
    /// Rasterize a batch of tile requests.
    Paint(Vec<PaintRequest>),
    /// The compositor returns buffers it no longer needs.
    UnusedBuffer(Vec<LayerBuffer>),
    PaintPermissionGranted,
    PaintPermissionRevoked,
    /// Begin the exit sequence; the acknowledgment is emitted as an
    /// `ExitAck` action for the caller's ack channel.
    Exit(PipelineExitType),
}

/// The messages the coordinator produces for its collaborators: the
/// compositor, the upstream controller, and the exit ack channel. The
/// caller's loop performs the sends.
pub enum OutboundMsg {
    /// Readiness notification to the upstream controller: the pipeline is
    /// ready for paint permission.
    PainterReady(PipelineId),
    /// Layer-metadata initialization for every tagged layer of the snapshot.
    InitializeLayersForPipeline(PipelineId, Vec<LayerMetadata>, Epoch),
    /// A paint batch arrived without permission and was discarded.
    PaintMsgDiscarded,
    /// Painting-state transition around a batch.
    SetPaintState(PipelineId, PaintState),
    /// The produced layer-buffer replies for a batch.
    PaintReply(PipelineId, Epoch, Vec<(LayerId, LayerBufferSet)>),
    /// Acknowledge the exit request.
    ExitAck,
}

/// The coordinator's shutdown state: running normally, draining
/// outstanding buffers for a pipeline-only exit, or terminated.
#[derive(Clone, Copy, PartialEq, Eq, Structural, Debug)]
pub enum ShutdownState {
    Running,
    Draining,
    Terminated,
}

/// A buffer stamped for a tile: placement, resolution, content age, stride
/// and backend flag all match the request it answers.
pub open spec fn stamped_for_tile(
    b: LayerBuffer,
    tile: BufferRequest,
    scale: ScaleFactor,
    cpu: bool,
) -> bool {
    &&& b.rect == tile.page_rect
    &&& b.screen_pos == tile.screen_rect
    &&& b.resolution == scale
    &&& b.content_age == tile.content_age
    &&& b.painted_with_cpu == cpu
    &&& b.stride == tile.screen_rect.size.width * 4
    &&& b.native_surface.size == tile.screen_rect.size
}

/// A finished reply buffer for a tile: stamped for it, CPU-painted exactly
/// when the CPU backend is in use, its surface holding the tile's painted
/// (cleared) pixels and safe to send.
pub open spec fn buffer_matches_tile(
    b: LayerBuffer,
    tile: BufferRequest,
    scale: ScaleFactor,
    gpu: bool,
) -> bool {
    &&& stamped_for_tile(b, tile, scale, !gpu)
    &&& b.native_surface.will_leak == false
    &&& b.native_surface.data@ == zero_pixels(tile.screen_rect.size)
    &&& b.wf_dims()
}

/// Retrieves an appropriately-sized layer buffer from the cache to match
/// the requirements of the given tile, or creates one if a suitable one
/// cannot be found. Under the GPU backend no buffer is used: the draw
/// target's own resource becomes the reply.
pub fn find_or_create_layer_buffer_for_tile(
    buffer_map: &mut BufferMap,
    ctx: &mut NativePaintingGraphicsContext,
    tile: &BufferRequest,
    scale: ScaleFactor,
    gpu_painting: bool,
) -> (r: Option<LayerBuffer>)
    requires
        tile.wf(),
        old(buffer_map).wf(),
        !gpu_painting ==> old(ctx).next_id() < u64::MAX,
    ensures
        final(buffer_map).wf(),
        final(buffer_map).budget() == old(buffer_map).budget(),
        final(buffer_map).view().len() <= old(buffer_map).view().len(),
        crate::buffer_map::is_subsequence(final(buffer_map).view(), old(buffer_map).view()),
        final(ctx).next_id() >= old(ctx).next_id(),
        final(ctx).next_id() <= old(ctx).next_id() + 1,
        gpu_painting ==> {
            &&& r is None
            &&& final(buffer_map).view() == old(buffer_map).view()
            &&& *final(ctx) == *old(ctx)
        },
        !gpu_painting ==> {
            &&& r is Some
            &&& r.unwrap().wf_dims()
            &&& stamped_for_tile(r.unwrap(), *tile, scale, true)
            &&& r.unwrap().native_surface.will_leak == false
        },
        !gpu_painting && has_size(old(buffer_map).view(), tile.screen_rect.size) ==> {
            &&& *final(ctx) == *old(ctx)
            &&& exists|j: int|
                0 <= j < old(buffer_map).view().len() && final(buffer_map).view()
                    == #[trigger] old(buffer_map).view().remove(j)
        },
        !gpu_painting && !has_size(old(buffer_map).view(), tile.screen_rect.size) ==> {
            &&& final(buffer_map).view() == old(buffer_map).view()
            &&& final(ctx).next_id() == old(ctx).next_id() + 1
            &&& r.unwrap().native_surface.id == old(ctx).next_id()
            &&& r.unwrap().native_surface.data@ == zero_pixels(tile.screen_rect.size)
        },
{
    let width = tile.screen_rect.size.width;
    proof {
        crate::buffer_map::lemma_subsequence_refl(old(buffer_map).view());
    }
    if gpu_painting {
        return None;
    }
    let ghost prev = buffer_map.view();
    match buffer_map.find(tile.screen_rect.size) {
        Some(mut buffer) => {
            proof {
                let j = choose|j: int|
                    0 <= j < prev.len() && buffer_map.view() == #[trigger] prev.remove(j);
                crate::buffer_map::lemma_subsequence_remove(prev, j);
            }
            buffer.rect = tile.page_rect;
            buffer.screen_pos = tile.screen_rect;
            buffer.resolution = scale;
            buffer.native_surface.mark_wont_leak();
            buffer.painted_with_cpu = true;
            buffer.content_age = tile.content_age;
            return Some(buffer);
        },
        None => {},
    }
    // Create an empty native surface, marked as not leaking in case it
    // dies in transit to the compositor.
    let mut native_surface = ctx.create_surface(tile.screen_rect.size);
    native_surface.mark_wont_leak();
    Some(
        LayerBuffer {
            native_surface,
            rect: tile.page_rect,
            screen_pos: tile.screen_rect,
            resolution: scale,
            stride: (width * 4) as usize,
            painted_with_cpu: true,
            content_age: tile.content_age,
        },
    )
}

/// Every tile of the batch is well-formed.
pub open spec fn tiles_wf(tiles: Seq<BufferRequest>) -> bool {
    forall|i: int| 0 <= i < tiles.len() ==> (#[trigger] tiles[i]).wf()
}

/// The worker pool is quiescent and consistent with the backend: at least
/// one worker, every endpoint idle (no uncollected result) and configured
/// for the given backend.
pub open spec fn pool_quiescent(pool: Seq<WorkerThreadProxy>, gpu: bool) -> bool {
    &&& pool.len() >= 1
    &&& forall|j: int|
        0 <= j < pool.len() ==> {
            &&& (#[trigger] pool[j]).worker.gpu_painting == gpu
            &&& pool[j].pending@.len() == 0
        }
}

/// Paints one layer: locates the stacking context that owns `layer_id`
/// (failing silently if there is none), hands each tile to a worker by
/// round-robin, collects one result per tile in the same round-robin order
/// — which reconstructs the submission order exactly — and appends the
/// reply to `replies`.
///
/// Order preservation: the i-th buffer of the appended reply answers the
/// i-th tile request, for every i, regardless of pool size./// Paints one layer: locates the stacking context that owns `layer_id`
/// (failing silently if there is none), hands each tile to a worker by
/// round-robin, collects one result per tile in the same round-robin order
/// — which reconstructs the submission order exactly — and appends the
/// reply to `replies`.
///
/// Order preservation: the i-th buffer of the appended reply answers the
/// i-th tile request, for every i, regardless of pool size and of relative
/// worker speed (each worker's queue is strictly first-in, first-out).
#[verifier::loop_isolation(false)]
pub fn paint(
    replies: &mut Vec<(LayerId, LayerBufferSet)>,
    tiles: Vec<BufferRequest>,
    scale: ScaleFactor,
    layer_id: LayerId,
    root: &StackingContext,
    buffer_map: &mut BufferMap,
    ctx: &mut NativePaintingGraphicsContext,
    worker_threads: &mut Vec<WorkerThreadProxy>,
    gpu_painting: bool,
) -> (painted: bool)
    requires
        root.wf(),
        tiles_wf(tiles@),
        old(buffer_map).wf(),
        pool_quiescent(old(worker_threads)@, gpu_painting),
        old(ctx).next_id() + tiles@.len() <= u64::MAX,
        forall|j: int|
            0 <= j < old(worker_threads)@.len() ==> (#[trigger] old(worker_threads)@[j]).worker.native_graphics_context.next_id() + tiles@.len() <= u64::MAX,
    ensures
        final(buffer_map).wf(),
        final(buffer_map).budget() == old(buffer_map).budget(),
        final(buffer_map).view().len() <= old(buffer_map).view().len(),
        crate::buffer_map::is_subsequence(final(buffer_map).view(), old(buffer_map).view()),
        pool_quiescent(final(worker_threads)@, gpu_painting),
        final(worker_threads)@.len() == old(worker_threads)@.len(),
        final(ctx).next_id() >= old(ctx).next_id(),
        final(ctx).next_id() <= old(ctx).next_id() + tiles@.len(),
        forall|j: int|
            0 <= j < final(worker_threads)@.len() ==> (#[trigger] final(worker_threads)@[j]).worker.native_graphics_context.next_id() <= old(worker_threads)@[j].worker.native_graphics_context.next_id() + tiles@.len(),
        painted == (find_layer(*root, layer_id) is Some),
        !painted ==> {
            &&& *final(replies) == *old(replies)
            &&& final(buffer_map).view() == old(buffer_map).view()
            &&& *final(ctx) == *old(ctx)
            &&& *final(worker_threads) == *old(worker_threads)
        },
        painted ==> {
            &&& final(replies)@.len() == old(replies)@.len() + 1
            &&& final(replies)@ == old(replies)@.push(final(replies)@.last())
            &&& final(replies)@.last().0 == layer_id
            &&& final(replies)@.last().1.buffers@.len() == tiles@.len()
            &&& forall|i: int|
                0 <= i < tiles@.len() ==> buffer_matches_tile(
                    #[trigger] final(replies)@.last().1.buffers@[i],
                    tiles@[i],
                    scale,
                    gpu_painting,
                )
        },
        gpu_painting ==> final(buffer_map).view() == old(buffer_map).view() && *final(ctx) == *old(ctx),
{
    proof {
        crate::buffer_map::lemma_subsequence_refl(old(buffer_map).view());
    }
    // Bail out if there is no appropriate stacking context.
    let stacking_context = match root.find_stacking_context_with_layer_id(layer_id) {
        Some(stacking_context) => stacking_context,
        None => { return false },
    };
    proof {
        lemma_find_layer_wf(*root, layer_id);
    }

    // Divide up the layer into tiles and distribute them to workers via a
    // simple round-robin strategy.
    let worker_count = worker_threads.len();
    let ghost w0 = worker_count as int;
    let tile_count = tiles.len();
    let ghost snap0 = worker_threads@;
    let mut i: usize = 0;
    while i < tile_count
        invariant
            0 <= i <= tile_count,
            worker_threads@.len() == worker_count,
            buffer_map.wf(),
            buffer_map.budget() == old(buffer_map).budget(),
            buffer_map.view().len() <= old(buffer_map).view().len(),
            crate::buffer_map::is_subsequence(buffer_map.view(), old(buffer_map).view()),
            ctx.next_id() <= old(ctx).next_id() + i,
            ctx.next_id() >= old(ctx).next_id(),
            gpu_painting ==> buffer_map.view() == old(buffer_map).view() && *ctx == *old(ctx),
            forall|j: int|
                0 <= j < w0 ==> (#[trigger] worker_threads@[j]).worker.gpu_painting
                    == gpu_painting,
            forall|j: int| 0 <= j < w0 ==> (#[trigger] worker_threads@[j]).alive == snap0[j].alive,
            forall|j: int|
                0 <= j < w0 ==> (#[trigger] worker_threads@[j]).worker.native_graphics_context.next_id()
                    <= snap0[j].worker.native_graphics_context.next_id() + i,
            forall|j: int|
                0 <= j < w0 ==> (#[trigger] worker_threads@[j]).pending@.len() == assigned_count(
                    i as int,
                    j,
                    w0,
                ),
            forall|m: int|
                0 <= m < i ==> buffer_matches_tile(
                    worker_threads@[m % w0].pending@[m / w0],
                    #[trigger] tiles@[m],
                    scale,
                    gpu_painting,
                ),
        decreases tile_count - i,
    {
        let thread_id = i % worker_count;
        let ghost j0 = thread_id as int;
        proof {
            lemma_assigned_step(i as int, j0, w0);
            vstd::arithmetic::div_mod::lemma_fundamental_div_mod(i as int, w0);
        }
        let tile = tiles[i];
        let ghost map_before = buffer_map.view();
        let layer_buffer = find_or_create_layer_buffer_for_tile(
            buffer_map,
            ctx,
            &tile,
            scale,
            gpu_painting,
        );
        proof {
            crate::buffer_map::lemma_subsequence_trans(
                buffer_map.view(),
                map_before,
                old(buffer_map).view(),
            );
        }
        let ghost pool_before = worker_threads@;
        let w = vec_index_mut(worker_threads, thread_id);
        w.paint_tile(tile, layer_buffer, stacking_context, scale);
        proof {
            assert forall|j: int| 0 <= j < w0 implies (#[trigger] worker_threads@[j]).pending@.len()
                == assigned_count(i + 1, j, w0) by {
                lemma_assigned_step(i as int, j, w0);
                if j != j0 {
                    assert(worker_threads@[j] == pool_before[j]);
                }
            }
            assert forall|m: int| 0 <= m < i + 1 implies buffer_matches_tile(
                worker_threads@[m % w0].pending@[m / w0],
                #[trigger] tiles@[m],
                scale,
                gpu_painting,
            ) by {
                vstd::arithmetic::div_mod::lemma_fundamental_div_mod(m, w0);
                vstd::arithmetic::div_mod::lemma_mod_bound(m, w0);
                let jm = m % w0;
                let km = m / w0;
                if m == i {
                    assert(km == assigned_count(i as int, j0, w0));
                    assert(worker_threads@[j0].pending@[km] == worker_threads@[j0].pending@.last());
                } else if jm == j0 {
                    assert(km < pool_before[j0].pending@.len()) by (nonlinear_arith)
                        requires
                            m == w0 * km + jm,
                            i as int == w0 * (i as int / w0) + j0,
                            jm == j0,
                            m < i,
                            w0 > 0,
                            pool_before[j0].pending@.len() == i as int / w0,
                    ;
                    assert(worker_threads@[j0].pending@[km] == pool_before[j0].pending@[km]);
                    assert(buffer_matches_tile(
                        pool_before[m % w0].pending@[m / w0],
                        tiles@[m],
                        scale,
                        gpu_painting,
                    ));
                } else {
                    assert(worker_threads@[jm] == pool_before[jm]);
                    assert(buffer_matches_tile(
                        pool_before[m % w0].pending@[m / w0],
                        tiles@[m],
                        scale,
                        gpu_painting,
                    ));
                }
            }
        }
        i = i + 1;
    }

    // Collect the results, worker by worker, in the same round-robin order
    // used for submission: this reconstructs the original tile order.
    let ghost full = worker_threads@;
    let mut new_buffers: Vec<LayerBuffer> = Vec::new();
    let mut c: usize = 0;
    proof {
        assert forall|j: int| 0 <= j < w0 implies (#[trigger] full[j]).pending@ =~= full[j].pending@.skip(
            assigned_count(0, j, w0),
        ) by {}
    }
    while c < tile_count
        invariant
            0 <= c <= tile_count,
            worker_threads@.len() == worker_count,
            new_buffers@.len() == c,
            forall|m: int|
                0 <= m < c ==> buffer_matches_tile(
                    #[trigger] new_buffers@[m],
                    tiles@[m],
                    scale,
                    gpu_painting,
                ),
            forall|j: int|
                0 <= j < w0 ==> (#[trigger] worker_threads@[j]).worker == full[j].worker,
            forall|j: int| 0 <= j < w0 ==> (#[trigger] worker_threads@[j]).alive == full[j].alive,
            forall|j: int|
                0 <= j < w0 ==> (#[trigger] worker_threads@[j]).pending@ == full[j].pending@.skip(
                    assigned_count(c as int, j, w0),
                ),
        decreases tile_count - c,
    {
        let thread_id = c % worker_count;
        let ghost j0 = thread_id as int;
        proof {
            lemma_assigned_step(c as int, j0, w0);
            lemma_assigned_mono(c as int + 1, tile_count as int, j0, w0);
            vstd::arithmetic::div_mod::lemma_fundamental_div_mod(c as int, w0);
            assert(worker_threads@[j0].pending@.len() > 0);
            assert(worker_threads@[j0].pending@.first() == full[j0].pending@[c as int / w0]);
            assert(buffer_matches_tile(
                full[c as int % w0].pending@[c as int / w0],
                tiles@[c as int],
                scale,
                gpu_painting,
            ));
        }
        let ghost pool_before = worker_threads@;
        let w = vec_index_mut(worker_threads, thread_id);
        let buffer = w.get_painted_tile_buffer();
        new_buffers.push(buffer);
        proof {
            assert forall|j: int| 0 <= j < w0 implies (#[trigger] worker_threads@[j]).pending@
                == full[j].pending@.skip(assigned_count(c + 1, j, w0)) by {
                lemma_assigned_step(c as int, j, w0);
                if j == j0 {
                    assert(worker_threads@[j].pending@ =~= full[j].pending@.skip(
                        assigned_count(c + 1, j, w0),
                    ));
                } else {
                    assert(worker_threads@[j] == pool_before[j]);
                }
            }
        }
        c = c + 1;
    }
    proof {
        assert forall|j: int| 0 <= j < w0 implies (#[trigger] worker_threads@[j]).pending@.len()
            == 0 by {
            assert(worker_threads@[j].pending@ == full[j].pending@.skip(
                assigned_count(tile_count as int, j, w0),
            ));
        }
    }

    let layer_buffer_set = LayerBufferSet { buffers: new_buffers };
    replies.push((layer_id, layer_buffer_set));
    true
}

/// The total number of tile requests across a batch.
pub open spec fn total_tiles(rs: Seq<PaintRequest>) -> int
    decreases rs.len(),
{
    if rs.len() == 0 {
        0
    } else {
        rs.first().buffer_requests@.len() + total_tiles(rs.drop_first())
    }
}

pub proof fn lemma_total_tiles_nonneg(rs: Seq<PaintRequest>)
    ensures
        total_tiles(rs) >= 0,
    decreases rs.len(),
{
    if rs.len() > 0 {
        lemma_total_tiles_nonneg(rs.drop_first());
    }
}

proof fn lemma_total_tiles_push(rs: Seq<PaintRequest>, r: PaintRequest)
    ensures
        total_tiles(rs.push(r)) == total_tiles(rs) + r.buffer_requests@.len(),
    decreases rs.len(),
{
    let p = rs.push(r);
    assert(total_tiles(p) == p.first().buffer_requests@.len() + total_tiles(p.drop_first()));
    if rs.len() == 0 {
        assert(p.first() == r);
        assert(p.drop_first() =~= Seq::<PaintRequest>::empty());
        assert(total_tiles(p.drop_first()) == 0);
    } else {
        lemma_total_tiles_push(rs.drop_first(), r);
        assert(p.first() == rs.first());
        assert(p.drop_first() =~= rs.drop_first().push(r));
        assert(total_tiles(rs) == rs.first().buffer_requests@.len() + total_tiles(
            rs.drop_first(),
        ));
    }
}

/// The requests of a batch that are actually painted: epoch equal to the
/// current epoch, and the named layer present in the installed snapshot.
/// Requests failing either test are dropped silently, in full.
pub open spec fn matched_requests(
    rs: Seq<PaintRequest>,
    epoch: Epoch,
    root: Option<StackingContext>,
) -> Seq<PaintRequest>
    decreases rs.len(),
{
    if rs.len() == 0 {
        Seq::<PaintRequest>::empty()
    } else {
        let rest = matched_requests(rs.drop_last(), epoch, root);
        let r = rs.last();
        if r.epoch == epoch && (root matches Some(rt) && find_layer(rt, r.layer_id) is Some) {
            rest.push(r)
        } else {
            rest
        }
    }
}

/// A batch never paints more tiles than it asked for.
pub proof fn lemma_matched_le(rs: Seq<PaintRequest>, epoch: Epoch, root: Option<StackingContext>)
    ensures
        0 <= total_tiles(matched_requests(rs, epoch, root)) <= total_tiles(rs),
    decreases rs.len(),
{
    lemma_total_tiles_nonneg(matched_requests(rs, epoch, root));
    if rs.len() > 0 {
        lemma_matched_le(rs.drop_last(), epoch, root);
        lemma_total_tiles_push(rs.drop_last(), rs.last());
        assert(rs.drop_last().push(rs.last()) =~= rs);
        let r = rs.last();
        if r.epoch == epoch && (root matches Some(rt) && find_layer(rt, r.layer_id) is Some) {
            lemma_total_tiles_push(matched_requests(rs.drop_last(), epoch, root), r);
        }
    }
}

/// Epoch gating: a batch whose every request carries a stale epoch matches
/// nothing, so zero tiles are rasterized for it.
pub proof fn lemma_matched_empty_when_stale(
    rs: Seq<PaintRequest>,
    epoch: Epoch,
    root: Option<StackingContext>,
)
    requires
        forall|k: int| 0 <= k < rs.len() ==> (#[trigger] rs[k]).epoch != epoch,
    ensures
        matched_requests(rs, epoch, root) == Seq::<PaintRequest>::empty(),
    decreases rs.len(),
{
    if rs.len() > 0 {
        assert(forall|k: int|
            0 <= k < rs.drop_last().len() ==> (#[trigger] rs.drop_last()[k]).epoch != epoch);
        lemma_matched_empty_when_stale(rs.drop_last(), epoch, root);
        assert(rs.last() == rs[rs.len() - 1]);
    }
}

/// The replies of a batch answer exactly its matched requests, in order:
/// the k-th reply is for the k-th matched request's layer, holds one buffer
/// per tile request, and its i-th buffer answers the i-th tile request.
pub open spec fn replies_ok(
    replies: Seq<(LayerId, LayerBufferSet)>,
    rs: Seq<PaintRequest>,
    epoch: Epoch,
    root: Option<StackingContext>,
    gpu: bool,
) -> bool {
    let m = matched_requests(rs, epoch, root);
    &&& replies.len() == m.len()
    &&& forall|k: int|
        0 <= k < m.len() ==> {
            &&& (#[trigger] replies[k]).0 == m[k].layer_id
            &&& replies[k].1.buffers@.len() == m[k].buffer_requests@.len()
            &&& forall|i: int|
                0 <= i < m[k].buffer_requests@.len() ==> buffer_matches_tile(
                    #[trigger] replies[k].1.buffers@[i],
                    m[k].buffer_requests@[i],
                    m[k].scale,
                    gpu,
                )
        }
}

/// The outstanding-buffer counter after a paint reply hands `produced`
/// buffers to the compositor.
pub open spec fn counter_after_paint_reply(used: int, produced: int) -> int {
    used + produced
}

/// The outstanding-buffer counter after the compositor returns `returned`
/// buffers.
pub open spec fn counter_after_buffer_return(used: int, returned: int) -> int {
    used - returned
}

/// The counter after a series of return messages of the given sizes.
pub open spec fn counter_after_buffer_returns(used: int, ret_counts: Seq<int>) -> int
    decreases ret_counts.len(),
{
    if ret_counts.len() == 0 {
        used
    } else {
        counter_after_buffer_returns(
            counter_after_buffer_return(used, ret_counts.first()),
            ret_counts.drop_first(),
        )
    }
}

/// The sum of a series of return sizes.
pub open spec fn sum_returns(ret_counts: Seq<int>) -> int
    decreases ret_counts.len(),
{
    if ret_counts.len() == 0 {
        0
    } else {
        ret_counts.first() + sum_returns(ret_counts.drop_first())
    }
}

/// Counter conservation: after a batch hands out `k` buffers and return
/// messages totaling `k` come back, the outstanding-buffer counter is
/// exactly its pre-batch value.
pub proof fn lemma_counter_conservation(used: int, k: int, ret_counts: Seq<int>)
    requires
        sum_returns(ret_counts) == k,
    ensures
        counter_after_buffer_returns(counter_after_paint_reply(used, k), ret_counts) == used,
{
    lemma_counter_returns_sum(counter_after_paint_reply(used, k), ret_counts);
}

/// A series of returns subtracts its total from the counter.
pub proof fn lemma_counter_returns_sum(used: int, ret_counts: Seq<int>)
    ensures
        counter_after_buffer_returns(used, ret_counts) == used - sum_returns(ret_counts),
    decreases ret_counts.len(),
{
    if ret_counts.len() > 0 {
        lemma_counter_returns_sum(
            counter_after_buffer_return(used, ret_counts.first()),
            ret_counts.drop_first(),
        );
    }
}

/// The cache contents after inserting the returned buffers in reverse
/// order, so the most recently used buffer is offered first.
pub open spec fn insert_all_reversed(
    view: Seq<LayerBuffer>,
    buffers: Seq<LayerBuffer>,
    budget: int,
) -> Seq<LayerBuffer>
    decreases buffers.len(),
{
    if buffers.len() == 0 {
        view
    } else {
        insert_all_reversed(insert_model(view, buffers.last(), budget), buffers.drop_last(), budget)
    }
}

/// Publishes layer metadata to the compositor for every tagged layer of the
/// snapshot: per-layer id, device-space position derived by walking the
/// stacking-context tree depth-first accumulating offsets, background color
/// and scroll policy.
fn initialize_layers(
    actions: &mut Vec<OutboundMsg>,
    pipeline_id: PipelineId,
    epoch: Epoch,
    root: &StackingContext,
)
    requires
        root.wf(),
        root.positions_ok(0, 0),
    ensures
        final(actions)@.len() == old(actions)@.len() + 1,
        final(actions)@ == old(actions)@.push(final(actions)@.last()),
        final(actions)@.last() matches OutboundMsg::InitializeLayersForPipeline(pid, md, ep)
            && pid == pipeline_id && md@ == metadata_of(*root, 0, 0) && ep == epoch,
{
    let metadata = crate::display_list::build_layer_metadata(root);
    actions.push(OutboundMsg::InitializeLayersForPipeline(pipeline_id, metadata, epoch));
}

/// The paint coordinator's state: all shared state of the pipeline is owned
/// here and mutated only while handling one message at a time.
pub struct PaintTask {
    /// The pipeline this coordinator serves.
    pub id: PipelineId,
    /// The coordinator's own graphics context, used to allocate fresh
    /// buffers on the CPU path.
    pub native_graphics_context: NativePaintingGraphicsContext,
    /// The root stacking context sent by the layout thread, if any.
    pub root_stacking_context: Option<StackingContext>,
    /// Permission to send paint messages to the compositor.
    pub paint_permission: bool,
    /// A counter for epoch messages.
    pub epoch: Epoch,
    /// The pool of unused layer buffers.
    pub buffer_map: BufferMap,
    /// Communication handles to each of the worker threads.
    pub worker_threads: Vec<WorkerThreadProxy>,
    /// How many buffers the compositor currently owns; the coordinator
    /// waits for them before a pipeline-only exit completes.
    pub used_buffer_count: usize,
    /// Whether the GPU backend is in use.
    pub gpu_painting: bool,
    /// Where the coordinator stands in its two-phase exit sequence.
    pub shutdown: ShutdownState,
}

/// The messages the coordinator accepts are well-formed: installed trees
/// are in range, tiles are bounded, returned buffers have sane dimensions.
pub open spec fn msg_wf(msg: Msg) -> bool {
    match msg {
        Msg::PaintInit(sc) => sc.wf() && sc.positions_ok(0, 0),
        Msg::Paint(requests) => forall|k: int|
            0 <= k < requests@.len() ==> tiles_wf(
                (#[trigger] requests@[k]).buffer_requests@,
            ),
        Msg::UnusedBuffer(buffers) => crate::buffer_map::all_wf_dims(buffers@),
        _ => true,
    }
}

impl PaintTask {
    /// The coordinator's invariant: the cache accounting holds, the pool is
    /// quiescent and consistent with the backend, and any installed
    /// snapshot is well-formed.
    pub open spec fn wf(&self) -> bool {
        &&& self.buffer_map.wf()
        &&& pool_quiescent(self.worker_threads@, self.gpu_painting)
        &&& (self.root_stacking_context matches Some(root) ==> root.wf() && root.positions_ok(
            0,
            0,
        ))
    }

    /// A fresh coordinator: epoch zero, no permission, no snapshot, empty
    /// cache with the given byte budget, no outstanding buffers, and a pool
    /// of one worker per parallelism unit (one in all under the GPU
    /// backend).
    pub fn new(id: PipelineId, thread_count: usize, gpu_painting: bool, cache_budget: u64) -> (r:
        PaintTask)
        requires
            thread_count >= 1,
            cache_budget <= crate::buffer_map::MAX_BUDGET,
        ensures
            r.wf(),
            r.id == id,
            r.epoch.0 == 0,
            r.paint_permission == false,
            r.root_stacking_context is None,
            r.used_buffer_count == 0,
            r.gpu_painting == gpu_painting,
            r.shutdown == ShutdownState::Running,
            r.buffer_map.view() == Seq::<LayerBuffer>::empty(),
            r.buffer_map.budget() == cache_budget,
            r.worker_threads@.len() == if gpu_painting {
                1int
            } else {
                thread_count as int
            },
            r.native_graphics_context.next_id() == 0,
            forall|j: int|
                0 <= j < r.worker_threads@.len() ==> (#[trigger] r.worker_threads@[j]).worker.native_graphics_context.next_id()
                    == 0,
    {
        PaintTask {
            id,
            native_graphics_context: NativePaintingGraphicsContext::new(),
            root_stacking_context: None,
            paint_permission: false,
            epoch: Epoch(0),
            buffer_map: BufferMap::new(cache_budget),
            worker_threads: WorkerThreadProxy::spawn(thread_count, gpu_painting),
            used_buffer_count: 0,
            gpu_painting,
            shutdown: ShutdownState::Running,
        }
    }

    /// Handles a returned-buffer message: decrements the outstanding-buffer
    /// counter by the list length, then returns every buffer to the cache
    /// in reverse order so the most recently used buffer is offered first.
    /// If a drain is in progress and the counter reaches zero, the drain
    /// completes: the exit is acknowledged and the coordinator terminates.
    #[verifier::loop_isolation(false)]
    fn handle_unused_buffer(&mut self, actions: &mut Vec<OutboundMsg>, buffers: Vec<LayerBuffer>)
        requires
            old(self).wf(),
            crate::buffer_map::all_wf_dims(buffers@),
            buffers@.len() <= old(self).used_buffer_count,
            old(self).shutdown != ShutdownState::Terminated,
        ensures
            final(self).wf(),
            final(self).id == old(self).id,
            final(self).native_graphics_context == old(self).native_graphics_context,
            final(self).root_stacking_context == old(self).root_stacking_context,
            final(self).paint_permission == old(self).paint_permission,
            final(self).epoch == old(self).epoch,
            final(self).worker_threads == old(self).worker_threads,
            final(self).gpu_painting == old(self).gpu_painting,
            final(self).buffer_map.budget() == old(self).buffer_map.budget(),
            final(self).used_buffer_count == counter_after_buffer_return(
                old(self).used_buffer_count as int,
                buffers@.len() as int,
            ),
            final(self).buffer_map.view() == insert_all_reversed(
                old(self).buffer_map.view(),
                buffers@,
                old(self).buffer_map.budget() as int,
            ),
            old(self).shutdown == ShutdownState::Draining && old(self).used_buffer_count
                == buffers@.len() ==> final(self).shutdown == ShutdownState::Terminated
                && final(actions)@ == old(actions)@.push(OutboundMsg::ExitAck),
            old(self).shutdown == ShutdownState::Running ==> final(self).shutdown
                == ShutdownState::Running && *final(actions) == *old(actions),
            old(self).shutdown == ShutdownState::Draining && old(self).used_buffer_count
                != buffers@.len() ==> final(self).shutdown == ShutdownState::Draining && *final(actions) == *old(actions),
    {
        self.used_buffer_count = self.used_buffer_count - buffers.len();
        let mut buffers = buffers;
        let ghost orig = buffers@;
        while buffers.len() > 0
            invariant
                self.id == old(self).id,
                self.native_graphics_context == old(self).native_graphics_context,
                self.root_stacking_context == old(self).root_stacking_context,
                self.paint_permission == old(self).paint_permission,
                self.epoch == old(self).epoch,
                self.worker_threads == old(self).worker_threads,
                self.gpu_painting == old(self).gpu_painting,
                self.shutdown == old(self).shutdown,
                self.used_buffer_count == old(self).used_buffer_count - orig.len(),
                self.buffer_map.wf(),
                self.buffer_map.budget() == old(self).buffer_map.budget(),
                crate::buffer_map::all_wf_dims(buffers@),
                insert_all_reversed(
                    self.buffer_map.view(),
                    buffers@,
                    self.buffer_map.budget() as int,
                ) == insert_all_reversed(
                    old(self).buffer_map.view(),
                    orig,
                    old(self).buffer_map.budget() as int,
                ),
            decreases buffers@.len(),
        {
            let ghost before = buffers@;
            let buffer = buffers.pop().unwrap();
            proof {
                assert(buffer == before.last());
                assert(buffers@ == before.drop_last());
                assert(forall|i: int|
                    0 <= i < buffers@.len() ==> (#[trigger] buffers@[i]) == before[i]);
            }
            self.buffer_map.insert(buffer);
        }
        if self.shutdown == ShutdownState::Draining && self.used_buffer_count == 0 {
            actions.push(OutboundMsg::ExitAck);
            self.shutdown = ShutdownState::Terminated;
        }
    }

    /// Releases the cache's native resources and signals every worker to
    /// exit; run once, after the message loop has terminated.
    #[verifier::loop_isolation(false)]
    pub fn shutdown(&mut self)
        requires
            old(self).wf(),
            old(self).shutdown == ShutdownState::Terminated,
        ensures
            final(self).wf(),
            final(self).buffer_map.view() == Seq::<LayerBuffer>::empty(),
            final(self).buffer_map.budget() == old(self).buffer_map.budget(),
            final(self).worker_threads@.len() == old(self).worker_threads@.len(),
            forall|j: int|
                0 <= j < final(self).worker_threads@.len() ==> !(#[trigger] final(self).worker_threads@[j]).alive,
            final(self).id == old(self).id,
            final(self).epoch == old(self).epoch,
            final(self).shutdown == ShutdownState::Terminated,
    {
        self.buffer_map.clear();
        let ghost snap = self.worker_threads@;
        let mut j: usize = 0;
        let count = self.worker_threads.len();
        while j < count
            invariant
                0 <= j <= count,
                self.id == old(self).id,
                self.native_graphics_context == old(self).native_graphics_context,
                self.root_stacking_context == old(self).root_stacking_context,
                self.paint_permission == old(self).paint_permission,
                self.epoch == old(self).epoch,
                self.gpu_painting == old(self).gpu_painting,
                self.shutdown == old(self).shutdown,
                self.used_buffer_count == old(self).used_buffer_count,
                self.buffer_map.wf(),
                self.buffer_map.view() == Seq::<LayerBuffer>::empty(),
                self.buffer_map.budget() == old(self).buffer_map.budget(),
                self.worker_threads@.len() == count,
                forall|t: int|
                    0 <= t < count ==> (#[trigger] self.worker_threads@[t]).worker
                        == snap[t].worker && self.worker_threads@[t].pending == snap[t].pending,
                forall|t: int| 0 <= t < j ==> !(#[trigger] self.worker_threads@[t]).alive,
                forall|t: int|
                    j <= t < count ==> (#[trigger] self.worker_threads@[t]).alive == snap[t].alive,
            decreases count - j,
        {
            let w = vec_index_mut(&mut self.worker_threads, j);
            w.exit();
            j = j + 1;
        }
    }
}

impl PaintTask {
    /// Interprets one inbound message and returns the messages to send to
    /// the coordinator's collaborators, in send order.
    ///
    /// Epoch gating: a paint batch whose every request carries a stale
    /// epoch leaves the coordinator's state — cache and outstanding-buffer
    /// counter included — exactly as it was, and its reply holds no buffer.
    /// After termination no message has any effect; while draining, only
    /// returned-buffer messages are processed.
    #[verifier::loop_isolation(false)]
    pub fn handle_msg(&mut self, msg: Msg) -> (actions: Vec<OutboundMsg>)
        requires
            old(self).wf(),
            msg_wf(msg),
            old(self).epoch.0 < u64::MAX,
            msg matches Msg::UnusedBuffer(buffers) ==> buffers@.len() <= old(self).used_buffer_count,
            msg matches Msg::Paint(requests) ==> {
                &&& old(self).used_buffer_count + total_tiles(requests@) <= usize::MAX
                &&& old(self).native_graphics_context.next_id() + total_tiles(requests@)
                    <= u64::MAX
                &&& forall|j: int|
                    0 <= j < old(self).worker_threads@.len() ==> (#[trigger] old(self).worker_threads@[j]).worker.native_graphics_context.next_id() + total_tiles(
                        requests@,
                    ) <= u64::MAX
            },
        ensures
            final(self).wf(),
            final(self).id == old(self).id,
            final(self).gpu_painting == old(self).gpu_painting,
            final(self).worker_threads@.len() == old(self).worker_threads@.len(),
            final(self).buffer_map.budget() == old(self).buffer_map.budget(),
            // After termination, nothing is processed.
            old(self).shutdown == ShutdownState::Terminated ==> *final(self) == *old(self)
                && actions@.len() == 0,
            // While draining, only returned-buffer messages are processed.
            old(self).shutdown == ShutdownState::Draining && !(msg is UnusedBuffer) ==> *final(self) == *old(self) && actions@.len() == 0,
            // Installing a snapshot advances the epoch and stores the tree;
            // without permission only readiness is signalled, with it the
            // layer metadata is published.
            msg matches Msg::PaintInit(sc) ==> old(self).shutdown == ShutdownState::Running ==> {
                &&& final(self).epoch.0 == old(self).epoch.0 + 1
                &&& final(self).root_stacking_context == Some(sc)
                &&& final(self).paint_permission == old(self).paint_permission
                &&& final(self).used_buffer_count == old(self).used_buffer_count
                &&& final(self).buffer_map.view() == old(self).buffer_map.view()
                &&& final(self).worker_threads == old(self).worker_threads
                &&& final(self).shutdown == ShutdownState::Running
                &&& !old(self).paint_permission ==> actions@ == seq![
                    OutboundMsg::PainterReady(old(self).id),
                ]
                &&& old(self).paint_permission ==> actions@.len() == 1 && (actions@[0] matches
                    OutboundMsg::InitializeLayersForPipeline(pid, md, ep) && pid == old(self).id
                    && md@ == metadata_of(sc, 0, 0) && ep == final(self).epoch)
            },
            // A batch without permission: readiness is re-emitted and the
            // batch is reported discarded; no tiles are processed.
            msg is Paint && old(self).shutdown == ShutdownState::Running && !old(self).paint_permission ==> *final(self) == *old(self) && actions@ == seq![
                OutboundMsg::PainterReady(old(self).id),
                OutboundMsg::PaintMsgDiscarded,
            ],
            // A batch with permission: painting-state transitions around
            // the batch, one reply buffer per matched tile in request
            // order, and the outstanding-buffer counter grows by the
            // number of buffers handed out.
            msg matches Msg::Paint(requests) ==> (old(self).shutdown == ShutdownState::Running && old(self).paint_permission) ==> {
                &&& final(self).epoch == old(self).epoch
                &&& final(self).root_stacking_context == old(self).root_stacking_context
                &&& final(self).paint_permission == old(self).paint_permission
                &&& final(self).shutdown == ShutdownState::Running
                &&& final(self).used_buffer_count == counter_after_paint_reply(
                    old(self).used_buffer_count as int,
                    total_tiles(
                        matched_requests(
                            requests@,
                            old(self).epoch,
                            old(self).root_stacking_context,
                        ),
                    ),
                )
                &&& final(self).buffer_map.view().len() <= old(self).buffer_map.view().len()
                &&& crate::buffer_map::is_subsequence(
                    final(self).buffer_map.view(),
                    old(self).buffer_map.view(),
                )
                &&& old(self).gpu_painting ==> final(self).buffer_map.view() == old(self).buffer_map.view() && final(self).native_graphics_context == old(self).native_graphics_context
                &&& actions@.len() == 3
                &&& actions@[0] == OutboundMsg::SetPaintState(old(self).id, PaintState::Painting)
                &&& actions@[1] == OutboundMsg::SetPaintState(old(self).id, PaintState::Idle)
                &&& (actions@[2] matches OutboundMsg::PaintReply(pid, ep, replies) && pid == old(self).id && ep == old(self).epoch && replies_ok(
                    replies@,
                    requests@,
                    old(self).epoch,
                    old(self).root_stacking_context,
                    old(self).gpu_painting,
                ))
                &&& (forall|k: int|
                    0 <= k < requests@.len() ==> (#[trigger] requests@[k]).epoch != old(self).epoch) ==> *final(self) == *old(self)
            },
            // Returned buffers: the counter drops by the list length and
            // the buffers rejoin the cache newest-first; a drain that
            // reaches zero completes with exactly one acknowledgment.
            msg matches Msg::UnusedBuffer(buffers) ==> old(self).shutdown
                != ShutdownState::Terminated ==> {
                &&& final(self).epoch == old(self).epoch
                &&& final(self).root_stacking_context == old(self).root_stacking_context
                &&& final(self).paint_permission == old(self).paint_permission
                &&& final(self).worker_threads == old(self).worker_threads
                &&& final(self).used_buffer_count == counter_after_buffer_return(
                    old(self).used_buffer_count as int,
                    buffers@.len() as int,
                )
                &&& final(self).buffer_map.view() == insert_all_reversed(
                    old(self).buffer_map.view(),
                    buffers@,
                    old(self).buffer_map.budget() as int,
                )
                &&& (old(self).shutdown == ShutdownState::Draining && old(self).used_buffer_count
                    == buffers@.len()) ==> final(self).shutdown == ShutdownState::Terminated
                    && actions@ == seq![OutboundMsg::ExitAck]
                &&& old(self).shutdown == ShutdownState::Running ==> final(self).shutdown
                    == ShutdownState::Running && actions@.len() == 0
                &&& (old(self).shutdown == ShutdownState::Draining && old(self).used_buffer_count
                    != buffers@.len()) ==> final(self).shutdown == ShutdownState::Draining
                    && actions@.len() == 0
            },
            // Granting permission republishes the held snapshot's layer
            // metadata under a fresh epoch, if one is held.
            msg is PaintPermissionGranted && old(self).shutdown == ShutdownState::Running ==> {
                &&& final(self).paint_permission == true
                &&& final(self).root_stacking_context == old(self).root_stacking_context
                &&& final(self).used_buffer_count == old(self).used_buffer_count
                &&& final(self).buffer_map.view() == old(self).buffer_map.view()
                &&& final(self).worker_threads == old(self).worker_threads
                &&& final(self).shutdown == ShutdownState::Running
                &&& old(self).root_stacking_context matches Some(root) ==> final(self).epoch.0
                    == old(self).epoch.0 + 1 && actions@.len() == 1 && (actions@[0] matches
                    OutboundMsg::InitializeLayersForPipeline(pid, md, ep) && pid == old(self).id
                    && md@ == metadata_of(root, 0, 0) && ep == final(self).epoch)
                &&& old(self).root_stacking_context is None ==> final(self).epoch == old(self).epoch && actions@.len() == 0
            },
            // Revoking permission clears the flag and nothing else; the
            // held snapshot is kept.
            msg is PaintPermissionRevoked && old(self).shutdown == ShutdownState::Running ==> {
                &&& final(self).paint_permission == false
                &&& final(self).root_stacking_context == old(self).root_stacking_context
                &&& final(self).epoch == old(self).epoch
                &&& final(self).used_buffer_count == old(self).used_buffer_count
                &&& final(self).buffer_map.view() == old(self).buffer_map.view()
                &&& final(self).worker_threads == old(self).worker_threads
                &&& final(self).shutdown == ShutdownState::Running
                &&& actions@.len() == 0
            },
            // Exit: a complete exit, or a pipeline-only exit with no
            // outstanding buffers, acknowledges immediately and
            // terminates; otherwise the coordinator starts draining.
            msg matches Msg::Exit(exit_type) ==> old(self).shutdown == ShutdownState::Running ==> {
                &&& final(self).epoch == old(self).epoch
                &&& final(self).root_stacking_context == old(self).root_stacking_context
                &&& final(self).paint_permission == old(self).paint_permission
                &&& final(self).used_buffer_count == old(self).used_buffer_count
                &&& final(self).buffer_map.view() == old(self).buffer_map.view()
                &&& final(self).worker_threads == old(self).worker_threads
                &&& (exit_type == PipelineExitType::Complete || old(self).used_buffer_count == 0)
                    ==> final(self).shutdown == ShutdownState::Terminated && actions@ == seq![
                    OutboundMsg::ExitAck,
                ]
                &&& (exit_type == PipelineExitType::PipelineOnly && old(self).used_buffer_count
                    != 0) ==> final(self).shutdown == ShutdownState::Draining && actions@.len()
                    == 0
            },
    {
        let mut actions: Vec<OutboundMsg> = Vec::new();
        match self.shutdown {
            ShutdownState::Terminated => {
                return actions;
            },
            ShutdownState::Draining => {
                match msg {
                    Msg::UnusedBuffer(buffers) => {
                        self.handle_unused_buffer(&mut actions, buffers);
                    },
                    _ => {},
                }
                return actions;
            },
            ShutdownState::Running => {},
        }
        match msg {
            Msg::PaintInit(stacking_context) => {
                self.epoch.next();
                self.root_stacking_context = Some(stacking_context);

                if !self.paint_permission {
                    actions.push(OutboundMsg::PainterReady(self.id));
                    return actions;
                }

                match &self.root_stacking_context {
                    Some(root) => initialize_layers(&mut actions, self.id, self.epoch, root),
                    None => {},
                }
            },
            Msg::Paint(requests) => {
                if !self.paint_permission {
                    actions.push(OutboundMsg::PainterReady(self.id));
                    actions.push(OutboundMsg::PaintMsgDiscarded);
                    return actions;
                }

                let ghost orig = requests@;
                let ghost epoch0 = self.epoch;
                let ghost root0 = self.root_stacking_context;
                let mut requests = requests;
                let mut replies: Vec<(LayerId, LayerBufferSet)> = Vec::new();
                actions.push(OutboundMsg::SetPaintState(self.id, PaintState::Painting));
                let mut ri: usize = 0;
                let request_count = requests.len();
                proof {
                    crate::buffer_map::lemma_subsequence_refl(self.buffer_map.view());
                    assert(orig.len() == request_count);
                    assert(orig.skip(0) =~= orig);
                    assert(orig.take(0) =~= Seq::<PaintRequest>::empty());
                }
                while requests.len() > 0
                    invariant
                        0 <= ri <= orig.len(),
                        requests@ == orig.skip(ri as int),
                        self.id == old(self).id,
                        self.epoch == old(self).epoch,
                        self.root_stacking_context == old(self).root_stacking_context,
                        self.paint_permission == old(self).paint_permission,
                        self.gpu_painting == old(self).gpu_painting,
                        self.shutdown == ShutdownState::Running,
                        self.used_buffer_count == old(self).used_buffer_count,
                        self.wf(),
                        self.buffer_map.budget() == old(self).buffer_map.budget(),
                        self.buffer_map.view().len() <= old(self).buffer_map.view().len(),
                        crate::buffer_map::is_subsequence(
                            self.buffer_map.view(),
                            old(self).buffer_map.view(),
                        ),
                        self.worker_threads@.len() == old(self).worker_threads@.len(),
                        old(self).gpu_painting ==> self.buffer_map.view() == old(self).buffer_map.view() && self.native_graphics_context == old(self).native_graphics_context,
                        self.native_graphics_context.next_id() + total_tiles(orig.skip(ri as int))
                            <= old(self).native_graphics_context.next_id() + total_tiles(orig),
                        self.native_graphics_context.next_id() >= old(self).native_graphics_context.next_id(),
                        forall|j: int|
                            0 <= j < self.worker_threads@.len() ==> (#[trigger] self.worker_threads@[j]).worker.native_graphics_context.next_id()
                                + total_tiles(orig.skip(ri as int)) <= old(self).worker_threads@[j].worker.native_graphics_context.next_id()
                                + total_tiles(orig),
                        replies_ok(
                            replies@,
                            orig.take(ri as int),
                            epoch0,
                            root0,
                            old(self).gpu_painting,
                        ),
                        (forall|k: int|
                            0 <= k < orig.len() ==> (#[trigger] orig[k]).epoch != epoch0) ==> {
                            &&& self.buffer_map == old(self).buffer_map
                            &&& self.native_graphics_context == old(self).native_graphics_context
                            &&& self.worker_threads == old(self).worker_threads
                            &&& replies@.len() == 0
                        },
                    decreases requests@.len(),
                {
                    let ghost skip_before = orig.skip(ri as int);
                    proof {
                        assert(skip_before.first() == orig[ri as int]);
                        assert(skip_before.drop_first() =~= orig.skip(ri as int + 1));
                        assert(total_tiles(skip_before) == skip_before.first().buffer_requests@.len()
                            + total_tiles(skip_before.drop_first()));
                        lemma_total_tiles_nonneg(orig.skip(ri as int + 1));
                        assert(tiles_wf(orig[ri as int].buffer_requests@));
                    }
                    let request = requests.remove(0);
                    let ghost replies_before = replies@;
                    let ghost m_before = matched_requests(orig.take(ri as int), epoch0, root0);
                    let ghost map_before = self.buffer_map.view();
                    if request.epoch == self.epoch {
                        match &self.root_stacking_context {
                            Some(root) => {
                                paint(
                                    &mut replies,
                                    request.buffer_requests,
                                    request.scale,
                                    request.layer_id,
                                    root,
                                    &mut self.buffer_map,
                                    &mut self.native_graphics_context,
                                    &mut self.worker_threads,
                                    self.gpu_painting,
                                );
                            },
                            None => {},
                        }
                    }
                    proof {
                        crate::buffer_map::lemma_subsequence_refl(map_before);
                        crate::buffer_map::lemma_subsequence_trans(
                            self.buffer_map.view(),
                            map_before,
                            old(self).buffer_map.view(),
                        );
                    }
                    proof {
                        let t = orig.take(ri as int + 1);
                        assert(t.drop_last() =~= orig.take(ri as int));
                        assert(t.last() == orig[ri as int]);
                        let m_after = matched_requests(t, epoch0, root0);
                        assert forall|k: int| 0 <= k < replies_before.len() implies replies@[k]
                            == replies_before[k] by {}
                        if orig[ri as int].epoch == epoch0 && (root0 matches Some(rt)
                            && find_layer(rt, orig[ri as int].layer_id) is Some) {
                            assert(m_after == m_before.push(orig[ri as int]));
                            assert(replies@.len() == m_after.len());
                        } else {
                            assert(m_after == m_before);
                        }
                    }
                    ri = ri + 1;
                }
                proof {
                    assert(orig.skip(orig.len() as int) =~= Seq::<PaintRequest>::empty());
                    assert(orig.take(orig.len() as int) =~= orig);
                }

                actions.push(OutboundMsg::SetPaintState(self.id, PaintState::Idle));

                let ghost m = matched_requests(orig, epoch0, root0);
                proof {
                    lemma_matched_le(orig, epoch0, root0);
                    assert(m.skip(0) =~= m);
                }
                let mut produced: usize = 0;
                let mut k: usize = 0;
                let reply_count = replies.len();
                while k < reply_count
                    invariant
                        0 <= k <= reply_count,
                        produced + total_tiles(m.skip(k as int)) == total_tiles(m),
                        produced >= 0,
                    decreases reply_count - k,
                {
                    proof {
                        assert(m.skip(k as int).first() == m[k as int]);
                        assert(m.skip(k as int).drop_first() =~= m.skip(k as int + 1));
                        assert(total_tiles(m.skip(k as int)) == m[k as int].buffer_requests@.len()
                            + total_tiles(m.skip(k as int + 1)));
                        lemma_total_tiles_nonneg(m.skip(k as int + 1));
                        assert(replies@[k as int].1.buffers@.len()
                            == m[k as int].buffer_requests@.len());
                    }
                    let reply = &replies[k];
                    produced = produced + reply.1.buffers.len();
                    k = k + 1;
                }
                proof {
                    assert(m.skip(reply_count as int) =~= Seq::<PaintRequest>::empty());
                    if forall|t: int| 0 <= t < orig.len() ==> (#[trigger] orig[t]).epoch
                        != epoch0 {
                        lemma_matched_empty_when_stale(orig, epoch0, root0);
                    }
                }
                self.used_buffer_count = self.used_buffer_count + produced;

                actions.push(OutboundMsg::PaintReply(self.id, self.epoch, replies));
            },
            Msg::UnusedBuffer(unused_buffers) => {
                self.handle_unused_buffer(&mut actions, unused_buffers);
            },
            Msg::PaintPermissionGranted => {
                self.paint_permission = true;

                match &self.root_stacking_context {
                    None => {},
                    Some(root) => {
                        self.epoch.next();
                        initialize_layers(&mut actions, self.id, self.epoch, root);
                    },
                }
            },
            Msg::PaintPermissionRevoked => {
                self.paint_permission = false;
            },
            Msg::Exit(exit_type) => {
                let should_wait_for_compositor_buffers = match exit_type {
                    PipelineExitType::Complete => false,
                    PipelineExitType::PipelineOnly => self.used_buffer_count != 0,
                };

                if !should_wait_for_compositor_buffers {
                    actions.push(OutboundMsg::ExitAck);
                    self.shutdown = ShutdownState::Terminated;
                } else {
                    // Wait for the compositor to return the buffers it
                    // still owns, so they can be released properly.
                    self.shutdown = ShutdownState::Draining;
                }
            },
        }
        actions
    }
}

} // verus!
