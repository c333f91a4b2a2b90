//! Workers and their pool handles.
//!
//! A worker owns a thread-affine graphics context for its whole lifetime and
//! executes one tile-paint job at a time, end to end: build a draw target,
//! draw, extract the pixels (CPU path) or steal the GPU resource (GPU path).
//! Its pool handle exposes a strict submit/collect protocol, one job in
//! flight at a time per worker, results collected in submission order.

use crate::display_list::StackingContext;
use crate::layers::{
    zero_pixels, BufferRequest, LayerBuffer, NativePaintingGraphicsContext, ScaleFactor,
};
use crate::paint_context::{compute_tile_transform, spec_tile_transform, DrawTarget};
use vstd::prelude::*;

verus! {

/// A worker: the thread-local state of one rasterization thread.
pub struct WorkerThread {
    /// The worker's own graphics context; never shared with other workers.
    pub native_graphics_context: NativePaintingGraphicsContext,
    /// Whether the GPU backend is in use. With it, draw targets are
    /// GPU-backed and results are resource transfers; without it, results
    /// are pixel uploads into reusable buffers.
    pub gpu_painting: bool,
}

/// What the worker's extraction step produces for one tile.
///
/// On the CPU path the reusable buffer `b0` keeps its identity and stamped
/// metadata, and its surface receives a copy of the draw target's (cleared)
/// pixels. On the GPU path the result is a fresh buffer stamped from the
/// tile, whose surface is the draw target's GPU resource — the identity the
/// worker's context minted for it — transferred without a pixel copy.
pub open spec fn is_paint_result(
    r: LayerBuffer,
    w: WorkerThread,
    tile: BufferRequest,
    b0: Option<LayerBuffer>,
    scale: ScaleFactor,
) -> bool {
    if !w.gpu_painting {
        &&& b0 is Some
        &&& r.native_surface.id == b0.unwrap().native_surface.id
        &&& r.native_surface.size == b0.unwrap().native_surface.size
        &&& r.native_surface.will_leak == b0.unwrap().native_surface.will_leak
        &&& r.native_surface.data@ == zero_pixels(tile.screen_rect.size)
        &&& r.rect == b0.unwrap().rect
        &&& r.screen_pos == b0.unwrap().screen_pos
        &&& r.resolution == b0.unwrap().resolution
        &&& r.stride == b0.unwrap().stride
        &&& r.painted_with_cpu == b0.unwrap().painted_with_cpu
        &&& r.content_age == b0.unwrap().content_age
    } else {
        &&& r.native_surface.id == w.native_graphics_context.next_id()
        &&& r.native_surface.size == tile.screen_rect.size
        &&& r.native_surface.will_leak == false
        &&& r.native_surface.data@ == zero_pixels(tile.screen_rect.size)
        &&& r.rect == tile.page_rect
        &&& r.screen_pos == tile.screen_rect
        &&& r.resolution == scale
        &&& r.stride == tile.screen_rect.size.width * 4
        &&& r.painted_with_cpu == false
        &&& r.content_age == tile.content_age
    }
}

impl WorkerThread {
    /// A worker with a fresh graphics context for the given backend.
    pub fn new(gpu_painting: bool) -> (r: WorkerThread)
        ensures
            r.gpu_painting == gpu_painting,
            r.native_graphics_context.next_id() == 0,
    {
        WorkerThread { native_graphics_context: NativePaintingGraphicsContext::new(), gpu_painting }
    }

    /// Builds a draw target sized to the tile, clears it, draws the owning
    /// stacking context's content under the tile's paint transform, and
    /// flushes. On the GPU path the target's framebuffer resource is minted
    /// by this worker's context.
    fn optimize_and_paint_tile(
        &mut self,
        tile: &BufferRequest,
        stacking_context: &StackingContext,
        scale: ScaleFactor,
    ) -> (r: DrawTarget)
        requires
            tile.wf(),
            stacking_context.overflow.in_range(),
            old(self).native_graphics_context.next_id() < u64::MAX,
        ensures
            final(self).gpu_painting == old(self).gpu_painting,
            r.gpu_backed == old(self).gpu_painting,
            r.surface.size == tile.screen_rect.size,
            r.cleared(),
            r.drawn_with == Some(spec_tile_transform(*tile, *stacking_context, scale)),
            old(self).gpu_painting ==> {
                &&& r.surface.id == old(self).native_graphics_context.next_id()
                &&& r.surface.will_leak == false
                &&& final(self).native_graphics_context.next_id() == old(self).native_graphics_context.next_id() + 1
            },
            !old(self).gpu_painting ==> final(self).native_graphics_context == old(self).native_graphics_context,
    {
        let size = tile.screen_rect.size;
        let mut draw_target = if !self.gpu_painting {
            DrawTarget::new(size)
        } else {
            DrawTarget::new_with_fbo(&mut self.native_graphics_context, size)
        };
        let transform = compute_tile_transform(tile, stacking_context, scale);
        draw_target.clear();
        draw_target.draw_content(stacking_context, transform);
        draw_target
    }

    /// Extracts the result from a painted draw target. CPU path: copy the
    /// target's pixel data into the reused or freshly allocated buffer's
    /// native surface. GPU path: detach the GPU resource directly from the
    /// target into a new layer buffer, avoiding any pixel copy.
    fn create_layer_buffer_for_painted_tile(
        &mut self,
        tile: &BufferRequest,
        layer_buffer: Option<LayerBuffer>,
        draw_target: DrawTarget,
        scale: ScaleFactor,
    ) -> (r: LayerBuffer)
        requires
            tile.wf(),
            draw_target.gpu_backed == old(self).gpu_painting,
            draw_target.cleared(),
            draw_target.surface.size == tile.screen_rect.size,
            !old(self).gpu_painting ==> layer_buffer is Some,
        ensures
            *final(self) == *old(self),
            !old(self).gpu_painting ==> {
                &&& r.native_surface.id == layer_buffer.unwrap().native_surface.id
                &&& r.native_surface.size == layer_buffer.unwrap().native_surface.size
                &&& r.native_surface.will_leak == layer_buffer.unwrap().native_surface.will_leak
                &&& r.native_surface.data@ == zero_pixels(tile.screen_rect.size)
                &&& r == (LayerBuffer { native_surface: r.native_surface, ..layer_buffer.unwrap() })
            },
            old(self).gpu_painting ==> {
                &&& r.native_surface.id == draw_target.surface.id
                &&& r.native_surface.size == draw_target.surface.size
                &&& r.native_surface.will_leak == false
                &&& r.native_surface.data@ == zero_pixels(tile.screen_rect.size)
                &&& r.rect == tile.page_rect
                &&& r.screen_pos == tile.screen_rect
                &&& r.resolution == scale
                &&& r.stride == tile.screen_rect.size.width * 4
                &&& r.painted_with_cpu == false
                &&& r.content_age == tile.content_age
            },
    {
        if !self.gpu_painting {
            let mut buffer = layer_buffer.unwrap();
            buffer.native_surface.upload(draw_target.snapshot_data().as_slice());
            return buffer;
        }
        // GPU painting path:
        let mut native_surface = draw_target.steal_gl_resources();
        native_surface.mark_wont_leak();
        let stride_px = tile.screen_rect.size.width;
        LayerBuffer {
            native_surface,
            rect: tile.page_rect,
            screen_pos: tile.screen_rect,
            resolution: scale,
            stride: (stride_px * 4) as usize,
            painted_with_cpu: false,
            content_age: tile.content_age,
        }
    }

    /// One tile-paint job, end to end: draw the tile and extract the
    /// resulting layer buffer.
    pub fn paint_tile_job(
        &mut self,
        tile: &BufferRequest,
        layer_buffer: Option<LayerBuffer>,
        stacking_context: &StackingContext,
        scale: ScaleFactor,
    ) -> (r: LayerBuffer)
        requires
            tile.wf(),
            stacking_context.overflow.in_range(),
            old(self).native_graphics_context.next_id() < u64::MAX,
            !old(self).gpu_painting ==> layer_buffer is Some,
        ensures
            final(self).gpu_painting == old(self).gpu_painting,
            is_paint_result(r, *old(self), *tile, layer_buffer, scale),
            old(self).gpu_painting ==> final(self).native_graphics_context.next_id() == old(self).native_graphics_context.next_id() + 1,
            !old(self).gpu_painting ==> final(self).native_graphics_context == old(self).native_graphics_context,
    {
        let draw_target = self.optimize_and_paint_tile(tile, stacking_context, scale);
        self.create_layer_buffer_for_painted_tile(tile, layer_buffer, draw_target, scale)
    }
}

/// How many of the first `n` round-robin submissions go to worker `j` of a
/// pool of `w`: the count of indices `m < n` with `m % w == j`.
pub open spec fn assigned_count(n: int, j: int, w: int) -> int {
    if n <= j {
        0
    } else {
        (n - j - 1) / w + 1
    }
}

/// One round-robin step: submission `n` goes to worker `n % w`, whose count
/// grows by one while every other worker's count is unchanged; and a
/// worker's count at its own turn is exactly `n / w`.
pub proof fn lemma_assigned_step(n: int, j: int, w: int)
    requires
        0 <= n,
        0 <= j < w,
    ensures
        n % w == j ==> assigned_count(n, j, w) == n / w,
        n % w == j ==> assigned_count(n + 1, j, w) == n / w + 1,
        n % w != j ==> assigned_count(n + 1, j, w) == assigned_count(n, j, w),
{
    vstd::arithmetic::div_mod::lemma_fundamental_div_mod(n, w);
    let q = n / w;
    let r = n % w;
    vstd::arithmetic::div_mod::lemma_mod_bound(n, w);
    assert(0 <= r < w);
    assert(q >= 0) by (nonlinear_arith)
        requires
            n >= 0,
            w > 0,
            n == w * q + r,
            r < w,
    ;
    if r == j {
        if n <= j {
            assert(q * w <= 0) by (nonlinear_arith)
                requires
                    n == w * q + r,
                    r == j,
                    n <= j,
            ;
            assert(q == 0) by (nonlinear_arith)
                requires
                    q * w <= 0,
                    q >= 0,
                    w > 0,
            ;
        } else {
            assert(n - j - 1 == (q - 1) * w + (w - 1)) by (nonlinear_arith)
                requires
                    n == w * q + r,
                    r == j,
            ;
            assert(q >= 1) by (nonlinear_arith)
                requires
                    n == w * q + r,
                    r == j,
                    n > j,
                    q >= 0,
                    w > 0,
            ;
            vstd::arithmetic::div_mod::lemma_fundamental_div_mod_converse(
                n - j - 1,
                w,
                q - 1,
                w - 1,
            );
        }
        assert(n + 1 - j - 1 == q * w) by (nonlinear_arith)
            requires
                n == w * q + r,
                r == j,
        ;
        vstd::arithmetic::div_mod::lemma_fundamental_div_mod_converse(n - j, w, q, 0);
    } else {
        if n < j {
        } else if n == j {
            vstd::arithmetic::div_mod::lemma_small_mod(n as nat, w as nat);
            assert(false);
        } else {
            // n > j, so both counts use the dividing branch.
            if r > j {
                assert(n - j - 1 == q * w + (r - j - 1) && 0 <= r - j - 1 < w && n - j == q * w + (
                r - j) && 0 <= r - j < w) by (nonlinear_arith)
                    requires
                        n == w * q + r,
                        0 <= j < r < w,
                ;
                vstd::arithmetic::div_mod::lemma_fundamental_div_mod_converse(
                    n - j - 1,
                    w,
                    q,
                    r - j - 1,
                );
                vstd::arithmetic::div_mod::lemma_fundamental_div_mod_converse(n - j, w, q, r - j);
            } else {
                // r < j: the previous multiple of w is one round back.
                assert(q >= 1) by (nonlinear_arith)
                    requires
                        n == w * q + r,
                        0 <= r < j < w,
                        n > j,
                        q >= 0,
                ;
                assert(n - j - 1 == (q - 1) * w + (w + r - j - 1) && 0 <= w + r - j - 1 < w && n - j
                    == (q - 1) * w + (w + r - j) && 0 <= w + r - j < w) by (nonlinear_arith)
                    requires
                        n == w * q + r,
                        0 <= r < j < w,
                ;
                vstd::arithmetic::div_mod::lemma_fundamental_div_mod_converse(
                    n - j - 1,
                    w,
                    q - 1,
                    w + r - j - 1,
                );
                vstd::arithmetic::div_mod::lemma_fundamental_div_mod_converse(
                    n - j,
                    w,
                    q - 1,
                    w + r - j,
                );
            }
        }
    }
}

/// Round-robin counts never shrink as more submissions are made.
pub proof fn lemma_assigned_mono(n1: int, n2: int, j: int, w: int)
    requires
        0 <= n1 <= n2,
        0 <= j < w,
    ensures
        assigned_count(n1, j, w) <= assigned_count(n2, j, w),
    decreases n2 - n1,
{
    if n1 < n2 {
        lemma_assigned_step(n2 - 1, j, w);
        lemma_assigned_mono(n1, n2 - 1, j, w);
    }
}

/// The coordinator's communication endpoint for one worker: a strict
/// request/response protocol, one job in flight at a time, whose completed
/// results are collected in submission order.
pub struct WorkerThreadProxy {
    /// The worker behind this endpoint.
    pub worker: WorkerThread,
    /// Completed results not yet collected, oldest first. Because the
    /// worker handles its queue strictly in order, this is exactly the
    /// submission order.
    pub pending: Vec<LayerBuffer>,
    /// Whether the worker's loop is still running (no exit signal yet).
    pub alive: bool,
}

impl WorkerThreadProxy {
    /// Spawns the worker pool: one worker per parallelism unit, except that
    /// GPU-backed rendering forces pool size 1 (GPU contexts are
    /// thread-affine and not assumed shareable across submissions).
    pub fn spawn(thread_count: usize, gpu_painting: bool) -> (r: Vec<WorkerThreadProxy>)
        requires
            thread_count >= 1,
        ensures
            r@.len() == if gpu_painting {
                1int
            } else {
                thread_count as int
            },
            forall|j: int|
                0 <= j < r@.len() ==> {
                    &&& (#[trigger] r@[j]).worker.gpu_painting == gpu_painting
                    &&& r@[j].worker.native_graphics_context.next_id() == 0
                    &&& r@[j].pending@.len() == 0
                    &&& r@[j].alive
                },
    {
        let count: usize = if gpu_painting {
            1
        } else {
            thread_count
        };
        let mut pool: Vec<WorkerThreadProxy> = Vec::new();
        let mut i: usize = 0;
        while i < count
            invariant
                0 <= i <= count,
                pool@.len() == i,
                forall|j: int|
                    0 <= j < pool@.len() ==> {
                        &&& (#[trigger] pool@[j]).worker.gpu_painting == gpu_painting
                        &&& pool@[j].worker.native_graphics_context.next_id() == 0
                        &&& pool@[j].pending@.len() == 0
                        &&& pool@[j].alive
                    },
            decreases count - i,
        {
            pool.push(
                WorkerThreadProxy {
                    worker: WorkerThread::new(gpu_painting),
                    pending: Vec::new(),
                    alive: true,
                },
            );
            i = i + 1;
        }
        pool
    }

    /// Submits one tile-paint job. The worker runs it to completion and the
    /// result joins this endpoint's queue in submission order.
    pub fn paint_tile(
        &mut self,
        tile: BufferRequest,
        layer_buffer: Option<LayerBuffer>,
        stacking_context: &StackingContext,
        scale: ScaleFactor,
    )
        requires
            tile.wf(),
            stacking_context.overflow.in_range(),
            old(self).worker.native_graphics_context.next_id() < u64::MAX,
            !old(self).worker.gpu_painting ==> layer_buffer is Some,
        ensures
            final(self).alive == old(self).alive,
            final(self).worker.gpu_painting == old(self).worker.gpu_painting,
            final(self).pending@.len() == old(self).pending@.len() + 1,
            final(self).pending@ == old(self).pending@.push(final(self).pending@.last()),
            is_paint_result(
                final(self).pending@.last(),
                old(self).worker,
                tile,
                layer_buffer,
                scale,
            ),
            old(self).worker.gpu_painting ==> final(self).worker.native_graphics_context.next_id() == old(self).worker.native_graphics_context.next_id() + 1,
            !old(self).worker.gpu_painting ==> final(self).worker.native_graphics_context == old(self).worker.native_graphics_context,
    {
        let buffer = self.worker.paint_tile_job(&tile, layer_buffer, stacking_context, scale);
        self.pending.push(buffer);
    }

    /// Blocking-receives the worker's next completed result, in submission
    /// order.
    pub fn get_painted_tile_buffer(&mut self) -> (r: LayerBuffer)
        requires
            old(self).pending@.len() > 0,
        ensures
            r == old(self).pending@.first(),
            final(self).pending@ == old(self).pending@.drop_first(),
            final(self).worker == old(self).worker,
            final(self).alive == old(self).alive,
    {
        let r = self.pending.remove(0);
        proof {
            assert(old(self).pending@.remove(0) =~= old(self).pending@.drop_first());
        }
        r
    }

    /// Signals the worker's loop to terminate after any in-flight job.
    pub fn exit(&mut self)
        ensures
            *final(self) == (WorkerThreadProxy { alive: false, ..*old(self) }),
    {
        self.alive = false;
    }
}

} // verus!
