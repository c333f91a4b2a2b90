//! The draw target a worker rasterizes one tile into, and the paint
//! transform that aligns the tile's drawn content with its layer's origin.
//!
//! Rasterization of display-list content itself is an external collaborator
//! (out of scope here): a draw leaves the cleared pixels in place and
//! records the transform it was performed under.

use crate::display_list::StackingContext;
use crate::geometry::Au;
use crate::layers::{
    BufferRequest, NativePaintingGraphicsContext, NativeSurface, ScaleFactor, MAX_TILE_DIM,
};
use vstd::prelude::*;

verus! {

/// The transform content is drawn under: identity, scaled by the batch's
/// scale factor, then translated by the negative of the tile's page origin
/// taken relative to the owning stacking context's overflow origin. All
/// translations are in app units.
#[derive(Clone, Copy, PartialEq, Eq, Structural, Debug)]
pub struct PaintTransform {
    pub scale: ScaleFactor,
    pub translate_x: Au,
    pub translate_y: Au,
}

/// The paint transform for one tile of the stacking context that owns it.
pub open spec fn spec_tile_transform(
    tile: BufferRequest,
    sc: StackingContext,
    scale: ScaleFactor,
) -> PaintTransform {
    PaintTransform {
        scale,
        translate_x: Au((-(tile.page_rect.origin.x.0 + sc.overflow.origin.x.0)) as i64),
        translate_y: Au((-(tile.page_rect.origin.y.0 + sc.overflow.origin.y.0)) as i64),
    }
}

/// Computes the paint transform for `tile` within stacking context `sc`:
/// scale by `scale`, then translate by the negative of the tile's page
/// origin relative to `sc`'s overflow origin.
pub fn compute_tile_transform(tile: &BufferRequest, sc: &StackingContext, scale: ScaleFactor)
    -> (r: PaintTransform)
    requires
        tile.wf(),
        sc.overflow.in_range(),
    ensures
        r == spec_tile_transform(*tile, *sc, scale),
{
    PaintTransform {
        scale,
        translate_x: Au(-(tile.page_rect.origin.x.0 + sc.overflow.origin.x.0)),
        translate_y: Au(-(tile.page_rect.origin.y.0 + sc.overflow.origin.y.0)),
    }
}

/// The in-memory or GPU-backed surface that receives rasterized output for
/// one tile.
pub struct DrawTarget {
    /// Whether the target is backed by a GPU framebuffer object.
    pub gpu_backed: bool,
    /// The backing surface: pixel storage for a CPU target, a stealable GPU
    /// resource for a GPU target.
    pub surface: NativeSurface,
    /// The transform the last draw was performed under, if any.
    pub drawn_with: Option<PaintTransform>,
}

impl DrawTarget {
    /// The target's bytes are exactly a cleared (all-zero) pixel field of
    /// its dimensions.
    pub open spec fn cleared(&self) -> bool {
        self.surface.data@ == crate::layers::zero_pixels(self.surface.size)
    }

    /// Clears the target: every pixel byte becomes zero.
    pub fn clear(&mut self)
        requires
            0 <= old(self).surface.size.width <= MAX_TILE_DIM,
            0 <= old(self).surface.size.height <= MAX_TILE_DIM,
        ensures
            final(self).cleared(),
            final(self).gpu_backed == old(self).gpu_backed,
            final(self).surface.id == old(self).surface.id,
            final(self).surface.size == old(self).surface.size,
            final(self).surface.will_leak == old(self).surface.will_leak,
            final(self).drawn_with == old(self).drawn_with,
    {
        let len = crate::layers::tile_byte_len(self.surface.size);
        self.surface.data = crate::layers::zero_bytes(len);
    }

    /// Creates a CPU-memory draw target of the given pixel dimensions, its
    /// pixels cleared. The backing storage is internal scratch space: its
    /// bytes are copied out at extraction and the surface itself never
    /// leaves, so it takes no identity from a graphics context.
    pub fn new(size: crate::geometry::Size2D<i64>) -> (r: DrawTarget)
        requires
            0 <= size.width <= MAX_TILE_DIM,
            0 <= size.height <= MAX_TILE_DIM,
        ensures
            r.gpu_backed == false,
            r.surface.size == size,
            r.cleared(),
            r.drawn_with is None,
    {
        let len: usize = crate::layers::tile_byte_len(size);
        let data = crate::layers::zero_bytes(len);
        DrawTarget {
            gpu_backed: false,
            surface: NativeSurface { id: 0, size, data, will_leak: false },
            drawn_with: None,
        }
    }

    /// Creates a GPU-backed draw target of the given pixel dimensions whose
    /// framebuffer resource is allocated from the worker's graphics
    /// context, its pixels cleared.
    pub fn new_with_fbo(ctx: &mut NativePaintingGraphicsContext, size: crate::geometry::Size2D<
        i64,
    >) -> (r: DrawTarget)
        requires
            0 <= size.width <= MAX_TILE_DIM,
            0 <= size.height <= MAX_TILE_DIM,
            old(ctx).next_id() < u64::MAX,
        ensures
            final(ctx).next_id() == old(ctx).next_id() + 1,
            r.gpu_backed == true,
            r.surface.id == old(ctx).next_id(),
            r.surface.size == size,
            r.surface.will_leak == false,
            r.cleared(),
            r.drawn_with is None,
    {
        let surface = ctx.create_surface(size);
        DrawTarget { gpu_backed: true, surface, drawn_with: None }
    }

    /// Draws the stacking context's content into the target under
    /// `transform`, then flushes to completion. Content rasterization is an
    /// external collaborator: the pixels stay as cleared and the transform
    /// of the draw is recorded.
    pub fn draw_content(&mut self, _stacking_context: &StackingContext, transform: PaintTransform)
        ensures
            final(self).gpu_backed == old(self).gpu_backed,
            final(self).surface == old(self).surface,
            final(self).drawn_with == Some(transform),
    {
        self.drawn_with = Some(transform);
    }

    /// Borrows the target's pixel bytes, as the CPU extraction path does
    /// before uploading them into a reusable buffer.
    pub fn snapshot_data(&self) -> (r: &Vec<u8>)
        ensures
            r@ == self.surface.data@,
    {
        &self.surface.data
    }

    /// Detaches the GPU-backed resource from the target, transferring it
    /// without any pixel copy.
    pub fn steal_gl_resources(self) -> (r: NativeSurface)
        requires
            self.gpu_backed,
        ensures
            r == self.surface,
    {
        self.surface
    }
}

} // verus!
