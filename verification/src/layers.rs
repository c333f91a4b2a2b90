//! Pixel-backed layer buffers and the native surfaces behind them.
//!
//! A native surface stands for an expensive OS- or GPU-backed pixel
//! allocation; here it carries its identity, its pixel dimensions and its
//! host-visible bytes. Ownership of a buffer is exclusive and transfers
//! whole: cache to worker to coordinator to compositor, and back again.

use crate::geometry::{Au, Rect, Size2D};
use vstd::prelude::*;

verus! {

/// Largest tile edge, in pixels, the pipeline accepts. Keeps every byte
/// count (`width * 4 * height`) comfortably inside `usize`.
pub const MAX_TILE_DIM: i64 = 8192;

/// A rasterization scale factor in thousandths (1000 means one device pixel
/// per page pixel). Carried through unchanged; the pipeline never computes
/// with it.
#[derive(Clone, Copy, PartialEq, Eq, Structural, Debug)]
pub struct ScaleFactor(pub u32);

/// Describes one rectangular region of a layer to rasterize in one unit of
/// work. Ephemeral: created per paint batch.
#[derive(Clone, Copy, PartialEq, Eq, Debug)]
pub struct BufferRequest {
    /// The rect of the layer to paint, page coordinates, in app units.
    pub page_rect: Rect<Au>,
    /// The rect of the layer to paint, device coordinates, in pixels.
    pub screen_rect: Rect<i64>,
    /// A marker the cache uses to judge reuse validity; never interpreted
    /// here.
    pub content_age: u32,
}

impl BufferRequest {
    /// Coordinates are in range and the tile's pixel extents are
    /// non-negative and no larger than `MAX_TILE_DIM`.
    pub open spec fn wf(self) -> bool {
        &&& self.page_rect.in_range()
        &&& 0 <= self.screen_rect.size.width <= MAX_TILE_DIM
        &&& 0 <= self.screen_rect.size.height <= MAX_TILE_DIM
    }

    pub fn new(page_rect: Rect<Au>, screen_rect: Rect<i64>, content_age: u32) -> (r:
        BufferRequest)
        ensures
            r == (BufferRequest { page_rect, screen_rect, content_age }),
    {
        BufferRequest { page_rect, screen_rect, content_age }
    }
}

/// A native pixel-backed surface: an identity handed out by a graphics
/// context, pixel dimensions, and the surface's host-visible bytes.
#[derive(Clone, PartialEq, Eq, Debug)]
pub struct NativeSurface {
    /// Identity of the underlying native resource.
    pub id: u64,
    /// Pixel dimensions of the surface.
    pub size: Size2D<i64>,
    /// The surface's bytes, `stride * height` of them.
    pub data: Vec<u8>,
    /// Whether the resource would be reported as leaked if dropped in
    /// transit; freshly created surfaces are marked not to leak.
    pub will_leak: bool,
}

impl NativeSurface {
    /// Marks the surface so that it is not reported as a leak while it
    /// travels between threads.
    pub fn mark_wont_leak(&mut self)
        ensures
            *final(self) == (NativeSurface { will_leak: false, ..*old(self) }),
    {
        self.will_leak = false;
    }

    /// Replaces the surface's bytes with `data`: the pixel copy of the
    /// CPU upload path.
    pub fn upload(&mut self, data: &[u8])
        ensures
            final(self).data@ == data@,
            final(self).id == old(self).id,
            final(self).size == old(self).size,
            final(self).will_leak == old(self).will_leak,
    {
        self.data = vstd::slice::slice_to_vec(data);
    }
}

/// The rasterization result for one tile: a native surface (or, on the GPU
/// path, a GPU resource handle) plus its placement metadata.
#[derive(Clone, PartialEq, Eq, Debug)]
pub struct LayerBuffer {
    /// The native surface which can be shared with the compositor.
    pub native_surface: NativeSurface,
    /// The rect of the layer this buffer represents, page coordinates, in
    /// app units.
    pub rect: Rect<Au>,
    /// The rect of the layer this buffer represents, device coordinates, in
    /// pixels.
    pub screen_pos: Rect<i64>,
    /// The scale at which this tile was painted.
    pub resolution: ScaleFactor,
    /// Row stride of the surface, in bytes.
    pub stride: usize,
    /// Whether the buffer was painted on the CPU path (a pixel upload) as
    /// opposed to the GPU path (a resource transfer).
    pub painted_with_cpu: bool,
    /// The content age of the tile this buffer holds.
    pub content_age: u32,
}

impl LayerBuffer {
    /// The pixel dimensions this buffer is pooled under.
    pub open spec fn pixel_size(self) -> Size2D<i64> {
        self.screen_pos.size
    }

    /// Bytes of pixel storage the buffer accounts for in the cache.
    pub open spec fn byte_size(self) -> int {
        self.screen_pos.size.width * 4 * self.screen_pos.size.height
    }

    /// Pixel extents are non-negative and no larger than `MAX_TILE_DIM`,
    /// the stride is four bytes per pixel of width, and the backing surface
    /// has the buffer's pixel dimensions.
    pub open spec fn wf_dims(self) -> bool {
        &&& 0 <= self.screen_pos.size.width <= MAX_TILE_DIM
        &&& 0 <= self.screen_pos.size.height <= MAX_TILE_DIM
        &&& self.stride == self.screen_pos.size.width * 4
        &&& self.native_surface.size == self.screen_pos.size
    }
}

/// A set of layer buffers; the reply unit for one painted layer.
#[derive(Clone, PartialEq, Eq, Debug)]
pub struct LayerBufferSet {
    pub buffers: Vec<LayerBuffer>,
}

/// The bytes of a cleared (all-zero) pixel field of `size` pixels, four
/// bytes per pixel.
pub open spec fn zero_pixels(size: Size2D<i64>) -> Seq<u8> {
    Seq::new((size.width * 4 * size.height) as nat, |i: int| 0u8)
}

/// How many bytes a surface of `size` pixels occupies at four bytes per
/// pixel: `width * 4 * height`.
pub fn tile_byte_len(size: Size2D<i64>) -> (r: usize)
    requires
        0 <= size.width <= MAX_TILE_DIM,
        0 <= size.height <= MAX_TILE_DIM,
    ensures
        r == size.width * 4 * size.height,
        r <= 0x1000_0000,
{
    proof {
        assert(0 <= size.width * 4 * size.height <= 0x1000_0000) by (nonlinear_arith)
            requires
                0 <= size.width <= MAX_TILE_DIM,
                0 <= size.height <= MAX_TILE_DIM,
                MAX_TILE_DIM == 8192,
        ;
    }
    (size.width * 4 * size.height) as usize
}

/// A vector of `len` zero bytes: the contents of a freshly cleared surface.
pub fn zero_bytes(len: usize) -> (r: Vec<u8>)
    ensures
        r@ == Seq::new(len as nat, |i: int| 0u8),
{
    let mut out: Vec<u8> = Vec::new();
    let mut i: usize = 0;
    while i < len
        invariant
            0 <= i <= len,
            out@ == Seq::new(i as nat, |j: int| 0u8),
        decreases len - i,
    {
        out.push(0u8);
        proof {
            assert(out@ =~= Seq::new((i + 1) as nat, |j: int| 0u8));
        }
        i = i + 1;
    }
    out
}

/// A handle to the native graphics system, held once by the coordinator and
/// once per worker, from which fresh native surfaces are allocated. Stands
/// for the platform's painting graphics context; here it only mints surface
/// identities and zeroed pixel storage.
pub struct NativePaintingGraphicsContext {
    next_surface_id: u64,
}

impl NativePaintingGraphicsContext {
    /// The identity the next created surface will receive.
    pub closed spec fn next_id(&self) -> u64 {
        self.next_surface_id
    }

    pub fn new() -> (r: NativePaintingGraphicsContext)
        ensures
            r.next_id() == 0,
    {
        NativePaintingGraphicsContext { next_surface_id: 0 }
    }

    /// Allocates a fresh native surface of the given pixel dimensions, its
    /// bytes zeroed and its leak flag clear.
    pub fn create_surface(&mut self, size: Size2D<i64>) -> (r: NativeSurface)
        requires
            0 <= size.width <= MAX_TILE_DIM,
            0 <= size.height <= MAX_TILE_DIM,
            old(self).next_id() < u64::MAX,
        ensures
            final(self).next_id() == old(self).next_id() + 1,
            r.id == old(self).next_id(),
            r.size == size,
            r.will_leak == false,
            r.data@ == zero_pixels(size),
    {
        let len: usize = tile_byte_len(size);
        let data = zero_bytes(len);
        let id = self.next_surface_id;
        self.next_surface_id = self.next_surface_id + 1;
        NativeSurface { id, size, data, will_leak: false }
    }
}

} // verus!
