//! Plain identifiers and metadata shared between the paint pipeline and its
//! compositor: epochs, layer identities, scroll policies, paint states, and
//! the per-layer metadata published when a new render tree is installed.

use crate::geometry::{Au, Rect};
use vstd::prelude::*;

verus! {

/// A version counter for the installed render-tree snapshot, advanced once
/// per installation. A paint batch generated against an older epoch is stale
/// and is discarded in full.
#[derive(Clone, Copy, PartialEq, Eq, Structural, Debug)]
pub struct Epoch(pub u64);

impl Epoch {
    /// Advances the counter by one.
    pub fn next(&mut self)
        requires
            old(self).0 < u64::MAX,
        ensures
            final(self).0 == old(self).0 + 1,
    {
        self.0 = self.0 + 1;
    }
}

/// A per-pipeline identifier for a paint layer, stable across reflows.
#[derive(Clone, Copy, PartialEq, Eq, Structural, Debug)]
pub struct LayerId(pub u64, pub u64);

/// Identifies the pipeline this paint coordinator serves.
#[derive(Clone, Copy, PartialEq, Eq, Structural, Debug)]
pub struct PipelineId(pub u32);

/// How a layer responds to scrolling.
#[derive(Clone, Copy, PartialEq, Eq, Structural, Debug)]
pub enum ScrollPolicy {
    /// The layer scrolls with the rest of the page.
    Scrollable,
    /// The layer stays fixed to the viewport.
    FixedPosition,
}

/// Whether the coordinator is currently rasterizing a batch.
#[derive(Clone, Copy, PartialEq, Eq, Structural, Debug)]
pub enum PaintState {
    Painting,
    Idle,
}

/// An RGBA color with 8-bit channels, used for a layer's background.
#[derive(Clone, Copy, PartialEq, Eq, Structural, Debug)]
pub struct Color {
    pub r: u8,
    pub g: u8,
    pub b: u8,
    pub a: u8,
}

/// What the compositor needs to know about one tagged layer: its identity,
/// its device-space position, its background color and its scroll policy.
#[derive(Clone, Copy, PartialEq, Eq, Structural, Debug)]
pub struct LayerMetadata {
    pub id: LayerId,
    /// Device-pixel position of the layer's overflow rect.
    pub position: Rect<i64>,
    pub background_color: Color,
    pub scroll_policy: ScrollPolicy,
}

/// Information about a hardware graphics layer that layout attaches to a
/// stacking context.
#[derive(Clone, Copy, PartialEq, Eq, Structural, Debug)]
pub struct PaintLayer {
    /// A per-pipeline ID describing this layer that should be stable across
    /// reflows.
    pub id: LayerId,
    /// The color of the background in this layer. Used for unpainted content.
    pub background_color: Color,
    /// The scrolling policy of this layer.
    pub scroll_policy: ScrollPolicy,
}

impl PaintLayer {
    /// Creates a new `PaintLayer`.
    pub fn new(id: LayerId, background_color: Color, scroll_policy: ScrollPolicy) -> (r:
        PaintLayer)
        ensures
            r == (PaintLayer { id, background_color, scroll_policy }),
    {
        PaintLayer { id, background_color, scroll_policy }
    }
}

} // verus!
