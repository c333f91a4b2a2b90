//! The render-tree snapshot: a tree of stacking contexts, each optionally
//! tagging a paint layer, together with the two walks the coordinator needs:
//! collecting per-layer metadata for the compositor and finding the stacking
//! context that owns a given layer.

use crate::compositor_msg::{LayerId, LayerMetadata, PaintLayer};
use crate::geometry::{spec_to_nearest_px, Au, Point2D, Rect, Size2D, MAX_AU};
use vstd::prelude::*;

verus! {

/// One stacking context of a render-tree snapshot. The snapshot is immutable
/// once installed: the coordinator replaces it wholesale on a new epoch and
/// never patches it in place.
pub struct StackingContext {
    /// The position and size of this stacking context, relative to its
    /// parent's origin, in app units.
    pub bounds: Rect<Au>,
    /// The overflow rect: the region this context's content may cover,
    /// relative to this context's origin, in app units.
    pub overflow: Rect<Au>,
    /// The paint layer this context tags, if any.
    pub layer: Option<PaintLayer>,
    /// Nested stacking contexts, in paint order.
    pub children: Vec<StackingContext>,
}

impl StackingContext {
    /// All coordinates of the tree are within the pipeline's bound.
    pub open spec fn wf(self) -> bool
        decreases self,
    {
        self.bounds.in_range() && self.overflow.in_range() && forall|i: int|
            0 <= i < self.children@.len() ==> (#[trigger] self.children@[i]).wf()
    }

    /// The page positions accumulated while walking the tree from an origin
    /// of `(ox, oy)` stay within the pipeline's coordinate bound.
    pub open spec fn positions_ok(self, ox: int, oy: int) -> bool
        decreases self,
    {
        let px = ox + self.bounds.origin.x.0;
        let py = oy + self.bounds.origin.y.0;
        &&& -MAX_AU <= px <= MAX_AU
        &&& -MAX_AU <= py <= MAX_AU
        &&& -MAX_AU <= px + self.overflow.origin.x.0 <= MAX_AU
        &&& -MAX_AU <= py + self.overflow.origin.y.0 <= MAX_AU
        &&& forall|i: int|
            0 <= i < self.children@.len() ==> (#[trigger] self.children@[i]).positions_ok(
                px,
                py,
            )
    }
}

/// The metadata entry a stacking context at accumulated page position
/// `(px, py)` publishes for its own layer: the layer's identity, its
/// overflow rect in device pixels, its background color and scroll policy.
pub open spec fn own_metadata(sc: StackingContext, px: int, py: int) -> Seq<LayerMetadata> {
    match sc.layer {
        Some(layer) => seq![
            LayerMetadata {
                id: layer.id,
                position: Rect {
                    origin: Point2D {
                        x: spec_to_nearest_px(px + sc.overflow.origin.x.0) as i64,
                        y: spec_to_nearest_px(py + sc.overflow.origin.y.0) as i64,
                    },
                    size: Size2D {
                        width: spec_to_nearest_px(sc.overflow.size.width.0 as int) as i64,
                        height: spec_to_nearest_px(sc.overflow.size.height.0 as int) as i64,
                    },
                },
                background_color: layer.background_color,
                scroll_policy: layer.scroll_policy,
            },
        ],
        None => seq![],
    }
}

/// The metadata published by a depth-first walk of `sc` whose parent origin
/// is at accumulated page position `(ox, oy)`: the context's own entry, if
/// it tags a layer, followed by its children's entries in order.
pub open spec fn metadata_of(sc: StackingContext, ox: int, oy: int) -> Seq<LayerMetadata>
    decreases sc,
{
    let px = ox + sc.bounds.origin.x.0;
    let py = oy + sc.bounds.origin.y.0;
    own_metadata(sc, px, py) + children_metadata(sc.children@, px, py)
}

/// The concatenated metadata of a sequence of sibling stacking contexts.
pub open spec fn children_metadata(cs: Seq<StackingContext>, ox: int, oy: int) -> Seq<
    LayerMetadata,
>
    decreases cs,
{
    if cs.len() == 0 {
        seq![]
    } else {
        children_metadata(cs.drop_last(), ox, oy) + metadata_of(cs.last(), ox, oy)
    }
}

/// The stacking context owning layer `id`: `sc` itself if its own layer has
/// that id, else the first match in a depth-first walk of its children.
pub open spec fn find_layer(sc: StackingContext, id: LayerId) -> Option<StackingContext>
    decreases sc,
{
    if sc.layer matches Some(layer) && layer.id == id {
        Some(sc)
    } else {
        find_layer_in_children(sc.children@, id)
    }
}

/// The first stacking context among `cs` (depth-first, in order) owning
/// layer `id`.
pub open spec fn find_layer_in_children(cs: Seq<StackingContext>, id: LayerId) -> Option<
    StackingContext,
>
    decreases cs,
{
    if cs.len() == 0 {
        None
    } else if find_layer(cs.first(), id) is Some {
        find_layer(cs.first(), id)
    } else {
        find_layer_in_children(cs.drop_first(), id)
    }
}

/// A stacking context found inside a well-formed tree is itself well-formed.
pub proof fn lemma_find_layer_wf(sc: StackingContext, id: LayerId)
    requires
        sc.wf(),
        find_layer(sc, id) is Some,
    ensures
        find_layer(sc, id).unwrap().wf(),
    decreases sc,
{
    if sc.layer matches Some(layer) && layer.id == id {
    } else {
        lemma_find_layer_in_children_wf(sc.children@, id);
    }
}

proof fn lemma_find_layer_in_children_wf(cs: Seq<StackingContext>, id: LayerId)
    requires
        forall|i: int| 0 <= i < cs.len() ==> (#[trigger] cs[i]).wf(),
        find_layer_in_children(cs, id) is Some,
    ensures
        find_layer_in_children(cs, id).unwrap().wf(),
    decreases cs,
{
    if cs.len() == 0 {
    } else if find_layer(cs.first(), id) is Some {
        lemma_find_layer_wf(cs.first(), id);
    } else {
        assert(forall|i: int|
            0 <= i < cs.drop_first().len() ==> (#[trigger] cs.drop_first()[i]).wf());
        lemma_find_layer_in_children_wf(cs.drop_first(), id);
    }
}

impl StackingContext {
    /// Walks this subtree depth-first from accumulated position `(ox, oy)`,
    /// appending one metadata entry per tagged layer.
    fn append_metadata(&self, metadata: &mut Vec<LayerMetadata>, ox: i64, oy: i64)
        requires
            self.wf(),
            self.positions_ok(ox as int, oy as int),
            -MAX_AU <= ox <= MAX_AU,
            -MAX_AU <= oy <= MAX_AU,
        ensures
            final(metadata)@ == old(metadata)@ + metadata_of(*self, ox as int, oy as int),
        decreases *self,
    {
        let px = ox + self.bounds.origin.x.0;
        let py = oy + self.bounds.origin.y.0;
        match &self.layer {
            Some(layer) => {
                let position = Rect {
                    origin: Point2D {
                        x: Au(px + self.overflow.origin.x.0).to_nearest_px(),
                        y: Au(py + self.overflow.origin.y.0).to_nearest_px(),
                    },
                    size: Size2D {
                        width: self.overflow.size.width.to_nearest_px(),
                        height: self.overflow.size.height.to_nearest_px(),
                    },
                };
                metadata.push(LayerMetadata {
                    id: layer.id,
                    position,
                    background_color: layer.background_color,
                    scroll_policy: layer.scroll_policy,
                });
            },
            None => {},
        }
        let ghost mid = metadata@;
        assert(mid == old(metadata)@ + own_metadata(*self, px as int, py as int));
        let mut i: usize = 0;
        while i < self.children.len()
            invariant
                0 <= i <= self.children@.len(),
                self.wf(),
                self.positions_ok(ox as int, oy as int),
                -MAX_AU <= px <= MAX_AU,
                -MAX_AU <= py <= MAX_AU,
                px == ox + self.bounds.origin.x.0,
                py == oy + self.bounds.origin.y.0,
                metadata@ == mid + children_metadata(
                    self.children@.take(i as int),
                    px as int,
                    py as int,
                ),
            decreases self.children@.len() - i,
        {
            assert(self.children@[i as int].wf());
            assert(self.children@[i as int].positions_ok(px as int, py as int));
            self.children[i].append_metadata(metadata, px, py);
            proof {
                let cs = self.children@;
                assert(cs.take(i + 1).drop_last() =~= cs.take(i as int));
                assert(cs.take(i + 1).last() == cs[i as int]);
            }
            i = i + 1;
        }
        proof {
            assert(self.children@.take(self.children@.len() as int) =~= self.children@);
        }
    }

    /// Finds the stacking context in this subtree that owns layer `id`, if
    /// any; the search fails silently.
    pub fn find_stacking_context_with_layer_id(&self, id: LayerId) -> (r: Option<
        &StackingContext,
    >)
        ensures
            match r {
                Some(sc) => find_layer(*self, id) == Some(*sc),
                None => find_layer(*self, id) is None,
            },
        decreases *self,
    {
        match &self.layer {
            Some(layer) => {
                if layer.id == id {
                    return Some(self);
                }
            },
            None => {},
        }
        let mut i: usize = 0;
        proof {
            assert(self.children@.skip(0) =~= self.children@);
        }
        while i < self.children.len()
            invariant
                0 <= i <= self.children@.len(),
                find_layer_in_children(self.children@, id) == find_layer_in_children(
                    self.children@.skip(i as int),
                    id,
                ),
                !(self.layer matches Some(layer) && layer.id == id),
            decreases self.children@.len() - i,
        {
            let found = self.children[i].find_stacking_context_with_layer_id(id);
            proof {
                let cs = self.children@;
                assert(cs.skip(i as int).first() == cs[i as int]);
                assert(cs.skip(i as int).drop_first() =~= cs.skip(i + 1));
            }
            match found {
                Some(sc) => {
                    return Some(sc);
                },
                None => {},
            }
            i = i + 1;
        }
        assert(self.children@.skip(self.children@.len() as int) =~= Seq::<
            StackingContext,
        >::empty());
        None
    }
}

/// Builds the layer metadata the compositor is told about when the snapshot
/// rooted at `root` is installed: one entry per tagged layer, in depth-first
/// order, with device-space positions accumulated from the tree's origin.
pub fn build_layer_metadata(root: &StackingContext) -> (r: Vec<LayerMetadata>)
    requires
        root.wf(),
        root.positions_ok(0, 0),
    ensures
        r@ == metadata_of(*root, 0, 0),
{
    let mut metadata: Vec<LayerMetadata> = Vec::new();
    root.append_metadata(&mut metadata, 0, 0);
    metadata
}

} // verus!
