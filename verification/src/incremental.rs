//! Restyle damage: the individual layout actions that may be necessary
//! after restyling, and how damage propagates between a flow and its
//! parent or children.

use vstd::prelude::*;

verus! {

/// Repaint the node itself.
pub const REPAINT: u8 = 0x01;

/// Recompute intrinsic inline sizes (minimum and preferred); propagates
/// down the flow tree because the computation is bottom-up.
pub const BUBBLE_ISIZES: u8 = 0x02;

/// Recompute actual inline-sizes and block-sizes, only taking out-of-flow
/// children into account; propagates up the flow tree because the
/// computation is top-down.
pub const REFLOW_OUT_OF_FLOW: u8 = 0x04;

/// Recompute actual inline-sizes and block-sizes; propagates up the flow
/// tree because the computation is top-down.
pub const REFLOW: u8 = 0x08;

/// The entire flow needs to be reconstructed.
pub const RECONSTRUCT_FLOW: u8 = 0x10;

/// All individual damage flags together.
pub const ALL_DAMAGE: u8 = 0x1F;

/// The individual layout actions that may be necessary after restyling.
#[derive(Clone, Copy, PartialEq, Eq, Structural, Debug)]
pub struct RestyleDamage(pub u8);

/// If this flag is set, the entire document needs to be reflowed.
pub const REFLOW_ENTIRE_DOCUMENT: u8 = 0x01;

/// Damage that escapes the incremental machinery entirely.
#[derive(Clone, Copy, PartialEq, Eq, Structural, Debug)]
pub struct SpecialRestyleDamage(pub u8);

impl RestyleDamage {
    pub fn empty() -> (r: RestyleDamage)
        ensures
            r.0 == 0,
    {
        RestyleDamage(0)
    }

    pub fn all() -> (r: RestyleDamage)
        ensures
            r.0 == ALL_DAMAGE,
    {
        RestyleDamage(ALL_DAMAGE)
    }

    /// Whether every flag of `other` is set.
    pub fn contains(self, other: RestyleDamage) -> (r: bool)
        ensures
            r == (self.0 & other.0 == other.0),
    {
        self.0 & other.0 == other.0
    }

    /// Whether any flag of `other` is set.
    pub fn intersects(self, other: RestyleDamage) -> (r: bool)
        ensures
            r == (self.0 & other.0 != 0),
    {
        self.0 & other.0 != 0
    }

    /// Adds the flags of `other`.
    pub fn insert(&mut self, other: RestyleDamage)
        ensures
            final(self).0 == old(self).0 | other.0,
    {
        self.0 = self.0 | other.0;
    }

    /// Removes the flags of `other`.
    pub fn remove(&mut self, other: RestyleDamage)
        ensures
            final(self).0 == old(self).0 & !other.0,
    {
        self.0 = self.0 & !other.0;
    }

    /// Supposing a flow has this damage, returns the damage that should be
    /// added to the *parent* of the flow: only repaint and reflow flags
    /// propagate upward, and across an absolutely-positioned boundary only
    /// repaint and out-of-flow reflow do.
    pub fn damage_for_parent(self, child_is_absolutely_positioned: bool) -> (r: RestyleDamage)
        ensures
            child_is_absolutely_positioned ==> r.0 == self.0 & (REPAINT | REFLOW_OUT_OF_FLOW),
            !child_is_absolutely_positioned ==> r.0 == self.0 & (REPAINT | REFLOW
                | REFLOW_OUT_OF_FLOW),
    {
        if child_is_absolutely_positioned {
            RestyleDamage(self.0 & (REPAINT | REFLOW_OUT_OF_FLOW))
        } else {
            RestyleDamage(self.0 & (REPAINT | REFLOW | REFLOW_OUT_OF_FLOW))
        }
    }

    /// Supposing the *parent* of a flow has this damage, returns the damage
    /// that should be added to the flow. Absolute children are out of flow
    /// and insulated from all but repaints; moving an absolutely-positioned
    /// block reflows its in-flow children; otherwise repaint and reflow
    /// propagate down.
    pub fn damage_for_child(
        self,
        parent_is_absolutely_positioned: bool,
        child_is_absolutely_positioned: bool,
    ) -> (r: RestyleDamage)
        ensures
            !parent_is_absolutely_positioned && child_is_absolutely_positioned ==> r.0 == self.0
                & REPAINT,
            parent_is_absolutely_positioned && !child_is_absolutely_positioned ==> r.0 == (
            if self.0 & REFLOW_OUT_OF_FLOW != 0 {
                self.0 | REFLOW
            } else {
                self.0
            }),
            parent_is_absolutely_positioned == child_is_absolutely_positioned ==> r.0 == self.0 & (
            REPAINT | REFLOW),
    {
        if !parent_is_absolutely_positioned && child_is_absolutely_positioned {
            // Absolute children are out-of-flow and therefore insulated
            // from changes.
            RestyleDamage(self.0 & REPAINT)
        } else if parent_is_absolutely_positioned && !child_is_absolutely_positioned {
            // Changing the position of an absolutely-positioned block
            // requires reflowing its kids.
            if self.0 & REFLOW_OUT_OF_FLOW != 0 {
                RestyleDamage(self.0 | REFLOW)
            } else {
                RestyleDamage(self.0)
            }
        } else {
            RestyleDamage(self.0 & (REPAINT | REFLOW))
        }
    }
}

/// An interned font-family name.
#[derive(Clone, Copy, PartialEq, Eq, Structural, Debug)]
pub struct FontFamilyId(pub u64);

/// An RGBA color with 8-bit channels.
pub use crate::compositor_msg::Color;

/// A length, a percentage in thousandths, or `auto`.
#[derive(Clone, Copy, PartialEq, Eq, Structural, Debug)]
pub enum LengthOrPercentageOrAuto {
    Auto,
    Length(crate::geometry::Au),
    Percentage(i64),
}

#[derive(Clone, Copy, PartialEq, Eq, Structural, Debug)]
pub enum FontStyle {
    Normal,
    Italic,
    Oblique,
}

#[derive(Clone, Copy, PartialEq, Eq, Structural, Debug)]
pub enum TextAlign {
    Start,
    End,
    Left,
    Right,
    Center,
    Justify,
}

#[derive(Clone, Copy, PartialEq, Eq, Structural, Debug)]
pub enum LineHeight {
    Normal,
    Number(i64),
    Length(crate::geometry::Au),
}

#[derive(Clone, Copy, PartialEq, Eq, Structural, Debug)]
pub enum Float {
    NoFloat,
    Left,
    Right,
}

#[derive(Clone, Copy, PartialEq, Eq, Structural, Debug)]
pub enum Display {
    NoDisplay,
    Inline,
    Block,
    InlineBlock,
    Table,
    ListItem,
}

#[derive(Clone, Copy, PartialEq, Eq, Structural, Debug)]
pub enum Position {
    Static,
    Relative,
    Absolute,
    Fixed,
}

/// The computed style values whose changes drive incremental layout: the
/// properties compared here are exactly the ones whose difference forces
/// some layout action.
#[derive(Clone, Copy, PartialEq, Eq, Structural, Debug)]
pub struct ComputedValues {
    pub color: Color,
    pub background_color: Color,
    pub border_top_color: Color,
    pub border_right_color: Color,
    pub border_bottom_color: Color,
    pub border_left_color: Color,
    pub top: LengthOrPercentageOrAuto,
    pub left: LengthOrPercentageOrAuto,
    pub right: LengthOrPercentageOrAuto,
    pub bottom: LengthOrPercentageOrAuto,
    pub border_top_width: crate::geometry::Au,
    pub border_right_width: crate::geometry::Au,
    pub border_bottom_width: crate::geometry::Au,
    pub border_left_width: crate::geometry::Au,
    pub margin_top: LengthOrPercentageOrAuto,
    pub margin_right: LengthOrPercentageOrAuto,
    pub margin_bottom: LengthOrPercentageOrAuto,
    pub margin_left: LengthOrPercentageOrAuto,
    pub padding_top: LengthOrPercentageOrAuto,
    pub padding_right: LengthOrPercentageOrAuto,
    pub padding_bottom: LengthOrPercentageOrAuto,
    pub padding_left: LengthOrPercentageOrAuto,
    pub width: LengthOrPercentageOrAuto,
    pub height: LengthOrPercentageOrAuto,
    pub font_family: FontFamilyId,
    pub font_size: crate::geometry::Au,
    pub font_style: FontStyle,
    pub font_weight: u16,
    pub text_align: TextAlign,
    pub text_decoration: u8,
    pub line_height: LineHeight,
    pub float: Float,
    pub display: Display,
    pub position: Position,
}

/// Whether any repaint-only property differs: text and border colors and
/// the background color.
pub open spec fn repaint_props_differ(a: ComputedValues, b: ComputedValues) -> bool {
    ||| a.color != b.color
    ||| a.background_color != b.background_color
    ||| a.border_top_color != b.border_top_color
    ||| a.border_right_color != b.border_right_color
    ||| a.border_bottom_color != b.border_bottom_color
    ||| a.border_left_color != b.border_left_color
}

/// Whether any position offset differs.
pub open spec fn offset_props_differ(a: ComputedValues, b: ComputedValues) -> bool {
    ||| a.top != b.top
    ||| a.left != b.left
    ||| a.right != b.right
    ||| a.bottom != b.bottom
}

/// Whether any metric property differs: borders, margins, paddings, box
/// dimensions, font properties, text layout properties.
pub open spec fn metric_props_differ(a: ComputedValues, b: ComputedValues) -> bool {
    ||| a.border_top_width != b.border_top_width
    ||| a.border_right_width != b.border_right_width
    ||| a.border_bottom_width != b.border_bottom_width
    ||| a.border_left_width != b.border_left_width
    ||| a.margin_top != b.margin_top
    ||| a.margin_right != b.margin_right
    ||| a.margin_bottom != b.margin_bottom
    ||| a.margin_left != b.margin_left
    ||| a.padding_top != b.padding_top
    ||| a.padding_right != b.padding_right
    ||| a.padding_bottom != b.padding_bottom
    ||| a.padding_left != b.padding_left
    ||| a.width != b.width
    ||| a.height != b.height
    ||| a.font_family != b.font_family
    ||| a.font_size != b.font_size
    ||| a.font_style != b.font_style
    ||| a.font_weight != b.font_weight
    ||| a.text_align != b.text_align
    ||| a.text_decoration != b.text_decoration
    ||| a.line_height != b.line_height
}

/// Whether any structural property differs: float, display, position.
pub open spec fn structure_props_differ(a: ComputedValues, b: ComputedValues) -> bool {
    ||| a.float != b.float
    ||| a.display != b.display
    ||| a.position != b.position
}

/// The damage a style change from `a` to `b` causes: each property group
/// that differs contributes its layout actions.
pub open spec fn spec_compute_damage(a: ComputedValues, b: ComputedValues) -> u8 {
    (if repaint_props_differ(a, b) {
        REPAINT
    } else {
        0
    }) | (if offset_props_differ(a, b) {
        REPAINT | REFLOW_OUT_OF_FLOW
    } else {
        0
    }) | (if metric_props_differ(a, b) {
        REPAINT | BUBBLE_ISIZES | REFLOW_OUT_OF_FLOW | REFLOW
    } else {
        0
    }) | (if structure_props_differ(a, b) {
        ALL_DAMAGE
    } else {
        0
    })
}

/// Computes the restyle damage from an old computed style to a new one: a
/// node styled for the first time needs everything; otherwise each group
/// of properties that changed contributes its layout actions.
pub fn compute_damage(old_style: &Option<ComputedValues>, new: &ComputedValues) -> (r:
    RestyleDamage)
    ensures
        old_style is None ==> r.0 == ALL_DAMAGE,
        old_style matches Some(a) ==> r.0 == spec_compute_damage(*a, *new),
{
    let a = match old_style {
        None => {
            return RestyleDamage::all();
        },
        Some(a) => a,
    };

    let repaint: u8 = if a.color != new.color || a.background_color != new.background_color
        || a.border_top_color != new.border_top_color || a.border_right_color
        != new.border_right_color || a.border_bottom_color != new.border_bottom_color
        || a.border_left_color != new.border_left_color {
        REPAINT
    } else {
        0
    };

    let offsets: u8 = if a.top != new.top || a.left != new.left || a.right != new.right
        || a.bottom != new.bottom {
        REPAINT | REFLOW_OUT_OF_FLOW
    } else {
        0
    };

    let metrics: u8 = if a.border_top_width != new.border_top_width || a.border_right_width
        != new.border_right_width || a.border_bottom_width != new.border_bottom_width
        || a.border_left_width != new.border_left_width || a.margin_top != new.margin_top
        || a.margin_right != new.margin_right || a.margin_bottom != new.margin_bottom
        || a.margin_left != new.margin_left || a.padding_top != new.padding_top
        || a.padding_right != new.padding_right || a.padding_bottom != new.padding_bottom
        || a.padding_left != new.padding_left || a.width != new.width || a.height != new.height
        || a.font_family != new.font_family || a.font_size != new.font_size || a.font_style
        != new.font_style || a.font_weight != new.font_weight || a.text_align != new.text_align
        || a.text_decoration != new.text_decoration || a.line_height != new.line_height {
        REPAINT | BUBBLE_ISIZES | REFLOW_OUT_OF_FLOW | REFLOW
    } else {
        0
    };

    let structure: u8 = if a.float != new.float || a.display != new.display || a.position
        != new.position {
        ALL_DAMAGE
    } else {
        0
    };

    RestyleDamage(repaint | offsets | metrics | structure)
}

/// Damage propagated to a parent, as a plain function of the damage bits.
pub open spec fn spec_damage_for_parent(d: u8, child_abs: bool) -> u8 {
    if child_abs {
        d & (REPAINT | REFLOW_OUT_OF_FLOW)
    } else {
        d & (REPAINT | REFLOW | REFLOW_OUT_OF_FLOW)
    }
}

/// Damage propagated to a child, as a plain function of the damage bits.
pub open spec fn spec_damage_for_child(d: u8, parent_abs: bool, child_abs: bool) -> u8 {
    if !parent_abs && child_abs {
        d & REPAINT
    } else if parent_abs && !child_abs {
        if d & REFLOW_OUT_OF_FLOW != 0 {
            d | REFLOW
        } else {
            d
        }
    } else {
        d & (REPAINT | REFLOW)
    }
}

/// One flow of the layout tree, reduced to what damage propagation reads:
/// its damage, its positioning, whether it floats, and its children.
pub struct Flow {
    pub restyle_damage: RestyleDamage,
    pub is_absolutely_positioned: bool,
    pub is_float: bool,
    pub children: Vec<Flow>,
}

/// The mathematical mirror of a flow tree.
pub ghost struct FlowModel {
    pub damage: u8,
    pub abs: bool,
    pub float: bool,
    pub children: Seq<FlowModel>,
}

impl Flow {
    /// The tree as a mathematical value.
    pub open spec fn view(&self) -> FlowModel
        decreases *self,
    {
        FlowModel {
            damage: self.restyle_damage.0,
            abs: self.is_absolutely_positioned,
            float: self.is_float,
            children: models_of(self.children@),
        }
    }
}

/// The models of a list of sibling flows, in order.
pub open spec fn models_of(cs: Seq<Flow>) -> Seq<FlowModel>
    decreases cs,
{
    if cs.len() == 0 {
        Seq::<FlowModel>::empty()
    } else {
        seq![cs.first().view()] + models_of(cs.drop_first())
    }
}

/// Indexing into the models of a list matches modelling the indexed flow.
pub proof fn lemma_models_of_index(cs: Seq<Flow>, i: int)
    requires
        0 <= i < cs.len(),
    ensures
        models_of(cs).len() == cs.len(),
        models_of(cs)[i] == cs[i].view(),
    decreases cs,
{
    lemma_models_of_len(cs);
    if i == 0 {
    } else {
        lemma_models_of_index(cs.drop_first(), i - 1);
    }
}

/// A list of flows and its models have the same length.
pub proof fn lemma_models_of_len(cs: Seq<Flow>)
    ensures
        models_of(cs).len() == cs.len(),
    decreases cs,
{
    if cs.len() > 0 {
        lemma_models_of_len(cs.drop_first());
    }
}

/// The damage-propagation pass over one flow whose parent contributes
/// `extra` damage: the flow's damage is joined with `extra`, each child is
/// processed in order — seeing the damage accumulated so far — and the
/// child's result is propagated back up; finally a floated flow whose
/// damage demands a reflow escalates to a whole-document reflow. Returns
/// the rewritten tree and the special damage.
pub open spec fn spec_compute_layout_damage(m: FlowModel, extra: u8) -> (FlowModel, u8)
    decreases m,
{
    let d0 = m.damage | extra;
    let (children2, d2, sp) = spec_compute_children(m.children, d0, m.abs);
    let sp2 = if m.float && (d2 & REFLOW != 0) {
        sp | REFLOW_ENTIRE_DOCUMENT
    } else {
        sp
    };
    (FlowModel { damage: d2, abs: m.abs, float: m.float, children: children2 }, sp2)
}

/// Processes a list of sibling flows in order, threading the parent's
/// accumulated damage through: each child receives its share of the damage
/// so far, is recursively processed, and contributes back the part of its
/// damage that propagates to parents.
pub open spec fn spec_compute_children(cs: Seq<FlowModel>, d: u8, self_abs: bool) -> (
    Seq<FlowModel>,
    u8,
    u8,
)
    decreases cs,
{
    if cs.len() == 0 {
        (cs, d, 0)
    } else {
        let kid = cs.first();
        let (kid2, kid_sp) = spec_compute_layout_damage(
            kid,
            spec_damage_for_child(d, self_abs, kid.abs),
        );
        let d1 = d | spec_damage_for_parent(kid2.damage, kid.abs);
        let (rest2, d2, rest_sp) = spec_compute_children(cs.drop_first(), d1, self_abs);
        (seq![kid2] + rest2, d2, kid_sp | rest_sp)
    }
}

proof fn lemma_u8_or_zero(x: u8)
    ensures
        0u8 | x == x,
        x | 0u8 == x,
{
    assert(0u8 | x == x && x | 0u8 == x) by (bit_vector);
}

proof fn lemma_u8_or_assoc(a: u8, b: u8, c: u8)
    ensures
        (a | b) | c == a | (b | c),
{
    assert((a | b) | c == a | (b | c)) by (bit_vector);
}

/// Appending a flow to a list appends its model to the models.
proof fn lemma_models_of_push(cs: Seq<Flow>, x: Flow)
    ensures
        models_of(cs.push(x)) == models_of(cs).push(x.view()),
    decreases cs,
{
    let p = cs.push(x);
    if cs.len() == 0 {
        assert(p.first() == x);
        assert(p.drop_first() =~= Seq::<Flow>::empty());
        assert(models_of(p.drop_first()) =~= Seq::<FlowModel>::empty());
        assert(models_of(p) =~= models_of(cs).push(x.view()));
    } else {
        lemma_models_of_push(cs.drop_first(), x);
        assert(p.first() == cs.first());
        assert(p.drop_first() =~= cs.drop_first().push(x));
        assert(models_of(p) =~= models_of(cs).push(x.view()));
    }
}

/// The layout actions that may be necessary after restyling, computed over
/// a whole flow tree.
pub trait LayoutDamageComputation {
    /// Propagates restyle damage through the tree and reports whatever
    /// damage escapes the incremental machinery.
    fn compute_layout_damage(&mut self) -> SpecialRestyleDamage;

    /// Marks the whole tree as needing reflow (but not reconstruction).
    fn reflow_entire_document(&mut self);
}

/// The model of a tree after `reflow_entire_document`: every node carries
/// all damage except reconstruction; nothing else changes.
pub open spec fn spec_reflow_entire_document(m: FlowModel) -> FlowModel
    decreases m,
{
    FlowModel {
        damage: (m.damage | ALL_DAMAGE) & !RECONSTRUCT_FLOW,
        abs: m.abs,
        float: m.float,
        children: spec_reflow_children(m.children),
    }
}

/// `spec_reflow_entire_document` applied to each of a list of siblings.
pub open spec fn spec_reflow_children(cs: Seq<FlowModel>) -> Seq<FlowModel>
    decreases cs,
{
    if cs.len() == 0 {
        cs
    } else {
        seq![spec_reflow_entire_document(cs.first())] + spec_reflow_children(cs.drop_first())
    }
}

impl Flow {
    /// One step of the damage-propagation pass, with `extra` damage
    /// contributed by this flow's parent.
    #[verifier::loop_isolation(false)]
    fn compute_layout_damage_with(&mut self, extra: u8) -> (special: SpecialRestyleDamage)
        ensures
            final(self).view() == spec_compute_layout_damage(old(self).view(), extra).0,
            special.0 == spec_compute_layout_damage(old(self).view(), extra).1,
        decreases *old(self),
    {
        let self_abs = self.is_absolutely_positioned;
        let mut damage = self.restyle_damage;
        damage.insert(RestyleDamage(extra));
        let ghost d0: u8 = damage.0;
        let mut special: u8 = 0;
        let n = self.children.len();
        let ghost orig_cs = self.children@;
        let ghost whole = spec_compute_children(models_of(orig_cs), d0, self_abs);
        let mut i: usize = 0;
        proof {
            lemma_models_of_len(orig_cs);
            assert(models_of(orig_cs).skip(0) =~= models_of(orig_cs));
            assert(self.children@.take(0) =~= Seq::<Flow>::empty());
            assert(models_of(Seq::<Flow>::empty()) =~= Seq::<FlowModel>::empty());
            assert(Seq::<FlowModel>::empty() + whole.0 =~= whole.0);
            lemma_u8_or_zero(spec_compute_children(models_of(orig_cs), d0, self_abs).2);
        }
        while i < n
            invariant
                0 <= i <= n,
                self.children@.len() == n,
                self.restyle_damage == old(self).restyle_damage,
                self.is_absolutely_positioned == old(self).is_absolutely_positioned,
                self.is_float == old(self).is_float,
                forall|j: int| i <= j < n ==> self.children@[j] == orig_cs[j],
                whole.0 == models_of(self.children@.take(i as int)) + spec_compute_children(
                    models_of(orig_cs).skip(i as int),
                    damage.0,
                    self_abs,
                ).0,
                whole.1 == spec_compute_children(
                    models_of(orig_cs).skip(i as int),
                    damage.0,
                    self_abs,
                ).1,
                whole.2 == special | spec_compute_children(
                    models_of(orig_cs).skip(i as int),
                    damage.0,
                    self_abs,
                ).2,
            decreases n - i,
        {
            let ghost ms = models_of(orig_cs).skip(i as int);
            let ghost rest = spec_compute_children(ms, damage.0, self_abs);
            proof {
                lemma_models_of_index(orig_cs, i as int);
                assert(ms.first() == orig_cs[i as int].view());
                assert(ms.drop_first() =~= models_of(orig_cs).skip(i as int + 1));
            }
            let kid_abs = self.children[i].is_absolutely_positioned;
            let kid_extra = damage.damage_for_child(self_abs, kid_abs);
            proof {
                assert(kid_extra.0 == spec_damage_for_child(damage.0, self_abs, kid_abs));
                assert(orig_cs[i as int].view().abs == kid_abs);
            }
            let ghost damage_before = damage;
            let ghost special_before: u8 = special;
            let ghost prefix = self.children@.take(i as int);
            let kid = crate::vec_util::vec_index_mut(&mut self.children, i);
            proof {
                assert(*kid == orig_cs[i as int]);
            }
            let kid_special = kid.compute_layout_damage_with(kid_extra.0);
            let parent_add = kid.restyle_damage.damage_for_parent(kid_abs);
            damage.insert(parent_add);
            special = special | kid_special.0;
            proof {
                let kid_model2 = spec_compute_layout_damage(
                    orig_cs[i as int].view(),
                    spec_damage_for_child(damage_before.0, self_abs, kid_abs),
                );
                assert(final(kid).view() == kid_model2.0);
                assert(kid_special.0 == kid_model2.1);
                assert(parent_add.0 == spec_damage_for_parent(kid_model2.0.damage, kid_abs));
                assert(damage.0 == damage_before.0 | spec_damage_for_parent(
                    kid_model2.0.damage,
                    kid_abs,
                ));
                // Unfold one step of the remaining fold.
                assert(rest.0 == seq![kid_model2.0] + spec_compute_children(
                    models_of(orig_cs).skip(i as int + 1),
                    damage.0,
                    self_abs,
                ).0);
                assert(rest.1 == spec_compute_children(
                    models_of(orig_cs).skip(i as int + 1),
                    damage.0,
                    self_abs,
                ).1);
                assert(rest.2 == kid_model2.1 | spec_compute_children(
                    models_of(orig_cs).skip(i as int + 1),
                    damage.0,
                    self_abs,
                ).2);
                // The processed prefix grows by the rewritten kid.
                assert(self.children@.take(i as int + 1) =~= prefix.push(
                    self.children@[i as int],
                ));
                lemma_models_of_push(prefix, self.children@[i as int]);
                assert(models_of(self.children@.take(i as int + 1)) + spec_compute_children(
                    models_of(orig_cs).skip(i as int + 1),
                    damage.0,
                    self_abs,
                ).0 =~= models_of(prefix) + rest.0);
                lemma_u8_or_assoc(
                    special_before,
                    kid_model2.1,
                    spec_compute_children(
                        models_of(orig_cs).skip(i as int + 1),
                        damage.0,
                        self_abs,
                    ).2,
                );
            }
            i = i + 1;
        }
        proof {
            assert(models_of(orig_cs).skip(n as int) =~= Seq::<FlowModel>::empty());
            assert(self.children@.take(n as int) =~= self.children@);
            lemma_u8_or_zero(special);
        }
        self.restyle_damage = damage;
        let special_damage = if self.is_float && damage.intersects(RestyleDamage(REFLOW)) {
            SpecialRestyleDamage(special | REFLOW_ENTIRE_DOCUMENT)
        } else {
            SpecialRestyleDamage(special)
        };
        proof {
            assert(models_of(self.children@) =~= whole.0);
        }
        special_damage
    }

    /// Marks this whole subtree as needing reflow, but not reconstruction.
    #[verifier::loop_isolation(false)]
    fn reflow_whole_subtree(&mut self)
        ensures
            final(self).view() == spec_reflow_entire_document(old(self).view()),
        decreases *old(self),
    {
        self.restyle_damage.insert(RestyleDamage(ALL_DAMAGE));
        self.restyle_damage.remove(RestyleDamage(RECONSTRUCT_FLOW));
        let n = self.children.len();
        let ghost orig_cs = old(self).children@;
        let mut i: usize = 0;
        proof {
            lemma_models_of_len(orig_cs);
            assert(self.children@.take(0) =~= Seq::<Flow>::empty());
            assert(models_of(Seq::<Flow>::empty()) =~= Seq::<FlowModel>::empty());
        }
        while i < n
            invariant
                0 <= i <= n,
                self.children@.len() == n,
                self.restyle_damage.0 == (old(self).restyle_damage.0 | ALL_DAMAGE)
                    & !RECONSTRUCT_FLOW,
                self.is_absolutely_positioned == old(self).is_absolutely_positioned,
                self.is_float == old(self).is_float,
                forall|j: int| i <= j < n ==> self.children@[j] == orig_cs[j],
                models_of(self.children@.take(i as int)) == spec_reflow_children(
                    models_of(orig_cs),
                ).take(i as int),
            decreases n - i,
        {
            let ghost prefix = self.children@.take(i as int);
            proof {
                lemma_models_of_index(orig_cs, i as int);
                lemma_reflow_children_index(models_of(orig_cs), i as int);
            }
            let kid = crate::vec_util::vec_index_mut(&mut self.children, i);
            proof {
                assert(*kid == orig_cs[i as int]);
            }
            kid.reflow_whole_subtree();
            proof {
                assert(self.children@.take(i as int + 1) =~= prefix.push(
                    self.children@[i as int],
                ));
                lemma_models_of_push(prefix, self.children@[i as int]);
                assert(models_of(self.children@.take(i as int + 1)) =~= spec_reflow_children(
                    models_of(orig_cs),
                ).take(i as int + 1));
            }
            i = i + 1;
        }
        proof {
            assert(self.children@.take(n as int) =~= self.children@);
            lemma_reflow_children_len(models_of(orig_cs));
            assert(models_of(self.children@) =~= spec_reflow_children(models_of(orig_cs)));
        }
    }
}

/// The reflowed models of siblings, indexed.
proof fn lemma_reflow_children_index(cs: Seq<FlowModel>, i: int)
    requires
        0 <= i < cs.len(),
    ensures
        spec_reflow_children(cs).len() == cs.len(),
        spec_reflow_children(cs)[i] == spec_reflow_entire_document(cs[i]),
    decreases cs,
{
    lemma_reflow_children_len(cs);
    if i > 0 {
        lemma_reflow_children_index(cs.drop_first(), i - 1);
    }
}

proof fn lemma_reflow_children_len(cs: Seq<FlowModel>)
    ensures
        spec_reflow_children(cs).len() == cs.len(),
    decreases cs,
{
    if cs.len() > 0 {
        lemma_reflow_children_len(cs.drop_first());
    }
}

impl LayoutDamageComputation for Flow {
    fn compute_layout_damage(&mut self) -> SpecialRestyleDamage {
        self.compute_layout_damage_with(0)
    }

    fn reflow_entire_document(&mut self) {
        self.reflow_whole_subtree();
    }
}

/// The damage flag tested at position `i` of the written-out order.
pub open spec fn damage_part_flag(i: int) -> u8 {
    if i == 0 {
        REPAINT
    } else if i == 1 {
        BUBBLE_ISIZES
    } else if i == 2 {
        REFLOW_OUT_OF_FLOW
    } else if i == 3 {
        REFLOW
    } else {
        RECONSTRUCT_FLOW
    }
}

/// The name written for the damage flag at position `i`.
pub open spec fn damage_part_name(i: int) -> Seq<char> {
    if i == 0 {
        "Repaint"@
    } else if i == 1 {
        "BubbleISizes"@
    } else if i == 2 {
        "ReflowOutOfFlow"@
    } else if i == 3 {
        "Reflow"@
    } else {
        "ReconstructFlow"@
    }
}

/// The names of the damage flags set in `d` from position `i` on, joined
/// by `" | "`; `first` records whether no name has been written yet.
pub open spec fn damage_parts(d: u8, i: int, first: bool) -> Seq<char>
    decreases 5 - i,
{
    if i < 0 || i >= 5 {
        Seq::<char>::empty()
    } else if d & damage_part_flag(i) == damage_part_flag(i) {
        (if first {
            damage_part_name(i)
        } else {
            " | "@ + damage_part_name(i)
        }) + damage_parts(d, i + 1, false)
    } else {
        damage_parts(d, i + 1, first)
    }
}

/// How a damage value is written out: the names of its flags joined by
/// `" | "`, or `"NoDamage"` when none is set.
pub open spec fn spec_damage_description(d: u8) -> Seq<char> {
    if d & ALL_DAMAGE == 0 {
        "NoDamage"@
    } else {
        damage_parts(d, 0, true)
    }
}

fn append_damage_part(out: &mut String, first_elem: &mut bool, present: bool, name: &str)
    ensures
        present ==> final(out)@ == old(out)@ + (if *old(first_elem) {
            name@
        } else {
            " | "@ + name@
        }) && *final(first_elem) == false,
        !present ==> final(out)@ == old(out)@ && *final(first_elem) == *old(first_elem),
{
    if present {
        if !*first_elem {
            out.append(" | ");
        }
        out.append(name);
        *first_elem = false;
    }
}

proof fn lemma_damage_flags_cover(d: u8)
    ensures
        (d & ALL_DAMAGE == 0) <==> (d & REPAINT != REPAINT && d & BUBBLE_ISIZES != BUBBLE_ISIZES
            && d & REFLOW_OUT_OF_FLOW != REFLOW_OUT_OF_FLOW && d & REFLOW != REFLOW && d
            & RECONSTRUCT_FLOW != RECONSTRUCT_FLOW),
{
    assert((d & 0x1F == 0) <==> (d & 0x01 != 0x01 && d & 0x02 != 0x02 && d & 0x04 != 0x04 && d
        & 0x08 != 0x08 && d & 0x10 != 0x10)) by (bit_vector);
}

impl RestyleDamage {
    /// Writes the damage out as the names of its flags joined by `" | "`,
    /// or `"NoDamage"` when none is set.
    #[verifier::rlimit(50)]
    pub fn description(self) -> (r: String)
        ensures
            r@ == spec_damage_description(self.0),
    {
        let mut out = String::new();
        let mut first_elem = true;

        let ghost d = self.0;
        proof {
            assert(out@ + damage_parts(d, 0, true) =~= damage_parts(d, 0, true));
        }
        let present = self.contains(RestyleDamage(REPAINT));
        append_damage_part(&mut out, &mut first_elem, present, "Repaint");
        proof {
            assert(out@ + damage_parts(d, 1, first_elem) =~= damage_parts(d, 0, true));
        }
        let present = self.contains(RestyleDamage(BUBBLE_ISIZES));
        append_damage_part(&mut out, &mut first_elem, present, "BubbleISizes");
        proof {
            assert(out@ + damage_parts(d, 2, first_elem) =~= damage_parts(d, 0, true));
        }
        let present = self.contains(RestyleDamage(REFLOW_OUT_OF_FLOW));
        append_damage_part(&mut out, &mut first_elem, present, "ReflowOutOfFlow");
        proof {
            assert(out@ + damage_parts(d, 3, first_elem) =~= damage_parts(d, 0, true));
        }
        let present = self.contains(RestyleDamage(REFLOW));
        append_damage_part(&mut out, &mut first_elem, present, "Reflow");
        proof {
            assert(out@ + damage_parts(d, 4, first_elem) =~= damage_parts(d, 0, true));
        }
        let present = self.contains(RestyleDamage(RECONSTRUCT_FLOW));
        append_damage_part(&mut out, &mut first_elem, present, "ReconstructFlow");
        proof {
            assert(out@ + damage_parts(d, 5, first_elem) =~= damage_parts(d, 0, true));
            assert(damage_parts(d, 5, first_elem) =~= Seq::<char>::empty());
            assert(out@ =~= damage_parts(d, 0, true));
            lemma_damage_flags_cover(d);
        }

        if first_elem {
            let ghost before = out@;
            out.append("NoDamage");
            proof {
                assert(before =~= Seq::<char>::empty());
                assert(out@ =~= "NoDamage"@);
            }
        }
        out
    }
}

} // verus!
