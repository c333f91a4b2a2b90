use paint_pipeline::compositor_msg::Color;
use paint_pipeline::geometry::Au;
use paint_pipeline::incremental::{
    compute_damage, ComputedValues, Display, Float, Flow, FontFamilyId, FontStyle,
    LayoutDamageComputation, LengthOrPercentageOrAuto, LineHeight, Position, RestyleDamage,
    TextAlign, ALL_DAMAGE, BUBBLE_ISIZES, RECONSTRUCT_FLOW, REFLOW, REFLOW_ENTIRE_DOCUMENT,
    REFLOW_OUT_OF_FLOW, REPAINT,
};

fn color(r: u8) -> Color {
    Color { r, g: 0, b: 0, a: 255 }
}

fn base_style() -> ComputedValues {
    ComputedValues {
        color: color(0),
        background_color: color(1),
        border_top_color: color(2),
        border_right_color: color(3),
        border_bottom_color: color(4),
        border_left_color: color(5),
        top: LengthOrPercentageOrAuto::Auto,
        left: LengthOrPercentageOrAuto::Auto,
        right: LengthOrPercentageOrAuto::Auto,
        bottom: LengthOrPercentageOrAuto::Auto,
        border_top_width: Au(0),
        border_right_width: Au(0),
        border_bottom_width: Au(0),
        border_left_width: Au(0),
        margin_top: LengthOrPercentageOrAuto::Length(Au(60)),
        margin_right: LengthOrPercentageOrAuto::Length(Au(60)),
        margin_bottom: LengthOrPercentageOrAuto::Length(Au(60)),
        margin_left: LengthOrPercentageOrAuto::Length(Au(60)),
        padding_top: LengthOrPercentageOrAuto::Length(Au(0)),
        padding_right: LengthOrPercentageOrAuto::Length(Au(0)),
        padding_bottom: LengthOrPercentageOrAuto::Length(Au(0)),
        padding_left: LengthOrPercentageOrAuto::Length(Au(0)),
        width: LengthOrPercentageOrAuto::Auto,
        height: LengthOrPercentageOrAuto::Auto,
        font_family: FontFamilyId(1),
        font_size: Au(960),
        font_style: FontStyle::Normal,
        font_weight: 400,
        text_align: TextAlign::Start,
        text_decoration: 0,
        line_height: LineHeight::Normal,
        float: Float::NoFloat,
        display: Display::Block,
        position: Position::Static,
    }
}

#[test]
fn first_style_needs_all_damage() {
    let damage = compute_damage(&None, &base_style());
    assert_eq!(damage.0, ALL_DAMAGE);
}

#[test]
fn unchanged_style_needs_no_damage() {
    let damage = compute_damage(&Some(base_style()), &base_style());
    assert_eq!(damage.0, 0);
}

#[test]
fn color_change_needs_repaint_only() {
    let mut new = base_style();
    new.background_color = color(99);
    let damage = compute_damage(&Some(base_style()), &new);
    assert_eq!(damage.0, REPAINT);
}

#[test]
fn offset_change_reflows_out_of_flow() {
    let mut new = base_style();
    new.top = LengthOrPercentageOrAuto::Length(Au(120));
    let damage = compute_damage(&Some(base_style()), &new);
    assert_eq!(damage.0, REPAINT | REFLOW_OUT_OF_FLOW);
}

#[test]
fn margin_change_reflows() {
    let mut new = base_style();
    new.margin_left = LengthOrPercentageOrAuto::Auto;
    let damage = compute_damage(&Some(base_style()), &new);
    assert_eq!(
        damage.0,
        REPAINT | BUBBLE_ISIZES | REFLOW_OUT_OF_FLOW | REFLOW
    );
}

#[test]
fn display_change_reconstructs_flow() {
    let mut new = base_style();
    new.display = Display::Inline;
    let damage = compute_damage(&Some(base_style()), &new);
    assert_eq!(damage.0, ALL_DAMAGE);
}

fn leaf(damage: u8, abs: bool, float: bool) -> Flow {
    Flow {
        restyle_damage: RestyleDamage(damage),
        is_absolutely_positioned: abs,
        is_float: float,
        children: Vec::new(),
    }
}

#[test]
fn layout_damage_propagates_between_parent_and_children() {
    // The parent's reflow damage reaches the in-flow child but not the
    // absolutely-positioned one; the child's reflow damage reaches the
    // parent.
    let mut root = Flow {
        restyle_damage: RestyleDamage(REFLOW),
        is_absolutely_positioned: false,
        is_float: false,
        children: vec![leaf(0, true, false), leaf(REFLOW, false, false)],
    };
    let special = root.compute_layout_damage();
    assert_eq!(special.0, 0);
    // Absolute child: only the repaint part of the parent's damage, none
    // of which is set here.
    assert_eq!(root.children[0].restyle_damage.0, 0);
    // In-flow child receives the reflow.
    assert_eq!(root.children[1].restyle_damage.0, REFLOW);
    assert_eq!(root.restyle_damage.0, REFLOW);
}

#[test]
fn floated_flow_with_reflow_escalates_to_whole_document() {
    let mut root = Flow {
        restyle_damage: RestyleDamage(0),
        is_absolutely_positioned: false,
        is_float: false,
        children: vec![leaf(REFLOW, false, true)],
    };
    let special = root.compute_layout_damage();
    assert_eq!(special.0, REFLOW_ENTIRE_DOCUMENT);
    // The child's reflow propagated to the parent too.
    assert_eq!(root.restyle_damage.0, REFLOW);
}

#[test]
fn reflow_entire_document_marks_all_but_reconstruction() {
    let mut root = Flow {
        restyle_damage: RestyleDamage(RECONSTRUCT_FLOW),
        is_absolutely_positioned: false,
        is_float: false,
        children: vec![leaf(0, false, false), leaf(REPAINT, true, false)],
    };
    root.reflow_entire_document();
    let expected = ALL_DAMAGE & !RECONSTRUCT_FLOW;
    assert_eq!(root.restyle_damage.0, expected);
    assert_eq!(root.children[0].restyle_damage.0, expected);
    assert_eq!(root.children[1].restyle_damage.0, expected);
}
