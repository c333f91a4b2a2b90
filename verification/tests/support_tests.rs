use paint_pipeline::compositor_msg::{Color, LayerId, PaintLayer, ScrollPolicy};
use paint_pipeline::display_list::{build_layer_metadata, StackingContext};
use paint_pipeline::geometry::{rect_au, Au};
use paint_pipeline::incremental::{
    RestyleDamage, ALL_DAMAGE, BUBBLE_ISIZES, RECONSTRUCT_FLOW, REFLOW, REFLOW_OUT_OF_FLOW,
    REPAINT,
};
use paint_pipeline::layers::{BufferRequest, ScaleFactor};
use paint_pipeline::pointing::{eq_ignore_ascii_case, get_initial_value, parse, Cursor, T};
use paint_pipeline::rpc::{MarginStyleResponse, MarginValue, OffsetParentResponse};
use paint_pipeline::task_state;
use paint_pipeline::task_state::{TaskState, TaskStateSlot, IN_GC, LAYOUT, RENDER, SCRIPT};
use paint_pipeline::worker::{WorkerThread, WorkerThreadProxy};

#[test]
fn to_nearest_px_rounds_halves_away_from_zero() {
    assert_eq!(Au(0).to_nearest_px(), 0);
    assert_eq!(Au(29).to_nearest_px(), 0);
    assert_eq!(Au(30).to_nearest_px(), 1);
    assert_eq!(Au(60).to_nearest_px(), 1);
    assert_eq!(Au(89).to_nearest_px(), 1);
    assert_eq!(Au(90).to_nearest_px(), 2);
    assert_eq!(Au(-29).to_nearest_px(), 0);
    assert_eq!(Au(-30).to_nearest_px(), -1);
    assert_eq!(Au(-90).to_nearest_px(), -2);
}

fn gray() -> Color {
    Color { r: 128, g: 128, b: 128, a: 255 }
}

#[test]
fn layer_metadata_accumulates_positions_depth_first() {
    let grandchild = StackingContext {
        bounds: rect_au(60, 60, 0, 0),
        overflow: rect_au(0, 0, 600, 300),
        layer: Some(PaintLayer::new(LayerId(2, 0), gray(), ScrollPolicy::FixedPosition)),
        children: Vec::new(),
    };
    let child = StackingContext {
        bounds: rect_au(120, 180, 0, 0),
        overflow: rect_au(0, 0, 0, 0),
        layer: None,
        children: vec![grandchild],
    };
    let root = StackingContext {
        bounds: rect_au(60, 120, 0, 0),
        overflow: rect_au(30, -30, 600, 300),
        layer: Some(PaintLayer::new(LayerId(1, 0), gray(), ScrollPolicy::Scrollable)),
        children: vec![child],
    };
    let metadata = build_layer_metadata(&root);
    assert_eq!(metadata.len(), 2);

    // Root layer: page position (60, 120) plus overflow origin (30, -30),
    // rounded to the nearest pixel.
    assert_eq!(metadata[0].id, LayerId(1, 0));
    assert_eq!(metadata[0].position.origin.x, 2); // (60 + 30) / 60 rounded
    assert_eq!(metadata[0].position.origin.y, 2); // (120 - 30) / 60 rounded
    assert_eq!(metadata[0].position.size.width, 10);
    assert_eq!(metadata[0].position.size.height, 5);
    assert_eq!(metadata[0].scroll_policy, ScrollPolicy::Scrollable);

    // Grandchild layer: offsets accumulate down the tree:
    // 60 + 120 + 60 = 240 -> 4 px; 120 + 180 + 60 = 360 -> 6 px.
    assert_eq!(metadata[1].id, LayerId(2, 0));
    assert_eq!(metadata[1].position.origin.x, 4);
    assert_eq!(metadata[1].position.origin.y, 6);
    assert_eq!(metadata[1].scroll_policy, ScrollPolicy::FixedPosition);
}

#[test]
fn find_stacking_context_searches_depth_first() {
    let target = StackingContext {
        bounds: rect_au(0, 0, 0, 0),
        overflow: rect_au(0, 0, 0, 0),
        layer: Some(PaintLayer::new(LayerId(3, 3), gray(), ScrollPolicy::Scrollable)),
        children: Vec::new(),
    };
    let root = StackingContext {
        bounds: rect_au(0, 0, 0, 0),
        overflow: rect_au(0, 0, 0, 0),
        layer: None,
        children: vec![target],
    };
    assert!(root.find_stacking_context_with_layer_id(LayerId(3, 3)).is_some());
    assert!(root.find_stacking_context_with_layer_id(LayerId(4, 4)).is_none());
}

#[test]
fn worker_pool_size_follows_backend() {
    assert_eq!(WorkerThreadProxy::spawn(4, false).len(), 4);
    assert_eq!(WorkerThreadProxy::spawn(4, true).len(), 1);
}

fn small_tile() -> BufferRequest {
    BufferRequest::new(
        rect_au(0, 0, 240, 240),
        paint_pipeline::geometry::Rect {
            origin: paint_pipeline::geometry::Point2D { x: 0, y: 0 },
            size: paint_pipeline::geometry::Size2D { width: 4, height: 4 },
        },
        5,
    )
}

fn plain_context() -> StackingContext {
    StackingContext {
        bounds: rect_au(0, 0, 240, 240),
        overflow: rect_au(0, 0, 240, 240),
        layer: None,
        children: Vec::new(),
    }
}

#[test]
fn cpu_paint_copies_pixels_into_reused_buffer() {
    let mut worker = WorkerThread::new(false);
    let mut ctx = paint_pipeline::layers::NativePaintingGraphicsContext::new();
    let mut surface = ctx.create_surface(paint_pipeline::geometry::Size2D {
        width: 4,
        height: 4,
    });
    // Dirty the reusable buffer's pixels so the upload is observable.
    surface.data = vec![7u8; 64];
    let reusable = paint_pipeline::layers::LayerBuffer {
        native_surface: surface,
        rect: rect_au(0, 0, 240, 240),
        screen_pos: paint_pipeline::geometry::Rect {
            origin: paint_pipeline::geometry::Point2D { x: 0, y: 0 },
            size: paint_pipeline::geometry::Size2D { width: 4, height: 4 },
        },
        resolution: ScaleFactor(1000),
        stride: 16,
        painted_with_cpu: true,
        content_age: 5,
    };
    let id = reusable.native_surface.id;
    let result = worker.paint_tile_job(
        &small_tile(),
        Some(reusable),
        &plain_context(),
        ScaleFactor(1000),
    );
    assert!(result.painted_with_cpu);
    // The pixel copy overwrote the dirty bytes with the cleared target's.
    assert_eq!(result.native_surface.data, vec![0u8; 64]);
    // The reused surface keeps its identity: no new native resource.
    assert_eq!(result.native_surface.id, id);
}

#[test]
fn gpu_paint_steals_resource_without_copy() {
    let mut worker = WorkerThread::new(true);
    let result = worker.paint_tile_job(&small_tile(), None, &plain_context(), ScaleFactor(1500));
    assert!(!result.painted_with_cpu);
    // The surface is the draw target's own resource, minted by this
    // worker's context (its first identity), not a copy into a buffer.
    assert_eq!(result.native_surface.id, 0);
    assert_eq!(result.resolution, ScaleFactor(1500));
    assert_eq!(result.content_age, 5);
    let second = worker.paint_tile_job(&small_tile(), None, &plain_context(), ScaleFactor(1500));
    assert_eq!(second.native_surface.id, 1);
}

#[test]
fn damage_for_parent_filters_flags() {
    let damage = RestyleDamage(REPAINT | BUBBLE_ISIZES | REFLOW | RECONSTRUCT_FLOW);
    assert_eq!(damage.damage_for_parent(false).0, REPAINT | REFLOW);
    assert_eq!(damage.damage_for_parent(true).0, REPAINT);
    let damage = RestyleDamage(REFLOW_OUT_OF_FLOW | RECONSTRUCT_FLOW);
    assert_eq!(damage.damage_for_parent(true).0, REFLOW_OUT_OF_FLOW);
}

#[test]
fn damage_for_child_respects_positioning() {
    let damage = RestyleDamage(REPAINT | REFLOW | RECONSTRUCT_FLOW);
    // Absolute children are insulated from all but repaints.
    assert_eq!(damage.damage_for_child(false, true).0, REPAINT);
    // In-flow to in-flow: repaint and reflow propagate.
    assert_eq!(damage.damage_for_child(false, false).0, REPAINT | REFLOW);
    // A moved absolute parent reflows its in-flow kids.
    let damage = RestyleDamage(REFLOW_OUT_OF_FLOW);
    assert_eq!(
        damage.damage_for_child(true, false).0,
        REFLOW_OUT_OF_FLOW | REFLOW
    );
    let damage = RestyleDamage(REPAINT);
    assert_eq!(damage.damage_for_child(true, false).0, REPAINT);
}

#[test]
fn task_state_tracks_nested_states() {
    let mut slot = TaskStateSlot::empty();
    task_state::initialize(&mut slot, TaskState(SCRIPT));
    let state = task_state::get(&slot);
    assert!(state.is_script());
    assert!(!state.is_layout());
    assert!(!state.is_render());

    task_state::enter(&mut slot, TaskState(IN_GC));
    assert!(task_state::get(&slot).contains(TaskState(IN_GC)));
    task_state::exit(&mut slot, TaskState(IN_GC));
    assert!(!task_state::get(&slot).contains(TaskState(IN_GC)));
    assert!(task_state::get(&slot).is_script());
}

#[test]
fn task_state_type_flags_are_exclusive() {
    let mut slot = TaskStateSlot::empty();
    task_state::initialize(&mut slot, TaskState(RENDER));
    let state = task_state::get(&slot);
    assert!(state.is_render());
    assert!(!state.intersects(TaskState(SCRIPT | LAYOUT)));
}

#[test]
fn cursor_initial_value_is_auto() {
    assert_eq!(get_initial_value(), T::AutoCursor);
}

#[test]
fn rpc_empty_responses() {
    let offset = OffsetParentResponse::empty();
    assert!(offset.node_address.is_none());
    assert_eq!(offset.rect.size.width, Au(0));
    let margins = MarginStyleResponse::empty();
    assert_eq!(margins.top, MarginValue::Auto);
    assert_eq!(margins.right, MarginValue::Auto);
    assert_eq!(margins.bottom, MarginValue::Auto);
    assert_eq!(margins.left, MarginValue::Auto);
}

#[test]
fn cursor_values_write_their_css_keywords() {
    assert_eq!(get_initial_value().to_css_string(), "auto");
    assert_eq!(T::SpecifiedCursor(Cursor::ZoomInCursor).to_css_string(), "zoom-in");
    assert_eq!(T::SpecifiedCursor(Cursor::NoCursor).to_css_string(), "none");
    assert_eq!(
        T::SpecifiedCursor(Cursor::VerticalTextCursor).to_css_string(),
        "vertical-text"
    );
}

#[test]
fn damage_description_joins_flag_names() {
    assert_eq!(RestyleDamage(0).description(), "NoDamage");
    assert_eq!(RestyleDamage(REPAINT).description(), "Repaint");
    assert_eq!(RestyleDamage(REPAINT | REFLOW).description(), "Repaint | Reflow");
    assert_eq!(
        RestyleDamage(ALL_DAMAGE).description(),
        "Repaint | BubbleISizes | ReflowOutOfFlow | Reflow | ReconstructFlow"
    );
}

#[test]
fn cursor_parse_accepts_keywords_case_insensitively() {
    assert_eq!(parse("auto"), Ok(T::AutoCursor));
    assert_eq!(parse("AUTO"), Ok(T::AutoCursor));
    assert_eq!(parse("Auto"), Ok(T::AutoCursor));
    assert_eq!(parse("pointer"), Ok(T::SpecifiedCursor(Cursor::PointerCursor)));
    assert_eq!(
        parse("NE-Resize"),
        Ok(T::SpecifiedCursor(Cursor::NeResizeCursor))
    );
    assert_eq!(parse("zoom-out"), Ok(T::SpecifiedCursor(Cursor::ZoomOutCursor)));
    assert_eq!(parse("banana"), Err(()));
    assert_eq!(parse(""), Err(()));
    assert_eq!(parse("aut"), Err(()));
}

#[test]
fn ascii_case_insensitive_comparison() {
    assert!(eq_ignore_ascii_case("Wait", "wAIT"));
    assert!(!eq_ignore_ascii_case("wait", "waits"));
    assert!(!eq_ignore_ascii_case("wait", "wart"));
    assert!(eq_ignore_ascii_case("", ""));
}
