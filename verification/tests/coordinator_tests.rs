use paint_pipeline::compositor_msg::{
    Color, Epoch, LayerId, PaintLayer, PaintState, PipelineId, ScrollPolicy,
};
use paint_pipeline::display_list::StackingContext;
use paint_pipeline::geometry::{rect_au, Point2D, Rect, Size2D};
use paint_pipeline::layers::{BufferRequest, LayerBuffer, NativeSurface, ScaleFactor};
use paint_pipeline::paint_task::{
    Msg, OutboundMsg, PaintRequest, PaintTask, PipelineExitType, ShutdownState,
};

fn empty_tree() -> StackingContext {
    StackingContext {
        bounds: rect_au(0, 0, 0, 0),
        overflow: rect_au(0, 0, 0, 0),
        layer: None,
        children: Vec::new(),
    }
}

fn black() -> Color {
    Color { r: 0, g: 0, b: 0, a: 255 }
}

fn tree_with_layer(layer_id: LayerId) -> StackingContext {
    StackingContext {
        bounds: rect_au(0, 0, 6000, 6000),
        overflow: rect_au(0, 0, 6000, 6000),
        layer: Some(PaintLayer::new(layer_id, black(), ScrollPolicy::Scrollable)),
        children: Vec::new(),
    }
}

fn tile(x: i64, y: i64, w: i64, h: i64, age: u32) -> BufferRequest {
    BufferRequest::new(
        rect_au(x * 60, y * 60, w * 60, h * 60),
        Rect {
            origin: Point2D { x, y },
            size: Size2D { width: w, height: h },
        },
        age,
    )
}

fn make_buffer(w: i64, h: i64, id: u64) -> LayerBuffer {
    LayerBuffer {
        native_surface: NativeSurface {
            id,
            size: Size2D { width: w, height: h },
            data: vec![0u8; (w * 4 * h) as usize],
            will_leak: false,
        },
        rect: rect_au(0, 0, w * 60, h * 60),
        screen_pos: Rect {
            origin: Point2D { x: 0, y: 0 },
            size: Size2D { width: w, height: h },
        },
        resolution: ScaleFactor(1000),
        stride: (w * 4) as usize,
        painted_with_cpu: true,
        content_age: 0,
    }
}

fn new_cpu_task(workers: usize) -> PaintTask {
    PaintTask::new(PipelineId(1), workers, false, 10_000_000)
}

#[test]
fn init_tree_without_permission_yields_readiness_only() {
    let mut task = new_cpu_task(1);
    let acts = task.handle_msg(Msg::PaintPermissionRevoked);
    assert!(acts.is_empty());
    let acts = task.handle_msg(Msg::PaintInit(empty_tree()));
    assert_eq!(acts.len(), 1);
    assert!(matches!(acts[0], OutboundMsg::PainterReady(PipelineId(1))));
    assert_eq!(task.epoch, Epoch(1));
    assert!(task.root_stacking_context.is_some());
}

#[test]
fn exit_complete_acknowledges_immediately_with_outstanding_buffers() {
    let mut task = new_cpu_task(1);
    task.used_buffer_count = 5;
    let acts = task.handle_msg(Msg::Exit(PipelineExitType::Complete));
    assert_eq!(acts.len(), 1);
    assert!(matches!(acts[0], OutboundMsg::ExitAck));
    assert_eq!(task.shutdown, ShutdownState::Terminated);
}

#[test]
fn exit_pipeline_only_with_zero_counter_acknowledges_immediately() {
    let mut task = new_cpu_task(1);
    let acts = task.handle_msg(Msg::Exit(PipelineExitType::PipelineOnly));
    assert_eq!(acts.len(), 1);
    assert!(matches!(acts[0], OutboundMsg::ExitAck));
    assert_eq!(task.shutdown, ShutdownState::Terminated);
}

#[test]
fn pipeline_exit_drains_outstanding_buffers() {
    let mut task = new_cpu_task(1);
    task.used_buffer_count = 3;
    let acts = task.handle_msg(Msg::Exit(PipelineExitType::PipelineOnly));
    assert!(acts.is_empty());
    assert_eq!(task.shutdown, ShutdownState::Draining);

    let mut acks = 0;
    for id in 0..3u64 {
        let acts = task.handle_msg(Msg::UnusedBuffer(vec![make_buffer(4, 4, id)]));
        acks += acts
            .iter()
            .filter(|a| matches!(a, OutboundMsg::ExitAck))
            .count();
    }
    assert_eq!(acks, 1);
    assert_eq!(task.used_buffer_count, 0);
    assert_eq!(task.shutdown, ShutdownState::Terminated);

    // No further messages are processed afterward.
    let acts = task.handle_msg(Msg::Exit(PipelineExitType::Complete));
    assert!(acts.is_empty());
    let acts = task.handle_msg(Msg::PaintInit(empty_tree()));
    assert!(acts.is_empty());
    assert_eq!(task.epoch, Epoch(0));
}

#[test]
fn draining_processes_only_returned_buffers() {
    let mut task = new_cpu_task(1);
    task.used_buffer_count = 1;
    task.handle_msg(Msg::Exit(PipelineExitType::PipelineOnly));
    assert_eq!(task.shutdown, ShutdownState::Draining);
    let acts = task.handle_msg(Msg::PaintInit(empty_tree()));
    assert!(acts.is_empty());
    assert_eq!(task.epoch, Epoch(0));
    let acts = task.handle_msg(Msg::PaintPermissionGranted);
    assert!(acts.is_empty());
    assert!(!task.paint_permission);
}

fn granted_task_with_layer(workers: usize, layer_id: LayerId) -> PaintTask {
    let mut task = new_cpu_task(workers);
    let acts = task.handle_msg(Msg::PaintPermissionGranted);
    assert!(acts.is_empty());
    let acts = task.handle_msg(Msg::PaintInit(tree_with_layer(layer_id)));
    assert_eq!(acts.len(), 1);
    assert!(matches!(
        acts[0],
        OutboundMsg::InitializeLayersForPipeline(..)
    ));
    task
}

fn reply_buffers(acts: &[OutboundMsg]) -> &Vec<(LayerId, paint_pipeline::layers::LayerBufferSet)> {
    match acts.last().unwrap() {
        OutboundMsg::PaintReply(_, _, replies) => replies,
        _ => panic!("expected a paint reply"),
    }
}

#[test]
fn stale_epoch_batch_paints_nothing() {
    let layer = LayerId(1, 1);
    let mut task = granted_task_with_layer(1, layer);
    assert_eq!(task.epoch, Epoch(1));
    let cache_before = task.used_buffer_count;
    let batch = vec![PaintRequest {
        buffer_requests: vec![tile(0, 0, 4, 4, 9)],
        scale: ScaleFactor(1000),
        layer_id: layer,
        epoch: Epoch(0), // stale
    }];
    let acts = task.handle_msg(Msg::Paint(batch));
    assert_eq!(acts.len(), 3);
    assert!(matches!(
        acts[0],
        OutboundMsg::SetPaintState(_, PaintState::Painting)
    ));
    assert!(matches!(
        acts[1],
        OutboundMsg::SetPaintState(_, PaintState::Idle)
    ));
    let replies = reply_buffers(&acts);
    assert!(replies.is_empty());
    assert_eq!(task.used_buffer_count, cache_before);
}

#[test]
fn unknown_layer_request_is_dropped_silently() {
    let layer = LayerId(1, 1);
    let mut task = granted_task_with_layer(1, layer);
    let batch = vec![PaintRequest {
        buffer_requests: vec![tile(0, 0, 4, 4, 9)],
        scale: ScaleFactor(1000),
        layer_id: LayerId(9, 9), // not in the tree
        epoch: Epoch(1),
    }];
    let acts = task.handle_msg(Msg::Paint(batch));
    let replies = reply_buffers(&acts);
    assert!(replies.is_empty());
    assert_eq!(task.used_buffer_count, 0);
}

#[test]
fn round_robin_preserves_tile_order() {
    // More tiles than workers: the reply order must still be the request
    // order.
    let layer = LayerId(2, 3);
    let mut task = granted_task_with_layer(2, layer);
    let ages = [10u32, 11, 12, 13, 14];
    let tiles: Vec<BufferRequest> = ages
        .iter()
        .enumerate()
        .map(|(i, &age)| tile(i as i64 * 4, 0, 4, 4, age))
        .collect();
    let batch = vec![PaintRequest {
        buffer_requests: tiles.clone(),
        scale: ScaleFactor(1000),
        layer_id: layer,
        epoch: Epoch(1),
    }];
    let acts = task.handle_msg(Msg::Paint(batch));
    let replies = reply_buffers(&acts);
    assert_eq!(replies.len(), 1);
    assert_eq!(replies[0].0, layer);
    let buffers = &replies[0].1.buffers;
    assert_eq!(buffers.len(), 5);
    for (i, buffer) in buffers.iter().enumerate() {
        assert_eq!(buffer.content_age, ages[i]);
        assert_eq!(buffer.screen_pos, tiles[i].screen_rect);
        assert_eq!(buffer.rect, tiles[i].page_rect);
        assert_eq!(buffer.resolution, ScaleFactor(1000));
        assert!(buffer.painted_with_cpu);
    }
    assert_eq!(task.used_buffer_count, 5);
}

#[test]
fn counter_conservation_over_paint_and_return() {
    let layer = LayerId(1, 1);
    let mut task = granted_task_with_layer(2, layer);
    let before = task.used_buffer_count;
    let batch = vec![PaintRequest {
        buffer_requests: (0..4).map(|i| tile(i * 4, 0, 4, 4, 1)).collect(),
        scale: ScaleFactor(1000),
        layer_id: layer,
        epoch: Epoch(1),
    }];
    let acts = task.handle_msg(Msg::Paint(batch));
    let produced: Vec<LayerBuffer> = reply_buffers(&acts)[0].1.buffers.clone();
    assert_eq!(task.used_buffer_count, before + produced.len());

    // Return the buffers in two messages totaling the batch size.
    let k = produced.len();
    let mut iter = produced.into_iter();
    let first: Vec<LayerBuffer> = iter.by_ref().take(1).collect();
    let rest: Vec<LayerBuffer> = iter.collect();
    task.handle_msg(Msg::UnusedBuffer(first));
    task.handle_msg(Msg::UnusedBuffer(rest));
    assert_eq!(k, 4);
    assert_eq!(task.used_buffer_count, before);
}

#[test]
fn returned_buffers_are_reused_for_matching_tiles() {
    let layer = LayerId(1, 1);
    let mut task = granted_task_with_layer(1, layer);
    let batch = vec![PaintRequest {
        buffer_requests: vec![tile(0, 0, 4, 4, 1)],
        scale: ScaleFactor(1000),
        layer_id: layer,
        epoch: Epoch(1),
    }];
    let acts = task.handle_msg(Msg::Paint(batch));
    let produced = reply_buffers(&acts)[0].1.buffers.clone();
    let id = produced[0].native_surface.id;
    task.handle_msg(Msg::UnusedBuffer(produced));

    let batch = vec![PaintRequest {
        buffer_requests: vec![tile(8, 8, 4, 4, 2)],
        scale: ScaleFactor(1000),
        layer_id: layer,
        epoch: Epoch(1),
    }];
    let acts = task.handle_msg(Msg::Paint(batch));
    let produced = reply_buffers(&acts)[0].1.buffers.clone();
    // Same pixel size: the pooled surface is handed out again.
    assert_eq!(produced[0].native_surface.id, id);
    assert_eq!(produced[0].content_age, 2);
}

#[test]
fn paint_without_permission_reports_discarded_batch() {
    let mut task = new_cpu_task(1);
    let acts = task.handle_msg(Msg::Paint(Vec::new()));
    assert_eq!(acts.len(), 2);
    assert!(matches!(acts[0], OutboundMsg::PainterReady(_)));
    assert!(matches!(acts[1], OutboundMsg::PaintMsgDiscarded));
}

#[test]
fn grant_permission_republishes_held_snapshot() {
    let mut task = new_cpu_task(1);
    let acts = task.handle_msg(Msg::PaintInit(tree_with_layer(LayerId(1, 1))));
    assert!(matches!(acts[0], OutboundMsg::PainterReady(_)));
    assert_eq!(task.epoch, Epoch(1));
    let acts = task.handle_msg(Msg::PaintPermissionGranted);
    assert_eq!(acts.len(), 1);
    match &acts[0] {
        OutboundMsg::InitializeLayersForPipeline(pid, metadata, epoch) => {
            assert_eq!(*pid, PipelineId(1));
            assert_eq!(metadata.len(), 1);
            assert_eq!(metadata[0].id, LayerId(1, 1));
            assert_eq!(*epoch, Epoch(2));
        }
        _ => panic!("expected layer metadata initialization"),
    }
    assert!(task.paint_permission);
}

#[test]
fn revoke_permission_keeps_snapshot() {
    let mut task = new_cpu_task(1);
    task.handle_msg(Msg::PaintInit(tree_with_layer(LayerId(1, 1))));
    task.handle_msg(Msg::PaintPermissionGranted);
    let acts = task.handle_msg(Msg::PaintPermissionRevoked);
    assert!(acts.is_empty());
    assert!(!task.paint_permission);
    assert!(task.root_stacking_context.is_some());
    assert_eq!(task.epoch, Epoch(2));
}

#[test]
fn gpu_backend_forces_single_worker_and_clear_cpu_flag() {
    let mut task = PaintTask::new(PipelineId(4), 8, true, 10_000_000);
    assert_eq!(task.worker_threads.len(), 1);
    let layer = LayerId(5, 5);
    task.handle_msg(Msg::PaintPermissionGranted);
    task.handle_msg(Msg::PaintInit(tree_with_layer(layer)));
    let batch = vec![PaintRequest {
        buffer_requests: vec![tile(0, 0, 4, 4, 7), tile(4, 0, 4, 4, 8)],
        scale: ScaleFactor(2000),
        layer_id: layer,
        epoch: Epoch(1),
    }];
    let acts = task.handle_msg(Msg::Paint(batch));
    let buffers = &reply_buffers(&acts)[0].1.buffers;
    assert_eq!(buffers.len(), 2);
    for buffer in buffers.iter() {
        assert!(!buffer.painted_with_cpu);
        assert_eq!(buffer.resolution, ScaleFactor(2000));
    }
    // GPU path steals distinct fresh resources; nothing is pooled.
    assert_ne!(buffers[0].native_surface.id, buffers[1].native_surface.id);
}

#[test]
fn shutdown_clears_cache_and_stops_workers() {
    let mut task = new_cpu_task(3);
    task.handle_msg(Msg::Exit(PipelineExitType::Complete));
    task.shutdown();
    for worker in task.worker_threads.iter() {
        assert!(!worker.alive);
    }
}

#[test]
fn mixed_epoch_batch_paints_only_fresh_requests() {
    let layer = LayerId(1, 1);
    let mut task = granted_task_with_layer(2, layer);
    let batch = vec![
        PaintRequest {
            buffer_requests: vec![tile(0, 0, 4, 4, 1)],
            scale: ScaleFactor(1000),
            layer_id: layer,
            epoch: Epoch(0), // stale
        },
        PaintRequest {
            buffer_requests: vec![tile(4, 0, 4, 4, 2)],
            scale: ScaleFactor(1000),
            layer_id: layer,
            epoch: Epoch(1), // current
        },
    ];
    let acts = task.handle_msg(Msg::Paint(batch));
    let replies = reply_buffers(&acts);
    assert_eq!(replies.len(), 1);
    assert_eq!(replies[0].1.buffers[0].content_age, 2);
    assert_eq!(task.used_buffer_count, 1);
}
