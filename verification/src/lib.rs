//! A tile-based paint pipeline: a coordinator that turns render-tree
//! snapshots into rasterized pixel tiles for a compositor, with epoch-based
//! staleness rejection, a bounded buffer cache, and an order-preserving
//! worker fan-out/fan-in protocol.

pub mod buffer_map;
pub mod compositor_msg;
pub mod display_list;
pub mod geometry;
pub mod incremental;
pub mod layers;
pub mod paint_context;
pub mod paint_task;
pub mod pointing;
pub mod rpc;
pub mod task_state;
pub mod vec_util;
pub mod worker;
