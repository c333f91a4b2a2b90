use paint_pipeline::buffer_map::BufferMap;
use paint_pipeline::geometry::{rect_au, Point2D, Rect, Size2D};
use paint_pipeline::layers::{LayerBuffer, NativeSurface, ScaleFactor};

fn buffer_of_size(w: i64, h: i64, id: u64) -> LayerBuffer {
    LayerBuffer {
        native_surface: NativeSurface {
            id,
            size: Size2D { width: w, height: h },
            data: vec![0u8; (w * 4 * h) as usize],
            will_leak: false,
        },
        rect: rect_au(0, 0, w * 60, h * 60),
        screen_pos: Rect {
            origin: Point2D { x: 0, y: 0 },
            size: Size2D { width: w, height: h },
        },
        resolution: ScaleFactor(1000),
        stride: (w * 4) as usize,
        painted_with_cpu: true,
        content_age: 0,
    }
}

fn size(w: i64, h: i64) -> Size2D<i64> {
    Size2D { width: w, height: h }
}

#[test]
fn cache_round_trip_returns_matching_size() {
    let mut cache = BufferMap::new(10_000_000);
    cache.insert(buffer_of_size(16, 16, 1));
    let found = cache.find(size(16, 16)).expect("a pooled buffer of that size");
    assert_eq!(found.screen_pos.size, size(16, 16));
    assert_eq!(found.native_surface.id, 1);
}

#[test]
fn cache_find_removes_the_buffer() {
    let mut cache = BufferMap::new(10_000_000);
    cache.insert(buffer_of_size(16, 16, 1));
    assert!(cache.find(size(16, 16)).is_some());
    assert!(cache.find(size(16, 16)).is_none());
}

#[test]
fn cache_find_misses_on_other_sizes() {
    let mut cache = BufferMap::new(10_000_000);
    cache.insert(buffer_of_size(16, 16, 1));
    assert!(cache.find(size(16, 8)).is_none());
    assert!(cache.find(size(8, 16)).is_none());
    // The miss left the pooled buffer in place.
    assert!(cache.find(size(16, 16)).is_some());
}

#[test]
fn cache_with_multiple_sizes_serves_each() {
    let mut cache = BufferMap::new(10_000_000);
    cache.insert(buffer_of_size(16, 16, 1));
    cache.insert(buffer_of_size(32, 32, 2));
    cache.insert(buffer_of_size(16, 16, 3));
    let a = cache.find(size(32, 32)).unwrap();
    assert_eq!(a.native_surface.id, 2);
    assert!(cache.find(size(16, 16)).is_some());
    assert!(cache.find(size(16, 16)).is_some());
    assert!(cache.find(size(16, 16)).is_none());
}

#[test]
fn cache_evicts_oldest_when_over_budget() {
    // A 16x16 buffer holds 1024 bytes, a 16x8 or 8x16 one 512; the third
    // insertion pushes the total to 2048, over the 1600-byte budget.
    let mut cache = BufferMap::new(1600);
    cache.insert(buffer_of_size(16, 16, 1));
    cache.insert(buffer_of_size(16, 8, 2));
    cache.insert(buffer_of_size(8, 16, 3));
    // The oldest entry was destroyed to restore the budget.
    assert!(cache.find(size(16, 16)).is_none());
    assert!(cache.find(size(16, 8)).is_some());
    assert!(cache.find(size(8, 16)).is_some());
}

#[test]
fn buffer_larger_than_whole_budget_is_not_pooled() {
    // A buffer that alone exceeds the byte budget is destroyed at
    // insertion rather than pooled, so the round-trip guarantee asks that
    // the buffer fit the budget.
    let mut cache = BufferMap::new(100);
    cache.insert(buffer_of_size(16, 16, 1));
    assert!(cache.find(size(16, 16)).is_none());
}

#[test]
fn clear_empties_the_pool() {
    let mut cache = BufferMap::new(10_000_000);
    cache.insert(buffer_of_size(16, 16, 1));
    cache.insert(buffer_of_size(8, 8, 2));
    cache.clear();
    assert!(cache.find(size(16, 16)).is_none());
    assert!(cache.find(size(8, 8)).is_none());
}

#[test]
fn zero_budget_pools_only_zero_sized_buffers() {
    let mut cache = BufferMap::new(0);
    cache.insert(buffer_of_size(4, 4, 1));
    assert!(cache.find(size(4, 4)).is_none());
    cache.insert(buffer_of_size(0, 0, 2));
    assert!(cache.find(size(0, 0)).is_some());
}
