use rustky::pool::BufferPool;
use rustky::raster::Renderer;
use rustky::styled::StyledLine;
use rustky::surface::{ConfigureAction, Panel, SurfaceState};

fn lines(n: usize) -> Vec<StyledLine> {
    (0..n).map(|i| StyledLine::plain(format!("line {i}"))).collect()
}

fn renderer() -> Renderer {
    Renderer::new(1000, "#ffffff", "#000000")
}

#[test]
fn draw_before_configure_does_nothing() {
    let mut panel = Panel::new(320, 600, 320 * 600 * 4);
    let before = panel;
    assert_eq!(panel.begin_draw(), None);
    assert_eq!(panel.draw_frame(&renderer(), &lines(3)), None);
    assert_eq!(panel, before);
    assert_eq!(panel.pool.capacity(), 320 * 600 * 4);
}

#[test]
fn configure_falls_back_to_default_size() {
    let mut panel = Panel::new(320, 600, 0);
    let action = panel.configure(0, 0);
    assert_eq!(action, ConfigureAction::Draw { grow_to: Some(320 * 600 * 4) });
    assert_eq!(panel.surface, SurfaceState { width: 320, height: 600, configured: true });
    assert_eq!(panel.begin_draw(), Some((320, 600)));
}

#[test]
fn pool_grows_and_never_shrinks() {
    let mut panel = Panel::new(10, 10, 400);
    assert_eq!(panel.configure(10, 10), ConfigureAction::Draw { grow_to: None });
    assert_eq!(panel.configure(20, 10), ConfigureAction::Draw { grow_to: Some(800) });
    assert_eq!(panel.configure(5, 5), ConfigureAction::Draw { grow_to: None });
    assert_eq!(panel.pool.capacity(), 800);
    assert_eq!(panel.surface.width, 5);
}

#[test]
fn configure_with_zero_default_leaves_draw_inert() {
    let mut panel = Panel::new(0, 0, 0);
    assert_eq!(panel.configure(0, 40), ConfigureAction::Draw { grow_to: None });
    assert!(panel.surface.configured);
    assert_eq!(panel.begin_draw(), None);
}

#[test]
fn draw_frame_clamps_scroll_and_lays_out() {
    let mut panel = Panel::new(100, 30, 0);
    panel.configure(100, 30);
    let frame = panel.draw_frame(&renderer(), &lines(5)).unwrap();
    assert_eq!((frame.width, frame.height, frame.bytes), (100, 30, 12_000));
    assert_eq!(frame.grow_to, None);
    assert_eq!(frame.offset, 0);
    assert_eq!(frame.placements.len(), 3);
    assert!(panel.on_scroll(1_000_000));
    assert_eq!(panel.scroll.offset(), 70_000 - 30_000);
    let frame = panel.draw_frame(&renderer(), &lines(3)).unwrap();
    assert_eq!(frame.offset, 12_000);
    assert_eq!(frame.placements[0].index, 0);
    assert_eq!(frame.placements[0].baseline, 2_000);
}

#[test]
fn tiny_scrolls_are_ignored() {
    let mut panel = Panel::new(100, 30, 0);
    panel.configure(100, 30);
    panel.draw_frame(&renderer(), &lines(10)).unwrap();
    assert!(!panel.on_scroll(10));
    assert!(!panel.on_scroll(-10));
    assert_eq!(panel.scroll.offset(), 0);
    assert!(panel.on_scroll(11));
    assert_eq!(panel.scroll.offset(), 11);
    assert!(panel.on_scroll(-500));
    assert_eq!(panel.scroll.offset(), 0);
}

#[test]
fn frame_bytes_checks_size() {
    assert_eq!(BufferPool::frame_bytes(320, 600), Some(768_000));
    assert_eq!(BufferPool::frame_bytes(0, 600), Some(0));
    let mut pool = BufferPool::new(100);
    assert_eq!(pool.reserve(50), None);
    assert_eq!(pool.reserve(150), Some(150));
    assert_eq!(pool.capacity(), 150);
}

#[test]
fn oversized_surface_is_refused() {
    assert_eq!(BufferPool::frame_bytes(u32::MAX, u32::MAX), None);
    let mut panel = Panel::new(10, 10, 0);
    let before = panel;
    assert_eq!(panel.configure(u32::MAX, u32::MAX), ConfigureAction::TooLarge);
    assert_eq!(panel, before);
    assert_eq!(panel.draw_frame(&renderer(), &lines(1)), None);
}
