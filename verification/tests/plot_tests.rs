use waterfall::plot::CompositePass;
use waterfall::plot::WaterfallPlot;
use waterfall::plot::MAX_TIME_POSITION;

#[test]
fn new_follows_live_edge() {
    let plot = WaterfallPlot::new();
    assert_eq!(plot.y_offset, 0);
    assert_eq!(plot.time_position, 0);
    assert_eq!(plot.pingpong, 0);
    assert!(plot.is_following());
    assert_eq!(plot.window_width, 1024);
    assert_eq!(plot.window_height, 1024);
}

#[test]
fn injections_advance_write_head_only() {
    let mut plot = WaterfallPlot::new();
    for _ in 0..5 {
        plot.inject();
    }
    assert_eq!(plot.y_offset, 5);
    assert_eq!(plot.time_position, 0);
    assert!(plot.is_following());
}

#[test]
fn first_injection_pass_roles() {
    let mut plot = WaterfallPlot::new();
    let pass = plot.inject();
    assert_eq!(pass.target, 0);
    assert_eq!(pass.front, 0);
    assert_eq!(pass.back, 8);
    assert_eq!(pass.row_in_tile, 1);
    let pass2 = plot.inject();
    assert_eq!(pass2.target, 0);
    assert_eq!(pass2.front, 8);
    assert_eq!(pass2.back, 0);
    assert_eq!(pass2.row_in_tile, 2);
}

#[test]
fn write_head_wraps_at_max_height() {
    let mut plot = WaterfallPlot::new();
    for _ in 0..8191 {
        plot.inject();
    }
    assert_eq!(plot.y_offset, 8191);
    let pass = plot.inject();
    assert_eq!(plot.y_offset, 0);
    assert_eq!(pass.target, 0);
}

#[test]
fn scenario_1025_frames_no_scrolling() {
    let mut plot = WaterfallPlot::new();
    let mut last = plot.update_plot();
    for _ in 0..1024 {
        last = plot.update_plot();
    }
    assert_eq!(plot.y_offset, 1025);
    assert_eq!(last.inject.target, 1);
    assert_eq!(plot.time_position, 0);
    assert!(plot.is_following());
}

#[test]
fn scenario_scroll_back_then_age() {
    let mut plot = WaterfallPlot::new();
    for _ in 0..1025 {
        plot.update_plot();
    }
    plot.scroll(2000);
    assert_eq!(plot.time_position, 2000);
    assert!(!plot.is_following());
    plot.advance_if_following();
    assert_eq!(plot.time_position, 2001);
    plot.advance_if_following();
    assert_eq!(plot.time_position, 2002);
}

#[test]
fn scroll_clamps_any_delta() {
    let mut plot = WaterfallPlot::new();
    plot.scroll(-2000);
    assert_eq!(plot.time_position, 0);
    assert!(plot.is_following());
    plot.scroll(i32::MAX);
    assert_eq!(plot.time_position, MAX_TIME_POSITION);
    assert_eq!(plot.time_position, 7167);
    assert!(!plot.is_following());
    plot.scroll(i32::MIN);
    assert_eq!(plot.time_position, 0);
    assert!(plot.is_following());
}

#[test]
fn paused_view_saturates_at_max_lag() {
    let mut plot = WaterfallPlot::new();
    plot.scroll(7167);
    assert_eq!(plot.time_position, MAX_TIME_POSITION);
    plot.advance_if_following();
    assert_eq!(plot.time_position, MAX_TIME_POSITION);
}

#[test]
fn repeated_draws_agree() {
    let mut plot = WaterfallPlot::new();
    for _ in 0..777 {
        plot.update_plot();
    }
    plot.scroll(123);
    let first = plot.composite_plan();
    let second = plot.composite_plan();
    let third = plot.composite_plan();
    assert_eq!(first, second);
    assert_eq!(second, third);
}

#[test]
fn composite_substitutes_front_for_write_target() {
    let mut plot = WaterfallPlot::new();
    let pass = plot.inject();
    let composite = plot.composite_plan();
    // The view anchor sits in the write target's tile, so the just-finalized
    // front tile is read in its place.
    assert_eq!(composite.tex0, pass.front);
    assert_eq!(composite, CompositePass { tex0: 0, tex1: 7, offset: 1 });
}

#[test]
fn tile_boundary_crossing_resets_offset() {
    let mut plot = WaterfallPlot::new();
    for _ in 0..1023 {
        plot.inject();
    }
    let before = plot.composite_plan();
    assert_eq!(before, CompositePass { tex0: 0, tex1: 7, offset: 1023 });
    plot.inject();
    let after = plot.composite_plan();
    // The anchor row moved into tile 1, which is now the write target, so the
    // composite reads the scratch tile (index 8) in its place.
    assert_eq!(after, CompositePass { tex0: 8, tex1: 0, offset: 0 });
}

#[test]
fn window_size_is_recorded() {
    let mut plot = WaterfallPlot::new();
    plot.set_window_size(800, 600);
    assert_eq!(plot.window_width, 800);
    assert_eq!(plot.window_height, 600);
    assert_eq!(plot.y_offset, 0);
    assert_eq!(plot.time_position, 0);
}
