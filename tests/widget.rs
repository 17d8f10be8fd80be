use beating_heart::animation::{
    AppState, HeartWidget, HostRequest, LifeCycleEvent, Phase, WidgetEvent, TICK_MILLIS,
};
use beating_heart::heart::{
    heart_path, paint_commands, DrawCommand, HeartStyle, Offset, PathEl, Rgb8,
};

fn at(dx: i64, dy: i64) -> Offset {
    Offset { dx, dy }
}

#[test]
fn starts_at_time_zero_unmounted() {
    assert_eq!(AppState::new().time_millis, 0);
    assert_eq!(HeartWidget::new().phase, Phase::Unmounted);
}

#[test]
fn frame_advances_time_by_one_tick_and_requests_frame_and_paint() {
    let mut w = HeartWidget::new();
    let mut d = AppState::new();
    let r = w.event(&WidgetEvent::AnimFrame(123_456), &mut d);
    assert_eq!(d.time_millis, 16);
    assert_eq!(r, vec![HostRequest::AnimFrame, HostRequest::Paint]);
    let r = w.event(&WidgetEvent::AnimFrame(0), &mut d);
    assert_eq!(d.time_millis, 32);
    assert_eq!(r.iter().filter(|q| **q == HostRequest::AnimFrame).count(), 1);
    assert_eq!(r.iter().filter(|q| **q == HostRequest::Paint).count(), 1);
}

#[test]
fn frame_ignores_elapsed_time_hint() {
    let mut w = HeartWidget::new();
    let mut a = AppState { time_millis: 1000 };
    let mut b = AppState { time_millis: 1000 };
    w.event(&WidgetEvent::AnimFrame(1), &mut a);
    w.event(&WidgetEvent::AnimFrame(99_000_000), &mut b);
    assert_eq!(a, b);
    assert_eq!(a.time_millis, 1000 + TICK_MILLIS);
}

#[test]
fn hundred_and_thirty_one_ticks() {
    let mut w = HeartWidget::new();
    let mut d = AppState::new();
    for _ in 0..131 {
        w.event(&WidgetEvent::AnimFrame(16_000_000), &mut d);
    }
    assert_eq!(d.time_millis, 2096);
}

#[test]
fn tick_at_largest_allowed_time() {
    let mut w = HeartWidget::new();
    let mut d = AppState { time_millis: u64::MAX - 16 };
    w.event(&WidgetEvent::AnimFrame(0), &mut d);
    assert_eq!(d.time_millis, u64::MAX);
}

#[test]
fn other_event_changes_nothing() {
    let mut w = HeartWidget::new();
    let mut d = AppState { time_millis: 48 };
    let r = w.event(&WidgetEvent::Other, &mut d);
    assert!(r.is_empty());
    assert_eq!(d.time_millis, 48);
    assert_eq!(w.phase, Phase::Unmounted);
}

#[test]
fn widget_added_starts_animation() {
    let mut w = HeartWidget::new();
    let d = AppState::new();
    let r = w.lifecycle(&LifeCycleEvent::WidgetAdded, &d);
    assert_eq!(r, vec![HostRequest::AnimFrame]);
    assert_eq!(w.phase, Phase::Animating);
    let r = w.lifecycle(&LifeCycleEvent::Other, &d);
    assert!(r.is_empty());
    assert_eq!(w.phase, Phase::Animating);
}

#[test]
fn other_lifecycle_signal_keeps_unmounted() {
    let mut w = HeartWidget::new();
    let r = w.lifecycle(&LifeCycleEvent::Other, &AppState::new());
    assert!(r.is_empty());
    assert_eq!(w.phase, Phase::Unmounted);
}

#[test]
fn filled_heart_path_points() {
    let p = heart_path(&HeartStyle::filled());
    assert_eq!(
        p,
        vec![
            PathEl::MoveTo(at(0, 2400)),
            PathEl::CurveTo(at(-2500, 1200), at(-2500, -2400), at(0, -1200)),
            PathEl::CurveTo(at(2500, -2400), at(2500, 1200), at(0, 2400)),
            PathEl::ClosePath,
        ]
    );
}

#[test]
fn outlined_heart_path_points() {
    let p = heart_path(&HeartStyle::outlined());
    assert_eq!(
        p,
        vec![
            PathEl::MoveTo(at(0, 2250)),
            PathEl::CurveTo(at(-2500, 1125), at(-2500, -2250), at(0, -1125)),
            PathEl::CurveTo(at(2500, -2250), at(2500, 1125), at(0, 2250)),
            PathEl::ClosePath,
        ]
    );
}

#[test]
fn heart_path_is_closed_for_custom_style() {
    let style = HeartStyle {
        stroke: Rgb8 { r: 1, g: 2, b: 3 },
        stroke_width: 1,
        fill: None,
        half_width_percent: 40,
        height_percent: 80,
    };
    let p = heart_path(&style);
    assert_eq!(p.len(), 4);
    assert_eq!(p[0], PathEl::MoveTo(at(0, 4000)));
    match p[2] {
        PathEl::CurveTo(_, _, end) => assert_eq!(end, at(0, 4000)),
        _ => panic!("expected a curve"),
    }
    assert_eq!(p[3], PathEl::ClosePath);
}

#[test]
fn heart_path_is_mirror_symmetric() {
    let p = heart_path(&HeartStyle::filled());
    match (p[1], p[2]) {
        (PathEl::CurveTo(a, b, n), PathEl::CurveTo(c, d, _)) => {
            assert_eq!(n.dx, 0);
            assert_eq!(c, at(-b.dx, b.dy));
            assert_eq!(d, at(-a.dx, a.dy));
        }
        _ => panic!("expected two curves"),
    }
}

#[test]
fn filled_style_strokes_black_then_fills_red() {
    let c = paint_commands(&HeartStyle::filled());
    assert_eq!(
        c,
        vec![
            DrawCommand::Stroke { color: Rgb8 { r: 0, g: 0, b: 0 }, width: 4 },
            DrawCommand::Fill { color: Rgb8 { r: 255, g: 0, b: 0 } },
        ]
    );
}

#[test]
fn outlined_style_strokes_red_only() {
    let c = paint_commands(&HeartStyle::outlined());
    assert_eq!(c, vec![DrawCommand::Stroke { color: Rgb8 { r: 255, g: 0, b: 0 }, width: 4 }]);
}

#[test]
fn paint_is_the_same_for_equal_inputs() {
    let mut w = HeartWidget::new();
    w.lifecycle(&LifeCycleEvent::WidgetAdded, &AppState::new());
    let a = w.paint(&HeartStyle::filled());
    let b = w.paint(&HeartStyle::filled());
    assert_eq!(a.path, b.path);
    assert_eq!(a.commands, b.commands);
    assert_eq!(a.path, heart_path(&HeartStyle::filled()));
    assert_eq!(a.commands, paint_commands(&HeartStyle::filled()));
}
