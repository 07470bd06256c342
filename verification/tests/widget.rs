use viewport_axis::axis::{
    AxisHints, AxisKind, AxisShapes, AxisVisuals, AxisWidget, FixedRange, GridMark, Placement,
    PlotTransform, TextAngle,
};
use viewport_axis::fixed::Fixed;
use viewport_axis::geom::{Pos, Rect, Rgb, Size};

fn rect_units(x0: i64, y0: i64, x1: i64, y1: i64) -> Rect {
    Rect::new(
        Pos::new(Fixed::from_int(x0), Fixed::from_int(y0)),
        Pos::new(Fixed::from_int(x1), Fixed::from_int(y1)),
    )
}

fn visuals() -> AxisVisuals {
    AxisVisuals {
        override_text_color: None,
        text_color: Rgb::new(10, 20, 30),
        extreme_bg_color: Rgb::new(0, 0, 0),
        fg_stroke_color: Rgb::new(255, 255, 255),
    }
}

fn widget_with_steps(scale: i64, steps: Vec<GridMark>) -> AxisWidget {
    let mut w = AxisWidget::new(AxisHints::default_for(AxisKind::Horizontal), rect_units(0, 0, 100, 20));
    w.transform = Some(PlotTransform {
        dpos_dvalue_x: Fixed::from_int(scale),
        dpos_dvalue_y: Fixed::from_int(scale),
        offset_x: Fixed::zero(),
        offset_y: Fixed::zero(),
    });
    w.steps = steps;
    w
}

fn mark(value: i64, step: i64) -> GridMark {
    GridMark { value: Fixed::from_int(value), step_size: Fixed::from_int(step) }
}

fn sizes(n: usize) -> Vec<Size> {
    let mut v = Vec::new();
    for _ in 0..n {
        v.push(Size::new(Fixed::from_int(10), Fixed::from_int(12)));
    }
    v
}

fn run(w: AxisWidget) -> AxisShapes {
    let n = w.steps.len();
    let label = Size::new(Fixed::from_int(10), Fixed::from_int(12));
    w.ui(label, &sizes(n), &visuals())
}

#[test]
fn no_transform_draws_only_the_label() {
    let w = AxisWidget::new(AxisHints::default_for(AxisKind::Horizontal), rect_units(0, 0, 100, 20));
    let out = run(w);
    assert_eq!(out.ticks.len(), 0);
    assert_eq!(out.label.text, "x");
    assert_eq!(out.label.angle, TextAngle::Zero);
}

#[test]
fn narrow_spacing_suppresses_ticks() {
    // Spacing of 10 screen units per step is at or below the threshold of 20.
    let out = run(widget_with_steps(10, vec![mark(1, 1), mark(2, 1)]));
    assert_eq!(out.ticks.len(), 0);
}

#[test]
fn threshold_spacing_still_suppresses() {
    let out = run(widget_with_steps(20, vec![mark(1, 1)]));
    assert_eq!(out.ticks.len(), 0);
}

#[test]
fn wide_spacing_draws_full_contrast() {
    // Spacing of 50 is past the full-contrast threshold of 40: the color is
    // the midpoint mix, here 127 of the black-to-white span per channel.
    let out = run(widget_with_steps(50, vec![mark(1, 1)]));
    assert_eq!(out.ticks.len(), 1);
    assert_eq!(out.ticks[0].color, Rgb::new(127, 127, 127));
    assert_eq!(out.ticks[0].text, "1");
}

#[test]
fn contrast_grows_with_spacing() {
    let narrow = run(widget_with_steps(25, vec![mark(1, 1)]));
    let mid = run(widget_with_steps(30, vec![mark(1, 1)]));
    let wide = run(widget_with_steps(45, vec![mark(1, 1)]));
    assert_eq!(narrow.ticks[0].color, Rgb::new(63, 63, 63));
    assert_eq!(mid.ticks[0].color, Rgb::new(90, 90, 90));
    assert_eq!(wide.ticks[0].color, Rgb::new(127, 127, 127));
    assert!(narrow.ticks[0].color.r <= mid.ticks[0].color.r);
    assert!(mid.ticks[0].color.r <= wide.ticks[0].color.r);
}

#[test]
fn mixed_steps_keep_only_wide_ones() {
    // A coarse grid line is kept while a fine one of the same transform is
    // dropped: spacing is scale times step size.
    let out = run(widget_with_steps(50, vec![mark(1, 1), mark(2, 0)]));
    assert_eq!(out.ticks.len(), 1);
    assert_eq!(out.ticks[0].text, "1");
}

#[test]
fn tick_positions_follow_the_transform() {
    // Scale 50, offset 0: the mark at value 1 projects to x = 50; the label
    // of width 10 is centered, so its position is 45. Default placement puts
    // the tick text at the rectangle's top edge.
    let out = run(widget_with_steps(50, vec![mark(1, 1)]));
    assert_eq!(out.ticks[0].pos.x.micros(), 45_000_000);
    assert_eq!(out.ticks[0].pos.y.micros(), 0);
}

#[test]
fn horizontal_label_positions_mirror_across_the_midline() {
    // Rectangle from y = 0 to y = 20, label height 12: the Default label
    // sits at y = 20 - 12 - 3 = 5, the Opposite one at y = 0 + 3 = 3, and
    // the two label boxes mirror: 5 + 3 = 0 + 20 - 12. The angle is the
    // same on both sides.
    let rect = rect_units(0, 0, 100, 20);
    let mut w1 = AxisWidget::new(AxisHints::default_for(AxisKind::Horizontal), rect);
    w1.hints = w1.hints.placement(Placement::Default);
    let mut w2 = AxisWidget::new(AxisHints::default_for(AxisKind::Horizontal), rect);
    w2.hints = w2.hints.placement(Placement::Opposite);
    let out1 = run(w1);
    let out2 = run(w2);
    assert_eq!(out1.label.pos.y.micros(), 5_000_000);
    assert_eq!(out2.label.pos.y.micros(), 3_000_000);
    assert_eq!(
        out1.label.pos.y.micros() + out2.label.pos.y.micros(),
        0 + 20_000_000 - 12_000_000
    );
    assert_eq!(out1.label.pos.x.micros(), out2.label.pos.x.micros());
    assert_eq!(out1.label.angle, out2.label.angle);
}

#[test]
fn vertical_label_positions_mirror_across_the_midline() {
    // Rectangle from x = 0 to x = 30, label height 12 (its on-screen width
    // once rotated): the Default label starts at x = 0, the Opposite one at
    // x = 30 - 12 = 18, the exact reflection; y is the same on both sides.
    let rect = rect_units(0, 0, 30, 100);
    let mut w1 = AxisWidget::new(AxisHints::default_for(AxisKind::Vertical), rect);
    w1.hints = w1.hints.placement(Placement::Default);
    let mut w2 = AxisWidget::new(AxisHints::default_for(AxisKind::Vertical), rect);
    w2.hints = w2.hints.placement(Placement::Opposite);
    let out1 = run(w1);
    let out2 = run(w2);
    assert_eq!(out1.label.pos.x.micros(), 0);
    assert_eq!(out2.label.pos.x.micros(), 18_000_000);
    assert_eq!(
        out1.label.pos.x.micros() + out2.label.pos.x.micros(),
        0 + 30_000_000 - 12_000_000
    );
    assert_eq!(out1.label.pos.y.micros(), out2.label.pos.y.micros());
    assert_eq!(out1.label.angle, out2.label.angle);
}

#[test]
fn vertical_label_is_rotated() {
    let mut w = AxisWidget::new(AxisHints::default_for(AxisKind::Vertical), rect_units(0, 0, 30, 100));
    w.hints = w.hints.placement(Placement::Default);
    let out = run(w);
    assert_eq!(out.label.text, "y");
    assert_eq!(out.label.angle, TextAngle::QuarterLeft);
    // Default placement: at the left edge, centered with the rotated text.
    assert_eq!(out.label.pos.x.micros(), 0);
    assert_eq!(out.label.pos.y.micros(), 55_000_000);
}

#[test]
fn label_color_prefers_the_override() {
    let w = AxisWidget::new(AxisHints::default_for(AxisKind::Horizontal), rect_units(0, 0, 100, 20));
    let mut vis = visuals();
    vis.override_text_color = Some(Rgb::new(1, 2, 3));
    let out = w.ui(Size::new(Fixed::from_int(10), Fixed::from_int(12)), &sizes(0), &vis);
    assert_eq!(out.label.color, Rgb::new(1, 2, 3));
}

#[test]
fn thickness_by_kind_and_label() {
    let h = AxisHints::default_for(AxisKind::Horizontal);
    assert_eq!(h.thickness().micros(), 36_000_000);
    let bare = h.label(String::new());
    assert_eq!(bare.thickness().micros(), 12_000_000);
    let v = AxisHints::default_for(AxisKind::Vertical);
    assert_eq!(v.thickness().micros(), 72_000_000);
    let v9 = AxisHints::default_for(AxisKind::Vertical).max_digits(9).label(String::new());
    assert_eq!(v9.thickness().micros(), 108_000_000);
}

#[test]
fn tick_texts_format_every_step() {
    let w = widget_with_steps(50, vec![mark(1, 1), mark(2, 1)]);
    let texts = w.tick_texts();
    assert_eq!(texts, vec!["1".to_string(), "2".to_string()]);
}

#[test]
fn default_hints() {
    let d = AxisHints::default();
    assert_eq!(d.label, "x");
    assert_eq!(d.digits, 5);
    let h = AxisHints::default_for(AxisKind::Horizontal);
    assert_eq!(h.label, "x");
    assert_eq!(h.digits, 5);
    assert_eq!(h.placement, Placement::Default);
    let h = h.max_digits(7).placement(Placement::Opposite);
    assert_eq!(h.digits, 7);
    assert_eq!(h.placement, Placement::Opposite);
}

#[test]
fn fresh_widget_is_empty() {
    let w = AxisWidget::new(AxisHints::default_for(AxisKind::Vertical), rect_units(0, 0, 30, 100));
    assert!(w.transform.is_none());
    assert!(w.steps.is_empty());
    assert_eq!(w.range, FixedRange::new(Fixed::zero(), Fixed::zero()));
}
