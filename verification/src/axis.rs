//! Plot-axis configuration and the per-frame widget that lays out one
//! rotated axis label and the tick labels along a transformed value range.
//!
//! Tick labels whose on-screen spacing is at most twenty units are
//! suppressed; between twenty and forty units their color fades in from the
//! background toward the foreground stroke color.

use vstd::prelude::*;
use crate::fixed::{Fixed, FX_MAX, fx_add, fx_sub, fx_mul, fx_clamp, int_abs, tz_div};
use crate::geom::{Pos, Size, Rect, Rgb};
use crate::numfmt::{default_format_text, format_default};
use vstd::string::StringExecFns;

verus! {

/// Which side of the plot rectangle an axis is drawn on.
/// `Default` means bottom for a horizontal axis and left for a vertical one;
/// `Opposite` means top, respectively right.
#[derive(Debug, Clone, Copy, PartialEq, Eq, Structural)]
pub enum Placement {
    Default,
    Opposite,
}

/// Whether an axis runs along the screen's x direction or its y direction.
#[derive(Debug, Clone, Copy, PartialEq, Eq, Structural)]
pub enum AxisKind {
    Horizontal,
    Vertical,
}

/// The rotation applied to a piece of text.
#[derive(Debug, Clone, Copy, PartialEq, Eq, Structural)]
pub enum TextAngle {
    /// No rotation.
    Zero,
    /// A quarter turn counter-clockwise (reading bottom to top).
    QuarterLeft,
}

/// An inclusive range of axis values.
#[derive(Debug, Clone, Copy, PartialEq, Eq, Structural)]
pub struct FixedRange {
    pub min: Fixed,
    pub max: Fixed,
}

impl FixedRange {
    pub fn new(min: Fixed, max: Fixed) -> (r: Self)
        ensures
            r.min == min && r.max == max,
    {
        FixedRange { min, max }
    }
}

/// One labeled gradation of the axis: its value and the spacing of the grid
/// it belongs to, both in value space.
#[derive(Debug, Clone, Copy, PartialEq, Eq, Structural)]
pub struct GridMark {
    pub value: Fixed,
    pub step_size: Fixed,
}

/// A point in value space.
#[derive(Debug, Clone, Copy, PartialEq, Eq, Structural)]
pub struct PlotPoint {
    pub x: Fixed,
    pub y: Fixed,
}

impl PlotPoint {
    pub fn new(x: Fixed, y: Fixed) -> (r: Self)
        ensures
            r.x == x && r.y == y,
    {
        PlotPoint { x, y }
    }
}

/// An affine map from value space to screen space: each screen coordinate
/// is `offset + scale * value`, saturating.
#[derive(Debug, Clone, Copy, PartialEq, Eq, Structural)]
pub struct PlotTransform {
    pub dpos_dvalue_x: Fixed,
    pub dpos_dvalue_y: Fixed,
    pub offset_x: Fixed,
    pub offset_y: Fixed,
}

/// A projected screen coordinate: `offset + scale * value`, saturating.
pub open spec fn spec_project(offset: int, scale: int, v: int) -> int {
    fx_add(offset, fx_mul(scale, v))
}

impl PlotTransform {
    /// The screen-units-per-value-unit scale along the given axis.
    pub fn dpos_dvalue(&self, kind: AxisKind) -> (r: Fixed)
        ensures
            r.as_micros() == spec_dpos(kind, *self),
    {
        match kind {
            AxisKind::Horizontal => self.dpos_dvalue_x,
            AxisKind::Vertical => self.dpos_dvalue_y,
        }
    }

    /// Project a value-space point to screen space.
    pub fn position_from_point(&self, p: &PlotPoint) -> (r: Pos)
        ensures
            r.x.as_micros() == spec_project(
                self.offset_x.as_micros(),
                self.dpos_dvalue_x.as_micros(),
                p.x.as_micros(),
            ),
            r.y.as_micros() == spec_project(
                self.offset_y.as_micros(),
                self.dpos_dvalue_y.as_micros(),
                p.y.as_micros(),
            ),
    {
        Pos {
            x: self.offset_x.add(self.dpos_dvalue_x.mul(p.x)),
            y: self.offset_y.add(self.dpos_dvalue_y.mul(p.y)),
        }
    }
}

/// The scale along the axis the widget draws.
pub open spec fn spec_dpos(kind: AxisKind, t: PlotTransform) -> int {
    match kind {
        AxisKind::Horizontal => t.dpos_dvalue_x.as_micros(),
        AxisKind::Vertical => t.dpos_dvalue_y.as_micros(),
    }
}

/// The colors the widget draws with, taken from the host's style.
#[derive(Debug, Clone, Copy, PartialEq, Eq, Structural)]
pub struct AxisVisuals {
    /// When set, replaces the text color for the axis label.
    pub override_text_color: Option<Rgb>,
    pub text_color: Rgb,
    pub extreme_bg_color: Rgb,
    pub fg_stroke_color: Rgb,
}

/// The axis label as a draw call: text placed at a position, rotated.
#[derive(Debug, Clone, PartialEq, Eq)]
pub struct LabelShape {
    pub pos: Pos,
    pub text: String,
    pub color: Rgb,
    pub angle: TextAngle,
}

/// One tick label as a draw call.
#[derive(Debug, Clone, PartialEq, Eq)]
pub struct TickShape {
    pub pos: Pos,
    pub text: String,
    pub color: Rgb,
}

/// Everything one axis widget draws in a frame: exactly one axis label and
/// zero or more tick labels.
#[derive(Debug, Clone, PartialEq, Eq)]
pub struct AxisShapes {
    pub label: LabelShape,
    pub ticks: Vec<TickShape>,
}

/// Per-axis configuration: label text, digit budget for the default tick
/// formatter, and placement.
#[derive(Debug, Clone, PartialEq, Eq)]
pub struct AxisHints {
    pub label: String,
    pub digits: usize,
    pub placement: Placement,
    pub kind: AxisKind,
}

/// How thick the axis strip is, in micro-units with a line height of
/// twelve units: one line for a bare horizontal axis, three with a label;
/// one line per digit for a vertical axis, one more with a label.
pub open spec fn spec_thickness(h: AxisHints) -> int {
    match h.kind {
        AxisKind::Horizontal => if h.label@.len() == 0 {
            12_000_000int
        } else {
            36_000_000int
        },
        AxisKind::Vertical => if h.label@.len() == 0 {
            fx_clamp(h.digits as int * 12_000_000)
        } else {
            fx_clamp((h.digits as int + 1) * 12_000_000)
        },
    }
}

impl AxisHints {
    /// The default configuration for an axis: label "x" or "y", at most
    /// five digits per tick, default placement.
    pub fn default_for(kind: AxisKind) -> (r: Self)
        ensures
            r.kind == kind,
            r.digits == 5,
            r.placement == Placement::Default,
            kind == AxisKind::Horizontal ==> r.label@ == "x"@,
            kind == AxisKind::Vertical ==> r.label@ == "y"@,
    {
        let label = match kind {
            AxisKind::Horizontal => {
                let s = "x";
                s
            },
            AxisKind::Vertical => {
                let s = "y";
                s
            },
        };
        AxisHints {
            label: String::from_str(label),
            digits: 5,
            placement: Placement::Default,
            kind,
        }
    }

    /// Specify the axis label.
    pub fn label(self, label: String) -> (r: Self)
        ensures
            r == (AxisHints { label, ..self }),
    {
        AxisHints { label, ..self }
    }
}

impl Default for AxisHints {
    /// The default configuration of a horizontal axis.
    fn default() -> (r: Self)
        ensures
            r.kind == AxisKind::Horizontal,
            r.digits == 5,
            r.placement == Placement::Default,
            r.label@ == "x"@,
    {
        AxisHints::default_for(AxisKind::Horizontal)
    }
}

impl AxisHints {
    /// Specify the maximum number of digits for ticks.
    pub fn max_digits(self, digits: usize) -> (r: Self)
        ensures
            r == (AxisHints { digits, ..self }),
    {
        AxisHints { digits, ..self }
    }

    /// Specify the placement of the axis.
    pub fn placement(self, placement: Placement) -> (r: Self)
        ensures
            r == (AxisHints { placement, ..self }),
    {
        AxisHints { placement, ..self }
    }

    /// The default tick formatter; the shown range is accepted for parity
    /// with custom formatters and ignored.
    pub fn default_formatter(tick: Fixed, max_digits: usize, _range: &FixedRange) -> (r: String)
        ensures
            r@ == default_format_text(tick.as_micros(), max_digits as nat),
    {
        format_default(tick, max_digits)
    }

    /// The screen thickness of the axis strip.
    pub fn thickness(&self) -> (r: Fixed)
        ensures
            r.as_micros() == spec_thickness(*self),
    {
        match self.kind {
            AxisKind::Horizontal => {
                if self.label.as_str().is_empty() {
                    Fixed::from_micros(12_000_000)
                } else {
                    Fixed::from_micros(36_000_000)
                }
            },
            AxisKind::Vertical => {
                let d: u64 = if self.digits >= 1_000_000_000 {
                    1_000_000_000
                } else {
                    self.digits as u64
                };
                proof {
                    if self.digits >= 1_000_000_000 {
                        assert(self.digits as int * 12_000_000 >= 1_000_000_000i64 * 12_000_000)
                            by (nonlinear_arith)
                            requires
                                self.digits >= 1_000_000_000,
                        ;
                        assert((self.digits as int + 1) * 12_000_000 >= 1_000_000_000i64
                            * 12_000_000) by (nonlinear_arith)
                            requires
                                self.digits >= 1_000_000_000,
                        ;
                    }
                }
                if self.label.as_str().is_empty() {
                    Fixed::from_micros((d as i64) * 12_000_000)
                } else {
                    Fixed::from_micros((d as i64 + 1) * 12_000_000)
                }
            },
        }
    }
}

/// The rotation of the axis label: a function of the axis kind alone, so
/// both placements of one axis share it.
pub open spec fn spec_label_angle(kind: AxisKind) -> TextAngle {
    match kind {
        AxisKind::Horizontal => TextAngle::Zero,
        AxisKind::Vertical => TextAngle::QuarterLeft,
    }
}

/// The color of the axis label: the override when one is set, else the
/// style's text color.
pub open spec fn spec_text_color(vis: AxisVisuals) -> Rgb {
    match vis.override_text_color {
        Some(c) => c,
        None => vis.text_color,
    }
}

/// The x coordinate of the axis label, given the label's laid-out size `g`.
pub open spec fn spec_label_pos_x(kind: AxisKind, placement: Placement, rect: Rect, g: Size) -> int {
    match kind {
        AxisKind::Horizontal => fx_sub(
            tz_div(rect.min.x.as_micros() + rect.max.x.as_micros(), 2),
            tz_div(g.x.as_micros(), 2),
        ),
        AxisKind::Vertical => match placement {
            Placement::Default => rect.min.x.as_micros(),
            Placement::Opposite => fx_sub(rect.max.x.as_micros(), g.y.as_micros()),
        },
    }
}

/// The y coordinate of the axis label.
pub open spec fn spec_label_pos_y(kind: AxisKind, placement: Placement, rect: Rect, g: Size) -> int {
    match kind {
        AxisKind::Horizontal => match placement {
            Placement::Default => fx_sub(
                fx_sub(rect.max.y.as_micros(), g.y.as_micros()),
                tz_div(g.y.as_micros(), 4),
            ),
            Placement::Opposite => fx_add(rect.min.y.as_micros(), tz_div(g.y.as_micros(), 4)),
        },
        AxisKind::Vertical => fx_add(
            tz_div(rect.min.y.as_micros() + rect.max.y.as_micros(), 2),
            tz_div(g.x.as_micros(), 2),
        ),
    }
}

/// On-screen spacing between adjacent ticks of this mark's grid: the
/// transform's scale along the axis times the grid step, in magnitude.
pub open spec fn spec_spacing(kind: AxisKind, t: PlotTransform, step: GridMark) -> int {
    int_abs(fx_mul(spec_dpos(kind, t), step.step_size.as_micros()))
}

/// Whether a tick's label is drawn at all: its text is non-empty and its
/// spacing is above twenty screen units.
pub open spec fn spec_emit(kind: AxisKind, digits: nat, t: PlotTransform, step: GridMark) -> bool {
    default_format_text(step.value.as_micros(), digits).len() > 0 && spec_spacing(kind, t, step)
        > 20_000_000
}

/// The fade-in weight of a tick label: zero at spacing twenty, one at
/// spacing forty, linear in between (in micro-units).
pub open spec fn spec_weight(sp: int) -> int {
    if sp <= 20_000_000 {
        0int
    } else if sp >= 40_000_000 {
        1_000_000int
    } else {
        (sp - 20_000_000) / 20
    }
}

/// The integer square root: the greatest `r` with `r * r <= x`.
pub open spec fn spec_isqrt(x: nat) -> nat {
    choose|r: nat| (#[trigger] (r * r)) <= x < (r + 1) * (r + 1)
}

/// The mixing factor toward the foreground color: half the square root of
/// the fade-in weight (in micro-units).
pub open spec fn spec_mix(sp: int) -> int {
    spec_isqrt((spec_weight(sp) * 1_000_000) as nat) as int / 2
}

/// One color channel interpolated from `bg` toward `fg` by `mix`
/// micro-units, truncating.
pub open spec fn lerp_chan(bg: int, fg: int, mix: int) -> int {
    (bg * 1_000_000 + (fg - bg) * mix) / 1_000_000
}

/// The color of a tick label at the given spacing.
pub open spec fn spec_tick_color(vis: AxisVisuals, sp: int) -> Rgb {
    Rgb {
        r: lerp_chan(vis.extreme_bg_color.r as int, vis.fg_stroke_color.r as int, spec_mix(sp)) as u8,
        g: lerp_chan(vis.extreme_bg_color.g as int, vis.fg_stroke_color.g as int, spec_mix(sp)) as u8,
        b: lerp_chan(vis.extreme_bg_color.b as int, vis.fg_stroke_color.b as int, spec_mix(sp)) as u8,
    }
}

/// The x coordinate of a tick label of laid-out size `g`.
pub open spec fn spec_tick_pos_x(
    kind: AxisKind,
    placement: Placement,
    rect: Rect,
    t: PlotTransform,
    step: GridMark,
    g: Size,
) -> int {
    match kind {
        AxisKind::Horizontal => fx_sub(
            spec_project(t.offset_x.as_micros(), t.dpos_dvalue_x.as_micros(), step.value.as_micros()),
            tz_div(g.x.as_micros(), 2),
        ),
        AxisKind::Vertical => match placement {
            Placement::Default => fx_sub(rect.max.x.as_micros(), g.x.as_micros()),
            Placement::Opposite => rect.min.x.as_micros(),
        },
    }
}

/// The y coordinate of a tick label of laid-out size `g`.
pub open spec fn spec_tick_pos_y(
    kind: AxisKind,
    placement: Placement,
    rect: Rect,
    t: PlotTransform,
    step: GridMark,
    g: Size,
) -> int {
    match kind {
        AxisKind::Horizontal => match placement {
            Placement::Default => rect.min.y.as_micros(),
            Placement::Opposite => fx_sub(rect.max.y.as_micros(), g.y.as_micros()),
        },
        AxisKind::Vertical => fx_sub(
            spec_project(t.offset_y.as_micros(), t.dpos_dvalue_y.as_micros(), step.value.as_micros()),
            tz_div(g.y.as_micros(), 2),
        ),
    }
}

/// Whether one emitted tick shape is exactly what the widget draws for
/// `step` with laid-out text size `g`.
pub open spec fn spec_tick_shape_matches(
    shape: TickShape,
    kind: AxisKind,
    placement: Placement,
    rect: Rect,
    t: PlotTransform,
    step: GridMark,
    g: Size,
    vis: AxisVisuals,
    digits: nat,
) -> bool {
    &&& shape.text@ == default_format_text(step.value.as_micros(), digits)
    &&& shape.color == spec_tick_color(vis, spec_spacing(kind, t, step))
    &&& shape.pos.x.as_micros() == spec_tick_pos_x(kind, placement, rect, t, step, g)
    &&& shape.pos.y.as_micros() == spec_tick_pos_y(kind, placement, rect, t, step, g)
}

/// How many of the first `n` grid marks get a tick label.
pub open spec fn emit_count(
    kind: AxisKind,
    digits: nat,
    t: PlotTransform,
    steps: Seq<GridMark>,
    n: int,
) -> int
    decreases n,
{
    if n <= 0 {
        0int
    } else {
        emit_count(kind, digits, t, steps, n - 1) + if spec_emit(kind, digits, t, steps[n - 1]) {
            1int
        } else {
            0int
        }
    }
}

proof fn lemma_emit_count_le(
    kind: AxisKind,
    digits: nat,
    t: PlotTransform,
    steps: Seq<GridMark>,
    a: int,
    b: int,
)
    requires
        a <= b,
    ensures
        emit_count(kind, digits, t, steps, a) <= emit_count(kind, digits, t, steps, b),
        emit_count(kind, digits, t, steps, b) - emit_count(kind, digits, t, steps, a) <= b - a,
    decreases b - a,
{
    if a < b {
        lemma_emit_count_le(kind, digits, t, steps, a, b - 1);
    }
}

proof fn lemma_emit_counts_below(
    kind: AxisKind,
    digits: nat,
    t: PlotTransform,
    steps: Seq<GridMark>,
    n: int,
)
    ensures
        forall|k: int|
            0 <= k < n ==> {
                &&& #[trigger] emit_count(kind, digits, t, steps, k) >= 0
                &&& emit_count(kind, digits, t, steps, k) + (if spec_emit(
                    kind,
                    digits,
                    t,
                    steps[k],
                ) {
                    1int
                } else {
                    0int
                }) <= emit_count(kind, digits, t, steps, n)
            },
        emit_count(kind, digits, t, steps, n) >= 0,
    decreases n,
{
    if n > 0 {
        lemma_emit_counts_below(kind, digits, t, steps, n - 1);
        assert(emit_count(kind, digits, t, steps, n) == emit_count(kind, digits, t, steps, n - 1)
            + if spec_emit(kind, digits, t, steps[n - 1]) {
            1int
        } else {
            0int
        });
    }
}

proof fn lemma_isqrt_exists(x: nat)
    ensures
        exists|r: nat| (#[trigger] (r * r)) <= x < (r + 1) * (r + 1),
    decreases x,
{
    if x == 0 {
        let z: nat = 0;
        assert(z * z <= x < (z + 1) * (z + 1)) by (nonlinear_arith)
            requires
                x == 0 && z == 0,
        ;
    } else {
        lemma_isqrt_exists((x - 1) as nat);
        let r = choose|r: nat| (#[trigger] (r * r)) <= x - 1 < (r + 1) * (r + 1);
        if (r + 1) * (r + 1) <= x {
            assert(x == (r + 1) * (r + 1));
            let s: nat = r + 1;
            assert(s * s <= x < (s + 1) * (s + 1)) by (nonlinear_arith)
                requires
                    x == s * s,
            ;
        } else {
            assert(r * r <= x < (r + 1) * (r + 1));
        }
    }
}

proof fn lemma_isqrt_unique(x: nat, a: nat, b: nat)
    requires
        a * a <= x < (a + 1) * (a + 1),
        b * b <= x < (b + 1) * (b + 1),
    ensures
        a == b,
{
    if a < b {
        assert((a + 1) * (a + 1) <= b * b) by (nonlinear_arith)
            requires
                a + 1 <= b,
        ;
    }
    if b < a {
        assert((b + 1) * (b + 1) <= a * a) by (nonlinear_arith)
            requires
                b + 1 <= a,
        ;
    }
}

/// The defining property of the integer square root.
pub proof fn lemma_isqrt_val(x: nat)
    ensures
        spec_isqrt(x) * spec_isqrt(x) <= x,
        x < (spec_isqrt(x) + 1) * (spec_isqrt(x) + 1),
{
    lemma_isqrt_exists(x);
    let r = choose|r: nat| (#[trigger] (r * r)) <= x < (r + 1) * (r + 1);
    assert(spec_isqrt(x) * spec_isqrt(x) <= x < (spec_isqrt(x) + 1) * (spec_isqrt(x) + 1));
}

proof fn lemma_isqrt_mono(a: nat, b: nat)
    requires
        a <= b,
    ensures
        spec_isqrt(a) <= spec_isqrt(b),
{
    lemma_isqrt_val(a);
    lemma_isqrt_val(b);
    let ia = spec_isqrt(a);
    let ib = spec_isqrt(b);
    if ia > ib {
        assert((ib + 1) * (ib + 1) <= ia * ia) by (nonlinear_arith)
            requires
                ib + 1 <= ia,
        ;
    }
}

fn isqrt_exec(x: u64) -> (r: u64)
    requires
        x <= 1_000_000_000_000,
    ensures
        r as nat == spec_isqrt(x as nat),
        r <= 1_000_000,
{
    let mut lo: u64 = 0;
    let mut hi: u64 = 1_000_001;
    while hi - lo > 1
        invariant
            lo < hi <= 1_000_001,
            (lo as nat) * (lo as nat) <= x as nat,
            (x as nat) < (hi as nat) * (hi as nat),
        decreases hi - lo,
    {
        let mid = lo + (hi - lo) / 2;
        proof {
            assert(mid as int * mid as int <= 1_000_001i64 * 1_000_001i64) by (nonlinear_arith)
                requires
                    0 <= mid as int <= 1_000_001,
            ;
        }
        if mid * mid <= x {
            lo = mid;
        } else {
            hi = mid;
        }
    }
    proof {
        assert(hi == lo + 1);
        lemma_isqrt_val(x as nat);
        lemma_isqrt_unique(x as nat, lo as nat, spec_isqrt(x as nat));
    }
    lo
}

/// Interpolate tick-label colors between the background extreme and the
/// foreground stroke, with a mixing factor of half the square root of the
/// given fade-in weight.
pub fn color_from_contrast(bg: Rgb, fg: Rgb, weight_micros: u64) -> (r: Rgb)
    requires
        weight_micros <= 1_000_000,
    ensures
        ({
            let mix = spec_isqrt((weight_micros * 1_000_000) as nat) as int / 2;
            &&& r.r as int == lerp_chan(bg.r as int, fg.r as int, mix)
            &&& r.g as int == lerp_chan(bg.g as int, fg.g as int, mix)
            &&& r.b as int == lerp_chan(bg.b as int, fg.b as int, mix)
        }),
{
    let root = isqrt_exec(weight_micros * 1_000_000);
    let mix = root / 2;
    Rgb {
        r: lerp_chan_exec(bg.r, fg.r, mix),
        g: lerp_chan_exec(bg.g, fg.g, mix),
        b: lerp_chan_exec(bg.b, fg.b, mix),
    }
}

fn lerp_chan_exec(bg: u8, fg: u8, mix: u64) -> (r: u8)
    requires
        mix <= 1_000_000,
    ensures
        r as int == lerp_chan(bg as int, fg as int, mix as int),
{
    let diff: i64 = (fg as i64) - (bg as i64);
    proof {
        let bgi = bg as int;
        let fgi = fg as int;
        let m = mix as int;
        assert((fgi - bgi) * m >= -255_000_000 && (fgi - bgi) * m <= 255_000_000 && bgi * 1_000_000
            + (fgi - bgi) * m >= 0 && bgi * 1_000_000 + (fgi - bgi) * m <= 255_000_000)
            by (nonlinear_arith)
            requires
                0 <= bgi <= 255 && 0 <= fgi <= 255 && 0 <= m <= 1_000_000,
        ;
    }
    let num: i64 = (bg as i64) * 1_000_000 + diff * (mix as i64);
    (num / 1_000_000) as u8
}

/// Transient per-frame state of one axis: the shown value range, the
/// configuration, the strip rectangle, the value-to-screen transform once
/// one exists, and the grid marks to label.
#[derive(Debug, Clone)]
pub struct AxisWidget {
    pub range: FixedRange,
    pub hints: AxisHints,
    pub rect: Rect,
    pub transform: Option<PlotTransform>,
    pub steps: Vec<GridMark>,
}

impl AxisWidget {
    /// A fresh widget: empty range, no transform, no grid marks yet.
    pub fn new(hints: AxisHints, rect: Rect) -> (r: Self)
        ensures
            r.hints == hints,
            r.rect == rect,
            r.range.min.as_micros() == 0,
            r.range.max.as_micros() == 0,
            r.transform is None,
            r.steps@ =~= Seq::<GridMark>::empty(),
    {
        AxisWidget {
            range: FixedRange { min: Fixed::zero(), max: Fixed::zero() },
            hints,
            rect,
            transform: None,
            steps: Vec::new(),
        }
    }

    /// The formatted text of every grid mark, in order, so the host can lay
    /// each out and measure it before `ui` is called.
    pub fn tick_texts(&self) -> (r: Vec<String>)
        ensures
            r@.len() == self.steps@.len(),
            forall|i: int|
                0 <= i < r@.len() ==> r@[i]@ == default_format_text(
                    #[trigger] self.steps@[i].value.as_micros(),
                    self.hints.digits as nat,
                ),
    {
        let mut out: Vec<String> = Vec::new();
        let mut i: usize = 0;
        while i < self.steps.len()
            invariant
                i <= self.steps@.len(),
                out@.len() == i as int,
                forall|k: int|
                    0 <= k < i as int ==> out@[k]@ == default_format_text(
                        #[trigger] self.steps@[k].value.as_micros(),
                        self.hints.digits as nat,
                    ),
            decreases self.steps@.len() - i,
        {
            let text = AxisHints::default_formatter(self.steps[i].value, self.hints.digits, &self.range);
            out.push(text);
            i = i + 1;
        }
        out
    }

    /// Lay the axis out: exactly one label shape, and one tick shape for
    /// each grid mark whose label is non-empty and whose on-screen spacing
    /// is above twenty units. With no transform yet, only the label is
    /// drawn. `label_size` and `tick_sizes` are the host-measured text
    /// extents; `tick_sizes[i]` belongs to the text of `steps[i]`.
    pub fn ui(self, label_size: Size, tick_sizes: &Vec<Size>, visuals: &AxisVisuals) -> (out:
        AxisShapes)
        requires
            tick_sizes@.len() == self.steps@.len(),
        ensures
            out.label.text == self.hints.label,
            out.label.color == spec_text_color(*visuals),
            out.label.angle == spec_label_angle(self.hints.kind),
            out.label.pos.x.as_micros() == spec_label_pos_x(
                self.hints.kind,
                self.hints.placement,
                self.rect,
                label_size,
            ),
            out.label.pos.y.as_micros() == spec_label_pos_y(
                self.hints.kind,
                self.hints.placement,
                self.rect,
                label_size,
            ),
            self.transform is None ==> out.ticks@.len() == 0,
            self.transform matches Some(t) ==> out.ticks@.len() == emit_count(
                self.hints.kind,
                self.hints.digits as nat,
                t,
                self.steps@,
                self.steps@.len() as int,
            ),
            self.transform matches Some(t) ==> forall|i: int|
                0 <= i < self.steps@.len() && spec_emit(
                    self.hints.kind,
                    self.hints.digits as nat,
                    t,
                    #[trigger] self.steps@[i],
                ) ==> spec_tick_shape_matches(
                    out.ticks@[emit_count(self.hints.kind, self.hints.digits as nat, t, self.steps@, i)],
                    self.hints.kind,
                    self.hints.placement,
                    self.rect,
                    t,
                    self.steps@[i],
                    tick_sizes@[i],
                    *visuals,
                    self.hints.digits as nat,
                ),
    {
        let kind = self.hints.kind;
        let placement = self.hints.placement;
        let digits = self.hints.digits;
        let rect = self.rect;
        let range = self.range;
        let label_text = self.hints.label;

        let color = match visuals.override_text_color {
            Some(c) => c,
            None => visuals.text_color,
        };
        let angle = match kind {
            AxisKind::Horizontal => TextAngle::Zero,
            AxisKind::Vertical => TextAngle::QuarterLeft,
        };
        let label_pos = match kind {
            AxisKind::Horizontal => {
                let x = rect.min.x.avg(rect.max.x).sub(label_size.x.div_pos(2));
                let y = match placement {
                    Placement::Default => rect.max.y.sub(label_size.y).sub(
                        label_size.y.div_pos(4),
                    ),
                    Placement::Opposite => rect.min.y.add(label_size.y.div_pos(4)),
                };
                Pos { x, y }
            },
            AxisKind::Vertical => {
                let y = rect.min.y.avg(rect.max.y).add(label_size.x.div_pos(2));
                let x = match placement {
                    Placement::Default => rect.min.x,
                    Placement::Opposite => rect.max.x.sub(label_size.y),
                };
                Pos { x, y }
            },
        };
        let label = LabelShape { pos: label_pos, text: label_text, color, angle };

        let mut ticks: Vec<TickShape> = Vec::new();
        let t = match self.transform {
            Some(t) => t,
            None => {
                return AxisShapes { label, ticks };
            },
        };
        let steps = self.steps;
        let ghost dn: nat = digits as nat;
        let mut i: usize = 0;
        while i < steps.len()
            invariant
                i <= steps@.len(),
                steps@.len() == tick_sizes@.len(),
                ticks@.len() == emit_count(kind, dn, t, steps@, i as int),
                dn == digits as nat,
                forall|k: int|
                    0 <= k < i as int && spec_emit(kind, dn, t, #[trigger] steps@[k])
                        ==> spec_tick_shape_matches(
                        ticks@[emit_count(kind, dn, t, steps@, k)],
                        kind,
                        placement,
                        rect,
                        t,
                        steps@[k],
                        tick_sizes@[k],
                        *visuals,
                        dn,
                    ),
            decreases steps@.len() - i,
        {
            let step = steps[i];
            let text = AxisHints::default_formatter(step.value, digits, &range);
            proof {
                lemma_emit_count_le(kind, dn, t, steps@, 0, i as int);
                lemma_emit_counts_below(kind, dn, t, steps@, i as int);
            }
            if !text.as_str().is_empty() {
                let spacing = t.dpos_dvalue(kind).mul(step.step_size).abs();
                let sp = spacing.micros();
                if sp > 20_000_000 {
                    let weight: u64 = if sp >= 40_000_000 {
                        1_000_000
                    } else {
                        ((sp - 20_000_000) / 20) as u64
                    };
                    proof {
                        assert(weight as int == spec_weight(
                            spec_spacing(kind, t, steps@[i as int]),
                        ));
                    }
                    let color = color_from_contrast(
                        visuals.extreme_bg_color,
                        visuals.fg_stroke_color,
                        weight,
                    );
                    let g = tick_sizes[i];
                    let pos = match kind {
                        AxisKind::Horizontal => {
                            let projected = t.position_from_point(
                                &PlotPoint { x: step.value, y: Fixed::zero() },
                            );
                            let x = projected.x.sub(g.x.div_pos(2));
                            let y = match placement {
                                Placement::Default => rect.min.y,
                                Placement::Opposite => rect.max.y.sub(g.y),
                            };
                            Pos { x, y }
                        },
                        AxisKind::Vertical => {
                            let projected = t.position_from_point(
                                &PlotPoint { x: Fixed::zero(), y: step.value },
                            );
                            let y = projected.y.sub(g.y.div_pos(2));
                            let x = match placement {
                                Placement::Default => rect.max.x.sub(g.x),
                                Placement::Opposite => rect.min.x,
                            };
                            Pos { x, y }
                        },
                    };
                    let shape = TickShape { pos, text, color };
                    proof {
                        assert(spec_tick_shape_matches(
                            shape,
                            kind,
                            placement,
                            rect,
                            t,
                            steps@[i as int],
                            tick_sizes@[i as int],
                            *visuals,
                            dn,
                        ));
                    }
                    ticks.push(shape);
                }
            }
            proof {
                assert(emit_count(kind, dn, t, steps@, i as int + 1) == emit_count(
                    kind,
                    dn,
                    t,
                    steps@,
                    i as int,
                ) + if spec_emit(kind, dn, t, steps@[i as int]) {
                    1int
                } else {
                    0int
                });
            }
            i = i + 1;
        }
        AxisShapes { label, ticks }
    }
}

/// Spacing at or below twenty screen units suppresses the tick label.
pub proof fn lemma_tick_suppressed(kind: AxisKind, digits: nat, t: PlotTransform, step: GridMark)
    requires
        spec_spacing(kind, t, step) <= 20_000_000,
    ensures
        !spec_emit(kind, digits, t, step),
{
}

/// Spacing at or above forty screen units gives the full-contrast mixing
/// factor of one half.
pub proof fn lemma_full_contrast(sp: int)
    requires
        sp >= 40_000_000,
    ensures
        spec_mix(sp) == 500_000,
{
    assert(spec_weight(sp) == 1_000_000);
    lemma_isqrt_val(1_000_000_000_000nat);
    assert(1_000_000nat * 1_000_000nat <= 1_000_000_000_000nat < (1_000_000nat + 1) * (
    1_000_000nat + 1)) by (nonlinear_arith);
    lemma_isqrt_unique(1_000_000_000_000nat, 1_000_000nat, spec_isqrt(1_000_000_000_000nat));
}

/// Between the two thresholds the mixing factor grows monotonically with
/// the spacing: wider-spaced ticks never lose contrast.
pub proof fn lemma_contrast_monotone(sp1: int, sp2: int)
    requires
        0 <= sp1 <= sp2,
    ensures
        spec_mix(sp1) <= spec_mix(sp2),
{
    assert(spec_weight(sp1) <= spec_weight(sp2));
    assert(spec_weight(sp1) * 1_000_000 <= spec_weight(sp2) * 1_000_000) by (nonlinear_arith)
        requires
            spec_weight(sp1) <= spec_weight(sp2),
    ;
    lemma_isqrt_mono(
        (spec_weight(sp1) * 1_000_000) as nat,
        (spec_weight(sp2) * 1_000_000) as nat,
    );
}

/// For a horizontal axis the two placements mirror the label box across the
/// rectangle's horizontal midline, and leave its x position unchanged; the
/// rotation is a function of the axis kind alone (`spec_label_angle`), so
/// it cannot differ between placements. The bounds keep every intermediate
/// value away from saturation.
pub proof fn lemma_placement_mirror_horizontal(rect: Rect, g: Size)
    requires
        int_abs(rect.min.y.as_micros()) <= FX_MAX as int / 4,
        int_abs(rect.max.y.as_micros()) <= FX_MAX as int / 4,
        0 <= g.y.as_micros() <= FX_MAX as int / 4,
    ensures
        spec_label_pos_y(AxisKind::Horizontal, Placement::Default, rect, g) + spec_label_pos_y(
            AxisKind::Horizontal,
            Placement::Opposite,
            rect,
            g,
        ) == rect.min.y.as_micros() + rect.max.y.as_micros() - g.y.as_micros(),
        spec_label_pos_x(AxisKind::Horizontal, Placement::Default, rect, g) == spec_label_pos_x(
            AxisKind::Horizontal,
            Placement::Opposite,
            rect,
            g,
        ),
{
    let q = tz_div(g.y.as_micros(), 4);
    assert(0 <= q <= g.y.as_micros());
}

/// For a vertical axis the two placements mirror the label box across the
/// rectangle's vertical midline, and leave its y position unchanged. The
/// label is rotated a quarter turn, so its on-screen width equals its
/// laid-out height `g.y`: the Default box spans from `min.x` and the
/// Opposite one ends at `max.x`, its exact reflection. The rotation is a
/// function of the axis kind alone (`spec_label_angle`), so it cannot
/// differ between placements. The bounds keep every intermediate value
/// away from saturation.
pub proof fn lemma_placement_mirror_vertical(rect: Rect, g: Size)
    requires
        int_abs(rect.min.x.as_micros()) <= FX_MAX as int / 4,
        int_abs(rect.max.x.as_micros()) <= FX_MAX as int / 4,
        0 <= g.y.as_micros() <= FX_MAX as int / 4,
    ensures
        spec_label_pos_x(AxisKind::Vertical, Placement::Default, rect, g) + spec_label_pos_x(
            AxisKind::Vertical,
            Placement::Opposite,
            rect,
            g,
        ) == rect.min.x.as_micros() + rect.max.x.as_micros() - g.y.as_micros(),
        spec_label_pos_y(AxisKind::Vertical, Placement::Default, rect, g) == spec_label_pos_y(
            AxisKind::Vertical,
            Placement::Opposite,
            rect,
            g,
        ),
{
}

} // verus!
