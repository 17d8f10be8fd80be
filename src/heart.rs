use vstd::prelude::*;

use crate::animation::HeartWidget;

verus! {

/// Path coordinates are offsets from the centre of the viewport, in units of
/// `min(width, height) * scale / OFFSET_UNITS`.
pub const OFFSET_UNITS: i64 = 10000;

/// Half the heart's width, as a percentage of `min(width, height) * scale`.
pub const HALF_WIDTH_PERCENT: u32 = 25;

/// The heart's height, as a percentage of `min(width, height) * scale`, in
/// the filled style.
pub const FILLED_HEIGHT_PERCENT: u32 = 48;

/// The heart's height, as a percentage of `min(width, height) * scale`, in
/// the outlined style.
pub const OUTLINED_HEIGHT_PERCENT: u32 = 45;

/// Width of the outline, in device units.
pub const STROKE_WIDTH: u32 = 4;

/// A point of the path, as an offset from the centre of the viewport.
#[derive(Clone, Copy, Debug, PartialEq, Eq, Structural)]
pub struct Offset {
    pub dx: i64,
    pub dy: i64,
}

/// One element of a bezier path.
#[derive(Clone, Copy, Debug, PartialEq, Eq, Structural)]
pub enum PathEl {
    MoveTo(Offset),
    /// A cubic segment: two control points, then the end point.
    CurveTo(Offset, Offset, Offset),
    ClosePath,
}

/// An opaque colour given by its red, green and blue bytes.
#[derive(Clone, Copy, Debug, PartialEq, Eq, Structural)]
pub struct Rgb8 {
    pub r: u8,
    pub g: u8,
    pub b: u8,
}

/// How the heart is drawn.
#[derive(Clone, Copy, Debug, PartialEq, Eq, Structural)]
pub struct HeartStyle {
    pub stroke: Rgb8,
    pub stroke_width: u32,
    pub fill: Option<Rgb8>,
    pub half_width_percent: u32,
    pub height_percent: u32,
}

/// One drawing operation on the heart's path.
#[derive(Clone, Copy, Debug, PartialEq, Eq, Structural)]
pub enum DrawCommand {
    Stroke { color: Rgb8, width: u32 },
    Fill { color: Rgb8 },
}

/// What one paint draws: a path and the operations applied to it, in order.
#[derive(Clone, Debug)]
pub struct PaintPlan {
    pub path: Vec<PathEl>,
    pub commands: Vec<DrawCommand>,
}

pub open spec fn black() -> Rgb8 {
    Rgb8 { r: 0, g: 0, b: 0 }
}

pub open spec fn red() -> Rgb8 {
    Rgb8 { r: 255, g: 0, b: 0 }
}

/// Half the heart's width in offset units.
pub open spec fn half_width_of(style: HeartStyle) -> int {
    style.half_width_percent * 100
}

/// A quarter of the heart's height in offset units.
pub open spec fn quarter_height_of(style: HeartStyle) -> int {
    style.height_percent * 25
}

/// The point `kx` half-widths right and `ky` quarter-heights down from the centre.
pub open spec fn grid(style: HeartStyle, kx: int, ky: int) -> Offset {
    Offset { dx: (kx * half_width_of(style)) as i64, dy: (ky * quarter_height_of(style)) as i64 }
}

/// The heart: from the bottom tip, through the left lobe up to the notch,
/// then through the right lobe back down to the tip, closed.
pub open spec fn heart_path_of(style: HeartStyle) -> Seq<PathEl> {
    seq![
        PathEl::MoveTo(grid(style, 0, 2)),
        PathEl::CurveTo(grid(style, -1, 1), grid(style, -1, -2), grid(style, 0, -1)),
        PathEl::CurveTo(grid(style, 1, -2), grid(style, 1, 1), grid(style, 0, 2)),
        PathEl::ClosePath,
    ]
}

/// The outline first, then the fill when the style has one.
pub open spec fn commands_of(style: HeartStyle) -> Seq<DrawCommand> {
    let stroke = DrawCommand::Stroke { color: style.stroke, width: style.stroke_width };
    match style.fill {
        Some(c) => seq![stroke, DrawCommand::Fill { color: c }],
        None => seq![stroke],
    }
}

/// The end point of a path element, where it has one.
pub open spec fn end_of(e: PathEl) -> Option<Offset> {
    match e {
        PathEl::MoveTo(p) => Some(p),
        PathEl::CurveTo(_, _, p) => Some(p),
        PathEl::ClosePath => None,
    }
}

/// A path that starts with a move, ends with a close, and whose last drawn
/// segment ends where the path started.
pub open spec fn is_closed(p: Seq<PathEl>) -> bool {
    &&& p.len() >= 3
    &&& p[0] is MoveTo
    &&& p.last() is ClosePath
    &&& end_of(p[p.len() - 2]) == end_of(p[0])
}

/// The reflection of a point in the vertical axis through the centre.
pub open spec fn mirror(p: Offset) -> Offset {
    Offset { dx: (-p.dx) as i64, dy: p.dy }
}

/// The second segment retraces the first in mirror image, from the notch on
/// the axis back to the tip on the axis.
pub open spec fn is_symmetric(p: Seq<PathEl>) -> bool {
    &&& p.len() == 4
    &&& p[0] matches PathEl::MoveTo(s)
    &&& p[1] matches PathEl::CurveTo(a, b, n)
    &&& p[2] matches PathEl::CurveTo(c, d, e)
    &&& s.dx == 0 && n.dx == 0
    &&& c == mirror(b) && d == mirror(a) && e == mirror(s)
}

impl HeartStyle {
    /// Black outline filled with red; the taller heart.
    pub fn filled() -> (r: HeartStyle)
        ensures
            r.stroke == black(),
            r.stroke_width == STROKE_WIDTH,
            r.fill == Some(red()),
            r.half_width_percent == HALF_WIDTH_PERCENT,
            r.height_percent == FILLED_HEIGHT_PERCENT,
    {
        HeartStyle {
            stroke: Rgb8 { r: 0, g: 0, b: 0 },
            stroke_width: STROKE_WIDTH,
            fill: Some(Rgb8 { r: 255, g: 0, b: 0 }),
            half_width_percent: HALF_WIDTH_PERCENT,
            height_percent: FILLED_HEIGHT_PERCENT,
        }
    }

    /// Red outline with no fill; the shorter heart.
    pub fn outlined() -> (r: HeartStyle)
        ensures
            r.stroke == red(),
            r.stroke_width == STROKE_WIDTH,
            r.fill == None::<Rgb8>,
            r.half_width_percent == HALF_WIDTH_PERCENT,
            r.height_percent == OUTLINED_HEIGHT_PERCENT,
    {
        HeartStyle {
            stroke: Rgb8 { r: 255, g: 0, b: 0 },
            stroke_width: STROKE_WIDTH,
            fill: None,
            half_width_percent: HALF_WIDTH_PERCENT,
            height_percent: OUTLINED_HEIGHT_PERCENT,
        }
    }
}

fn point(style: &HeartStyle, kx: i64, ky: i64) -> (r: Offset)
    requires
        -2 <= kx <= 2,
        -2 <= ky <= 2,
    ensures
        r == grid(*style, kx as int, ky as int),
{
    let hw: i64 = style.half_width_percent as i64 * 100;
    let qh: i64 = style.height_percent as i64 * 25;
    assert(-2 * hw <= kx * hw <= 2 * hw) by (nonlinear_arith)
        requires
            -2 <= kx <= 2,
            0 <= hw,
    ;
    assert(-2 * qh <= ky * qh <= 2 * qh) by (nonlinear_arith)
        requires
            -2 <= ky <= 2,
            0 <= qh,
    ;
    Offset { dx: kx * hw, dy: ky * qh }
}

/// The heart's path for `style`, independent of the viewport and the time.
pub fn heart_path(style: &HeartStyle) -> (r: Vec<PathEl>)
    ensures
        r@ == heart_path_of(*style),
{
    let mut r: Vec<PathEl> = Vec::new();
    r.push(PathEl::MoveTo(point(style, 0, 2)));
    r.push(PathEl::CurveTo(point(style, -1, 1), point(style, -1, -2), point(style, 0, -1)));
    r.push(PathEl::CurveTo(point(style, 1, -2), point(style, 1, 1), point(style, 0, 2)));
    r.push(PathEl::ClosePath);
    proof {
        assert(r@ =~= heart_path_of(*style));
    }
    r
}

/// The drawing operations for `style`: the outline, then the fill if any.
pub fn paint_commands(style: &HeartStyle) -> (r: Vec<DrawCommand>)
    ensures
        r@ == commands_of(*style),
{
    let mut r: Vec<DrawCommand> = Vec::new();
    r.push(DrawCommand::Stroke { color: style.stroke, width: style.stroke_width });
    match style.fill {
        Some(c) => r.push(DrawCommand::Fill { color: c }),
        None => {},
    }
    proof {
        assert(r@ =~= commands_of(*style));
    }
    r
}

impl HeartWidget {
    /// What to draw for one frame: the heart's path and the operations on it.
    /// The result depends on the style alone; the host places it at the
    /// centre of the viewport and scales it by the pulse.
    pub fn paint(&self, style: &HeartStyle) -> (r: PaintPlan)
        ensures
            r.path@ == heart_path_of(*style),
            r.commands@ == commands_of(*style),
    {
        PaintPlan { path: heart_path(style), commands: paint_commands(style) }
    }
}

/// The heart's path is closed: its last segment ends at its starting point,
/// the bottom tip.
pub proof fn lemma_heart_path_closed(style: HeartStyle)
    ensures
        is_closed(heart_path_of(style)),
        end_of(heart_path_of(style)[0]) == Some(grid(style, 0, 2)),
{
}

/// The heart's two segments are mirror images of each other.
pub proof fn lemma_heart_path_symmetric(style: HeartStyle)
    ensures
        is_symmetric(heart_path_of(style)),
{
    let hw = half_width_of(style);
    let qh = quarter_height_of(style);
    assert(0 <= hw <= 100 * 0xffff_ffff) by (nonlinear_arith)
        requires hw == style.half_width_percent * 100, 0 <= style.half_width_percent <= 0xffff_ffff;
    assert(0 <= qh <= 25 * 0xffff_ffff) by (nonlinear_arith)
        requires qh == style.height_percent * 25, 0 <= style.height_percent <= 0xffff_ffff;
}

/// Painting is a pure function: equal inputs give equal paths and equal
/// sequences of drawing operations.
pub proof fn lemma_paint_is_pure(a: HeartStyle, b: HeartStyle)
    requires
        a == b,
    ensures
        heart_path_of(a) == heart_path_of(b),
        commands_of(a) == commands_of(b),
{
}

} // verus!
