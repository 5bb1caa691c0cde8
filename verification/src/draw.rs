//! The render pass, as data: every draw method computes the exact list of
//! path commands for the drawing surface instead of calling it.  The
//! surrounding application replays the commands against the real canvas.
//! Coordinates and widths are millipixels.
//!
//! The decorative sine striations inside a tube cannot be computed here
//! (they need floating-point trigonometry); each is emitted as one
//! [`DrawCmd::Striation`] value carrying everything the application needs
//! to expand it: the tube's base points, its magnitude, the side, and the
//! open/stopped mode that picks the striation period.

use vstd::prelude::*;

use crate::geometry::Circle;
use crate::geometry::Point;
use crate::geometry::Rectangle;
use crate::geometry::Segment;
use crate::geometry::Vector2;
use crate::geometry::isqrt;
use crate::geometry::lemma_isqrt_unique;
use crate::tube::Tube;

verus! {

/// One command for the drawing surface.
#[derive(Clone, Copy, Debug, PartialEq)]
pub enum DrawCmd {
    BeginPath,
    MoveTo { x: i64, y: i64 },
    LineTo { x: i64, y: i64 },
    /// A full circle around `(x, y)`.
    Arc { x: i64, y: i64, radius: i64 },
    SetLineWidth { width: i64 },
    SetStrokeStyle { color: &'static str },
    SetFillStyle { color: &'static str },
    Stroke,
    Fill,
    FillRect { x: i64, y: i64, w: i64, h: i64 },
    /// A decorative sine polyline from `(from_x, from_y)` toward
    /// `(to_x, to_y)`, swinging to the left or right side, with the
    /// period chosen by the pipe mode.
    Striation {
        from_x: i64,
        from_y: i64,
        to_x: i64,
        to_y: i64,
        magnitude: i64,
        dir_left: bool,
        open: bool,
    },
}

impl Circle {
    /// The command list that paints the circle filled in `color`.
    pub open spec fn spec_draw(self, color: &'static str) -> Seq<DrawCmd> {
        seq![
            DrawCmd::BeginPath,
            DrawCmd::MoveTo { x: self.x, y: self.y },
            DrawCmd::Arc { x: self.x, y: self.y, radius: self.radius },
            DrawCmd::SetFillStyle { color },
            DrawCmd::Fill,
        ]
    }

    /// Paint the circle filled in `color`.
    pub fn draw(&self, color: &'static str) -> (cmds: Vec<DrawCmd>)
        ensures
            cmds@ == self.spec_draw(color),
    {
        let mut cmds: Vec<DrawCmd> = Vec::new();
        cmds.push(DrawCmd::BeginPath);
        cmds.push(DrawCmd::MoveTo { x: self.x, y: self.y });
        cmds.push(DrawCmd::Arc { x: self.x, y: self.y, radius: self.radius });
        cmds.push(DrawCmd::SetFillStyle { color });
        cmds.push(DrawCmd::Fill);
        proof {
            assert(cmds@ =~= self.spec_draw(color));
        }
        cmds
    }
}

impl Segment {
    /// The command list that paints the segment: a grey marker on its
    /// start, a purple marker on its end, then the stroked line itself.
    pub open spec fn spec_draw(self, color: &'static str) -> Seq<DrawCmd> {
        Circle { x: self.from.x, y: self.from.y, radius: 4_000 }.spec_draw("grey") + Circle {
            x: self.to.x,
            y: self.to.y,
            radius: 4_000,
        }.spec_draw("purple") + seq![
            DrawCmd::BeginPath,
            DrawCmd::MoveTo { x: self.from.x, y: self.from.y },
            DrawCmd::LineTo { x: self.to.x, y: self.to.y },
            DrawCmd::SetStrokeStyle { color },
            DrawCmd::SetLineWidth { width: 3_000 },
            DrawCmd::Stroke,
        ]
    }

    /// Paint the segment with its endpoint markers.
    pub fn draw(self, color: &'static str) -> (cmds: Vec<DrawCmd>)
        ensures
            cmds@ == self.spec_draw(color),
    {
        let mut cmds = Circle::new(self.from, 4_000).draw("grey");
        let mut tail = Circle::new(self.to, 4_000).draw("purple");
        cmds.append(&mut tail);
        cmds.push(DrawCmd::BeginPath);
        cmds.push(DrawCmd::MoveTo { x: self.from.x, y: self.from.y });
        cmds.push(DrawCmd::LineTo { x: self.to.x, y: self.to.y });
        cmds.push(DrawCmd::SetStrokeStyle { color });
        cmds.push(DrawCmd::SetLineWidth { width: 3_000 });
        cmds.push(DrawCmd::Stroke);
        proof {
            assert(cmds@ =~= self.spec_draw(color));
        }
        cmds
    }
}

impl Rectangle {
    /// The four corners: the base points offset by the half-height
    /// orthogonal vectors of the centerline.
    pub open spec fn spec_corners(self) -> (Point, Point, Point, Point) {
        let v = Vector2 {
            x: (self.base_a.x - self.base_b.x) as i64,
            y: (self.base_a.y - self.base_b.y) as i64,
        };
        let h2 = crate::geometry::trunc_div(self.height as int, 2);
        let v1 = v.spec_orthogonal_ccw().spec_with_length(h2);
        let v2 = v.spec_orthogonal_cw().spec_with_length(h2);
        (
            Point { x: (self.base_a.x + v1.x) as i64, y: (self.base_a.y + v1.y) as i64 },
            Point { x: (self.base_a.x + v2.x) as i64, y: (self.base_a.y + v2.y) as i64 },
            Point { x: (self.base_b.x + v2.x) as i64, y: (self.base_b.y + v2.y) as i64 },
            Point { x: (self.base_b.x + v1.x) as i64, y: (self.base_b.y + v1.y) as i64 },
        )
    }

    /// The command list that strokes the rectangle's outline (three sides
    /// and the closing edge, as the original path runs them).
    pub open spec fn spec_draw(self, color: &'static str) -> Seq<DrawCmd> {
        let (p1, p2, p3, p4) = self.spec_corners();
        seq![
            DrawCmd::SetLineWidth { width: 4_000 },
            DrawCmd::BeginPath,
            DrawCmd::MoveTo { x: p1.x, y: p1.y },
            DrawCmd::LineTo { x: p2.x, y: p2.y },
            DrawCmd::LineTo { x: p3.x, y: p3.y },
            DrawCmd::MoveTo { x: p4.x, y: p4.y },
            DrawCmd::LineTo { x: p1.x, y: p1.y },
            DrawCmd::SetStrokeStyle { color },
            DrawCmd::Stroke,
        ]
    }

    /// Stroke the rectangle's outline.
    pub fn draw(&self, color: &'static str) -> (cmds: Vec<DrawCmd>)
        requires
            self.valid(),
            self.base_a != self.base_b,
        ensures
            cmds@ == self.spec_draw(color),
    {
        let v = Vector2::from_segment(Segment { from: self.base_a, to: self.base_b });
        let h2: i64 = crate::geometry::div_trunc_i64(self.height, 2);
        let o1 = v.orthogonal_ccw();
        let o2 = v.orthogonal_cw();
        proof {
            assert(o1.mag_sq() > 0 && o2.mag_sq() > 0) by (nonlinear_arith)
                requires
                    o1.x == -v.y && o1.y == v.x,
                    o2.x == v.y && o2.y == -v.x,
                    !(v.x == 0 && v.y == 0),
            ;
        }
        let v1 = o1.with_length(h2);
        let v2 = o2.with_length(h2);
        let p1 = self.base_a.translate(v1);
        let p2 = self.base_a.translate(v2);
        let p3 = self.base_b.translate(v2);
        let p4 = self.base_b.translate(v1);
        let mut cmds: Vec<DrawCmd> = Vec::new();
        cmds.push(DrawCmd::SetLineWidth { width: 4_000 });
        cmds.push(DrawCmd::BeginPath);
        cmds.push(DrawCmd::MoveTo { x: p1.x, y: p1.y });
        cmds.push(DrawCmd::LineTo { x: p2.x, y: p2.y });
        cmds.push(DrawCmd::LineTo { x: p3.x, y: p3.y });
        cmds.push(DrawCmd::MoveTo { x: p4.x, y: p4.y });
        cmds.push(DrawCmd::LineTo { x: p1.x, y: p1.y });
        cmds.push(DrawCmd::SetStrokeStyle { color });
        cmds.push(DrawCmd::Stroke);
        proof {
            assert(cmds@ =~= self.spec_draw(color));
        }
        cmds
    }
}

/// `isqrt` of a perfect square is its root.
proof fn lemma_isqrt_square(n: nat)
    ensures
        isqrt(n * n) == n,
{
    assert(n * n <= n * n && n * n < (n + 1) * (n + 1)) by (nonlinear_arith);
    lemma_isqrt_unique(n * n, n);
}

impl Tube {
    /// The striation descriptor on one side of the tube.
    pub open spec fn spec_striation(self, dir_left: bool) -> Seq<DrawCmd> {
        seq![
            DrawCmd::BeginPath,
            DrawCmd::MoveTo { x: self.from.x, y: self.from.y },
            DrawCmd::Striation {
                from_x: self.from.x,
                from_y: self.from.y,
                to_x: self.from.x,
                to_y: (self.from.y - self.length) as i64,
                magnitude: self.length,
                dir_left,
                open: self.open,
            },
            DrawCmd::SetLineWidth { width: 2_000 },
            DrawCmd::SetStrokeStyle { color: "#94b4dd" },
            DrawCmd::Stroke,
        ]
    }

    /// The stroke colour of the tube's body: magenta when selected, one
    /// cyan when sounding, another when silent.
    pub open spec fn spec_body_color(self) -> &'static str {
        if self.selected {
            "#f0f"
        } else if self.source.playing {
            "#0fc"
        } else {
            "#0ff"
        }
    }

    /// The command list that paints the tube: its body outline 10 px to
    /// each side of the vertical extent, open at the top edge, and open at
    /// the bottom edge too when the pipe is open at both ends; then the
    /// two sine striations.
    pub open spec fn spec_draw(self) -> Seq<DrawCmd> {
        let x = self.from.x;
        let y = self.from.y;
        let top = (y - self.length) as i64;
        seq![
            DrawCmd::SetLineWidth { width: 4_000 },
            DrawCmd::BeginPath,
            DrawCmd::MoveTo { x: (x - 10_000) as i64, y },
            if self.open {
                DrawCmd::MoveTo { x: (x + 10_000) as i64, y }
            } else {
                DrawCmd::LineTo { x: (x + 10_000) as i64, y }
            },
            DrawCmd::LineTo { x: (x + 10_000) as i64, y: top },
            DrawCmd::MoveTo { x: (x - 10_000) as i64, y: top },
            DrawCmd::LineTo { x: (x - 10_000) as i64, y },
            DrawCmd::SetStrokeStyle { color: self.spec_body_color() },
            DrawCmd::Stroke,
        ] + self.spec_striation(true) + self.spec_striation(false)
    }

    /// Paint the tube.
    pub fn draw(&self) -> (cmds: Vec<DrawCmd>)
        requires
            self.wf(),
        ensures
            cmds@ == self.spec_draw(),
    {
        let seg = self.segment();
        let v = Vector2::from_segment(seg);
        proof {
            assert(v.x == 0 && v.y == self.length);
            assert(v.mag_sq() == self.length * self.length) by (nonlinear_arith)
                requires
                    v.x == 0,
                    v.y == self.length,
            ;
            assert(v.mag_sq() > 0) by (nonlinear_arith)
                requires
                    v.mag_sq() == self.length * self.length,
                    self.length >= 1,
            ;
        }
        let o1 = v.orthogonal_ccw();
        let o2 = v.orthogonal_cw();
        proof {
            assert(o1.mag_sq() == self.length * self.length && o2.mag_sq() == self.length
                * self.length) by (nonlinear_arith)
                requires
                    o1.x == -self.length && o1.y == 0,
                    o2.x == self.length && o2.y == 0,
            ;
            lemma_isqrt_square(self.length as nat);
            vstd::arithmetic::div_mod::lemma_div_multiples_vanish(
                10_000int,
                self.length as int,
            );
            vstd::arithmetic::mul::lemma_mul_is_commutative(self.length as int, 10_000int);
        }
        let v1 = o1.with_length(10_000);
        let v2 = o2.with_length(10_000);
        proof {
            assert(v1.x == -10_000 && v1.y == 0);
            assert(v2.x == 10_000 && v2.y == 0);
        }
        let p1 = seg.from.translate(v1);
        let p2 = seg.from.translate(v2);
        let p3 = seg.to.translate(v2);
        let p4 = seg.to.translate(v1);
        let mut cmds: Vec<DrawCmd> = Vec::new();
        cmds.push(DrawCmd::SetLineWidth { width: 4_000 });
        cmds.push(DrawCmd::BeginPath);
        cmds.push(DrawCmd::MoveTo { x: p1.x, y: p1.y });
        if self.open {
            cmds.push(DrawCmd::MoveTo { x: p2.x, y: p2.y });
        } else {
            cmds.push(DrawCmd::LineTo { x: p2.x, y: p2.y });
        }
        cmds.push(DrawCmd::LineTo { x: p3.x, y: p3.y });
        cmds.push(DrawCmd::MoveTo { x: p4.x, y: p4.y });
        cmds.push(DrawCmd::LineTo { x: p1.x, y: p1.y });
        cmds.push(DrawCmd::SetStrokeStyle { color: if self.selected {
            "#f0f"
        } else if self.source.playing {
            "#0fc"
        } else {
            "#0ff"
        } });
        cmds.push(DrawCmd::Stroke);
        let mut left = self.striation(true);
        cmds.append(&mut left);
        let mut right = self.striation(false);
        cmds.append(&mut right);
        proof {
            assert(cmds@ =~= self.spec_draw());
        }
        cmds
    }

    /// One striation descriptor, ready for the drawing surface.
    fn striation(&self, dir_left: bool) -> (cmds: Vec<DrawCmd>)
        requires
            self.wf(),
        ensures
            cmds@ == self.spec_striation(dir_left),
    {
        let mut cmds: Vec<DrawCmd> = Vec::new();
        cmds.push(DrawCmd::BeginPath);
        cmds.push(DrawCmd::MoveTo { x: self.from.x, y: self.from.y });
        cmds.push(DrawCmd::Striation {
            from_x: self.from.x,
            from_y: self.from.y,
            to_x: self.from.x,
            to_y: self.from.y - self.length,
            magnitude: self.length,
            dir_left,
            open: self.open,
        });
        cmds.push(DrawCmd::SetLineWidth { width: 2_000 });
        cmds.push(DrawCmd::SetStrokeStyle { color: "#94b4dd" });
        cmds.push(DrawCmd::Stroke);
        proof {
            assert(cmds@ =~= self.spec_striation(dir_left));
        }
        cmds
    }
}

} // verus!

verus! {

/// The status panel content for the selected tube: pipe mode, length
/// (millipixels), frequency (millihertz) and the exact-match note name, if
/// any.  The application formats and displays it.
#[derive(Clone, Copy, Debug, PartialEq)]
pub struct StatusInfo {
    pub open: bool,
    pub length: i64,
    pub frequency: u64,
    pub note: Option<&'static str>,
}

/// The first `i` vertical grid lines, one per 20 px column.
pub open spec fn spec_vlines_upto(h: int, i: nat) -> Seq<DrawCmd>
    decreases i,
{
    if i == 0 {
        Seq::<DrawCmd>::empty()
    } else {
        spec_vlines_upto(h, (i - 1) as nat) + seq![
            DrawCmd::MoveTo { x: (20_000 * (i - 1)) as i64, y: 0 },
            DrawCmd::LineTo { x: (20_000 * (i - 1)) as i64, y: (20_000 * h) as i64 },
        ]
    }
}

/// The first `i` horizontal grid lines, one per 20 px row.
pub open spec fn spec_hlines_upto(w: int, i: nat) -> Seq<DrawCmd>
    decreases i,
{
    if i == 0 {
        Seq::<DrawCmd>::empty()
    } else {
        spec_hlines_upto(w, (i - 1) as nat) + seq![
            DrawCmd::MoveTo { x: 0, y: (20_000 * (i - 1)) as i64 },
            DrawCmd::LineTo { x: (20_000 * w) as i64, y: (20_000 * (i - 1)) as i64 },
        ]
    }
}

/// The stroked outline of an axis-aligned rectangle between the two given
/// corners (millipixels).
pub open spec fn spec_rect_outline(x1: int, y1: int, x2: int, y2: int) -> Seq<DrawCmd> {
    seq![
        DrawCmd::BeginPath,
        DrawCmd::MoveTo { x: x1 as i64, y: y1 as i64 },
        DrawCmd::LineTo { x: x2 as i64, y: y1 as i64 },
        DrawCmd::LineTo { x: x2 as i64, y: y2 as i64 },
        DrawCmd::LineTo { x: x1 as i64, y: y2 as i64 },
        DrawCmd::LineTo { x: x1 as i64, y: y1 as i64 },
        DrawCmd::Stroke,
    ]
}

/// The filled 20 px squares of the first `i` marked cells.
pub open spec fn spec_fill_cells_upto(points: Seq<crate::geometry::Cell>, i: nat) -> Seq<DrawCmd>
    decreases i,
{
    if i == 0 {
        Seq::<DrawCmd>::empty()
    } else {
        spec_fill_cells_upto(points, (i - 1) as nat) + seq![
            DrawCmd::FillRect {
                x: (20_000 * points[i - 1].col) as i64,
                y: (20_000 * points[i - 1].row) as i64,
                w: 20_000,
                h: 20_000,
            },
        ]
    }
}

/// The bodies of the first `i` tubes, in z-order.
pub open spec fn spec_tube_draws_upto(tubes: Seq<Tube>, i: nat) -> Seq<DrawCmd>
    decreases i,
{
    if i == 0 {
        Seq::<DrawCmd>::empty()
    } else {
        spec_tube_draws_upto(tubes, (i - 1) as nat) + tubes[i - 1].spec_draw()
    }
}

/// The status panel content: the selected tube's data, if one is
/// selected.
pub open spec fn spec_status(tubes: Seq<Tube>) -> Option<StatusInfo> {
    match crate::universe::first_selected(tubes) {
        Some(i) => Some(
            StatusInfo {
                open: tubes[i].open,
                length: tubes[i].length,
                frequency: tubes[i].source.frequency,
                note: crate::acoustics::spec_note_name(tubes[i].source.frequency as int / 1_000),
            },
        ),
        None => None,
    }
}

/// With at most one tube selected, finding a selected tube pins down
/// `first_selected`.
proof fn lemma_first_selected_from_reaches(tubes: Seq<Tube>, k: nat, i: int)
    requires
        k <= i < tubes.len(),
        tubes[i].selected,
        forall|m: int| k <= m < i ==> !(#[trigger] tubes[m]).selected,
    ensures
        crate::universe::first_selected_from(tubes, k) == Some(i),
    decreases i - k,
{
    if k < i {
        lemma_first_selected_from_reaches(tubes, k + 1, i);
    }
}

impl crate::universe::Universe {
    /// The stroked outline of an axis-aligned rectangle between pixel
    /// corners.
    pub fn draw_rect(&self, x1: usize, y1: usize, x2: usize, y2: usize) -> (cmds: Vec<DrawCmd>)
        requires
            x1 <= 1_100_000,
            y1 <= 1_100_000,
            x2 <= 1_100_000,
            y2 <= 1_100_000,
        ensures
            cmds@ == spec_rect_outline(1_000 * x1, 1_000 * y1, 1_000 * x2, 1_000 * y2),
    {
        let mx1: i64 = 1_000 * (x1 as i64);
        let my1: i64 = 1_000 * (y1 as i64);
        let mx2: i64 = 1_000 * (x2 as i64);
        let my2: i64 = 1_000 * (y2 as i64);
        let mut cmds: Vec<DrawCmd> = Vec::new();
        cmds.push(DrawCmd::BeginPath);
        cmds.push(DrawCmd::MoveTo { x: mx1, y: my1 });
        cmds.push(DrawCmd::LineTo { x: mx2, y: my1 });
        cmds.push(DrawCmd::LineTo { x: mx2, y: my2 });
        cmds.push(DrawCmd::LineTo { x: mx1, y: my2 });
        cmds.push(DrawCmd::LineTo { x: mx1, y: my1 });
        cmds.push(DrawCmd::Stroke);
        proof {
            assert(cmds@ =~= spec_rect_outline(
                1_000 * x1,
                1_000 * y1,
                1_000 * x2,
                1_000 * y2,
            ));
        }
        cmds
    }

    /// The background grid: faint lines every 20 px over the whole scene,
    /// and a red box around the cell of a pending placement.
    pub fn draw_grid(&self) -> (cmds: Vec<DrawCmd>)
        requires
            self.width <= 50_000,
            self.height <= 50_000,
            match self.pending {
                Some(p) => p.cell.valid(),
                None => true,
            },
        ensures
            cmds@ == seq![
                DrawCmd::BeginPath,
                DrawCmd::SetLineWidth { width: 500 },
                DrawCmd::SetStrokeStyle { color: "#CCCCCC" },
            ] + spec_vlines_upto(self.height as int, (self.width + 1) as nat) + spec_hlines_upto(
                self.width as int,
                (self.height + 1) as nat,
            ) + seq![DrawCmd::Stroke] + (match self.pending {
                Some(p) => seq![
                    DrawCmd::SetStrokeStyle { color: "#f00" },
                    DrawCmd::SetLineWidth { width: 3_000 },
                ] + spec_rect_outline(
                    20_000 * p.cell.col as int,
                    20_000 * p.cell.row as int,
                    20_000 * (p.cell.col + 1),
                    20_000 * (p.cell.row + 1),
                ),
                None => Seq::<DrawCmd>::empty(),
            }),
    {
        let mut cmds: Vec<DrawCmd> = Vec::new();
        cmds.push(DrawCmd::BeginPath);
        cmds.push(DrawCmd::SetLineWidth { width: 500 });
        cmds.push(DrawCmd::SetStrokeStyle { color: "#CCCCCC" });
        let ghost head = cmds@;
        let mut i: usize = 0;
        while i <= self.width
            invariant
                i <= self.width + 1,
                self.width <= 50_000,
                self.height <= 50_000,
                cmds@ == head + spec_vlines_upto(self.height as int, i as nat),
            decreases self.width + 1 - i,
        {
            let x: i64 = 20_000 * (i as i64);
            cmds.push(DrawCmd::MoveTo { x, y: 0 });
            cmds.push(DrawCmd::LineTo { x, y: 20_000 * (self.height as i64) });
            proof {
                assert(cmds@ =~= head + spec_vlines_upto(self.height as int, (i + 1) as nat));
            }
            i = i + 1;
        }
        let ghost mid = cmds@;
        let mut j: usize = 0;
        while j <= self.height
            invariant
                j <= self.height + 1,
                self.width <= 50_000,
                self.height <= 50_000,
                cmds@ == mid + spec_hlines_upto(self.width as int, j as nat),
            decreases self.height + 1 - j,
        {
            let y: i64 = 20_000 * (j as i64);
            cmds.push(DrawCmd::MoveTo { x: 0, y });
            cmds.push(DrawCmd::LineTo { x: 20_000 * (self.width as i64), y });
            proof {
                assert(cmds@ =~= mid + spec_hlines_upto(self.width as int, (j + 1) as nat));
            }
            j = j + 1;
        }
        cmds.push(DrawCmd::Stroke);
        match self.pending {
            Some(p) => {
                cmds.push(DrawCmd::SetStrokeStyle { color: "#f00" });
                cmds.push(DrawCmd::SetLineWidth { width: 3_000 });
                let mut boxed = self.draw_rect(
                    p.cell.col * 20,
                    p.cell.row * 20,
                    (p.cell.col + 1) * 20,
                    (p.cell.row + 1) * 20,
                );
                cmds.append(&mut boxed);
            },
            None => {},
        }
        proof {
            assert(cmds@ =~= seq![
                DrawCmd::BeginPath,
                DrawCmd::SetLineWidth { width: 500 },
                DrawCmd::SetStrokeStyle { color: "#CCCCCC" },
            ] + spec_vlines_upto(self.height as int, (self.width + 1) as nat)
                + spec_hlines_upto(self.width as int, (self.height + 1) as nat)
                + seq![DrawCmd::Stroke] + (match self.pending {
                Some(p) => seq![
                    DrawCmd::SetStrokeStyle { color: "#f00" },
                    DrawCmd::SetLineWidth { width: 3_000 },
                ] + spec_rect_outline(
                    20_000 * p.cell.col as int,
                    20_000 * p.cell.row as int,
                    20_000 * (p.cell.col + 1),
                    20_000 * (p.cell.row + 1),
                ),
                None => Seq::<DrawCmd>::empty(),
            }));
        }
        cmds
    }

    /// The foreground pass: the marked cells filled, every tube's body,
    /// and the selected tube's data for the status panel.
    pub fn draw_points(&self) -> (r: (Vec<DrawCmd>, Option<StatusInfo>))
        requires
            self.wf(),
            forall|k: int|
                0 <= k < self.points@.len() ==> (#[trigger] self.points@[k]).valid(),
        ensures
            r.0@ == seq![DrawCmd::SetStrokeStyle { color: "#00000" }] + spec_fill_cells_upto(
                self.points@,
                self.points@.len(),
            ) + spec_tube_draws_upto(self.tubes@, self.tubes@.len()),
            r.1 == spec_status(self.tubes@),
    {
        let mut cmds: Vec<DrawCmd> = Vec::new();
        cmds.push(DrawCmd::SetStrokeStyle { color: "#00000" });
        let ghost head = cmds@;
        let mut i: usize = 0;
        let np = self.points.len();
        while i < np
            invariant
                i <= np,
                np == self.points@.len(),
                forall|k: int|
                    0 <= k < self.points@.len() ==> (#[trigger] self.points@[k]).valid(),
                cmds@ == head + spec_fill_cells_upto(self.points@, i as nat),
            decreases np - i,
        {
            let c = self.points[i];
            cmds.push(DrawCmd::FillRect {
                x: 20_000 * (c.col as i64),
                y: 20_000 * (c.row as i64),
                w: 20_000,
                h: 20_000,
            });
            proof {
                assert(cmds@ =~= head + spec_fill_cells_upto(self.points@, (i + 1) as nat));
            }
            i = i + 1;
        }
        let ghost mid = cmds@;
        let mut status: Option<StatusInfo> = None;
        let mut j: usize = 0;
        let nt = self.tubes.len();
        while j < nt
            invariant
                j <= nt,
                nt == self.tubes@.len(),
                self.wf(),
                cmds@ == mid + spec_tube_draws_upto(self.tubes@, j as nat),
                match crate::universe::first_selected(self.tubes@) {
                    Some(s) => {
                        &&& (0 <= s < j ==> status == spec_status(self.tubes@))
                        &&& (s >= j || s < 0 ==> status is None)
                    },
                    None => status is None,
                },
            decreases nt - j,
        {
            let t = self.tubes[j];
            let mut body = t.draw();
            cmds.append(&mut body);
            proof {
                assert(cmds@ =~= mid + spec_tube_draws_upto(self.tubes@, (j + 1) as nat));
            }
            if t.selected {
                proof {
                    lemma_first_selected_from_reaches(self.tubes@, 0, j as int);
                }
                status = Some(
                    StatusInfo {
                        open: t.open,
                        length: t.length,
                        frequency: t.source.frequency,
                        note: crate::acoustics::note_name(t.source.frequency / 1_000),
                    },
                );
            } else {
                proof {
                    if let Some(s) = crate::universe::first_selected(self.tubes@) {
                        crate::universe::lemma_selected_unique(self.tubes@, s);
                    }
                }
            }
            j = j + 1;
        }
        proof {
            if let Some(s) = crate::universe::first_selected(self.tubes@) {
                crate::universe::lemma_selected_unique(self.tubes@, s);
            }
        }
        (cmds, status)
    }
}

} // verus!
