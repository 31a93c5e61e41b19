//! The drawing surface capability, and the midpoint-circle rasterizer: the
//! routines that compute which points or spans make up a circle outline or a
//! filled circle, and the drawing entry points that hand them to a surface.

use vstd::prelude::*;

verus! {

/// An immutable point on the surface, in pixel coordinates.
#[derive(Clone, Copy, Debug, PartialEq, Eq, Hash, Structural)]
pub struct Point {
    /// Horizontal pixel coordinate, growing rightwards.
    pub x: i32,
    /// Vertical pixel coordinate, growing downwards.
    pub y: i32,
}

impl Point {
    /// Create a point from its coordinates.
    pub fn new(x: i32, y: i32) -> (p: Point)
        ensures
            p.x == x && p.y == y,
    {
        Point { x, y }
    }
}

/// A drawable surface: the narrow interface through which the engine and the
/// rasterizer reach the windowing system. Implementations present the back
/// buffer, update the window title best-effort, and plot points and line
/// segments; any error they report is propagated unchanged, never retried.
pub trait Canvas {
    /// Flip the back buffer onto the screen.
    fn present(&mut self);

    /// Set the window title. A failure is reported but treated as
    /// best-effort by the engine: it never aborts the loop.
    fn set_title(&mut self, title: &str) -> Result<(), String>;

    /// Plot every point of `points`.
    fn draw_points(&mut self, points: &Vec<Point>) -> Result<(), String>;

    /// Draw a line segment between the two points of every pair.
    fn draw_lines(&mut self, lines: &Vec<(Point, Point)>) -> Result<(), String>;
}

/// One step of the midpoint-circle iteration on the first octant, from the
/// state `(x, y, d)`: `x` always advances by one; a positive decision value
/// `d` also lowers `y` by one and adds `4 * (x' - y') + 10` to `d`, otherwise
/// `d` grows by `4 * x' + 6`, both in terms of the advanced coordinates.
pub open spec fn octant_step(x: int, y: int, d: int) -> (int, int, int) {
    if d > 0 {
        (x + 1, y - 1, d + 4 * ((x + 1) - (y - 1)) + 10)
    } else {
        (x + 1, y, d + 4 * (x + 1) + 6)
    }
}

/// The first-octant offsets the iteration emits from the state `(x, y, d)`
/// onwards, one per step, stepping while `y >= x`.
pub open spec fn octant_trace(x: int, y: int, d: int) -> Seq<(int, int)>
    decreases y - x + 2,
{
    if y < x {
        Seq::empty()
    } else {
        let next = octant_step(x, y, d);
        seq![(next.0, next.1)] + octant_trace(next.0, next.1, next.2)
    }
}

/// Every first-octant offset of the circle of the given radius around the
/// origin: the initial offset `(0, radius)`, then the trace of the iteration
/// started with the decision value `3 - 2 * radius`. Radius zero is the one
/// degenerate case: it draws the single center point, so only the initial
/// offset is emitted and the iteration — which would step off-center — is
/// not entered.
pub open spec fn circle_offsets(radius: int) -> Seq<(int, int)> {
    if radius == 0 {
        seq![(0int, 0int)]
    } else {
        seq![(0int, radius)] + octant_trace(0, radius, 3 - 2 * radius)
    }
}

/// The eight reflections of the first-octant offset `(ox, oy)` around the
/// center `(cx, cy)`: mirrored across both axes and across the diagonal.
pub open spec fn octet_points(cx: int, cy: int, ox: int, oy: int) -> Seq<(int, int)> {
    seq![
        (cx + ox, cy + oy),
        (cx - ox, cy + oy),
        (cx + ox, cy - oy),
        (cx - ox, cy - oy),
        (cx + oy, cy + ox),
        (cx - oy, cy + ox),
        (cx + oy, cy - ox),
        (cx - oy, cy - ox),
    ]
}

/// The four horizontal spans connecting the axis-reflected pairs of the
/// eight reflections of `(ox, oy)` around `(cx, cy)`: one chord per row
/// touched by the octet, so that successive octets fill the disk without
/// seams.
pub open spec fn octet_spans(cx: int, cy: int, ox: int, oy: int) -> Seq<
    ((int, int), (int, int)),
> {
    seq![
        ((cx - ox, cy + oy), (cx + ox, cy + oy)),
        ((cx - ox, cy - oy), (cx + ox, cy - oy)),
        ((cx - oy, cy + ox), (cx + oy, cy + ox)),
        ((cx - oy, cy - ox), (cx + oy, cy - ox)),
    ]
}

/// All points of the circle outline: the eight reflections of every offset,
/// emitted octet by octet in offset order.
pub open spec fn outline_points(cx: int, cy: int, offsets: Seq<(int, int)>) -> Seq<(int, int)>
    decreases offsets.len(),
{
    if offsets.len() == 0 {
        Seq::empty()
    } else {
        outline_points(cx, cy, offsets.drop_last()) + octet_points(
            cx,
            cy,
            offsets.last().0,
            offsets.last().1,
        )
    }
}

/// All spans of the filled circle: the four chords of every offset, emitted
/// octet by octet in offset order.
pub open spec fn fill_spans(cx: int, cy: int, offsets: Seq<(int, int)>) -> Seq<
    ((int, int), (int, int)),
>
    decreases offsets.len(),
{
    if offsets.len() == 0 {
        Seq::empty()
    } else {
        fill_spans(cx, cy, offsets.drop_last()) + octet_spans(
            cx,
            cy,
            offsets.last().0,
            offsets.last().1,
        )
    }
}

/// The coordinates of a sequence of points, as unbounded integers.
pub open spec fn points_view(pts: Seq<Point>) -> Seq<(int, int)> {
    pts.map(|i: int, p: Point| (p.x as int, p.y as int))
}

/// The coordinates of a sequence of offset pairs, as unbounded integers.
pub open spec fn offsets_view(s: Seq<(i64, i64)>) -> Seq<(int, int)> {
    s.map(|i: int, o: (i64, i64)| (o.0 as int, o.1 as int))
}

/// The coordinates of a sequence of point pairs, as unbounded integers.
pub open spec fn spans_view(spans: Seq<(Point, Point)>) -> Seq<((int, int), (int, int))> {
    spans.map(
        |i: int, q: (Point, Point)| ((q.0.x as int, q.0.y as int), (q.1.x as int, q.1.y as int)),
    )
}

/// How far the squared distance of `p` from the center `(cx, cy)` misses the
/// squared radius: zero on the exact circle, positive outside it, negative
/// inside it.
pub open spec fn ring_error(cx: int, cy: int, radius: int, p: (int, int)) -> int {
    (p.0 - cx) * (p.0 - cx) + (p.1 - cy) * (p.1 - cy) - radius * radius
}

/// The [`ring_error`] of a first-octant offset around the origin.
pub open spec fn offset_error(radius: int, o: (int, int)) -> int {
    o.0 * o.0 + o.1 * o.1 - radius * radius
}

/// The exact relation the iteration maintains between the decision value and
/// the current offset; the tolerance band of the emitted points is derived
/// from it.
spec fn decision_exact(radius: int, x: int, y: int, d: int) -> bool {
    d == 2 * (x * x + y * y - radius * radius) + 8 * x - 6 * y + 4 * radius + 3
}

/// A bound on the magnitude of the decision value after the step that moved
/// `x` to its current value: the initial value is within `2 * radius + 3`,
/// and each of the `x` steps so far moved it by at most `8 * radius + 18`.
spec fn decision_bound(radius: int, x: int) -> int {
    2 * radius + 3 + x * (8 * radius + 18)
}

/// All eight reflections of an offset have the same ring error as the
/// offset itself: reflection changes only signs and the order of the two
/// squared coordinates.
proof fn lemma_ring_error_octet(cx: int, cy: int, radius: int, ox: int, oy: int)
    ensures
        ring_error(cx, cy, radius, (cx + ox, cy + oy)) == offset_error(radius, (ox, oy)),
        ring_error(cx, cy, radius, (cx - ox, cy + oy)) == offset_error(radius, (ox, oy)),
        ring_error(cx, cy, radius, (cx + ox, cy - oy)) == offset_error(radius, (ox, oy)),
        ring_error(cx, cy, radius, (cx - ox, cy - oy)) == offset_error(radius, (ox, oy)),
        ring_error(cx, cy, radius, (cx + oy, cy + ox)) == offset_error(radius, (ox, oy)),
        ring_error(cx, cy, radius, (cx - oy, cy + ox)) == offset_error(radius, (ox, oy)),
        ring_error(cx, cy, radius, (cx + oy, cy - ox)) == offset_error(radius, (ox, oy)),
        ring_error(cx, cy, radius, (cx - oy, cy - ox)) == offset_error(radius, (ox, oy)),
{
    assert((-ox) * (-ox) == ox * ox) by (nonlinear_arith);
    assert((-oy) * (-oy) == oy * oy) by (nonlinear_arith);
}

proof fn lemma_decision_bound_step(radius: int, x: int)
    ensures
        decision_bound(radius, x) + (8 * radius + 18) == decision_bound(radius, x + 1),
{
    assert((x + 1) * (8 * radius + 18) == x * (8 * radius + 18) + (8 * radius + 18))
        by (nonlinear_arith);
}

proof fn lemma_decision_bound_range(radius: int, x: int)
    requires
        0 <= radius <= 0x7FFF_FFFF,
        0 <= x <= radius + 1,
    ensures
        decision_bound(radius, x) <= 0x1_0000_0000_0000_0000_0000,
{
    assert(x * (8 * radius + 18) <= 0x8000_0000 * (8 * 0x7FFF_FFFF + 18)) by (nonlinear_arith)
        requires
            0 <= x <= 0x8000_0000,
            0 <= 8 * radius + 18 <= 8 * 0x7FFF_FFFF + 18,
    ;
}

/// The first-octant offsets of the circle of the given radius, as values:
/// exactly `circle_offsets(radius)`, each offset with `0 <= ox <= radius + 1`
/// and `-1 <= oy <= radius`.
fn octant_offsets(radius: i32) -> (offs: Vec<(i64, i64)>)
    requires
        radius >= 0,
    ensures
        offsets_view(offs@) == circle_offsets(radius as int),
        forall|i: int|
            0 <= i < offs@.len() ==> 0 <= (#[trigger] offs@[i]).0 <= radius + 1 && -1 <= offs@[i].1
                <= radius,
        forall|i: int|
            0 <= i < offs@.len() ==> -(8 * radius + 7) <= offset_error(
                radius as int,
                ((#[trigger] offs@[i]).0 as int, offs@[i].1 as int),
            ) <= 5 * radius + 6,
{
    let mut offs: Vec<(i64, i64)> = Vec::new();
    offs.push((0, radius as i64));
    if radius == 0 {
        proof {
            assert(offsets_view(offs@) =~= circle_offsets(0));
            assert(offset_error(0, (0int, 0int)) == 0);
        }
        return offs;
    }
    let mut x: i64 = 0;
    let mut y: i64 = radius as i64;
    let mut d: i128 = 3 - 2 * (radius as i128);
    proof {
        assert(offsets_view(offs@) =~= seq![(0int, radius as int)]);
        assert(offsets_view(offs@) + octant_trace(x as int, y as int, d as int) =~= circle_offsets(
            radius as int,
        ));
        assert(offset_error(radius as int, (0int, radius as int)) == 0);
    }
    while y >= x
        invariant
            0 <= radius <= 0x7FFF_FFFF,
            0 <= x <= radius + 1,
            -1 <= y <= radius,
            -decision_bound(radius as int, x as int) <= d as int <= decision_bound(
                radius as int,
                x as int,
            ),
            decision_exact(radius as int, x as int, y as int, d as int),
            3 - 4 * (radius as int) <= d as int,
            d as int <= 4 * (radius as int) + 10 + 9 * ((radius as int) - (y as int - x as int)),
            offsets_view(offs@) + octant_trace(x as int, y as int, d as int) == circle_offsets(
                radius as int,
            ),
            forall|i: int|
                0 <= i < offs@.len() ==> 0 <= (#[trigger] offs@[i]).0 <= radius + 1 && -1
                    <= offs@[i].1 <= radius,
            forall|i: int|
                0 <= i < offs@.len() ==> -(8 * radius + 7) <= offset_error(
                    radius as int,
                    ((#[trigger] offs@[i]).0 as int, offs@[i].1 as int),
                ) <= 5 * radius + 6,
        decreases y - x + 2,
    {
        proof {
            lemma_decision_bound_range(radius as int, x as int);
            lemma_decision_bound_range(radius as int, x as int + 1);
            lemma_decision_bound_step(radius as int, x as int);
        }
        let ghost prev_view = offsets_view(offs@);
        let ghost gr = radius as int;
        let ghost gx = x as int;
        let ghost gy = y as int;
        let ghost gd = d as int;
        let x1: i64 = x + 1;
        if d > 0 {
            let y1: i64 = y - 1;
            let d1: i128 = d + 4 * ((x1 as i128) - (y1 as i128)) + 10;
            offs.push((x1, y1));
            proof {
                let gx1 = x1 as int;
                let gy1 = y1 as int;
                let gd1 = d1 as int;
                assert(gd1 == 2 * (gx1 * gx1 + gy1 * gy1 - gr * gr) + 8 * gx1 - 6 * gy1 + 4 * gr
                    + 3) by (nonlinear_arith)
                    requires
                        gd == 2 * (gx * gx + gy * gy - gr * gr) + 8 * gx - 6 * gy + 4 * gr + 3,
                        gx1 == gx + 1,
                        gy1 == gy - 1,
                        gd1 == gd + 4 * (gx1 - gy1) + 10,
                ;
                assert(2 * offset_error(gr, (gx1, gy1)) == gd1 - 8 * gx1 + 6 * gy1 - 4 * gr - 3);
                assert(-(8 * gr + 7) <= offset_error(gr, (gx1, gy1)) <= 5 * gr + 6);
                assert(octant_trace(gx, gy, gd) == seq![(gx + 1, gy - 1)] + octant_trace(
                    gx + 1,
                    gy - 1,
                    gd + 4 * ((gx + 1) - (gy - 1)) + 10,
                ));
                assert(offsets_view(offs@) =~= prev_view.push((x1 as int, y1 as int)));
                assert(offsets_view(offs@) + octant_trace(x1 as int, y1 as int, d1 as int)
                    =~= prev_view + octant_trace(gx, gy, gd));
            }
            x = x1;
            y = y1;
            d = d1;
        } else {
            let d1: i128 = d + 4 * (x1 as i128) + 6;
            offs.push((x1, y));
            proof {
                let gx1 = x1 as int;
                let gd1 = d1 as int;
                assert(gd1 == 2 * (gx1 * gx1 + gy * gy - gr * gr) + 8 * gx1 - 6 * gy + 4 * gr + 3)
                    by (nonlinear_arith)
                    requires
                        gd == 2 * (gx * gx + gy * gy - gr * gr) + 8 * gx - 6 * gy + 4 * gr + 3,
                        gx1 == gx + 1,
                        gd1 == gd + 4 * gx1 + 6,
                ;
                assert(2 * offset_error(gr, (gx1, gy)) == gd1 - 8 * gx1 + 6 * gy - 4 * gr - 3);
                assert(-(8 * gr + 7) <= offset_error(gr, (gx1, gy)) <= 5 * gr + 6);
                assert(octant_trace(gx, gy, gd) == seq![(gx + 1, gy)] + octant_trace(
                    gx + 1,
                    gy,
                    gd + 4 * (gx + 1) + 6,
                ));
                assert(offsets_view(offs@) =~= prev_view.push((x1 as int, y as int)));
                assert(offsets_view(offs@) + octant_trace(x1 as int, y as int, d1 as int)
                    =~= prev_view + octant_trace(gx, gy, gd));
            }
            x = x1;
            d = d1;
        }
    }
    proof {
        assert(octant_trace(x as int, y as int, d as int) =~= Seq::<(int, int)>::empty());
        assert(offsets_view(offs@) + octant_trace(x as int, y as int, d as int) =~= offsets_view(offs@));
    }
    offs
}

/// The three reflections of `p` around the center `(cx, cy)` that the
/// rasterizer's octant symmetry guarantees: across the vertical axis, across
/// the horizontal axis, and across the diagonal (swapping the coordinate
/// offsets from the center).
pub open spec fn mirror_x(cx: int, p: (int, int)) -> (int, int) {
    (2 * cx - p.0, p.1)
}

/// See [`mirror_x`]: the reflection across the horizontal axis through the center.
pub open spec fn mirror_y(cy: int, p: (int, int)) -> (int, int) {
    (p.0, 2 * cy - p.1)
}

/// See [`mirror_x`]: the reflection across the diagonal through the center.
pub open spec fn mirror_diag(cx: int, cy: int, p: (int, int)) -> (int, int) {
    (cx + (p.1 - cy), cy + (p.0 - cx))
}

/// One octet is closed under all three reflections around its center.
proof fn lemma_octet_symmetry(cx: int, cy: int, ox: int, oy: int, p: (int, int))
    requires
        octet_points(cx, cy, ox, oy).contains(p),
    ensures
        octet_points(cx, cy, ox, oy).contains(mirror_x(cx, p)),
        octet_points(cx, cy, ox, oy).contains(mirror_y(cy, p)),
        octet_points(cx, cy, ox, oy).contains(mirror_diag(cx, cy, p)),
{
    let oct = octet_points(cx, cy, ox, oy);
    let j = choose|j: int| 0 <= j < oct.len() && oct[j] == p;
    if j == 0 {
        assert(oct.contains(mirror_x(cx, p))) by { assert(oct[1] == mirror_x(cx, p)) };
        assert(oct.contains(mirror_y(cy, p))) by { assert(oct[2] == mirror_y(cy, p)) };
        assert(oct.contains(mirror_diag(cx, cy, p))) by {
            assert(oct[4] == mirror_diag(cx, cy, p))
        };
    } else if j == 1 {
        assert(oct.contains(mirror_x(cx, p))) by { assert(oct[0] == mirror_x(cx, p)) };
        assert(oct.contains(mirror_y(cy, p))) by { assert(oct[3] == mirror_y(cy, p)) };
        assert(oct.contains(mirror_diag(cx, cy, p))) by {
            assert(oct[6] == mirror_diag(cx, cy, p))
        };
    } else if j == 2 {
        assert(oct.contains(mirror_x(cx, p))) by { assert(oct[3] == mirror_x(cx, p)) };
        assert(oct.contains(mirror_y(cy, p))) by { assert(oct[0] == mirror_y(cy, p)) };
        assert(oct.contains(mirror_diag(cx, cy, p))) by {
            assert(oct[5] == mirror_diag(cx, cy, p))
        };
    } else if j == 3 {
        assert(oct.contains(mirror_x(cx, p))) by { assert(oct[2] == mirror_x(cx, p)) };
        assert(oct.contains(mirror_y(cy, p))) by { assert(oct[1] == mirror_y(cy, p)) };
        assert(oct.contains(mirror_diag(cx, cy, p))) by {
            assert(oct[7] == mirror_diag(cx, cy, p))
        };
    } else if j == 4 {
        assert(oct.contains(mirror_x(cx, p))) by { assert(oct[5] == mirror_x(cx, p)) };
        assert(oct.contains(mirror_y(cy, p))) by { assert(oct[6] == mirror_y(cy, p)) };
        assert(oct.contains(mirror_diag(cx, cy, p))) by {
            assert(oct[0] == mirror_diag(cx, cy, p))
        };
    } else if j == 5 {
        assert(oct.contains(mirror_x(cx, p))) by { assert(oct[4] == mirror_x(cx, p)) };
        assert(oct.contains(mirror_y(cy, p))) by { assert(oct[7] == mirror_y(cy, p)) };
        assert(oct.contains(mirror_diag(cx, cy, p))) by {
            assert(oct[2] == mirror_diag(cx, cy, p))
        };
    } else if j == 6 {
        assert(oct.contains(mirror_x(cx, p))) by { assert(oct[7] == mirror_x(cx, p)) };
        assert(oct.contains(mirror_y(cy, p))) by { assert(oct[4] == mirror_y(cy, p)) };
        assert(oct.contains(mirror_diag(cx, cy, p))) by {
            assert(oct[1] == mirror_diag(cx, cy, p))
        };
    } else {
        assert(oct.contains(mirror_x(cx, p))) by { assert(oct[6] == mirror_x(cx, p)) };
        assert(oct.contains(mirror_y(cy, p))) by { assert(oct[5] == mirror_y(cy, p)) };
        assert(oct.contains(mirror_diag(cx, cy, p))) by {
            assert(oct[3] == mirror_diag(cx, cy, p))
        };
    }
}

/// Symmetry law: whatever the offsets, the set of points the outline
/// rasterizer emits around a center is symmetric under reflection across the
/// vertical axis, across the horizontal axis, and across the diagonal
/// through that center. In particular this holds for the point set of
/// [`circle_points`], whose offsets are `circle_offsets(radius)`.
pub proof fn lemma_outline_symmetry(cx: int, cy: int, offsets: Seq<(int, int)>, p: (int, int))
    requires
        outline_points(cx, cy, offsets).contains(p),
    ensures
        outline_points(cx, cy, offsets).contains(mirror_x(cx, p)),
        outline_points(cx, cy, offsets).contains(mirror_y(cy, p)),
        outline_points(cx, cy, offsets).contains(mirror_diag(cx, cy, p)),
    decreases offsets.len(),
{
    broadcast use vstd::seq_lib::lemma_seq_concat_contains_all_elements;

    if offsets.len() == 0 {
        assert(false);
    } else {
        let rest = outline_points(cx, cy, offsets.drop_last());
        let oct = octet_points(cx, cy, offsets.last().0, offsets.last().1);
        assert(outline_points(cx, cy, offsets) == rest + oct);
        if rest.contains(p) {
            lemma_outline_symmetry(cx, cy, offsets.drop_last(), p);
        } else {
            assert(oct.contains(p));
            lemma_octet_symmetry(cx, cy, offsets.last().0, offsets.last().1, p);
        }
    }
}

/// The conditions under which a circle of the given radius around `center`
/// can be rasterized: the radius is non-negative, and every emitted
/// coordinate — all within `radius + 1` of the center — fits in a pixel
/// coordinate.
pub open spec fn circle_fits(center: Point, radius: i32) -> bool {
    &&& radius >= 0
    &&& i32::MIN <= center.x - radius - 1
    &&& center.x + radius + 1 <= i32::MAX
    &&& i32::MIN <= center.y - radius - 1
    &&& center.y + radius + 1 <= i32::MAX
}

/// Compute every point of the outline of the circle with the given center
/// and radius: the eight octant reflections of each first-octant offset, in
/// emission order. Every emitted point lies in the midpoint algorithm's
/// tolerance band around the exact circle: its squared distance from the
/// center misses the squared radius by at most a small multiple of the
/// radius (the stated constants are conservative).
pub fn circle_points(center: Point, radius: i32) -> (pts: Vec<Point>)
    requires
        circle_fits(center, radius),
    ensures
        points_view(pts@) == outline_points(
            center.x as int,
            center.y as int,
            circle_offsets(radius as int),
        ),
        forall|i: int|
            0 <= i < pts@.len() ==> -(8 * radius + 7) <= ring_error(
                center.x as int,
                center.y as int,
                radius as int,
                ((#[trigger] pts@[i]).x as int, pts@[i].y as int),
            ) <= 5 * radius + 6,
{
    let offs = octant_offsets(radius);
    let ghost all = offsets_view(offs@);
    let cx: i64 = center.x as i64;
    let cy: i64 = center.y as i64;
    let mut pts: Vec<Point> = Vec::new();
    let mut i: usize = 0;
    while i < offs.len()
        invariant
            circle_fits(center, radius),
            cx == center.x as int,
            cy == center.y as int,
            i <= offs.len(),
            all == offsets_view(offs@),
            forall|j: int|
                0 <= j < offs@.len() ==> 0 <= (#[trigger] offs@[j]).0 <= radius + 1 && -1
                    <= offs@[j].1 <= radius,
            forall|j: int|
                0 <= j < offs@.len() ==> -(8 * radius + 7) <= offset_error(
                    radius as int,
                    ((#[trigger] offs@[j]).0 as int, offs@[j].1 as int),
                ) <= 5 * radius + 6,
            points_view(pts@) == outline_points(center.x as int, center.y as int, all.take(i as int)),
            forall|j: int|
                0 <= j < pts@.len() ==> -(8 * radius + 7) <= ring_error(
                    center.x as int,
                    center.y as int,
                    radius as int,
                    ((#[trigger] pts@[j]).x as int, pts@[j].y as int),
                ) <= 5 * radius + 6,
        decreases offs.len() - i,
    {
        let (ox, oy) = offs[i];
        let ghost prev_view = points_view(pts@);
        pts.push(Point { x: (cx + ox) as i32, y: (cy + oy) as i32 });
        pts.push(Point { x: (cx - ox) as i32, y: (cy + oy) as i32 });
        pts.push(Point { x: (cx + ox) as i32, y: (cy - oy) as i32 });
        pts.push(Point { x: (cx - ox) as i32, y: (cy - oy) as i32 });
        pts.push(Point { x: (cx + oy) as i32, y: (cy + ox) as i32 });
        pts.push(Point { x: (cx - oy) as i32, y: (cy + ox) as i32 });
        pts.push(Point { x: (cx + oy) as i32, y: (cy - ox) as i32 });
        pts.push(Point { x: (cx - oy) as i32, y: (cy - ox) as i32 });
        proof {
            lemma_ring_error_octet(
                center.x as int,
                center.y as int,
                radius as int,
                ox as int,
                oy as int,
            );
            assert(all[i as int] == (offs@[i as int].0 as int, offs@[i as int].1 as int));
            assert(points_view(pts@) =~= prev_view + octet_points(
                center.x as int,
                center.y as int,
                all[i as int].0,
                all[i as int].1,
            ));
            assert(all.take(i + 1).drop_last() =~= all.take(i as int));
            assert(all.take(i + 1).last() == all[i as int]);
        }
        i = i + 1;
    }
    proof {
        assert(all.take(all.len() as int) =~= all);
    }
    pts
}

/// Compute every span of the filled circle with the given center and radius:
/// the four horizontal chords connecting the axis-reflected pairs of each
/// first-octant offset, in emission order.
pub fn circle_spans(center: Point, radius: i32) -> (spans: Vec<(Point, Point)>)
    requires
        circle_fits(center, radius),
    ensures
        spans_view(spans@) == fill_spans(
            center.x as int,
            center.y as int,
            circle_offsets(radius as int),
        ),
{
    let offs = octant_offsets(radius);
    let ghost all = offsets_view(offs@);
    let cx: i64 = center.x as i64;
    let cy: i64 = center.y as i64;
    let mut spans: Vec<(Point, Point)> = Vec::new();
    let mut i: usize = 0;
    while i < offs.len()
        invariant
            circle_fits(center, radius),
            cx == center.x as int,
            cy == center.y as int,
            i <= offs.len(),
            all == offsets_view(offs@),
            forall|j: int|
                0 <= j < offs@.len() ==> 0 <= (#[trigger] offs@[j]).0 <= radius + 1 && -1
                    <= offs@[j].1 <= radius,
            spans_view(spans@) == fill_spans(center.x as int, center.y as int, all.take(i as int)),
        decreases offs.len() - i,
    {
        let (ox, oy) = offs[i];
        let ghost prev_view = spans_view(spans@);
        spans.push(
            (
                Point { x: (cx - ox) as i32, y: (cy + oy) as i32 },
                Point { x: (cx + ox) as i32, y: (cy + oy) as i32 },
            ),
        );
        spans.push(
            (
                Point { x: (cx - ox) as i32, y: (cy - oy) as i32 },
                Point { x: (cx + ox) as i32, y: (cy - oy) as i32 },
            ),
        );
        spans.push(
            (
                Point { x: (cx - oy) as i32, y: (cy + ox) as i32 },
                Point { x: (cx + oy) as i32, y: (cy + ox) as i32 },
            ),
        );
        spans.push(
            (
                Point { x: (cx - oy) as i32, y: (cy - ox) as i32 },
                Point { x: (cx + oy) as i32, y: (cy - ox) as i32 },
            ),
        );
        proof {
            assert(all[i as int] == (offs@[i as int].0 as int, offs@[i as int].1 as int));
            assert(spans_view(spans@) =~= prev_view + octet_spans(
                center.x as int,
                center.y as int,
                all[i as int].0,
                all[i as int].1,
            ));
            assert(all.take(i + 1).drop_last() =~= all.take(i as int));
            assert(all.take(i + 1).last() == all[i as int]);
        }
        i = i + 1;
    }
    proof {
        assert(all.take(all.len() as int) =~= all);
    }
    spans
}

/// Draws a circle outline using the midpoint algorithm, with the given
/// center and radius: the points of [`circle_points`] are handed to the
/// surface in one call, and a failure of the surface is propagated
/// unchanged, never retried.
pub fn draw_circle<C: Canvas>(canvas: &mut C, center: Point, radius: i32) -> (res: Result<
    (),
    String,
>)
    requires
        circle_fits(center, radius),
{
    let points = circle_points(center, radius);
    canvas.draw_points(&points)
}

/// Draws a filled circle using the midpoint algorithm, with the given center
/// and radius: the spans of [`circle_spans`] are handed to the surface in
/// one call, and a failure of the surface is propagated unchanged, never
/// retried.
pub fn fill_circle<C: Canvas>(canvas: &mut C, center: Point, radius: i32) -> (res: Result<
    (),
    String,
>)
    requires
        circle_fits(center, radius),
{
    let spans = circle_spans(center, radius);
    canvas.draw_lines(&spans)
}

} // verus!
