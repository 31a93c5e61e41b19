use audio_game_engine::canvas::{circle_points, circle_spans, draw_circle, fill_circle, Canvas, Point};

/// A canvas that records what is handed to it, and can be told to fail.
struct RecordingCanvas {
    points: Vec<Point>,
    lines: Vec<(Point, Point)>,
    fail_with: Option<String>,
}

impl RecordingCanvas {
    fn new() -> Self {
        RecordingCanvas { points: Vec::new(), lines: Vec::new(), fail_with: None }
    }
}

impl Canvas for RecordingCanvas {
    fn present(&mut self) {}

    fn set_title(&mut self, _title: &str) -> Result<(), String> {
        Ok(())
    }

    fn draw_points(&mut self, points: &Vec<Point>) -> Result<(), String> {
        if let Some(e) = &self.fail_with {
            return Err(e.clone());
        }
        self.points.extend_from_slice(points);
        Ok(())
    }

    fn draw_lines(&mut self, lines: &Vec<(Point, Point)>) -> Result<(), String> {
        if let Some(e) = &self.fail_with {
            return Err(e.clone());
        }
        self.lines.extend_from_slice(lines);
        Ok(())
    }
}

fn contains(pts: &[Point], x: i32, y: i32) -> bool {
    pts.iter().any(|p| p.x == x && p.y == y)
}

/// The first-octant offsets a radius-5 circle emits under the midpoint rule:
/// the initial `(0, 5)`, then one offset per iteration.
const OFFSETS_R5: [(i32, i32); 5] = [(0, 5), (1, 5), (2, 4), (3, 3), (4, 2)];

/// The radius-5 circle around the origin is the eight reflections of each
/// first-octant offset, in emission order.
#[test]
fn test_circle_points_radius_five_exact() {
    let pts = circle_points(Point::new(0, 0), 5);
    assert_eq!(pts.len(), 40);
    for (i, &(ox, oy)) in OFFSETS_R5.iter().enumerate() {
        let expected = [
            (ox, oy),
            (-ox, oy),
            (ox, -oy),
            (-ox, -oy),
            (oy, ox),
            (-oy, ox),
            (oy, -ox),
            (-oy, -ox),
        ];
        for (k, &(x, y)) in expected.iter().enumerate() {
            assert_eq!((pts[8 * i + k].x, pts[8 * i + k].y), (x, y), "octet {} entry {}", i, k);
        }
    }
}

/// The radius-5 point set is symmetric under both axis reflections and the
/// diagonal swap `(x, y) -> (y, x)`.
#[test]
fn test_circle_points_radius_five_symmetric() {
    let pts = circle_points(Point::new(0, 0), 5);
    for p in &pts {
        assert!(contains(&pts, -p.x, p.y), "missing x-mirror of ({}, {})", p.x, p.y);
        assert!(contains(&pts, p.x, -p.y), "missing y-mirror of ({}, {})", p.x, p.y);
        assert!(contains(&pts, p.y, p.x), "missing diagonal mirror of ({}, {})", p.x, p.y);
    }
}

/// Every emitted radius-5 point lies in the midpoint algorithm's tolerance
/// band around the exact circle. The widest deviation comes from the
/// diagonal offset `(3, 3)`, whose error `|9 + 9 - 25|` is 7; every other
/// octet stays within 5.
#[test]
fn test_circle_points_radius_five_band() {
    let pts = circle_points(Point::new(0, 0), 5);
    for p in &pts {
        let err = (p.x * p.x + p.y * p.y - 25).abs();
        assert!(err <= 7, "point ({}, {}) deviates by {}", p.x, p.y, err);
        if p.x.abs() != 3 || p.y.abs() != 3 {
            assert!(err <= 5, "point ({}, {}) deviates by {}", p.x, p.y, err);
        }
    }
    assert!(contains(&pts, 3, 3));
}

/// The symmetry is around the given center, not the origin.
#[test]
fn test_circle_points_off_center() {
    let pts = circle_points(Point::new(100, -40), 5);
    for p in &pts {
        assert!(contains(&pts, 200 - p.x, p.y));
        assert!(contains(&pts, p.x, -80 - p.y));
        assert!(contains(&pts, 100 + (p.y + 40), -40 + (p.x - 100)));
    }
}

/// Radius 0 is the degenerate case: it draws the single center point — the
/// one emitted octet collapses to eight copies of the center, and no
/// off-center pixel appears.
#[test]
fn test_circle_points_radius_zero() {
    let pts = circle_points(Point::new(7, 9), 0);
    assert_eq!(pts.len(), 8);
    for p in &pts {
        assert_eq!((p.x, p.y), (7, 9));
    }
}

/// Filling a radius-0 circle likewise stays on the center: every span is the
/// degenerate center-to-center chord.
#[test]
fn test_circle_spans_radius_zero() {
    let spans = circle_spans(Point::new(7, 9), 0);
    assert_eq!(spans.len(), 4);
    for (a, b) in &spans {
        assert_eq!((a.x, a.y), (7, 9));
        assert_eq!((b.x, b.y), (7, 9));
    }
}

/// A filled radius-1 circle is four chords per offset, connecting the
/// axis-reflected pairs of each octet.
#[test]
fn test_circle_spans_radius_one() {
    let spans = circle_spans(Point::new(0, 0), 1);
    // Offsets (0, 1) and (1, 0), four spans each.
    let expected = [
        ((0, 1), (0, 1)),
        ((0, -1), (0, -1)),
        ((-1, 0), (1, 0)),
        ((-1, 0), (1, 0)),
        ((-1, 0), (1, 0)),
        ((-1, 0), (1, 0)),
        ((0, 1), (0, 1)),
        ((0, -1), (0, -1)),
    ];
    assert_eq!(spans.len(), expected.len());
    for (i, &((ax, ay), (bx, by))) in expected.iter().enumerate() {
        let (a, b) = spans[i];
        assert_eq!(((a.x, a.y), (b.x, b.y)), ((ax, ay), (bx, by)), "span {}", i);
    }
}

/// `draw_circle` hands the computed points to the surface and reports its
/// success.
#[test]
fn test_draw_circle_plots_points() {
    let mut canvas = RecordingCanvas::new();
    let res = draw_circle(&mut canvas, Point::new(2, 3), 5);
    assert_eq!(res, Ok(()));
    assert_eq!(canvas.points.len(), 40);
    assert!(contains(&canvas.points, 2, 8)); // center + (0, 5)
    assert!(contains(&canvas.points, 2, -2)); // center - (0, 5)
}

/// `fill_circle` hands the computed spans to the surface.
#[test]
fn test_fill_circle_plots_spans() {
    let mut canvas = RecordingCanvas::new();
    let res = fill_circle(&mut canvas, Point::new(0, 0), 1);
    assert_eq!(res, Ok(()));
    assert_eq!(canvas.lines.len(), 8);
}

/// A failure of the drawing surface propagates unchanged; drawing is not
/// retried.
#[test]
fn test_draw_error_propagates() {
    let mut canvas = RecordingCanvas::new();
    canvas.fail_with = Some(String::from("out of video memory"));
    let res = draw_circle(&mut canvas, Point::new(0, 0), 5);
    assert_eq!(res, Err(String::from("out of video memory")));
    assert!(canvas.points.is_empty());
    let res = fill_circle(&mut canvas, Point::new(0, 0), 5);
    assert_eq!(res, Err(String::from("out of video memory")));
    assert!(canvas.lines.is_empty());
}
