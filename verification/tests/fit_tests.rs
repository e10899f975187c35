use lsystem::bounds::{canvas_of, compute_bounds};
use lsystem::fit::fit_canvas;
use lsystem::grammar::LSystem;
use lsystem::turtle::{interpret, Segment};
use lsystem::{LsysError, CANVAS_CEILING, MARGIN};

fn chars(s: &str) -> Vec<char> {
    s.chars().collect()
}

fn dirs90() -> Vec<(i64, i64)> {
    vec![(0, -10240), (-10240, 0), (0, 10240), (10240, 0)]
}

#[test]
fn bounding_box_envelopes_every_endpoint_and_sizes_exactly() {
    let segs = interpret(&chars("F+F"), &dirs90()).expect("balanced");
    let b = compute_bounds(&segs);
    assert_eq!((b.min_x, b.max_x, b.min_y, b.max_y), (0, 10240, -10240, 0));
    for s in &segs {
        assert!(b.min_x <= s.x0 && s.x0 <= b.max_x);
        assert!(b.min_x <= s.x1 && s.x1 <= b.max_x);
        assert!(b.min_y <= s.y0 && s.y0 <= b.max_y);
        assert!(b.min_y <= s.y1 && s.y1 <= b.max_y);
    }
    let c = canvas_of(&b);
    assert_eq!(c.width, (b.max_x - b.min_x) + 2 * MARGIN);
    assert_eq!(c.height, (b.max_y - b.min_y) + 2 * MARGIN);
    assert_eq!((c.off_x, c.off_y), (MARGIN, MARGIN + 10240));
}

#[test]
fn bounds_are_seeded_at_origin() {
    let none: Vec<Segment> = Vec::new();
    let b = compute_bounds(&none);
    assert_eq!((b.min_x, b.max_x, b.min_y, b.max_y), (0, 0, 0, 0));
    let c = canvas_of(&b);
    assert_eq!((c.width, c.height), (2 * MARGIN, 2 * MARGIN));
}

#[test]
fn oversized_canvas_backs_off_one_iteration() {
    // Generation k of this grammar is a straight run of 2^k draws: at 9
    // iterations the height passes the ceiling, at 8 it fits.
    let g = LSystem { start: chars("F"), rules: vec![('F', chars("FF"))], angle: 90000, iter: 9 };
    let f = fit_canvas(&g, &dirs90()).expect("must fit after backoff");
    assert_eq!(f.iter_used, 8);
    assert_eq!(f.segments.len(), 256);
    assert_eq!(f.canvas.height, 256 * 10240 + 2 * MARGIN);
    assert_eq!(f.canvas.width, 2 * MARGIN);
    assert!(f.canvas.width <= CANVAS_CEILING && f.canvas.height <= CANVAS_CEILING);
}

#[test]
fn fit_keeps_iterations_that_already_fit() {
    let g = LSystem { start: chars("F"), rules: vec![('F', chars("FF"))], angle: 90000, iter: 5 };
    let f = fit_canvas(&g, &dirs90()).expect("fits as given");
    assert_eq!(f.iter_used, 5);
    assert_eq!(f.segments.len(), 32);
}

#[test]
fn fit_exhausts_when_even_zero_iterations_is_oversized() {
    let start: Vec<char> = std::iter::repeat('F').take(350).collect();
    let g = LSystem { start, rules: Vec::new(), angle: 90000, iter: 2 };
    assert!(matches!(fit_canvas(&g, &dirs90()), Err(LsysError::GenerationExhausted)));
}

#[test]
fn fit_reports_stack_underflow() {
    let g = LSystem { start: chars("]F"), rules: Vec::new(), angle: 90000, iter: 0 };
    assert!(matches!(fit_canvas(&g, &dirs90()), Err(LsysError::StackUnderflow)));
}
