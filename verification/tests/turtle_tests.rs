use lsystem::turtle::{interpret, Segment};
use lsystem::LsysError;

fn chars(s: &str) -> Vec<char> {
    s.chars().collect()
}

/// Direction table for a 90-degree turn angle with a 10-unit step in
/// fixed-point subunits: index i is the heading (180 + i*90) mod 360, and
/// each displacement is 10 * 1024 along the heading's (sin, cos).
fn dirs90() -> Vec<(i64, i64)> {
    vec![(0, -10240), (-10240, 0), (0, 10240), (10240, 0)]
}

#[test]
fn single_draw_moves_south() {
    let segs = interpret(&chars("F"), &dirs90()).expect("balanced");
    assert_eq!(segs, vec![Segment { x0: 0, y0: 0, x1: 0, y1: -10240 }]);
}

#[test]
fn silent_mover_draws_nothing_but_moves() {
    let segs = interpret(&chars("fF"), &dirs90()).expect("balanced");
    assert_eq!(segs, vec![Segment { x0: 0, y0: -10240, x1: 0, y1: -20480 }]);
}

#[test]
fn unknown_characters_are_noops() {
    let segs = interpret(&chars("?!F12"), &dirs90()).expect("balanced");
    assert_eq!(segs, vec![Segment { x0: 0, y0: 0, x1: 0, y1: -10240 }]);
}

#[test]
fn turns_step_through_the_table() {
    // '+' turns from heading 180 to heading 90 (table wraps to index 3).
    let segs = interpret(&chars("+F"), &dirs90()).expect("balanced");
    assert_eq!(segs, vec![Segment { x0: 0, y0: 0, x1: 10240, y1: 0 }]);
    // '-' turns from heading 180 to heading 270.
    let segs = interpret(&chars("-F"), &dirs90()).expect("balanced");
    assert_eq!(segs, vec![Segment { x0: 0, y0: 0, x1: -10240, y1: 0 }]);
}

#[test]
fn turn_round_trip_restores_heading() {
    // A '+' followed by an equal-magnitude '-' leaves the heading exactly
    // where it started, and the other order does too.
    let plain = interpret(&chars("F"), &dirs90()).expect("balanced");
    let plus_minus = interpret(&chars("+-F"), &dirs90()).expect("balanced");
    let minus_plus = interpret(&chars("-+F"), &dirs90()).expect("balanced");
    assert_eq!(plus_minus, plain);
    assert_eq!(minus_plus, plain);
}

#[test]
fn save_restore_branches_from_saved_state() {
    let segs = interpret(&chars("F[+F]F"), &dirs90()).expect("balanced");
    assert_eq!(
        segs,
        vec![
            Segment { x0: 0, y0: 0, x1: 0, y1: -10240 },
            Segment { x0: 0, y0: -10240, x1: 10240, y1: -10240 },
            Segment { x0: 0, y0: -10240, x1: 0, y1: -20480 },
        ]
    );
}

#[test]
fn balanced_brackets_never_underflow() {
    assert!(interpret(&chars("[[F][+F-]]F[]"), &dirs90()).is_ok());
    assert!(interpret(&chars("F[F[F[F]F]F]F"), &dirs90()).is_ok());
}

#[test]
fn unmatched_close_always_underflows() {
    assert_eq!(interpret(&chars("]"), &dirs90()), Err(LsysError::StackUnderflow));
    assert_eq!(interpret(&chars("F[+F]]F"), &dirs90()), Err(LsysError::StackUnderflow));
    // An unmatched ']' underflows even when later '[' would rebalance totals.
    assert_eq!(interpret(&chars("][ "), &dirs90()), Err(LsysError::StackUnderflow));
}

#[test]
fn draw_alphabet_excludes_x_and_y() {
    // 'X' and 'Y' are absent from the traditional draw constant, and their
    // lowercase twins from the silent-mover constant: all four are no-ops.
    let segs = interpret(&chars("XxYyF"), &dirs90()).expect("balanced");
    assert_eq!(segs, vec![Segment { x0: 0, y0: 0, x1: 0, y1: -10240 }]);
}
