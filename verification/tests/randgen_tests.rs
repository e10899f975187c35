use lsystem::grammar::LSystem;
use lsystem::turtle::{interpret, is_draw_char};
use lsystem::MAX_RENDER_CHARS;

#[test]
fn random_grammar_always_draws_something() {
    // Whatever the thread generator produced, an accepted grammar's
    // expansion must contain at least one draw-mover.
    for _ in 0..3 {
        let mut g = LSystem { start: Vec::new(), rules: Vec::new(), angle: 0, iter: 0 };
        g.build_random_lsystem().expect("generation within budget");
        let expansion = g.build_render_string();
        assert!(expansion.len() <= MAX_RENDER_CHARS);
        assert!(expansion.iter().any(|&c| is_draw_char(c)));
    }
}

#[test]
fn random_grammar_expansion_never_underflows() {
    // Every ']' a rule emits gets a '[' inserted earlier in the same rule,
    // the start string carries no brackets, and brackets are never rewritten,
    // so the expansion must interpret without a stack underflow.
    let mut g = LSystem { start: Vec::new(), rules: Vec::new(), angle: 0, iter: 0 };
    g.build_random_lsystem().expect("generation within budget");
    let expansion = g.build_render_string();
    let dirs: Vec<(i64, i64)> = vec![(0, -10240), (-10240, 0), (0, 10240), (10240, 0)];
    assert!(interpret(&expansion, &dirs).is_ok());
}

#[test]
fn random_grammar_has_bounded_shape() {
    let mut g = LSystem { start: Vec::new(), rules: Vec::new(), angle: 0, iter: 0 };
    g.build_random_lsystem().expect("generation within budget");
    assert!(4 <= g.iter && g.iter <= 8);
    assert!([36000u32, 45000, 60000, 90000, 120000].contains(&g.angle));
    assert!(1 <= g.start.len() && g.start.len() <= 4);
}
