use lsystem::grammar::LSystem;

fn chars(s: &str) -> Vec<char> {
    s.chars().collect()
}

fn koch(iter: u32) -> LSystem {
    LSystem { start: chars("F"), rules: vec![('F', chars("F+F-F-F+F"))], angle: 90000, iter }
}

#[test]
fn test_string_building() {
    let mut lsystem = koch(2);

    assert!(lsystem.build_render_string() == chars("F+F-F-F+F+F+F-F-F+F-F+F-F-F+F-F+F-F-F+F+F+F-F-F+F"));

    lsystem.iter = 3;

    assert!(lsystem.build_render_string() == chars("F+F-F-F+F+F+F-F-F+F-F+F-F-F+F-F+F-F-F+F+F+F-F-F+F+F+F-F-F+F+F+F-F-F+F-F+F-F-F+F-F+F-F-F+F+F+F-F-F+F-F+F-F-F+F+F+F-F-F+F-F+F-F-F+F-F+F-F-F+F+F+F-F-F+F-F+F-F-F+F+F+F-F-F+F-F+F-F-F+F-F+F-F-F+F+F+F-F-F+F+F+F-F-F+F+F+F-F-F+F-F+F-F-F+F-F+F-F-F+F+F+F-F-F+F"));
}

#[test]
fn zero_iterations_returns_start() {
    let g = LSystem {
        start: chars("aB+[-]xyz"),
        rules: vec![('a', chars("ab")), ('B', chars("B+B"))],
        angle: 60000,
        iter: 0,
    };
    assert_eq!(g.build_render_string(), chars("aB+[-]xyz"));
}

#[test]
fn expansion_is_compositional() {
    // Two generations at once equal one generation re-expanded once more.
    let two = koch(2).build_render_string();
    let one = koch(1).build_render_string();
    let again = LSystem { start: one, rules: vec![('F', chars("F+F-F-F+F"))], angle: 90000, iter: 1 };
    assert_eq!(again.build_render_string(), two);
}

#[test]
fn koch_second_generation_is_61_chars() {
    let out = koch(2).build_render_string();
    assert_eq!(out.len(), "F+F-F-F+F+F+F-F-F+F-F+F-F-F+F-F+F-F-F+F+F+F-F-F+F".len());
    assert_eq!(out, chars("F+F-F-F+F+F+F-F-F+F-F+F-F-F+F-F+F-F-F+F+F+F-F-F+F"));
}

#[test]
fn characters_without_rules_pass_through() {
    let g = LSystem {
        start: chars("G[+G]"),
        rules: vec![('G', chars("G-G"))],
        angle: 45000,
        iter: 1,
    };
    assert_eq!(g.build_render_string(), chars("G-G[+G-G]"));
}

#[test]
fn first_matching_rule_wins() {
    let g = LSystem {
        start: chars("F"),
        rules: vec![('F', chars("FA")), ('F', chars("FB"))],
        angle: 90000,
        iter: 1,
    };
    assert_eq!(g.build_render_string(), chars("FA"));
}

#[test]
fn expand_capped_rejects_oversized_generations() {
    // Doubling grammar: generation k has 2^k characters.
    let g = LSystem { start: chars("F"), rules: vec![('F', chars("FF"))], angle: 90000, iter: 4 };
    let full = g.expand_capped(4, 16).expect("within cap");
    assert_eq!(full.len(), 16);
    assert!(g.expand_capped(4, 15).is_none());
    // The cap also applies to intermediate generations.
    assert!(g.expand_capped(4, 2).is_none());
    assert!(g.expand_capped(1, 2).is_some());
}
