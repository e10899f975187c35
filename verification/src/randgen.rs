//! Random grammar generation: a pseudo-random alphabet, start string and
//! rule set, retried until the grammar provably draws something.
//!
//! Randomness comes from `rand`'s thread-local generator behind trusted
//! wrappers; every decision taken on the drawn numbers is verified. A
//! candidate is accepted only after its own expansion has been checked to
//! contain at least one draw-mover, so an accepted grammar can never render
//! an empty image.

use crate::grammar::expand;
use crate::grammar::generations_within;
use crate::grammar::LSystem;
use crate::turtle::is_draw;
use crate::turtle::is_draw_char;
use crate::LsysError;
use crate::MAX_GEN_TRIES;
use crate::MAX_RENDER_CHARS;
use vstd::prelude::*;

verus! {

/// rand's thread-local generator handle, opaque to verification.
#[verifier::external_type_specification]
#[verifier::external_body]
pub struct ExThreadRng(rand::rngs::ThreadRng);

/// Relies on rand::thread_rng: returns a handle to the thread-local
/// generator. Nothing can be promised of the randomness behind it.
#[verifier::external_body]
fn fresh_rng() -> rand::rngs::ThreadRng {
    rand::thread_rng()
}

/// Relies on rand::Rng::gen_range over `0..n`: returns a sample of the
/// range, and panics only when the range is empty — hence the precondition.
#[verifier::external_body]
fn rand_below(rng: &mut rand::rngs::ThreadRng, n: usize) -> (r: usize)
    requires
        n > 0,
    ensures
        r < n,
{
    rand::Rng::gen_range(rng, 0..n)
}

/// The discrete set of turn angles a random grammar may get, in
/// millidegrees.
pub open spec fn is_nice_angle(a: u32) -> bool {
    a == 36000 || a == 45000 || a == 60000 || a == 90000 || a == 120000
}

/// Whether the command string contains at least one draw-mover — the test
/// that separates a drawing grammar from a degenerate one.
pub fn has_draw_mover(cmds: &Vec<char>) -> (r: bool)
    ensures
        r == exists|i: int| 0 <= i < cmds@.len() && is_draw(#[trigger] cmds@[i]),
{
    let mut i: usize = 0;
    while i < cmds.len()
        invariant
            i <= cmds@.len(),
            forall|j: int| 0 <= j < i ==> !is_draw(#[trigger] cmds@[j]),
        decreases cmds@.len() - i,
    {
        if is_draw_char(cmds[i]) {
            return true;
        }
        i = i + 1;
    }
    false
}

/// One random candidate grammar: an iteration count of 4 to 8, one of the
/// nice angles, a start string of 1 to 4 symbols over a random alphabet that
/// always holds `F`, and an optional rule per alphabet symbol whose brackets
/// are kept balanced by inserting a `[` before every emitted `]`.
fn attempt_random_lsystem(rng: &mut rand::rngs::ThreadRng) -> (ls: LSystem)
    ensures
        4 <= ls.iter <= 8,
        is_nice_angle(ls.angle),
        1 <= ls.start@.len() <= 4,
        unique_rule_keys(ls.rules@),
{
    let iter = (4 + rand_below(rng, 5)) as u32;
    let ai = rand_below(rng, 5);
    let angle: u32 = if ai == 0 {
        36000
    } else if ai == 1 {
        45000
    } else if ai == 2 {
        60000
    } else if ai == 3 {
        90000
    } else {
        120000
    };
    let alphabet: Vec<char> = vec![
        'A', 'B', 'C', 'D', 'E', 'F', 'G', 'H', 'I', 'J', 'K', 'L', 'M', 'N', 'O', 'P', 'Q', 'R',
        'S', 'T', 'U', 'V', 'W', 'X', 'Y', 'Z',
    ];
    let mut char_set: Vec<char> = Vec::new();
    char_set.push('F');
    let char_set_length = rand_below(rng, 8);
    let mut n: usize = 0;
    while n < char_set_length
        invariant
            char_set@.len() >= 1,
            alphabet@.len() == 26,
        decreases char_set_length - n,
    {
        let pick = rand_below(rng, alphabet.len());
        char_set.push(alphabet[pick]);
        n = n + 1;
    }
    let mut start: Vec<char> = Vec::new();
    let start_length = rand_below(rng, 4);
    let mut s: usize = 0;
    while s < start_length + 1
        invariant
            s <= start_length + 1,
            start_length < 4,
            char_set@.len() >= 1,
            start@.len() == s,
        decreases start_length + 1 - s,
    {
        let pick = rand_below(rng, char_set.len());
        start.push(char_set[pick]);
        s = s + 1;
    }
    let mut rules_char_set: Vec<char> = Vec::new();
    let mut m: usize = 0;
    while m < char_set.len()
        invariant
            m <= char_set@.len(),
            char_set@.len() >= 1,
            rules_char_set@.len() == m,
        decreases char_set@.len() - m,
    {
        rules_char_set.push(char_set[m]);
        m = m + 1;
    }
    rules_char_set.push('+');
    rules_char_set.push('-');
    rules_char_set.push(']');
    let mut rules: Vec<(char, Vec<char>)> = Vec::new();
    let mut ci: usize = 0;
    while ci < char_set.len()
        invariant
            char_set@.len() >= 1,
            rules_char_set@.len() >= 4,
            unique_rule_keys(rules@),
        decreases char_set@.len() - ci,
    {
        let key = char_set[ci];
        let rules_length = rand_below(rng, 11);
        if rules_length > 0 && !rules_has_key(&rules, key) {
            let mut rule: Vec<char> = Vec::new();
            let mut t: usize = 0;
            while t < rules_length + 1
                invariant
                    t <= rules_length + 1,
                    rules_length < 11,
                    rules_char_set@.len() >= 4,
                    rule@.len() <= 2 * t,
                decreases rules_length + 1 - t,
            {
                let pick = rand_below(rng, rules_char_set.len());
                let rule_char = rules_char_set[pick];
                rule.push(rule_char);
                if rule_char == ']' {
                    let position = rand_below(rng, rule.len());
                    rule.insert(position, '[');
                }
                t = t + 1;
            }
            rules.push((key, rule));
        }
        ci = ci + 1;
    }
    LSystem { start, rules, angle, iter }
}

/// No two rules share a key, so rule lookup is unambiguous.
pub open spec fn unique_rule_keys(rules: Seq<(char, Vec<char>)>) -> bool {
    forall|i: int, j: int|
        0 <= i < j < rules.len() ==> (#[trigger] rules[i]).0 != (#[trigger] rules[j]).0
}

/// Whether some rule already carries this key.
fn rules_has_key(rules: &Vec<(char, Vec<char>)>, key: char) -> (r: bool)
    ensures
        r == exists|i: int| 0 <= i < rules@.len() && (#[trigger] rules@[i]).0 == key,
{
    let mut i: usize = 0;
    while i < rules.len()
        invariant
            i <= rules@.len(),
            forall|j: int| 0 <= j < i ==> (#[trigger] rules@[j]).0 != key,
        decreases rules@.len() - i,
    {
        if rules[i].0 == key {
            return true;
        }
        i = i + 1;
    }
    false
}

impl LSystem {
    /// Replaces this grammar with a randomly generated one that provably
    /// draws: on success the new grammar's own expansion stays within the
    /// length cap and contains at least one draw-mover. Degenerate
    /// candidates — those drawing nothing, or expanding past the cap — are
    /// discarded and regenerated, up to a fixed retry budget; when the
    /// budget runs out the grammar is left untouched and
    /// `GenerationExhausted` is returned.
    pub fn build_random_lsystem(&mut self) -> (r: Result<(), LsysError>)
        ensures
            r is Ok ==> {
                &&& 4 <= final(self).iter <= 8
                &&& is_nice_angle(final(self).angle)
                &&& 1 <= final(self).start@.len() <= 4
                &&& generations_within(
                    final(self).rules_view(),
                    final(self).start@,
                    final(self).iter as nat,
                    MAX_RENDER_CHARS as nat,
                )
                &&& unique_rule_keys(final(self).rules@)
                &&& exists|i: int|
                    0 <= i < expand(
                        final(self).rules_view(),
                        final(self).start@,
                        final(self).iter as nat,
                    ).len() && is_draw(
                        #[trigger] expand(
                            final(self).rules_view(),
                            final(self).start@,
                            final(self).iter as nat,
                        )[i],
                    )
            },
            r is Err ==> *final(self) == *old(self) && r == Err::<(), LsysError>(
                LsysError::GenerationExhausted,
            ),
    {
        let mut rng = fresh_rng();
        let mut tries: u32 = 0;
        while tries < MAX_GEN_TRIES
            invariant
                *self == *old(self),
            decreases MAX_GEN_TRIES - tries,
        {
            let cand = attempt_random_lsystem(&mut rng);
            match cand.expand_capped(cand.iter, MAX_RENDER_CHARS) {
                Some(cmds) => {
                    if has_draw_mover(&cmds) {
                        *self = cand;
                        return Ok(());
                    }
                },
                None => {},
            }
            tries = tries + 1;
        }
        Err(LsysError::GenerationExhausted)
    }
}

} // verus!
