//! The L-system grammar and its expansion: generation-by-generation
//! character substitution.

use vstd::prelude::*;

verus! {

/// An L-system: a start string, per-character substitution rules, a turn
/// angle and an iteration count.
///
/// The angle is carried in millidegrees; the expansion and interpretation
/// stages never read it arithmetically, it only parameterizes the direction
/// table a renderer builds. Rules are ordered pairs; on lookup the first
/// pair with a matching key wins.
#[derive(Clone, Debug)]
pub struct LSystem {
    pub start: Vec<char>,
    pub rules: Vec<(char, Vec<char>)>,
    /// Turn angle in millidegrees.
    pub angle: u32,
    /// Number of substitution generations to apply.
    pub iter: u32,
}

impl LSystem {
    /// The rules as a mathematical sequence of (key, replacement) pairs.
    pub open spec fn rules_view(&self) -> Seq<(char, Seq<char>)> {
        self.rules@.map_values(|p: (char, Vec<char>)| (p.0, p.1@))
    }
}

/// The first rule whose key is `c`, if any.
pub open spec fn find_rule(rules: Seq<(char, Seq<char>)>, c: char) -> Option<Seq<char>>
    decreases rules.len(),
{
    if rules.len() == 0 {
        None
    } else if rules[0].0 == c {
        Some(rules[0].1)
    } else {
        find_rule(rules.skip(1), c)
    }
}

/// What one character becomes in one generation: its replacement string if a
/// rule maps it, otherwise itself.
pub open spec fn subst_one(rules: Seq<(char, Seq<char>)>, c: char) -> Seq<char> {
    match find_rule(rules, c) {
        Some(r) => r,
        None => seq![c],
    }
}

/// One full generation: every character of `s` substituted.
pub open spec fn rewrite(rules: Seq<(char, Seq<char>)>, s: Seq<char>) -> Seq<char>
    decreases s.len(),
{
    if s.len() == 0 {
        Seq::empty()
    } else {
        subst_one(rules, s[0]) + rewrite(rules, s.skip(1))
    }
}

/// `n` generations of substitution applied to `s`.
pub open spec fn expand(rules: Seq<(char, Seq<char>)>, s: Seq<char>, n: nat) -> Seq<char>
    decreases n,
{
    if n == 0 {
        s
    } else {
        rewrite(rules, expand(rules, s, (n - 1) as nat))
    }
}

/// Expansion with zero iterations returns the start string unchanged, for
/// every grammar.
pub proof fn lemma_expand_zero_iterations(rules: Seq<(char, Seq<char>)>, s: Seq<char>)
    ensures
        expand(rules, s, 0) == s,
{
}

/// Expansion is compositional: expanding for `m + n` generations equals
/// expanding the `m`-generation result for `n` more generations.
pub proof fn lemma_expand_compose(rules: Seq<(char, Seq<char>)>, s: Seq<char>, m: nat, n: nat)
    ensures
        expand(rules, s, m + n) == expand(rules, expand(rules, s, m), n),
    decreases n,
{
    if n > 0 {
        lemma_expand_compose(rules, s, m, (n - 1) as nat);
    }
}

/// Rewriting distributes over concatenation.
pub proof fn lemma_rewrite_concat(rules: Seq<(char, Seq<char>)>, a: Seq<char>, b: Seq<char>)
    ensures
        rewrite(rules, a + b) == rewrite(rules, a) + rewrite(rules, b),
    decreases a.len(),
{
    if a.len() == 0 {
        assert(a + b =~= b);
        assert(rewrite(rules, a) + rewrite(rules, b) =~= rewrite(rules, b));
    } else {
        assert((a + b).skip(1) =~= a.skip(1) + b);
        lemma_rewrite_concat(rules, a.skip(1), b);
        assert(subst_one(rules, a[0]) + (rewrite(rules, a.skip(1)) + rewrite(rules, b)) =~= (
        subst_one(rules, a[0]) + rewrite(rules, a.skip(1))) + rewrite(rules, b));
    }
}

/// First matching rule for `c`, as executable code.
fn lookup_rule<'a>(rules: &'a Vec<(char, Vec<char>)>, c: char) -> (r: Option<&'a Vec<char>>)
    ensures
        match r {
            Some(body) => find_rule(
                rules@.map_values(|p: (char, Vec<char>)| (p.0, p.1@)),
                c,
            ) == Some(body@),
            None => find_rule(
                rules@.map_values(|p: (char, Vec<char>)| (p.0, p.1@)),
                c,
            ) is None,
        },
{
    let ghost rv = rules@.map_values(|p: (char, Vec<char>)| (p.0, p.1@));
    proof {
        assert(rv.skip(0) =~= rv);
    }
    let mut i: usize = 0;
    while i < rules.len()
        invariant
            i <= rules.len(),
            rv == rules@.map_values(|p: (char, Vec<char>)| (p.0, p.1@)),
            find_rule(rv.skip(i as int), c) == find_rule(rv, c),
        decreases rules.len() - i,
    {
        proof {
            assert(rv.skip(i as int)[0] == rv[i as int]);
            assert(rv.skip(i as int).skip(1) =~= rv.skip(i as int + 1));
        }
        if rules[i].0 == c {
            return Some(&rules[i].1);
        }
        i = i + 1;
    }
    proof {
        assert(rv.skip(rules.len() as int) =~= Seq::<(char, Seq<char>)>::empty());
    }
    None
}

/// One generation of substitution applied to `s`, as executable code.
fn rewrite_once(rules: &Vec<(char, Vec<char>)>, s: &Vec<char>) -> (r: Vec<char>)
    ensures
        r@ == rewrite(rules@.map_values(|p: (char, Vec<char>)| (p.0, p.1@)), s@),
{
    let ghost rv = rules@.map_values(|p: (char, Vec<char>)| (p.0, p.1@));
    let mut out: Vec<char> = Vec::new();
    let mut i: usize = 0;
    while i < s.len()
        invariant
            i <= s.len(),
            rv == rules@.map_values(|p: (char, Vec<char>)| (p.0, p.1@)),
            out@ == rewrite(rv, s@.take(i as int)),
        decreases s.len() - i,
    {
        let c = s[i];
        proof {
            assert(s@.take(i as int + 1) =~= s@.take(i as int) + seq![c]);
            lemma_rewrite_concat(rv, s@.take(i as int), seq![c]);
            assert(seq![c].len() == 1 && seq![c][0] == c);
            assert(seq![c].skip(1) =~= Seq::<char>::empty());
            assert(rewrite(rv, seq![c]) == subst_one(rv, c) + rewrite(
                rv,
                Seq::<char>::empty(),
            ));
            assert(rewrite(rv, seq![c]) =~= subst_one(rv, c));
        }
        match lookup_rule(rules, c) {
            Some(body) => {
                let mut j: usize = 0;
                let ghost out_before = out@;
                while j < body.len()
                    invariant
                        j <= body.len(),
                        out@ == out_before + body@.take(j as int),
                    decreases body.len() - j,
                {
                    proof {
                        assert(body@.take(j as int + 1) =~= body@.take(j as int) + seq![
                            body@[j as int],
                        ]);
                    }
                    out.push(body[j]);
                    j = j + 1;
                }
                proof {
                    assert(body@.take(body@.len() as int) =~= body@);
                    assert(out@ =~= rewrite(rv, s@.take(i as int + 1)));
                }
            },
            None => {
                out.push(c);
                proof {
                    assert(out@ =~= rewrite(rv, s@.take(i as int + 1)));
                }
            },
        }
        i = i + 1;
    }
    proof {
        assert(s@.take(s@.len() as int) =~= s@);
    }
    out
}

impl LSystem {
    /// The fully expanded command string: `iter` generations of substitution
    /// applied to `start`. Zero iterations return the start string unchanged.
    pub fn build_render_string(&self) -> (r: Vec<char>)
        ensures
            r@ == expand(self.rules_view(), self.start@, self.iter as nat),
    {
        let mut cur: Vec<char> = Vec::new();
        let mut i: usize = 0;
        while i < self.start.len()
            invariant
                i <= self.start.len(),
                cur@ == self.start@.take(i as int),
            decreases self.start.len() - i,
        {
            proof {
                assert(self.start@.take(i as int + 1) =~= self.start@.take(i as int) + seq![
                    self.start@[i as int],
                ]);
            }
            cur.push(self.start[i]);
            i = i + 1;
        }
        proof {
            assert(self.start@.take(self.start@.len() as int) =~= self.start@);
        }
        let mut g: u32 = 0;
        while g < self.iter
            invariant
                g <= self.iter,
                cur@ == expand(self.rules_view(), self.start@, g as nat),
            decreases self.iter - g,
        {
            cur = rewrite_once(&self.rules, &cur);
            g = g + 1;
        }
        cur
    }

    /// Expansion under a length cap: `Some` with the full expansion when the
    /// start string and every generation up to `iters` stay within `cap`
    /// characters, `None` as soon as one generation passes the cap.
    pub fn expand_capped(&self, iters: u32, cap: usize) -> (r: Option<Vec<char>>)
        ensures
            match r {
                Some(v) => {
                    &&& v@ == expand(self.rules_view(), self.start@, iters as nat)
                    &&& generations_within(self.rules_view(), self.start@, iters as nat, cap as nat)
                },
                None => !generations_within(
                    self.rules_view(),
                    self.start@,
                    iters as nat,
                    cap as nat,
                ),
            },
    {
        let mut cur: Vec<char> = Vec::new();
        let mut i: usize = 0;
        while i < self.start.len()
            invariant
                i <= self.start.len(),
                cur@ == self.start@.take(i as int),
            decreases self.start.len() - i,
        {
            proof {
                assert(self.start@.take(i as int + 1) =~= self.start@.take(i as int) + seq![
                    self.start@[i as int],
                ]);
            }
            cur.push(self.start[i]);
            i = i + 1;
        }
        proof {
            assert(self.start@.take(self.start@.len() as int) =~= self.start@);
        }
        if cur.len() > cap {
            proof {
                assert(expand(self.rules_view(), self.start@, 0) == self.start@);
            }
            return None;
        }
        proof {
            assert(expand(self.rules_view(), self.start@, 0) == self.start@);
            assert forall|j: nat| j <= 0 implies #[trigger] expand(
                self.rules_view(),
                self.start@,
                j,
            ).len() <= cap as nat by {
                assert(j == 0);
            }
        }
        let mut g: u32 = 0;
        while g < iters
            invariant
                g <= iters,
                cur@ == expand(self.rules_view(), self.start@, g as nat),
                generations_within(self.rules_view(), self.start@, g as nat, cap as nat),
            decreases iters - g,
        {
            cur = rewrite_once(&self.rules, &cur);
            if cur.len() > cap {
                proof {
                    let jbad: nat = (g + 1) as nat;
                    assert(expand(self.rules_view(), self.start@, jbad).len() > cap as nat);
                    assert(!generations_within(
                        self.rules_view(),
                        self.start@,
                        iters as nat,
                        cap as nat,
                    ));
                }
                return None;
            }
            g = g + 1;
            proof {
                lemma_generations_extend(
                    self.rules_view(),
                    self.start@,
                    g as nat,
                    cap as nat,
                );
            }
        }
        Some(cur)
    }
}

/// Every generation from 0 through `n` has at most `cap` characters.
pub open spec fn generations_within(
    rules: Seq<(char, Seq<char>)>,
    s: Seq<char>,
    n: nat,
    cap: nat,
) -> bool {
    forall|j: nat| j <= n ==> #[trigger] expand(rules, s, j).len() <= cap
}

proof fn lemma_generations_extend(rules: Seq<(char, Seq<char>)>, s: Seq<char>, n: nat, cap: nat)
    requires
        n > 0,
        generations_within(rules, s, (n - 1) as nat, cap),
        expand(rules, s, n).len() <= cap,
    ensures
        generations_within(rules, s, n, cap),
{
    assert forall|j: nat| j <= n implies #[trigger] expand(rules, s, j).len() <= cap by {
        if j < n {
            assert(j <= (n - 1) as nat);
        }
    }
}

} // verus!
