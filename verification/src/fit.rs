//! The size-guard driver: expand, interpret, measure, and when the canvas
//! would pass the ceiling, retry with one iteration fewer.
//!
//! This is deliberate self-correction against runaway exponential growth,
//! not an error path; only running out of iterations to drop is fatal. An
//! expansion whose length passes `MAX_RENDER_CHARS` is treated as oversized
//! outright, a cap on intermediate string size distinct from the canvas
//! ceiling.

use crate::bounds::canvas_height;
use crate::bounds::canvas_of;
use crate::bounds::canvas_width;
use crate::bounds::compute_bounds;
use crate::bounds::lo_x;
use crate::bounds::lo_y;
use crate::bounds::Canvas;
use crate::grammar::expand;
use crate::grammar::generations_within;
use crate::grammar::LSystem;
use crate::turtle::dir_views;
use crate::turtle::dirs_wf;
use crate::turtle::interpret;
use crate::turtle::run_ok;
use crate::turtle::run_segments;
use crate::turtle::seg_views;
use crate::turtle::Segment;
use crate::LsysError;
use crate::CANVAS_CEILING;
use crate::MARGIN;
use crate::MAX_COMMANDS;
use crate::MAX_RENDER_CHARS;
use vstd::prelude::*;

verus! {

/// Whether every generation of the grammar up to `j` stays under the
/// expansion length cap.
pub open spec fn within_length(rules: Seq<(char, Seq<char>)>, start: Seq<char>, j: nat) -> bool {
    generations_within(rules, start, j, MAX_RENDER_CHARS as nat)
}

/// The pipeline at `j` iterations yields a drawing whose canvas respects
/// the ceiling.
pub open spec fn fits(
    rules: Seq<(char, Seq<char>)>,
    start: Seq<char>,
    j: nat,
    dirs: Seq<(int, int)>,
) -> bool {
    &&& within_length(rules, start, j)
    &&& run_ok(expand(rules, start, j), dirs)
    &&& canvas_width(run_segments(expand(rules, start, j), dirs)) <= CANVAS_CEILING
    &&& canvas_height(run_segments(expand(rules, start, j), dirs)) <= CANVAS_CEILING
}

/// The pipeline at `j` iterations is too big: the expansion passes the
/// length cap, or it interprets to a drawing whose canvas passes the
/// ceiling.
pub open spec fn oversized(
    rules: Seq<(char, Seq<char>)>,
    start: Seq<char>,
    j: nat,
    dirs: Seq<(int, int)>,
) -> bool {
    ||| !within_length(rules, start, j)
    ||| (run_ok(expand(rules, start, j), dirs) && (canvas_width(
        run_segments(expand(rules, start, j), dirs),
    ) > CANVAS_CEILING || canvas_height(run_segments(expand(rules, start, j), dirs))
        > CANVAS_CEILING))
}

/// The pipeline at `j` iterations dies of a stack underflow.
pub open spec fn underflows(
    rules: Seq<(char, Seq<char>)>,
    start: Seq<char>,
    j: nat,
    dirs: Seq<(int, int)>,
) -> bool {
    within_length(rules, start, j) && !run_ok(expand(rules, start, j), dirs)
}

/// A fitted drawing: the iteration count actually rendered, its segments,
/// and the canvas they ask for.
#[derive(Debug)]
pub struct Fitted {
    pub iter_used: u32,
    pub segments: Vec<Segment>,
    pub canvas: Canvas,
}

/// Runs the pipeline at the grammar's iteration count, dropping one
/// iteration at a time while the canvas would pass the ceiling.
///
/// On success the canvas respects the ceiling and every higher iteration
/// count up to the grammar's own was oversized — each was attempted before
/// any rasterization could happen. `GenerationExhausted` means every count
/// down to zero was oversized; `StackUnderflow` means the first count that
/// was not oversized underflowed the turtle's stack.
pub fn fit_canvas(ls: &LSystem, dirs: &Vec<(i64, i64)>) -> (r: Result<Fitted, LsysError>)
    requires
        dirs_wf(dirs@),
    ensures
        match r {
            Ok(f) => {
                &&& f.iter_used <= ls.iter
                &&& fits(ls.rules_view(), ls.start@, f.iter_used as nat, dir_views(dirs@))
                &&& forall|j: nat|
                    f.iter_used < j <= ls.iter ==> oversized(
                        ls.rules_view(),
                        ls.start@,
                        j,
                        dir_views(dirs@),
                    )
                &&& seg_views(f.segments@) == run_segments(
                    expand(ls.rules_view(), ls.start@, f.iter_used as nat),
                    dir_views(dirs@),
                )
                &&& f.canvas.width as int == canvas_width(seg_views(f.segments@))
                &&& f.canvas.height as int == canvas_height(seg_views(f.segments@))
                &&& f.canvas.off_x as int == MARGIN - lo_x(seg_views(f.segments@))
                &&& f.canvas.off_y as int == MARGIN - lo_y(seg_views(f.segments@))
                &&& f.canvas.width <= CANVAS_CEILING
                &&& f.canvas.height <= CANVAS_CEILING
            },
            Err(e) => {
                &&& (e == LsysError::GenerationExhausted || e == LsysError::StackUnderflow)
                &&& e == LsysError::GenerationExhausted ==> forall|j: nat|
                    j <= ls.iter ==> oversized(ls.rules_view(), ls.start@, j, dir_views(dirs@))
                &&& e == LsysError::StackUnderflow ==> exists|j: nat|
                    j <= ls.iter && #[trigger] underflows(
                        ls.rules_view(),
                        ls.start@,
                        j,
                        dir_views(dirs@),
                    ) && forall|j2: nat|
                        j < j2 <= ls.iter ==> oversized(
                            ls.rules_view(),
                            ls.start@,
                            j2,
                            dir_views(dirs@),
                        )
            },
        },
{
    let ghost rv = ls.rules_view();
    let ghost sv = ls.start@;
    let ghost dv = dir_views(dirs@);
    let mut k: u32 = ls.iter;
    loop
        invariant
            k <= ls.iter,
            dirs_wf(dirs@),
            rv == ls.rules_view(),
            sv == ls.start@,
            dv == dir_views(dirs@),
            forall|j: nat| k < j <= ls.iter ==> oversized(rv, sv, j, dv),
        decreases k,
    {
        let expanded = ls.expand_capped(k, MAX_RENDER_CHARS);
        match expanded {
            None => {
                proof {
                    assert(oversized(rv, sv, k as nat, dv));
                }
                if k == 0 {
                    return Err(LsysError::GenerationExhausted);
                }
                k = k - 1;
            },
            Some(cmds) => {
                proof {
                    assert(expand(rv, sv, k as nat).len() <= MAX_RENDER_CHARS as nat);
                    assert(cmds@.len() <= MAX_COMMANDS);
                }
                match interpret(&cmds, dirs) {
                    Err(_) => {
                        proof {
                            assert(underflows(rv, sv, k as nat, dv));
                        }
                        return Err(LsysError::StackUnderflow);
                    },
                    Ok(segs) => {
                        let b = compute_bounds(&segs);
                        let c = canvas_of(&b);
                        proof {
                            assert(seg_views(segs@) == run_segments(
                                expand(rv, sv, k as nat),
                                dv,
                            ));
                            assert(c.width as int == canvas_width(seg_views(segs@)));
                            assert(c.height as int == canvas_height(seg_views(segs@)));
                        }
                        if c.width <= CANVAS_CEILING && c.height <= CANVAS_CEILING {
                            return Ok(Fitted { iter_used: k, segments: segs, canvas: c });
                        }
                        proof {
                            assert(oversized(rv, sv, k as nat, dv));
                        }
                        if k == 0 {
                            return Err(LsysError::GenerationExhausted);
                        }
                        k = k - 1;
                    },
                }
            },
        }
    }
}

} // verus!
