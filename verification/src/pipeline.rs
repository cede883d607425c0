//! The pipeline: the requested steps, applied in canonical order.

use crate::grid::{
    lemma_brightened_is_well_formed, lemma_brightening_saturates, lemma_mirrored_twice,
    lemma_quarter_turn_four_times, lemma_turns_are_well_formed, Grid,
};
use crate::options::{Filter, Opt, Step, STEP_COUNT};
use crate::raster::{
    brighten, fliph, flipv, grid_of, rotate180, rotate270, rotate90, DEPTH_LIMIT,
};
use vstd::prelude::*;

verus! {

/// How a run of the pipeline ended.
pub enum Outcome {
    /// Every remaining step has been applied.
    Finished(image::DynamicImage),
    /// The run stopped before a filter. The caller applies `filter` to
    /// `image` and runs the pipeline on the result from position `resume`.
    Suspended { image: image::DynamicImage, filter: Filter, resume: u8 },
}

/// What an exact step does to a grid. A filter is not computed here and
/// leaves the grid as it is.
pub open spec fn apply_step(step: Step, g: Grid) -> Grid {
    match step {
        Step::Rotate90 => g.quarter_turn(),
        Step::Rotate180 => g.half_turn(),
        Step::Rotate270 => g.three_quarter_turn(),
        Step::FlipH => g.mirrored(),
        Step::FlipV => g.flipped(),
        Step::Brighten(delta) => g.brightened(delta as int),
        Step::Contrast(_) => g,
        Step::Blur(_) => g,
    }
}

/// What the requested steps at the positions `from..to` make of a grid,
/// applied in the order of their positions.
pub open spec fn run(g: Grid, opt: Opt, from: int, to: int) -> Grid
    decreases to - from,
{
    if to <= from {
        g
    } else {
        let before = run(g, opt, from, to - 1);
        match opt.step_at(to - 1) {
            Some(step) => apply_step(step, before),
            None => before,
        }
    }
}

/// What the rotations and flips of `opt` make of a grid: each one that is
/// requested, in the order quarter turn, half turn, three-quarter turn,
/// mirroring, turning upside down.
pub open spec fn geometry(g: Grid, opt: Opt) -> Grid {
    let a = if opt.rotate90 { g.quarter_turn() } else { g };
    let b = if opt.rotate180 { a.half_turn() } else { a };
    let c = if opt.rotate270 { b.three_quarter_turn() } else { b };
    let d = if opt.fliph { c.mirrored() } else { c };
    if opt.flipv { d.flipped() } else { d }
}

/// What the brightness request of `opt` makes of a grid.
pub open spec fn brightness(g: Grid, opt: Opt) -> Grid {
    match opt.brightness {
        Some(delta) => g.brightened(delta as int),
        None => g,
    }
}

/// Only a quarter turn is requested.
pub open spec fn only_rotate90(opt: Opt) -> bool {
    &&& opt.rotate90
    &&& !opt.rotate180
    &&& !opt.rotate270
    &&& !opt.fliph
    &&& !opt.flipv
    &&& opt.contrast is None
    &&& opt.blur is None
    &&& opt.brightness is None
}

/// Only a mirroring is requested.
pub open spec fn only_fliph(opt: Opt) -> bool {
    &&& !opt.rotate90
    &&& !opt.rotate180
    &&& !opt.rotate270
    &&& opt.fliph
    &&& !opt.flipv
    &&& opt.contrast is None
    &&& opt.blur is None
    &&& opt.brightness is None
}

/// With nothing requested the pipeline leaves the picture as it is.
pub proof fn lemma_idle_run_is_identity(g: Grid, opt: Opt, from: int, to: int)
    requires
        opt.is_idle(),
    ensures
        run(g, opt, from, to) == g,
        opt.pause_at(from) == STEP_COUNT,
        opt.is_quiet(from, to),
    decreases to - from,
{
    assert(opt.step_at(5) is None);
    assert(opt.step_at(6) is None);
    if to > from {
        lemma_idle_run_is_identity(g, opt, from, to - 1);
        assert(opt.step_at(to - 1) is None);
    }
}

/// The result depends on the requests alone: two records that request the
/// same step at every position give the same picture, however they were
/// put together.
pub proof fn lemma_same_requests_same_result(g: Grid, a: Opt, b: Opt, from: int, to: int)
    requires
        forall|i: int| a.step_at(i) == b.step_at(i),
    ensures
        run(g, a, from, to) == run(g, b, from, to),
    decreases to - from,
{
    if to > from {
        lemma_same_requests_same_result(g, a, b, from, to - 1);
        assert(a.step_at(to - 1) == b.step_at(to - 1));
    }
}

/// A run can be cut at any position: running to the cut and then from it
/// is running through.
pub proof fn lemma_run_splits(g: Grid, opt: Opt, from: int, cut: int, to: int)
    requires
        from <= cut <= to,
    ensures
        run(g, opt, from, to) == run(run(g, opt, from, cut), opt, cut, to),
    decreases to - cut,
{
    if to > cut {
        lemma_run_splits(g, opt, from, cut, to - 1);
    }
}

/// The rotations and flips are applied in one fixed order, and the
/// brightness after them. With no filter requested, the whole run is the
/// brightness step on the result of the rotations and flips.
pub proof fn lemma_canonical_order(g: Grid, opt: Opt)
    ensures
        run(g, opt, 0, 5) == geometry(g, opt),
        run(g, opt, 7, STEP_COUNT as int) == brightness(g, opt),
        opt.contrast is None && opt.blur is None ==> run(g, opt, 0, STEP_COUNT as int)
            == brightness(geometry(g, opt), opt),
{
    reveal_with_fuel(run, 9);
}

/// A run keeps a well-formed grid well formed.
pub proof fn lemma_run_is_well_formed(g: Grid, opt: Opt, from: int, to: int)
    requires
        g.wf(),
    ensures
        run(g, opt, from, to).wf(),
    decreases to - from,
{
    if to > from {
        lemma_run_is_well_formed(g, opt, from, to - 1);
        let before = run(g, opt, from, to - 1);
        lemma_turns_are_well_formed(before);
        match opt.step_at(to - 1) {
            Some(Step::Brighten(delta)) => {
                lemma_brightened_is_well_formed(before, delta as int);
            },
            _ => {},
        }
    }
}

/// Four runs that each request only a quarter turn, each on the result of
/// the one before, restore the size and every pixel.
pub proof fn lemma_four_quarter_turns(g: Grid, opt: Opt)
    requires
        g.wf(),
        only_rotate90(opt),
    ensures
        run(g, opt, 0, STEP_COUNT as int) == g.quarter_turn(),
        run(
            run(
                run(run(g, opt, 0, STEP_COUNT as int), opt, 0, STEP_COUNT as int),
                opt,
                0,
                STEP_COUNT as int,
            ),
            opt,
            0,
            STEP_COUNT as int,
        ) == g,
{
    let a = g.quarter_turn();
    let b = a.quarter_turn();
    let c = b.quarter_turn();
    lemma_canonical_order(g, opt);
    lemma_canonical_order(a, opt);
    lemma_canonical_order(b, opt);
    lemma_canonical_order(c, opt);
    lemma_quarter_turn_four_times(g);
}

/// Two runs that each request only a mirroring, the second on the result of
/// the first, restore every pixel.
pub proof fn lemma_fliph_twice(g: Grid, opt: Opt)
    requires
        g.wf(),
        only_fliph(opt),
    ensures
        run(g, opt, 0, STEP_COUNT as int) == g.mirrored(),
        run(run(g, opt, 0, STEP_COUNT as int), opt, 0, STEP_COUNT as int) == g,
{
    lemma_canonical_order(g, opt);
    lemma_canonical_order(g.mirrored(), opt);
    lemma_mirrored_twice(g);
}

/// Brightens by any `delta`: one beyond the largest channel value is
/// handed on as that value, which gives the same picture.
fn brighten_by(img: &image::DynamicImage, delta: i32) -> (r: image::DynamicImage)
    ensures
        grid_of(r) == grid_of(*img).brightened(delta as int),
{
    let bounded: i32 = if delta > DEPTH_LIMIT {
        DEPTH_LIMIT
    } else {
        delta
    };
    let r = brighten(img, bounded);
    proof {
        if delta > DEPTH_LIMIT {
            lemma_brightening_saturates(grid_of(*img), bounded as int, delta as int);
        }
    }
    r
}

/// Applies one exact step.
fn apply_exact(img: image::DynamicImage, step: Step) -> (r: image::DynamicImage)
    requires
        !step.is_filter(),
    ensures
        grid_of(r) == apply_step(step, grid_of(img)),
{
    match step {
        Step::Rotate90 => rotate90(&img),
        Step::Rotate180 => rotate180(&img),
        Step::Rotate270 => rotate270(&img),
        Step::FlipH => fliph(&img),
        Step::FlipV => flipv(&img),
        Step::Brighten(delta) => brighten_by(&img, delta),
        Step::Contrast(_) => img,
        Step::Blur(_) => img,
    }
}

/// Runs the pipeline on `img` from position `from` of the canonical order:
/// each requested step is applied to the result of the one before, up to
/// the first requested filter or the end. Which flags brought a step in,
/// and in what order they were given, plays no part. Where no step was
/// requested on the way, the picture comes back as it was handed in.
pub fn do_operations(img: image::DynamicImage, opt: &Opt, from: u8) -> (out: Outcome)
    ensures
        match out {
            Outcome::Finished(image) => {
                &&& opt.pause_at(from as int) == STEP_COUNT
                &&& grid_of(image) == run(grid_of(img), *opt, from as int, STEP_COUNT as int)
                &&& opt.is_quiet(from as int, STEP_COUNT as int) ==> image == img
            },
            Outcome::Suspended { image, filter, resume } => {
                &&& opt.pause_at(from as int) < STEP_COUNT
                &&& resume == opt.pause_at(from as int) + 1
                &&& opt.step_at(opt.pause_at(from as int)) == Some(filter.as_step())
                &&& grid_of(image) == run(
                    grid_of(img),
                    *opt,
                    from as int,
                    opt.pause_at(from as int),
                )
                &&& opt.is_quiet(from as int, opt.pause_at(from as int)) ==> image == img
            },
        },
{
    let ghost start = grid_of(img);
    let mut cur = img;
    let mut i: u8 = from;
    while i < STEP_COUNT
        invariant
            start == grid_of(img),
            from <= i,
            i <= STEP_COUNT || i == from,
            i <= 5 || from > 5 || opt.contrast is None,
            i <= 6 || from > 6 || opt.blur is None,
            grid_of(cur) == run(start, *opt, from as int, i as int),
            opt.is_quiet(from as int, i as int) ==> cur == img,
        decreases STEP_COUNT - i,
    {
        match opt.request_at(i) {
            None => {},
            Some(step) => {
                match step {
                    Step::Contrast(bits) => {
                        return Outcome::Suspended {
                            image: cur,
                            filter: Filter::Contrast(bits),
                            resume: i + 1,
                        };
                    },
                    Step::Blur(bits) => {
                        return Outcome::Suspended {
                            image: cur,
                            filter: Filter::Blur(bits),
                            resume: i + 1,
                        };
                    },
                    _ => {
                        cur = apply_exact(cur, step);
                    },
                }
            },
        }
        i = i + 1;
    }
    Outcome::Finished(cur)
}

} // verus!
