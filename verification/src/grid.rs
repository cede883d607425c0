//! The mathematical model of a decoded picture and of the exact
//! transformations on it.

use vstd::prelude::*;

verus! {

/// A picture as a grid of pixels. The pixel in column `x` (counted from the
/// left) and row `y` (counted from the top) is `samples[(x, y)]`, the sequence
/// of its channel values; `depth` is the largest value a channel can take,
/// and `layout` tells which channels a pixel has and in what order.
pub struct Grid {
    pub layout: nat,
    pub width: nat,
    pub height: nat,
    pub depth: nat,
    pub samples: Map<(int, int), Seq<nat>>,
}

/// The coordinates of a grid of the given size.
pub open spec fn cells(width: nat, height: nat) -> Set<(int, int)> {
    Set::new(|p: (int, int)| 0 <= p.0 < width && 0 <= p.1 < height)
}

/// A channel value shifted by `delta` and held within `0..=depth`.
pub open spec fn shifted_sample(value: nat, delta: int, depth: nat) -> nat {
    let moved = value + delta;
    if moved < 0 {
        0
    } else if moved > depth {
        depth
    } else {
        moved as nat
    }
}

/// Pixels of two or four channels end in an alpha channel.
pub open spec fn is_alpha(channels: nat, index: int) -> bool {
    (channels == 2 || channels == 4) && index == channels - 1
}

/// A pixel with every channel but alpha shifted by `delta`.
pub open spec fn shifted_pixel(pixel: Seq<nat>, delta: int, depth: nat) -> Seq<nat> {
    Seq::new(
        pixel.len(),
        |i: int|
            if is_alpha(pixel.len(), i) {
                pixel[i]
            } else {
                shifted_sample(pixel[i], delta, depth)
            },
    )
}

impl Grid {
    /// Every coordinate inside the grid has a pixel, and no other has.
    pub open spec fn wf(self) -> bool {
        self.samples.dom() == cells(self.width, self.height)
    }

    /// The grid turned 90 degrees clockwise: the left column becomes the top
    /// row.
    pub open spec fn quarter_turn(self) -> Grid {
        Grid {
            layout: self.layout,
            width: self.height,
            height: self.width,
            depth: self.depth,
            samples: Map::new(
                |p: (int, int)| cells(self.height, self.width).contains(p),
                |p: (int, int)| self.samples[(p.1, self.height - 1 - p.0)],
            ),
        }
    }

    /// The grid turned 180 degrees.
    pub open spec fn half_turn(self) -> Grid {
        Grid {
            layout: self.layout,
            width: self.width,
            height: self.height,
            depth: self.depth,
            samples: Map::new(
                |p: (int, int)| cells(self.width, self.height).contains(p),
                |p: (int, int)| self.samples[(self.width - 1 - p.0, self.height - 1 - p.1)],
            ),
        }
    }

    /// The grid turned 270 degrees clockwise: the top row becomes the left
    /// column.
    pub open spec fn three_quarter_turn(self) -> Grid {
        Grid {
            layout: self.layout,
            width: self.height,
            height: self.width,
            depth: self.depth,
            samples: Map::new(
                |p: (int, int)| cells(self.height, self.width).contains(p),
                |p: (int, int)| self.samples[(self.width - 1 - p.1, p.0)],
            ),
        }
    }

    /// The grid mirrored left to right.
    pub open spec fn mirrored(self) -> Grid {
        Grid {
            layout: self.layout,
            width: self.width,
            height: self.height,
            depth: self.depth,
            samples: Map::new(
                |p: (int, int)| cells(self.width, self.height).contains(p),
                |p: (int, int)| self.samples[(self.width - 1 - p.0, p.1)],
            ),
        }
    }

    /// The grid turned upside down.
    pub open spec fn flipped(self) -> Grid {
        Grid {
            layout: self.layout,
            width: self.width,
            height: self.height,
            depth: self.depth,
            samples: Map::new(
                |p: (int, int)| cells(self.width, self.height).contains(p),
                |p: (int, int)| self.samples[(p.0, self.height - 1 - p.1)],
            ),
        }
    }

    /// The grid with every channel but alpha shifted by `delta` and held
    /// within the channel's range.
    pub open spec fn brightened(self, delta: int) -> Grid {
        Grid {
            layout: self.layout,
            width: self.width,
            height: self.height,
            depth: self.depth,
            samples: self.samples.map_values(
                |pixel: Seq<nat>| shifted_pixel(pixel, delta, self.depth),
            ),
        }
    }
}

/// Four quarter turns restore a well-formed grid.
pub proof fn lemma_quarter_turn_four_times(g: Grid)
    requires
        g.wf(),
    ensures
        g.quarter_turn().quarter_turn().quarter_turn().quarter_turn() == g,
{
    let r = g.quarter_turn().quarter_turn().quarter_turn().quarter_turn();
    assert(r.samples =~= g.samples);
}

/// Two quarter turns are a half turn.
pub proof fn lemma_quarter_turn_twice(g: Grid)
    ensures
        g.quarter_turn().quarter_turn() == g.half_turn(),
{
    assert(g.quarter_turn().quarter_turn().samples =~= g.half_turn().samples);
}

/// Three quarter turns are a three-quarter turn.
pub proof fn lemma_quarter_turn_thrice(g: Grid)
    ensures
        g.quarter_turn().quarter_turn().quarter_turn() == g.three_quarter_turn(),
{
    assert(g.quarter_turn().quarter_turn().quarter_turn().samples
        =~= g.three_quarter_turn().samples);
}

/// Mirroring twice restores a well-formed grid.
pub proof fn lemma_mirrored_twice(g: Grid)
    requires
        g.wf(),
    ensures
        g.mirrored().mirrored() == g,
{
    assert(g.mirrored().mirrored().samples =~= g.samples);
}

/// Turning upside down twice restores a well-formed grid.
pub proof fn lemma_flipped_twice(g: Grid)
    requires
        g.wf(),
    ensures
        g.flipped().flipped() == g,
{
    assert(g.flipped().flipped().samples =~= g.samples);
}

/// A turned or mirrored grid is well formed, whatever the grid it was made
/// from.
pub proof fn lemma_turns_are_well_formed(g: Grid)
    ensures
        g.quarter_turn().wf(),
        g.half_turn().wf(),
        g.three_quarter_turn().wf(),
        g.mirrored().wf(),
        g.flipped().wf(),
{
    assert(g.quarter_turn().samples.dom() =~= cells(g.height, g.width));
    assert(g.half_turn().samples.dom() =~= cells(g.width, g.height));
    assert(g.three_quarter_turn().samples.dom() =~= cells(g.height, g.width));
    assert(g.mirrored().samples.dom() =~= cells(g.width, g.height));
    assert(g.flipped().samples.dom() =~= cells(g.width, g.height));
}

/// Brightening keeps a well-formed grid well formed.
pub proof fn lemma_brightened_is_well_formed(g: Grid, delta: int)
    requires
        g.wf(),
    ensures
        g.brightened(delta).wf(),
{
    assert(g.brightened(delta).samples.dom() =~= g.samples.dom());
}

/// Once a shift is at least the depth, a larger one changes nothing more:
/// every shifted channel is already at the top of its range.
pub proof fn lemma_brightening_saturates(g: Grid, small: int, large: int)
    requires
        g.depth <= small <= large,
    ensures
        g.brightened(small) == g.brightened(large),
{
    let a = g.brightened(small).samples;
    let b = g.brightened(large).samples;
    assert(a.dom() =~= b.dom());
    assert forall|p: (int, int)| a.dom().contains(p) implies a[p] == b[p] by {
        let pixel = g.samples[p];
        assert(shifted_pixel(pixel, small, g.depth) =~= shifted_pixel(pixel, large, g.depth));
    }
    assert(a =~= b);
}

} // verus!
