//! What holds of every carpet: its size, its middle, its likeness to itself.

use vstd::prelude::*;
use crate::canvas::{is_grid, uniform_grid};
use crate::color::Color;
use crate::palette::layer_color;
use crate::pattern::{carpet_image, on_canvas, painted, with_center};
use crate::side::{image_side_of, lemma_pow3_grows, lemma_pow3_values, pow3, MIN_SIDE};
use crate::square::{band_start, is_outer_cell, Square};

verus! {

/// The image of a carpet is a square of the side asked for.
pub proof fn lemma_carpet_is_square(side: u32, depth: nat, background: Color, layers: Seq<Color>)
    ensures
        is_grid(carpet_image(side, depth, background, layers), side as nat, side as nat),
{
}

/// The side of an image is three to the power of its levels or the least
/// side, whichever is more.
pub proof fn lemma_image_side(steps: nat)
    ensures
        image_side_of(steps) >= MIN_SIDE,
        image_side_of(steps) >= pow3(steps),
        image_side_of(steps) == MIN_SIDE || image_side_of(steps) == pow3(steps),
        steps <= 6 ==> image_side_of(steps) == MIN_SIDE,
        steps >= 7 ==> image_side_of(steps) == pow3(steps),
{
    lemma_pow3_values();
    if steps <= 6 {
        lemma_pow3_grows(steps, 6);
    } else {
        lemma_pow3_grows(7, steps);
    }
}

/// The middle third of the image has the colour of the outermost layer.
pub proof fn lemma_center_color(
    side: u32,
    depth: nat,
    background: Color,
    layers: Seq<Color>,
    x: int,
    y: int,
)
    requires
        side / 3 <= x < 2 * (side / 3),
        side / 3 <= y < 2 * (side / 3),
    ensures
        carpet_image(side, depth, background, layers)[y][x] == layer_color(layers, depth),
{
}

/// With no level below it the carpet is its middle cell: the image is the
/// background everywhere but in the middle third, which has the colour of
/// layer 0.
pub proof fn lemma_depth_zero(side: u32, background: Color, layers: Seq<Color>)
    ensures
        carpet_image(side, 0, background, layers) == with_center(
            uniform_grid(side as nat, side as nat, background),
            Square { x0: 0, y0: 0, len: side },
            layer_color(layers, 0),
        ),
{
    assert(carpet_image(side, 0, background, layers) =~~= with_center(
        uniform_grid(side as nat, side as nat, background),
        Square { x0: 0, y0: 0, len: side },
        layer_color(layers, 0),
    ));
}

/// The carpet repeats itself: each of the eight cells around the middle
/// holds, pixel for pixel, the image of the carpet with one level less on a
/// canvas of a third of the side.
pub proof fn lemma_self_similar(
    side: u32,
    depth: nat,
    background: Color,
    layers: Seq<Color>,
    cell: int,
    x: int,
    y: int,
)
    requires
        depth > 0,
        is_outer_cell(cell),
        0 <= x < side / 3,
        0 <= y < side / 3,
    ensures
        carpet_image(side, depth, background, layers)[band_start(side as int / 3, cell / 3)
            + y][band_start(side as int / 3, cell % 3) + x] == carpet_image(
            side / 3,
            (depth - 1) as nat,
            background,
            layers,
        )[y][x],
{
}

/// From eight levels on, the image of a carpet is three times as wide as
/// the image with one level less, and each of the eight cells around its
/// middle is that image.
pub proof fn lemma_image_self_similar(
    steps: nat,
    background: Color,
    layers: Seq<Color>,
    cell: int,
    x: int,
    y: int,
)
    requires
        steps >= 8,
        image_side_of(steps) <= u32::MAX,
        is_outer_cell(cell),
        0 <= x < image_side_of((steps - 1) as nat),
        0 <= y < image_side_of((steps - 1) as nat),
    ensures
        image_side_of(steps) == 3 * image_side_of((steps - 1) as nat),
        carpet_image(image_side_of(steps) as u32, steps, background, layers)[band_start(
            image_side_of((steps - 1) as nat) as int,
            cell / 3,
        ) + y][band_start(image_side_of((steps - 1) as nat) as int, cell % 3) + x] == carpet_image(
            image_side_of((steps - 1) as nat) as u32,
            (steps - 1) as nat,
            background,
            layers,
        )[y][x],
{
    lemma_image_side((steps - 1) as nat);
}

/// The nine cells of a square share no pixel, and none reaches out of the
/// square.
pub proof fn lemma_cells_apart(sqr: Square, first: int, second: int)
    requires
        sqr.wf(),
        0 <= first < 9,
        0 <= second < 9,
        first != second,
    ensures
        sqr.cell(first).apart(sqr.cell(second)),
        sqr.cell(first).within(sqr),
{
}

/// Squares that lie apart have no pixel in common.
pub proof fn lemma_apart_squares_share_no_pixel(first: Square, second: Square, x: int, y: int)
    requires
        first.apart(second),
    ensures
        !(first.contains(x, y) && second.contains(x, y)),
{
}

/// Painting a carpet on a square writes to no pixel outside the square.
pub proof fn lemma_paint_stays_inside(
    before: Seq<Seq<Color>>,
    sqr: Square,
    depth: nat,
    layers: Seq<Color>,
    x: int,
    y: int,
)
    requires
        on_canvas(before, x, y),
        !sqr.contains(x, y),
    ensures
        painted(before, sqr, depth, layers)[y][x] == before[y][x],
{
}

} // verus!
