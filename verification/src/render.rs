//! From a number of levels and a colour scheme to the finished image.

use vstd::prelude::*;
use crate::canvas::{canvas_rows, canvas_width, is_grid, Canvas};
use crate::color::Color;
use crate::recursive::fresh_carpet;
use crate::carpet::sierpinski_carpet;
use crate::palette::Colors;
use crate::pattern::carpet_image;
use crate::side::{
    aligned_side, aligned_side_of, buffer_fits, image_side, image_side_of,
    lemma_fitting_side_is_small, side_fits, MIN_SIDE,
};

verus! {

/// The image for a carpet of `steps` levels can be allocated.
pub open spec fn renderable(steps: nat) -> bool {
    buffer_fits(image_side_of(steps))
}

/// The carpet of `steps` levels in the colours of `colors`, on an image of
/// the side that [`image_side_of`] gives; `None` where no buffer for that
/// image can be allocated.
pub fn render(steps: u32, colors: Colors) -> (carpet: Option<Canvas>)
    requires
        colors.wf(),
    ensures
        match carpet {
            Some(canvas) => {
                &&& renderable(steps as nat)
                &&& canvas_rows(canvas) == carpet_image(
                    image_side_of(steps as nat) as u32,
                    steps as nat,
                    colors.background,
                    colors.layers@,
                )
                &&& is_grid(
                    canvas_rows(canvas),
                    image_side_of(steps as nat),
                    image_side_of(steps as nat),
                )
                &&& canvas_width(canvas) == image_side_of(steps as nat)
                &&& image_side_of(steps as nat) >= MIN_SIDE
            },
            None => !renderable(steps as nat),
        },
{
    proof {
        if renderable(steps as nat) {
            lemma_fitting_side_is_small(image_side_of(steps as nat));
        }
    }
    match image_side(steps) {
        Some(side) => if side_fits(side) {
            Some(sierpinski_carpet(steps, side, colors))
        } else {
            None
        },
        None => None,
    }
}

/// The carpet of `recursions` levels in the colours `colors` on
/// `background`, painted by recursion on an image of the side that
/// [`aligned_side_of`] gives: a power of three, so that every level divides
/// evenly. `None` where no buffer for that image can be allocated.
pub fn render_aligned(recursions: u32, background: Color, colors: &[Color]) -> (carpet: Option<
    Canvas,
>)
    requires
        colors@.len() > 0,
    ensures
        match carpet {
            Some(canvas) => {
                &&& buffer_fits(aligned_side_of(recursions as nat))
                &&& canvas_rows(canvas) == carpet_image(
                    aligned_side_of(recursions as nat) as u32,
                    recursions as nat,
                    background,
                    colors@,
                )
                &&& canvas_width(canvas) == aligned_side_of(recursions as nat)
            },
            None => !buffer_fits(aligned_side_of(recursions as nat)),
        },
{
    proof {
        if buffer_fits(aligned_side_of(recursions as nat)) {
            lemma_fitting_side_is_small(aligned_side_of(recursions as nat));
        }
    }
    match aligned_side(recursions) {
        Some(side) => fresh_carpet(recursions, side, background, colors),
        None => None,
    }
}

} // verus!
