//! The painter that calls itself for each of the eight cells.

use vstd::prelude::*;
use crate::canvas::{canvas_rows, canvas_width, Canvas};
use crate::cells::{lemma_all_cells_painted, lemma_cell_painted, lemma_center_painted};
use crate::color::Color;
use crate::paint::fill_center_square;
use crate::pattern::{carpet_image, covers, lemma_covers_center, lemma_covers_within, painted};
use crate::side::{buffer_fits, lemma_square_buffer};
use crate::square::Square;

verus! {

/// Paints the carpet of `recursion` levels on `sqr`, cell by cell: the
/// middle first, then each of the eight cells around it with one level less.
pub fn sierpinski_carpet(sqr: Square, img: &mut Canvas, colors: &[Color], recursion: u32)
    requires
        sqr.wf(),
        covers(canvas_rows(*old(img)), sqr),
        colors@.len() > 0,
    ensures
        canvas_rows(*final(img)) == painted(
            canvas_rows(*old(img)),
            sqr,
            recursion as nat,
            colors@,
        ),
        canvas_width(*final(img)) == canvas_width(*old(img)),
    decreases recursion,
{
    let ghost before = canvas_rows(*img);
    let ghost depth = recursion as nat;
    let color = colors[recursion as usize % colors.len()];
    proof {
        lemma_covers_center(before, sqr);
        lemma_center_painted(before, sqr, depth, colors@);
    }
    fill_center_square(&sqr, img, color);
    let ghost mut done = set![4int];

    if recursion == 0 {
        proof {
            lemma_all_cells_painted(before, sqr, depth, colors@, done);
        }
        return ;
    }
    let new_len = sqr.len / 3;

    let cell = Square::new(sqr.x0, sqr.y0, new_len);
    proof {
        lemma_covers_within(before, sqr, canvas_rows(*img), cell);
        lemma_cell_painted(before, sqr, depth, colors@, done, 0);
        done = done.insert(0);
    }
    sierpinski_carpet(cell, img, colors, recursion - 1);

    let cell = Square::new(sqr.x0, sqr.y0 + new_len, new_len);
    proof {
        lemma_covers_within(before, sqr, canvas_rows(*img), cell);
        lemma_cell_painted(before, sqr, depth, colors@, done, 3);
        done = done.insert(3);
    }
    sierpinski_carpet(cell, img, colors, recursion - 1);

    let cell = Square::new(sqr.x0, sqr.y0 + 2 * new_len, new_len);
    proof {
        lemma_covers_within(before, sqr, canvas_rows(*img), cell);
        lemma_cell_painted(before, sqr, depth, colors@, done, 6);
        done = done.insert(6);
    }
    sierpinski_carpet(cell, img, colors, recursion - 1);

    let cell = Square::new(sqr.x0 + new_len, sqr.y0, new_len);
    proof {
        lemma_covers_within(before, sqr, canvas_rows(*img), cell);
        lemma_cell_painted(before, sqr, depth, colors@, done, 1);
        done = done.insert(1);
    }
    sierpinski_carpet(cell, img, colors, recursion - 1);

    let cell = Square::new(sqr.x0 + new_len, sqr.y0 + 2 * new_len, new_len);
    proof {
        lemma_covers_within(before, sqr, canvas_rows(*img), cell);
        lemma_cell_painted(before, sqr, depth, colors@, done, 7);
        done = done.insert(7);
    }
    sierpinski_carpet(cell, img, colors, recursion - 1);

    let cell = Square::new(sqr.x0 + 2 * new_len, sqr.y0, new_len);
    proof {
        lemma_covers_within(before, sqr, canvas_rows(*img), cell);
        lemma_cell_painted(before, sqr, depth, colors@, done, 2);
        done = done.insert(2);
    }
    sierpinski_carpet(cell, img, colors, recursion - 1);

    let cell = Square::new(sqr.x0 + 2 * new_len, sqr.y0 + new_len, new_len);
    proof {
        lemma_covers_within(before, sqr, canvas_rows(*img), cell);
        lemma_cell_painted(before, sqr, depth, colors@, done, 5);
        done = done.insert(5);
    }
    sierpinski_carpet(cell, img, colors, recursion - 1);

    let cell = Square::new(sqr.x0 + 2 * new_len, sqr.y0 + 2 * new_len, new_len);
    proof {
        lemma_covers_within(before, sqr, canvas_rows(*img), cell);
        lemma_cell_painted(before, sqr, depth, colors@, done, 8);
        done = done.insert(8);
    }
    sierpinski_carpet(cell, img, colors, recursion - 1);

    proof {
        lemma_all_cells_painted(before, sqr, depth, colors@, done);
    }
}

/// The carpet of `recursions` levels on a fresh canvas of `side` by `side`
/// pixels, painted by recursion; `None` where no buffer for that canvas can
/// be allocated.
pub fn fresh_carpet(recursions: u32, side: u32, background: Color, colors: &[Color]) -> (carpet:
    Option<Canvas>)
    requires
        colors@.len() > 0,
    ensures
        match carpet {
            Some(canvas) => {
                &&& buffer_fits(side as nat)
                &&& canvas_rows(canvas) == carpet_image(
                    side,
                    recursions as nat,
                    background,
                    colors@,
                )
                &&& canvas_width(canvas) == side
            },
            None => !buffer_fits(side as nat),
        },
{
    proof {
        lemma_square_buffer(side as nat);
    }
    let mut img = match Canvas::blank(side, side, background) {
        Some(img) => img,
        None => {
            return None;
        },
    };
    let sqr = Square::new(0, 0, side);
    sierpinski_carpet(sqr, &mut img, colors, recursions);
    Some(img)
}

} // verus!
