//! The one operation that writes pixels: filling the middle cell of a square.

use vstd::prelude::*;
use crate::canvas::{canvas_rows, canvas_width, Canvas};
use crate::color::Color;
use crate::pattern::{holds_center, on_canvas, with_center};
use crate::square::Square;

verus! {

/// `before` with `color` in the first `cols` columns of the middle cell of
/// `sqr`, and in the first `rows_done` pixels of the column after them.
spec fn center_filled_to(
    before: Seq<Seq<Color>>,
    sqr: Square,
    color: Color,
    cols: int,
    rows_done: int,
) -> Seq<Seq<Color>> {
    Seq::new(
        before.len(),
        |y: int|
            Seq::new(
                before[y].len(),
                |x: int|
                    if sqr.in_center(x, y) && (x < sqr.x0 + sqr.third() + cols || (x == sqr.x0
                        + sqr.third() + cols && y < sqr.y0 + sqr.third() + rows_done)) {
                        color
                    } else {
                        before[y][x]
                    },
            ),
    )
}

/// Paints the middle cell of `sqr` in `color`.
pub fn fill_center_square(sqr: &Square, img: &mut Canvas, color: Color)
    requires
        sqr.wf(),
        holds_center(canvas_rows(*old(img)), *sqr),
    ensures
        canvas_rows(*final(img)) == with_center(canvas_rows(*old(img)), *sqr, color),
        canvas_width(*final(img)) == canvas_width(*old(img)),
{
    let inner_len = sqr.len / 3;
    let ghost before = canvas_rows(*img);
    assert(canvas_rows(*img) =~~= center_filled_to(before, *sqr, color, 0, 0));
    for x in 0..inner_len
        invariant
            inner_len == sqr.third(),
            sqr.wf(),
            holds_center(before, *sqr),
            canvas_rows(*img) == center_filled_to(before, *sqr, color, x as int, 0),
            canvas_width(*img) == canvas_width(*old(img)),
    {
        for y in 0..inner_len
            invariant
                inner_len == sqr.third(),
                x < inner_len,
                sqr.wf(),
                holds_center(before, *sqr),
                canvas_rows(*img) == center_filled_to(before, *sqr, color, x as int, y as int),
                canvas_width(*img) == canvas_width(*old(img)),
        {
            let ghost px = inner_len + sqr.x0 + x;
            let ghost py = inner_len + sqr.y0 + y;
            assert(sqr.in_center(px, py));
            img.put_pixel(inner_len + sqr.x0 + x, inner_len + sqr.y0 + y, color);
            assert(canvas_rows(*img) =~~= center_filled_to(
                before,
                *sqr,
                color,
                x as int,
                y + 1,
            ));
        }
        assert(canvas_rows(*img) =~~= center_filled_to(before, *sqr, color, x + 1, 0));
    }
    assert(canvas_rows(*img) =~~= with_center(before, *sqr, color));
}

} // verus!
