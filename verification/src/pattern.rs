//! The carpet as a function from pixels to colours.

use vstd::prelude::*;
use crate::canvas::uniform_grid;
use crate::color::Color;
use crate::palette::layer_color;
use crate::square::{band_of, band_start, Square};

verus! {

/// Where the cell that holds `x` begins, in a row of three cells of side
/// `third` that starts at 0.
pub open spec fn cell_start(third: int, x: int) -> int {
    band_start(third, band_of(third, x))
}

/// The carpet on a square of side `len` worked `depth` levels down, seen
/// from the pixel at column `x` and row `y` of the square: the number of
/// levels that remained when the pixel was painted, or `None` if it never
/// is.
///
/// The middle cell is painted at this level. Each of the eight cells around
/// it holds the carpet of side `len / 3` with one level less. Where three
/// does not divide `len`, the rest of the square is left alone.
pub open spec fn carpet_layer(len: int, depth: nat, x: int, y: int) -> Option<nat>
    decreases depth,
{
    let third = len / 3;
    if third <= x < 2 * third && third <= y < 2 * third {
        Some(depth)
    } else if depth > 0 && 0 <= x < 3 * third && 0 <= y < 3 * third {
        carpet_layer(
            third,
            (depth - 1) as nat,
            x - cell_start(third, x),
            y - cell_start(third, y),
        )
    } else {
        None
    }
}

/// `(x, y)` names a pixel of `rows`.
pub open spec fn on_canvas(rows: Seq<Seq<Color>>, x: int, y: int) -> bool {
    0 <= y < rows.len() && 0 <= x < rows[y].len()
}

/// Every pixel of `sqr` is a pixel of `rows`.
pub open spec fn covers(rows: Seq<Seq<Color>>, sqr: Square) -> bool {
    forall|x: int, y: int| #[trigger] sqr.contains(x, y) ==> on_canvas(rows, x, y)
}

/// Every pixel of the middle cell of `sqr` is a pixel of `rows`.
pub open spec fn holds_center(rows: Seq<Seq<Color>>, sqr: Square) -> bool {
    forall|x: int, y: int| #[trigger] sqr.in_center(x, y) ==> on_canvas(rows, x, y)
}

/// `before` with the middle cell of `sqr` in `color`.
pub open spec fn with_center(before: Seq<Seq<Color>>, sqr: Square, color: Color) -> Seq<
    Seq<Color>,
> {
    Seq::new(
        before.len(),
        |y: int|
            Seq::new(
                before[y].len(),
                |x: int|
                    if sqr.in_center(x, y) {
                        color
                    } else {
                        before[y][x]
                    },
            ),
    )
}

/// `before` with the carpet of `depth` levels painted on `sqr`: each pixel
/// that the carpet paints has the colour of its layer, every other pixel is
/// as it was.
pub open spec fn painted(
    before: Seq<Seq<Color>>,
    sqr: Square,
    depth: nat,
    layers: Seq<Color>,
) -> Seq<Seq<Color>> {
    Seq::new(
        before.len(),
        |y: int|
            Seq::new(
                before[y].len(),
                |x: int|
                    match carpet_layer(sqr.len as int, depth, x - sqr.x0, y - sqr.y0) {
                        Some(level) => layer_color(layers, level),
                        None => before[y][x],
                    },
            ),
    )
}

/// The carpet of `depth` levels on a fresh canvas of `side` by `side`
/// pixels.
pub open spec fn carpet_image(side: u32, depth: nat, background: Color, layers: Seq<Color>) -> Seq<
    Seq<Color>,
> {
    painted(
        uniform_grid(side as nat, side as nat, background),
        Square { x0: 0, y0: 0, len: side },
        depth,
        layers,
    )
}

/// The two grids have the same rows of the same lengths.
pub open spec fn same_shape(a: Seq<Seq<Color>>, b: Seq<Seq<Color>>) -> bool {
    &&& a.len() == b.len()
    &&& forall|y: int| 0 <= y < a.len() ==> (#[trigger] a[y]).len() == b[y].len()
}

/// A canvas that holds a square holds its middle cell.
pub proof fn lemma_covers_center(rows: Seq<Seq<Color>>, sqr: Square)
    requires
        covers(rows, sqr),
    ensures
        holds_center(rows, sqr),
{
    assert forall|x: int, y: int| #[trigger] sqr.in_center(x, y) implies on_canvas(rows, x, y) by {
        assert(sqr.contains(x, y));
    }
}

/// A canvas that holds a square holds every square within it, and so does
/// every canvas of the same shape.
pub proof fn lemma_covers_within(
    rows: Seq<Seq<Color>>,
    sqr: Square,
    other: Seq<Seq<Color>>,
    inner: Square,
)
    requires
        covers(rows, sqr),
        same_shape(rows, other),
        inner.within(sqr),
    ensures
        covers(other, inner),
{
    assert forall|x: int, y: int| #[trigger] inner.contains(x, y) implies on_canvas(
        other,
        x,
        y,
    ) by {
        assert(sqr.contains(x, y));
    }
}

} // verus!
