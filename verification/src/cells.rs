//! Painting a square cell by cell: what each step adds, and when the carpet
//! is whole.

use vstd::prelude::*;
use crate::color::Color;
use crate::palette::layer_color;
use crate::pattern::{carpet_layer, painted, with_center};
use crate::square::{band_of, is_outer_cell, Square};

verus! {

/// `before` with the carpet of `depth` levels painted on those cells of
/// `sqr` whose numbers are in `done`.
pub open spec fn painted_cells(
    before: Seq<Seq<Color>>,
    sqr: Square,
    depth: nat,
    layers: Seq<Color>,
    done: Set<int>,
) -> Seq<Seq<Color>> {
    Seq::new(
        before.len(),
        |y: int|
            Seq::new(
                before[y].len(),
                |x: int|
                    {
                        let rx = x - sqr.x0;
                        let ry = y - sqr.y0;
                        let third = sqr.third();
                        if 0 <= rx < 3 * third && 0 <= ry < 3 * third && done.contains(
                            3 * band_of(third, ry) + band_of(third, rx),
                        ) {
                            match carpet_layer(sqr.len as int, depth, rx, ry) {
                                Some(level) => layer_color(layers, level),
                                None => before[y][x],
                            }
                        } else {
                            before[y][x]
                        }
                    },
            ),
    )
}

/// Filling the middle cell paints cell 4 of the carpet.
pub proof fn lemma_center_painted(
    before: Seq<Seq<Color>>,
    sqr: Square,
    depth: nat,
    layers: Seq<Color>,
)
    ensures
        with_center(before, sqr, layer_color(layers, depth)) == painted_cells(
            before,
            sqr,
            depth,
            layers,
            set![4],
        ),
{
    assert(with_center(before, sqr, layer_color(layers, depth)) =~~= painted_cells(
        before,
        sqr,
        depth,
        layers,
        set![4],
    ));
}

/// Painting the carpet of one level less on a cell around the middle adds
/// that cell to the ones that are done.
pub proof fn lemma_cell_painted(
    before: Seq<Seq<Color>>,
    sqr: Square,
    depth: nat,
    layers: Seq<Color>,
    done: Set<int>,
    cell: int,
)
    requires
        sqr.wf(),
        depth > 0,
        is_outer_cell(cell),
    ensures
        painted(
            painted_cells(before, sqr, depth, layers, done),
            sqr.cell(cell),
            (depth - 1) as nat,
            layers,
        ) == painted_cells(before, sqr, depth, layers, done.insert(cell)),
{
    let current = painted_cells(before, sqr, depth, layers, done);
    let after = painted(current, sqr.cell(cell), (depth - 1) as nat, layers);
    let goal = painted_cells(before, sqr, depth, layers, done.insert(cell));
    assert forall|y: int| 0 <= y < after.len() implies #[trigger] after[y] =~= goal[y] by {}
}

/// Once every cell is done the carpet is whole. With no level left the
/// middle cell is all there is.
pub proof fn lemma_all_cells_painted(
    before: Seq<Seq<Color>>,
    sqr: Square,
    depth: nat,
    layers: Seq<Color>,
    done: Set<int>,
)
    requires
        done.contains(4),
        depth == 0 || forall|cell: int| is_outer_cell(cell) ==> done.contains(cell),
    ensures
        painted_cells(before, sqr, depth, layers, done) == painted(before, sqr, depth, layers),
{
    let part = painted_cells(before, sqr, depth, layers, done);
    let whole = painted(before, sqr, depth, layers);
    let third = sqr.third();
    assert forall|y: int| 0 <= y < part.len() implies #[trigger] part[y] =~= whole[y] by {
        assert forall|x: int| 0 <= x < part[y].len() implies part[y][x] == whole[y][x] by {
            let rx = x - sqr.x0;
            let ry = y - sqr.y0;
            if 0 <= rx < 3 * third && 0 <= ry < 3 * third {
                let cell = 3 * band_of(third, ry) + band_of(third, rx);
                if cell != 4 && depth > 0 {
                    assert(is_outer_cell(cell));
                }
            }
        }
    }
}

} // verus!
