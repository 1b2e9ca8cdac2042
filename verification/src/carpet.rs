//! The painter that works from a list of squares still to paint.

use vstd::prelude::*;
use crate::canvas::{canvas_rows, canvas_width, is_grid, Canvas};
use crate::cells::{
    lemma_all_cells_painted, lemma_cell_painted, lemma_center_painted, painted_cells,
};
use crate::color::Color;
use crate::paint::fill_center_square;
use crate::palette::Colors;
use crate::pattern::{carpet_image, on_canvas, painted};
use crate::side::lemma_square_buffer;
use crate::square::{band_start, Square};

verus! {

/// `rows` once the carpet of every entry of `work` is painted, the last
/// entry first.
pub open spec fn finished(
    rows: Seq<Seq<Color>>,
    work: Seq<(Square, u32)>,
    layers: Seq<Color>,
) -> Seq<Seq<Color>>
    decreases work.len(),
{
    if work.len() == 0 {
        rows
    } else {
        finished(
            painted(rows, work.last().0, work.last().1 as nat, layers),
            work.drop_last(),
            layers,
        )
    }
}

/// The number of squares that the carpet of `steps` levels visits.
pub open spec fn visits(steps: nat) -> nat
    decreases steps,
{
    if steps == 0 {
        1
    } else {
        1 + 8 * visits((steps - 1) as nat)
    }
}

/// The number of squares that are still to visit for the entries of `work`.
pub open spec fn pending(work: Seq<(Square, u32)>) -> nat
    decreases work.len(),
{
    if work.len() == 0 {
        0
    } else {
        pending(work.drop_last()) + visits(work.last().1 as nat)
    }
}

/// The entries for the first `n` cells of `sqr`, the middle one left out,
/// each with `steps` levels to go.
pub open spec fn cell_entries(sqr: Square, steps: u32, n: int) -> Seq<(Square, u32)>
    decreases n,
{
    if n <= 0 {
        Seq::empty()
    } else if n - 1 == 4 {
        cell_entries(sqr, steps, n - 1)
    } else {
        cell_entries(sqr, steps, n - 1).push((sqr.cell(n - 1), steps))
    }
}

/// Entries for the cells around the middle stand for the rest of the square:
/// once the cells from `n` on are done, finishing the entries of the first
/// `n` cells completes the carpet on `sqr`.
proof fn lemma_cell_entries_finish(
    before: Seq<Seq<Color>>,
    sqr: Square,
    steps: u32,
    layers: Seq<Color>,
    done: Set<int>,
    rest: Seq<(Square, u32)>,
    n: int,
)
    requires
        sqr.wf(),
        steps > 0,
        0 <= n <= 9,
        done.contains(4),
        forall|cell: int| n <= cell < 9 ==> done.contains(cell),
    ensures
        finished(
            painted_cells(before, sqr, steps as nat, layers, done),
            rest + cell_entries(sqr, (steps - 1) as u32, n),
            layers,
        ) == finished(painted(before, sqr, steps as nat, layers), rest, layers),
    decreases n,
{
    let below = (steps - 1) as u32;
    let work = rest + cell_entries(sqr, below, n);
    if n == 0 {
        assert(work =~= rest);
        lemma_all_cells_painted(before, sqr, steps as nat, layers, done);
    } else if n == 5 {
        lemma_cell_entries_finish(before, sqr, steps, layers, done, rest, n - 1);
    } else {
        let shorter = rest + cell_entries(sqr, below, n - 1);
        assert(work.drop_last() =~= shorter);
        lemma_cell_painted(before, sqr, steps as nat, layers, done, n - 1);
        lemma_cell_entries_finish(before, sqr, steps, layers, done.insert(n - 1), rest, n - 1);
    }
}

/// What the entries of the first `n` cells add to the squares still to
/// visit.
proof fn lemma_cell_entries_pending(rest: Seq<(Square, u32)>, sqr: Square, steps: u32, n: int)
    requires
        0 <= n <= 9,
    ensures
        pending(rest + cell_entries(sqr, steps, n)) == pending(rest) + (if n <= 4 {
            n
        } else {
            n - 1
        }) * visits(steps as nat),
    decreases n,
{
    let work = rest + cell_entries(sqr, steps, n);
    if n == 0 {
        assert(work =~= rest);
    } else if n == 5 {
        lemma_cell_entries_pending(rest, sqr, steps, n - 1);
    } else {
        let shorter = rest + cell_entries(sqr, steps, n - 1);
        assert(work.drop_last() =~= shorter);
        lemma_cell_entries_pending(rest, sqr, steps, n - 1);
        let count = if n - 1 <= 4 {
            n - 1
        } else {
            n - 2
        };
        assert((count + 1) * visits(steps as nat) == count * visits(steps as nat) + visits(
            steps as nat,
        )) by (nonlinear_arith);
    }
}

/// Every entry of `work` is a square with representable corners on the
/// canvas of `side` by `side` pixels.
pub open spec fn entries_fit(work: Seq<(Square, u32)>, side: u32) -> bool {
    forall|i: int|
        0 <= i < work.len() ==> (#[trigger] work[i]).0.x0 + work[i].0.len <= side && work[i].0.y0
            + work[i].0.len <= side
}

/// The carpet of `steps` levels on a fresh canvas of `side` by `side`
/// pixels, in the colours of `colors`.
///
/// The squares to paint are kept on a work list, so that the depth of the
/// carpet does not burden the call stack.
pub fn sierpinski_carpet(steps: u32, side: u32, colors: Colors) -> (carpet: Canvas)
    requires
        3 * side * side <= isize::MAX,
        colors.wf(),
    ensures
        canvas_rows(carpet) == carpet_image(
            side,
            steps as nat,
            colors.background,
            colors.layers@,
        ),
        is_grid(canvas_rows(carpet), side as nat, side as nat),
        canvas_width(carpet) == side,
{
    proof {
        lemma_square_buffer(side as nat);
    }
    let mut carpet = Canvas::filled(side, side, colors.background);
    let sqr = Square { x0: 0, y0: 0, len: side };
    let mut stack = vec![(sqr, steps)];
    let ghost layers = colors.layers@;
    let ghost target = carpet_image(side, steps as nat, colors.background, layers);
    assert(finished(
        painted(canvas_rows(carpet), sqr, steps as nat, layers),
        stack@.drop_last(),
        layers,
    ) == target);

    while !stack.is_empty()
        invariant
            layers == colors.layers@,
            layers.len() > 0,
            is_grid(canvas_rows(carpet), side as nat, side as nat),
            canvas_width(carpet) == side,
            entries_fit(stack@, side),
            finished(canvas_rows(carpet), stack@, layers) == target,
        decreases pending(stack@),
    {
        let ghost before = canvas_rows(carpet);
        let (sqr, steps) = stack.pop().unwrap();
        let ghost rest = stack@;
        let layer_color = colors.get_layer_color(steps as usize);
        proof {
            lemma_center_painted(before, sqr, steps as nat, layers);
        }
        fill_center_square(&sqr, &mut carpet, layer_color);

        if steps == 0 {
            proof {
                lemma_all_cells_painted(before, sqr, 0, layers, set![4]);
            }
        } else {
            let new_len = sqr.len / 3;
            for i in 0u32..9
                invariant
                    sqr.wf(),
                    sqr.x0 + sqr.len <= side,
                    sqr.y0 + sqr.len <= side,
                    steps > 0,
                    new_len == sqr.third(),
                    entries_fit(stack@, side),
                    stack@ == rest + cell_entries(sqr, (steps - 1) as u32, i as int),
            {
                if i != 4 {
                    let col = i % 3;
                    let row = i / 3;
                    assert(col * new_len == band_start(new_len as int, col as int))
                        by (nonlinear_arith)
                        requires
                            0 <= col < 3,
                    ;
                    assert(row * new_len == band_start(new_len as int, row as int))
                        by (nonlinear_arith)
                        requires
                            0 <= row < 3,
                    ;
                    stack.push(
                        (
                            Square {
                                x0: sqr.x0 + (i % 3) * new_len,
                                y0: sqr.y0 + (i / 3) * new_len,
                                len: new_len,
                            },
                            steps - 1,
                        ),
                    );
                }
            }
            proof {
                lemma_cell_entries_finish(before, sqr, steps, layers, set![4], rest, 9);
                lemma_cell_entries_pending(rest, sqr, (steps - 1) as u32, 9);
            }
        }
    }
    carpet
}

} // verus!
