//! The order in which the cells are painted makes no difference.

use vstd::prelude::*;
use crate::cells::{
    lemma_all_cells_painted, lemma_cell_painted, lemma_center_painted, painted_cells,
};
use crate::color::Color;
use crate::palette::layer_color;
use crate::canvas::uniform_grid;
use crate::pattern::{carpet_image, painted, with_center};
use crate::square::{is_outer_cell, Square};

verus! {

/// `order` is a way through the eight cells around the middle: eight cell
/// numbers among which each of the eight occurs.
pub open spec fn is_cell_order(order: Seq<int>) -> bool {
    &&& order.len() == 8
    &&& forall|i: int| 0 <= i < order.len() ==> is_outer_cell(#[trigger] order[i])
    &&& forall|cell: int| is_outer_cell(cell) ==> order.contains(cell)
}

/// The canvas when a painter that takes the cells of every square in the
/// order `order` has filled the middle cell of `sqr` and gone through the
/// first `count` cells around it.
pub open spec fn painted_in_order(
    before: Seq<Seq<Color>>,
    sqr: Square,
    depth: nat,
    layers: Seq<Color>,
    order: Seq<int>,
    count: nat,
) -> Seq<Seq<Color>>
    decreases depth, count,
{
    if depth == 0 || count == 0 {
        with_center(before, sqr, layer_color(layers, depth))
    } else {
        painted_in_order(
            painted_in_order(before, sqr, depth, layers, order, (count - 1) as nat),
            sqr.cell(order[count - 1]),
            (depth - 1) as nat,
            layers,
            order,
            order.len(),
        )
    }
}

/// The middle cell and the first `count` cells of `order`.
pub open spec fn cells_visited(order: Seq<int>, count: nat) -> Set<int> {
    Set::new(|cell: int| cell == 4 || exists|i: int| 0 <= i < count && order[i] == cell)
}

/// After the first `count` cells of its order the painter has painted the
/// carpet on just those cells.
proof fn lemma_painted_in_order(
    before: Seq<Seq<Color>>,
    sqr: Square,
    depth: nat,
    layers: Seq<Color>,
    order: Seq<int>,
    count: nat,
)
    requires
        sqr.wf(),
        is_cell_order(order),
        count <= order.len(),
    ensures
        painted_in_order(before, sqr, depth, layers, order, count) == painted_cells(
            before,
            sqr,
            depth,
            layers,
            cells_visited(order, count),
        ),
        count == order.len() ==> painted_in_order(before, sqr, depth, layers, order, count)
            == painted(before, sqr, depth, layers),
    decreases depth, count,
{
    let done = cells_visited(order, count);
    if depth == 0 || count == 0 {
        lemma_center_painted(before, sqr, depth, layers);
        if depth == 0 {
            lemma_all_cells_painted(before, sqr, depth, layers, set![4]);
            lemma_all_cells_painted(before, sqr, depth, layers, done);
        } else {
            assert(done =~= set![4]);
        }
    } else {
        let fewer = (count - 1) as nat;
        let cell = order[count - 1];
        let inner = sqr.cell(cell);
        let previous = painted_in_order(before, sqr, depth, layers, order, fewer);
        lemma_painted_in_order(before, sqr, depth, layers, order, fewer);
        lemma_painted_in_order(previous, inner, (depth - 1) as nat, layers, order, order.len());
        lemma_cell_painted(before, sqr, depth, layers, cells_visited(order, fewer), cell);
        assert(cells_visited(order, fewer).insert(cell) =~= done);
    }
    if count == order.len() && depth > 0 {
        lemma_all_cells_painted(before, sqr, depth, layers, done);
    }
}

/// Whatever the order in which a painter takes the eight cells around the
/// middle, it paints the carpet.
pub proof fn lemma_any_order_paints_carpet(
    before: Seq<Seq<Color>>,
    sqr: Square,
    depth: nat,
    layers: Seq<Color>,
    order: Seq<int>,
)
    requires
        sqr.wf(),
        is_cell_order(order),
    ensures
        painted_in_order(before, sqr, depth, layers, order, order.len()) == painted(
            before,
            sqr,
            depth,
            layers,
        ),
{
    lemma_painted_in_order(before, sqr, depth, layers, order, order.len());
}

/// Whatever the order in which a painter takes the cells, on a fresh canvas
/// it leaves the image of the carpet: the image that the painter with the
/// work list and the painter that calls itself both leave.
pub proof fn lemma_any_order_paints_image(
    side: u32,
    depth: nat,
    background: Color,
    layers: Seq<Color>,
    order: Seq<int>,
)
    requires
        is_cell_order(order),
    ensures
        painted_in_order(
            uniform_grid(side as nat, side as nat, background),
            Square { x0: 0, y0: 0, len: side },
            depth,
            layers,
            order,
            order.len(),
        ) == carpet_image(side, depth, background, layers),
{
    lemma_any_order_paints_carpet(
        uniform_grid(side as nat, side as nat, background),
        Square { x0: 0, y0: 0, len: side },
        depth,
        layers,
        order,
    );
}

/// The order in which the cells are taken does not show in the result: two
/// painters that differ in nothing else leave the same canvas, pixel for
/// pixel.
pub proof fn lemma_order_independent(
    before: Seq<Seq<Color>>,
    sqr: Square,
    depth: nat,
    layers: Seq<Color>,
    first: Seq<int>,
    second: Seq<int>,
)
    requires
        sqr.wf(),
        is_cell_order(first),
        is_cell_order(second),
    ensures
        painted_in_order(before, sqr, depth, layers, first, first.len()) == painted_in_order(
            before,
            sqr,
            depth,
            layers,
            second,
            second.len(),
        ),
{
    lemma_any_order_paints_carpet(before, sqr, depth, layers, first);
    lemma_any_order_paints_carpet(before, sqr, depth, layers, second);
}

} // verus!
