//! Timing the painter with a stopwatch.

use vstd::prelude::*;
use vstd::string::StringExecFns;
use stopwatch::Stopwatch;
use crate::carpet::sierpinski_carpet;
use crate::color::Color;
use crate::palette::Colors;
use crate::side::{
    benchmark_side, benchmark_side_of, buffer_fits, lemma_fitting_side_is_small, side_fits,
};

verus! {

/// Makes `stopwatch::Stopwatch` known to the verifier, as a value that it
/// cannot look into.
#[verifier::external_type_specification]
#[verifier::external_body]
pub struct ExStopwatch(Stopwatch);

/// `stopwatch::Stopwatch::new` gives a stopwatch that is not running.
/// Nothing is claimed of it.
pub assume_specification[ Stopwatch::new ]() -> Stopwatch
;

/// `stopwatch::Stopwatch::restart` sets the stopwatch to zero and starts it.
/// Nothing is claimed of it.
pub assume_specification[ Stopwatch::restart ](sw: &mut Stopwatch)
;

/// `stopwatch::Stopwatch::elapsed_ms` gives the whole milliseconds since the
/// stopwatch was started. Nothing is claimed of the number: it is whatever
/// the clock says.
pub assume_specification[ Stopwatch::elapsed_ms ](sw: &Stopwatch) -> i64
;

/// What one round of the benchmark measured.
#[derive(Clone, Copy, Debug, PartialEq, Eq, Structural)]
pub struct Timing {
    /// The levels of the carpet that was painted.
    pub steps: u32,
    /// The side of its image.
    pub side: u32,
    /// How many times it was painted.
    pub runs: u32,
    /// The time that all the paintings took together, in milliseconds.
    pub total_ms: i64,
}

/// The whole part of `total / runs`, rounded toward zero.
pub open spec fn mean_of(total: int, runs: int) -> int
    recommends
        runs > 0,
{
    if total >= 0 {
        total / runs
    } else {
        -((-total) / runs)
    }
}

impl Timing {
    /// The mean time that one painting took, in milliseconds, rounded
    /// toward zero.
    pub fn average_ms(&self) -> (mean: i64)
        requires
            self.runs > 0,
        ensures
            mean == mean_of(self.total_ms as int, self.runs as int),
    {
        self.total_ms / (self.runs as i64)
    }
}

/// One round of the benchmark: paints the carpet of `steps` levels `runs`
/// times over, in white on black, on an image of the side that
/// [`benchmark_side_of`] gives, and takes the time. `None` where no buffer
/// for that image can be allocated.
pub fn benchmark_step(steps: u32, runs: u32) -> (timing: Option<Timing>)
    ensures
        match timing {
            Some(timing) => {
                &&& buffer_fits(benchmark_side_of(steps as nat))
                &&& timing.steps == steps
                &&& timing.side == benchmark_side_of(steps as nat)
                &&& timing.runs == runs
            },
            None => !buffer_fits(benchmark_side_of(steps as nat)),
        },
{
    proof {
        if buffer_fits(benchmark_side_of(steps as nat)) {
            lemma_fitting_side_is_small(benchmark_side_of(steps as nat));
        }
    }
    let side = match benchmark_side(steps) {
        Some(side) => side,
        None => {
            return None;
        },
    };
    if !side_fits(side) {
        return None;
    }
    let mut sw = Stopwatch::new();
    sw.restart();
    for _run in 0..runs
        invariant
            buffer_fits(side as nat),
    {
        let colors = Colors {
            name: String::from_str("Classic_Contrast"),
            background: Color::new(0, 0, 0),
            layers: vec![Color::new(255, 255, 255)],
        };
        sierpinski_carpet(steps, side, colors);
    }
    Some(Timing { steps, side, runs, total_ms: sw.elapsed_ms() })
}

} // verus!
