//! The side of the image for a carpet of a given number of levels.

use vstd::prelude::*;
use crate::canvas::can_allocate;

verus! {

/// The least side that an image is given, so that a carpet of few levels
/// can still be made out.
pub const MIN_SIDE: u32 = 743;

/// The side below which [`aligned_side`] goes on multiplying by three.
pub const ALIGNED_FLOOR: u32 = 729;

/// Three to the power `n`.
pub open spec fn pow3(n: nat) -> nat
    decreases n,
{
    if n == 0 {
        1
    } else {
        3 * pow3((n - 1) as nat)
    }
}

/// The side of the image for a carpet of `steps` levels: three to the power
/// `steps`, the side on which every level divides evenly, but never less
/// than [`MIN_SIDE`].
///
/// The floor is a plain maximum. It is no power of three, so on an image
/// that owes its side to the floor the cells do not fill their square: each
/// level drops what is left of a side that three does not divide, and a
/// level whose square is under three pixels wide paints nothing.
pub open spec fn image_side_of(steps: nat) -> nat {
    if pow3(steps) < MIN_SIDE {
        MIN_SIDE as nat
    } else {
        pow3(steps)
    }
}

/// The side of the image that a timed run paints: three to the power
/// `steps`, but at least three, so that the middle cell is a pixel.
pub open spec fn benchmark_side_of(steps: nat) -> nat {
    if pow3(steps) < 3 {
        3
    } else {
        pow3(steps)
    }
}

/// The least power of three that is no less than [`ALIGNED_FLOOR`] and than
/// three to the power `steps`.
pub open spec fn aligned_side_of(steps: nat) -> nat {
    if steps < 6 {
        pow3(6)
    } else {
        pow3(steps)
    }
}

/// A buffer of three bytes for each pixel of a square of this side can be
/// allocated.
pub open spec fn buffer_fits(side: nat) -> bool {
    3 * side * side <= isize::MAX
}

/// The buffer of a square image fits as soon as all its bytes together do:
/// one row is then no longer than the whole.
pub proof fn lemma_square_buffer(side: nat)
    ensures
        buffer_fits(side) <==> can_allocate(side, side),
{
    if buffer_fits(side) && side > 0 {
        assert(3 * side <= 3 * side * side) by (nonlinear_arith)
            requires
                side >= 1,
        ;
    }
}

/// A side whose buffer can be allocated is one that a `u32` holds.
pub proof fn lemma_fitting_side_is_small(side: nat)
    requires
        buffer_fits(side),
    ensures
        side <= u32::MAX,
{
    if side > u32::MAX {
        assert(3 * side * side >= 0x1_0000_0000 * 0x1_0000_0000) by (nonlinear_arith)
            requires
                side >= 0x1_0000_0000,
        ;
    }
}

/// Powers of three grow with the exponent.
pub proof fn lemma_pow3_grows(a: nat, b: nat)
    requires
        a <= b,
    ensures
        1 <= pow3(a) <= pow3(b),
    decreases b,
{
    if a < b {
        lemma_pow3_grows(a, (b - 1) as nat);
    } else if a > 0 {
        lemma_pow3_grows((a - 1) as nat, (a - 1) as nat);
    }
}

/// The first powers of three, up to the last below `2^32`.
pub proof fn lemma_pow3_values()
    ensures
        pow3(0) == 1,
        pow3(1) == 3,
        pow3(5) == 243,
        pow3(6) == 729,
        pow3(7) == 2187,
        pow3(9) == 19683,
        pow3(10) == 59049,
        pow3(20) == 3486784401,
        pow3(21) == 10460353203,
{
    reveal_with_fuel(pow3, 22);
}

/// Three to the power `steps`, or `None` where that is more than a `u32`
/// holds.
pub fn power_of_three(steps: u32) -> (power: Option<u32>)
    ensures
        power == (if pow3(steps as nat) <= u32::MAX {
            Some(pow3(steps as nat) as u32)
        } else {
            None
        }),
{
    let mut power: u32 = 1;
    let mut done: u32 = 0;
    while done < steps
        invariant
            done <= steps,
            power == pow3(done as nat),
        decreases steps - done,
    {
        match power.checked_mul(3) {
            Some(next) => {
                power = next;
            },
            None => {
                proof {
                    lemma_pow3_grows((done + 1) as nat, steps as nat);
                }
                return None;
            },
        }
        done = done + 1;
    }
    Some(power)
}

/// The side of the image for a carpet of `steps` levels, or `None` where
/// that is more than a `u32` holds.
pub fn image_side(steps: u32) -> (side: Option<u32>)
    ensures
        side == (if image_side_of(steps as nat) <= u32::MAX {
            Some(image_side_of(steps as nat) as u32)
        } else {
            None
        }),
{
    match power_of_three(steps) {
        Some(power) => if power < MIN_SIDE {
            Some(MIN_SIDE)
        } else {
            Some(power)
        },
        None => None,
    }
}

/// The side of the image that a timed run of `steps` levels paints, or
/// `None` where that is more than a `u32` holds.
pub fn benchmark_side(steps: u32) -> (side: Option<u32>)
    ensures
        side == (if benchmark_side_of(steps as nat) <= u32::MAX {
            Some(benchmark_side_of(steps as nat) as u32)
        } else {
            None
        }),
{
    match power_of_three(steps) {
        Some(power) => if power < 3 {
            Some(3)
        } else {
            Some(power)
        },
        None => None,
    }
}

/// Three to the power `steps`, multiplied by three until it is no less than
/// [`ALIGNED_FLOOR`]; `None` where three to the power `steps` is more than a
/// `u32` holds.
pub fn aligned_side(steps: u32) -> (side: Option<u32>)
    ensures
        side == (if aligned_side_of(steps as nat) <= u32::MAX {
            Some(aligned_side_of(steps as nat) as u32)
        } else {
            None
        }),
{
    proof {
        lemma_pow3_values();
    }
    match power_of_three(steps) {
        Some(power) => {
            let mut side = power;
            let ghost mut exponent = steps as nat;
            proof {
                lemma_pow3_grows(exponent, exponent);
            }
            while side < ALIGNED_FLOOR
                invariant
                    1 <= side,
                    steps <= exponent,
                    exponent <= 6 || exponent == steps,
                    side == pow3(exponent),
                    pow3(6) == 729,
                decreases 6 - exponent,
            {
                proof {
                    if exponent >= 6 {
                        lemma_pow3_grows(6, exponent);
                    }
                    exponent = exponent + 1;
                }
                side *= 3;
            }
            proof {
                if exponent < 6 {
                    lemma_pow3_grows(exponent, 5);
                }
            }
            Some(side)
        },
        None => {
            proof {
                if steps < 6 {
                    lemma_pow3_grows(steps as nat, 6);
                }
            }
            None
        },
    }
}

/// Whether a buffer for a square image of this side can be allocated.
pub fn side_fits(side: u32) -> (fits: bool)
    ensures
        fits == buffer_fits(side as nat),
{
    let wide = side as u128;
    assert(wide * wide <= 0xffff_ffff * 0xffff_ffff) by (nonlinear_arith)
        requires
            wide <= 0xffff_ffff,
    ;
    let bytes: u128 = 3 * (wide * wide);
    assert(bytes == 3 * side * side) by (nonlinear_arith)
        requires
            bytes == 3 * (side * side),
    ;
    bytes <= isize::MAX as u128
}

} // verus!
