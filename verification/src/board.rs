//! The live board resource: its world-space bounds and an opaque
//! handle to the scene hierarchy, plus the pointer-to-board
//! coordinate mapper.

use vstd::prelude::*;
use crate::bounds::{Bounds2, COORD_LIMIT, Point2};
use crate::rat::{Rat, Ratio, ratio_div_int, ratio_of_int, ratio_sub};
use crate::rat::lemma_i64_mul_fits_i128;

verus! {

/// Magnitude limit on window sizes and pointer positions.
pub const POINTER_LIMIT: i64 = 1_000_000;

/// A point in board-local space, produced by the coordinate mapper.
#[derive(Clone, Copy, Debug, PartialEq, Eq, Structural)]
pub struct Coordinates {
    pub x: Rat,
    pub y: Rat,
}

/// The built board: its axis-aligned world-space bounds and a
/// non-owning handle to the visual hierarchy owned by the host scene.
#[derive(Clone, Copy, Debug, PartialEq, Eq, Structural)]
pub struct Board {
    pub bounds: Bounds2,
    pub entity: u64,
}

/// A pointer position converted from window space to world space:
/// `p - window_size / 2` on one axis.
pub open spec fn world_coord_spec(window_extent: int, p: int) -> Ratio {
    ratio_sub(ratio_of_int(p), ratio_div_int(ratio_of_int(window_extent), 2))
}

impl Board {
    /// Well-formed: the bounds are well-formed and within the
    /// magnitude limit for hit-testing.
    pub open spec fn wf(self) -> bool {
        self.bounds.wf() && self.bounds.bounded(COORD_LIMIT as int)
    }

    /// Translates a pointer position (window space, extents
    /// `window_width` by `window_height`) to board-local coordinates.
    ///
    /// The pointer is first mapped to world space by subtracting half
    /// the window size. If the world point lies outside the board's
    /// bounds the result is absent; otherwise it is the world point
    /// relative to the board's origin.
    pub fn mouse_position(&self, window_width: i64, window_height: i64, px: i64, py: i64) -> (r:
        Option<Coordinates>)
        requires
            self.wf(),
            -POINTER_LIMIT <= window_width <= POINTER_LIMIT,
            -POINTER_LIMIT <= window_height <= POINTER_LIMIT,
            -POINTER_LIMIT <= px <= POINTER_LIMIT,
            -POINTER_LIMIT <= py <= POINTER_LIMIT,
        ensures
            r is Some <==> self.bounds.spec_in_bounds(
                world_coord_spec(window_width as int, px as int),
                world_coord_spec(window_height as int, py as int),
            ),
            r matches Some(c) ==> c.x@ == ratio_sub(
                world_coord_spec(window_width as int, px as int),
                self.bounds.position.x@,
            ),
            r matches Some(c) ==> c.y@ == ratio_sub(
                world_coord_spec(window_height as int, py as int),
                self.bounds.position.y@,
            ),
    {
        // Written in the exact shape `world_coord_spec` unfolds to, so
        // the views match term for term.
        let world = Point2 {
            x: Rat { num: px * 2 - window_width * 1, den: 1 * (1 * 2) },
            y: Rat { num: py * 2 - window_height * 1, den: 1 * (1 * 2) },
        };
        if !self.bounds.in_bounds(&world) {
            return None;
        }
        Some(Coordinates {
            x: local_coord(&world.x, &self.bounds.position.x),
            y: local_coord(&world.y, &self.bounds.position.y),
        })
    }
}

/// The world-space coordinate relative to the board's position on one
/// axis: `world - position`.
fn local_coord(world: &Rat, position: &Rat) -> (r: Rat)
    requires
        world.wf(),
        position.wf(),
        world.bounded(4 * POINTER_LIMIT as int),
        position.bounded(COORD_LIMIT as int),
    ensures
        r@ == ratio_sub(world@, position@),
        r.wf(),
{
    proof {
        lemma_i64_mul_fits_i128(world.num as int, position.den as int);
        lemma_i64_mul_fits_i128(position.num as int, world.den as int);
        lemma_i64_mul_fits_i128(world.den as int, position.den as int);
        assert(i64::MIN <= world.num as int * position.den as int
            - position.num as int * world.den as int <= i64::MAX
            && 0 < world.den as int * position.den as int <= i64::MAX) by (nonlinear_arith)
            requires
                -4_000_000 <= world.num as int <= 4_000_000,
                0 < world.den as int <= 4_000_000,
                -COORD_LIMIT <= position.num as int <= COORD_LIMIT,
                0 < position.den as int <= COORD_LIMIT,
                COORD_LIMIT == 0x4000_0000,
        ;
    }
    let num_wide: i128 = (world.num as i128) * (position.den as i128)
        - (position.num as i128) * (world.den as i128);
    let den_wide: i128 = (world.den as i128) * (position.den as i128);
    assert(num_wide == ratio_sub(world@, position@).num);
    assert(den_wide == ratio_sub(world@, position@).den);
    Rat { num: num_wide as i64, den: den_wide as i64 }
}

} // verus!
