//! Board placement configuration: where the board's origin lies in
//! world space.

use vstd::prelude::*;

verus! {

/// A 3D offset or position with integer components.
#[derive(Clone, Copy, Debug, PartialEq, Eq, Structural)]
pub struct IVec3 {
    pub x: i64,
    pub y: i64,
    pub z: i64,
}

impl IVec3 {
    /// The zero vector.
    pub fn zero() -> (r: IVec3)
        ensures
            r == (IVec3 { x: 0, y: 0, z: 0 }),
    {
        IVec3 { x: 0, y: 0, z: 0 }
    }
}

/// Board position customization options.
#[derive(Clone, Copy, Debug, PartialEq, Eq, Structural)]
pub enum BoardPosition {
    /// Centered board: the origin is the negative half-extent of the
    /// board size, displaced by `offset`.
    Centered { offset: IVec3 },
    /// Custom position: the origin is exactly this point.
    Custom(IVec3),
}

/// Board generation options.
#[derive(Clone, Copy, Debug, PartialEq, Eq, Structural)]
pub struct BoardOptions {
    /// Board world position policy.
    pub position: BoardPosition,
}

impl Default for BoardPosition {
    /// The default policy: centered with a zero offset.
    fn default() -> (r: Self)
        ensures
            r == (BoardPosition::Centered { offset: IVec3 { x: 0, y: 0, z: 0 } }),
    {
        BoardPosition::Centered { offset: IVec3::zero() }
    }
}

impl Default for BoardOptions {
    /// The default options: a centered board with a zero offset.
    fn default() -> (r: Self)
        ensures
            r == (BoardOptions {
                position: BoardPosition::Centered { offset: IVec3 { x: 0, y: 0, z: 0 } },
            }),
    {
        BoardOptions { position: BoardPosition::Centered { offset: IVec3::zero() } }
    }
}

} // verus!
