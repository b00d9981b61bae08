//! Board construction: computes the board's origin and bounds and the
//! exact positions of every placed visual element (background, tank,
//! cover blocks, alien grid) from integer layout parameters.
//!
//! Positions are board-local (relative to the board origin) except for
//! the origin itself, which is in world space. All formulas are exact
//! over rationals; the divisions (`width / 2`, `width / covers_count`,
//! ...) never round.
//!
//! The executable numerators and denominators are written in the exact
//! shape the spec formulas unfold to (hence factors such as `* 1`), so
//! that the two sides match term for term without extra lemmas.

use vstd::prelude::*;
use vstd::arithmetic::div_mod::{lemma_div_pos_is_pos, lemma_fundamental_div_mod, lemma_mod_pos_bound};
use crate::board_assets::{BoardAssets, SpriteMaterial};
use crate::board_options::{BoardOptions, BoardPosition};
use crate::bounds::{Bounds2, COORD_LIMIT, Point2, Point3};
use crate::rat::{Rat, Ratio, ratio_add, ratio_div_int, ratio_mul_int, ratio_neg, ratio_of_int};

verus! {

/// Magnitude limit on board dimensions and offsets.
pub const DIM_LIMIT: i64 = 100_000;

/// Limit on element counts (covers per board, aliens per row, rows).
pub const COUNT_LIMIT: i64 = 1_000;

/// Fixed tank dimensions, in board units.
pub const TANK_WIDTH: i64 = 50;

pub const TANK_HEIGHT: i64 = 25;

/// Fixed height of a cover block.
pub const COVER_HEIGHT: i64 = 25;

/// Fixed height of an alien.
pub const ALIEN_HEIGHT: i64 = 25;

/// Horizontal step between alien columns.
pub const ALIEN_STEP_X: i64 = 34;

/// Vertical step between alien rows.
pub const ALIEN_STEP_Y: i64 = 30;

/// Default board extent.
pub const BOARD_WIDTH: i64 = 500;

pub const BOARD_HEIGHT: i64 = 800;

/// Default layout counts and element widths.
pub const COVERS_COUNT: i64 = 4;

pub const COVER_WIDTH: i64 = 50;

pub const ALIEN_ROWS: i64 = 5;

pub const ALIENS_PER_ROW: i64 = 12;

pub const ALIEN_WIDTH: i64 = 25;

/// A 2D board extent: width and height.
#[derive(Clone, Copy, Debug, PartialEq, Eq, Structural)]
pub struct BoardSize {
    pub width: i64,
    pub height: i64,
}

/// The kind of a placed visual element.
#[derive(Clone, Copy, Debug, PartialEq, Eq, Structural)]
pub enum ElementKind {
    Background,
    Tank,
    Cover,
    Alien,
}

/// One visual element placed by the builder, for the scene
/// collaborator to instantiate: kind, board-local position, extent
/// and appearance.
#[derive(Clone, Copy, Debug, PartialEq, Eq, Structural)]
pub struct PlacedElement {
    pub kind: ElementKind,
    pub position: Point2,
    pub width: i64,
    pub height: i64,
    pub material: SpriteMaterial,
}

/// The result of building a board: its world-space bounds and the
/// list of placed elements.
#[derive(Clone, Debug, PartialEq)]
pub struct BuiltBoard {
    pub bounds: Bounds2,
    pub elements: Vec<PlacedElement>,
}

/// The board origin's x component: for a centered board,
/// `-width/2 + offset.x`; for a custom position, exactly its x.
pub open spec fn origin_x_spec(options: BoardOptions, size: BoardSize) -> Ratio {
    match options.position {
        BoardPosition::Centered { offset } => ratio_add(
            ratio_neg(ratio_div_int(ratio_of_int(size.width as int), 2)),
            ratio_of_int(offset.x as int),
        ),
        BoardPosition::Custom(p) => ratio_of_int(p.x as int),
    }
}

/// The board origin's y component: for a centered board,
/// `-height/2 + offset.y`; for a custom position, exactly its y.
pub open spec fn origin_y_spec(options: BoardOptions, size: BoardSize) -> Ratio {
    match options.position {
        BoardPosition::Centered { offset } => ratio_add(
            ratio_neg(ratio_div_int(ratio_of_int(size.height as int), 2)),
            ratio_of_int(offset.y as int),
        ),
        BoardPosition::Custom(p) => ratio_of_int(p.y as int),
    }
}

/// The board origin's z component: for a centered board, exactly
/// `offset.z` (the base plane is z = 0); for a custom position, its z.
pub open spec fn origin_z_spec(options: BoardOptions) -> Ratio {
    match options.position {
        BoardPosition::Centered { offset } => ratio_of_int(offset.z as int),
        BoardPosition::Custom(p) => ratio_of_int(p.z as int),
    }
}

/// The tank sits at `(width/2, height/5)`, board-local.
pub open spec fn tank_x_spec(size: BoardSize) -> Ratio {
    ratio_div_int(ratio_of_int(size.width as int), 2)
}

pub open spec fn tank_y_spec(size: BoardSize) -> Ratio {
    ratio_div_int(ratio_of_int(size.height as int), 5)
}

/// Cover `i` (1-indexed) sits at x
/// `(cover_width/-2 + width/covers_count) * i`.
pub open spec fn cover_x_spec(size: BoardSize, cover_width: int, covers_count: int, i: int) -> Ratio {
    ratio_mul_int(
        ratio_add(
            ratio_neg(ratio_div_int(ratio_of_int(cover_width), 2)),
            ratio_div_int(ratio_of_int(size.width as int), covers_count),
        ),
        i,
    )
}

/// All covers share the y coordinate `height/4`.
pub open spec fn cover_y_spec(size: BoardSize) -> Ratio {
    ratio_div_int(ratio_of_int(size.height as int), 4)
}

/// Alien column `col` (1-indexed) sits at x
/// `(alien_width/-2 + width/aliens_per_row) + col * ALIEN_STEP_X`.
pub open spec fn alien_x_spec(size: BoardSize, alien_width: int, aliens_per_row: int, col: int) -> Ratio {
    ratio_add(
        ratio_add(
            ratio_neg(ratio_div_int(ratio_of_int(alien_width), 2)),
            ratio_div_int(ratio_of_int(size.width as int), aliens_per_row),
        ),
        ratio_of_int(ALIEN_STEP_X * col),
    )
}

/// Alien row `row` (1-indexed) sits at y
/// `height/3 + row * ALIEN_STEP_Y`.
pub open spec fn alien_y_spec(size: BoardSize, row: int) -> Ratio {
    ratio_add(
        ratio_div_int(ratio_of_int(size.height as int), 3),
        ratio_of_int(ALIEN_STEP_Y * row),
    )
}

/// The offsets named by the placement policy are within `DIM_LIMIT`.
pub open spec fn options_bounded(options: BoardOptions) -> bool {
    match options.position {
        BoardPosition::Centered { offset } => {
            &&& -DIM_LIMIT <= offset.x <= DIM_LIMIT
            &&& -DIM_LIMIT <= offset.y <= DIM_LIMIT
            &&& -DIM_LIMIT <= offset.z <= DIM_LIMIT
        },
        BoardPosition::Custom(p) => {
            &&& -DIM_LIMIT <= p.x <= DIM_LIMIT
            &&& -DIM_LIMIT <= p.y <= DIM_LIMIT
            &&& -DIM_LIMIT <= p.z <= DIM_LIMIT
        },
    }
}

/// The layout parameters the builder accepts: non-negative board
/// extents and element widths within `DIM_LIMIT`, positive counts
/// within `COUNT_LIMIT`, and bounded offsets.
pub open spec fn valid_layout(
    options: BoardOptions,
    size: BoardSize,
    covers_count: int,
    cover_width: int,
    alien_rows: int,
    aliens_per_row: int,
    alien_width: int,
) -> bool {
    &&& options_bounded(options)
    &&& 0 <= size.width <= DIM_LIMIT
    &&& 0 <= size.height <= DIM_LIMIT
    &&& 0 <= cover_width <= DIM_LIMIT
    &&& 0 <= alien_width <= DIM_LIMIT
    &&& 1 <= covers_count <= COUNT_LIMIT
    &&& 1 <= alien_rows <= COUNT_LIMIT
    &&& 1 <= aliens_per_row <= COUNT_LIMIT
}

/// Computes the board origin from the placement policy.
pub fn board_origin(options: &BoardOptions, size: &BoardSize) -> (r: Point3)
    requires
        options_bounded(*options),
        0 <= size.width <= DIM_LIMIT,
        0 <= size.height <= DIM_LIMIT,
    ensures
        r.x@ == origin_x_spec(*options, *size),
        r.y@ == origin_y_spec(*options, *size),
        r.z@ == origin_z_spec(*options),
        r.wf(),
        r.x.bounded(3 * DIM_LIMIT as int),
        r.y.bounded(3 * DIM_LIMIT as int),
{
    match options.position {
        BoardPosition::Centered { offset } => Point3 {
            x: Rat { num: (-size.width) * 1 + offset.x * 2, den: 2 * 1 },
            y: Rat { num: (-size.height) * 1 + offset.y * 2, den: 2 * 1 },
            z: Rat { num: offset.z, den: 1 },
        },
        BoardPosition::Custom(p) => Point3 {
            x: Rat { num: p.x, den: 1 },
            y: Rat { num: p.y, den: 1 },
            z: Rat { num: p.z, den: 1 },
        },
    }
}

/// Computes the tank's board-local position `(width/2, height/5)`.
pub fn tank_position(size: &BoardSize) -> (r: Point2)
    requires
        0 <= size.width <= DIM_LIMIT,
        0 <= size.height <= DIM_LIMIT,
    ensures
        r.x@ == tank_x_spec(*size),
        r.y@ == tank_y_spec(*size),
        r.wf(),
{
    Point2 {
        x: Rat { num: size.width, den: 1 * 2 },
        y: Rat { num: size.height, den: 1 * 5 },
    }
}

/// Computes cover `i`'s board-local position.
pub fn cover_position(size: &BoardSize, cover_width: i64, covers_count: i64, i: i64) -> (r: Point2)
    requires
        0 <= size.width <= DIM_LIMIT,
        0 <= size.height <= DIM_LIMIT,
        0 <= cover_width <= DIM_LIMIT,
        1 <= covers_count <= COUNT_LIMIT,
        1 <= i <= covers_count,
    ensures
        r.x@ == cover_x_spec(*size, cover_width as int, covers_count as int, i as int),
        r.y@ == cover_y_spec(*size),
        r.wf(),
{
    proof {
        assert((-cover_width) * covers_count >= -(DIM_LIMIT * COUNT_LIMIT)
            && (-cover_width) * covers_count <= 0) by (nonlinear_arith)
            requires
                0 <= cover_width <= DIM_LIMIT,
                1 <= covers_count <= COUNT_LIMIT,
        ;
        assert(((-cover_width) * covers_count + size.width as int * 2) * i
            >= -(DIM_LIMIT * COUNT_LIMIT + 2 * DIM_LIMIT) * COUNT_LIMIT
            && ((-cover_width) * covers_count + size.width as int * 2) * i
            <= (DIM_LIMIT * COUNT_LIMIT + 2 * DIM_LIMIT) * COUNT_LIMIT) by (nonlinear_arith)
            requires
                -(DIM_LIMIT * COUNT_LIMIT) <= (-cover_width) * covers_count <= 0,
                0 <= size.width <= DIM_LIMIT,
                1 <= i <= COUNT_LIMIT,
        ;
    }
    let start_num: i64 = (-cover_width) * covers_count + size.width * 2;
    Point2 {
        x: Rat { num: start_num * i, den: 2 * covers_count },
        y: Rat { num: size.height, den: 1 * 4 },
    }
}

/// Computes the board-local position of the alien in `row`, column
/// `col` (both 1-indexed).
pub fn alien_position(size: &BoardSize, alien_width: i64, aliens_per_row: i64, row: i64, col: i64) -> (r: Point2)
    requires
        0 <= size.width <= DIM_LIMIT,
        0 <= size.height <= DIM_LIMIT,
        0 <= alien_width <= DIM_LIMIT,
        1 <= aliens_per_row <= COUNT_LIMIT,
        1 <= row <= COUNT_LIMIT,
        1 <= col <= aliens_per_row,
    ensures
        r.x@ == alien_x_spec(*size, alien_width as int, aliens_per_row as int, col as int),
        r.y@ == alien_y_spec(*size, row as int),
        r.wf(),
{
    proof {
        assert(-(DIM_LIMIT * COUNT_LIMIT) <= (-alien_width) * aliens_per_row <= 0) by (nonlinear_arith)
            requires
                0 <= alien_width <= DIM_LIMIT,
                1 <= aliens_per_row <= COUNT_LIMIT,
        ;
        assert(0 <= (ALIEN_STEP_X * col) * (2 * aliens_per_row) <= 68_000_000) by (nonlinear_arith)
            requires
                ALIEN_STEP_X == 34,
                1 <= col <= 1_000,
                1 <= aliens_per_row <= 1_000,
        ;
    }
    let start_num: i64 = (-alien_width) * aliens_per_row + size.width * 2;
    Point2 {
        x: Rat {
            num: start_num * 1 + (ALIEN_STEP_X * col) * (2 * aliens_per_row),
            den: (2 * aliens_per_row) * 1,
        },
        y: Rat {
            num: size.height * 1 + (ALIEN_STEP_Y * row) * 3,
            den: 3 * 1,
        },
    }
}

/// The background element: the board's own sprite, centered on the
/// board at `(width/2, height/2)`, with the board's full extent.
pub open spec fn is_background(e: PlacedElement, size: BoardSize, assets: BoardAssets) -> bool {
    &&& e.kind == ElementKind::Background
    &&& e.position.x@ == ratio_div_int(ratio_of_int(size.width as int), 2)
    &&& e.position.y@ == ratio_div_int(ratio_of_int(size.height as int), 2)
    &&& e.width == size.width
    &&& e.height == size.height
    &&& e.material == assets.board_material
}

/// The tank element: fixed 50 by 25, at `(width/2, height/5)`.
pub open spec fn is_tank(e: PlacedElement, size: BoardSize, assets: BoardAssets) -> bool {
    &&& e.kind == ElementKind::Tank
    &&& e.position.x@ == tank_x_spec(size)
    &&& e.position.y@ == tank_y_spec(size)
    &&& e.width == TANK_WIDTH
    &&& e.height == TANK_HEIGHT
    &&& e.material == assets.tank
}

/// Cover `i` (1-indexed): at `(cover_x_spec(i), height/4)`.
pub open spec fn is_cover(
    e: PlacedElement,
    size: BoardSize,
    cover_width: int,
    covers_count: int,
    assets: BoardAssets,
    i: int,
) -> bool {
    &&& e.kind == ElementKind::Cover
    &&& e.position.x@ == cover_x_spec(size, cover_width, covers_count, i)
    &&& e.position.y@ == cover_y_spec(size)
    &&& e.width as int == cover_width
    &&& e.height == COVER_HEIGHT
    &&& e.material == assets.cover
}

/// The alien in `row`, column `col` (both 1-indexed).
pub open spec fn is_alien(
    e: PlacedElement,
    size: BoardSize,
    alien_width: int,
    aliens_per_row: int,
    assets: BoardAssets,
    row: int,
    col: int,
) -> bool {
    &&& e.kind == ElementKind::Alien
    &&& e.position.x@ == alien_x_spec(size, alien_width, aliens_per_row, col)
    &&& e.position.y@ == alien_y_spec(size, row)
    &&& e.width as int == alien_width
    &&& e.height == ALIEN_HEIGHT
    &&& e.material == assets.alien
}

/// The full building contract: `r` is exactly the board built from
/// the given layout parameters. The bounds sit at the computed origin
/// with the board's extent; the element list holds, in order, the
/// background, the tank, the covers (index `1 + i` for cover `i`) and
/// the alien grid in row-major order (row `row`, column `col` at index
/// `2 + covers_count + (row-1)*aliens_per_row + (col-1)`).
pub open spec fn built_from(
    r: BuiltBoard,
    options: BoardOptions,
    size: BoardSize,
    covers_count: int,
    cover_width: int,
    alien_rows: int,
    aliens_per_row: int,
    alien_width: int,
    assets: BoardAssets,
) -> bool {
    &&& r.bounds.position.x@ == origin_x_spec(options, size)
    &&& r.bounds.position.y@ == origin_y_spec(options, size)
    &&& r.bounds.size.x@ == ratio_of_int(size.width as int)
    &&& r.bounds.size.y@ == ratio_of_int(size.height as int)
    &&& r.elements@.len() == 2 + covers_count + alien_rows * aliens_per_row
    &&& is_background(r.elements@[0], size, assets)
    &&& is_tank(r.elements@[1], size, assets)
    &&& forall|i: int|
        1 <= i <= covers_count ==> is_cover(
            #[trigger] r.elements@[1 + i],
            size,
            cover_width,
            covers_count,
            assets,
            i,
        )
    &&& forall|row: int, col: int|
        1 <= row <= alien_rows && 1 <= col <= aliens_per_row ==> is_alien(
            #[trigger] r.elements@[2 + covers_count + (row - 1) * aliens_per_row + (col - 1)],
            size,
            alien_width,
            aliens_per_row,
            assets,
            row,
            col,
        )
}

/// An element placed in an earlier grid cell stands at a lower list
/// index than the cell currently being filled.
proof fn lemma_grid_index_lt(r2: int, c2: int, row: int, col: int, aliens_per_row: int)
    by (nonlinear_arith)
    requires
        1 <= c2 <= aliens_per_row,
        1 <= r2 < row,
        1 <= col,
    ensures
        (r2 - 1) * aliens_per_row + (c2 - 1) < (row - 1) * aliens_per_row + (col - 1),
{
}

/// Builds the board: computes its world-space bounds from the
/// placement policy and the exact board-local position of every
/// element. Pure: the result is a function of the arguments alone.
pub fn build(
    options: &BoardOptions,
    size: &BoardSize,
    covers_count: i64,
    cover_width: i64,
    alien_rows: i64,
    aliens_per_row: i64,
    alien_width: i64,
    assets: &BoardAssets,
) -> (r: BuiltBoard)
    requires
        valid_layout(
            *options,
            *size,
            covers_count as int,
            cover_width as int,
            alien_rows as int,
            aliens_per_row as int,
            alien_width as int,
        ),
    ensures
        built_from(
            r,
            *options,
            *size,
            covers_count as int,
            cover_width as int,
            alien_rows as int,
            aliens_per_row as int,
            alien_width as int,
            *assets,
        ),
        r.bounds.wf(),
        r.bounds.bounded(COORD_LIMIT as int),
{
    let origin = board_origin(options, size);
    let bounds = Bounds2 {
        position: origin.xy(),
        size: Point2 {
            x: Rat { num: size.width, den: 1 },
            y: Rat { num: size.height, den: 1 },
        },
    };

    let mut elements: Vec<PlacedElement> = Vec::new();

    elements.push(PlacedElement {
        kind: ElementKind::Background,
        position: Point2 {
            x: Rat { num: size.width, den: 1 * 2 },
            y: Rat { num: size.height, den: 1 * 2 },
        },
        width: size.width,
        height: size.height,
        material: assets.board_material,
    });

    elements.push(PlacedElement {
        kind: ElementKind::Tank,
        position: tank_position(size),
        width: TANK_WIDTH,
        height: TANK_HEIGHT,
        material: assets.tank,
    });

    let mut i: i64 = 1;
    while i <= covers_count
        invariant
            valid_layout(
                *options,
                *size,
                covers_count as int,
                cover_width as int,
                alien_rows as int,
                aliens_per_row as int,
                alien_width as int,
            ),
            1 <= i <= covers_count + 1,
            elements@.len() == 2 + (i - 1),
            is_background(elements@[0], *size, *assets),
            is_tank(elements@[1], *size, *assets),
            forall|j: int|
                1 <= j < i ==> is_cover(
                    #[trigger] elements@[1 + j],
                    *size,
                    cover_width as int,
                    covers_count as int,
                    *assets,
                    j,
                ),
        decreases covers_count + 1 - i,
    {
        elements.push(PlacedElement {
            kind: ElementKind::Cover,
            position: cover_position(size, cover_width, covers_count, i),
            width: cover_width,
            height: COVER_HEIGHT,
            material: assets.cover,
        });
        i = i + 1;
    }

    let mut row: i64 = 1;
    while row <= alien_rows
        invariant
            valid_layout(
                *options,
                *size,
                covers_count as int,
                cover_width as int,
                alien_rows as int,
                aliens_per_row as int,
                alien_width as int,
            ),
            1 <= row <= alien_rows + 1,
            elements@.len() == 2 + covers_count + (row - 1) * aliens_per_row,
            is_background(elements@[0], *size, *assets),
            is_tank(elements@[1], *size, *assets),
            forall|j: int|
                1 <= j <= covers_count ==> is_cover(
                    #[trigger] elements@[1 + j],
                    *size,
                    cover_width as int,
                    covers_count as int,
                    *assets,
                    j,
                ),
            forall|r2: int, c2: int|
                1 <= r2 < row && 1 <= c2 <= aliens_per_row ==> is_alien(
                    #[trigger] elements@[2 + covers_count + (r2 - 1) * aliens_per_row + (c2 - 1)],
                    *size,
                    alien_width as int,
                    aliens_per_row as int,
                    *assets,
                    r2,
                    c2,
                ),
        decreases alien_rows + 1 - row,
    {
        let mut col: i64 = 1;
        while col <= aliens_per_row
            invariant
                valid_layout(
                    *options,
                    *size,
                    covers_count as int,
                    cover_width as int,
                    alien_rows as int,
                    aliens_per_row as int,
                    alien_width as int,
                ),
                1 <= row <= alien_rows,
                1 <= col <= aliens_per_row + 1,
                elements@.len() == 2 + covers_count + (row - 1) * aliens_per_row + (col - 1),
                is_background(elements@[0], *size, *assets),
                is_tank(elements@[1], *size, *assets),
                forall|j: int|
                    1 <= j <= covers_count ==> is_cover(
                        #[trigger] elements@[1 + j],
                        *size,
                        cover_width as int,
                        covers_count as int,
                        *assets,
                        j,
                    ),
                forall|r2: int, c2: int|
                    1 <= r2 < row && 1 <= c2 <= aliens_per_row ==> is_alien(
                        #[trigger] elements@[2 + covers_count + (r2 - 1) * aliens_per_row + (c2 - 1)],
                        *size,
                        alien_width as int,
                        aliens_per_row as int,
                        *assets,
                        r2,
                        c2,
                    ),
                forall|c2: int|
                    1 <= c2 < col ==> is_alien(
                        #[trigger] elements@[2 + covers_count + (row - 1) * aliens_per_row + (c2 - 1)],
                        *size,
                        alien_width as int,
                        aliens_per_row as int,
                        *assets,
                        row as int,
                        c2,
                    ),
            decreases aliens_per_row + 1 - col,
        {
            proof {
                assert((row - 1) * aliens_per_row + (col - 1) < 1_000_000) by (nonlinear_arith)
                    requires
                        1 <= row <= 1_000,
                        1 <= col <= 1_000,
                        1 <= aliens_per_row <= 1_000,
                ;
            }
            elements.push(PlacedElement {
                kind: ElementKind::Alien,
                position: alien_position(size, alien_width, aliens_per_row, row, col),
                width: alien_width,
                height: ALIEN_HEIGHT,
                material: assets.alien,
            });
            proof {
                assert forall|r2: int, c2: int|
                    1 <= r2 < row && 1 <= c2 <= aliens_per_row implies is_alien(
                    #[trigger] elements@[2 + covers_count + (r2 - 1) * aliens_per_row + (c2 - 1)],
                    *size,
                    alien_width as int,
                    aliens_per_row as int,
                    *assets,
                    r2,
                    c2,
                ) by {
                    lemma_grid_index_lt(r2, c2, row as int, col as int, aliens_per_row as int);
                }
            }
            col = col + 1;
        }
        proof {
            assert((row - 1) * aliens_per_row + aliens_per_row == ((row + 1) - 1) * aliens_per_row)
                by (nonlinear_arith)
            ;
        }
        row = row + 1;
    }

    BuiltBoard { bounds, elements }
}

/// Every list index in the alien range belongs to exactly the grid
/// cell that row-major order assigns it.
proof fn lemma_grid_cell_of_index(k: int, alien_rows: int, aliens_per_row: int)
    requires
        1 <= alien_rows,
        1 <= aliens_per_row,
        0 <= k < alien_rows * aliens_per_row,
    ensures
        1 <= k / aliens_per_row + 1 <= alien_rows,
        1 <= k % aliens_per_row + 1 <= aliens_per_row,
        (k / aliens_per_row + 1 - 1) * aliens_per_row + (k % aliens_per_row + 1 - 1) == k,
{
    lemma_fundamental_div_mod(k, aliens_per_row);
    lemma_div_pos_is_pos(k, aliens_per_row);
    lemma_mod_pos_bound(k, aliens_per_row);
    let q = k / aliens_per_row;
    let rm = k % aliens_per_row;
    assert(q < alien_rows && q * aliens_per_row + rm == k) by (nonlinear_arith)
        requires
            1 <= aliens_per_row,
            0 <= rm < aliens_per_row,
            0 <= q,
            k == aliens_per_row * q + rm,
            k < alien_rows * aliens_per_row,
    ;
}

/// Building is a pure function of its inputs: two results built from
/// identical layout parameters and assets have identical bounds and
/// identical placed-element lists.
pub proof fn lemma_build_deterministic(
    r1: BuiltBoard,
    r2: BuiltBoard,
    options: BoardOptions,
    size: BoardSize,
    covers_count: int,
    cover_width: int,
    alien_rows: int,
    aliens_per_row: int,
    alien_width: int,
    assets: BoardAssets,
)
    requires
        1 <= covers_count,
        1 <= alien_rows,
        1 <= aliens_per_row,
        built_from(r1, options, size, covers_count, cover_width, alien_rows, aliens_per_row, alien_width, assets),
        built_from(r2, options, size, covers_count, cover_width, alien_rows, aliens_per_row, alien_width, assets),
    ensures
        r1.bounds == r2.bounds,
        r1.elements@ == r2.elements@,
{
    assert(r1.bounds == r2.bounds);
    assert forall|ix: int| 0 <= ix < r1.elements@.len() implies r1.elements@[ix] == r2.elements@[ix] by {
        if ix == 0 {
            assert(is_background(r1.elements@[0], size, assets));
            assert(is_background(r2.elements@[0], size, assets));
        } else if ix == 1 {
            assert(is_tank(r1.elements@[1], size, assets));
            assert(is_tank(r2.elements@[1], size, assets));
        } else if ix < 2 + covers_count {
            let i = ix - 1;
            assert(is_cover(r1.elements@[1 + i], size, cover_width, covers_count, assets, i));
            assert(is_cover(r2.elements@[1 + i], size, cover_width, covers_count, assets, i));
        } else {
            let k = ix - 2 - covers_count;
            lemma_grid_cell_of_index(k, alien_rows, aliens_per_row);
            let row = k / aliens_per_row + 1;
            let col = k % aliens_per_row + 1;
            assert(is_alien(
                r1.elements@[2 + covers_count + (row - 1) * aliens_per_row + (col - 1)],
                size,
                alien_width,
                aliens_per_row,
                assets,
                row,
                col,
            ));
            assert(is_alien(
                r2.elements@[2 + covers_count + (row - 1) * aliens_per_row + (col - 1)],
                size,
                alien_width,
                aliens_per_row,
                assets,
                row,
                col,
            ));
        }
    }
    assert(r1.elements@ =~= r2.elements@);
}

/// Builds the board with the default layout: a 500 by 800
/// board, 4 covers of width 50, and a 5 by 12 alien grid of width 25.
pub fn create_board(options: &BoardOptions, assets: &BoardAssets) -> (r: BuiltBoard)
    requires
        options_bounded(*options),
    ensures
        built_from(
            r,
            *options,
            BoardSize { width: BOARD_WIDTH, height: BOARD_HEIGHT },
            COVERS_COUNT as int,
            COVER_WIDTH as int,
            ALIEN_ROWS as int,
            ALIENS_PER_ROW as int,
            ALIEN_WIDTH as int,
            *assets,
        ),
        r.bounds.wf(),
        r.bounds.bounded(COORD_LIMIT as int),
{
    let size = BoardSize { width: BOARD_WIDTH, height: BOARD_HEIGHT };
    build(options, &size, COVERS_COUNT, COVER_WIDTH, ALIEN_ROWS, ALIENS_PER_ROW, ALIEN_WIDTH, assets)
}

} // verus!
