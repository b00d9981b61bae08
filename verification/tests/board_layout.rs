use invaders_board::board_assets::{BoardAssets, Color, SpriteMaterial, DEFAULT_TEXTURE};
use invaders_board::board_options::{BoardOptions, BoardPosition, IVec3};
use invaders_board::builder::{
    alien_position, board_origin, build, cover_position, create_board, BoardSize, ElementKind,
};
use invaders_board::rat::Rat;

fn test_assets() -> BoardAssets {
    BoardAssets {
        label: "Test".to_string(),
        board_material: SpriteMaterial { color: Color::rgb(1, 2, 3), texture: 10 },
        tank: SpriteMaterial { color: Color::rgb(4, 5, 6), texture: 11 },
        cover: SpriteMaterial { color: Color::rgb(7, 8, 9), texture: 12 },
        alien: SpriteMaterial { color: Color::rgb(10, 11, 12), texture: 13 },
    }
}

#[test]
fn origin_centered_is_negative_half_extent_plus_offset() {
    let options = BoardOptions {
        position: BoardPosition::Centered { offset: IVec3 { x: 10, y: -20, z: 7 } },
    };
    let size = BoardSize { width: 500, height: 800 };
    let origin = board_origin(&options, &size);
    assert!(origin.x.eqv(&Rat::from_int(-240)));
    assert!(origin.y.eqv(&Rat::from_int(-420)));
    assert!(origin.z.eqv(&Rat::from_int(7)));
}

#[test]
fn origin_centered_halves_odd_extents_exactly() {
    let options = BoardOptions {
        position: BoardPosition::Centered { offset: IVec3 { x: 0, y: 0, z: 0 } },
    };
    let size = BoardSize { width: 501, height: 799 };
    let origin = board_origin(&options, &size);
    assert!(origin.x.eqv(&Rat::new(-501, 2)));
    assert!(origin.y.eqv(&Rat::new(-799, 2)));
    assert!(origin.z.eqv(&Rat::from_int(0)));
}

#[test]
fn origin_custom_is_exact() {
    let options = BoardOptions { position: BoardPosition::Custom(IVec3 { x: 3, y: 4, z: 5 }) };
    let size = BoardSize { width: 500, height: 800 };
    let origin = board_origin(&options, &size);
    assert_eq!(origin.x, Rat { num: 3, den: 1 });
    assert_eq!(origin.y, Rat { num: 4, den: 1 });
    assert_eq!(origin.z, Rat { num: 5, den: 1 });
}

#[test]
fn cover_positions_match_spacing_formula() {
    let size = BoardSize { width: 500, height: 800 };
    // start_x = 50/-2 + 500/4 = -25 + 125 = 100; covers at 100, 200, 300, 400.
    for i in 1..=4 {
        let p = cover_position(&size, 50, 4, i);
        assert!(p.x.eqv(&Rat::from_int(100 * i)));
        assert!(p.y.eqv(&Rat::from_int(200)));
    }
}

#[test]
fn alien_first_cell_position() {
    let size = BoardSize { width: 500, height: 800 };
    // start_x = 25/-2 + 500/12 = 175/6; cell (1,1) at (175/6 + 34, 800/3 + 30).
    let p = alien_position(&size, 25, 12, 1, 1);
    assert!(p.x.eqv(&Rat::new(379, 6)));
    assert!(p.y.eqv(&Rat::new(890, 3)));
}

#[test]
fn alien_arbitrary_cell_position() {
    let size = BoardSize { width: 500, height: 800 };
    // Cell (row 3, col 7): x = 175/6 + 34*7 = 1603/6, y = 800/3 + 30*3 = 1070/3.
    let p = alien_position(&size, 25, 12, 3, 7);
    assert!(p.x.eqv(&Rat::new(1603, 6)));
    assert!(p.y.eqv(&Rat::new(1070, 3)));
}

#[test]
fn built_board_layout_is_complete_and_ordered() {
    let assets = test_assets();
    let options = BoardOptions {
        position: BoardPosition::Centered { offset: IVec3 { x: 0, y: 0, z: 0 } },
    };
    let board = create_board(&options, &assets);

    assert!(board.bounds.position.x.eqv(&Rat::from_int(-250)));
    assert!(board.bounds.position.y.eqv(&Rat::from_int(-400)));
    assert!(board.bounds.size.x.eqv(&Rat::from_int(500)));
    assert!(board.bounds.size.y.eqv(&Rat::from_int(800)));

    assert_eq!(board.elements.len(), 2 + 4 + 5 * 12);

    let background = &board.elements[0];
    assert_eq!(background.kind, ElementKind::Background);
    assert!(background.position.x.eqv(&Rat::from_int(250)));
    assert!(background.position.y.eqv(&Rat::from_int(400)));
    assert_eq!(background.width, 500);
    assert_eq!(background.height, 800);
    assert_eq!(background.material, assets.board_material);

    let tank = &board.elements[1];
    assert_eq!(tank.kind, ElementKind::Tank);
    assert!(tank.position.x.eqv(&Rat::from_int(250)));
    assert!(tank.position.y.eqv(&Rat::from_int(160)));
    assert_eq!(tank.width, 50);
    assert_eq!(tank.height, 25);
    assert_eq!(tank.material, assets.tank);

    for i in 1..=4i64 {
        let cover = &board.elements[1 + i as usize];
        assert_eq!(cover.kind, ElementKind::Cover);
        assert!(cover.position.x.eqv(&Rat::from_int(100 * i)));
        assert!(cover.position.y.eqv(&Rat::from_int(200)));
        assert_eq!(cover.width, 50);
        assert_eq!(cover.height, 25);
        assert_eq!(cover.material, assets.cover);
    }

    for row in 1..=5i64 {
        for col in 1..=12i64 {
            let ix = 2 + 4 + (row - 1) * 12 + (col - 1);
            let alien = &board.elements[ix as usize];
            assert_eq!(alien.kind, ElementKind::Alien);
            let expected = alien_position(&BoardSize { width: 500, height: 800 }, 25, 12, row, col);
            assert!(alien.position.x.eqv(&expected.x));
            assert!(alien.position.y.eqv(&expected.y));
            assert_eq!(alien.width, 25);
            assert_eq!(alien.height, 25);
            assert_eq!(alien.material, assets.alien);
        }
    }
}

#[test]
fn build_is_idempotent_on_identical_inputs() {
    let assets = test_assets();
    let options = BoardOptions {
        position: BoardPosition::Centered { offset: IVec3 { x: 5, y: 6, z: 7 } },
    };
    let size = BoardSize { width: 500, height: 800 };
    let first = build(&options, &size, 4, 50, 5, 12, 25, &assets);
    let second = build(&options, &size, 4, 50, 5, 12, 25, &assets);
    assert_eq!(first.bounds, second.bounds);
    assert_eq!(first.elements, second.elements);
}

#[test]
fn build_with_custom_counts() {
    let assets = test_assets();
    let options = BoardOptions { position: BoardPosition::Custom(IVec3 { x: 0, y: 0, z: 0 }) };
    let size = BoardSize { width: 300, height: 400 };
    let board = build(&options, &size, 3, 20, 2, 5, 10, &assets);
    assert_eq!(board.elements.len(), 2 + 3 + 2 * 5);
    // start_x = 20/-2 + 300/3 = 90; covers at 90, 180, 270.
    for i in 1..=3i64 {
        let cover = &board.elements[1 + i as usize];
        assert!(cover.position.x.eqv(&Rat::from_int(90 * i)));
        assert!(cover.position.y.eqv(&Rat::from_int(100)));
    }
    // start_x = 10/-2 + 300/5 = 55; cell (2,3) at (55 + 102, 400/3 + 60).
    let alien = &board.elements[2 + 3 + (2 - 1) * 5 + (3 - 1)];
    assert!(alien.position.x.eqv(&Rat::from_int(157)));
    assert!(alien.position.y.eqv(&Rat::new(580, 3)));
}

#[test]
fn default_material_is_white_with_default_texture() {
    let material = SpriteMaterial::default();
    assert_eq!(material.color, Color { r: 255, g: 255, b: 255, a: 255 });
    assert_eq!(material.texture, DEFAULT_TEXTURE);
}

#[test]
fn default_colors_are_the_standard_palette() {
    let colors = BoardAssets::default_colors();
    assert_eq!(colors.len(), 5);
    assert_eq!(colors[0], Color { r: 255, g: 255, b: 255, a: 255 });
    assert_eq!(colors[1], Color { r: 0, g: 255, b: 0, a: 255 });
    assert_eq!(colors[2], Color { r: 255, g: 255, b: 0, a: 255 });
    assert_eq!(colors[3], Color { r: 255, g: 165, b: 0, a: 255 });
    assert_eq!(colors[4], Color { r: 128, g: 0, b: 128, a: 255 });
}

#[test]
fn default_position_is_centered_with_zero_offset() {
    let position = BoardPosition::default();
    assert_eq!(position, BoardPosition::Centered { offset: IVec3 { x: 0, y: 0, z: 0 } });
    let options = BoardOptions::default();
    assert_eq!(
        options.position,
        BoardPosition::Centered { offset: IVec3 { x: 0, y: 0, z: 0 } }
    );
}
