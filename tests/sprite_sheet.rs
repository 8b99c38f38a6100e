use break_the_blocks::sprite_sheet::{sprite_rects, AssetLoadError, SpriteRect, SpriteSheetSpecs, SpriteSpecs};

#[test]
fn sprite_rects_cover_each_sprite() {
    let specs = SpriteSheetSpecs {
        texture_width: 200,
        texture_height: 100,
        sprites: vec![
            SpriteSpecs { x: 0, y: 0, width: 30, height: 30 },
            SpriteSpecs { x: 30, y: 10, width: 170, height: 90 },
        ],
    };
    let rects = sprite_rects(&specs).unwrap();
    assert_eq!(rects, vec![
        SpriteRect { min_x: 0, min_y: 0, max_x: 30, max_y: 30 },
        SpriteRect { min_x: 30, min_y: 10, max_x: 200, max_y: 100 },
    ]);
}

#[test]
fn sprite_past_texture_is_still_cut() {
    let specs = SpriteSheetSpecs {
        texture_width: 200,
        texture_height: 100,
        sprites: vec![
            SpriteSpecs { x: 0, y: 0, width: 30, height: 30 },
            SpriteSpecs { x: 180, y: 90, width: 30, height: 30 },
        ],
    };
    assert_eq!(sprite_rects(&specs), Ok(vec![
        SpriteRect { min_x: 0, min_y: 0, max_x: 30, max_y: 30 },
        SpriteRect { min_x: 180, min_y: 90, max_x: 210, max_y: 120 },
    ]));
}

#[test]
fn sprite_with_overflowing_extent_is_refused() {
    let specs = SpriteSheetSpecs {
        texture_width: 200,
        texture_height: 100,
        sprites: vec![
            SpriteSpecs { x: 0, y: 0, width: 30, height: 30 },
            SpriteSpecs { x: 10, y: 0, width: usize::MAX, height: 30 },
        ],
    };
    assert_eq!(sprite_rects(&specs), Err(AssetLoadError::ExtentOverflow(1)));
}

#[test]
fn sprite_with_overflowing_height_is_refused() {
    let specs = SpriteSheetSpecs {
        texture_width: 200,
        texture_height: 100,
        sprites: vec![SpriteSpecs { x: 0, y: 1, width: 3, height: usize::MAX }],
    };
    assert_eq!(sprite_rects(&specs), Err(AssetLoadError::ExtentOverflow(0)));
}
