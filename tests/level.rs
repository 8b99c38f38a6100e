use break_the_blocks::gameplay::Collider;
use break_the_blocks::geometry::Vec2;
use break_the_blocks::level::{add_bricks, check_catalog, check_level, glyph_sprites, sprite_for, Block, Level, LoadError};

fn level(rows: &[&str]) -> Level {
    Level {
        level_width: 1000,
        level_height: 600,
        ball_velocity: 400,
        block_margin: 10,
        block_width: 100,
        block_height: 40,
        blocks: vec![Block { name: '#', sprite_number: 2 }, Block { name: '@', sprite_number: 3 }],
        rows: rows.iter().map(|r| r.to_string()).collect(),
    }
}

#[test]
fn sprite_for_finds_glyph() {
    let blocks = vec![Block { name: '#', sprite_number: 2 }, Block { name: '@', sprite_number: 3 }];
    let glyphs = glyph_sprites(&blocks);
    assert_eq!(sprite_for(&glyphs, '@'), Some(3));
    assert_eq!(sprite_for(&glyphs, 'x'), None);
}

#[test]
fn sprite_for_last_block_wins() {
    let blocks = vec![Block { name: '#', sprite_number: 2 }, Block { name: '#', sprite_number: 5 }];
    assert_eq!(sprite_for(&glyph_sprites(&blocks), '#'), Some(5));
}

#[test]
fn bricks_laid_out_on_grid() {
    let lv = level(&["# @", " #"]);
    let bricks = add_bricks(&lv);
    // left edge: -(1000 - 100) / 2 px; top: (720 - 40) / 2 px; steps 110 px and 50 px
    let expect = [
        (0, -450_000, 340_000, 2),
        (1, -450_000 + 220_000, 340_000, 3),
        (2, -450_000 + 110_000, 290_000, 2),
    ];
    assert_eq!(bricks.len(), 3);
    for (b, (id, x, y, sprite)) in bricks.iter().zip(expect.iter()) {
        assert_eq!(b.id, *id);
        assert_eq!(b.position, Vec2::new(*x, *y));
        assert_eq!(b.sprite, *sprite);
        assert_eq!(b.collider, Collider::Scorable { size: Vec2::new(100_000, 40_000) });
    }
}

#[test]
fn blank_cells_hold_no_brick() {
    let lv = level(&["   ", "  #"]);
    let bricks = add_bricks(&lv);
    assert_eq!(bricks.len(), 1);
    assert_eq!(bricks[0].position, Vec2::new(-450_000 + 220_000, 290_000));
}

#[test]
fn odd_width_difference_rounds_toward_zero() {
    let mut lv = level(&["#"]);
    lv.level_width = 1001;
    assert_eq!(add_bricks(&lv)[0].position.x, -450_000);
    lv.level_width = 25;
    lv.block_width = 20;
    assert_eq!(add_bricks(&lv)[0].position.x, -2_000);
    lv.level_width = 20;
    lv.block_width = 25;
    assert_eq!(add_bricks(&lv)[0].position.x, 2_000);
}

#[test]
fn odd_block_height_rounds_toward_zero() {
    let mut lv = level(&["#", "#"]);
    lv.block_height = 41;
    let bricks = add_bricks(&lv);
    assert_eq!(bricks[0].position.y, 339_000);
    assert_eq!(bricks[1].position.y, 339_000 - 51_000);
}

#[test]
fn valid_level_is_accepted() {
    assert_eq!(check_level(&level(&["#@#", " # "])), Ok(()));
}

#[test]
fn level_brick_count_matches_scorable_colliders() {
    let lv = level(&["#@#", " # ", "@ @"]);
    assert_eq!(check_level(&lv), Ok(()));
    let bricks = add_bricks(&lv);
    let scorable = bricks.iter().filter(|b| matches!(b.collider, Collider::Scorable { .. })).count();
    assert_eq!(scorable, 6);
    assert_eq!(bricks.len(), 6);
}

#[test]
fn unknown_glyph_is_refused() {
    assert_eq!(check_level(&level(&["#x#"])), Err(LoadError::MissingGlyph));
}

#[test]
fn level_without_rows_is_refused() {
    assert_eq!(check_level(&level(&[])), Err(LoadError::MissingRows));
}

#[test]
fn level_of_blanks_is_refused() {
    assert_eq!(check_level(&level(&["   ", ""])), Err(LoadError::MissingRows));
}

#[test]
fn oversized_level_is_refused() {
    let mut lv = level(&["#"]);
    lv.block_width = 70_000;
    assert_eq!(check_level(&lv), Err(LoadError::OutOfRange));
}

#[test]
fn overlong_row_is_refused() {
    let long = "#".repeat(65_537);
    assert_eq!(check_level(&level(&[&long])), Err(LoadError::OutOfRange));
}

#[test]
fn catalog_reports_first_bad_level() {
    let levels = vec![level(&["#"]), level(&["#"]), level(&["?"]), level(&[])];
    assert_eq!(check_catalog(&levels), Err((2, LoadError::MissingGlyph)));
    assert_eq!(check_catalog(&levels[..2].to_vec()), Ok(()));
}
