use std::collections::HashMap;
use vstd::prelude::*;
use crate::geometry::{within, Vec2, ARENA_COORD};
use crate::gameplay::{body_ok, Body, Collider};

verus! {

broadcast use vstd::std_specs::hash::group_hash_axioms;

/// Largest level or block dimension accepted, in pixels.
pub const MAX_LEVEL_DIMENSION: usize = 65_536;

/// Most rows in a level, and most cells in a row.
pub const MAX_GRID: usize = 65_536;

/// Height of the field, in pixels.
pub const FIELD_HEIGHT_PX: i64 = 720;

/// A glyph of a level's rows and the sprite that draws its bricks.
#[derive(Clone, Copy, Debug, PartialEq, Eq, Structural)]
pub struct Block {
    pub name: char,
    pub sprite_number: usize,
}

/// A level as it is stored: its dimensions in pixels, the speed of its ball,
/// the glyphs of its bricks, and its rows of glyphs from top to bottom.
#[derive(Clone, Debug)]
pub struct Level {
    pub level_width: usize,
    pub level_height: usize,
    pub ball_velocity: u64,
    pub block_margin: usize,
    pub block_width: usize,
    pub block_height: usize,
    pub blocks: Vec<Block>,
    pub rows: Vec<String>,
}

/// Why a level cannot be played.
#[derive(Clone, Copy, Debug, PartialEq, Eq, Structural)]
pub enum LoadError {
    /// A dimension exceeds `MAX_LEVEL_DIMENSION`, or the grid exceeds `MAX_GRID`.
    OutOfRange,
    /// A row holds a glyph, other than a blank, that no block names.
    MissingGlyph,
    /// No row holds a brick.
    MissingRows,
}

/// The sprite of glyph `c`; where several blocks name it, the last one counts.
pub open spec fn sprite_of(blocks: Seq<Block>, c: char) -> Option<usize>
    decreases blocks.len(),
{
    if blocks.len() == 0 {
        None
    } else if blocks.last().name == c {
        Some(blocks.last().sprite_number)
    } else {
        sprite_of(blocks.drop_last(), c)
    }
}

/// The glyphs of row `r`.
pub open spec fn row_of(level: Level, r: int) -> Seq<char> {
    level.rows@[r]@
}

/// Whether cell `k` of row `r` holds a brick: a glyph other than a blank
/// that a block names.
pub open spec fn is_brick_cell(level: Level, r: int, k: int) -> bool {
    let c = row_of(level, r)[k];
    c != ' ' && sprite_of(level.blocks@, c) is Some
}

/// Half of `v`, rounded toward zero.
pub open spec fn half_toward_zero(v: int) -> int {
    if v >= 0 { v / 2 } else { -((-v) / 2) }
}

/// Half of `v`, rounded toward zero.
pub fn half_toward_zero_exec(v: i64) -> (r: i64)
    requires
        -1_000_000 <= v <= 1_000_000,
    ensures
        r == half_toward_zero(v as int),
        -500_000 <= r <= 500_000,
{
    if v >= 0 {
        ((v as u64) / 2) as i64
    } else {
        -((((-v) as u64) / 2) as i64)
    }
}

/// The centre of the brick in cell `k` of row `r`: the grid starts
/// `(level_width - block_width) / 2` whole pixels left of the middle and
/// `(720 - block_height) / 2` whole pixels above it, both halves rounded
/// toward zero, and steps by
/// `block_margin + block_width` pixels to the right and
/// `block_margin + block_height` pixels down.
pub open spec fn cell_position(level: Level, r: int, k: int) -> Vec2 {
    Vec2 {
        x: (half_toward_zero(level.block_width - level.level_width) * 1000
            + k * (level.block_margin + level.block_width) * 1000) as i64,
        y: (half_toward_zero(FIELD_HEIGHT_PX - level.block_height) * 1000
            - r * (level.block_margin + level.block_height) * 1000) as i64,
    }
}

/// The brick of cell `k` of row `r`, with id `id`.
pub open spec fn brick_at(level: Level, r: int, k: int, id: int) -> Body {
    Body {
        id: id as u64,
        position: cell_position(level, r, k),
        collider: Collider::Scorable {
            size: Vec2 { x: (level.block_width * 1000) as i64, y: (level.block_height * 1000) as i64 },
        },
        sprite: sprite_of(level.blocks@, row_of(level, r)[k])->0,
    }
}

/// The bricks of the rows before `r` and of the cells before `k` in row `r`,
/// in reading order, each with its place in that order as id.
pub open spec fn bricks_upto(level: Level, r: int, k: int) -> Seq<Body>
    decreases r, k,
{
    if k <= 0 {
        if r <= 0 {
            seq![]
        } else {
            bricks_upto(level, r - 1, row_of(level, r - 1).len() as int)
        }
    } else {
        let acc = bricks_upto(level, r, k - 1);
        if is_brick_cell(level, r, k - 1) {
            acc.push(brick_at(level, r, k - 1, acc.len() as int))
        } else {
            acc
        }
    }
}

/// The bricks of a level, row by row.
pub open spec fn bricks_of(level: Level) -> Seq<Body> {
    bricks_upto(level, level.rows@.len() as int, 0)
}

/// The dimensions and the grid are within their bounds.
pub open spec fn dims_ok(level: Level) -> bool {
    &&& level.level_width <= MAX_LEVEL_DIMENSION
    &&& level.level_height <= MAX_LEVEL_DIMENSION
    &&& level.block_margin <= MAX_LEVEL_DIMENSION
    &&& level.block_width <= MAX_LEVEL_DIMENSION
    &&& level.block_height <= MAX_LEVEL_DIMENSION
    &&& level.rows@.len() <= MAX_GRID
    &&& forall|r: int| 0 <= r < level.rows@.len() ==> #[trigger] row_of(level, r).len() <= MAX_GRID
}

/// Every glyph of the rows is a blank or is named by a block.
pub open spec fn glyphs_ok(level: Level) -> bool {
    forall|r: int, k: int|
        0 <= r < level.rows@.len() && 0 <= k < row_of(level, r).len() ==> {
            let c = #[trigger] row_of(level, r)[k];
            c == ' ' || sprite_of(level.blocks@, c) is Some
        }
}

/// A level that can be played.
pub open spec fn level_ok(level: Level) -> bool {
    dims_ok(level) && glyphs_ok(level) && bricks_of(level).len() > 0
}

/// Number of bricks in `s`.
pub open spec fn scorable_count(s: Seq<Body>) -> nat
    decreases s.len(),
{
    if s.len() == 0 {
        0
    } else {
        scorable_count(s.drop_last()) + if s.last().collider is Scorable { 1nat } else { 0nat }
    }
}

/// The sprites of the glyphs, keyed by code point; where several blocks name
/// a glyph, the last one counts.
pub open spec fn glyph_map(blocks: Seq<Block>) -> Map<u32, usize>
    decreases blocks.len(),
{
    if blocks.len() == 0 {
        Map::empty()
    } else {
        glyph_map(blocks.drop_last()).insert(blocks.last().name as u32, blocks.last().sprite_number)
    }
}

/// Looking a glyph up in the map gives the sprite that the blocks give it.
pub proof fn lemma_glyph_map(blocks: Seq<Block>, c: char)
    ensures
        glyph_map(blocks).contains_key(c as u32) == sprite_of(blocks, c) is Some,
        sprite_of(blocks, c) is Some ==> glyph_map(blocks)[c as u32] == sprite_of(blocks, c)->0,
    decreases blocks.len(),
{
    if blocks.len() > 0 {
        lemma_glyph_map(blocks.drop_last(), c);
    }
}

/// The map from each glyph's code point to its sprite.
pub fn glyph_sprites(blocks: &Vec<Block>) -> (m: HashMap<u32, usize>)
    ensures
        m@ == glyph_map(blocks@),
{
    let mut m: HashMap<u32, usize> = HashMap::new();
    let mut i: usize = 0;
    while i < blocks.len()
        invariant
            i <= blocks@.len(),
            m@ == glyph_map(blocks@.take(i as int)),
        decreases blocks@.len() - i,
    {
        proof {
            assert(blocks@.take(i as int + 1).drop_last() =~= blocks@.take(i as int));
        }
        m.insert(blocks[i].name as u32, blocks[i].sprite_number);
        i = i + 1;
    }
    proof {
        assert(blocks@.take(blocks@.len() as int) =~= blocks@);
    }
    m
}

/// The sprite of glyph `c` in a map made by `glyph_sprites`.
pub fn sprite_for(glyphs: &HashMap<u32, usize>, c: char) -> (r: Option<usize>)
    ensures
        r == (if glyphs@.contains_key(c as u32) { Some(glyphs@[c as u32]) } else { None::<usize> }),
{
    match glyphs.get(&(c as u32)) {
        Some(n) => Some(*n),
        None => None,
    }
}

proof fn lemma_cell_bounds(level: Level, r: int, k: int)
    requires
        dims_ok(level),
        0 <= r < level.rows@.len(),
        0 <= k < row_of(level, r).len(),
    ensures
        within(cell_position(level, r, k), ARENA_COORD as int),
        ({
            let x = half_toward_zero(level.block_width - level.level_width) * 1000
                + k * (level.block_margin + level.block_width) * 1000;
            let y = half_toward_zero(FIELD_HEIGHT_PX - level.block_height) * 1000
                - r * (level.block_margin + level.block_height) * 1000;
            -ARENA_COORD <= x <= ARENA_COORD && -ARENA_COORD <= y <= ARENA_COORD
        }),
{
    let sx = level.block_margin + level.block_width;
    let sy = level.block_margin + level.block_height;
    assert(0 <= k * sx * 1000 <= 65_536 * 131_072 * 1000) by (nonlinear_arith)
        requires 0 <= k <= 65_536, 0 <= sx <= 131_072;
    assert(0 <= r * sy * 1000 <= 65_536 * 131_072 * 1000) by (nonlinear_arith)
        requires 0 <= r <= 65_536, 0 <= sy <= 131_072;
}

/// The bricks laid out so far are well placed bricks, each with its index
/// as id.
proof fn lemma_bricks_upto(level: Level, r: int, k: int)
    requires
        dims_ok(level),
        0 <= r <= level.rows@.len(),
        0 <= k,
        r < level.rows@.len() ==> k <= row_of(level, r).len(),
        r == level.rows@.len() ==> k == 0,
    ensures
        ({
            let s = bricks_upto(level, r, k);
            &&& forall|i: int| 0 <= i < s.len() ==> body_ok(#[trigger] s[i]) && s[i].collider is Scorable && s[i].id == i
            &&& scorable_count(s) == s.len()
            &&& s.len() <= r * MAX_GRID + k
        }),
    decreases r, k,
{
    if k <= 0 {
        if r > 0 {
            lemma_bricks_upto(level, r - 1, row_of(level, r - 1).len() as int);
            assert(row_of(level, r - 1).len() <= MAX_GRID);
        }
    } else {
        lemma_bricks_upto(level, r, k - 1);
        let acc = bricks_upto(level, r, k - 1);
        if is_brick_cell(level, r, k - 1) {
            lemma_cell_bounds(level, r, k - 1);
            let s = bricks_upto(level, r, k);
            assert(s.drop_last() =~= acc);
        }
    }
}

/// Every brick of a level has its index as id, lies where collision tests
/// accept it, and is a brick; so the bricks counted among them are all of
/// them.
pub proof fn lemma_bricks_of(level: Level)
    requires
        dims_ok(level),
    ensures
        forall|i: int| 0 <= i < bricks_of(level).len() ==>
            body_ok(#[trigger] bricks_of(level)[i]) && bricks_of(level)[i].collider is Scorable && bricks_of(level)[i].id == i,
        scorable_count(bricks_of(level)) == bricks_of(level).len(),
        bricks_of(level).len() <= MAX_GRID * MAX_GRID,
{
    lemma_bricks_upto(level, level.rows@.len() as int, 0);
    assert(level.rows@.len() * MAX_GRID <= MAX_GRID * MAX_GRID) by (nonlinear_arith)
        requires 0 <= level.rows@.len() <= MAX_GRID;
}

/// The bricks of a level, each with its place in reading order as id.
pub fn add_bricks(level: &Level) -> (r: Vec<Body>)
    requires
        dims_ok(*level),
    ensures
        r@ == bricks_of(*level),
{
    let mut out: Vec<Body> = Vec::new();
    let nrows = level.rows.len();
    let left = half_toward_zero_exec(level.block_width as i64 - level.level_width as i64) * 1000;
    let top = half_toward_zero_exec(FIELD_HEIGHT_PX - level.block_height as i64) * 1000;
    let step_x = (level.block_margin + level.block_width) as i64 * 1000;
    let step_y = (level.block_margin + level.block_height) as i64 * 1000;
    let size = Vec2 { x: level.block_width as i64 * 1000, y: level.block_height as i64 * 1000 };
    let glyphs = glyph_sprites(&level.blocks);
    let mut r: usize = 0;
    while r < nrows
        invariant
            dims_ok(*level),
            glyphs@ == glyph_map(level.blocks@),
            nrows == level.rows@.len(),
            r <= nrows,
            out@ == bricks_upto(*level, r as int, 0),
            left == half_toward_zero(level.block_width - level.level_width) * 1000,
            top == half_toward_zero(FIELD_HEIGHT_PX - level.block_height) * 1000,
            step_x == (level.block_margin + level.block_width) * 1000,
            step_y == (level.block_margin + level.block_height) * 1000,
            size == (Vec2 { x: (level.block_width * 1000) as i64, y: (level.block_height * 1000) as i64 }),
        decreases nrows - r,
    {
        let row = level.rows[r].as_str();
        let len = row.unicode_len();
        assert(row@ == row_of(*level, r as int));
        assert(len <= MAX_GRID);
        let mut k: usize = 0;
        while k < len
            invariant
                dims_ok(*level),
                glyphs@ == glyph_map(level.blocks@),
                nrows == level.rows@.len(),
                r < nrows,
                row@ == row_of(*level, r as int),
                len == row@.len(),
                k <= len,
                out@ == bricks_upto(*level, r as int, k as int),
                left == half_toward_zero(level.block_width - level.level_width) * 1000,
                top == half_toward_zero(FIELD_HEIGHT_PX - level.block_height) * 1000,
                step_x == (level.block_margin + level.block_width) * 1000,
                step_y == (level.block_margin + level.block_height) * 1000,
                size == (Vec2 { x: (level.block_width * 1000) as i64, y: (level.block_height * 1000) as i64 }),
            decreases len - k,
        {
            let c = row.get_char(k);
            let sprite = sprite_for(&glyphs, c);
            proof {
                lemma_glyph_map(level.blocks@, c);
                lemma_bricks_upto(*level, r as int, k as int);
            }
            if c != ' ' {
                if let Some(num) = sprite {
                    proof {
                        lemma_cell_bounds(*level, r as int, k as int);
                        assert(k as int * step_x == k * (level.block_margin + level.block_width) * 1000) by (nonlinear_arith)
                            requires step_x == (level.block_margin + level.block_width) * 1000;
                        assert(r as int * step_y == r * (level.block_margin + level.block_height) * 1000) by (nonlinear_arith)
                            requires step_y == (level.block_margin + level.block_height) * 1000;
                    }
                    let x = left + k as i64 * step_x;
                    let y = top - r as i64 * step_y;
                    let id = out.len() as u64;
                    out.push(Body { id, position: Vec2 { x, y }, collider: Collider::Scorable { size }, sprite: num });
                }
            }
            k = k + 1;
        }
        r = r + 1;
    }
    out
}

/// Decides whether a level can be played, and if not, why: bounds first,
/// then glyphs, then whether any brick is left to play.
pub fn check_level(level: &Level) -> (r: Result<(), LoadError>)
    ensures
        (r == Err::<(), LoadError>(LoadError::OutOfRange)) == !dims_ok(*level),
        (r == Err::<(), LoadError>(LoadError::MissingGlyph)) == (dims_ok(*level) && !glyphs_ok(*level)),
        (r == Err::<(), LoadError>(LoadError::MissingRows)) == (dims_ok(*level) && glyphs_ok(*level)
            && bricks_of(*level).len() == 0),
        r is Ok == level_ok(*level),
{
    if level.level_width > MAX_LEVEL_DIMENSION || level.level_height > MAX_LEVEL_DIMENSION
        || level.block_margin > MAX_LEVEL_DIMENSION || level.block_width > MAX_LEVEL_DIMENSION
        || level.block_height > MAX_LEVEL_DIMENSION || level.rows.len() > MAX_GRID
    {
        return Err(LoadError::OutOfRange);
    }
    let nrows = level.rows.len();
    let mut r: usize = 0;
    while r < nrows
        invariant
            nrows == level.rows@.len(),
            r <= nrows,
            forall|j: int| 0 <= j < r ==> #[trigger] row_of(*level, j).len() <= MAX_GRID,
        decreases nrows - r,
    {
        let row = level.rows[r].as_str();
        if row.unicode_len() > MAX_GRID {
            assert(row_of(*level, r as int).len() > MAX_GRID);
            return Err(LoadError::OutOfRange);
        }
        r = r + 1;
    }
    assert(dims_ok(*level));
    let glyphs = glyph_sprites(&level.blocks);
    let mut r: usize = 0;
    while r < nrows
        invariant
            dims_ok(*level),
            glyphs@ == glyph_map(level.blocks@),
            nrows == level.rows@.len(),
            r <= nrows,
            forall|j: int, k: int| 0 <= j < r && 0 <= k < row_of(*level, j).len() ==> {
                let c = #[trigger] row_of(*level, j)[k];
                c == ' ' || sprite_of(level.blocks@, c) is Some
            },
        decreases nrows - r,
    {
        let row = level.rows[r].as_str();
        let len = row.unicode_len();
        let mut k: usize = 0;
        while k < len
            invariant
                dims_ok(*level),
                glyphs@ == glyph_map(level.blocks@),
                nrows == level.rows@.len(),
                r < nrows,
                row@ == row_of(*level, r as int),
                len == row@.len(),
                k <= len,
                forall|j: int, l: int| 0 <= j < r && 0 <= l < row_of(*level, j).len() ==> {
                    let c = #[trigger] row_of(*level, j)[l];
                    c == ' ' || sprite_of(level.blocks@, c) is Some
                },
                forall|l: int| 0 <= l < k ==> {
                    let c = #[trigger] row_of(*level, r as int)[l];
                    c == ' ' || sprite_of(level.blocks@, c) is Some
                },
            decreases len - k,
        {
            let c = row.get_char(k);
            proof {
                lemma_glyph_map(level.blocks@, c);
            }
            if c != ' ' && sprite_for(&glyphs, c).is_none() {
                assert(!glyphs_ok(*level)) by {
                    assert(row_of(*level, r as int)[k as int] == c);
                }
                return Err(LoadError::MissingGlyph);
            }
            k = k + 1;
        }
        r = r + 1;
    }
    assert(glyphs_ok(*level));
    let bricks = add_bricks(level);
    if bricks.len() == 0 {
        Err(LoadError::MissingRows)
    } else {
        Ok(())
    }
}

/// All levels of a catalog can be played.
pub open spec fn catalog_ok(levels: Seq<Level>) -> bool {
    forall|i: int| 0 <= i < levels.len() ==> level_ok(#[trigger] levels[i])
}

/// Checks every level of a catalog: `Ok` when all can be played, else the
/// error of the first that cannot, with its index.
pub fn check_catalog(levels: &Vec<Level>) -> (r: Result<(), (usize, LoadError)>)
    ensures
        r is Ok == catalog_ok(levels@),
        r matches Err((i, e)) ==> i < levels@.len() && !level_ok(levels@[i as int])
            && check_level_spec(levels@[i as int]) == Err::<(), LoadError>(e)
            && forall|j: int| 0 <= j < i ==> level_ok(#[trigger] levels@[j]),
{
    let mut i: usize = 0;
    while i < levels.len()
        invariant
            i <= levels@.len(),
            forall|j: int| 0 <= j < i ==> level_ok(#[trigger] levels@[j]),
        decreases levels@.len() - i,
    {
        match check_level(&levels[i]) {
            Ok(()) => {},
            Err(e) => {
                return Err((i, e));
            },
        }
        i = i + 1;
    }
    Ok(())
}

/// What `check_level` returns for `level`.
pub open spec fn check_level_spec(level: Level) -> Result<(), LoadError> {
    if !dims_ok(level) {
        Err(LoadError::OutOfRange)
    } else if !glyphs_ok(level) {
        Err(LoadError::MissingGlyph)
    } else if bricks_of(level).len() == 0 {
        Err(LoadError::MissingRows)
    } else {
        Ok(())
    }
}

} // verus!
