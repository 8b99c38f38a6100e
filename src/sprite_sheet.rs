use vstd::prelude::*;

verus! {

/// One sprite of a packed texture: its corner and extent, in pixels.
#[derive(Clone, Copy, Debug, PartialEq, Eq, Structural)]
pub struct SpriteSpecs {
    pub x: usize,
    pub y: usize,
    pub width: usize,
    pub height: usize,
}

/// A packed texture and the sprites cut from it.
#[derive(Clone, Debug)]
pub struct SpriteSheetSpecs {
    pub texture_width: usize,
    pub texture_height: usize,
    pub sprites: Vec<SpriteSpecs>,
}

/// The corners of a sprite within its texture, in pixels.
#[derive(Clone, Copy, Debug, PartialEq, Eq, Structural)]
pub struct SpriteRect {
    pub min_x: usize,
    pub min_y: usize,
    pub max_x: usize,
    pub max_y: usize,
}

/// Why a sprite sheet cannot be used.
#[derive(Clone, Copy, Debug, PartialEq, Eq, Structural)]
pub enum AssetLoadError {
    /// The far corner of the sprite with this index does not fit in a `usize`.
    ExtentOverflow(usize),
}

/// The far corner of the sprite can be counted in a `usize`.
pub open spec fn extent_fits(s: SpriteSpecs) -> bool {
    s.x + s.width <= usize::MAX && s.y + s.height <= usize::MAX
}

/// The rectangle a sprite covers.
pub open spec fn rect_of(s: SpriteSpecs) -> SpriteRect {
    SpriteRect {
        min_x: s.x,
        min_y: s.y,
        max_x: (s.x + s.width) as usize,
        max_y: (s.y + s.height) as usize,
    }
}

/// The rectangles of the sprites of a sheet, one per sprite, in order; or
/// the index of the first sprite whose far corner overflows.
pub fn sprite_rects(specs: &SpriteSheetSpecs) -> (r: Result<Vec<SpriteRect>, AssetLoadError>)
    ensures
        r is Ok == (forall|i: int| 0 <= i < specs.sprites@.len() ==> extent_fits(#[trigger] specs.sprites@[i])),
        r matches Ok(v) ==> v@.len() == specs.sprites@.len()
            && forall|i: int| 0 <= i < v@.len() ==> #[trigger] v@[i] == rect_of(specs.sprites@[i]),
        r matches Err(AssetLoadError::ExtentOverflow(i)) ==> i < specs.sprites@.len()
            && !extent_fits(specs.sprites@[i as int])
            && forall|j: int| 0 <= j < i ==> extent_fits(#[trigger] specs.sprites@[j]),
{
    let mut out: Vec<SpriteRect> = Vec::new();
    let mut i: usize = 0;
    while i < specs.sprites.len()
        invariant
            i <= specs.sprites@.len(),
            out@.len() == i,
            forall|j: int| 0 <= j < i ==> extent_fits(#[trigger] specs.sprites@[j]),
            forall|j: int| 0 <= j < i ==> #[trigger] out@[j] == rect_of(specs.sprites@[j]),
        decreases specs.sprites@.len() - i,
    {
        let s = specs.sprites[i];
        if s.x > usize::MAX - s.width || s.y > usize::MAX - s.height {
            return Err(AssetLoadError::ExtentOverflow(i));
        }
        out.push(SpriteRect { min_x: s.x, min_y: s.y, max_x: s.x + s.width, max_y: s.y + s.height });
        i = i + 1;
    }
    Ok(out)
}

} // verus!
