use vstd::prelude::*;

verus! {

/// Units of world coordinates in one pixel.
pub const UNITS_PER_PIXEL: i64 = 1000;

/// Width of the playing field, in units.
pub const SCREEN_WIDTH: i64 = 1_100_000;

/// Height of the playing field, in units.
pub const SCREEN_HEIGHT: i64 = 720_000;

/// Bound on the coordinates that collision tests accept.
pub const MAX_COORD: i64 = 70_368_744_177_664;

/// Bound on the coordinates of a ball before it moves.
pub const ARENA_COORD: i64 = 17_592_186_044_416;

/// Bound on the extent of a box.
pub const MAX_SIZE: i64 = 1_099_511_627_776;

/// Bound on each component of a velocity, in units per millisecond.
pub const MAX_SPEED: i64 = 1_048_576;

/// Bound on the length of one simulation step, in milliseconds.
pub const MAX_DELTA: u64 = 1_048_576;

/// A point or a vector of the plane, in world units.
#[derive(Clone, Copy, Debug, PartialEq, Eq, Structural)]
pub struct Vec2 {
    pub x: i64,
    pub y: i64,
}

impl Vec2 {
    pub fn new(x: i64, y: i64) -> (r: Vec2)
        ensures
            r == (Vec2 { x, y }),
    {
        Vec2 { x, y }
    }
}

/// Both components of `v` lie in `[-bound, bound]`.
pub open spec fn within(v: Vec2, bound: int) -> bool {
    -bound <= v.x <= bound && -bound <= v.y <= bound
}

/// Both components of a box extent lie in `[0, MAX_SIZE]`.
pub open spec fn size_ok(s: Vec2) -> bool {
    0 <= s.x <= MAX_SIZE && 0 <= s.y <= MAX_SIZE
}

/// The face of the second box that the first box touches.
#[derive(Clone, Copy, Debug, PartialEq, Eq, Structural)]
pub enum Collision {
    Left,
    Right,
    Top,
    Bottom,
    Inside,
}

/// Contact along one axis, for boxes given by doubled bounds: the face
/// touched at the low or the high end of the second box, with the
/// penetration depth, or `None` where one box spans the other.
pub open spec fn axis_contact(a0: int, a1: int, b0: int, b1: int, low: Collision, high: Collision) -> Option<(Collision, int)> {
    if a0 < b0 && a1 > b0 && a1 < b1 {
        Some((low, a1 - b0))
    } else if a0 > b0 && a0 < b1 && a1 > b1 {
        Some((high, b1 - a0))
    } else {
        None
    }
}

/// Whether the box centred at `a` with extent `a_size` overlaps the box
/// centred at `b` with extent `b_size` (touching edges do not overlap).
pub open spec fn overlaps(a: Vec2, a_size: Vec2, b: Vec2, b_size: Vec2) -> bool {
    2 * a.x - a_size.x < 2 * b.x + b_size.x
    && 2 * a.x + a_size.x > 2 * b.x - b_size.x
    && 2 * a.y - a_size.y < 2 * b.y + b_size.y
    && 2 * a.y + a_size.y > 2 * b.y - b_size.y
}

/// The contact of box `a` against box `b`. Each axis on which `a` sticks out
/// of exactly one side of `b` gives a face with its penetration depth; where
/// both do, the axis of smaller depth wins, the horizontal one on a tie; where
/// neither does, `a` is inside.
pub open spec fn spec_collide(a: Vec2, a_size: Vec2, b: Vec2, b_size: Vec2) -> Option<Collision> {
    if overlaps(a, a_size, b, b_size) {
        let xc = axis_contact(
            2 * a.x - a_size.x, 2 * a.x + a_size.x,
            2 * b.x - b_size.x, 2 * b.x + b_size.x,
            Collision::Left, Collision::Right,
        );
        let yc = axis_contact(
            2 * a.y - a_size.y, 2 * a.y + a_size.y,
            2 * b.y - b_size.y, 2 * b.y + b_size.y,
            Collision::Bottom, Collision::Top,
        );
        match (xc, yc) {
            (None, None) => Some(Collision::Inside),
            (None, Some((cy, _))) => Some(cy),
            (Some((cx, _)), None) => Some(cx),
            (Some((cx, dx)), Some((cy, dy))) => if dy < dx { Some(cy) } else { Some(cx) },
        }
    } else {
        None
    }
}

fn exec_axis_contact(a0: i64, a1: i64, b0: i64, b1: i64, low: Collision, high: Collision) -> (r: Option<(Collision, i64)>)
    requires
        -4 * MAX_COORD <= a0 <= 4 * MAX_COORD,
        -4 * MAX_COORD <= a1 <= 4 * MAX_COORD,
        -4 * MAX_COORD <= b0 <= 4 * MAX_COORD,
        -4 * MAX_COORD <= b1 <= 4 * MAX_COORD,
    ensures
        match (r, axis_contact(a0 as int, a1 as int, b0 as int, b1 as int, low, high)) {
            (None, None) => true,
            (Some((c, d)), Some((sc, sd))) => c == sc && d as int == sd,
            _ => false,
        },
{
    if a0 < b0 && a1 > b0 && a1 < b1 {
        Some((low, a1 - b0))
    } else if a0 > b0 && a0 < b1 && a1 > b1 {
        Some((high, b1 - a0))
    } else {
        None
    }
}

/// Tests box `a` (centre, extent) against box `b` and names the face of `b`
/// that `a` touches.
pub fn collide(a: Vec2, a_size: Vec2, b: Vec2, b_size: Vec2) -> (r: Option<Collision>)
    requires
        within(a, MAX_COORD as int),
        within(b, MAX_COORD as int),
        size_ok(a_size),
        size_ok(b_size),
    ensures
        r == spec_collide(a, a_size, b, b_size),
{
    let ax0 = 2 * a.x - a_size.x;
    let ax1 = 2 * a.x + a_size.x;
    let ay0 = 2 * a.y - a_size.y;
    let ay1 = 2 * a.y + a_size.y;
    let bx0 = 2 * b.x - b_size.x;
    let bx1 = 2 * b.x + b_size.x;
    let by0 = 2 * b.y - b_size.y;
    let by1 = 2 * b.y + b_size.y;
    if ax0 < bx1 && ax1 > bx0 && ay0 < by1 && ay1 > by0 {
        let xc = exec_axis_contact(ax0, ax1, bx0, bx1, Collision::Left, Collision::Right);
        let yc = exec_axis_contact(ay0, ay1, by0, by1, Collision::Bottom, Collision::Top);
        match (xc, yc) {
            (None, None) => Some(Collision::Inside),
            (None, Some((cy, _))) => Some(cy),
            (Some((cx, _)), None) => Some(cx),
            (Some((cx, dx)), Some((cy, dy))) => if dy < dx { Some(cy) } else { Some(cx) },
        }
    } else {
        None
    }
}

/// The negation of a component, for components whose negation fits.
pub open spec fn neg(x: i64) -> i64 {
    (-x) as i64
}

/// The velocity after a contact on face `c`: a face reverses the component
/// along its axis only while the ball moves into it; `Inside` reverses both.
pub open spec fn reflected(v: Vec2, c: Collision) -> Vec2 {
    match c {
        Collision::Left => if v.x > 0 { Vec2 { x: neg(v.x), y: v.y } } else { v },
        Collision::Right => if v.x < 0 { Vec2 { x: neg(v.x), y: v.y } } else { v },
        Collision::Top => if v.y < 0 { Vec2 { x: v.x, y: neg(v.y) } } else { v },
        Collision::Bottom => if v.y > 0 { Vec2 { x: v.x, y: neg(v.y) } } else { v },
        Collision::Inside => Vec2 { x: neg(v.x), y: neg(v.y) },
    }
}

/// Reflects velocity `v` off face `c`.
pub fn reflect(v: Vec2, c: Collision) -> (r: Vec2)
    requires
        within(v, MAX_SPEED as int),
    ensures
        r == reflected(v, c),
        within(r, MAX_SPEED as int),
{
    let mut reflect_x = false;
    let mut reflect_y = false;
    match c {
        Collision::Left => reflect_x = v.x > 0,
        Collision::Right => reflect_x = v.x < 0,
        Collision::Top => reflect_y = v.y < 0,
        Collision::Bottom => reflect_y = v.y > 0,
        Collision::Inside => {
            reflect_x = true;
            reflect_y = true;
        },
    }
    let x = if reflect_x { -v.x } else { v.x };
    let y = if reflect_y { -v.y } else { v.y };
    Vec2 { x, y }
}

/// A contact reverses the velocity only along the axis of the face touched,
/// turning motion into the face into motion away from it; only a contact
/// from inside reverses both components.
pub proof fn lemma_reflection_axis(v: Vec2, c: Collision)
    requires
        within(v, MAX_SPEED as int),
    ensures
        ({
            let r = reflected(v, c);
            &&& (c == Collision::Left || c == Collision::Right) ==> r.y == v.y
            &&& (c == Collision::Top || c == Collision::Bottom) ==> r.x == v.x
            &&& c == Collision::Left ==> (if v.x > 0 { r.x == -v.x && r.x < 0 } else { r.x == v.x })
            &&& c == Collision::Right ==> (if v.x < 0 { r.x == -v.x && r.x > 0 } else { r.x == v.x })
            &&& c == Collision::Bottom ==> (if v.y > 0 { r.y == -v.y && r.y < 0 } else { r.y == v.y })
            &&& c == Collision::Top ==> (if v.y < 0 { r.y == -v.y && r.y > 0 } else { r.y == v.y })
            &&& c == Collision::Inside ==> r.x == -v.x && r.y == -v.y
        }),
{
}

} // verus!
