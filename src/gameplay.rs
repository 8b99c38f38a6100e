use vstd::prelude::*;
use crate::geometry::{
    collide, reflect, reflected, size_ok, spec_collide, within, Collision, Vec2, ARENA_COORD,
    MAX_COORD, MAX_DELTA, MAX_SPEED,
};
use crate::state::{GameState, StateStack, MAX_STATE_DEPTH};

verus! {

/// Width of the paddle, in units.
pub const PADDLE_WIDTH: i64 = 162_000;

/// Height of the paddle, in units.
pub const PADDLE_HEIGHT: i64 = 30_000;

/// Speed of the paddle, in units per millisecond.
pub const PADDLE_SPEED: i64 = 500;

/// Height at which the paddle starts and stays: half of `40 px - SCREEN_HEIGHT`.
pub const PADDLE_START_Y: i64 = -340_000;

/// Farthest the centre of the paddle goes from the middle of the field:
/// half of `SCREEN_WIDTH - PADDLE_WIDTH`.
pub const PADDLE_LIMIT: i64 = 469_000;

/// Extent of the ball on both axes, in units.
pub const BALL_SIZE: i64 = 30_000;

/// Where the ball starts, across.
pub const BALL_START_X: i64 = 0;

/// Where the ball starts, up.
pub const BALL_START_Y: i64 = -250_000;

/// Each component of the ball's starting velocity: a speed of 400 pixels
/// per second along the diagonal.
pub const BALL_START_SPEED: i64 = 283;

/// Farthest the centre of the ball goes from the middle across: half of
/// `SCREEN_WIDTH - BALL_SIZE`.
pub const BALL_X_LIMIT: i64 = 535_000;

/// Farthest the centre of the ball goes from the middle up or down: half of
/// `SCREEN_HEIGHT - BALL_SIZE`.
pub const BALL_Y_LIMIT: i64 = 345_000;

/// Lives at the start of a session.
pub const START_LIVES: i32 = 3;

/// The paddle the player moves along the bottom of the field.
#[derive(Clone, Copy, Debug, PartialEq, Eq, Structural)]
pub struct Paddle {
    pub position: Vec2,
    pub speed: i64,
}

/// The ball: centre, velocity and extent.
#[derive(Clone, Copy, Debug, PartialEq, Eq, Structural)]
pub struct Ball {
    pub position: Vec2,
    pub velocity: Vec2,
    pub size: Vec2,
}

/// What the ball can bounce off: a brick, destroyed when hit, or the paddle.
#[derive(Clone, Copy, Debug, PartialEq, Eq, Structural)]
pub enum Collider {
    Scorable { size: Vec2 },
    Paddle { size: Vec2 },
}

impl Collider {
    /// The extent of the collider, of either kind.
    pub open spec fn spec_size(&self) -> Vec2 {
        match self {
            Collider::Scorable { size } => *size,
            Collider::Paddle { size } => *size,
        }
    }

    /// The extent of the collider.
    pub fn get_size(&self) -> (r: Vec2)
        ensures
            r == self.spec_size(),
    {
        match self {
            Collider::Scorable { size: s } => *s,
            Collider::Paddle { size: s } => *s,
        }
    }
}

/// A collider placed in the world, with a stable id and the sprite that
/// draws it.
#[derive(Clone, Copy, Debug, PartialEq, Eq, Structural)]
pub struct Body {
    pub id: u64,
    pub position: Vec2,
    pub collider: Collider,
    pub sprite: usize,
}

/// Points, lives and progress of a session.
#[derive(Clone, Copy, Debug, PartialEq, Eq, Structural)]
pub struct Score {
    pub current_level: usize,
    pub bricks_left: usize,
    pub points: u64,
    pub lives: i32,
}

/// How a lost ball ends.
#[derive(Clone, Copy, Debug, PartialEq, Eq, Structural)]
pub enum LifeEvent {
    /// Lives remain: the ball and paddle go back to their start.
    Lost,
    /// No lives remain: the session is over.
    Exhausted,
}

/// The player's input during one step.
#[derive(Clone, Copy, Debug, PartialEq, Eq, Structural)]
pub struct Input {
    pub left: bool,
    pub right: bool,
    pub pause: bool,
}

/// Whether the level was just entered and has not yet shown its ready
/// overlay.
#[derive(Clone, Copy, Debug, PartialEq, Eq, Structural)]
pub struct BrandNewLevel(pub bool);

/// What one scan of the colliders did.
pub struct CollisionReport {
    /// Ids of the bricks destroyed, in the order of the scan.
    pub destroyed: Vec<u64>,
    /// Whether the last brick left went.
    pub level_cleared: bool,
}

impl Score {
    /// A fresh session: no points, no bricks, three lives, the first level.
    pub fn new() -> (r: Score)
        ensures
            r == (Score { current_level: 0, bricks_left: 0, points: 0, lives: START_LIVES }),
    {
        Score { points: 0, bricks_left: 0, lives: START_LIVES, current_level: 0 }
    }

    /// Adds `n` points.
    pub fn add_points(&mut self, n: u64)
        requires
            old(self).points + n <= u64::MAX,
        ensures
            *final(self) == (Score { points: (old(self).points + n) as u64, ..*old(self) }),
    {
        self.points = self.points + n;
    }

    /// Counts a destroyed brick: one point more and one brick fewer (never
    /// below zero). Returns whether that was the last brick.
    pub fn brick_destroyed(&mut self) -> (cleared: bool)
        requires
            old(self).points < u64::MAX,
        ensures
            *final(self) == (Score {
                points: (old(self).points + 1) as u64,
                bricks_left: if old(self).bricks_left > 0 { (old(self).bricks_left - 1) as usize } else { 0 },
                ..*old(self)
            }),
            cleared == (old(self).bricks_left == 1),
    {
        self.add_points(1);
        if self.bricks_left > 0 {
            self.bricks_left = self.bricks_left - 1;
            self.bricks_left == 0
        } else {
            false
        }
    }

    /// Takes one life; the session is over once none is left.
    pub fn lose_life(&mut self) -> (r: LifeEvent)
        requires
            old(self).lives > i32::MIN,
        ensures
            *final(self) == (Score { lives: (old(self).lives - 1) as i32, ..*old(self) }),
            (r == LifeEvent::Exhausted) == (final(self).lives <= 0),
    {
        self.lives = self.lives - 1;
        if self.lives <= 0 {
            LifeEvent::Exhausted
        } else {
            LifeEvent::Lost
        }
    }
}

/// Whether `s` can take the pause overlay: it is not up already and the
/// stack has room for it.
pub open spec fn can_pause(s: StateStack) -> bool {
    s.top() != GameState::PauseMenu && s@.len() < MAX_STATE_DEPTH
}

/// Shows the ready overlay over a level that was just entered, once.
pub fn initial_pause_check(state: &mut StateStack, is_new: &mut BrandNewLevel)
    requires
        old(state).wf(),
        old(is_new).0 ==> can_pause(*old(state)),
    ensures
        final(state).wf(),
        final(state)@ == (if old(is_new).0 { old(state)@.push(GameState::PauseMenu) } else { old(state)@ }),
        !final(is_new).0,
{
    if is_new.0 {
        let _ = state.push(GameState::PauseMenu);
        is_new.0 = false;
    }
}

/// The ball at the start of a level or after a lost life.
pub open spec fn start_ball() -> Ball {
    Ball {
        position: Vec2 { x: BALL_START_X, y: BALL_START_Y },
        velocity: Vec2 { x: BALL_START_SPEED, y: BALL_START_SPEED },
        size: Vec2 { x: BALL_SIZE, y: BALL_SIZE },
    }
}

/// The paddle at the start of a level or after a lost life.
pub open spec fn start_paddle() -> Paddle {
    Paddle { position: Vec2 { x: 0, y: PADDLE_START_Y }, speed: PADDLE_SPEED }
}

/// The ball and the paddle in their starting places.
pub fn setup_ball_and_paddle() -> (r: (Ball, Paddle))
    ensures
        r == (start_ball(), start_paddle()),
{
    let paddle = Paddle { position: Vec2 { x: 0, y: PADDLE_START_Y }, speed: PADDLE_SPEED };
    let ball = Ball {
        position: Vec2 { x: BALL_START_X, y: BALL_START_Y },
        velocity: Vec2 { x: BALL_START_SPEED, y: BALL_START_SPEED },
        size: Vec2 { x: BALL_SIZE, y: BALL_SIZE },
    };
    (ball, paddle)
}

/// The horizontal direction of the input: -1, 0 or 1.
pub open spec fn direction(input: Input) -> int {
    (if input.right { 1int } else { 0int }) - (if input.left { 1int } else { 0int })
}

/// `v` held within `[lo, hi]`.
pub open spec fn clamp(v: int, lo: int, hi: int) -> int {
    if v < lo { lo } else if v > hi { hi } else { v }
}

/// `v * dt`, for a component within `MAX_SPEED` and a step within
/// `MAX_DELTA`.
fn scaled(v: i64, dt: u64) -> (r: i64)
    requires
        -MAX_SPEED <= v <= MAX_SPEED,
        dt <= MAX_DELTA,
    ensures
        r == v * dt,
        -MAX_SPEED * MAX_DELTA <= r <= MAX_SPEED * MAX_DELTA,
{
    proof {
        assert(-MAX_SPEED * MAX_DELTA <= v * dt <= MAX_SPEED * MAX_DELTA) by (nonlinear_arith)
            requires
                -MAX_SPEED <= v <= MAX_SPEED,
                dt <= MAX_DELTA,
                0 <= dt,
        ;
    }
    v * (dt as i64)
}

/// Moves the paddle by its speed along the input's direction for `dt`
/// milliseconds, and keeps it between the walls. The pause key brings up the
/// pause overlay.
pub fn paddle_movement_system(paddle: &mut Paddle, input: Input, state: &mut StateStack, dt: u64)
    requires
        -ARENA_COORD <= old(paddle).position.x <= ARENA_COORD,
        0 <= old(paddle).speed <= MAX_SPEED,
        dt <= MAX_DELTA,
        old(state).wf(),
        input.pause ==> can_pause(*old(state)),
    ensures
        final(paddle).position.x == clamp(
            old(paddle).position.x + direction(input) * old(paddle).speed * dt,
            -PADDLE_LIMIT as int,
            PADDLE_LIMIT as int,
        ),
        final(paddle).position.y == old(paddle).position.y,
        final(paddle).speed == old(paddle).speed,
        final(state).wf(),
        final(state)@ == (if input.pause { old(state)@.push(GameState::PauseMenu) } else { old(state)@ }),
        dt == 0 && -PADDLE_LIMIT <= old(paddle).position.x <= PADDLE_LIMIT ==> *final(paddle) == *old(paddle),
{
    if input.pause {
        let _ = state.push(GameState::PauseMenu);
    }
    let step = scaled(paddle.speed, dt);
    let x0 = paddle.position.x;
    let mut x = x0;
    if input.left && !input.right {
        x = x0 - step;
        assert(direction(input) * paddle.speed * dt == -(paddle.speed * dt)) by (nonlinear_arith)
            requires direction(input) == -1;
    } else if input.right && !input.left {
        x = x0 + step;
        assert(direction(input) * paddle.speed * dt == paddle.speed * dt) by (nonlinear_arith)
            requires direction(input) == 1;
    } else {
        assert(direction(input) * paddle.speed * dt == 0) by (nonlinear_arith)
            requires direction(input) == 0;
    }
    if x > PADDLE_LIMIT {
        x = PADDLE_LIMIT;
    } else if x < -PADDLE_LIMIT {
        x = -PADDLE_LIMIT;
    }
    paddle.position.x = x;
}

/// Moves the ball by its velocity for `dt` milliseconds.
pub fn ball_movement_system(ball: &mut Ball, dt: u64)
    requires
        within(old(ball).position, ARENA_COORD as int),
        within(old(ball).velocity, MAX_SPEED as int),
        dt <= MAX_DELTA,
    ensures
        final(ball).position.x == old(ball).position.x + old(ball).velocity.x * dt,
        final(ball).position.y == old(ball).position.y + old(ball).velocity.y * dt,
        within(final(ball).position, MAX_COORD as int),
        final(ball).velocity == old(ball).velocity,
        final(ball).size == old(ball).size,
        dt == 0 ==> *final(ball) == *old(ball),
{
    let dx = scaled(ball.velocity.x, dt);
    let dy = scaled(ball.velocity.y, dt);
    ball.position.x = ball.position.x + dx;
    ball.position.y = ball.position.y + dy;
}

/// The ball after the walls have acted on it: across either side wall it is
/// put back on the wall with its horizontal velocity reversed; above the top
/// wall likewise with its vertical velocity reversed.
pub open spec fn bounded_ball(b: Ball) -> Ball {
    let out_x = b.position.x < -BALL_X_LIMIT || b.position.x > BALL_X_LIMIT;
    let out_top = b.position.y > BALL_Y_LIMIT;
    Ball {
        position: Vec2 {
            x: if out_x { clamp(b.position.x as int, -BALL_X_LIMIT as int, BALL_X_LIMIT as int) as i64 } else { b.position.x },
            y: if out_top { BALL_Y_LIMIT } else { b.position.y },
        },
        velocity: Vec2 {
            x: if out_x { crate::geometry::neg(b.velocity.x) } else { b.velocity.x },
            y: if out_top { crate::geometry::neg(b.velocity.y) } else { b.velocity.y },
        },
        size: b.size,
    }
}

/// Keeps the ball inside the side and top walls. A ball below the bottom of
/// the field costs a life: with lives left it goes back to its start and the
/// pause overlay comes up; with none left play returns to the main menu.
pub fn ball_boundary_system(ball: &mut Ball, state: &mut StateStack, score: &mut Score) -> (r: Option<LifeEvent>)
    requires
        within(old(ball).velocity, MAX_SPEED as int),
        old(state).wf(),
        old(state).top() == GameState::Level,
        can_pause(*old(state)),
        old(score).lives > i32::MIN,
    ensures
        final(state).wf(),
        within(final(ball).velocity, MAX_SPEED as int),
        -BALL_X_LIMIT <= old(ball).position.x <= BALL_X_LIMIT && -BALL_Y_LIMIT <= old(ball).position.y <= BALL_Y_LIMIT
            ==> r is None && *final(ball) == *old(ball) && *final(score) == *old(score) && final(state)@ == old(state)@,
        old(ball).position.y >= -BALL_Y_LIMIT ==> {
            &&& r is None
            &&& *final(ball) == bounded_ball(*old(ball))
            &&& *final(score) == *old(score)
            &&& final(state)@ == old(state)@
        },
        old(ball).position.y < -BALL_Y_LIMIT ==> {
            &&& *final(score) == (Score { lives: (old(score).lives - 1) as i32, ..*old(score) })
            &&& r == Some(if old(score).lives <= 1 { LifeEvent::Exhausted } else { LifeEvent::Lost })
            &&& r == Some(LifeEvent::Exhausted) ==> *final(ball) == bounded_ball(*old(ball))
                && final(state)@ == old(state)@.update(old(state)@.len() - 1, GameState::MainMenu)
            &&& r == Some(LifeEvent::Lost) ==> *final(ball) == start_ball()
                && final(state)@ == old(state)@.push(GameState::PauseMenu)
        },
{
    if ball.position.x < -BALL_X_LIMIT || ball.position.x > BALL_X_LIMIT {
        if ball.position.x > BALL_X_LIMIT {
            ball.position.x = BALL_X_LIMIT;
        } else {
            ball.position.x = -BALL_X_LIMIT;
        }
        ball.velocity.x = -ball.velocity.x;
    }
    if ball.position.y > BALL_Y_LIMIT {
        ball.position.y = BALL_Y_LIMIT;
        ball.velocity.y = -ball.velocity.y;
    }
    if ball.position.y < -BALL_Y_LIMIT {
        let ev = score.lose_life();
        match ev {
            LifeEvent::Exhausted => {
                let _ = state.set(GameState::MainMenu);
            },
            LifeEvent::Lost => {
                let (start, _) = setup_ball_and_paddle();
                *ball = start;
                let _ = state.push(GameState::PauseMenu);
            },
        }
        Some(ev)
    } else {
        None
    }
}

/// A ball whose coordinates, velocity and extent collision tests accept.
pub open spec fn ball_ok(b: Ball) -> bool {
    within(b.position, MAX_COORD as int) && within(b.velocity, MAX_SPEED as int) && size_ok(b.size)
}

/// A body whose coordinates and extent collision tests accept.
pub open spec fn body_ok(b: Body) -> bool {
    within(b.position, MAX_COORD as int) && size_ok(b.collider.spec_size())
}

/// The face of `body` that the ball touches, if any.
pub open spec fn contact(ball: Ball, body: Body) -> Option<Collision> {
    spec_collide(ball.position, ball.size, body.position, body.collider.spec_size())
}

/// Whether the ball destroys `body`: a brick that it touches.
pub open spec fn destroys(ball: Ball, body: Body) -> bool {
    contact(ball, body) is Some && body.collider is Scorable
}

/// The ball's velocity after it has bounced, in order, off each of `bodies`
/// that it touches.
pub open spec fn velocity_after(ball: Ball, bodies: Seq<Body>) -> Vec2
    decreases bodies.len(),
{
    if bodies.len() == 0 {
        ball.velocity
    } else {
        let v = velocity_after(ball, bodies.drop_last());
        match contact(ball, bodies.last()) {
            Some(c) => reflected(v, c),
            None => v,
        }
    }
}

/// The bodies that the ball does not destroy, in their order.
pub open spec fn survivors(ball: Ball, bodies: Seq<Body>) -> Seq<Body>
    decreases bodies.len(),
{
    if bodies.len() == 0 {
        seq![]
    } else if destroys(ball, bodies.last()) {
        survivors(ball, bodies.drop_last())
    } else {
        survivors(ball, bodies.drop_last()).push(bodies.last())
    }
}

/// The ids of the bodies that the ball destroys, in their order.
pub open spec fn destroyed_ids(ball: Ball, bodies: Seq<Body>) -> Seq<u64>
    decreases bodies.len(),
{
    if bodies.len() == 0 {
        seq![]
    } else if destroys(ball, bodies.last()) {
        destroyed_ids(ball, bodies.drop_last()).push(bodies.last().id)
    } else {
        destroyed_ids(ball, bodies.drop_last())
    }
}

/// `a - n`, or zero where that is negative.
pub open spec fn sat_sub(a: int, n: int) -> int {
    if a > n { a - n } else { 0 }
}

/// Every body is either destroyed or survives.
pub proof fn lemma_destroyed_count(ball: Ball, bodies: Seq<Body>)
    ensures
        destroyed_ids(ball, bodies).len() + survivors(ball, bodies).len() == bodies.len(),
    decreases bodies.len(),
{
    if bodies.len() > 0 {
        lemma_destroyed_count(ball, bodies.drop_last());
    }
}

/// Bounces the ball off every body it touches, in order, and destroys the
/// bricks among them, each for one point; when the last brick left goes,
/// play advances to the next level. The bodies are all tested against
/// the ball's position at the start of the scan; a brick destroyed is not
/// visited again.
pub fn ball_collision_system(ball: &mut Ball, bodies: &mut Vec<Body>, score: &mut Score) -> (r: CollisionReport)
    requires
        ball_ok(*old(ball)),
        forall|i: int| 0 <= i < old(bodies)@.len() ==> body_ok(#[trigger] old(bodies)@[i]),
        old(score).points + old(bodies)@.len() <= u64::MAX,
        old(score).current_level < usize::MAX,
    ensures
        *final(ball) == (Ball { velocity: velocity_after(*old(ball), old(bodies)@), ..*old(ball) }),
        ball_ok(*final(ball)),
        final(bodies)@ == survivors(*old(ball), old(bodies)@),
        r.destroyed@ == destroyed_ids(*old(ball), old(bodies)@),
        final(score).points == old(score).points + r.destroyed@.len(),
        final(score).bricks_left == sat_sub(old(score).bricks_left as int, r.destroyed@.len() as int),
        final(score).lives == old(score).lives,
        final(score).current_level == old(score).current_level + (if r.level_cleared { 1int } else { 0int }),
        r.level_cleared == (old(score).bricks_left > 0 && r.destroyed@.len() >= old(score).bricks_left),
{
    let ghost ball0 = *ball;
    let ghost bodies0 = bodies@;
    let ghost score0 = *score;
    let mut kept: Vec<Body> = Vec::new();
    let mut destroyed: Vec<u64> = Vec::new();
    let mut level_cleared = false;
    let n = bodies.len();
    let mut i: usize = 0;
    proof {
        assert(bodies0.take(0) =~= Seq::<Body>::empty());
    }
    while i < n
        invariant
            0 <= i <= n,
            n == bodies0.len(),
            bodies@ == bodies0,
            forall|j: int| 0 <= j < bodies0.len() ==> body_ok(#[trigger] bodies0[j]),
            ball_ok(ball0),
            *ball == (Ball { velocity: velocity_after(ball0, bodies0.take(i as int)), ..ball0 }),
            within(ball.velocity, MAX_SPEED as int),
            kept@ == survivors(ball0, bodies0.take(i as int)),
            destroyed@ == destroyed_ids(ball0, bodies0.take(i as int)),
            destroyed@.len() <= i,
            score0.points + n <= u64::MAX,
            score.points == score0.points + destroyed@.len(),
            score.bricks_left == sat_sub(score0.bricks_left as int, destroyed@.len() as int),
            score.lives == score0.lives,
            score0.current_level < usize::MAX,
            score.current_level == score0.current_level + (if level_cleared { 1int } else { 0int }),
            level_cleared == (score0.bricks_left > 0 && destroyed@.len() >= score0.bricks_left),
        decreases n - i,
    {
        let body = bodies[i];
        proof {
            let t = bodies0.take(i as int + 1);
            assert(t.drop_last() =~= bodies0.take(i as int));
            assert(t.last() == body);
            lemma_destroyed_count(ball0, bodies0.take(i as int));
        }
        let c = collide(ball.position, ball.size, body.position, body.collider.get_size());
        match c {
            Some(face) => {
                if let Collider::Scorable { .. } = body.collider {
                    let last = score.brick_destroyed();
                    if last {
                        score.current_level = score.current_level + 1;
                        level_cleared = true;
                    }
                    destroyed.push(body.id);
                } else {
                    kept.push(body);
                }
                ball.velocity = reflect(ball.velocity, face);
            },
            None => {
                kept.push(body);
            },
        }
        i = i + 1;
    }
    proof {
        assert(bodies0.take(n as int) =~= bodies0);
    }
    *bodies = kept;
    CollisionReport { destroyed, level_cleared }
}

/// A ball that touches none of `bodies` keeps its velocity and destroys none
/// of them.
pub proof fn lemma_no_contact(ball: Ball, bodies: Seq<Body>)
    requires
        forall|i: int| 0 <= i < bodies.len() ==> contact(ball, #[trigger] bodies[i]) is None,
    ensures
        velocity_after(ball, bodies) == ball.velocity,
        survivors(ball, bodies) == bodies,
        destroyed_ids(ball, bodies).len() == 0,
    decreases bodies.len(),
{
    if bodies.len() > 0 {
        let init = bodies.drop_last();
        assert forall|i: int| 0 <= i < init.len() implies contact(ball, #[trigger] init[i]) is None by {
            assert(init[i] == bodies[i]);
        }
        lemma_no_contact(ball, init);
        assert(contact(ball, bodies[bodies.len() - 1]) is None);
        assert(init.push(bodies.last()) =~= bodies);
    }
}

/// The bodies that survive a scan are among those scanned, so what holds of
/// every brick scanned holds of every survivor.
pub proof fn lemma_survivors_ok(ball: Ball, bodies: Seq<Body>)
    requires
        forall|i: int| 0 <= i < bodies.len() ==> body_ok(#[trigger] bodies[i]) && bodies[i].collider is Scorable,
    ensures
        forall|i: int| 0 <= i < survivors(ball, bodies).len() ==>
            body_ok(#[trigger] survivors(ball, bodies)[i]) && survivors(ball, bodies)[i].collider is Scorable,
    decreases bodies.len(),
{
    if bodies.len() > 0 {
        let init = bodies.drop_last();
        assert forall|i: int| 0 <= i < init.len() implies body_ok(#[trigger] init[i]) && init[i].collider is Scorable by {
            assert(init[i] == bodies[i]);
        }
        lemma_survivors_ok(ball, init);
        assert(body_ok(bodies[bodies.len() - 1]));
    }
}

/// A scan in which the ball touches exactly one body, the one at index `i`,
/// leaves the velocity reflected off that body's face alone.
pub proof fn lemma_single_contact(ball: Ball, bodies: Seq<Body>, i: int)
    requires
        0 <= i < bodies.len(),
        contact(ball, bodies[i]) is Some,
        forall|j: int| 0 <= j < bodies.len() && j != i ==> contact(ball, #[trigger] bodies[j]) is None,
    ensures
        velocity_after(ball, bodies) == reflected(ball.velocity, contact(ball, bodies[i])->0),
    decreases bodies.len(),
{
    let init = bodies.drop_last();
    if i == bodies.len() - 1 {
        assert forall|j: int| 0 <= j < init.len() implies contact(ball, #[trigger] init[j]) is None by {
            assert(init[j] == bodies[j]);
        }
        lemma_no_contact(ball, init);
    } else {
        assert forall|j: int| 0 <= j < init.len() && j != i implies contact(ball, #[trigger] init[j]) is None by {
            assert(init[j] == bodies[j]);
        }
        assert(init[i] == bodies[i]);
        lemma_single_contact(ball, init, i);
        assert(contact(ball, bodies[bodies.len() - 1]) is None);
    }
}

} // verus!
