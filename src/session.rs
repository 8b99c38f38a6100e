use vstd::prelude::*;
use crate::geometry::{collide, reflect, size_ok, spec_collide, within, Vec2, ARENA_COORD, MAX_DELTA, MAX_SPEED};
use crate::gameplay::{
    ball_boundary_system, ball_collision_system, ball_movement_system, body_ok, bounded_ball,
    clamp, contact, destroyed_ids, initial_pause_check, lemma_no_contact, direction, paddle_movement_system, setup_ball_and_paddle,
    start_ball, start_paddle, survivors, velocity_after, Ball, Body, BrandNewLevel, Collider,
    Input, LifeEvent, Paddle, Score, BALL_X_LIMIT, BALL_Y_LIMIT, PADDLE_HEIGHT, PADDLE_LIMIT,
    PADDLE_WIDTH,
};
use crate::level::{
    add_bricks, bricks_of, catalog_ok, lemma_bricks_of, scorable_count, Level, MAX_GRID,
};
use crate::state::{GameState, StateStack};

verus! {

/// Id of the paddle among the bodies the ball can touch.
pub const PADDLE_ID: u64 = 18_446_744_073_709_551_615;

/// Sprite of the paddle.
pub const PADDLE_SPRITE: usize = 1;

/// What one step of play did.
pub struct TickReport {
    /// The ball was lost during the step, and how that ended.
    pub life: Option<LifeEvent>,
    /// Ids of the bricks destroyed, in order.
    pub destroyed: Vec<u64>,
    /// The points after the bricks destroyed were counted.
    pub points: u64,
    /// The last brick went, and play moved to the next level.
    pub level_cleared: bool,
    /// The pause overlay came up.
    pub paused: bool,
}

/// A play-through: the catalog of levels, the score, the stack of states,
/// and the ball, paddle and bricks of the level in play.
pub struct Session {
    pub levels: Vec<Level>,
    pub score: Score,
    pub states: StateStack,
    pub ball: Ball,
    pub paddle: Paddle,
    pub bricks: Vec<Body>,
    pub brand_new: BrandNewLevel,
}

/// The paddle as a body the ball can touch.
pub open spec fn paddle_body(p: Paddle) -> Body {
    Body {
        id: PADDLE_ID,
        position: p.position,
        collider: Collider::Paddle { size: Vec2 { x: PADDLE_WIDTH, y: PADDLE_HEIGHT } },
        sprite: PADDLE_SPRITE,
    }
}

/// The ball after moving by its velocity for `dt` milliseconds.
pub open spec fn moved_ball(b: Ball, dt: u64) -> Ball {
    Ball {
        position: Vec2 {
            x: (b.position.x + b.velocity.x * dt) as i64,
            y: (b.position.y + b.velocity.y * dt) as i64,
        },
        ..b
    }
}

/// The paddle after moving for `dt` milliseconds as `input` directs, held
/// between the walls.
pub open spec fn moved_paddle(p: Paddle, input: Input, dt: u64) -> Paddle {
    Paddle {
        position: Vec2 {
            x: clamp(p.position.x + direction(input) * p.speed * dt, -PADDLE_LIMIT as int, PADDLE_LIMIT as int) as i64,
            y: p.position.y,
        },
        speed: p.speed,
    }
}

/// The ball touches neither a brick nor the paddle.
pub open spec fn no_contact(s: Session) -> bool {
    &&& forall|i: int| 0 <= i < s.bricks@.len() ==> contact(s.ball, #[trigger] s.bricks@[i]) is None
    &&& contact(s.ball, paddle_body(s.paddle)) is None
}

/// The stack of states holds one of the screens, or a level under its pause
/// overlay.
pub open spec fn stack_ok(s: Seq<GameState>) -> bool {
    ||| s == seq![GameState::MainMenu]
    ||| s == seq![GameState::GameOver]
    ||| s == seq![GameState::Level]
    ||| s == seq![GameState::Level, GameState::PauseMenu]
}

/// The ball lies between the walls, with a velocity that collision tests accept.
pub open spec fn ball_in_field(b: Ball) -> bool {
    &&& -BALL_X_LIMIT <= b.position.x <= BALL_X_LIMIT
    &&& -BALL_Y_LIMIT <= b.position.y <= BALL_Y_LIMIT
    &&& within(b.velocity, MAX_SPEED as int)
    &&& size_ok(b.size)
}

/// The paddle lies between the walls.
pub open spec fn paddle_in_field(p: Paddle) -> bool {
    &&& -PADDLE_LIMIT <= p.position.x <= PADDLE_LIMIT
    &&& -ARENA_COORD <= p.position.y <= ARENA_COORD
    &&& 0 <= p.speed <= MAX_SPEED
}

/// What a session holds after the level at `score.current_level` was
/// entered with `score`: the bricks of that level, none of them hit, with no
/// points yet, behind the ready overlay; or, past the last level, the
/// game-over screen with the score kept as it was.
pub open spec fn level_entered(s: Session, score: Score) -> bool {
    &&& s.ball == start_ball()
    &&& s.paddle == start_paddle()
    &&& if score.current_level >= s.levels@.len() {
        &&& s.states@ == seq![GameState::GameOver]
        &&& s.bricks@.len() == 0
        &&& s.score == score
        &&& !s.brand_new.0
    } else {
        &&& s.states@ == seq![GameState::Level]
        &&& s.bricks@ == bricks_of(s.levels@[score.current_level as int])
        &&& s.score == (Score { points: 0, bricks_left: scorable_count(s.bricks@) as usize, ..score })
        &&& s.brand_new.0
    }
}

impl Session {
    /// A level is in play, running or paused.
    pub open spec fn in_level(&self) -> bool {
        self.states@[0] == GameState::Level
    }

    /// A level is in play and running.
    pub open spec fn active(&self) -> bool {
        self.states@ == seq![GameState::Level]
    }

    /// The invariant of a session.
    pub open spec fn wf(&self) -> bool {
        &&& catalog_ok(self.levels@)
        &&& self.states.wf()
        &&& stack_ok(self.states@)
        &&& ball_in_field(self.ball)
        &&& paddle_in_field(self.paddle)
        &&& forall|i: int| 0 <= i < self.bricks@.len() ==>
            body_ok(#[trigger] self.bricks@[i]) && self.bricks@[i].collider is Scorable
        &&& self.in_level() ==> self.score.bricks_left == self.bricks@.len()
        &&& self.score.points + self.bricks@.len() <= MAX_GRID * MAX_GRID
        &&& self.score.lives >= 0
        &&& self.in_level() ==> self.score.lives >= 1 && self.score.current_level < self.levels@.len()
            && self.bricks@.len() > 0
    }

    /// A session on the main menu, with a catalog of levels that can be played.
    pub fn new(levels: Vec<Level>) -> (r: Session)
        requires
            catalog_ok(levels@),
        ensures
            r.wf(),
            r.levels@ == levels@,
            r.states@ == seq![GameState::MainMenu],
            r.ball == start_ball(),
            r.paddle == start_paddle(),
            r.bricks@.len() == 0,
            !r.brand_new.0,
            r.score == (Score { current_level: 0, bricks_left: 0, points: 0, lives: crate::gameplay::START_LIVES }),
    {
        let (ball, paddle) = setup_ball_and_paddle();
        Session {
            levels,
            score: Score::new(),
            states: StateStack::new(GameState::MainMenu),
            ball,
            paddle,
            bricks: Vec::new(),
            brand_new: BrandNewLevel(false),
        }
    }

    /// Sets up the level at `score.current_level`, or the game-over screen
    /// past the last level: the level's bricks, all to be destroyed, with the
    /// ball and paddle at their start, behind the ready overlay.
    pub fn setup_level(&mut self)
        requires
            old(self).states.wf(),
            old(self).states@ == seq![GameState::Level],
            catalog_ok(old(self).levels@),
            old(self).score.lives >= 1,
            old(self).score.points <= MAX_GRID * MAX_GRID,
        ensures
            final(self).wf(),
            final(self).levels@ == old(self).levels@,
            level_entered(*final(self), old(self).score),
            old(self).score.current_level >= old(self).levels@.len() ==> final(self).score == old(self).score
                && final(self).states@ == seq![GameState::GameOver],
            old(self).score.current_level < old(self).levels@.len() ==> {
                let lv = old(self).levels@[old(self).score.current_level as int];
                &&& final(self).score.bricks_left == scorable_count(bricks_of(lv))
                &&& scorable_count(bricks_of(lv)) == bricks_of(lv).len()
                &&& final(self).score.bricks_left > 0
            },
    {
        let (ball, paddle) = setup_ball_and_paddle();
        self.ball = ball;
        self.paddle = paddle;
        if self.score.current_level >= self.levels.len() {
            let _ = self.states.set(GameState::GameOver);
            self.bricks = Vec::new();
            self.brand_new = BrandNewLevel(false);
            proof {
                assert(self.states@ =~= seq![GameState::GameOver]);
            }
        } else {
            let bricks = add_bricks(&self.levels[self.score.current_level]);
            proof {
                let lv = self.levels@[self.score.current_level as int];
                assert(crate::level::level_ok(lv));
                lemma_bricks_of(lv);
            }
            self.score.bricks_left = bricks.len();
            self.score.points = 0;
            self.bricks = bricks;
            self.brand_new = BrandNewLevel(true);
        }
    }

    /// Start on the main menu: a fresh score and the first level.
    pub fn start_game(&mut self)
        requires
            old(self).wf(),
            old(self).states@ == seq![GameState::MainMenu],
        ensures
            final(self).wf(),
            final(self).levels@ == old(self).levels@,
            level_entered(*final(self), Score { current_level: 0, bricks_left: 0, points: 0, lives: crate::gameplay::START_LIVES }),
    {
        self.score = Score::new();
        let _ = self.states.set(GameState::Level);
        proof {
            assert(self.states@ =~= seq![GameState::Level]);
        }
        self.setup_level();
    }

    /// Any key on the pause overlay: back to the level below it.
    pub fn resume(&mut self)
        requires
            old(self).wf(),
            old(self).states@ == seq![GameState::Level, GameState::PauseMenu],
        ensures
            final(self).wf(),
            final(self).states@ == seq![GameState::Level],
            final(self).levels@ == old(self).levels@,
            final(self).score == old(self).score,
            final(self).ball == old(self).ball,
            final(self).paddle == old(self).paddle,
            final(self).bricks@ == old(self).bricks@,
            final(self).brand_new == old(self).brand_new,
    {
        let _ = self.states.pop();
        proof {
            assert(self.states@ =~= seq![GameState::Level]);
        }
    }

    /// Back on the game-over screen: return to the main menu.
    pub fn back_to_menu(&mut self)
        requires
            old(self).wf(),
            old(self).states@ == seq![GameState::GameOver],
        ensures
            final(self).wf(),
            final(self).states@ == seq![GameState::MainMenu],
            final(self).levels@ == old(self).levels@,
            final(self).score == old(self).score,
            final(self).bricks@ == old(self).bricks@,
            final(self).ball == old(self).ball,
            final(self).paddle == old(self).paddle,
            final(self).brand_new == old(self).brand_new,
    {
        let _ = self.states.set(GameState::MainMenu);
        proof {
            assert(self.states@ =~= seq![GameState::MainMenu]);
        }
    }
}

impl Session {
    /// One step of play of `dt` milliseconds. Outside a running level nothing
    /// happens. A level just entered brings up the ready overlay instead of a
    /// step; a press of the pause key moves the paddle and brings up the pause
    /// overlay, and the ball waits. Otherwise the ball moves, the
    /// paddle moves as `input` directs, the walls act on the ball, and a ball
    /// below the floor costs a life; else the ball bounces off each brick it
    /// touches and then off the paddle, destroying the bricks, and once the
    /// last brick goes the next level is entered.
    #[verifier::rlimit(50)]
    pub fn tick(&mut self, input: Input, dt: u64) -> (r: TickReport)
        requires
            old(self).wf(),
            dt <= MAX_DELTA,
        ensures
            final(self).wf(),
            final(self).levels@ == old(self).levels@,
            // a life is lost exactly when the report says so, one at a time
            final(self).score.lives == old(self).score.lives - (if r.life is Some { 1int } else { 0int }),
            r.life == Some(LifeEvent::Exhausted) ==> final(self).score.lives == 0
                && final(self).states@ == seq![GameState::MainMenu],
            r.life == Some(LifeEvent::Lost) ==> final(self).score.lives >= 1,
            r.level_cleared ==> final(self).score.current_level == old(self).score.current_level + 1,
            !r.level_cleared ==> final(self).score.current_level == old(self).score.current_level,
            // with no time passing and nothing touched, nothing moves or scores
            dt == 0 && no_contact(*old(self)) ==> final(self).ball == old(self).ball
                && final(self).paddle == old(self).paddle
                && final(self).score == old(self).score
                && final(self).bricks@ == old(self).bricks@,
            !old(self).active() ==> *final(self) == *old(self) && r.life is None && !r.paused
                && !r.level_cleared && r.destroyed@.len() == 0,
            old(self).active() && old(self).brand_new.0 ==> {
                &&& final(self).states@ == old(self).states@.push(GameState::PauseMenu)
                &&& !final(self).brand_new.0
                &&& final(self).ball == old(self).ball
                &&& final(self).paddle == old(self).paddle
                &&& final(self).score == old(self).score
                &&& final(self).bricks@ == old(self).bricks@
                &&& r.paused && r.life is None && !r.level_cleared && r.destroyed@.len() == 0
            },
            old(self).active() && !old(self).brand_new.0 && input.pause ==> {
                &&& final(self).states@ == old(self).states@.push(GameState::PauseMenu)
                &&& !final(self).brand_new.0
                &&& final(self).ball == old(self).ball
                &&& final(self).paddle == moved_paddle(old(self).paddle, input, dt)
                &&& final(self).score == old(self).score
                &&& final(self).bricks@ == old(self).bricks@
                &&& r.paused && r.life is None && !r.level_cleared && r.destroyed@.len() == 0
            },
            old(self).active() && !old(self).brand_new.0 && !input.pause ==> {
                let b1 = moved_ball(old(self).ball, dt);
                let b2 = bounded_ball(b1);
                let p1 = moved_paddle(old(self).paddle, input, dt);
                &&& !r.paused
                &&& if b1.position.y < -BALL_Y_LIMIT {
                    &&& r.life == Some(if old(self).score.lives <= 1 { LifeEvent::Exhausted } else { LifeEvent::Lost })
                    &&& !r.level_cleared && r.destroyed@.len() == 0
                    &&& final(self).ball == start_ball()
                    &&& final(self).paddle == start_paddle()
                    &&& r.life == Some(LifeEvent::Exhausted) ==> {
                        &&& final(self).bricks@.len() == 0
                        &&& final(self).score == (Score {
                            lives: (old(self).score.lives - 1) as i32,
                            ..old(self).score
                        })
                    }
                    &&& r.life == Some(LifeEvent::Lost) ==> {
                        &&& final(self).states@ == seq![GameState::Level, GameState::PauseMenu]
                        &&& final(self).bricks@ == old(self).bricks@
                        &&& final(self).score == (Score { lives: (old(self).score.lives - 1) as i32, ..old(self).score })
                        &&& final(self).brand_new == old(self).brand_new
                    }
                } else {
                    &&& r.life is None
                    &&& r.destroyed@ == destroyed_ids(b2, old(self).bricks@)
                    &&& r.points == old(self).score.points + r.destroyed@.len()
                    &&& r.level_cleared == (r.destroyed@.len() == old(self).bricks@.len())
                    &&& r.level_cleared ==> level_entered(
                        *final(self),
                        Score {
                            current_level: (old(self).score.current_level + 1) as usize,
                            bricks_left: 0,
                            points: r.points,
                            lives: old(self).score.lives,
                        },
                    )
                    &&& !r.level_cleared ==> {
                        &&& final(self).ball == (Ball {
                            velocity: velocity_after(b2, old(self).bricks@.push(paddle_body(p1))),
                            ..b2
                        })
                        &&& final(self).paddle == p1
                        &&& final(self).bricks@ == survivors(b2, old(self).bricks@)
                        &&& final(self).score == (Score {
                            points: r.points,
                            bricks_left: final(self).bricks@.len() as usize,
                            ..old(self).score
                        })
                        &&& final(self).states@ == old(self).states@
                        &&& final(self).brand_new == old(self).brand_new
                    }
                }
            },
    {
        let mut report = TickReport {
            life: None,
            destroyed: Vec::new(),
            points: self.score.points,
            level_cleared: false,
            paused: false,
        };
        if self.states.depth() != 1 || self.states.current() != GameState::Level {
            proof {
                if self.states@.len() == 1 {
                    assert(self.states@ != seq![GameState::Level]);
                }
            }
            return report;
        }
        proof {
            assert(self.states@ =~= seq![GameState::Level]);
        }
        if self.brand_new.0 {
            initial_pause_check(&mut self.states, &mut self.brand_new);
            proof {
                assert(self.states@ =~= seq![GameState::Level, GameState::PauseMenu]);
            }
            report.paused = true;
            return report;
        }
        let ghost s0 = *self;
        if input.pause {
            paddle_movement_system(&mut self.paddle, input, &mut self.states, dt);
            proof {
                assert(self.states@ =~= seq![GameState::Level, GameState::PauseMenu]);
            }
            report.paused = true;
            return report;
        }
        ball_movement_system(&mut self.ball, dt);
        paddle_movement_system(&mut self.paddle, input, &mut self.states, dt);
        let life = ball_boundary_system(&mut self.ball, &mut self.states, &mut self.score);
        if let Some(ev) = life {
            report.life = Some(ev);
            let (ball, paddle) = setup_ball_and_paddle();
            self.ball = ball;
            self.paddle = paddle;
            match ev {
                LifeEvent::Exhausted => {
                    self.bricks = Vec::new();
                    proof {
                        assert(self.states@ =~= seq![GameState::MainMenu]);
                    }
                },
                LifeEvent::Lost => {
                    proof {
                        assert(self.states@ =~= seq![GameState::Level, GameState::PauseMenu]);
                    }
                },
            }
            return report;
        }
        let ghost b2 = self.ball;
        let ghost bricks0 = self.bricks@;
        assert(self.score.current_level < self.levels.len());
        let scan = ball_collision_system(&mut self.ball, &mut self.bricks, &mut self.score);
        let paddle_size = Vec2 { x: PADDLE_WIDTH, y: PADDLE_HEIGHT };
        if let Some(face) = collide(self.ball.position, self.ball.size, self.paddle.position, paddle_size) {
            self.ball.velocity = reflect(self.ball.velocity, face);
        }
        proof {
            let pb = paddle_body(self.paddle);
            assert(bricks0.push(pb).drop_last() =~= bricks0);
            assert(contact(b2, pb) == spec_collide(b2.position, b2.size, self.paddle.position, paddle_size));
            crate::gameplay::lemma_survivors_ok(b2, bricks0);
            crate::gameplay::lemma_destroyed_count(b2, bricks0);
        }
        report.destroyed = scan.destroyed;
        report.points = self.score.points;
        if scan.level_cleared {
            report.level_cleared = true;
            self.setup_level();
        }
        proof {
            if dt == 0 && no_contact(s0) {
                lemma_no_contact(s0.ball, s0.bricks@.push(paddle_body(s0.paddle)));
                lemma_no_contact(s0.ball, s0.bricks@);
            }
        }
        report
    }
}

/// A level that can be played, once entered, leaves as many bricks to
/// destroy as it lays out, and every one of them is a brick.
pub proof fn lemma_level_start_count(s: Session, score: Score)
    requires
        s.wf(),
        score.current_level < s.levels@.len(),
        level_entered(s, score),
    ensures
        s.score.bricks_left == scorable_count(bricks_of(s.levels@[score.current_level as int])),
        scorable_count(bricks_of(s.levels@[score.current_level as int]))
            == bricks_of(s.levels@[score.current_level as int]).len(),
        s.score.bricks_left > 0,
{
    let lv = s.levels@[score.current_level as int];
    assert(crate::level::level_ok(lv));
    lemma_bricks_of(lv);
}

} // verus!
