//! The ball and one step of its flight: walls, paddles, goals.

use crate::config::GameConfig;
use crate::player::Player;
use vstd::prelude::*;

verus! {

/// The ball: where it is and how far it travels per step along each axis.
/// The velocity is part of the state: the position alone does not say where
/// the ball goes next.
#[derive(Clone, Copy, Debug, PartialEq, Eq)]
pub struct Ball {
    pub x: u16,
    pub y: u16,
    /// Signed distance per step along `x`; negative towards the left goal line.
    pub vx: i32,
    /// Signed distance per step along `y`; negative towards the wall at `0`.
    pub vy: i32,
}

impl Ball {
    /// The ball is inside the playfield and no faster than the parameters allow.
    pub open spec fn wf(&self, config: &GameConfig) -> bool {
        &&& self.x <= config.width
        &&& self.y <= config.height
        &&& -(config.ball_speed as int) <= self.vx <= config.ball_speed
        &&& -(config.max_lift as int) <= self.vy <= config.max_lift
    }

    /// The ball as it is served: at the centre, flying towards the right
    /// goal line with the serve's lift. Every serve is the same.
    pub open spec fn served(config: &GameConfig) -> Ball {
        Ball {
            x: config.center_x() as u16,
            y: config.center_y() as u16,
            vx: config.ball_speed as i32,
            vy: config.serve_lift as i32,
        }
    }

    /// This step takes the ball to the wall at `0`.
    pub open spec fn hits_floor(self) -> bool {
        self.vy < 0 && self.y + self.vy <= 0
    }

    /// This step takes the ball to the wall at `height`.
    pub open spec fn hits_ceiling(self, config: &GameConfig) -> bool {
        self.vy > 0 && self.y + self.vy >= config.height
    }

    /// This step takes the ball to or past the left goal line.
    pub open spec fn reaches_left(self) -> bool {
        self.vx < 0 && self.x + self.vx <= 0
    }

    /// This step takes the ball to or past the right goal line.
    pub open spec fn reaches_right(self, config: &GameConfig) -> bool {
        self.vx > 0 && self.x + self.vx >= config.width
    }

    /// `y` after this step: the ball stops at a wall it reaches.
    pub open spec fn next_y(self, config: &GameConfig) -> int {
        if self.hits_floor() {
            0
        } else if self.hits_ceiling(config) {
            config.height as int
        } else {
            self.y + self.vy
        }
    }

    /// Vertical velocity after the walls had their say: reversed by a wall
    /// the ball reaches, else unchanged.
    pub open spec fn next_vy(self, config: &GameConfig) -> int {
        if self.hits_floor() || self.hits_ceiling(config) {
            -self.vy
        } else {
            self.vy as int
        }
    }

    /// A paddle centred at `paddle` covers `y`.
    pub open spec fn covered(config: &GameConfig, paddle: int, y: int) -> bool {
        paddle - config.paddle_reach <= y <= paddle + config.paddle_reach
    }

    /// What a hit at `offset` from the paddle's centre adds to the vertical
    /// velocity: the offset divided by `deflection`, rounded towards zero.
    /// A hit on the centre adds nothing.
    pub open spec fn nudge(config: &GameConfig, offset: int) -> int {
        if offset >= 0 {
            offset / (config.deflection as int)
        } else {
            -((-offset) / (config.deflection as int))
        }
    }

    /// Vertical velocity after a paddle hit at `offset` from the paddle's
    /// centre: nudged, then held within `max_lift` either way.
    pub open spec fn deflected(config: &GameConfig, vy: int, offset: int) -> int {
        let v = vy + Ball::nudge(config, offset);
        if v > config.max_lift {
            config.max_lift as int
        } else if v < -(config.max_lift as int) {
            -(config.max_lift as int)
        } else {
            v
        }
    }

    /// The side that scores in this step, if any. `left` and `right` are the
    /// paddles' positions. Side 1 scores when the ball reaches the left goal
    /// line where the left paddle does not cover it; side 0 likewise on the
    /// right.
    pub open spec fn goal(self, config: &GameConfig, left: int, right: int) -> Option<usize> {
        if self.reaches_left() && !Ball::covered(config, left, self.next_y(config)) {
            Some(1)
        } else if self.reaches_right(config) && !Ball::covered(
            config,
            right,
            self.next_y(config),
        ) {
            Some(0)
        } else {
            None
        }
    }

    /// The ball after a step in which nobody scores. At a goal line it stops
    /// on the line, turns back and takes the paddle's deflection.
    pub open spec fn flown(self, config: &GameConfig, left: int, right: int) -> Ball {
        let y = self.next_y(config);
        let vy = self.next_vy(config);
        if self.reaches_left() {
            Ball { x: 0, y: y as u16, vx: (-self.vx) as i32, vy: Ball::deflected(config, vy, y - left) as i32 }
        } else if self.reaches_right(config) {
            Ball {
                x: config.width,
                y: y as u16,
                vx: (-self.vx) as i32,
                vy: Ball::deflected(config, vy, y - right) as i32,
            }
        } else {
            Ball { x: (self.x + self.vx) as u16, y: y as u16, vx: self.vx, vy: vy as i32 }
        }
    }

    /// A ball at rest in the corner of the field, as it is before the first serve.
    pub fn new() -> (ball: Ball)
        ensures
            ball == (Ball { x: 0, y: 0, vx: 0, vy: 0 }),
    {
        Ball { x: 0, y: 0, vx: 0, vy: 0 }
    }

    /// Serves the ball.
    pub fn reset(&mut self, config: &GameConfig)
        ensures
            *final(self) == Ball::served(config),
            config.wf() ==> final(self).wf(config),
    {
        self.x = config.width / 2;
        self.y = config.height / 2;
        self.vx = config.ball_speed as i32;
        self.vy = config.serve_lift as i32;
    }

    /// Whether a paddle centred at `paddle` covers `y`.
    pub fn covers(config: &GameConfig, paddle: u16, y: u16) -> (hit: bool)
        ensures
            hit == Ball::covered(config, paddle as int, y as int),
    {
        let offset: i32 = y as i32 - paddle as i32;
        let reach: i32 = config.paddle_reach as i32;
        -reach <= offset && offset <= reach
    }

    /// Vertical velocity after a paddle centred at `paddle` hit the ball at `y`.
    pub fn deflect(config: &GameConfig, vy: i32, paddle: u16, y: u16) -> (lift: i32)
        requires
            config.wf(),
            -(config.max_lift as int) <= vy <= config.max_lift,
        ensures
            lift == Ball::deflected(config, vy as int, y as int - paddle as int),
            -(config.max_lift as int) <= lift <= config.max_lift,
    {
        let offset: i32 = y as i32 - paddle as i32;
        let divisor: i32 = config.deflection as i32;
        let nudge: i32 = if offset >= 0 {
            offset / divisor
        } else {
            -((-offset) / divisor)
        };
        let lifted: i32 = vy + nudge;
        let limit: i32 = config.max_lift as i32;
        if lifted > limit {
            limit
        } else if lifted < -limit {
            -limit
        } else {
            lifted
        }
    }

    /// Advances the ball by one step against the two paddles.
    ///
    /// Returns the side that scored, if one did. A goal counts for that
    /// side, serves the ball anew and centres both paddles, all at once.
    /// Without a goal only the ball changes.
    pub fn update(
        &mut self,
        config: &GameConfig,
        players: &mut [Player; 2],
        score: &mut [u8; 2],
    ) -> (goal: Option<usize>)
        requires
            config.wf(),
            old(self).wf(config),
            old(score)[0] < u8::MAX,
            old(score)[1] < u8::MAX,
        ensures
            goal == old(self).goal(
                config,
                old(players)[0].position as int,
                old(players)[1].position as int,
            ),
            final(self).wf(config),
            match goal {
                Some(side) => {
                    &&& side < 2
                    &&& *final(self) == Ball::served(config)
                    &&& final(players)@ == seq![
                        old(players)[0].centered(config),
                        old(players)[1].centered(config),
                    ]
                    &&& final(score)@ == old(score)@.update(
                        side as int,
                        (old(score)[side as int] + 1) as u8,
                    )
                },
                None => {
                    &&& *final(self) == old(self).flown(
                        config,
                        old(players)[0].position as int,
                        old(players)[1].position as int,
                    )
                    &&& *final(players) == *old(players)
                    &&& *final(score) == *old(score)
                },
            },
    {
        let y0: i32 = self.y as i32;
        let x0: i32 = self.x as i32;
        let height: i32 = config.height as i32;
        let width: i32 = config.width as i32;
        let (y, vy): (i32, i32) = if self.vy < 0 && y0 + self.vy <= 0 {
            (0, -self.vy)
        } else if self.vy > 0 && y0 + self.vy >= height {
            (height, -self.vy)
        } else {
            (y0 + self.vy, self.vy)
        };
        let at_left: bool = self.vx < 0 && x0 + self.vx <= 0;
        let at_right: bool = self.vx > 0 && x0 + self.vx >= width;
        if at_left || at_right {
            let keeper: usize = if at_left { 0 } else { 1 };
            let paddle: u16 = players[keeper].position;
            if Ball::covers(config, paddle, y as u16) {
                self.x = if at_left { 0 } else { config.width };
                self.y = y as u16;
                self.vx = -self.vx;
                self.vy = Ball::deflect(config, vy, paddle, y as u16);
                None
            } else {
                let side: usize = 1 - keeper;
                score[side] = score[side] + 1;
                self.reset(config);
                players[0].reset(config);
                players[1].reset(config);
                Some(side)
            }
        } else {
            self.x = (x0 + self.vx) as u16;
            self.y = y as u16;
            self.vy = vy;
            None
        }
    }
}

} // verus!
