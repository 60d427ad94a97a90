//! Fixed simulation parameters of a match.

use vstd::prelude::*;

verus! {

/// Simulation parameters. A match reads them and never changes them.
///
/// Coordinates are integers: `x` runs from the left goal line (`0`) to the
/// right goal line (`width`), `y` from one wall (`0`) to the other (`height`).
#[derive(Clone, Copy, Debug, PartialEq, Eq)]
pub struct GameConfig {
    /// Delay between two simulation steps, in milliseconds.
    pub tick_interval_ms: u64,
    /// Serve delay before a rally starts, in seconds.
    pub countdown_secs: u64,
    /// Distance between the two goal lines.
    pub width: u16,
    /// Distance between the two walls.
    pub height: u16,
    /// Distance a paddle travels in one step while its player holds a direction.
    pub paddle_speed: u16,
    /// Half the height of a paddle: it covers every `y` at most this far from its position.
    pub paddle_reach: u16,
    /// Horizontal distance the ball travels in one step.
    pub ball_speed: u16,
    /// Vertical distance per step that a served ball starts with.
    pub serve_lift: u16,
    /// Largest vertical distance per step the ball can ever have.
    pub max_lift: u16,
    /// A paddle hit adds the hit's offset from the paddle's centre, divided
    /// by this, to the ball's vertical distance per step.
    pub deflection: u16,
    /// Score at which a side wins the match.
    pub winning_score: u8,
}

impl GameConfig {
    /// What every match relies on: the ball moves, a serve is a legal
    /// velocity, the deflection divisor is not zero and a match can be won.
    pub open spec fn wf(&self) -> bool {
        &&& self.ball_speed >= 1
        &&& self.serve_lift <= self.max_lift
        &&& self.deflection >= 1
        &&& self.winning_score >= 1
    }

    /// The parameters every match starts from.
    pub open spec fn standard() -> GameConfig {
        GameConfig {
            tick_interval_ms: 5,
            countdown_secs: 3,
            width: 10000,
            height: 10000,
            paddle_speed: 50,
            paddle_reach: 500,
            ball_speed: 50,
            serve_lift: 25,
            max_lift: 100,
            deflection: 10,
            winning_score: 3,
        }
    }

    /// `x` of the serve position.
    pub open spec fn center_x(&self) -> int {
        self.width as int / 2
    }

    /// `y` of the serve position, for the ball and for both paddles.
    pub open spec fn center_y(&self) -> int {
        self.height as int / 2
    }

    /// The standard parameters: a 10000 by 10000 field, a step every 5 ms,
    /// a 3 second serve delay, first to 3 wins.
    pub fn new() -> (config: GameConfig)
        ensures
            config == GameConfig::standard(),
            config.wf(),
    {
        GameConfig {
            tick_interval_ms: 5,
            countdown_secs: 3,
            width: 10000,
            height: 10000,
            paddle_speed: 50,
            paddle_reach: 500,
            ball_speed: 50,
            serve_lift: 25,
            max_lift: 100,
            deflection: 10,
            winning_score: 3,
        }
    }

    /// Whether the parameters can run a match.
    pub fn is_valid(&self) -> (valid: bool)
        ensures
            valid == self.wf(),
    {
        self.ball_speed >= 1 && self.serve_lift <= self.max_lift && self.deflection >= 1
            && self.winning_score >= 1
    }
}

} // verus!
