//! One side of a match: who plays it, where the paddle is, what was last asked of it.

use crate::config::GameConfig;
use vstd::prelude::*;

verus! {

/// Identifies a player within the surrounding system.
pub type UserId = usize;

/// What a player asks of the paddle. The last one received stays in force
/// until the next one arrives.
#[derive(Clone, Copy, Debug, PartialEq, Eq)]
pub enum Input {
    /// Move towards `height`.
    Up,
    /// Move towards `0`.
    Down,
    /// Stay.
    Neutral,
}

impl Input {
    /// The command each character stands for: `u`, `d` and `n`; no other
    /// character is a command.
    pub open spec fn parse(cmd: char) -> Option<Input> {
        if cmd == 'u' {
            Some(Input::Up)
        } else if cmd == 'd' {
            Some(Input::Down)
        } else if cmd == 'n' {
            Some(Input::Neutral)
        } else {
            None
        }
    }

    /// Reads a one-character command; `None` for a character that is none.
    pub fn from_char(cmd: char) -> (input: Option<Input>)
        ensures
            input == Input::parse(cmd),
    {
        if cmd == 'u' {
            Some(Input::Up)
        } else if cmd == 'd' {
            Some(Input::Down)
        } else if cmd == 'n' {
            Some(Input::Neutral)
        } else {
            None
        }
    }
}

/// A player's record in a match.
#[derive(Clone, Copy, Debug, PartialEq, Eq)]
pub struct Player {
    pub id: UserId,
    /// Centre of the paddle along the `y` axis.
    pub position: u16,
    pub last_input: Input,
}

impl Player {
    /// The paddle is inside the playfield.
    pub open spec fn inside(&self, config: &GameConfig) -> bool {
        self.position <= config.height
    }

    /// Where a paddle at `position` is after one step under `input`: it
    /// travels `paddle_speed` in the direction held, stays where it is under
    /// a neutral input, and never leaves the playfield.
    pub open spec fn slide(position: int, input: Input, config: &GameConfig) -> int {
        let target = match input {
            Input::Up => position + config.paddle_speed,
            Input::Down => position - config.paddle_speed,
            Input::Neutral => position,
        };
        if target <= 0 {
            0
        } else if target >= config.height {
            config.height as int
        } else {
            target
        }
    }

    /// The player after one step.
    pub open spec fn moved(self, config: &GameConfig) -> Player {
        Player {
            position: Player::slide(self.position as int, self.last_input, config) as u16,
            ..self
        }
    }

    /// The player with the paddle back at the serve position.
    pub open spec fn centered(self, config: &GameConfig) -> Player {
        Player { position: config.center_y() as u16, ..self }
    }

    /// A player who has not moved or asked for anything yet.
    pub fn new(id: UserId) -> (player: Player)
        ensures
            player == (Player { id, position: 0, last_input: Input::Neutral }),
    {
        Player { id, position: 0, last_input: Input::Neutral }
    }

    /// Puts the paddle at the serve position. The last input stays in force.
    pub fn reset(&mut self, config: &GameConfig)
        ensures
            *final(self) == old(self).centered(config),
            final(self).inside(config),
    {
        self.position = config.height / 2;
    }

    /// Moves the paddle by one step. Wherever it was, it is inside the
    /// playfield afterwards.
    pub fn update(&mut self, config: &GameConfig)
        ensures
            *final(self) == old(self).moved(config),
            final(self).inside(config),
    {
        let target: i32 = match self.last_input {
            Input::Up => self.position as i32 + config.paddle_speed as i32,
            Input::Down => self.position as i32 - config.paddle_speed as i32,
            Input::Neutral => self.position as i32,
        };
        if target <= 0 {
            self.position = 0;
        } else if target >= config.height as i32 {
            self.position = config.height;
        } else {
            self.position = target as u16;
        }
    }
}

} // verus!
