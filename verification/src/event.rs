//! What a session is told, and what it asks of its surroundings in return.
//!
//! A session performs no effect itself. Handling an event changes the
//! session and yields a list of actions; whoever runs the session carries
//! them out, in order, and delivers the events that result.

use crate::frame::Frame;
use crate::player::{Player, UserId};
use vstd::prelude::*;

verus! {

/// The simulation clock fired.
#[derive(Clone, Copy, Debug, PartialEq, Eq)]
pub struct Tick;

/// A player sent a command.
#[derive(Clone, Copy, Debug, PartialEq, Eq)]
pub struct PlayerInput {
    pub id: UserId,
    pub cmd: char,
}

/// A goal was scored by `side` (0 is the left side, 1 the right).
#[derive(Clone, Copy, Debug, PartialEq, Eq)]
pub struct UpdateScore {
    pub side: usize,
}

/// The serve delay begins.
#[derive(Clone, Copy, Debug, PartialEq, Eq)]
pub struct CountDown;

/// The serve delay has elapsed.
#[derive(Clone, Copy, Debug, PartialEq, Eq)]
pub struct GameStart;

/// The match has been decided.
#[derive(Clone, Copy, Debug, PartialEq, Eq)]
pub struct GameOver;

/// Any one of the events a session handles.
#[derive(Clone, Copy, Debug, PartialEq, Eq)]
pub enum Event {
    Tick(Tick),
    PlayerInput(PlayerInput),
    UpdateScore(UpdateScore),
    CountDown(CountDown),
    GameStart(GameStart),
    GameOver(GameOver),
}

/// Who started the match and therefore hears how it ended.
#[derive(Clone, Copy, Debug, PartialEq, Eq)]
pub enum GameMode {
    /// Two players paired directly.
    Direct,
    /// The matchmaking queue.
    Matchmaking,
    /// A tournament bracket.
    Tournament,
}

/// Outcome of a match, by player id.
#[derive(Clone, Copy, Debug, PartialEq, Eq)]
pub struct GameResult {
    pub looser: UserId,
    pub winner: UserId,
}

/// Outcome of a tournament round. The winner comes as the full record,
/// since the bracket seats that player again.
#[derive(Clone, Copy, Debug, PartialEq, Eq)]
pub struct RoundResult {
    pub winner: Player,
    pub looser: UserId,
}

/// Tells the connection of player `id` that the player is out.
#[derive(Clone, Copy, Debug, PartialEq, Eq)]
pub struct Stop {
    pub id: UserId,
}

/// One thing a session asks of its surroundings.
#[derive(Clone, Copy, Debug, PartialEq, Eq)]
pub enum Action {
    /// Send `frame` to the player on `side`.
    Send { side: usize, frame: Frame },
    /// Send the frame to both players.
    Broadcast(Frame),
    /// Deliver the event to this session, ahead of anything that arrives later.
    Notify(Event),
    /// Deliver a `Tick` after `millis` milliseconds.
    TickAfter { millis: u64 },
    /// Deliver a `GameStart` after `secs` seconds.
    GameStartAfter { secs: u64 },
    /// Record the match in the store. A failure there is reported and
    /// otherwise ignored: the actions that follow are carried out all the same.
    Persist { winner: UserId, looser: UserId },
    /// Send the outcome to the coordinator the match was started by.
    ReportGame(GameResult),
    /// Send the outcome to the tournament the match was started by.
    ReportRound(RoundResult),
    /// Send the notice to the connection of the player it names.
    Eliminate(Stop),
}

} // verus!
