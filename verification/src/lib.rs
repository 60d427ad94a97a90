//! Authoritative session engine for a two-player Pong match.
//!
//! A [`Pong`] owns the state of one match. It is driven by events, one at
//! a time, and answers each with the actions its surroundings are to carry
//! out: frames to send, timers to set, the outcome to record and report.

pub mod ball;
pub mod config;
pub mod event;
pub mod frame;
pub mod laws;
pub mod player;
pub mod pong;
pub mod router;
pub mod scheduler;
pub mod session;

pub use crate::ball::Ball;
pub use crate::config::GameConfig;
pub use crate::event::{
    Action, CountDown, Event, GameMode, GameOver, GameResult, GameStart, PlayerInput,
    RoundResult, Stop, Tick, UpdateScore,
};
pub use crate::frame::Frame;
pub use crate::player::{Input, Player, UserId};
pub use crate::pong::Pong;
pub use crate::scheduler::{TickScheduler, Wait};
pub use crate::session::{Phase, Session};
