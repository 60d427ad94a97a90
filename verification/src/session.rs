//! The match as a state machine: every state a session can be in, and what
//! each event makes of it.
//!
//! Everything here is ghost code. `Pong` is the running session; its view
//! is a `Session`, and its handlers are held to the transitions below.

use crate::ball::Ball;
use crate::config::GameConfig;
use crate::event::{
    Action, CountDown, Event, GameMode, GameOver, PlayerInput, UpdateScore,
};
use crate::frame::Frame;
use crate::player::{Input, Player, UserId};
use crate::router::routed;
use vstd::prelude::*;

verus! {

/// Stage of a match.
#[derive(Clone, Copy, Debug, PartialEq, Eq)]
pub enum Phase {
    /// Waiting out the serve delay; the simulation stands still.
    Countdown,
    /// The rally is on; every tick advances the simulation.
    Playing,
    /// A side has won; nothing moves any more.
    GameOver,
}

/// The whole state of a match.
pub struct Session {
    /// The left player, then the right one.
    pub players: Seq<Player>,
    /// Goals of the left side, then of the right side.
    pub score: Seq<u8>,
    pub ball: Ball,
    pub config: GameConfig,
    pub phase: Phase,
    pub mode: GameMode,
    /// The outcome has been handed to the router.
    pub reported: bool,
}

impl Session {
    /// What holds of a session at all times.
    ///
    /// There are two players and two scores, and the ball is inside the
    /// playfield. No score is past the winning score and at most one side
    /// has reached it. The match is over exactly when a side has reached it,
    /// and an outcome is reported only of a match that is over.
    pub open spec fn wf(self) -> bool {
        &&& self.config.wf()
        &&& self.players.len() == 2
        &&& self.score.len() == 2
        &&& self.ball.wf(&self.config)
        &&& self.score[0] <= self.config.winning_score
        &&& self.score[1] <= self.config.winning_score
        &&& !(self.score[0] == self.config.winning_score && self.score[1]
            == self.config.winning_score)
        &&& (self.phase is GameOver <==> self.decided())
        &&& (self.reported ==> self.phase is GameOver)
    }

    /// Both paddles are inside the playfield.
    pub open spec fn paddles_inside(self) -> bool {
        self.players[0].inside(&self.config) && self.players[1].inside(&self.config)
    }

    /// A side has reached the winning score.
    pub open spec fn decided(self) -> bool {
        self.score[0] >= self.config.winning_score || self.score[1] >= self.config.winning_score
    }

    /// The session as it is created: nothing scored, the ball at rest,
    /// waiting for the first serve delay.
    pub open spec fn fresh(players: Seq<Player>, mode: GameMode, config: GameConfig) -> Session {
        Session {
            players,
            score: seq![0u8, 0u8],
            ball: Ball { x: 0, y: 0, vx: 0, vy: 0 },
            config,
            phase: Phase::Countdown,
            mode,
            reported: false,
        }
    }

    /// The side that scores in the next simulation step, if any.
    pub open spec fn goal(self) -> Option<usize> {
        self.ball.goal(
            &self.config,
            self.players[0].position as int,
            self.players[1].position as int,
        )
    }

    /// The session after one simulation step, whatever the phase.
    ///
    /// The ball flies against the paddles as they stand. If a side scores,
    /// its score goes up by one, the ball is served anew and both paddles
    /// are centred. If none does, each paddle moves as its player last asked.
    pub open spec fn advanced(self) -> Session {
        match self.goal() {
            Some(side) => Session {
                players: seq![
                    self.players[0].centered(&self.config),
                    self.players[1].centered(&self.config),
                ],
                score: self.score.update(side as int, (self.score[side as int] + 1) as u8),
                ball: Ball::served(&self.config),
                ..self
            },
            None => Session {
                players: seq![
                    self.players[0].moved(&self.config),
                    self.players[1].moved(&self.config),
                ],
                ball: self.ball.flown(
                    &self.config,
                    self.players[0].position as int,
                    self.players[1].position as int,
                ),
                ..self
            },
        }
    }

    /// The frame that reports the positions.
    pub open spec fn position_frame(self) -> Frame {
        Frame::Position {
            left_paddle: self.players[0].position,
            right_paddle: self.players[1].position,
            ball_x: self.ball.x,
            ball_y: self.ball.y,
        }
    }

    /// The session after a tick that is acted on: one simulation step, and
    /// a goal ends the rally. The match is over if the goal was the winning
    /// one; otherwise the serve delay begins.
    pub open spec fn played(self) -> Session {
        let next = self.advanced();
        match self.goal() {
            Some(side) => Session {
                phase: if next.score[side as int] >= self.config.winning_score {
                    Phase::GameOver
                } else {
                    Phase::Countdown
                },
                ..next
            },
            None => next,
        }
    }

    /// The actions of a tick that is acted on: the new positions go to both
    /// players and the next tick is scheduled; a goal is announced to the
    /// session itself.
    pub open spec fn played_actions(self) -> Seq<Action> {
        let base = seq![
            Action::Broadcast(self.played().position_frame()),
            Action::TickAfter { millis: self.config.tick_interval_ms },
        ];
        match self.goal() {
            Some(side) => base.push(Action::Notify(Event::UpdateScore(UpdateScore { side }))),
            None => base,
        }
    }

    /// The session after the match has started: the ball is served, both
    /// paddles are centred, and the session waits for the serve delay. A
    /// match that is over stays over.
    pub open spec fn after_start(self) -> Session {
        Session {
            players: seq![
                self.players[0].centered(&self.config),
                self.players[1].centered(&self.config),
            ],
            ball: Ball::served(&self.config),
            phase: if self.phase is GameOver {
                Phase::GameOver
            } else {
                Phase::Countdown
            },
            ..self
        }
    }

    /// The actions of the start: each player learns the orientation, and
    /// the serve delay is announced to the session itself.
    pub open spec fn start_actions(self) -> Seq<Action> {
        seq![
            Action::Send {
                side: 0,
                frame: Frame::Orientation { side: 0, opponent: self.players[1].id },
            },
            Action::Send {
                side: 1,
                frame: Frame::Orientation { side: 1, opponent: self.players[0].id },
            },
            Action::Notify(Event::CountDown(CountDown)),
        ]
    }

    /// The seat a command for `id` goes to: the left one if the left player
    /// has that id, else the right one.
    pub open spec fn seat_of(self, id: UserId) -> int {
        if self.players[0].id == id {
            0
        } else {
            1
        }
    }

    /// The session after a tick. Only a rally in progress acts on a tick.
    pub open spec fn after_tick(self) -> Session {
        if self.phase is Playing {
            self.played()
        } else {
            self
        }
    }

    /// The actions of a tick: none unless a rally is in progress.
    pub open spec fn tick_actions(self) -> Seq<Action> {
        if self.phase is Playing {
            self.played_actions()
        } else {
            Seq::empty()
        }
    }

    /// The session after a command. A character that is a command becomes
    /// the last input of the player it is addressed to, in every phase; any
    /// other character changes nothing. Once the outcome is reported, no
    /// command changes anything.
    pub open spec fn after_input(self, input: PlayerInput) -> Session {
        match Input::parse(input.cmd) {
            Some(symbol) => if self.reported {
                self
            } else {
                let seat = self.seat_of(input.id);
                Session {
                    players: self.players.update(
                        seat,
                        Player { last_input: symbol, ..self.players[seat] },
                    ),
                    ..self
                }
            },
            None => self,
        }
    }

    /// The actions after a goal of `side`: the score goes to both players,
    /// then the session is told what comes next, the end of the match if it
    /// is decided and the serve delay if it is not. A side that does not
    /// exist yields nothing, and so does any side once the outcome is
    /// reported.
    pub open spec fn score_actions(self, side: usize) -> Seq<Action> {
        if side < 2 && !self.reported {
            seq![
                Action::Broadcast(Frame::Score { left: self.score[0], right: self.score[1] }),
                Action::Notify(
                    if self.phase is GameOver {
                        Event::GameOver(GameOver)
                    } else {
                        Event::CountDown(CountDown)
                    },
                ),
            ]
        } else {
            Seq::empty()
        }
    }

    /// The session after the serve delay was asked for: waiting, unless the
    /// match is over.
    pub open spec fn after_count_down(self) -> Session {
        if self.phase is GameOver {
            self
        } else {
            Session { phase: Phase::Countdown, ..self }
        }
    }

    /// The actions of a serve delay: the delay is announced to both players
    /// once and its end is scheduled. None if the match is over.
    pub open spec fn count_down_actions(self) -> Seq<Action> {
        if self.phase is GameOver {
            Seq::empty()
        } else {
            seq![
                Action::Broadcast(Frame::Countdown { seconds: self.config.countdown_secs }),
                Action::GameStartAfter { secs: self.config.countdown_secs },
            ]
        }
    }

    /// The session after the serve delay has elapsed: the rally is on and
    /// its first step is taken. A session that is not waiting stays as it is.
    pub open spec fn after_game_start(self) -> Session {
        if self.phase is Countdown {
            (Session { phase: Phase::Playing, ..self }).played()
        } else {
            self
        }
    }

    /// The actions at the end of a serve delay: the begin goes to both
    /// players, then follow the actions of the first step. None if the
    /// session is not waiting.
    pub open spec fn game_start_actions(self) -> Seq<Action> {
        if self.phase is Countdown {
            seq![Action::Broadcast(Frame::Begin)] + (Session {
                phase: Phase::Playing,
                ..self
            }).played_actions()
        } else {
            Seq::empty()
        }
    }

    /// The seat of the winner: the left one if the left side has more goals,
    /// else the right one.
    pub open spec fn winner_seat(self) -> int {
        if self.score[0] > self.score[1] {
            0
        } else {
            1
        }
    }

    /// The outcome is due: the match is over and nobody has been told yet.
    pub open spec fn outcome_due(self) -> bool {
        self.phase is GameOver && !self.reported
    }

    /// The session after the end of the match was announced: the outcome
    /// counts as reported once it was due.
    pub open spec fn after_game_over(self) -> Session {
        if self.outcome_due() {
            Session { reported: true, ..self }
        } else {
            self
        }
    }

    /// The actions at the end of the match, when the outcome is due: the end
    /// goes to both players, the match is recorded, and the outcome is
    /// routed by the mode of the match. None at any other time.
    pub open spec fn game_over_actions(self) -> Seq<Action> {
        if self.outcome_due() {
            let winner = self.players[self.winner_seat()].id;
            let looser = self.players[1 - self.winner_seat()].id;
            seq![Action::Broadcast(Frame::End), Action::Persist { winner, looser }] + routed(
                self.mode,
                self.players,
                winner,
                looser,
            )
        } else {
            Seq::empty()
        }
    }

    /// The event makes this session take a simulation step: a tick in a
    /// rally, or the end of a serve delay, which begins one.
    pub open spec fn steps_on(self, event: Event) -> bool {
        (event is Tick && self.phase is Playing) || (event is GameStart && self.phase is Countdown)
    }

    /// The session after `event`.
    pub open spec fn next(self, event: Event) -> Session {
        match event {
            Event::Tick(_) => self.after_tick(),
            Event::PlayerInput(input) => self.after_input(input),
            Event::UpdateScore(_) => self,
            Event::CountDown(_) => self.after_count_down(),
            Event::GameStart(_) => self.after_game_start(),
            Event::GameOver(_) => self.after_game_over(),
        }
    }

    /// The actions that handling `event` asks for, in order.
    pub open spec fn emitted(self, event: Event) -> Seq<Action> {
        match event {
            Event::Tick(_) => self.tick_actions(),
            Event::PlayerInput(_) => Seq::empty(),
            Event::UpdateScore(goal) => self.score_actions(goal.side),
            Event::CountDown(_) => self.count_down_actions(),
            Event::GameStart(_) => self.game_start_actions(),
            Event::GameOver(_) => self.game_over_actions(),
        }
    }

    /// The session after handling `events` one after the other.
    pub open spec fn run(self, events: Seq<Event>) -> Session
        decreases events.len(),
    {
        if events.len() == 0 {
            self
        } else {
            self.run(events.drop_last()).next(events.last())
        }
    }

    /// Everything that is asked for while `events` are handled one after
    /// the other, in order.
    pub open spec fn log(self, events: Seq<Event>) -> Seq<Action>
        decreases events.len(),
    {
        if events.len() == 0 {
            Seq::empty()
        } else {
            self.log(events.drop_last()) + self.run(events.drop_last()).emitted(events.last())
        }
    }
}

} // verus!
