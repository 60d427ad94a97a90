//! The running session: owns the state of one match and handles its events
//! one at a time.

use crate::ball::Ball;
use crate::config::GameConfig;
use crate::event::{
    Action, CountDown, Event, GameMode, GameOver, PlayerInput, UpdateScore,
};
use crate::frame::Frame;
use crate::player::{Input, Player, UserId};
use crate::laws::lemma_next_keeps_wf;
use crate::router::route;
use crate::session::{Phase, Session};
use vstd::prelude::*;

verus! {

/// One match between two players.
///
/// A `Pong` is the only owner of the match's state. It performs no effect:
/// each handler changes the state and returns the actions to carry out.
#[derive(Debug, PartialEq, Eq)]
pub struct Pong {
    players: [Player; 2],
    score: [u8; 2],
    ball: Ball,
    config: GameConfig,
    phase: Phase,
    mode: GameMode,
    reported: bool,
}

impl View for Pong {
    type V = Session;

    closed spec fn view(&self) -> Session {
        Session {
            players: self.players@,
            score: self.score@,
            ball: self.ball,
            config: self.config,
            phase: self.phase,
            mode: self.mode,
            reported: self.reported,
        }
    }
}

impl Clone for Pong {
    /// A second session in the same state.
    fn clone(&self) -> (copy: Pong)
        ensures
            copy@ == self@,
    {
        proof {
            use_type_invariant(self);
        }
        Pong {
            players: self.players,
            score: self.score,
            ball: self.ball,
            config: self.config,
            phase: self.phase,
            mode: self.mode,
            reported: self.reported,
        }
    }
}

impl Pong {
    /// Every session is in a state a match can be in, at all times.
    #[verifier::type_invariant]
    closed spec fn inv(self) -> bool {
        self@.wf()
    }

    /// The session is in a state a match can be in.
    pub open spec fn wf(&self) -> bool {
        self@.wf()
    }

    /// A session for `players`, the left one first, started under `mode`,
    /// with the standard parameters. It waits for the first serve delay
    /// with nothing scored.
    pub fn new(players: [Player; 2], mode: GameMode) -> (pong: Pong)
        ensures
            pong@ == Session::fresh(players@, mode, GameConfig::standard()),
            pong.wf(),
    {
        let pong = Pong {
            players,
            score: [0; 2],
            ball: Ball::new(),
            config: GameConfig::new(),
            phase: Phase::Countdown,
            mode,
            reported: false,
        };
        assert(pong.score@ =~= seq![0u8, 0u8]);
        pong
    }

    /// A session like that of `new`, with parameters of the caller's
    /// choice. Parameters that cannot run a match give no session.
    pub fn with_config(players: [Player; 2], mode: GameMode, config: GameConfig) -> (pong: Option<
        Pong,
    >)
        ensures
            pong is Some <==> config.wf(),
            pong matches Some(pong) ==> pong@ == Session::fresh(players@, mode, config)
                && pong.wf(),
    {
        if !config.is_valid() {
            return None;
        }
        let pong = Pong {
            players,
            score: [0; 2],
            ball: Ball::new(),
            config,
            phase: Phase::Countdown,
            mode,
            reported: false,
        };
        assert(pong.score@ =~= seq![0u8, 0u8]);
        Some(pong)
    }

    /// The two players' records, the left one first.
    pub fn players(&self) -> (players: [Player; 2])
        ensures
            players@ == self@.players,
    {
        self.players
    }

    /// Goals of the left side, then of the right side.
    pub fn score(&self) -> (score: [u8; 2])
        ensures
            score@ == self@.score,
    {
        self.score
    }

    pub fn ball(&self) -> (ball: Ball)
        ensures
            ball == self@.ball,
    {
        self.ball
    }

    pub fn config(&self) -> (config: GameConfig)
        ensures
            config == self@.config,
    {
        self.config
    }

    pub fn phase(&self) -> (phase: Phase)
        ensures
            phase == self@.phase,
    {
        self.phase
    }

    pub fn mode(&self) -> (mode: GameMode)
        ensures
            mode == self@.mode,
    {
        self.mode
    }

    /// Whether the outcome has been handed to the router.
    pub fn reported(&self) -> (reported: bool)
        ensures
            reported == self@.reported,
    {
        self.reported
    }

    /// The frame that reports the positions to the players.
    fn send_pos(&self) -> (action: Action)
        ensures
            action == Action::Broadcast(self@.position_frame()),
    {
        Action::Broadcast(
            Frame::Position {
                left_paddle: self.players[0].position,
                right_paddle: self.players[1].position,
                ball_x: self.ball.x,
                ball_y: self.ball.y,
            },
        )
    }

    /// Takes one simulation step of a rally and says which side scored, if
    /// one did. A goal ends the rally.
    fn update(&mut self) -> (goal: Option<usize>)
        requires
            !(old(self)@.phase is GameOver),
        ensures
            goal == old(self)@.goal(),
            final(self)@ == old(self)@.played(),
    {
        proof {
            use_type_invariant(&*self);
        }
        let mut ball = self.ball;
        let mut players = self.players;
        let mut score = self.score;
        let mut phase = self.phase;
        let goal = ball.update(&self.config, &mut players, &mut score);
        match goal {
            Some(side) => {
                if score[side] >= self.config.winning_score {
                    phase = Phase::GameOver;
                } else {
                    phase = Phase::Countdown;
                }
            },
            None => {
                let mut left = players[0];
                let mut right = players[1];
                left.update(&self.config);
                right.update(&self.config);
                players = [left, right];
            },
        }
        *self = Pong {
            players,
            score,
            ball,
            config: self.config,
            phase,
            mode: self.mode,
            reported: self.reported,
        };
        goal
    }

    /// Handles a tick: a rally in progress takes one simulation step,
    /// reports the positions and schedules the next tick. In any other phase
    /// nothing changes and nothing is asked for.
    fn tick(&mut self) -> (actions: Vec<Action>)
        ensures
            final(self)@ == old(self)@.after_tick(),
            actions@ == old(self)@.tick_actions(),
    {
        let mut actions: Vec<Action> = Vec::new();
        match self.phase {
            Phase::Playing => {},
            _ => {
                return actions;
            },
        }
        let goal = self.update();
        actions.push(self.send_pos());
        actions.push(Action::TickAfter { millis: self.config.tick_interval_ms });
        match goal {
            Some(side) => {
                actions.push(Action::Notify(Event::UpdateScore(UpdateScore { side })));
            },
            None => {},
        }
        actions
    }

    /// Starts the match: tells each player the orientation, serves the
    /// ball, centres both paddles and asks for the first serve delay.
    pub fn started(&mut self) -> (actions: Vec<Action>)
        ensures
            old(self).wf(),
            final(self).wf(),
            final(self)@ == old(self)@.after_start(),
            actions@ == old(self)@.start_actions(),
    {
        proof {
            use_type_invariant(&*self);
        }
        let mut actions: Vec<Action> = Vec::new();
        actions.push(
            Action::Send {
                side: 0,
                frame: Frame::Orientation { side: 0, opponent: self.players[1].id },
            },
        );
        actions.push(
            Action::Send {
                side: 1,
                frame: Frame::Orientation { side: 1, opponent: self.players[0].id },
            },
        );
        let mut ball = self.ball;
        let mut left = self.players[0];
        let mut right = self.players[1];
        ball.reset(&self.config);
        left.reset(&self.config);
        right.reset(&self.config);
        let phase = match self.phase {
            Phase::GameOver => Phase::GameOver,
            _ => Phase::Countdown,
        };
        *self = Pong {
            players: [left, right],
            score: self.score,
            ball,
            config: self.config,
            phase,
            mode: self.mode,
            reported: self.reported,
        };
        actions.push(Action::Notify(Event::CountDown(CountDown)));
        actions
    }

    /// Takes a command: the player it is addressed to gets a new last input.
    fn steer(&mut self, input: PlayerInput)
        ensures
            final(self)@ == old(self)@.after_input(input),
    {
        proof {
            use_type_invariant(&*self);
        }
        if self.reported {
            return;
        }
        match Input::from_char(input.cmd) {
            Some(symbol) => {
                let seat: usize = if self.players[0].id == input.id {
                    0
                } else {
                    1
                };
                let mut players = self.players;
                let mut player = players[seat];
                player.last_input = symbol;
                players[seat] = player;
                self.players = players;
            },
            None => {},
        }
    }

    /// Announces the score after a goal and says what comes next.
    fn announce_score(&self, goal: UpdateScore) -> (actions: Vec<Action>)
        ensures
            actions@ == self@.score_actions(goal.side),
    {
        proof {
            use_type_invariant(self);
        }
        let mut actions: Vec<Action> = Vec::new();
        if goal.side < 2 && !self.reported {
            actions.push(
                Action::Broadcast(Frame::Score { left: self.score[0], right: self.score[1] }),
            );
            let event = match self.phase {
                Phase::GameOver => Event::GameOver(GameOver),
                _ => Event::CountDown(CountDown),
            };
            actions.push(Action::Notify(event));
        }
        actions
    }

    /// Begins a serve delay.
    fn count_down(&mut self) -> (actions: Vec<Action>)
        ensures
            final(self)@ == old(self)@.after_count_down(),
            actions@ == old(self)@.count_down_actions(),
    {
        proof {
            use_type_invariant(&*self);
        }
        let mut actions: Vec<Action> = Vec::new();
        match self.phase {
            Phase::GameOver => {},
            _ => {
                self.phase = Phase::Countdown;
                actions.push(
                    Action::Broadcast(Frame::Countdown { seconds: self.config.countdown_secs }),
                );
                actions.push(Action::GameStartAfter { secs: self.config.countdown_secs });
            },
        }
        actions
    }

    /// Ends a serve delay: the rally begins with its first step.
    fn game_start(&mut self) -> (actions: Vec<Action>)
        ensures
            final(self)@ == old(self)@.after_game_start(),
            actions@ == old(self)@.game_start_actions(),
    {
        proof {
            use_type_invariant(&*self);
        }
        let mut actions: Vec<Action> = Vec::new();
        match self.phase {
            Phase::Countdown => {
                self.phase = Phase::Playing;
                actions.push(Action::Broadcast(Frame::Begin));
                let mut first = self.tick();
                actions.append(&mut first);
            },
            _ => {},
        }
        actions
    }

    /// Closes the match: once the outcome is due, both players hear the end,
    /// the match is recorded and the outcome goes to whoever started it.
    fn game_over(&mut self) -> (actions: Vec<Action>)
        ensures
            final(self)@ == old(self)@.after_game_over(),
            actions@ == old(self)@.game_over_actions(),
    {
        proof {
            use_type_invariant(&*self);
        }
        let mut actions: Vec<Action> = Vec::new();
        let due: bool = match self.phase {
            Phase::GameOver => !self.reported,
            _ => false,
        };
        if due {
            self.reported = true;
            actions.push(Action::Broadcast(Frame::End));
            let (winner, looser): (UserId, UserId) = if self.score[0] > self.score[1] {
                (self.players[0].id, self.players[1].id)
            } else {
                (self.players[1].id, self.players[0].id)
            };
            actions.push(Action::Persist { winner, looser });
            let mut outcome = route(self.mode, &self.players, winner, looser);
            actions.append(&mut outcome);
        }
        actions
    }

    /// Handles one event: changes the match as the event demands and
    /// returns the actions to carry out, in order.
    pub fn handle(&mut self, event: Event) -> (actions: Vec<Action>)
        ensures
            old(self).wf(),
            final(self).wf(),
            final(self)@ == old(self)@.next(event),
            actions@ == old(self)@.emitted(event),
    {
        proof {
            use_type_invariant(&*self);
            lemma_next_keeps_wf(self@, event);
        }
        match event {
            Event::Tick(_) => self.tick(),
            Event::PlayerInput(input) => {
                self.steer(input);
                Vec::new()
            },
            Event::UpdateScore(goal) => self.announce_score(goal),
            Event::CountDown(_) => self.count_down(),
            Event::GameStart(_) => self.game_start(),
            Event::GameOver(_) => self.game_over(),
        }
    }
}

} // verus!
