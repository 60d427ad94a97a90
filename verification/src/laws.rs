//! What holds of every match, proved of the state machine that every
//! session is held to.

use crate::ball::Ball;
use crate::config::GameConfig;
use crate::event::{
    Action, Event, GameMode, GameOver, GameResult, PlayerInput, Stop, Tick,
};
use crate::frame::Frame;
use crate::player::{Input, Player};
use crate::router::{
    eliminations, lemma_counts_add, lemma_counts_push, lemma_pair_seats, lemma_route_counts,
    lemma_route_reports_once, notices, reports, routed,
};
use crate::session::{Phase, Session};
use vstd::prelude::*;

verus! {

/// Where a paddle at `position` is after one step for each of `inputs`,
/// taken in order.
pub open spec fn slid(position: int, inputs: Seq<Input>, config: &GameConfig) -> int
    decreases inputs.len(),
{
    if inputs.len() == 0 {
        position
    } else {
        Player::slide(slid(position, inputs.drop_last(), config), inputs.last(), config)
    }
}

/// A paddle is inside the playfield after a step, wherever it was and
/// whatever its player asked.
pub proof fn lemma_paddle_inside_after_step(position: int, input: Input, config: &GameConfig)
    ensures
        0 <= Player::slide(position, input, config) <= config.height,
{
}

/// A paddle is inside the playfield after any number of steps, one at
/// least, under any inputs: holding a direction never takes it past a wall.
pub proof fn lemma_paddle_inside_after_steps(position: int, inputs: Seq<Input>, config: &GameConfig)
    requires
        inputs.len() >= 1,
    ensures
        0 <= slid(position, inputs, config) <= config.height,
{
}

/// Under a neutral input a paddle inside the playfield does not move.
pub proof fn lemma_neutral_paddle_rests(position: int, config: &GameConfig)
    requires
        0 <= position <= config.height,
    ensures
        Player::slide(position, Input::Neutral, config) == position,
{
}

/// After a simulation step both paddles are inside the playfield.
pub proof fn lemma_step_keeps_paddles_inside(session: Session)
    ensures
        session.advanced().paddles_inside(),
{
}

/// No event takes a paddle out of the playfield.
pub proof fn lemma_paddles_stay_inside(session: Session, event: Event)
    requires
        session.wf(),
        session.paddles_inside(),
    ensures
        session.next(event).paddles_inside(),
{
}

/// A goal is scored in a step exactly when the ball reaches a goal line in
/// that step where the paddle on that line does not cover it. It counts for
/// the side opposite that line.
pub proof fn lemma_goal_iff_unanswered(ball: Ball, config: &GameConfig, left: int, right: int)
    ensures
        ball.goal(config, left, right) is Some <==> (ball.reaches_left() && !Ball::covered(
            config,
            left,
            ball.next_y(config),
        )) || (ball.reaches_right(config) && !Ball::covered(config, right, ball.next_y(config))),
        ball.goal(config, left, right) == Some(1usize) <==> ball.reaches_left() && !Ball::covered(
            config,
            left,
            ball.next_y(config),
        ),
        ball.goal(config, left, right) == Some(0usize) <==> ball.reaches_right(config)
            && !Ball::covered(config, right, ball.next_y(config)),
        !(ball.reaches_left() && ball.reaches_right(config)),
{
}

/// A ball that a paddle covers turns back: its horizontal velocity is
/// reversed, it rests on the goal line, and nobody scores. Hit on the
/// paddle's centre, it keeps the vertical velocity the walls left it.
pub proof fn lemma_paddle_turns_ball(ball: Ball, config: &GameConfig, left: int, right: int)
    requires
        config.wf(),
        ball.wf(config),
        ball.reaches_left() && Ball::covered(config, left, ball.next_y(config))
            || ball.reaches_right(config) && Ball::covered(config, right, ball.next_y(config)),
    ensures
        ball.goal(config, left, right) is None,
        ball.flown(config, left, right).vx == -ball.vx,
        ball.reaches_left() ==> ball.flown(config, left, right).x == 0,
        ball.reaches_right(config) ==> ball.flown(config, left, right).x == config.width,
        ball.reaches_left() && ball.next_y(config) == left ==> ball.flown(config, left, right).vy
            == ball.next_vy(config),
        ball.reaches_right(config) && ball.next_y(config) == right ==> ball.flown(
            config,
            left,
            right,
        ).vy == ball.next_vy(config),
{
}

/// The ball stays inside the playfield and within its speed limits,
/// whatever the paddles do.
pub proof fn lemma_ball_stays_inside(ball: Ball, config: &GameConfig, left: int, right: int)
    requires
        config.wf(),
        ball.wf(config),
    ensures
        ball.flown(config, left, right).wf(config),
        Ball::served(config).wf(config),
{
}

/// A step changes the score exactly when a goal is scored in it, and then
/// by one, for the side that scored alone.
pub proof fn lemma_one_goal_per_step(session: Session)
    requires
        session.wf(),
        !(session.phase is GameOver),
    ensures
        match session.goal() {
            Some(side) => {
                &&& side < 2
                &&& session.advanced().score[side as int] == session.score[side as int] + 1
                &&& session.advanced().score[1 - side] == session.score[1 - side]
                &&& session.advanced().ball == Ball::served(&session.config)
            },
            None => session.advanced().score == session.score,
        },
{
    match session.goal() {
        Some(side) => {},
        None => {},
    }
}

/// Every event leaves the session in a state a match can be in. In
/// particular the match is over after the event exactly if a side has
/// reached the winning score.
pub proof fn lemma_next_keeps_wf(session: Session, event: Event)
    requires
        session.wf(),
    ensures
        session.next(event).wf(),
        session.next(event).phase is GameOver <==> session.next(event).decided(),
{
}

/// A fresh session is in a state a match can be in, and so is a session
/// after its start.
pub proof fn lemma_fresh_is_wf(players: Seq<Player>, mode: GameMode, config: GameConfig)
    requires
        players.len() == 2,
        config.wf(),
    ensures
        Session::fresh(players, mode, config).wf(),
        Session::fresh(players, mode, config).after_start().wf(),
        Session::fresh(players, mode, config).after_start().paddles_inside(),
        Session::fresh(players, mode, config).after_start().phase is Countdown,
        GameConfig::standard().wf(),
{
}

/// Starting a match leaves it in a state a match can be in, with both
/// paddles inside the playfield, and changes no score.
pub proof fn lemma_start_keeps_wf(session: Session)
    requires
        session.wf(),
    ensures
        session.after_start().wf(),
        session.after_start().paddles_inside(),
        session.after_start().score == session.score,
{
}

/// No event lowers a score, changes the players' ids, the parameters or
/// the mode of the match.
pub proof fn lemma_score_never_drops(session: Session, event: Event)
    requires
        session.wf(),
    ensures
        session.next(event).score[0] >= session.score[0],
        session.next(event).score[1] >= session.score[1],
        session.next(event).players[0].id == session.players[0].id,
        session.next(event).players[1].id == session.players[1].id,
        session.next(event).config == session.config,
        session.next(event).mode == session.mode,
{
}

/// Only a tick acted on, or the end of a serve delay, which takes the
/// first step of the rally, can change the score, and by one goal at most.
pub proof fn lemma_score_changes_by_step_only(session: Session, event: Event)
    requires
        session.wf(),
    ensures
        session.next(event).score[0] + session.next(event).score[1] <= session.score[0]
            + session.score[1] + 1,
        session.next(event).score != session.score ==> (event is Tick && session.phase is Playing)
            || (event is GameStart && session.phase is Countdown),
{
    if session.next(event).score != session.score {
        assert(!(session.next(event).score =~= session.score));
    }
}

/// Over the life of a match, whatever events arrive in whatever order: the
/// session stays in a state a match can be in, no score ever drops, and
/// the match is over exactly if a side has reached the winning score.
pub proof fn lemma_life_of_a_match(session: Session, events: Seq<Event>)
    requires
        session.wf(),
    ensures
        session.run(events).wf(),
        session.run(events).score[0] >= session.score[0],
        session.run(events).score[1] >= session.score[1],
        session.run(events).phase is GameOver <==> session.run(events).decided(),
    decreases events.len(),
{
    if events.len() > 0 {
        lemma_life_of_a_match(session, events.drop_last());
        lemma_next_keeps_wf(session.run(events.drop_last()), events.last());
        lemma_score_never_drops(session.run(events.drop_last()), events.last());
    }
}

/// A match that is over stays over, with the score it ended on.
pub proof fn lemma_game_over_is_final(session: Session, event: Event)
    requires
        session.wf(),
        session.phase is GameOver,
    ensures
        session.next(event).phase is GameOver,
        session.next(event).score == session.score,
        session.next(event).ball == session.ball,
        session.next(event).players[0].position == session.players[0].position,
        session.next(event).players[1].position == session.players[1].position,
        session.reported ==> session.next(event).reported,
{
}

/// Once the outcome is reported the session is closed: no event changes
/// anything, and nothing is sent or asked for any more.
pub proof fn lemma_closed_session_is_silent(session: Session, event: Event)
    requires
        session.wf(),
        session.reported,
    ensures
        session.next(event) == session,
        session.emitted(event) == Seq::<Action>::empty(),
{
}

/// A tick outside a rally does nothing: the session is as it was, and
/// nothing is sent or asked for.
pub proof fn lemma_idle_tick(session: Session)
    requires
        !(session.phase is Playing),
    ensures
        session.next(Event::Tick(Tick)) == session,
        session.emitted(Event::Tick(Tick)) == Seq::<Action>::empty(),
{
}

/// A tick acted on sends the positions once, schedules exactly one further
/// tick after the tick interval, and nothing else unless a goal was scored.
pub proof fn lemma_tick_schedules_one(session: Session)
    requires
        session.phase is Playing,
    ensures
        session.emitted(Event::Tick(Tick))[0] == Action::Broadcast(
            session.next(Event::Tick(Tick)).position_frame(),
        ),
        session.emitted(Event::Tick(Tick))[1] == (Action::TickAfter {
            millis: session.config.tick_interval_ms,
        }),
        session.goal() is None ==> session.emitted(Event::Tick(Tick)).len() == 2,
        session.goal() is Some ==> session.emitted(Event::Tick(Tick)).len() == 3
            && session.emitted(Event::Tick(Tick))[2] is Notify,
{
}

/// Number of ticks that `actions` schedule.
pub open spec fn ticks_scheduled(actions: Seq<Action>) -> nat
    decreases actions.len(),
{
    if actions.len() == 0 {
        0
    } else if actions.last() is TickAfter {
        ticks_scheduled(actions.drop_last()) + 1
    } else {
        ticks_scheduled(actions.drop_last())
    }
}

/// Scheduling is by self-rescheduling and nothing else: an event that takes
/// a simulation step schedules exactly one tick; no other event schedules
/// any.
pub proof fn lemma_one_tick_per_step(session: Session, event: Event)
    requires
        session.wf(),
    ensures
        ticks_scheduled(session.emitted(event)) == if session.steps_on(event) {
            1nat
        } else {
            0nat
        },
{
    let actions = session.emitted(event);
    let none = Seq::<Action>::empty();
    assert(ticks_scheduled(none) == 0);
    let stepping = if event is GameStart {
        Session { phase: Phase::Playing, ..session }
    } else {
        session
    };
    let first = Action::Broadcast(stepping.played().position_frame());
    let second = Action::TickAfter { millis: session.config.tick_interval_ms };
    let step = seq![first, second];
    assert(step.drop_last() =~= seq![first]);
    assert(seq![first].drop_last() =~= none);
    assert(ticks_scheduled(seq![first]) == 0);
    assert(ticks_scheduled(step) == 1);
    match event {
        Event::Tick(_) => {
            if session.steps_on(event) && session.goal() is Some {
                assert(actions.drop_last() =~= step);
            }
        },
        Event::PlayerInput(_) => {},
        Event::UpdateScore(goal) => {
            if actions.len() > 0 {
                assert(actions.drop_last().drop_last() =~= none);
                assert(ticks_scheduled(actions.drop_last()) == 0);
            }
        },
        Event::CountDown(_) => {
            if actions.len() > 0 {
                assert(actions.drop_last().drop_last() =~= none);
                assert(ticks_scheduled(actions.drop_last()) == 0);
            }
        },
        Event::GameStart(_) => {
            if session.steps_on(event) {
                let begin = Action::Broadcast(Frame::Begin);
                let begun = seq![begin, first, second];
                assert(begun.drop_last() =~= seq![begin, first]);
                assert(seq![begin, first].drop_last() =~= seq![begin]);
                assert(seq![begin].drop_last() =~= none);
                assert(ticks_scheduled(seq![begin]) == 0);
                assert(ticks_scheduled(seq![begin, first]) == 0);
                assert(ticks_scheduled(begun) == 1);
                if stepping.goal() is Some {
                    assert(actions.drop_last() =~= begun);
                } else {
                    assert(actions =~= begun);
                }
            }
        },
        Event::GameOver(_) => {
            if session.outcome_due() {
                let winner = session.players[session.winner_seat()].id;
                let looser = session.players[1 - session.winner_seat()].id;
                lemma_route_schedules_nothing(
                    seq![Action::Broadcast(Frame::End), Action::Persist { winner, looser }],
                    session.mode,
                    session.players,
                    winner,
                    looser,
                );
            }
        },
    }
}

/// Routing adds no tick to what a list without ticks schedules.
proof fn lemma_route_schedules_nothing(
    head: Seq<Action>,
    mode: GameMode,
    players: Seq<Player>,
    winner: usize,
    looser: usize,
)
    requires
        head.len() == 2,
        !(head[0] is TickAfter),
        !(head[1] is TickAfter),
    ensures
        ticks_scheduled(head + routed(mode, players, winner, looser)) == 0,
{
    assert(head.drop_last().drop_last() =~= Seq::<Action>::empty());
    assert(ticks_scheduled(head.drop_last().drop_last()) == 0);
    assert(ticks_scheduled(head.drop_last()) == 0);
    assert(ticks_scheduled(head) == 0);
    let sent = routed(mode, players, winner, looser);
    assert(forall|i: int| 0 <= i < sent.len() ==> !(#[trigger] sent[i] is TickAfter)) by {
        lemma_eliminations_are_notices(players, winner);
    }
    lemma_no_tick_among(head, sent);
}

/// Eliminations hold nothing but notices.
proof fn lemma_eliminations_are_notices(players: Seq<Player>, winner: usize)
    ensures
        forall|i: int|
            0 <= i < eliminations(players, winner).len() ==> #[trigger] eliminations(
                players,
                winner,
            )[i] is Eliminate,
    decreases players.len(),
{
    if players.len() > 0 {
        lemma_eliminations_are_notices(players.drop_last(), winner);
    }
}

/// A list without ticks adds none to the ticks of the list before it.
proof fn lemma_no_tick_among(head: Seq<Action>, tail: Seq<Action>)
    requires
        forall|i: int| 0 <= i < tail.len() ==> !(#[trigger] tail[i] is TickAfter),
    ensures
        ticks_scheduled(head + tail) == ticks_scheduled(head),
    decreases tail.len(),
{
    if tail.len() == 0 {
        assert(head + tail =~= head);
    } else {
        lemma_no_tick_among(head, tail.drop_last());
        assert((head + tail).drop_last() =~= head + tail.drop_last());
    }
}

/// A command never changes the phase, a position or the score, and asks for
/// nothing; a character that is no command changes nothing at all.
pub proof fn lemma_input_only_steers(session: Session, input: PlayerInput)
    requires
        session.wf(),
    ensures
        session.next(Event::PlayerInput(input)).phase == session.phase,
        session.next(Event::PlayerInput(input)).score == session.score,
        session.next(Event::PlayerInput(input)).ball == session.ball,
        session.next(Event::PlayerInput(input)).players[0].position
            == session.players[0].position,
        session.next(Event::PlayerInput(input)).players[1].position
            == session.players[1].position,
        session.emitted(Event::PlayerInput(input)) == Seq::<Action>::empty(),
        Input::parse(input.cmd) is None ==> session.next(Event::PlayerInput(input)) == session,
{
    if Input::parse(input.cmd) is None {
    } else {
        let seat = session.seat_of(input.id);
        assert(session.next(Event::PlayerInput(input)).players[seat].position
            == session.players[seat].position);
    }
}

/// A command that arrives before a tick steers that tick: where no goal is
/// scored in the step, the paddle of the player addressed moves as the
/// command says.
pub proof fn lemma_input_steers_next_tick(session: Session, input: PlayerInput)
    requires
        session.wf(),
        session.phase is Playing,
        session.goal() is None,
        Input::parse(input.cmd) is Some,
    ensures
        ({
            let seat = session.seat_of(input.id);
            let after = session.next(Event::PlayerInput(input)).next(Event::Tick(Tick));
            after.players[seat].position == Player::slide(
                session.players[seat].position as int,
                Input::parse(input.cmd)->0,
                &session.config,
            )
        }),
{
    let seat = session.seat_of(input.id);
    let steered = session.next(Event::PlayerInput(input));
    assert(steered.goal() == session.goal());
    lemma_paddle_inside_after_step(
        session.players[seat].position as int,
        Input::parse(input.cmd)->0,
        &session.config,
    );
}

/// When the outcome is due the end of the match reports it exactly once:
/// the end goes to both players, the match is recorded, and the router
/// gets the winner and the loser by the final score. The player with more
/// goals is the winner, and the scores differ.
pub proof fn lemma_outcome_reported(session: Session)
    requires
        session.wf(),
        session.outcome_due(),
    ensures
        ({
            let actions = session.game_over_actions();
            let winner = session.players[session.winner_seat()].id;
            let looser = session.players[1 - session.winner_seat()].id;
            &&& session.score[session.winner_seat()] == session.config.winning_score
            &&& session.score[1 - session.winner_seat()] < session.config.winning_score
            &&& actions[0] == Action::Broadcast(Frame::End)
            &&& actions[1] == (Action::Persist { winner, looser })
            &&& actions.subrange(2, actions.len() as int) == routed(
                session.mode,
                session.players,
                winner,
                looser,
            )
            &&& !session.after_game_over().outcome_due()
            &&& session.after_game_over().game_over_actions() == Seq::<Action>::empty()
        }),
{
    let actions = session.game_over_actions();
    let winner = session.players[session.winner_seat()].id;
    let looser = session.players[1 - session.winner_seat()].id;
    assert(actions.subrange(2, actions.len() as int) =~= routed(
        session.mode,
        session.players,
        winner,
        looser,
    ));
}

/// Result routing for a match of two players with different ids. A direct
/// or matchmaking match sends exactly one game result and eliminates
/// nobody; a tournament round sends exactly one round result and exactly
/// one elimination, to the loser.
pub proof fn lemma_outcome_routing(session: Session)
    requires
        session.wf(),
        session.outcome_due(),
        session.players[0].id != session.players[1].id,
    ensures
        ({
            let winner = session.players[session.winner_seat()].id;
            let looser = session.players[1 - session.winner_seat()].id;
            let sent = routed(session.mode, session.players, winner, looser);
            &&& reports(sent) == 1
            &&& reports(session.game_over_actions()) == 1
            &&& !(session.mode is Tournament) ==> sent == seq![
                Action::ReportGame(GameResult { looser, winner }),
            ]
            &&& session.mode is Tournament ==> {
                &&& sent.len() == 2
                &&& sent[0] is ReportRound
                &&& sent[0]->ReportRound_0.winner == session.players[session.winner_seat()]
                &&& sent[0]->ReportRound_0.looser == looser
                &&& sent[1] == Action::Eliminate(Stop { id: looser })
                &&& notices(sent) == 1
            }
        }),
{
    let winner = session.players[session.winner_seat()].id;
    let looser = session.players[1 - session.winner_seat()].id;
    let sent = routed(session.mode, session.players, winner, looser);
    lemma_pair_seats(session.players, winner);
    lemma_route_reports_once(session.mode, session.players, winner, looser);
    lemma_event_counts(session, Event::GameOver(GameOver));
    if session.mode is Tournament {
        lemma_route_counts(session.mode, session.players, winner, looser);
        let first = session.players.drop_last();
        assert(first.last() == session.players[0]);
        assert(eliminations(first.drop_last(), winner) =~= Seq::<Action>::empty());
        assert(eliminations(first, winner).len() == if session.players[0].id == winner {
            0nat
        } else {
            1nat
        });
        assert(eliminations(session.players, winner) =~= seq![
            Action::Eliminate(Stop { id: looser }),
        ]);
    }
}

/// What one event adds to the count of reports: one if the event is the end
/// of the match and the outcome is due, none in every other case. The
/// outcome counts as reported from then on.
pub proof fn lemma_event_counts(session: Session, event: Event)
    requires
        session.wf(),
    ensures
        reports(session.emitted(event)) == if event is GameOver && session.outcome_due() {
            1nat
        } else {
            0nat
        },
        session.next(event).reported == (session.reported || (event is GameOver
            && session.outcome_due())),
        !(event is GameOver && session.outcome_due()) ==> notices(session.emitted(event)) == 0,
{
    let actions = session.emitted(event);
    let none = Seq::<Action>::empty();
    assert(reports(none) == 0 && notices(none) == 0);
    match event {
        Event::Tick(_) => {
            lemma_step_counts(session);
        },
        Event::PlayerInput(_) => {},
        Event::UpdateScore(goal) => {
            if goal.side < 2 && !session.reported {
                lemma_counts_push(none, actions[0]);
                lemma_counts_push(none.push(actions[0]), actions[1]);
                assert(none.push(actions[0]).push(actions[1]) =~= actions);
            }
        },
        Event::CountDown(_) => {
            if !(session.phase is GameOver) {
                lemma_counts_push(none, actions[0]);
                lemma_counts_push(none.push(actions[0]), actions[1]);
                assert(none.push(actions[0]).push(actions[1]) =~= actions);
            }
        },
        Event::GameStart(_) => {
            if session.phase is Countdown {
                let playing = Session { phase: Phase::Playing, ..session };
                let begin = seq![Action::Broadcast(Frame::Begin)];
                lemma_counts_push(none, begin[0]);
                assert(none.push(begin[0]) =~= begin);
                lemma_step_counts(playing);
                lemma_counts_add(begin, playing.played_actions());
            }
        },
        Event::GameOver(_) => {
            if session.outcome_due() {
                let winner = session.players[session.winner_seat()].id;
                let looser = session.players[1 - session.winner_seat()].id;
                let first = Action::Broadcast(Frame::End);
                let second = Action::Persist { winner, looser };
                lemma_counts_push(none, first);
                lemma_counts_push(none.push(first), second);
                assert(none.push(first).push(second) =~= seq![first, second]);
                lemma_route_reports_once(session.mode, session.players, winner, looser);
                lemma_counts_add(
                    seq![first, second],
                    routed(session.mode, session.players, winner, looser),
                );
            }
        },
    }
}

/// A simulation step reports no outcome and eliminates nobody.
proof fn lemma_step_counts(session: Session)
    ensures
        reports(session.played_actions()) == 0,
        notices(session.played_actions()) == 0,
{
    let none = Seq::<Action>::empty();
    assert(reports(none) == 0 && notices(none) == 0);
    let first = Action::Broadcast(session.played().position_frame());
    let second = Action::TickAfter { millis: session.config.tick_interval_ms };
    lemma_counts_push(none, first);
    lemma_counts_push(none.push(first), second);
    assert(none.push(first).push(second) =~= seq![first, second]);
    if let Some(side) = session.goal() {
        lemma_counts_push(seq![first, second], session.played_actions()[2]);
    }
}

/// Over the life of a match the outcome is reported at most once: whatever
/// events arrive, the reports asked for number one if the outcome came to
/// be reported along the way, and none otherwise. Once reported, it stays
/// reported.
pub proof fn lemma_outcome_reported_once(session: Session, events: Seq<Event>)
    requires
        session.wf(),
    ensures
        session.reported ==> session.run(events).reported,
        reports(session.log(events)) == if session.run(events).reported && !session.reported {
            1nat
        } else {
            0nat
        },
    decreases events.len(),
{
    if events.len() > 0 {
        let before = session.run(events.drop_last());
        lemma_outcome_reported_once(session, events.drop_last());
        lemma_life_of_a_match(session, events.drop_last());
        lemma_event_counts(before, events.last());
        lemma_counts_add(session.log(events.drop_last()), before.emitted(events.last()));
    }
}

} // verus!
