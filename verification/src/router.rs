//! Who hears the outcome of a match, and in what shape.

use crate::event::{Action, GameMode, GameResult, RoundResult, Stop};
use crate::player::{Player, UserId};
use vstd::prelude::*;

verus! {

/// The record of the winner: the first player's if that player has the
/// winner's id, else the second player's.
pub open spec fn winner_record(players: Seq<Player>, winner: UserId) -> Player {
    if players[0].id == winner {
        players[0]
    } else {
        players[1]
    }
}

/// One notice for each player whose id is not the winner's, in seating order.
pub open spec fn eliminations(players: Seq<Player>, winner: UserId) -> Seq<Action>
    decreases players.len(),
{
    if players.len() == 0 {
        Seq::empty()
    } else if players.last().id != winner {
        eliminations(players.drop_last(), winner).push(
            Action::Eliminate(Stop { id: players.last().id }),
        )
    } else {
        eliminations(players.drop_last(), winner)
    }
}

/// The actions that deliver the outcome under `mode`.
///
/// A direct or matchmaking match reports the two ids. A tournament round
/// reports the winner's record and the loser's id, then eliminates every
/// player who does not have the winner's id.
pub open spec fn routed(
    mode: GameMode,
    players: Seq<Player>,
    winner: UserId,
    looser: UserId,
) -> Seq<Action> {
    match mode {
        GameMode::Direct | GameMode::Matchmaking => seq![
            Action::ReportGame(GameResult { looser, winner }),
        ],
        GameMode::Tournament => seq![
            Action::ReportRound(RoundResult { winner: winner_record(players, winner), looser }),
        ] + eliminations(players, winner),
    }
}

/// Number of outcome reports among `actions`.
pub open spec fn reports(actions: Seq<Action>) -> nat
    decreases actions.len(),
{
    if actions.len() == 0 {
        0
    } else if actions.last() is ReportGame || actions.last() is ReportRound {
        reports(actions.drop_last()) + 1
    } else {
        reports(actions.drop_last())
    }
}

/// Number of elimination notices among `actions`.
pub open spec fn notices(actions: Seq<Action>) -> nat
    decreases actions.len(),
{
    if actions.len() == 0 {
        0
    } else if actions.last() is Eliminate {
        notices(actions.drop_last()) + 1
    } else {
        notices(actions.drop_last())
    }
}

/// Number of players among `players` whose id is `id`.
pub open spec fn seats_of(players: Seq<Player>, id: UserId) -> nat
    decreases players.len(),
{
    if players.len() == 0 {
        0
    } else if players.last().id == id {
        seats_of(players.drop_last(), id) + 1
    } else {
        seats_of(players.drop_last(), id)
    }
}

/// Eliminations are notices and nothing else, one for each player who does
/// not have the winner's id.
pub proof fn lemma_eliminations_count(players: Seq<Player>, winner: UserId)
    ensures
        eliminations(players, winner).len() + seats_of(players, winner) == players.len(),
        notices(eliminations(players, winner)) == eliminations(players, winner).len(),
        reports(eliminations(players, winner)) == 0,
    decreases players.len(),
{
    if players.len() > 0 {
        lemma_eliminations_count(players.drop_last(), winner);
        if players.last().id != winner {
            let rest = eliminations(players.drop_last(), winner);
            let all = eliminations(players, winner);
            assert(all.drop_last() =~= rest);
        }
    }
}

/// Counting over two lists, one after the other, adds up.
pub proof fn lemma_counts_add(head: Seq<Action>, tail: Seq<Action>)
    ensures
        reports(head + tail) == reports(head) + reports(tail),
        notices(head + tail) == notices(head) + notices(tail),
    decreases tail.len(),
{
    let all = head + tail;
    if tail.len() == 0 {
        assert(all =~= head);
    } else {
        lemma_counts_add(head, tail.drop_last());
        assert(all.drop_last() =~= head + tail.drop_last());
        assert(all.last() == tail.last());
    }
}

/// Counting over a list with one more action at its end.
pub proof fn lemma_counts_push(actions: Seq<Action>, action: Action)
    ensures
        reports(actions.push(action)) == reports(actions) + if action is ReportGame
            || action is ReportRound {
            1nat
        } else {
            0nat
        },
        notices(actions.push(action)) == notices(actions) + if action is Eliminate {
            1nat
        } else {
            0nat
        },
{
    assert(actions.push(action).drop_last() =~= actions);
}

/// Whatever the mode and whoever the players, the outcome is reported
/// exactly once, by the first action, and in the shape of the mode.
pub proof fn lemma_route_reports_once(
    mode: GameMode,
    players: Seq<Player>,
    winner: UserId,
    looser: UserId,
)
    ensures
        reports(routed(mode, players, winner, looser)) == 1,
        mode is Tournament ==> routed(mode, players, winner, looser)[0] == Action::ReportRound(
            RoundResult { winner: winner_record(players, winner), looser },
        ),
        !(mode is Tournament) ==> routed(mode, players, winner, looser) == seq![
            Action::ReportGame(GameResult { looser, winner }),
        ],
        !(mode is Tournament) ==> notices(routed(mode, players, winner, looser)) == 0,
{
    let all = routed(mode, players, winner, looser);
    let first = all[0];
    lemma_counts_push(Seq::empty(), first);
    assert(Seq::<Action>::empty().push(first) =~= seq![first]);
    if mode is Tournament {
        lemma_eliminations_count(players, winner);
        lemma_counts_add(seq![first], eliminations(players, winner));
    } else {
        assert(all =~= seq![first]);
    }
}

/// A tournament round eliminates every player but the winner: where exactly
/// one player has the winner's id, the notices are one fewer than the
/// players.
pub proof fn lemma_route_counts(
    mode: GameMode,
    players: Seq<Player>,
    winner: UserId,
    looser: UserId,
)
    requires
        mode is Tournament,
        seats_of(players, winner) == 1,
    ensures
        reports(routed(mode, players, winner, looser)) == 1,
        notices(routed(mode, players, winner, looser)) == players.len() - 1,
        routed(mode, players, winner, looser).len() == players.len(),
{
    let all = routed(mode, players, winner, looser);
    let first = all[0];
    lemma_route_reports_once(mode, players, winner, looser);
    lemma_counts_push(Seq::empty(), first);
    assert(Seq::<Action>::empty().push(first) =~= seq![first]);
    lemma_eliminations_count(players, winner);
    lemma_counts_add(seq![first], eliminations(players, winner));
}

/// With two players of different ids, one of whom won, exactly one has the
/// winner's id.
pub proof fn lemma_pair_seats(players: Seq<Player>, winner: UserId)
    requires
        players.len() == 2,
        players[0].id != players[1].id,
        winner == players[0].id || winner == players[1].id,
    ensures
        seats_of(players, winner) == 1,
{
    let head = players.drop_last();
    assert(head.last() == players[0]);
    assert(seats_of(head.drop_last(), winner) == 0);
    assert(seats_of(head, winner) == if players[0].id == winner { 1nat } else { 0nat });
}

/// Works out the actions that deliver the outcome of a match to whoever
/// started it.
pub fn route(mode: GameMode, players: &[Player; 2], winner: UserId, looser: UserId) -> (actions:
    Vec<Action>)
    ensures
        actions@ == routed(mode, players@, winner, looser),
{
    let mut actions: Vec<Action> = Vec::new();
    match mode {
        GameMode::Direct | GameMode::Matchmaking => {
            actions.push(Action::ReportGame(GameResult { looser, winner }));
        },
        GameMode::Tournament => {
            let record: Player = if players[0].id == winner {
                players[0]
            } else {
                players[1]
            };
            actions.push(Action::ReportRound(RoundResult { winner: record, looser }));
            let ghost first = actions@;
            let mut i: usize = 0;
            while i < 2
                invariant
                    i <= 2,
                    players@.len() == 2,
                    actions@ == first + eliminations(players@.take(i as int), winner),
                decreases 2 - i,
            {
                proof {
                    let seen = players@.take(i as int + 1);
                    assert(seen.drop_last() =~= players@.take(i as int));
                    assert(seen.last() == players@[i as int]);
                }
                if players[i].id != winner {
                    actions.push(Action::Eliminate(Stop { id: players[i].id }));
                }
                i = i + 1;
            }
            assert(players@.take(2) =~= players@);
        },
    }
    actions
}

} // verus!
