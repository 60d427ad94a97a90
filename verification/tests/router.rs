use pong::router::route;
use pong::{Action, GameMode, GameResult, Input, Player, RoundResult, Stop};

fn pair() -> [Player; 2] {
    [
        Player { id: 11, position: 5000, last_input: Input::Up },
        Player { id: 22, position: 4000, last_input: Input::Neutral },
    ]
}

#[test]
fn a_direct_match_reports_one_game_result() {
    let actions = route(GameMode::Direct, &pair(), 11, 22);
    assert_eq!(actions, vec![Action::ReportGame(GameResult { winner: 11, looser: 22 })]);
}

#[test]
fn a_matchmaking_match_reports_one_game_result() {
    let actions = route(GameMode::Matchmaking, &pair(), 22, 11);
    assert_eq!(actions, vec![Action::ReportGame(GameResult { winner: 22, looser: 11 })]);
}

#[test]
fn a_tournament_round_won_by_the_left_player() {
    let players = pair();
    let actions = route(GameMode::Tournament, &players, 11, 22);
    assert_eq!(
        actions,
        vec![
            Action::ReportRound(RoundResult { winner: players[0], looser: 22 }),
            Action::Eliminate(Stop { id: 22 }),
        ]
    );
}

#[test]
fn a_tournament_round_won_by_the_right_player() {
    let players = pair();
    let actions = route(GameMode::Tournament, &players, 22, 11);
    assert_eq!(
        actions,
        vec![
            Action::ReportRound(RoundResult { winner: players[1], looser: 11 }),
            Action::Eliminate(Stop { id: 11 }),
        ]
    );
}

#[test]
fn a_tournament_round_sends_one_report_and_one_elimination() {
    for (winner, looser) in [(11, 22), (22, 11)] {
        let actions = route(GameMode::Tournament, &pair(), winner, looser);
        let reports = actions
            .iter()
            .filter(|action| matches!(action, Action::ReportRound(_) | Action::ReportGame(_)))
            .count();
        let notices = actions.iter().filter(|action| matches!(action, Action::Eliminate(_))).count();
        assert_eq!(reports, 1);
        assert_eq!(notices, 1);
        assert_eq!(actions.len(), 2);
    }
}

#[test]
fn players_of_one_id_are_not_eliminated_by_it() {
    let players = [Player::new(5), Player::new(5)];
    let actions = route(GameMode::Tournament, &players, 5, 5);
    assert_eq!(actions, vec![Action::ReportRound(RoundResult { winner: players[0], looser: 5 })]);
}

#[test]
fn a_winner_who_is_no_player_eliminates_both() {
    let players = pair();
    let actions = route(GameMode::Tournament, &players, 99, 11);
    assert_eq!(
        actions,
        vec![
            Action::ReportRound(RoundResult { winner: players[1], looser: 11 }),
            Action::Eliminate(Stop { id: 11 }),
            Action::Eliminate(Stop { id: 22 }),
        ]
    );
}
