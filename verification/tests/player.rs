use pong::{GameConfig, Input, Player};

#[test]
fn new_player_rests_at_zero() {
    let player = Player::new(17);
    assert_eq!(player, Player { id: 17, position: 0, last_input: Input::Neutral });
}

#[test]
fn three_characters_are_commands() {
    assert_eq!(Input::from_char('u'), Some(Input::Up));
    assert_eq!(Input::from_char('d'), Some(Input::Down));
    assert_eq!(Input::from_char('n'), Some(Input::Neutral));
}

#[test]
fn other_characters_are_no_commands() {
    assert_eq!(Input::from_char('U'), None);
    assert_eq!(Input::from_char('x'), None);
    assert_eq!(Input::from_char(' '), None);
    assert_eq!(Input::from_char('\n'), None);
    assert_eq!(Input::from_char('é'), None);
}

#[test]
fn up_moves_by_the_paddle_speed() {
    let config = GameConfig::new();
    let mut player = Player { id: 1, position: 5000, last_input: Input::Up };
    player.update(&config);
    assert_eq!(player, Player { id: 1, position: 5050, last_input: Input::Up });
}

#[test]
fn down_moves_by_the_paddle_speed() {
    let config = GameConfig::new();
    let mut player = Player { id: 1, position: 5000, last_input: Input::Down };
    player.update(&config);
    assert_eq!(player, Player { id: 1, position: 4950, last_input: Input::Down });
}

#[test]
fn neutral_does_not_move() {
    let config = GameConfig::new();
    let mut player = Player { id: 1, position: 5000, last_input: Input::Neutral };
    player.update(&config);
    assert_eq!(player.position, 5000);
    let mut low = Player { id: 1, position: 0, last_input: Input::Neutral };
    low.update(&config);
    assert_eq!(low.position, 0);
    let mut high = Player { id: 1, position: 10000, last_input: Input::Neutral };
    high.update(&config);
    assert_eq!(high.position, 10000);
}

#[test]
fn the_upper_wall_stops_the_paddle() {
    let config = GameConfig::new();
    let mut player = Player { id: 1, position: 9980, last_input: Input::Up };
    player.update(&config);
    assert_eq!(player.position, 10000);
    player.update(&config);
    assert_eq!(player.position, 10000);
}

#[test]
fn the_lower_wall_stops_the_paddle() {
    let config = GameConfig::new();
    let mut player = Player { id: 1, position: 20, last_input: Input::Down };
    player.update(&config);
    assert_eq!(player.position, 0);
    player.update(&config);
    assert_eq!(player.position, 0);
}

#[test]
fn holding_a_direction_never_leaves_the_field() {
    let config = GameConfig::new();
    let mut player = Player::new(1);
    player.last_input = Input::Up;
    for step in 1..=1000u32 {
        player.update(&config);
        let expected = if step < 200 { 50 * step } else { 10000 };
        assert_eq!(u32::from(player.position), expected);
    }
    player.last_input = Input::Down;
    for step in 1..=1000u32 {
        player.update(&config);
        let expected = if step < 200 { 10000 - 50 * step } else { 0 };
        assert_eq!(u32::from(player.position), expected);
    }
}

#[test]
fn a_paddle_outside_the_field_comes_back_in() {
    let config = GameConfig::new();
    let mut player = Player { id: 1, position: 60000, last_input: Input::Neutral };
    player.update(&config);
    assert_eq!(player.position, 10000);
    let mut other = Player { id: 1, position: 65535, last_input: Input::Up };
    other.update(&config);
    assert_eq!(other.position, 10000);
}

#[test]
fn a_speed_wider_than_the_field_is_held_by_the_walls() {
    let config = GameConfig { height: 100, paddle_speed: 65535, ..GameConfig::new() };
    let mut player = Player { id: 1, position: 40, last_input: Input::Up };
    player.update(&config);
    assert_eq!(player.position, 100);
    player.last_input = Input::Down;
    player.update(&config);
    assert_eq!(player.position, 0);
}

#[test]
fn reset_centres_the_paddle_and_keeps_the_input() {
    let config = GameConfig::new();
    let mut player = Player { id: 9, position: 123, last_input: Input::Down };
    player.reset(&config);
    assert_eq!(player, Player { id: 9, position: 5000, last_input: Input::Down });
    let odd = GameConfig { height: 101, ..GameConfig::new() };
    player.reset(&odd);
    assert_eq!(player.position, 50);
}
