use pong::frame::{push_decimal, push_padded};
use pong::Frame;

#[test]
fn orientation_for_the_left_player() {
    let frame = Frame::Orientation { side: 0, opponent: 42 };
    assert_eq!(frame.render(), "FORMAT: YOU 42 (BALL.x) (BALL.y)");
}

#[test]
fn orientation_for_the_right_player() {
    let frame = Frame::Orientation { side: 1, opponent: 7 };
    assert_eq!(frame.render(), "FORMAT: 7 YOU (BALL.x) (BALL.y)");
}

#[test]
fn orientation_for_any_other_side_reads_as_the_right_one() {
    let frame = Frame::Orientation { side: 5, opponent: 0 };
    assert_eq!(frame.render(), "FORMAT: 0 YOU (BALL.x) (BALL.y)");
}

#[test]
fn countdown_names_the_seconds() {
    assert_eq!(Frame::Countdown { seconds: 3 }.render(), "Starting game in 3 Seconds");
    assert_eq!(Frame::Countdown { seconds: 0 }.render(), "Starting game in 0 Seconds");
    assert_eq!(Frame::Countdown { seconds: 120 }.render(), "Starting game in 120 Seconds");
}

#[test]
fn begin_and_end() {
    assert_eq!(Frame::Begin.render(), "BEG");
    assert_eq!(Frame::End.render(), "END");
}

#[test]
fn positions_are_five_digits_each() {
    let frame = Frame::Position { left_paddle: 5000, right_paddle: 4950, ball_x: 7, ball_y: 10000 };
    assert_eq!(frame.render(), "POS 05000 04950 00007 10000");
    let zero = Frame::Position { left_paddle: 0, right_paddle: 0, ball_x: 0, ball_y: 0 };
    assert_eq!(zero.render(), "POS 00000 00000 00000 00000");
    let full = Frame::Position { left_paddle: 65535, right_paddle: 99, ball_x: 12345, ball_y: 9999 };
    assert_eq!(full.render(), "POS 65535 00099 12345 09999");
}

#[test]
fn positions_read_as_the_standard_formatter_writes_them() {
    for value in [0u16, 1, 9, 10, 99, 100, 999, 1000, 9999, 10000, 54321, 65535] {
        let frame = Frame::Position { left_paddle: value, right_paddle: 0, ball_x: value, ball_y: 1 };
        assert_eq!(frame.render(), format!("POS {:05} {:05} {:05} {:05}", value, 0, value, 1));
    }
}

#[test]
fn score_is_plain_decimal() {
    assert_eq!(Frame::Score { left: 0, right: 0 }.render(), "SCR 0:0");
    assert_eq!(Frame::Score { left: 2, right: 1 }.render(), "SCR 2:1");
    assert_eq!(Frame::Score { left: 255, right: 10 }.render(), "SCR 255:10");
}

#[test]
fn decimal_has_no_leading_zeros() {
    for value in [0u64, 1, 9, 10, 11, 99, 100, 101, 1234567890, u64::MAX] {
        let mut line = String::from("id ");
        push_decimal(&mut line, value);
        assert_eq!(line, format!("id {}", value));
    }
    let mut line = String::new();
    push_decimal(&mut line, u64::MAX);
    assert_eq!(line, "18446744073709551615");
}

#[test]
fn padded_appends_to_what_is_there() {
    let mut line = String::from("x=");
    push_padded(&mut line, 42);
    assert_eq!(line, "x=00042");
    push_padded(&mut line, 65535);
    assert_eq!(line, "x=0004265535");
}
