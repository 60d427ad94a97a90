//! The text frames a session sends to its players, and how each is written out.

use crate::player::UserId;
use vstd::prelude::*;
use vstd::string::StringExecFns;

verus! {

/// One outbound frame. A frame holds the values; `render` gives the line
/// that goes over the wire.
#[derive(Clone, Copy, Debug, PartialEq, Eq)]
pub enum Frame {
    /// Tells a player which side is theirs and who the opponent is.
    /// Side 0 is the left one; any other value stands for the right one.
    Orientation { side: usize, opponent: UserId },
    /// The rally starts in `seconds` seconds.
    Countdown { seconds: u64 },
    /// The rally starts now.
    Begin,
    /// Positions after a step: both paddles, then the ball.
    Position { left_paddle: u16, right_paddle: u16, ball_x: u16, ball_y: u16 },
    /// The score, the left side's goals first.
    Score { left: u8, right: u8 },
    /// The match is over.
    End,
}

/// The character for a single decimal digit.
pub open spec fn digit(d: int) -> char {
    if d == 0 {
        '0'
    } else if d == 1 {
        '1'
    } else if d == 2 {
        '2'
    } else if d == 3 {
        '3'
    } else if d == 4 {
        '4'
    } else if d == 5 {
        '5'
    } else if d == 6 {
        '6'
    } else if d == 7 {
        '7'
    } else if d == 8 {
        '8'
    } else {
        '9'
    }
}

/// `n` in decimal, without leading zeros.
pub open spec fn decimal(n: nat) -> Seq<char>
    decreases n,
{
    if n < 10 {
        seq![digit(n as int)]
    } else {
        decimal(n / 10).push(digit((n % 10) as int))
    }
}

/// The last five decimal digits of `n`, zeros included.
pub open spec fn padded(n: nat) -> Seq<char> {
    seq![
        digit((n / 10000 % 10) as int),
        digit((n / 1000 % 10) as int),
        digit((n / 100 % 10) as int),
        digit((n / 10 % 10) as int),
        digit((n % 10) as int),
    ]
}

impl Frame {
    /// The line for this frame.
    pub open spec fn text(self) -> Seq<char> {
        match self {
            Frame::Orientation { side, opponent } => if side == 0 {
                "FORMAT: YOU "@ + decimal(opponent as nat) + " (BALL.x) (BALL.y)"@
            } else {
                "FORMAT: "@ + decimal(opponent as nat) + " YOU (BALL.x) (BALL.y)"@
            },
            Frame::Countdown { seconds } => "Starting game in "@ + decimal(seconds as nat)
                + " Seconds"@,
            Frame::Begin => "BEG"@,
            Frame::Position { left_paddle, right_paddle, ball_x, ball_y } => "POS "@ + padded(
                left_paddle as nat,
            ) + " "@ + padded(right_paddle as nat) + " "@ + padded(ball_x as nat) + " "@ + padded(
                ball_y as nat,
            ),
            Frame::Score { left, right } => "SCR "@ + decimal(left as nat) + ":"@ + decimal(
                right as nat,
            ),
            Frame::End => "END"@,
        }
    }

    /// Writes the frame out.
    pub fn render(&self) -> (line: String)
        ensures
            line@ == self.text(),
    {
        match *self {
            Frame::Orientation { side, opponent } => {
                if side == 0 {
                    let mut line = String::from_str("FORMAT: YOU ");
                    push_decimal(&mut line, opponent as u64);
                    line.append(" (BALL.x) (BALL.y)");
                    line
                } else {
                    let mut line = String::from_str("FORMAT: ");
                    push_decimal(&mut line, opponent as u64);
                    line.append(" YOU (BALL.x) (BALL.y)");
                    line
                }
            },
            Frame::Countdown { seconds } => {
                let mut line = String::from_str("Starting game in ");
                push_decimal(&mut line, seconds);
                line.append(" Seconds");
                line
            },
            Frame::Begin => String::from_str("BEG"),
            Frame::Position { left_paddle, right_paddle, ball_x, ball_y } => {
                let mut line = String::from_str("POS ");
                push_padded(&mut line, left_paddle);
                line.append(" ");
                push_padded(&mut line, right_paddle);
                line.append(" ");
                push_padded(&mut line, ball_x);
                line.append(" ");
                push_padded(&mut line, ball_y);
                line
            },
            Frame::Score { left, right } => {
                let mut line = String::from_str("SCR ");
                push_decimal(&mut line, left as u64);
                line.append(":");
                push_decimal(&mut line, right as u64);
                line
            },
            Frame::End => String::from_str("END"),
        }
    }
}

/// A position line has a fixed shape: the tag, then four fields of five
/// digits each, every field led in by one blank.
pub proof fn lemma_position_line(left_paddle: u16, right_paddle: u16, ball_x: u16, ball_y: u16)
    ensures
        ({
            let line = (Frame::Position { left_paddle, right_paddle, ball_x, ball_y }).text();
            &&& line.len() == 27
            &&& line.subrange(0, 4) == seq!['P', 'O', 'S', ' ']
            &&& line.subrange(4, 9) == padded(left_paddle as nat)
            &&& line[9] == ' '
            &&& line.subrange(10, 15) == padded(right_paddle as nat)
            &&& line[15] == ' '
            &&& line.subrange(16, 21) == padded(ball_x as nat)
            &&& line[21] == ' '
            &&& line.subrange(22, 27) == padded(ball_y as nat)
        }),
{
    reveal_strlit("POS ");
    reveal_strlit(" ");
    let line = (Frame::Position { left_paddle, right_paddle, ball_x, ball_y }).text();
    assert(line.subrange(0, 4) =~= seq!['P', 'O', 'S', ' ']);
    assert(line.subrange(4, 9) =~= padded(left_paddle as nat));
    assert(line.subrange(10, 15) =~= padded(right_paddle as nat));
    assert(line.subrange(16, 21) =~= padded(ball_x as nat));
    assert(line.subrange(22, 27) =~= padded(ball_y as nat));
}

/// The one-character text of a decimal digit.
fn digit_str(d: u64) -> (text: &'static str)
    requires
        d < 10,
    ensures
        text@ == seq![digit(d as int)],
{
    proof {
        reveal_strlit("0");
        reveal_strlit("1");
        reveal_strlit("2");
        reveal_strlit("3");
        reveal_strlit("4");
        reveal_strlit("5");
        reveal_strlit("6");
        reveal_strlit("7");
        reveal_strlit("8");
        reveal_strlit("9");
    }
    let text = if d == 0 {
        "0"
    } else if d == 1 {
        "1"
    } else if d == 2 {
        "2"
    } else if d == 3 {
        "3"
    } else if d == 4 {
        "4"
    } else if d == 5 {
        "5"
    } else if d == 6 {
        "6"
    } else if d == 7 {
        "7"
    } else if d == 8 {
        "8"
    } else {
        "9"
    };
    assert(text@ =~= seq![digit(d as int)]);
    text
}

/// Appends `n` in decimal.
pub fn push_decimal(line: &mut String, n: u64)
    ensures
        final(line)@ == old(line)@ + decimal(n as nat),
    decreases n,
{
    if n >= 10 {
        push_decimal(line, n / 10);
    }
    line.append(digit_str(n % 10));
    assert(line@ =~= old(line)@ + decimal(n as nat));
}

/// Appends `n` as five decimal digits.
pub fn push_padded(line: &mut String, n: u16)
    ensures
        final(line)@ == old(line)@ + padded(n as nat),
{
    let n: u64 = n as u64;
    line.append(digit_str(n / 10000 % 10));
    line.append(digit_str(n / 1000 % 10));
    line.append(digit_str(n / 100 % 10));
    line.append(digit_str(n / 10 % 10));
    line.append(digit_str(n % 10));
    assert(line@ =~= old(line)@ + padded(n as nat));
}

} // verus!
