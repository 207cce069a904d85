//! The text of a progress report: decimal numbers, `H:MM:SS` times and the
//! coloured status line.

use vstd::prelude::*;
use vstd::string::*;

verus! {

/// The character of one decimal digit.
pub open spec fn digit_char(d: nat) -> char {
    if d == 0 {
        '0'
    } else if d == 1 {
        '1'
    } else if d == 2 {
        '2'
    } else if d == 3 {
        '3'
    } else if d == 4 {
        '4'
    } else if d == 5 {
        '5'
    } else if d == 6 {
        '6'
    } else if d == 7 {
        '7'
    } else if d == 8 {
        '8'
    } else {
        '9'
    }
}

/// The decimal digits of `n`, most significant first, without leading zeros.
pub open spec fn decimal(n: nat) -> Seq<char>
    decreases n,
{
    if n < 10 {
        seq![digit_char(n)]
    } else {
        decimal(n / 10).push(digit_char(n % 10))
    }
}

/// The two decimal digits of `n`, for `n` below one hundred.
pub open spec fn two_digits(n: nat) -> Seq<char> {
    seq![digit_char(n / 10), digit_char(n % 10)]
}

/// `secs` seconds as hours, minutes and seconds: the hours with as many
/// digits as they take, minutes and seconds with two digits each.
pub open spec fn time_text(secs: nat) -> Seq<char> {
    decimal(secs / 3600) + seq![':'] + two_digits((secs % 3600) / 60) + seq![':'] + two_digits(
        secs % 60,
    )
}

fn digit_str(d: u8) -> (text: &'static str)
    requires
        d < 10,
    ensures
        text@ == seq![digit_char(d as nat)],
{
    proof {
        reveal_strlit("0");
        reveal_strlit("1");
        reveal_strlit("2");
        reveal_strlit("3");
        reveal_strlit("4");
        reveal_strlit("5");
        reveal_strlit("6");
        reveal_strlit("7");
        reveal_strlit("8");
        reveal_strlit("9");
    }
    let text = match d {
        0 => "0",
        1 => "1",
        2 => "2",
        3 => "3",
        4 => "4",
        5 => "5",
        6 => "6",
        7 => "7",
        8 => "8",
        _ => "9",
    };
    assert(text@ =~= seq![digit_char(d as nat)]);
    text
}

/// Appends the decimal digits of `n` to `out`.
pub fn push_decimal(out: &mut String, n: u128)
    ensures
        final(out)@ == old(out)@ + decimal(n as nat),
    decreases n,
{
    if n >= 10 {
        push_decimal(out, n / 10);
    }
    out.append(digit_str((n % 10) as u8));
    assert(final(out)@ =~= old(out)@ + decimal(n as nat));
}

/// Appends `n`, which is below one hundred, as two decimal digits.
pub fn push_two_digits(out: &mut String, n: u8)
    requires
        n < 100,
    ensures
        final(out)@ == old(out)@ + two_digits(n as nat),
{
    out.append(digit_str(n / 10));
    out.append(digit_str(n % 10));
    assert(final(out)@ =~= old(out)@ + two_digits(n as nat));
}

/// `n` in decimal.
pub fn decimal_string(n: u128) -> (text: String)
    ensures
        text@ == decimal(n as nat),
{
    let mut text = String::new();
    push_decimal(&mut text, n);
    assert(text@ =~= decimal(n as nat));
    text
}

/// `secs` seconds as `H:MM:SS`.
pub fn format_time(secs: u64) -> (text: String)
    ensures
        text@ == time_text(secs as nat),
{
    let hours: u64 = secs / 3600;
    let left: u64 = secs % 3600;
    let minutes: u64 = left / 60;
    let seconds: u64 = left % 60;
    proof {
        reveal_strlit(":");
    }
    let mut text = String::new();
    push_decimal(&mut text, hours as u128);
    text.append(":");
    push_two_digits(&mut text, minutes as u8);
    text.append(":");
    push_two_digits(&mut text, seconds as u8);
    assert(":"@ =~= seq![':']);
    assert(text@ =~= time_text(secs as nat));
    text
}

/// A count of seconds that can be written as `H:MM:SS`.
pub trait TimeOutput {
    /// The seconds that the value stands for.
    spec fn seconds(&self) -> nat;

    /// The value as `H:MM:SS`.
    fn as_time(&self) -> (text: String)
        ensures
            text@ == time_text(self.seconds()),
    ;
}

impl TimeOutput for u64 {
    open spec fn seconds(&self) -> nat {
        *self as nat
    }

    fn as_time(&self) -> (text: String) {
        format_time(*self)
    }
}

/// The escape sequence that starts every terminal command.
pub open spec fn escape_start() -> Seq<char> {
    seq!['\x1b', '[']
}

/// The command that moves the cursor to `column`, counted from zero: the
/// terminal counts columns from one.
pub open spec fn column_escape(column: nat) -> Seq<char> {
    escape_start() + decimal(column + 1) + seq!['G']
}

/// `text` as the terminal gets it when it is to appear in the colour
/// (`red`, `green`, `blue`). With `coloured` the text stands between the
/// command that sets the foreground colour and the one that resets it;
/// without, both commands are there but name no colour.
pub open spec fn painted(text: Seq<char>, red: u8, green: u8, blue: u8, coloured: bool) -> Seq<
    char,
> {
    if coloured {
        escape_start() + seq!['3', '8', ';', '2', ';'] + decimal(red as nat) + seq![';'] + decimal(
            green as nat,
        ) + seq![';'] + decimal(blue as nat) + seq!['m'] + text + escape_start() + seq![
            '3',
            '9',
            'm',
        ]
    } else {
        escape_start() + seq!['m'] + text + escape_start() + seq!['m']
    }
}

/// The plain text of the byte count: the number and a space.
pub open spec fn bytes_text(bytes: nat) -> Seq<char> {
    decimal(bytes) + seq![' ']
}

/// The plain text of the rate in bytes per second; a dash stands for a rate
/// that is not known.
pub open spec fn rate_text(rate: Option<u128>) -> Seq<char> {
    match rate {
        Some(r) => seq![' ', '['] + decimal(r as nat) + seq!['b', '/', 's', ']'],
        None => seq![' ', '[', '-', 'b', '/', 's', ']'],
    }
}

/// The whole status line: the cursor goes back to the first column, then
/// come the byte count, the elapsed time and the rate, each in its colour.
/// The three flags say which of the parts carry their colour.
pub open spec fn progress_text(
    bytes: nat,
    elapsed: Seq<char>,
    rate: Option<u128>,
    coloured: (bool, bool, bool),
) -> Seq<char> {
    column_escape(0) + painted(bytes_text(bytes), 255, 204, 255, coloured.0) + painted(
        elapsed,
        102,
        204,
        255,
        coloured.1,
    ) + painted(rate_text(rate), 204, 255, 153, coloured.2)
}

/// Calls `write_ansi` of crossterm's `MoveToColumn`, which writes the escape
/// start, the column plus one in decimal, and `G`. The column must leave
/// room for that addition.
#[verifier::external_body]
fn cursor_to_column(column: u16) -> (text: String)
    requires
        column < u16::MAX,
    ensures
        text@ == column_escape(column as nat),
{
    let mut text = String::new();
    let _ = crossterm::Command::write_ansi(&crossterm::cursor::MoveToColumn(column), &mut text);
    text
}

/// Renders `text` through crossterm's `style` and `Stylize::with` with an
/// RGB foreground colour. crossterm leaves the colour out where the
/// environment has switched colours off, so the result is one of the two
/// forms of `painted`; which one is not known here.
#[verifier::external_body]
fn paint(text: &str, red: u8, green: u8, blue: u8) -> (styled: String)
    ensures
        styled@ == painted(text@, red, green, blue, true) || styled@ == painted(
            text@,
            red,
            green,
            blue,
            false,
        ),
{
    let colour = crossterm::style::Color::Rgb { r: red, g: green, b: blue };
    crossterm::style::style(crossterm::style::Stylize::with(text, colour)).to_string()
}

/// The byte count as plain text.
pub fn bytes_segment(bytes: usize) -> (text: String)
    ensures
        text@ == bytes_text(bytes as nat),
{
    proof {
        reveal_strlit(" ");
    }
    let mut text = String::new();
    push_decimal(&mut text, bytes as u128);
    text.append(" ");
    assert(text@ =~= bytes_text(bytes as nat));
    text
}

/// The rate as plain text.
pub fn rate_segment(rate: Option<u128>) -> (text: String)
    ensures
        text@ == rate_text(rate),
{
    proof {
        reveal_strlit(" [");
        reveal_strlit("b/s]");
        reveal_strlit(" [-b/s]");
    }
    let mut text = String::new();
    match rate {
        Some(r) => {
            text.append(" [");
            push_decimal(&mut text, r);
            text.append("b/s]");
        },
        None => {
            text.append(" [-b/s]");
        },
    }
    assert(text@ =~= rate_text(rate));
    text
}

/// Puts the four parts of a status line together, in order.
pub fn join_segments(cursor: &str, bytes: &str, elapsed: &str, rate: &str) -> (line: String)
    ensures
        line@ == cursor@ + bytes@ + elapsed@ + rate@,
{
    let mut line = String::new();
    line.append(cursor);
    line.append(bytes);
    line.append(elapsed);
    line.append(rate);
    assert(line@ =~= cursor@ + bytes@ + elapsed@ + rate@);
    line
}

/// The status line for `bytes` bytes moved so far, the elapsed time as it
/// is to be shown, and the current rate. Each part carries its colour or,
/// where the terminal library leaves colours out, none.
pub fn progress_line(bytes: usize, elapsed: &str, rate: Option<u128>) -> (line: String)
    ensures
        exists|coloured: (bool, bool, bool)|
            line@ == #[trigger] progress_text(bytes as nat, elapsed@, rate, coloured),
{
    let cursor = cursor_to_column(0);
    let bytes_plain = bytes_segment(bytes);
    let bytes_part = paint(bytes_plain.as_str(), 255, 204, 255);
    let elapsed_part = paint(elapsed, 102, 204, 255);
    let rate_plain = rate_segment(rate);
    let rate_part = paint(rate_plain.as_str(), 204, 255, 153);
    let line = join_segments(
        cursor.as_str(),
        bytes_part.as_str(),
        elapsed_part.as_str(),
        rate_part.as_str(),
    );
    proof {
        let c0 = bytes_part@ == painted(bytes_text(bytes as nat), 255, 204, 255, true);
        let c1 = elapsed_part@ == painted(elapsed@, 102, 204, 255, true);
        let c2 = rate_part@ == painted(rate_text(rate), 204, 255, 153, true);
        assert(line@ == progress_text(bytes as nat, elapsed@, rate, (c0, c1, c2)));
    }
    line
}

} // verus!
