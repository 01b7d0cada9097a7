//! The message that the progress bar of a scan shows.

use vstd::prelude::*;
use vstd::string::StringExecFns;

verus! {

/// The width to which the numbers of a message are filled up with spaces.
pub const NUMBER_WIDTH: usize = 7;

/// The character of a decimal digit.
pub open spec fn digit(d: nat) -> char
    recommends
        d < 10,
{
    ('0' as nat + d) as char
}

/// The decimal digits of a number, without leading zeros.
pub open spec fn decimal(n: nat) -> Seq<char>
    decreases n,
{
    if n < 10 {
        seq![digit(n)]
    } else {
        decimal(n / 10).push(digit(n % 10))
    }
}

/// A text filled up with spaces on the right until it is `width` characters long.
pub open spec fn left_justified(text: Seq<char>, width: nat) -> Seq<char> {
    if text.len() < width {
        text + Seq::new((width - text.len()) as nat, |i: int| ' ')
    } else {
        text
    }
}

/// The message made of two labels and their numbers.
pub open spec fn message_text(
    found_label: Seq<char>,
    found: nat,
    errors_label: Seq<char>,
    errors: nat,
) -> Seq<char> {
    found_label + seq![':'] + left_justified(decimal(found), NUMBER_WIDTH as nat) + seq![' ']
        + errors_label + seq![':'] + left_justified(decimal(errors), NUMBER_WIDTH as nat)
}

/// The escape sequence that turns on the foreground color with the given number.
pub open spec fn color_on(color: nat) -> Seq<char> {
    seq!['\u{1b}', '['] + decimal(30 + color) + seq!['m']
}

/// The escape sequence that turns all styles off.
pub open spec fn styles_off() -> Seq<char> {
    seq!['\u{1b}', '[', '0', 'm']
}

/// Whether `shown` is `text` as a terminal gets it that is to show it in a color:
/// with the escape sequences around it if it takes colors, else as it is.
pub open spec fn is_colored(shown: Seq<char>, text: Seq<char>, color: nat) -> bool {
    shown == text || shown == color_on(color) + text + styles_off()
}

/// Number of the color green in escape sequences.
pub const GREEN: usize = 2;

/// Number of the color red in escape sequences.
pub const RED: usize = 1;

/// Whether `shown` is the message for the given numbers, its labels in their colors.
pub open spec fn is_progress_message(shown: Seq<char>, found: nat, errors: nat) -> bool {
    exists|found_label: Seq<char>, errors_label: Seq<char>|
        {
            &&& is_colored(found_label, "found"@, GREEN as nat)
            &&& is_colored(errors_label, "errors"@, RED as nat)
            &&& shown == #[trigger] message_text(found_label, found, errors_label, errors)
        }
}

/// `console::style(text).green()`, written out: the text as it is, or between the
/// escape sequences for green and for no style. Which of the two it is depends on
/// the terminal and the environment, so that is left open.
#[verifier::external_body]
fn green(text: &str) -> (shown: String)
    ensures
        is_colored(shown@, text@, GREEN as nat),
{
    console::style(text).green().to_string()
}

/// `console::style(text).red()`, written out: the text as it is, or between the
/// escape sequences for red and for no style. Which of the two it is depends on
/// the terminal and the environment, so that is left open.
#[verifier::external_body]
fn red(text: &str) -> (shown: String)
    ensures
        is_colored(shown@, text@, RED as nat),
{
    console::style(text).red().to_string()
}

/// Append one decimal digit.
fn append_digit(text: &mut String, d: usize)
    requires
        d < 10,
    ensures
        final(text)@ == old(text)@.push(digit(d as nat)),
{
    proof {
        reveal_strlit("0");
        reveal_strlit("1");
        reveal_strlit("2");
        reveal_strlit("3");
        reveal_strlit("4");
        reveal_strlit("5");
        reveal_strlit("6");
        reveal_strlit("7");
        reveal_strlit("8");
        reveal_strlit("9");
    }
    let shown: &str = match d {
        0 => "0",
        1 => "1",
        2 => "2",
        3 => "3",
        4 => "4",
        5 => "5",
        6 => "6",
        7 => "7",
        8 => "8",
        _ => "9",
    };
    text.append(shown);
    assert(shown@ =~= seq![digit(d as nat)]);
    assert(text@ =~= old(text)@.push(digit(d as nat)));
}

/// Append the decimal digits of a number and tell how many they are.
fn append_decimal(text: &mut String, n: usize) -> (digits: usize)
    ensures
        final(text)@ == old(text)@ + decimal(n as nat),
        digits as nat == decimal(n as nat).len(),
        digits <= n + 1,
    decreases n,
{
    if n < 10 {
        append_digit(text, n);
        assert(text@ =~= old(text)@ + decimal(n as nat));
        1
    } else {
        let leading: usize = append_decimal(text, n / 10);
        append_digit(text, n % 10);
        assert(text@ =~= old(text)@ + decimal(n as nat));
        leading + 1
    }
}

/// Append a number, filled up with spaces on the right.
fn append_number(text: &mut String, n: usize)
    ensures
        final(text)@ == old(text)@ + left_justified(decimal(n as nat), NUMBER_WIDTH as nat),
{
    let digits: usize = append_decimal(text, n);
    let ghost shown = decimal(n as nat);
    let mut filled: usize = digits;
    assert(Seq::new(0, |i: int| ' ') =~= Seq::<char>::empty());
    while filled < NUMBER_WIDTH
        invariant
            digits as nat == shown.len(),
            digits <= filled,
            filled <= digits || filled <= NUMBER_WIDTH,
            text@ == old(text)@ + shown + Seq::new((filled - digits) as nat, |i: int| ' '),
        decreases NUMBER_WIDTH - filled,
    {
        proof {
            reveal_strlit(" ");
        }
        text.append(" ");
        filled += 1;
        assert(text@ =~= old(text)@ + shown + Seq::new((filled - digits) as nat, |i: int| ' '));
    }
    assert(text@ =~= old(text)@ + left_justified(shown, NUMBER_WIDTH as nat));
}

/// The message made of two labels and their numbers.
pub fn compose_message(found_label: &str, found: usize, errors_label: &str, errors: usize) -> (message:
    String)
    ensures
        message@ == message_text(found_label@, found as nat, errors_label@, errors as nat),
{
    proof {
        reveal_strlit(":");
        reveal_strlit(" ");
    }
    let mut message = String::new();
    message.append(found_label);
    message.append(":");
    append_number(&mut message, found);
    message.append(" ");
    message.append(errors_label);
    message.append(":");
    append_number(&mut message, errors);
    assert(":"@ =~= seq![':']);
    assert(" "@ =~= seq![' ']);
    assert(message@ =~= message_text(found_label@, found as nat, errors_label@, errors as nat));
    message
}

/// The message for the numbers of resources found and of errors met so far.
pub fn progress_message(found: usize, errors: usize) -> (message: String)
    ensures
        is_progress_message(message@, found as nat, errors as nat),
{
    let found_label = green("found");
    let errors_label = red("errors");
    compose_message(found_label.as_str(), found, errors_label.as_str(), errors)
}

} // verus!
