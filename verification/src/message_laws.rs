//! What holds of the message that the progress bar shows.

use crate::command::StatCommand;
use crate::handler::{handle_command, Reaction};
use crate::message::{
    color_on, compose_message, decimal, digit, is_colored, is_progress_message, left_justified,
    message_text, progress_message, styles_off, GREEN, NUMBER_WIDTH, RED,
};
use crate::operation_laws::law_view_shows_the_fields;
use crate::stats::Stats;
use vstd::prelude::*;

verus! {

/// Whether a character is a decimal digit.
pub open spec fn is_digit(c: char) -> bool {
    '0' <= c <= '9'
}

/// The number that a text of decimal digits stands for.
pub open spec fn number_read(digits: Seq<char>) -> nat
    decreases digits.len(),
{
    if digits.len() == 0 {
        0
    } else {
        number_read(digits.drop_last()) * 10 + (digits.last() as nat - '0' as nat) as nat
    }
}

/// Whether a text is a number written in decimal digits, without leading zeros.
pub open spec fn writes(digits: Seq<char>, number: nat) -> bool {
    &&& digits.len() > 0
    &&& forall|i: int| 0 <= i < digits.len() ==> is_digit(#[trigger] digits[i])
    &&& digits.len() > 1 ==> digits[0] != '0'
    &&& number_read(digits) == number
}

/// Whether a text is a number, followed by as many spaces as it takes to be seven characters long.
pub open spec fn shows(text: Seq<char>, number: nat) -> bool {
    exists|digits: Seq<char>|
        {
            &&& #[trigger] writes(digits, number)
            &&& digits.is_prefix_of(text)
            &&& forall|i: int| digits.len() <= i < text.len() ==> #[trigger] text[i] == ' '
            &&& text.len() == (if digits.len() < 7 {
                7
            } else {
                digits.len()
            })
        }
}

/// Whether a text shows two labels, each followed by a colon and its number.
pub open spec fn shows_labelled(
    text: Seq<char>,
    first_label: Seq<char>,
    first: nat,
    second_label: Seq<char>,
    second: nat,
) -> bool {
    exists|first_number: Seq<char>, second_number: Seq<char>|
        {
            &&& #[trigger] shows(first_number, first)
            &&& #[trigger] shows(second_number, second)
            &&& text == first_label + seq![':'] + first_number + seq![' '] + second_label
                + seq![':'] + second_number
        }
}

/// Whether a text is a word, either as it is or between the escape sequences for the foreground
/// color with the given digit and for no style.
pub open spec fn is_word_in_color(text: Seq<char>, word: Seq<char>, color: char) -> bool {
    ||| text == word
    ||| text == seq!['\u{1b}', '[', '3', color, 'm'] + word + seq!['\u{1b}', '[', '0', 'm']
}

/// Whether a text tells how many resources were found, in green, and how many errors were met,
/// in red.
pub open spec fn tells_progress(text: Seq<char>, found: usize, errors: usize) -> bool {
    exists|found_label: Seq<char>, errors_label: Seq<char>|
        {
            &&& is_word_in_color(found_label, "found"@, '2')
            &&& is_word_in_color(errors_label, "errors"@, '1')
            &&& #[trigger] shows_labelled(
                text,
                found_label,
                found as nat,
                errors_label,
                errors as nat,
            )
        }
}

/// The decimal digits of a number are read as that number again, and have no leading zeros.
pub proof fn law_decimal_is_read_back(n: nat)
    ensures
        writes(decimal(n), n),
    decreases n,
{
    if n < 10 {
        assert(decimal(n).drop_last() =~= Seq::<char>::empty());
        assert(decimal(n).last() == digit(n));
        reveal_with_fuel(number_read, 2);
    } else {
        law_decimal_is_read_back(n / 10);
        let leading = decimal(n / 10);
        assert(decimal(n).drop_last() =~= leading);
        assert(decimal(n).last() == digit(n % 10));
        assert(decimal(n)[0] == leading[0]);
        if leading.len() == 1 {
            assert(leading.drop_last() =~= Seq::<char>::empty());
            reveal_with_fuel(number_read, 2);
        }
        assert forall|i: int| 0 <= i < decimal(n).len() implies is_digit(
            #[trigger] decimal(n)[i],
        ) by {
            if i < leading.len() {
                assert(decimal(n)[i] == leading[i]);
            }
        }
    }
}

/// Two numbers with the same decimal digits are the same.
pub proof fn law_decimal_is_unambiguous(a: nat, b: nat)
    requires
        decimal(a) == decimal(b),
    ensures
        a == b,
{
    law_decimal_is_read_back(a);
    law_decimal_is_read_back(b);
}

proof fn lemma_shows(n: nat)
    ensures
        shows(left_justified(decimal(n), NUMBER_WIDTH as nat), n),
{
    law_decimal_is_read_back(n);
    assert(decimal(n).is_prefix_of(left_justified(decimal(n), NUMBER_WIDTH as nat)));
}

proof fn lemma_message_text(
    found_label: Seq<char>,
    found: nat,
    errors_label: Seq<char>,
    errors: nat,
)
    ensures
        shows_labelled(
            message_text(found_label, found, errors_label, errors),
            found_label,
            found,
            errors_label,
            errors,
        ),
{
    lemma_shows(found);
    lemma_shows(errors);
}

/// A composed message shows each label with its own number, in the order of the arguments.
pub proof fn law_message_shows_both_numbers(
    found_label: &str,
    found: usize,
    errors_label: &str,
    errors: usize,
    message: String,
)
    requires
        call_ensures(compose_message, (found_label, found, errors_label, errors), message),
    ensures
        shows_labelled(message@, found_label@, found as nat, errors_label@, errors as nat),
{
    lemma_message_text(found_label@, found as nat, errors_label@, errors as nat);
}

proof fn lemma_colors()
    ensures
        color_on(GREEN as nat) == seq!['\u{1b}', '[', '3', '2', 'm'],
        color_on(RED as nat) == seq!['\u{1b}', '[', '3', '1', 'm'],
        styles_off() == seq!['\u{1b}', '[', '0', 'm'],
{
    reveal_with_fuel(decimal, 2);
    assert(color_on(GREEN as nat) =~= seq!['\u{1b}', '[', '3', '2', 'm']);
    assert(color_on(RED as nat) =~= seq!['\u{1b}', '[', '3', '1', 'm']);
}

proof fn lemma_tells_progress(shown: Seq<char>, found: usize, errors: usize)
    requires
        is_progress_message(shown, found as nat, errors as nat),
    ensures
        tells_progress(shown, found, errors),
{
    lemma_colors();
    let (found_label, errors_label) = choose|found_label: Seq<char>, errors_label: Seq<char>|
        {
            &&& is_colored(found_label, "found"@, GREEN as nat)
            &&& is_colored(errors_label, "errors"@, RED as nat)
            &&& shown == #[trigger] message_text(
                found_label,
                found as nat,
                errors_label,
                errors as nat,
            )
        };
    lemma_message_text(found_label, found as nat, errors_label, errors as nat);
}

/// The message of the progress bar tells the number of resources found and of errors met.
pub proof fn law_message_tells_progress(found: usize, errors: usize, message: String)
    requires
        call_ensures(progress_message, (found, errors), message),
    ensures
        tells_progress(message@, found, errors),
{
    lemma_tells_progress(message@, found, errors);
}

/// After every command but `Exit` the progress bar is to tell the numbers of resources found and
/// of errors met that the statistics then hold.
pub proof fn law_reaction_tells_progress(
    stats: &mut Stats,
    command: StatCommand,
    num_extensions: usize,
    reaction: Reaction,
)
    requires
        call_ensures(handle_command, (stats, command, num_extensions), reaction),
    ensures
        reaction matches Reaction::Continue { effect, message } ==> tells_progress(
            message@,
            final(stats).resources_discovered,
            final(stats).errors,
        ),
{
    law_view_shows_the_fields(*final(stats));
    if let Reaction::Continue { effect, message } = reaction {
        lemma_tells_progress(message@, final(stats).resources_discovered, final(stats).errors);
    }
}

} // verus!
