//! The message of the progress bar.

use scan_statistics::message::{compose_message, progress_message};
use scan_statistics::{handle_command, Reaction, StatCommand, StatError, StatField, Stats};

#[test]
fn numbers_are_filled_up_with_spaces() {
    assert_eq!(compose_message("found", 0, "errors", 42), "found:0       errors:42     ");
    assert_eq!(
        compose_message("found", 1234567, "errors", 12345678),
        "found:1234567 errors:12345678"
    );
    assert_eq!(compose_message("", 10, "", 9), ":10      :9      ");
}

#[test]
fn numbers_are_written_like_the_standard_library_does() {
    for n in [0, 1, 9, 10, 99, 100, 999_999, 1_000_000, 9_999_999, 10_000_000, usize::MAX] {
        assert_eq!(
            compose_message("a", n, "b", n),
            format!("a:{:<7} b:{:<7}", n, n)
        );
    }
}

#[test]
fn plain_labels_without_colors() {
    console::set_colors_enabled(false);
    assert_eq!(progress_message(3, 4), "found:3       errors:4      ");
}

#[test]
fn colored_labels_with_colors() {
    console::set_colors_enabled(true);
    let message = progress_message(3, 4);
    let expected = format!(
        "{}:{:<7} {}:{:<7}",
        console::style("found").green(),
        3,
        console::style("errors").red(),
        4
    );
    console::set_colors_enabled(false);
    assert_eq!(message, expected);
    assert_eq!(
        message,
        "\u{1b}[32mfound\u{1b}[0m:3       \u{1b}[31merrors\u{1b}[0m:4      "
    );
}

#[test]
fn message_shows_the_updated_counters() {
    console::set_colors_enabled(false);
    let mut stats = Stats::new();
    handle_command(
        &mut stats,
        StatCommand::UpdateUsizeField(StatField::ResourcesDiscovered, 12),
        0,
    );
    match handle_command(&mut stats, StatCommand::AddError(StatError::Connection), 0) {
        Reaction::Continue { message, .. } => {
            assert_eq!(message, "found:12      errors:1      ");
        }
        Reaction::Exit => panic!("left the loop"),
    }
}
