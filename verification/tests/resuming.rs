//! Taking up saved statistics.

use scan_statistics::{
    handle_command, load_state, load_stats, update_stats, LoadError, Seconds, StatCommand,
    StatField, Stats,
};
use serde_json::Value;

fn time(seconds: f64) -> Seconds {
    Seconds { bits: seconds.to_bits() }
}

fn saved() -> Stats {
    let mut stats = Stats::new();
    stats.timeouts = 1;
    stats.requests = 2;
    stats.errors = 3;
    stats.successes = 4;
    stats.redirects = 5;
    stats.client_errors = 6;
    stats.server_errors = 7;
    stats.links_extracted = 8;
    stats.status_200s = 9;
    stats.status_403s = 10;
    stats.status_301s = 11;
    stats.status_302s = 12;
    stats.status_401s = 13;
    stats.status_429s = 14;
    stats.status_500s = 15;
    stats.status_503s = 16;
    stats.status_504s = 17;
    stats.status_508s = 18;
    stats.wildcards_filtered = 19;
    stats.responses_filtered = 20;
    stats.resources_discovered = 21;
    stats.directory_scan_times = vec![time(1.5), time(0.25)];
    stats.url_format_errors = 22;
    stats.redirection_errors = 23;
    stats.connection_errors = 24;
    stats.request_errors = 25;
    stats.total_expected = 26;
    stats.total_scans = 27;
    stats.expected_per_scan = 28;
    stats.initial_targets = 29;
    stats.total_runtime = vec![time(3.5)];
    stats
}

fn counter(field: StatField, value: usize) -> StatCommand {
    StatCommand::UpdateUsizeField(field, value)
}

/// make statistics of JSON that holds a number of requests
fn decode(json: &Value) -> Option<Stats> {
    let requests = json.get("requests")?.as_u64()?;
    let mut stats = Stats::new();
    stats.requests = requests as usize;
    Some(stats)
}

fn requests_of(commands: &[StatCommand]) -> usize {
    assert_eq!(commands.len(), 25);
    match commands[1] {
        StatCommand::UpdateUsizeField(StatField::Requests, requests) => requests,
        _ => panic!("another command"),
    }
}

#[test]
fn updates_are_listed_in_order() {
    assert_eq!(
        update_stats(saved()),
        vec![
            counter(StatField::Timeouts, 1),
            counter(StatField::Requests, 2),
            counter(StatField::Errors, 3),
            counter(StatField::Successes, 4),
            counter(StatField::Redirects, 5),
            counter(StatField::ClientErrors, 6),
            counter(StatField::ServerErrors, 7),
            counter(StatField::LinksExtracted, 8),
            counter(StatField::Status200s, 9),
            counter(StatField::Status403s, 10),
            counter(StatField::Status301s, 11),
            counter(StatField::Status302s, 12),
            counter(StatField::Status401s, 13),
            counter(StatField::Status429s, 14),
            counter(StatField::Status500s, 15),
            counter(StatField::Status503s, 16),
            counter(StatField::Status504s, 17),
            counter(StatField::Status508s, 18),
            counter(StatField::WildcardsFiltered, 19),
            counter(StatField::ResponsesFiltered, 1),
            counter(StatField::ResourcesDiscovered, 21),
            StatCommand::UpdateF64Field(StatField::DirScanTimes, time(1.5)),
            StatCommand::UpdateF64Field(StatField::DirScanTimes, time(0.25)),
            counter(StatField::UrlFormatErrors, 22),
            counter(StatField::RedirectionErrors, 23),
            counter(StatField::ConnectionErrors, 24),
            counter(StatField::RequestErrors, 25),
        ]
    );
}

#[test]
fn resumed_scan_has_saved_counts() {
    let mut stats = Stats::new();
    for command in update_stats(saved()) {
        handle_command(&mut stats, command, 0);
    }
    assert_eq!(stats.timeouts, 1);
    assert_eq!(stats.requests, 2);
    assert_eq!(stats.errors, 3);
    assert_eq!(stats.status_508s, 18);
    assert_eq!(stats.wildcards_filtered, 19);
    assert_eq!(stats.responses_filtered, 20);
    assert_eq!(stats.resources_discovered, 21);
    assert_eq!(stats.request_errors, 25);
    assert_eq!(stats.directory_scan_times, vec![time(1.5), time(0.25)]);
    assert_eq!(stats.total_expected, 0);
    assert_eq!(stats.total_scans, 0);
    assert_eq!(stats.expected_per_scan, 0);
    assert_eq!(stats.initial_targets, 0);
    assert_eq!(stats.total_runtime, vec![time(0.0)]);
}

#[test]
fn filtered_wildcards_and_responses_are_given_back() {
    let mut before = Stats::new();
    before.update_usize_field(StatField::WildcardsFiltered, 2, 0);
    before.update_usize_field(StatField::ResponsesFiltered, 3, 0);
    assert_eq!(before.responses_filtered, 5);
    let mut stats = Stats::new();
    for command in update_stats(before) {
        handle_command(&mut stats, command, 0);
    }
    assert_eq!(stats.wildcards_filtered, 2);
    assert_eq!(stats.responses_filtered, 5);
}

#[test]
fn wrapped_responses_are_given_back() {
    let mut before = Stats::new();
    before.wildcards_filtered = 7;
    before.responses_filtered = 3;
    let mut stats = Stats::new();
    for command in update_stats(before) {
        handle_command(&mut stats, command, 0);
    }
    assert_eq!(stats.wildcards_filtered, 7);
    assert_eq!(stats.responses_filtered, 3);
}

#[test]
fn statistics_of_a_state_are_loaded() {
    let contents = b"{\"scans\": [], \"statistics\": {\"requests\": 17}}";
    let commands = load_stats(contents, decode).unwrap();
    assert_eq!(requests_of(&commands), 17);
}

#[test]
fn other_statistics_are_ignored() {
    let contents = b"{\"statistics\": {\"type\": \"statistics\"}}";
    assert_eq!(load_stats(contents, decode), Ok(vec![]));
}

#[test]
fn states_without_statistics_are_ignored() {
    assert_eq!(load_stats(b"{\"responses\": {\"requests\": 17}}", decode), Ok(vec![]));
    assert_eq!(load_stats(b"{\"requests\": 17}", decode), Ok(vec![]));
    assert_eq!(load_stats(b"[{\"requests\": 17}]", decode), Ok(vec![]));
    assert_eq!(load_stats(b"\"statistics\"", decode), Ok(vec![]));
    assert_eq!(load_stats(b"null", decode), Ok(vec![]));
}

#[test]
fn states_that_are_no_json_are_refused() {
    assert_eq!(load_stats(b"", decode), Err(LoadError::InvalidState));
    assert_eq!(load_stats(b"{\"statistics\": ", decode), Err(LoadError::InvalidState));
    assert_eq!(load_stats(b"{} {}", decode), Err(LoadError::InvalidState));
}

#[test]
fn parsed_states_are_loaded() {
    let state: Value = serde_json::from_str("{\"statistics\": {\"requests\": 5}}").unwrap();
    assert_eq!(requests_of(&load_state(&state, decode)), 5);
    assert!(load_state(&Value::Null, decode).is_empty());
}
