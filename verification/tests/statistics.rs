//! The statistics and their handler.

use scan_statistics::{
    accepts_command, handle_command, Effect, Reaction, Seconds, StatCommand, StatError, StatField,
    Stats, StatusCode,
};

fn code(number: u16) -> StatusCode {
    StatusCode::from_u16(number).unwrap()
}

fn status(status: reqwest::StatusCode) -> StatusCode {
    code(status.as_u16())
}

/// handle the given commands and tell how many were received until the handler left its loop
fn run(stats: &mut Stats, commands: Vec<StatCommand>) -> usize {
    let mut received = 0;
    for command in commands {
        received += 1;
        assert!(accepts_command(stats, &command, 0));
        if handle_command(stats, command, 0) == Reaction::Exit {
            break;
        }
    }
    received
}

fn effect(stats: &mut Stats, command: StatCommand, num_extensions: usize) -> Effect {
    match handle_command(stats, command, num_extensions) {
        Reaction::Continue { effect, .. } => effect,
        Reaction::Exit => panic!("left the loop"),
    }
}

/// when sent StatCommand::Exit, the handler should exit its loop (runs forever otherwise)
#[test]
fn statistics_handler_exits() {
    let mut stats = Stats::new();
    let received = run(
        &mut stats,
        vec![StatCommand::Exit, StatCommand::AddRequest],
    );
    assert_eq!(received, 1);
    assert_eq!(stats.requests, 0);
}

/// when sent StatCommand::AddRequest, stats object should reflect the change
#[test]
fn statistics_handler_increments_requests() {
    let mut stats = Stats::new();
    run(
        &mut stats,
        vec![
            StatCommand::AddRequest,
            StatCommand::AddRequest,
            StatCommand::AddRequest,
            StatCommand::Exit,
        ],
    );
    assert_eq!(stats.requests, 3);
}

/// incrementing a 403 (tracked in status_403s) should also increment:
///     - errors
///     - requests
///     - client_errors
#[test]
fn statistics_handler_increments_403() {
    let mut stats = Stats::new();
    run(
        &mut stats,
        vec![
            StatCommand::AddError(StatError::Status403),
            StatCommand::AddError(StatError::Status403),
            StatCommand::Exit,
        ],
    );
    assert_eq!(stats.errors, 2);
    assert_eq!(stats.requests, 2);
    assert_eq!(stats.status_403s, 2);
    assert_eq!(stats.client_errors, 2);
}

/// incrementing a 403 (tracked in status_403s) should also increment:
///     - requests
///     - client_errors
#[test]
fn statistics_handler_increments_403_via_status_code() {
    let mut stats = Stats::new();
    run(
        &mut stats,
        vec![
            StatCommand::AddStatus(status(reqwest::StatusCode::FORBIDDEN)),
            StatCommand::AddStatus(status(reqwest::StatusCode::FORBIDDEN)),
            StatCommand::Exit,
        ],
    );
    assert_eq!(stats.requests, 2);
    assert_eq!(stats.status_403s, 2);
    assert_eq!(stats.client_errors, 2);
    assert_eq!(stats.errors, 2);
}

/// incrementing a 500 (tracked in server_errors) should also increment:
///     - requests
#[test]
fn statistics_handler_increments_500_via_status_code() {
    let mut stats = Stats::new();
    run(
        &mut stats,
        vec![
            StatCommand::AddStatus(status(reqwest::StatusCode::INTERNAL_SERVER_ERROR)),
            StatCommand::AddStatus(status(reqwest::StatusCode::INTERNAL_SERVER_ERROR)),
            StatCommand::Exit,
        ],
    );
    assert_eq!(stats.requests, 2);
    assert_eq!(stats.server_errors, 2);
    assert_eq!(stats.status_500s, 2);
    assert_eq!(stats.errors, 2);
}

/// when Stats::add_error receives StatError::Timeout, it should increment the following:
///     - timeouts
///     - requests
///     - errors
#[test]
fn stats_increments_timeouts() {
    let mut stats = Stats::new();
    stats.add_error(StatError::Timeout);
    stats.add_error(StatError::Timeout);
    stats.add_error(StatError::Timeout);
    stats.add_error(StatError::Timeout);

    assert_eq!(stats.errors, 4);
    assert_eq!(stats.requests, 4);
    assert_eq!(stats.timeouts, 4);
}

/// when Stats::update_usize_field receives StatField::WildcardsFiltered, it should increment
/// the following:
///     - responses_filtered
#[test]
fn stats_increments_wildcards() {
    let mut stats = Stats::new();
    assert_eq!(stats.responses_filtered, 0);
    assert_eq!(stats.wildcards_filtered, 0);

    stats.update_usize_field(StatField::WildcardsFiltered, 1, 0);
    stats.update_usize_field(StatField::WildcardsFiltered, 1, 0);

    assert_eq!(stats.responses_filtered, 2);
    assert_eq!(stats.wildcards_filtered, 2);
}

/// when Stats::update_usize_field receives StatField::ResponsesFiltered, it should increment
#[test]
fn stats_increments_responses_filtered() {
    let mut stats = Stats::new();
    assert_eq!(stats.responses_filtered, 0);

    stats.update_usize_field(StatField::ResponsesFiltered, 1, 0);
    stats.update_usize_field(StatField::ResponsesFiltered, 1, 0);
    stats.update_usize_field(StatField::ResponsesFiltered, 1, 0);

    assert_eq!(stats.responses_filtered, 3);
}

#[test]
fn new_statistics_have_a_kind_and_one_runtime() {
    let stats = Stats::new();
    assert_eq!(stats.kind, "statistics");
    assert_eq!(stats.total_runtime, vec![Seconds { bits: 0.0f64.to_bits() }]);
    assert!(stats.directory_scan_times.is_empty());

    let blank = Stats::default();
    assert_eq!(blank.kind, "");
    assert!(blank.total_runtime.is_empty());
    assert_eq!(blank.requests, 0);
}

#[test]
fn runtime_replaces_the_first_value() {
    let mut stats = Stats::new();
    stats.update_runtime(Seconds { bits: 2.5f64.to_bits() });
    assert_eq!(stats.total_runtime, vec![Seconds { bits: 2.5f64.to_bits() }]);
}

#[test]
fn errors_count_in_their_own_field() {
    let mut stats = Stats::new();
    stats.add_error(StatError::UrlFormat);
    stats.add_error(StatError::Redirection);
    stats.add_error(StatError::Connection);
    stats.add_error(StatError::Request);
    assert_eq!(stats.url_format_errors, 1);
    assert_eq!(stats.redirection_errors, 1);
    assert_eq!(stats.connection_errors, 1);
    assert_eq!(stats.request_errors, 1);
    assert_eq!(stats.timeouts, 0);
    assert_eq!(stats.client_errors, 0);
    assert_eq!(stats.errors, 4);
    assert_eq!(stats.requests, 4);
}

#[test]
fn errors_without_a_kind_count_once() {
    let mut stats = Stats::new();
    stats.add_error(StatError::Other);
    assert_eq!(stats.errors, 1);
    assert_eq!(stats.requests, 1);

    // and nowhere else
    stats.errors = 0;
    stats.requests = 0;
    assert_eq!(format!("{:?}", stats), format!("{:?}", Stats::new()));
}

#[test]
fn status_codes_are_classed() {
    let mut stats = Stats::new();
    for number in [100, 199, 200, 299, 300, 399, 400, 499, 500, 599, 600, 999] {
        stats.add_status_code(code(number));
    }
    assert_eq!(stats.requests, 12);
    assert_eq!(stats.successes, 2);
    assert_eq!(stats.redirects, 2);
    assert_eq!(stats.client_errors, 2);
    assert_eq!(stats.server_errors, 2);
    assert_eq!(stats.errors, 4);
    assert_eq!(stats.status_200s, 1);
    assert_eq!(stats.status_500s, 1);
    assert_eq!(stats.status_403s, 0);
}

#[test]
fn classes_are_those_of_the_http_client() {
    for number in 0..=1100 {
        match reqwest::StatusCode::from_u16(number) {
            Ok(expected) => {
                let found = code(number);
                assert_eq!(found.as_u16(), number);
                assert_eq!(found.is_success(), expected.is_success());
                assert_eq!(found.is_redirection(), expected.is_redirection());
                assert_eq!(found.is_client_error(), expected.is_client_error());
                assert_eq!(found.is_server_error(), expected.is_server_error());
            }
            Err(_) => assert!(StatusCode::from_u16(number).is_none()),
        }
    }
}

#[test]
fn followed_codes_have_their_own_counter() {
    let mut stats = Stats::new();
    for number in [403, 200, 301, 302, 401, 429, 500, 503, 504, 508] {
        stats.add_status_code(code(number));
    }
    assert_eq!(stats.status_403s, 1);
    assert_eq!(stats.status_200s, 1);
    assert_eq!(stats.status_301s, 1);
    assert_eq!(stats.status_302s, 1);
    assert_eq!(stats.status_401s, 1);
    assert_eq!(stats.status_429s, 1);
    assert_eq!(stats.status_500s, 1);
    assert_eq!(stats.status_503s, 1);
    assert_eq!(stats.status_504s, 1);
    assert_eq!(stats.status_508s, 1);
}

#[test]
fn each_field_updates_its_counter() {
    let mut stats = Stats::new();
    stats.update_usize_field(StatField::ExpectedPerScan, 1, 0);
    stats.update_usize_field(StatField::LinksExtracted, 2, 0);
    stats.update_usize_field(StatField::TotalExpected, 3, 0);
    stats.update_usize_field(StatField::ResourcesDiscovered, 4, 0);
    stats.update_usize_field(StatField::InitialTargets, 5, 0);
    stats.update_usize_field(StatField::UrlFormatErrors, 6, 0);
    stats.update_usize_field(StatField::Requests, 7, 0);
    stats.update_usize_field(StatField::Errors, 8, 0);
    stats.update_usize_field(StatField::Timeouts, 9, 0);
    stats.update_usize_field(StatField::Successes, 10, 0);
    stats.update_usize_field(StatField::Redirects, 11, 0);
    stats.update_usize_field(StatField::ClientErrors, 12, 0);
    stats.update_usize_field(StatField::ServerErrors, 13, 0);
    stats.update_usize_field(StatField::Status403s, 14, 0);
    stats.update_usize_field(StatField::Status200s, 15, 0);
    stats.update_usize_field(StatField::Status301s, 16, 0);
    stats.update_usize_field(StatField::Status302s, 17, 0);
    stats.update_usize_field(StatField::Status401s, 18, 0);
    stats.update_usize_field(StatField::Status429s, 19, 0);
    stats.update_usize_field(StatField::Status500s, 20, 0);
    stats.update_usize_field(StatField::Status503s, 21, 0);
    stats.update_usize_field(StatField::Status504s, 22, 0);
    stats.update_usize_field(StatField::Status508s, 23, 0);
    stats.update_usize_field(StatField::RedirectionErrors, 24, 0);
    stats.update_usize_field(StatField::ConnectionErrors, 25, 0);
    stats.update_usize_field(StatField::RequestErrors, 26, 0);
    stats.update_usize_field(StatField::DirScanTimes, 27, 0);
    assert_eq!(stats.expected_per_scan, 1);
    assert_eq!(stats.links_extracted, 2);
    assert_eq!(stats.total_expected, 3);
    assert_eq!(stats.resources_discovered, 4);
    assert_eq!(stats.initial_targets, 5);
    assert_eq!(stats.url_format_errors, 6);
    assert_eq!(stats.requests, 7);
    assert_eq!(stats.errors, 8);
    assert_eq!(stats.timeouts, 9);
    assert_eq!(stats.successes, 10);
    assert_eq!(stats.redirects, 11);
    assert_eq!(stats.client_errors, 12);
    assert_eq!(stats.server_errors, 13);
    assert_eq!(stats.status_403s, 14);
    assert_eq!(stats.status_200s, 15);
    assert_eq!(stats.status_301s, 16);
    assert_eq!(stats.status_302s, 17);
    assert_eq!(stats.status_401s, 18);
    assert_eq!(stats.status_429s, 19);
    assert_eq!(stats.status_500s, 20);
    assert_eq!(stats.status_503s, 21);
    assert_eq!(stats.status_504s, 22);
    assert_eq!(stats.status_508s, 23);
    assert_eq!(stats.redirection_errors, 24);
    assert_eq!(stats.connection_errors, 25);
    assert_eq!(stats.request_errors, 26);
    assert!(stats.directory_scan_times.is_empty());
}

#[test]
fn counters_wrap_around() {
    let mut stats = Stats::new();
    stats.update_usize_field(StatField::Requests, usize::MAX, 0);
    stats.add_request();
    assert_eq!(stats.requests, 0);
    stats.update_usize_field(StatField::Errors, usize::MAX, 0);
    stats.add_error(StatError::Other);
    assert_eq!(stats.errors, 0);
}

#[test]
fn scans_raise_the_expectation() {
    let mut stats = Stats::new();
    stats.update_usize_field(StatField::ExpectedPerScan, 50, 0);
    assert_eq!(stats.expected_of_scans(2, 0), Some(100));
    assert_eq!(stats.expected_of_scans(2, 1), Some(100));
    assert_eq!(stats.expected_of_scans(2, 3), Some(300));
    stats.update_usize_field(StatField::TotalScans, 2, 0);
    assert_eq!(stats.total_scans, 2);
    assert_eq!(stats.total_expected, 100);
    stats.update_usize_field(StatField::TotalScans, 1, 3);
    assert_eq!(stats.total_scans, 3);
    assert_eq!(stats.total_expected, 250);
}

#[test]
fn too_many_requests_for_a_word_are_not_accepted() {
    let mut stats = Stats::new();
    stats.update_usize_field(StatField::ExpectedPerScan, usize::MAX, 0);
    let one = StatCommand::UpdateUsizeField(StatField::TotalScans, 1);
    let two = StatCommand::UpdateUsizeField(StatField::TotalScans, 2);
    assert!(accepts_command(&stats, &one, 1));
    assert!(!accepts_command(&stats, &one, 2));
    assert!(!accepts_command(&stats, &two, 0));
    assert_eq!(stats.expected_of_scans(2, 0), None);
    assert_eq!(stats.expected_of_scans(0, 5), Some(0));
    assert!(accepts_command(&stats, &StatCommand::AddRequest, 2));
}

#[test]
fn only_scan_times_take_times() {
    let mut stats = Stats::new();
    stats.update_f64_field(StatField::DirScanTimes, Seconds { bits: 1.5f64.to_bits() });
    stats.update_f64_field(StatField::Requests, Seconds { bits: 2.5f64.to_bits() });
    stats.update_f64_field(StatField::DirScanTimes, Seconds { bits: 0.5f64.to_bits() });
    assert_eq!(
        stats.directory_scan_times,
        vec![
            Seconds { bits: 1.5f64.to_bits() },
            Seconds { bits: 0.5f64.to_bits() },
        ]
    );
    assert_eq!(stats.requests, 0);
}

#[test]
fn commands_have_their_effects() {
    let mut stats = Stats::new();
    assert_eq!(
        effect(&mut stats, StatCommand::UpdateUsizeField(StatField::ExpectedPerScan, 10), 2),
        Effect::Nothing
    );
    assert_eq!(
        effect(&mut stats, StatCommand::UpdateUsizeField(StatField::TotalScans, 3), 2),
        Effect::SetBarLength(60)
    );
    assert_eq!(effect(&mut stats, StatCommand::CreateBar, 2), Effect::CreateBar(60));
    assert_eq!(effect(&mut stats, StatCommand::Save, 2), Effect::Save);
    assert_eq!(
        effect(&mut stats, StatCommand::LoadStats("a.state".to_string()), 2),
        Effect::LoadStats("a.state".to_string())
    );
    assert_eq!(
        effect(
            &mut stats,
            StatCommand::UpdateF64Field(StatField::DirScanTimes, Seconds { bits: 7 }),
            2
        ),
        Effect::Nothing
    );
    assert_eq!(effect(&mut stats, StatCommand::AddRequest, 2), Effect::Nothing);
    assert_eq!(stats.requests, 1);
    assert_eq!(stats.total_expected, 60);
    assert_eq!(stats.directory_scan_times, vec![Seconds { bits: 7 }]);
}

#[test]
fn order_of_commands_does_not_matter() {
    let mut first = Stats::new();
    run(
        &mut first,
        vec![
            StatCommand::AddError(StatError::Timeout),
            StatCommand::AddStatus(code(404)),
            StatCommand::UpdateUsizeField(StatField::WildcardsFiltered, 3),
        ],
    );
    let mut second = Stats::new();
    run(
        &mut second,
        vec![
            StatCommand::UpdateUsizeField(StatField::WildcardsFiltered, 3),
            StatCommand::AddStatus(code(404)),
            StatCommand::AddError(StatError::Timeout),
        ],
    );
    assert_eq!(format!("{:?}", first), format!("{:?}", second));
    assert_eq!(first.errors, 2);
    assert_eq!(first.responses_filtered, 3);
}

#[test]
fn batches_merge() {
    let mut single = Stats::new();
    single.update_usize_field(StatField::ExpectedPerScan, 7, 2);
    single.update_usize_field(StatField::TotalScans, 1, 2);
    single.update_usize_field(StatField::TotalScans, 2, 2);
    let mut merged = Stats::new();
    merged.update_usize_field(StatField::ExpectedPerScan, 7, 2);
    merged.update_usize_field(StatField::TotalScans, 3, 2);
    assert_eq!(format!("{:?}", single), format!("{:?}", merged));
    assert_eq!(merged.total_expected, 42);

    let mut request = Stats::new();
    request.add_request();
    let mut batch = Stats::new();
    batch.update_usize_field(StatField::Requests, 1, 0);
    assert_eq!(format!("{:?}", request), format!("{:?}", batch));
}

#[test]
fn a_403_counts_the_same_either_way() {
    let mut error = Stats::new();
    error.add_error(StatError::Status403);
    let mut response = Stats::new();
    response.add_status_code(code(403));
    assert_eq!(format!("{:?}", error), format!("{:?}", response));
}

#[test]
fn counts_break_down() {
    let mut stats = Stats::new();
    for number in [200, 204, 301, 307, 401, 403, 404, 429, 500, 502, 503, 504, 508, 700] {
        stats.add_status_code(code(number));
    }
    stats.add_error(StatError::Timeout);
    stats.add_error(StatError::Other);
    stats.add_error(StatError::Status403);
    assert_eq!(stats.requests, 17);
    assert_eq!(
        stats.successes + stats.redirects + stats.client_errors + stats.server_errors,
        14
    );
    assert_eq!(stats.errors, 12);
    assert!(stats.errors <= stats.requests);
    assert!(stats.timeouts + stats.client_errors + stats.server_errors <= stats.errors);
}

#[test]
fn wildcards_stay_among_responses() {
    let mut stats = Stats::new();
    stats.update_usize_field(StatField::ResponsesFiltered, 1, 0);
    stats.update_usize_field(StatField::WildcardsFiltered, 4, 0);
    stats.update_usize_field(StatField::Requests, 9, 0);
    assert_eq!(stats.wildcards_filtered, 4);
    assert_eq!(stats.responses_filtered, 5);
}
