//! Taking up the statistics of an interrupted scan.

use crate::command::{Seconds, StatCommand, StatField};
use crate::json::{json_get, json_members, parse_json, parsed_json};
use crate::stats::{Stats, StatsView};
use vstd::prelude::*;

verus! {

/// The counters that are taken up before the scan times, in this order.
///
/// Taken up nowhere are the expectation per scan, which a resumed scan sets by itself,
/// the number of scans and of initial targets, and the total expectation.
pub open spec fn early_fields() -> Seq<StatField> {
    seq![
        StatField::Timeouts,
        StatField::Requests,
        StatField::Errors,
        StatField::Successes,
        StatField::Redirects,
        StatField::ClientErrors,
        StatField::ServerErrors,
        StatField::LinksExtracted,
        StatField::Status200s,
        StatField::Status403s,
        StatField::Status301s,
        StatField::Status302s,
        StatField::Status401s,
        StatField::Status429s,
        StatField::Status500s,
        StatField::Status503s,
        StatField::Status504s,
        StatField::Status508s,
        StatField::WildcardsFiltered,
        StatField::ResponsesFiltered,
        StatField::ResourcesDiscovered,
    ]
}

/// The counters that are taken up after the scan times, in this order.
pub open spec fn late_fields() -> Seq<StatField> {
    seq![
        StatField::UrlFormatErrors,
        StatField::RedirectionErrors,
        StatField::ConnectionErrors,
        StatField::RequestErrors,
    ]
}

/// By how much the counter of a field is updated when saved statistics are taken up: by the
/// saved number, except that the filtered responses are updated without the filtered wildcards,
/// which the update of the latter adds to them. (Where more wildcards than responses were
/// saved, the difference is taken as a counter wraps around.)
pub open spec fn update_amount(saved: StatsView, field: StatField) -> nat {
    let number = saved.counters[field];
    let wildcards = saved.counters[StatField::WildcardsFiltered];
    if !(field is ResponsesFiltered) {
        number
    } else if wildcards <= number {
        (number - wildcards) as nat
    } else {
        (number + usize::MAX + 1 - wildcards) as nat
    }
}

/// Commands that update the counters of the given fields.
pub open spec fn counter_commands(saved: StatsView, fields: Seq<StatField>) -> Seq<StatCommand> {
    Seq::new(
        fields.len(),
        |i: int|
            StatCommand::UpdateUsizeField(fields[i], update_amount(saved, fields[i]) as usize),
    )
}

/// Commands that append the given scan times.
pub open spec fn time_commands(times: Seq<Seconds>) -> Seq<StatCommand> {
    Seq::new(
        times.len(),
        |i: int| StatCommand::UpdateF64Field(StatField::DirScanTimes, times[i]),
    )
}

/// The commands by which saved statistics are taken up.
pub open spec fn update_commands(saved: StatsView) -> Seq<StatCommand> {
    counter_commands(saved, early_fields()) + time_commands(saved.directory_scan_times)
        + counter_commands(saved, late_fields())
}

/// Given a `Stats` object, list the update directives to be sent to the statistics handler
///
/// The total runtime is skipped, it makes no sense here as the scan has never completed, and so
/// is the expectation per scan, which the resumed scan updates. The filtered responses go without
/// the filtered wildcards, whose update counts them among the responses.
pub fn update_stats(stats: Stats) -> (commands: Vec<StatCommand>)
    ensures
        commands@ == update_commands(stats@),
{
    let mut commands: Vec<StatCommand> = Vec::new();
    commands.push(StatCommand::UpdateUsizeField(StatField::Timeouts, stats.timeouts));
    commands.push(StatCommand::UpdateUsizeField(StatField::Requests, stats.requests));
    commands.push(StatCommand::UpdateUsizeField(StatField::Errors, stats.errors));
    commands.push(StatCommand::UpdateUsizeField(StatField::Successes, stats.successes));
    commands.push(StatCommand::UpdateUsizeField(StatField::Redirects, stats.redirects));
    commands.push(StatCommand::UpdateUsizeField(StatField::ClientErrors, stats.client_errors));
    commands.push(StatCommand::UpdateUsizeField(StatField::ServerErrors, stats.server_errors));
    commands.push(StatCommand::UpdateUsizeField(StatField::LinksExtracted, stats.links_extracted));
    commands.push(StatCommand::UpdateUsizeField(StatField::Status200s, stats.status_200s));
    commands.push(StatCommand::UpdateUsizeField(StatField::Status403s, stats.status_403s));
    commands.push(StatCommand::UpdateUsizeField(StatField::Status301s, stats.status_301s));
    commands.push(StatCommand::UpdateUsizeField(StatField::Status302s, stats.status_302s));
    commands.push(StatCommand::UpdateUsizeField(StatField::Status401s, stats.status_401s));
    commands.push(StatCommand::UpdateUsizeField(StatField::Status429s, stats.status_429s));
    commands.push(StatCommand::UpdateUsizeField(StatField::Status500s, stats.status_500s));
    commands.push(StatCommand::UpdateUsizeField(StatField::Status503s, stats.status_503s));
    commands.push(StatCommand::UpdateUsizeField(StatField::Status504s, stats.status_504s));
    commands.push(StatCommand::UpdateUsizeField(StatField::Status508s, stats.status_508s));
    commands.push(StatCommand::UpdateUsizeField(StatField::WildcardsFiltered, stats.wildcards_filtered));
    // an update of the filtered wildcards is one of the filtered responses too
    let other_responses: usize = stats.responses_filtered.wrapping_sub(stats.wildcards_filtered);
    commands.push(StatCommand::UpdateUsizeField(StatField::ResponsesFiltered, other_responses));
    commands.push(StatCommand::UpdateUsizeField(StatField::ResourcesDiscovered, stats.resources_discovered));
    let ghost early = commands@;
    assert(early =~= counter_commands(stats@, early_fields()));
    let mut i: usize = 0;
    while i < stats.directory_scan_times.len()
        invariant
            i <= stats.directory_scan_times.len(),
            commands@ == early + time_commands(stats.directory_scan_times@.take(i as int)),
        decreases stats.directory_scan_times.len() - i,
    {
        let time = stats.directory_scan_times[i];
        commands.push(StatCommand::UpdateF64Field(StatField::DirScanTimes, time));
        i += 1;
        assert(commands@ =~= early + time_commands(stats.directory_scan_times@.take(i as int)));
    }
    assert(stats.directory_scan_times@.take(i as int) =~= stats.directory_scan_times@);
    commands.push(StatCommand::UpdateUsizeField(StatField::UrlFormatErrors, stats.url_format_errors));
    commands.push(StatCommand::UpdateUsizeField(StatField::RedirectionErrors, stats.redirection_errors));
    commands.push(StatCommand::UpdateUsizeField(StatField::ConnectionErrors, stats.connection_errors));
    commands.push(StatCommand::UpdateUsizeField(StatField::RequestErrors, stats.request_errors));
    assert(commands@ =~= update_commands(stats@));
    commands
}

/// Why statistics could not be loaded.
#[derive(Clone, Copy, Debug, PartialEq, Eq, Structural)]
pub enum LoadError {
    /// the state file does not hold JSON
    InvalidState,
}

/// The commands by which the statistics are taken up that were read from a state, if any were.
pub open spec fn commands_of(decoded: Option<Stats>) -> Seq<StatCommand> {
    match decoded {
        Some(stats) => update_commands(stats@),
        None => Seq::empty(),
    }
}

/// Whether `commands` are those for a parsed state: none if it has no member named
/// `statistics`, else those for a `Stats` that `decode` can make of that member.
pub open spec fn are_state_commands<D: Fn(&serde_json::Value) -> Option<Stats>>(
    commands: Seq<StatCommand>,
    state: serde_json::Value,
    decode: D,
) -> bool {
    let members = json_members(state);
    if members.contains_key("statistics"@) {
        exists|decoded: Option<Stats>|
            {
                &&& #[trigger] call_ensures(decode, (&members["statistics"@],), decoded)
                &&& commands == commands_of(decoded)
            }
    } else {
        commands == Seq::<StatCommand>::empty()
    }
}

/// List the update directives for the statistics in a parsed state file
///
/// `decode` makes a `Stats` of the JSON that was written for one, or nothing of other JSON.
pub fn load_state<D: Fn(&serde_json::Value) -> Option<Stats>>(
    state: &serde_json::Value,
    decode: D,
) -> (commands: Vec<StatCommand>)
    requires
        forall|json: &serde_json::Value| call_requires(decode, (json,)),
    ensures
        are_state_commands(commands@, *state, decode),
{
    if let Some(json) = json_get(state, "statistics") {
        let decoded = decode(json);
        if let Some(stats) = decoded {
            update_stats(stats)
        } else {
            Vec::new()
        }
    } else {
        Vec::new()
    }
}

/// List the update directives for the statistics in a state file written to disk when handling
/// a Ctrl+c
///
/// `contents` is what the file holds; `decode` makes a `Stats` of the JSON that was written for
/// one, or nothing of other JSON. This is only ever called when resuming a scan from disk.
pub fn load_stats<D: Fn(&serde_json::Value) -> Option<Stats>>(contents: &[u8], decode: D) -> (loaded:
    Result<Vec<StatCommand>, LoadError>)
    requires
        forall|json: &serde_json::Value| call_requires(decode, (json,)),
    ensures
        match parsed_json(contents@) {
            Some(state) => loaded matches Ok(commands) && are_state_commands(
                commands@,
                state,
                decode,
            ),
            None => loaded == Err::<Vec<StatCommand>, LoadError>(LoadError::InvalidState),
        },
{
    match parse_json(contents) {
        Ok(state) => Ok(load_state(&state, decode)),
        Err(_) => Err(LoadError::InvalidState),
    }
}

} // verus!
