//! What holds of taking up the statistics of an interrupted scan.

use crate::command::{StatCommand, StatField};
use crate::counter::{lemma_wrapped_fits, wrapped};
use crate::json::{json_members, parsed_json};
use crate::laws::{
    law_fresh_statistics_break_down, law_stats_are_valid, law_update_adds_saved_statistics,
    lemma_update_commands_report, reported_times,
};
use crate::operation_laws::{law_view_shows_the_fields, moved};
use crate::resume::{
    are_state_commands, commands_of, early_fields, late_fields, load_state, load_stats,
    update_amount, update_commands, update_stats, LoadError,
};
use crate::stats::{Stats, StatsView};
use vstd::prelude::*;

verus! {

/// Whether statistics hold all that is taken up of `saved`, and are otherwise those that a scan
/// starts with: the number of scans and of initial targets and the expectations are still zero.
pub open spec fn has_taken_up(resumed: StatsView, saved: Stats) -> bool {
    &&& resumed.counters[StatField::Timeouts] == saved.timeouts
    &&& resumed.counters[StatField::Requests] == saved.requests
    &&& resumed.counters[StatField::Errors] == saved.errors
    &&& resumed.counters[StatField::Successes] == saved.successes
    &&& resumed.counters[StatField::Redirects] == saved.redirects
    &&& resumed.counters[StatField::ClientErrors] == saved.client_errors
    &&& resumed.counters[StatField::ServerErrors] == saved.server_errors
    &&& resumed.counters[StatField::LinksExtracted] == saved.links_extracted
    &&& resumed.counters[StatField::Status200s] == saved.status_200s
    &&& resumed.counters[StatField::Status403s] == saved.status_403s
    &&& resumed.counters[StatField::Status301s] == saved.status_301s
    &&& resumed.counters[StatField::Status302s] == saved.status_302s
    &&& resumed.counters[StatField::Status401s] == saved.status_401s
    &&& resumed.counters[StatField::Status429s] == saved.status_429s
    &&& resumed.counters[StatField::Status500s] == saved.status_500s
    &&& resumed.counters[StatField::Status503s] == saved.status_503s
    &&& resumed.counters[StatField::Status504s] == saved.status_504s
    &&& resumed.counters[StatField::Status508s] == saved.status_508s
    &&& resumed.counters[StatField::WildcardsFiltered] == saved.wildcards_filtered
    &&& resumed.counters[StatField::ResponsesFiltered] == saved.responses_filtered
    &&& resumed.counters[StatField::ResourcesDiscovered] == saved.resources_discovered
    &&& resumed.counters[StatField::UrlFormatErrors] == saved.url_format_errors
    &&& resumed.counters[StatField::RedirectionErrors] == saved.redirection_errors
    &&& resumed.counters[StatField::ConnectionErrors] == saved.connection_errors
    &&& resumed.counters[StatField::RequestErrors] == saved.request_errors
    &&& resumed.counters[StatField::ExpectedPerScan] == 0
    &&& resumed.counters[StatField::TotalScans] == 0
    &&& resumed.counters[StatField::TotalExpected] == 0
    &&& resumed.counters[StatField::InitialTargets] == 0
    &&& resumed.directory_scan_times == saved.directory_scan_times@
    &&& resumed.kind == "statistics"@
    &&& resumed.total_runtime.len() == 1
    &&& resumed.total_runtime[0].bits == 0
}

/// Whether statistics `after` are `before` with all that is taken up of `saved` on top.
pub open spec fn adds_up(before: StatsView, after: StatsView, saved: Stats) -> bool {
    &&& after.counters[StatField::Timeouts] == wrapped(before.counters[StatField::Timeouts] + saved.timeouts as nat)
    &&& after.counters[StatField::Requests] == wrapped(before.counters[StatField::Requests] + saved.requests as nat)
    &&& after.counters[StatField::Errors] == wrapped(before.counters[StatField::Errors] + saved.errors as nat)
    &&& after.counters[StatField::Successes] == wrapped(before.counters[StatField::Successes] + saved.successes as nat)
    &&& after.counters[StatField::Redirects] == wrapped(before.counters[StatField::Redirects] + saved.redirects as nat)
    &&& after.counters[StatField::ClientErrors] == wrapped(before.counters[StatField::ClientErrors] + saved.client_errors as nat)
    &&& after.counters[StatField::ServerErrors] == wrapped(before.counters[StatField::ServerErrors] + saved.server_errors as nat)
    &&& after.counters[StatField::LinksExtracted] == wrapped(before.counters[StatField::LinksExtracted] + saved.links_extracted as nat)
    &&& after.counters[StatField::Status200s] == wrapped(before.counters[StatField::Status200s] + saved.status_200s as nat)
    &&& after.counters[StatField::Status403s] == wrapped(before.counters[StatField::Status403s] + saved.status_403s as nat)
    &&& after.counters[StatField::Status301s] == wrapped(before.counters[StatField::Status301s] + saved.status_301s as nat)
    &&& after.counters[StatField::Status302s] == wrapped(before.counters[StatField::Status302s] + saved.status_302s as nat)
    &&& after.counters[StatField::Status401s] == wrapped(before.counters[StatField::Status401s] + saved.status_401s as nat)
    &&& after.counters[StatField::Status429s] == wrapped(before.counters[StatField::Status429s] + saved.status_429s as nat)
    &&& after.counters[StatField::Status500s] == wrapped(before.counters[StatField::Status500s] + saved.status_500s as nat)
    &&& after.counters[StatField::Status503s] == wrapped(before.counters[StatField::Status503s] + saved.status_503s as nat)
    &&& after.counters[StatField::Status504s] == wrapped(before.counters[StatField::Status504s] + saved.status_504s as nat)
    &&& after.counters[StatField::Status508s] == wrapped(before.counters[StatField::Status508s] + saved.status_508s as nat)
    &&& after.counters[StatField::WildcardsFiltered] == wrapped(before.counters[StatField::WildcardsFiltered] + saved.wildcards_filtered as nat)
    &&& after.counters[StatField::ResponsesFiltered] == wrapped(before.counters[StatField::ResponsesFiltered] + saved.responses_filtered as nat)
    &&& after.counters[StatField::ResourcesDiscovered] == wrapped(before.counters[StatField::ResourcesDiscovered] + saved.resources_discovered as nat)
    &&& after.counters[StatField::UrlFormatErrors] == wrapped(before.counters[StatField::UrlFormatErrors] + saved.url_format_errors as nat)
    &&& after.counters[StatField::RedirectionErrors] == wrapped(before.counters[StatField::RedirectionErrors] + saved.redirection_errors as nat)
    &&& after.counters[StatField::ConnectionErrors] == wrapped(before.counters[StatField::ConnectionErrors] + saved.connection_errors as nat)
    &&& after.counters[StatField::RequestErrors] == wrapped(before.counters[StatField::RequestErrors] + saved.request_errors as nat)
    &&& after.counters[StatField::ExpectedPerScan] == before.counters[StatField::ExpectedPerScan]
    &&& after.counters[StatField::TotalScans] == before.counters[StatField::TotalScans]
    &&& after.counters[StatField::TotalExpected] == before.counters[StatField::TotalExpected]
    &&& after.counters[StatField::InitialTargets] == before.counters[StatField::InitialTargets]
    &&& after.directory_scan_times == before.directory_scan_times + saved.directory_scan_times@
    &&& after.kind == before.kind
    &&& after.total_runtime == before.total_runtime
}

proof fn lemma_taken_up_fields()
    ensures
        early_fields().contains(StatField::Timeouts),
        early_fields().contains(StatField::Requests),
        early_fields().contains(StatField::Errors),
        early_fields().contains(StatField::Successes),
        early_fields().contains(StatField::Redirects),
        early_fields().contains(StatField::ClientErrors),
        early_fields().contains(StatField::ServerErrors),
        early_fields().contains(StatField::LinksExtracted),
        early_fields().contains(StatField::Status200s),
        early_fields().contains(StatField::Status403s),
        early_fields().contains(StatField::Status301s),
        early_fields().contains(StatField::Status302s),
        early_fields().contains(StatField::Status401s),
        early_fields().contains(StatField::Status429s),
        early_fields().contains(StatField::Status500s),
        early_fields().contains(StatField::Status503s),
        early_fields().contains(StatField::Status504s),
        early_fields().contains(StatField::Status508s),
        early_fields().contains(StatField::WildcardsFiltered),
        early_fields().contains(StatField::ResponsesFiltered),
        early_fields().contains(StatField::ResourcesDiscovered),
        late_fields().contains(StatField::UrlFormatErrors),
        late_fields().contains(StatField::RedirectionErrors),
        late_fields().contains(StatField::ConnectionErrors),
        late_fields().contains(StatField::RequestErrors),
        !early_fields().contains(StatField::ExpectedPerScan) && !late_fields().contains(StatField::ExpectedPerScan),
        !early_fields().contains(StatField::TotalScans) && !late_fields().contains(StatField::TotalScans),
        !early_fields().contains(StatField::TotalExpected) && !late_fields().contains(StatField::TotalExpected),
        !early_fields().contains(StatField::InitialTargets) && !late_fields().contains(StatField::InitialTargets),
{
    assert(early_fields()[0] == StatField::Timeouts);
    assert(early_fields()[1] == StatField::Requests);
    assert(early_fields()[2] == StatField::Errors);
    assert(early_fields()[3] == StatField::Successes);
    assert(early_fields()[4] == StatField::Redirects);
    assert(early_fields()[5] == StatField::ClientErrors);
    assert(early_fields()[6] == StatField::ServerErrors);
    assert(early_fields()[7] == StatField::LinksExtracted);
    assert(early_fields()[8] == StatField::Status200s);
    assert(early_fields()[9] == StatField::Status403s);
    assert(early_fields()[10] == StatField::Status301s);
    assert(early_fields()[11] == StatField::Status302s);
    assert(early_fields()[12] == StatField::Status401s);
    assert(early_fields()[13] == StatField::Status429s);
    assert(early_fields()[14] == StatField::Status500s);
    assert(early_fields()[15] == StatField::Status503s);
    assert(early_fields()[16] == StatField::Status504s);
    assert(early_fields()[17] == StatField::Status508s);
    assert(early_fields()[18] == StatField::WildcardsFiltered);
    assert(early_fields()[19] == StatField::ResponsesFiltered);
    assert(early_fields()[20] == StatField::ResourcesDiscovered);
    assert(late_fields()[0] == StatField::UrlFormatErrors);
    assert(late_fields()[1] == StatField::RedirectionErrors);
    assert(late_fields()[2] == StatField::ConnectionErrors);
    assert(late_fields()[3] == StatField::RequestErrors);
}

proof fn lemma_update_commands_add(saved: Stats, before: StatsView, num_extensions: nat)
    requires
        before.valid(),
    ensures
        adds_up(before, before.after_all(update_commands(saved@), num_extensions), saved),
{
    law_stats_are_valid(saved);
    law_view_shows_the_fields(saved);
    law_update_adds_saved_statistics(saved@, before, num_extensions);
    lemma_taken_up_fields();
    lemma_wrapped_fits(before.counters[StatField::ExpectedPerScan]);
    lemma_wrapped_fits(before.counters[StatField::TotalScans]);
    lemma_wrapped_fits(before.counters[StatField::TotalExpected]);
    lemma_wrapped_fits(before.counters[StatField::InitialTargets]);
}

/// What `update_stats` lists of statistics, sent to the handler of other statistics, adds every
/// saved count to theirs and appends the saved scan times in their order. The numbers of scans and
/// of initial targets, the expectations, the kind and the runtime are not touched.
pub proof fn law_updates_add_what_was_saved(
    saved: Stats,
    commands: Vec<StatCommand>,
    before: StatsView,
    num_extensions: nat,
)
    requires
        call_ensures(update_stats, (saved,), commands),
        before.valid(),
    ensures
        adds_up(before, before.after_all(commands@, num_extensions), saved),
{
    lemma_update_commands_add(saved, before, num_extensions);
}

proof fn lemma_gives_back(saved: Stats, num_extensions: nat)
    ensures
        has_taken_up(
            StatsView::fresh().after_all(update_commands(saved@), num_extensions),
            saved,
        ),
{
    let resumed = StatsView::fresh().after_all(update_commands(saved@), num_extensions);
    law_fresh_statistics_break_down();
    lemma_update_commands_add(saved, StatsView::fresh(), num_extensions);
    lemma_wrapped_fits(saved.timeouts as nat);
    lemma_wrapped_fits(saved.requests as nat);
    lemma_wrapped_fits(saved.errors as nat);
    lemma_wrapped_fits(saved.successes as nat);
    lemma_wrapped_fits(saved.redirects as nat);
    lemma_wrapped_fits(saved.client_errors as nat);
    lemma_wrapped_fits(saved.server_errors as nat);
    lemma_wrapped_fits(saved.links_extracted as nat);
    lemma_wrapped_fits(saved.status_200s as nat);
    lemma_wrapped_fits(saved.status_403s as nat);
    lemma_wrapped_fits(saved.status_301s as nat);
    lemma_wrapped_fits(saved.status_302s as nat);
    lemma_wrapped_fits(saved.status_401s as nat);
    lemma_wrapped_fits(saved.status_429s as nat);
    lemma_wrapped_fits(saved.status_500s as nat);
    lemma_wrapped_fits(saved.status_503s as nat);
    lemma_wrapped_fits(saved.status_504s as nat);
    lemma_wrapped_fits(saved.status_508s as nat);
    lemma_wrapped_fits(saved.wildcards_filtered as nat);
    lemma_wrapped_fits(saved.responses_filtered as nat);
    lemma_wrapped_fits(saved.resources_discovered as nat);
    lemma_wrapped_fits(saved.url_format_errors as nat);
    lemma_wrapped_fits(saved.redirection_errors as nat);
    lemma_wrapped_fits(saved.connection_errors as nat);
    lemma_wrapped_fits(saved.request_errors as nat);
    assert(resumed.directory_scan_times =~= saved.directory_scan_times@);
}

/// What `update_stats` lists of statistics, sent to the handler of a new scan, gives that scan
/// every saved count and all saved scan times.
pub proof fn law_updates_give_back_what_was_saved(
    saved: Stats,
    commands: Vec<StatCommand>,
    num_extensions: nat,
)
    requires
        call_ensures(update_stats, (saved,), commands),
    ensures
        has_taken_up(StatsView::fresh().after_all(commands@, num_extensions), saved),
{
    lemma_gives_back(saved, num_extensions);
}

/// `update_stats` lists one update for each count that is taken up and one for each scan time, in
/// the order of the times, and nothing else. Each update carries the saved number; the one of the
/// filtered responses carries what is missing to it once the wildcards were counted there too.
pub proof fn law_one_update_for_each_saved_value(saved: Stats, commands: Vec<StatCommand>)
    requires
        call_ensures(update_stats, (saved,), commands),
    ensures
        commands@.len() == 25 + saved.directory_scan_times@.len(),
        reported_times(commands@) == saved.directory_scan_times@,
        forall|i: int|
            0 <= i < commands@.len() ==> match #[trigger] commands@[i] {
                StatCommand::UpdateUsizeField(_, _) => true,
                StatCommand::UpdateF64Field(field, _) => field == StatField::DirScanTimes,
                _ => false,
            },
        exists|amount: usize|
            {
                &&& #[trigger] moved(
                    saved.wildcards_filtered,
                    saved.responses_filtered,
                    amount as nat,
                )
                &&& commands@.contains(
                    StatCommand::UpdateUsizeField(StatField::ResponsesFiltered, amount),
                )
            },
        commands@.contains(StatCommand::UpdateUsizeField(StatField::Timeouts, saved.timeouts)),
        commands@.contains(StatCommand::UpdateUsizeField(StatField::Requests, saved.requests)),
        commands@.contains(StatCommand::UpdateUsizeField(StatField::Errors, saved.errors)),
        commands@.contains(StatCommand::UpdateUsizeField(StatField::Successes, saved.successes)),
        commands@.contains(StatCommand::UpdateUsizeField(StatField::Redirects, saved.redirects)),
        commands@.contains(StatCommand::UpdateUsizeField(StatField::ClientErrors, saved.client_errors)),
        commands@.contains(StatCommand::UpdateUsizeField(StatField::ServerErrors, saved.server_errors)),
        commands@.contains(StatCommand::UpdateUsizeField(StatField::LinksExtracted, saved.links_extracted)),
        commands@.contains(StatCommand::UpdateUsizeField(StatField::Status200s, saved.status_200s)),
        commands@.contains(StatCommand::UpdateUsizeField(StatField::Status403s, saved.status_403s)),
        commands@.contains(StatCommand::UpdateUsizeField(StatField::Status301s, saved.status_301s)),
        commands@.contains(StatCommand::UpdateUsizeField(StatField::Status302s, saved.status_302s)),
        commands@.contains(StatCommand::UpdateUsizeField(StatField::Status401s, saved.status_401s)),
        commands@.contains(StatCommand::UpdateUsizeField(StatField::Status429s, saved.status_429s)),
        commands@.contains(StatCommand::UpdateUsizeField(StatField::Status500s, saved.status_500s)),
        commands@.contains(StatCommand::UpdateUsizeField(StatField::Status503s, saved.status_503s)),
        commands@.contains(StatCommand::UpdateUsizeField(StatField::Status504s, saved.status_504s)),
        commands@.contains(StatCommand::UpdateUsizeField(StatField::Status508s, saved.status_508s)),
        commands@.contains(StatCommand::UpdateUsizeField(StatField::WildcardsFiltered, saved.wildcards_filtered)),
        commands@.contains(StatCommand::UpdateUsizeField(StatField::ResourcesDiscovered, saved.resources_discovered)),
        commands@.contains(StatCommand::UpdateUsizeField(StatField::UrlFormatErrors, saved.url_format_errors)),
        commands@.contains(StatCommand::UpdateUsizeField(StatField::RedirectionErrors, saved.redirection_errors)),
        commands@.contains(StatCommand::UpdateUsizeField(StatField::ConnectionErrors, saved.connection_errors)),
        commands@.contains(StatCommand::UpdateUsizeField(StatField::RequestErrors, saved.request_errors)),
{
    let start = 21 + saved.directory_scan_times@.len() as int;
    law_stats_are_valid(saved);
    law_view_shows_the_fields(saved);
    lemma_update_commands_report(saved@);
    assert(commands@[0] == StatCommand::UpdateUsizeField(StatField::Timeouts, saved.timeouts));
    assert(commands@[1] == StatCommand::UpdateUsizeField(StatField::Requests, saved.requests));
    assert(commands@[2] == StatCommand::UpdateUsizeField(StatField::Errors, saved.errors));
    assert(commands@[3] == StatCommand::UpdateUsizeField(StatField::Successes, saved.successes));
    assert(commands@[4] == StatCommand::UpdateUsizeField(StatField::Redirects, saved.redirects));
    assert(commands@[5] == StatCommand::UpdateUsizeField(StatField::ClientErrors, saved.client_errors));
    assert(commands@[6] == StatCommand::UpdateUsizeField(StatField::ServerErrors, saved.server_errors));
    assert(commands@[7] == StatCommand::UpdateUsizeField(StatField::LinksExtracted, saved.links_extracted));
    assert(commands@[8] == StatCommand::UpdateUsizeField(StatField::Status200s, saved.status_200s));
    assert(commands@[9] == StatCommand::UpdateUsizeField(StatField::Status403s, saved.status_403s));
    assert(commands@[10] == StatCommand::UpdateUsizeField(StatField::Status301s, saved.status_301s));
    assert(commands@[11] == StatCommand::UpdateUsizeField(StatField::Status302s, saved.status_302s));
    assert(commands@[12] == StatCommand::UpdateUsizeField(StatField::Status401s, saved.status_401s));
    assert(commands@[13] == StatCommand::UpdateUsizeField(StatField::Status429s, saved.status_429s));
    assert(commands@[14] == StatCommand::UpdateUsizeField(StatField::Status500s, saved.status_500s));
    assert(commands@[15] == StatCommand::UpdateUsizeField(StatField::Status503s, saved.status_503s));
    assert(commands@[16] == StatCommand::UpdateUsizeField(StatField::Status504s, saved.status_504s));
    assert(commands@[17] == StatCommand::UpdateUsizeField(StatField::Status508s, saved.status_508s));
    assert(commands@[18] == StatCommand::UpdateUsizeField(StatField::WildcardsFiltered, saved.wildcards_filtered));
    assert(commands@[20] == StatCommand::UpdateUsizeField(StatField::ResourcesDiscovered, saved.resources_discovered));
    assert(commands@[start + 0] == StatCommand::UpdateUsizeField(
        StatField::UrlFormatErrors,
        saved.url_format_errors,
    ));
    assert(commands@[start + 1] == StatCommand::UpdateUsizeField(
        StatField::RedirectionErrors,
        saved.redirection_errors,
    ));
    assert(commands@[start + 2] == StatCommand::UpdateUsizeField(
        StatField::ConnectionErrors,
        saved.connection_errors,
    ));
    assert(commands@[start + 3] == StatCommand::UpdateUsizeField(
        StatField::RequestErrors,
        saved.request_errors,
    ));
    let amount = update_amount(saved@, StatField::ResponsesFiltered) as usize;
    assert(commands@[19] == StatCommand::UpdateUsizeField(StatField::ResponsesFiltered, amount));
    assert(moved(saved.wildcards_filtered, saved.responses_filtered, amount as nat));
}

/// Whether `commands` take up the statistics in a parsed state: if it has a member named
/// `statistics`, and `decode` makes a `Stats` of that member, the commands give a new scan every
/// count and time of that very `Stats`, and are those that `update_stats` lists of it. Else there
/// are no commands.
pub open spec fn take_up_state<D: Fn(&serde_json::Value) -> Option<Stats>>(
    commands: Seq<StatCommand>,
    state: serde_json::Value,
    decode: D,
    num_extensions: nat,
) -> bool {
    if json_members(state).contains_key("statistics"@) {
        exists|decoded: Option<Stats>|
            {
                &&& #[trigger] call_ensures(decode, (&json_members(state)["statistics"@],), decoded)
                &&& match decoded {
                    Some(saved) => {
                        &&& has_taken_up(
                            StatsView::fresh().after_all(commands, num_extensions),
                            saved,
                        )
                        &&& forall|listed: Vec<StatCommand>| #[trigger]
                            call_ensures(update_stats, (saved,), listed) ==> commands == listed@
                    },
                    None => commands.len() == 0,
                }
            }
    } else {
        commands.len() == 0
    }
}

proof fn lemma_state_commands<D: Fn(&serde_json::Value) -> Option<Stats>>(
    commands: Seq<StatCommand>,
    state: serde_json::Value,
    decode: D,
    num_extensions: nat,
)
    requires
        are_state_commands(commands, state, decode),
    ensures
        take_up_state(commands, state, decode, num_extensions),
{
    if json_members(state).contains_key("statistics"@) {
        let member = json_members(state)["statistics"@];
        let decoded = choose|decoded: Option<Stats>|
            {
                &&& #[trigger] call_ensures(decode, (&member,), decoded)
                &&& commands == commands_of(decoded)
            };
        if let Some(saved) = decoded {
            lemma_gives_back(saved, num_extensions);
        }
    }
}

/// The commands for a parsed state give a new scan every count and time of the statistics that
/// were decoded from it.
pub proof fn law_loaded_state_gives_back_what_was_saved<
    D: Fn(&serde_json::Value) -> Option<Stats>,
>(state: serde_json::Value, decode: D, commands: Vec<StatCommand>, num_extensions: nat)
    requires
        call_ensures(load_state::<D>, (&state, decode), commands),
    ensures
        take_up_state(commands@, state, decode, num_extensions),
{
    lemma_state_commands(commands@, state, decode, num_extensions);
}

/// The commands for a state file give a new scan every count and time of the statistics that were
/// decoded from it. A file that does not hold JSON is refused, and no other is.
pub proof fn law_loaded_file_gives_back_what_was_saved<
    D: Fn(&serde_json::Value) -> Option<Stats>,
>(
    contents: &[u8],
    decode: D,
    loaded: Result<Vec<StatCommand>, LoadError>,
    num_extensions: nat,
)
    requires
        call_ensures(load_stats::<D>, (contents, decode), loaded),
    ensures
        loaded is Ok <==> parsed_json(contents@) is Some,
        loaded matches Ok(commands) ==> take_up_state(
            commands@,
            parsed_json(contents@)->0,
            decode,
            num_extensions,
        ),
{
    if let Ok(commands) = loaded {
        lemma_state_commands(commands@, parsed_json(contents@)->0, decode, num_extensions);
    }
}

} // verus!
