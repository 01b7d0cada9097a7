//! What holds of each operation on statistics, said of its arguments and of the fields that it
//! leaves behind.

use crate::command::{Seconds, StatCommand, StatError, StatField};
use crate::counter::{bump, lemma_wrapped_fits, lemma_wrapped_turn, wrapped};
use crate::handler::{accepts_command, handle_command, Effect, Reaction};
use crate::stats::{is_counter, usize_tally, Stats, StatsView};
use crate::status::StatusCode;
use vstd::prelude::*;

verus! {

/// Whether a counter that showed `before` shows `after` once it moved on by `amount`: their sum,
/// or what is left of it after one full turn.
pub open spec fn moved(before: usize, after: usize, amount: nat) -> bool {
    after == before + amount || after + usize::MAX + 1 == before + amount
}

/// One for each time that something happened: `happened` tells whether it did.
pub open spec fn times(happened: bool) -> nat {
    if happened {
        1
    } else {
        0
    }
}

/// Whether two `Stats` have the same times and the same kind.
pub open spec fn same_times(a: Stats, b: Stats) -> bool {
    &&& a.kind@ == b.kind@
    &&& a.directory_scan_times@ == b.directory_scan_times@
    &&& a.total_runtime@ == b.total_runtime@
}

/// Whether two `Stats` have the same counters.
pub open spec fn same_counters(a: Stats, b: Stats) -> bool {
    &&& a.timeouts == b.timeouts
    &&& a.requests == b.requests
    &&& a.expected_per_scan == b.expected_per_scan
    &&& a.total_expected == b.total_expected
    &&& a.errors == b.errors
    &&& a.successes == b.successes
    &&& a.redirects == b.redirects
    &&& a.client_errors == b.client_errors
    &&& a.server_errors == b.server_errors
    &&& a.total_scans == b.total_scans
    &&& a.initial_targets == b.initial_targets
    &&& a.links_extracted == b.links_extracted
    &&& a.status_403s == b.status_403s
    &&& a.status_200s == b.status_200s
    &&& a.status_301s == b.status_301s
    &&& a.status_302s == b.status_302s
    &&& a.status_401s == b.status_401s
    &&& a.status_429s == b.status_429s
    &&& a.status_500s == b.status_500s
    &&& a.status_503s == b.status_503s
    &&& a.status_504s == b.status_504s
    &&& a.status_508s == b.status_508s
    &&& a.wildcards_filtered == b.wildcards_filtered
    &&& a.responses_filtered == b.responses_filtered
    &&& a.resources_discovered == b.resources_discovered
    &&& a.url_format_errors == b.url_format_errors
    &&& a.redirection_errors == b.redirection_errors
    &&& a.connection_errors == b.connection_errors
    &&& a.request_errors == b.request_errors
}

proof fn lemma_wrapped_once()
    ensures
        forall|n: nat|
            n <= 2 * usize::MAX + 1 ==> #[trigger] wrapped(n) == (if n <= usize::MAX {
                n as int
            } else {
                n - usize::MAX - 1
            }),
{
    assert forall|n: nat| n <= 2 * usize::MAX + 1 implies #[trigger] wrapped(n) == (if n
        <= usize::MAX {
        n as int
    } else {
        n - usize::MAX - 1
    }) by {
        if n <= usize::MAX {
            lemma_wrapped_fits(n);
        } else {
            let rest = (n - usize::MAX - 1) as nat;
            lemma_wrapped_turn(rest);
            lemma_wrapped_fits(rest);
        }
    }
}

/// The view of a `Stats` shows what its fields hold, each under its own name.
pub proof fn law_view_shows_the_fields(stats: Stats)
    ensures
        stats@.kind == stats.kind@,
        stats@.directory_scan_times == stats.directory_scan_times@,
        stats@.total_runtime == stats.total_runtime@,
        stats@.counters[StatField::Timeouts] == stats.timeouts,
        stats@.counters[StatField::Requests] == stats.requests,
        stats@.counters[StatField::ExpectedPerScan] == stats.expected_per_scan,
        stats@.counters[StatField::TotalExpected] == stats.total_expected,
        stats@.counters[StatField::Errors] == stats.errors,
        stats@.counters[StatField::Successes] == stats.successes,
        stats@.counters[StatField::Redirects] == stats.redirects,
        stats@.counters[StatField::ClientErrors] == stats.client_errors,
        stats@.counters[StatField::ServerErrors] == stats.server_errors,
        stats@.counters[StatField::TotalScans] == stats.total_scans,
        stats@.counters[StatField::InitialTargets] == stats.initial_targets,
        stats@.counters[StatField::LinksExtracted] == stats.links_extracted,
        stats@.counters[StatField::Status403s] == stats.status_403s,
        stats@.counters[StatField::Status200s] == stats.status_200s,
        stats@.counters[StatField::Status301s] == stats.status_301s,
        stats@.counters[StatField::Status302s] == stats.status_302s,
        stats@.counters[StatField::Status401s] == stats.status_401s,
        stats@.counters[StatField::Status429s] == stats.status_429s,
        stats@.counters[StatField::Status500s] == stats.status_500s,
        stats@.counters[StatField::Status503s] == stats.status_503s,
        stats@.counters[StatField::Status504s] == stats.status_504s,
        stats@.counters[StatField::Status508s] == stats.status_508s,
        stats@.counters[StatField::WildcardsFiltered] == stats.wildcards_filtered,
        stats@.counters[StatField::ResponsesFiltered] == stats.responses_filtered,
        stats@.counters[StatField::ResourcesDiscovered] == stats.resources_discovered,
        stats@.counters[StatField::UrlFormatErrors] == stats.url_format_errors,
        stats@.counters[StatField::RedirectionErrors] == stats.redirection_errors,
        stats@.counters[StatField::ConnectionErrors] == stats.connection_errors,
        stats@.counters[StatField::RequestErrors] == stats.request_errors,
{
}

/// Two `Stats` with the same view have the same fields.
pub proof fn law_same_view_same_fields(a: Stats, b: Stats)
    ensures
        a@ == b@ ==> same_counters(a, b) && same_times(a, b),
        same_counters(a, b) && same_times(a, b) ==> a@ == b@,
{
    law_view_shows_the_fields(a);
    law_view_shows_the_fields(b);
    if same_counters(a, b) && same_times(a, b) {
        assert(a@.counters =~= b@.counters);
        assert(a@ =~= b@);
    }
}

/// Each counter moves on by its part of a tally that is added.
proof fn lemma_plus_moves(before: Stats, after: Stats, tally: spec_fn(StatField) -> nat)
    requires
        after@ == before@.plus(tally),
        forall|field: StatField| is_counter(field) ==> #[trigger] tally(field) <= usize::MAX,
    ensures
        same_times(before, after),
        moved(before.timeouts, after.timeouts, tally(StatField::Timeouts)),
        moved(before.requests, after.requests, tally(StatField::Requests)),
        moved(before.expected_per_scan, after.expected_per_scan, tally(StatField::ExpectedPerScan)),
        moved(before.total_expected, after.total_expected, tally(StatField::TotalExpected)),
        moved(before.errors, after.errors, tally(StatField::Errors)),
        moved(before.successes, after.successes, tally(StatField::Successes)),
        moved(before.redirects, after.redirects, tally(StatField::Redirects)),
        moved(before.client_errors, after.client_errors, tally(StatField::ClientErrors)),
        moved(before.server_errors, after.server_errors, tally(StatField::ServerErrors)),
        moved(before.total_scans, after.total_scans, tally(StatField::TotalScans)),
        moved(before.initial_targets, after.initial_targets, tally(StatField::InitialTargets)),
        moved(before.links_extracted, after.links_extracted, tally(StatField::LinksExtracted)),
        moved(before.status_403s, after.status_403s, tally(StatField::Status403s)),
        moved(before.status_200s, after.status_200s, tally(StatField::Status200s)),
        moved(before.status_301s, after.status_301s, tally(StatField::Status301s)),
        moved(before.status_302s, after.status_302s, tally(StatField::Status302s)),
        moved(before.status_401s, after.status_401s, tally(StatField::Status401s)),
        moved(before.status_429s, after.status_429s, tally(StatField::Status429s)),
        moved(before.status_500s, after.status_500s, tally(StatField::Status500s)),
        moved(before.status_503s, after.status_503s, tally(StatField::Status503s)),
        moved(before.status_504s, after.status_504s, tally(StatField::Status504s)),
        moved(before.status_508s, after.status_508s, tally(StatField::Status508s)),
        moved(before.wildcards_filtered, after.wildcards_filtered, tally(StatField::WildcardsFiltered)),
        moved(before.responses_filtered, after.responses_filtered, tally(StatField::ResponsesFiltered)),
        moved(before.resources_discovered, after.resources_discovered, tally(StatField::ResourcesDiscovered)),
        moved(before.url_format_errors, after.url_format_errors, tally(StatField::UrlFormatErrors)),
        moved(before.redirection_errors, after.redirection_errors, tally(StatField::RedirectionErrors)),
        moved(before.connection_errors, after.connection_errors, tally(StatField::ConnectionErrors)),
        moved(before.request_errors, after.request_errors, tally(StatField::RequestErrors)),
{
    lemma_wrapped_once();
    law_view_shows_the_fields(before);
    law_view_shows_the_fields(after);
}

/// A counter moves on by the amount by which it is bumped.
pub proof fn law_bump_moves_a_counter(counter: usize, amount: usize, bumped: usize)
    requires
        call_ensures(bump, (counter, amount), bumped),
    ensures
        moved(counter, bumped, amount as nat),
{
    lemma_wrapped_once();
}

/// New statistics have counted nothing, are of the kind `statistics` and hold one runtime of zero.
pub proof fn law_new_statistics_are_blank(stats: Stats)
    requires
        call_ensures(Stats::new, (), stats),
    ensures
        stats.kind@ == "statistics"@,
        stats.directory_scan_times@.len() == 0,
        stats.total_runtime@.len() == 1,
        stats.total_runtime@[0].bits == 0,
        stats@ == StatsView::fresh(),
        stats.timeouts == 0,
        stats.requests == 0,
        stats.expected_per_scan == 0,
        stats.total_expected == 0,
        stats.errors == 0,
        stats.successes == 0,
        stats.redirects == 0,
        stats.client_errors == 0,
        stats.server_errors == 0,
        stats.total_scans == 0,
        stats.initial_targets == 0,
        stats.links_extracted == 0,
        stats.status_403s == 0,
        stats.status_200s == 0,
        stats.status_301s == 0,
        stats.status_302s == 0,
        stats.status_401s == 0,
        stats.status_429s == 0,
        stats.status_500s == 0,
        stats.status_503s == 0,
        stats.status_504s == 0,
        stats.status_508s == 0,
        stats.wildcards_filtered == 0,
        stats.responses_filtered == 0,
        stats.resources_discovered == 0,
        stats.url_format_errors == 0,
        stats.redirection_errors == 0,
        stats.connection_errors == 0,
        stats.request_errors == 0,
{
    law_view_shows_the_fields(stats);
}

/// Default statistics have counted nothing and hold no kind, no times and no runtime.
pub proof fn law_default_statistics_are_empty(stats: Stats)
    requires
        call_ensures(<Stats as Default>::default, (), stats),
    ensures
        stats.kind@.len() == 0,
        stats.directory_scan_times@.len() == 0,
        stats.total_runtime@.len() == 0,
        stats.timeouts == 0,
        stats.requests == 0,
        stats.expected_per_scan == 0,
        stats.total_expected == 0,
        stats.errors == 0,
        stats.successes == 0,
        stats.redirects == 0,
        stats.client_errors == 0,
        stats.server_errors == 0,
        stats.total_scans == 0,
        stats.initial_targets == 0,
        stats.links_extracted == 0,
        stats.status_403s == 0,
        stats.status_200s == 0,
        stats.status_301s == 0,
        stats.status_302s == 0,
        stats.status_401s == 0,
        stats.status_429s == 0,
        stats.status_500s == 0,
        stats.status_503s == 0,
        stats.status_504s == 0,
        stats.status_508s == 0,
        stats.wildcards_filtered == 0,
        stats.responses_filtered == 0,
        stats.resources_discovered == 0,
        stats.url_format_errors == 0,
        stats.redirection_errors == 0,
        stats.connection_errors == 0,
        stats.request_errors == 0,
{
    law_view_shows_the_fields(stats);
}

/// A request moves the number of requests on by one, and nothing else.
pub proof fn law_request_counts_once(stats: &mut Stats)
    requires
        call_ensures(Stats::add_request, (stats,), ()),
    ensures
        same_times(*old(stats), *final(stats)),
        final(stats).timeouts == old(stats).timeouts,
        moved(old(stats).requests, final(stats).requests, 1),
        final(stats).expected_per_scan == old(stats).expected_per_scan,
        final(stats).total_expected == old(stats).total_expected,
        final(stats).errors == old(stats).errors,
        final(stats).successes == old(stats).successes,
        final(stats).redirects == old(stats).redirects,
        final(stats).client_errors == old(stats).client_errors,
        final(stats).server_errors == old(stats).server_errors,
        final(stats).total_scans == old(stats).total_scans,
        final(stats).initial_targets == old(stats).initial_targets,
        final(stats).links_extracted == old(stats).links_extracted,
        final(stats).status_403s == old(stats).status_403s,
        final(stats).status_200s == old(stats).status_200s,
        final(stats).status_301s == old(stats).status_301s,
        final(stats).status_302s == old(stats).status_302s,
        final(stats).status_401s == old(stats).status_401s,
        final(stats).status_429s == old(stats).status_429s,
        final(stats).status_500s == old(stats).status_500s,
        final(stats).status_503s == old(stats).status_503s,
        final(stats).status_504s == old(stats).status_504s,
        final(stats).status_508s == old(stats).status_508s,
        final(stats).wildcards_filtered == old(stats).wildcards_filtered,
        final(stats).responses_filtered == old(stats).responses_filtered,
        final(stats).resources_discovered == old(stats).resources_discovered,
        final(stats).url_format_errors == old(stats).url_format_errors,
        final(stats).redirection_errors == old(stats).redirection_errors,
        final(stats).connection_errors == old(stats).connection_errors,
        final(stats).request_errors == old(stats).request_errors,
{
    lemma_wrapped_once();
    law_view_shows_the_fields(*old(stats));
    law_view_shows_the_fields(*final(stats));
}

/// An error is one request and one error. It counts among the errors of its own kind, a 403 also
/// among the 4xx responses and the 403s, and among no others: it is no response of another class
/// or code.
pub proof fn law_error_counts_by_its_kind(stats: &mut Stats, error: StatError)
    requires
        call_ensures(Stats::add_error, (stats, error), ()),
    ensures
        same_times(*old(stats), *final(stats)),
        moved(old(stats).timeouts, final(stats).timeouts, times(error == StatError::Timeout)),
        moved(old(stats).requests, final(stats).requests, 1),
        final(stats).expected_per_scan == old(stats).expected_per_scan,
        final(stats).total_expected == old(stats).total_expected,
        moved(old(stats).errors, final(stats).errors, 1),
        final(stats).successes == old(stats).successes,
        final(stats).redirects == old(stats).redirects,
        moved(old(stats).client_errors, final(stats).client_errors, times(error == StatError::Status403)),
        final(stats).server_errors == old(stats).server_errors,
        final(stats).total_scans == old(stats).total_scans,
        final(stats).initial_targets == old(stats).initial_targets,
        final(stats).links_extracted == old(stats).links_extracted,
        moved(old(stats).status_403s, final(stats).status_403s, times(error == StatError::Status403)),
        final(stats).status_200s == old(stats).status_200s,
        final(stats).status_301s == old(stats).status_301s,
        final(stats).status_302s == old(stats).status_302s,
        final(stats).status_401s == old(stats).status_401s,
        final(stats).status_429s == old(stats).status_429s,
        final(stats).status_500s == old(stats).status_500s,
        final(stats).status_503s == old(stats).status_503s,
        final(stats).status_504s == old(stats).status_504s,
        final(stats).status_508s == old(stats).status_508s,
        final(stats).wildcards_filtered == old(stats).wildcards_filtered,
        final(stats).responses_filtered == old(stats).responses_filtered,
        final(stats).resources_discovered == old(stats).resources_discovered,
        moved(old(stats).url_format_errors, final(stats).url_format_errors, times(error == StatError::UrlFormat)),
        moved(old(stats).redirection_errors, final(stats).redirection_errors, times(error == StatError::Redirection)),
        moved(old(stats).connection_errors, final(stats).connection_errors, times(error == StatError::Connection)),
        moved(old(stats).request_errors, final(stats).request_errors, times(error == StatError::Request)),
{
    lemma_wrapped_once();
    law_view_shows_the_fields(*old(stats));
    law_view_shows_the_fields(*final(stats));
}

/// A response is one request. It counts in the class of its status code and, for a code that is
/// followed by itself, in the counter of that code and of no other code; a 4xx or 5xx is an error.
pub proof fn law_response_counts_by_its_code(stats: &mut Stats, status: StatusCode)
    requires
        call_ensures(Stats::add_status_code, (stats, status), ()),
    ensures
        same_times(*old(stats), *final(stats)),
        final(stats).timeouts == old(stats).timeouts,
        moved(old(stats).requests, final(stats).requests, 1),
        final(stats).expected_per_scan == old(stats).expected_per_scan,
        final(stats).total_expected == old(stats).total_expected,
        moved(old(stats).errors, final(stats).errors, times(400 <= status@ < 600)),
        moved(old(stats).successes, final(stats).successes, times(200 <= status@ < 300)),
        moved(old(stats).redirects, final(stats).redirects, times(300 <= status@ < 400)),
        moved(old(stats).client_errors, final(stats).client_errors, times(400 <= status@ < 500)),
        moved(old(stats).server_errors, final(stats).server_errors, times(500 <= status@ < 600)),
        final(stats).total_scans == old(stats).total_scans,
        final(stats).initial_targets == old(stats).initial_targets,
        final(stats).links_extracted == old(stats).links_extracted,
        moved(old(stats).status_403s, final(stats).status_403s, times(status@ == 403)),
        moved(old(stats).status_200s, final(stats).status_200s, times(status@ == 200)),
        moved(old(stats).status_301s, final(stats).status_301s, times(status@ == 301)),
        moved(old(stats).status_302s, final(stats).status_302s, times(status@ == 302)),
        moved(old(stats).status_401s, final(stats).status_401s, times(status@ == 401)),
        moved(old(stats).status_429s, final(stats).status_429s, times(status@ == 429)),
        moved(old(stats).status_500s, final(stats).status_500s, times(status@ == 500)),
        moved(old(stats).status_503s, final(stats).status_503s, times(status@ == 503)),
        moved(old(stats).status_504s, final(stats).status_504s, times(status@ == 504)),
        moved(old(stats).status_508s, final(stats).status_508s, times(status@ == 508)),
        final(stats).wildcards_filtered == old(stats).wildcards_filtered,
        final(stats).responses_filtered == old(stats).responses_filtered,
        final(stats).resources_discovered == old(stats).resources_discovered,
        final(stats).url_format_errors == old(stats).url_format_errors,
        final(stats).redirection_errors == old(stats).redirection_errors,
        final(stats).connection_errors == old(stats).connection_errors,
        final(stats).request_errors == old(stats).request_errors,
{
    lemma_wrapped_once();
    law_view_shows_the_fields(*old(stats));
    law_view_shows_the_fields(*final(stats));
}

/// A batch update moves the counter of its field on by the given value. New scans also move the
/// total expectation on by the product of their number, what is expected of one scan and the number
/// of extensions, if there are any; filtered wildcards count among the filtered responses too.
/// No other counter moves.
pub proof fn law_batch_moves_its_counter(stats: &mut Stats, field: StatField, value: usize, num_extensions: usize)
    requires
        call_ensures(Stats::update_usize_field, (stats, field, value, num_extensions), ()),
        field == StatField::TotalScans ==> value * old(stats).expected_per_scan * (if num_extensions == 0 { 1 } else { num_extensions as int }) <= usize::MAX,
    ensures
        same_times(*old(stats), *final(stats)),
        moved(old(stats).timeouts, final(stats).timeouts, if field == StatField::Timeouts { value as nat } else { 0 }),
        moved(old(stats).requests, final(stats).requests, if field == StatField::Requests { value as nat } else { 0 }),
        moved(old(stats).expected_per_scan, final(stats).expected_per_scan, if field == StatField::ExpectedPerScan { value as nat } else { 0 }),
        moved(old(stats).total_expected, final(stats).total_expected, if field == StatField::TotalExpected {
            value as nat
        } else if field == StatField::TotalScans && num_extensions == 0 {
            value as nat * old(stats).expected_per_scan as nat
        } else if field == StatField::TotalScans {
            value as nat * old(stats).expected_per_scan as nat * num_extensions as nat
        } else {
            0
        }),
        moved(old(stats).errors, final(stats).errors, if field == StatField::Errors { value as nat } else { 0 }),
        moved(old(stats).successes, final(stats).successes, if field == StatField::Successes { value as nat } else { 0 }),
        moved(old(stats).redirects, final(stats).redirects, if field == StatField::Redirects { value as nat } else { 0 }),
        moved(old(stats).client_errors, final(stats).client_errors, if field == StatField::ClientErrors { value as nat } else { 0 }),
        moved(old(stats).server_errors, final(stats).server_errors, if field == StatField::ServerErrors { value as nat } else { 0 }),
        moved(old(stats).total_scans, final(stats).total_scans, if field == StatField::TotalScans { value as nat } else { 0 }),
        moved(old(stats).initial_targets, final(stats).initial_targets, if field == StatField::InitialTargets { value as nat } else { 0 }),
        moved(old(stats).links_extracted, final(stats).links_extracted, if field == StatField::LinksExtracted { value as nat } else { 0 }),
        moved(old(stats).status_403s, final(stats).status_403s, if field == StatField::Status403s { value as nat } else { 0 }),
        moved(old(stats).status_200s, final(stats).status_200s, if field == StatField::Status200s { value as nat } else { 0 }),
        moved(old(stats).status_301s, final(stats).status_301s, if field == StatField::Status301s { value as nat } else { 0 }),
        moved(old(stats).status_302s, final(stats).status_302s, if field == StatField::Status302s { value as nat } else { 0 }),
        moved(old(stats).status_401s, final(stats).status_401s, if field == StatField::Status401s { value as nat } else { 0 }),
        moved(old(stats).status_429s, final(stats).status_429s, if field == StatField::Status429s { value as nat } else { 0 }),
        moved(old(stats).status_500s, final(stats).status_500s, if field == StatField::Status500s { value as nat } else { 0 }),
        moved(old(stats).status_503s, final(stats).status_503s, if field == StatField::Status503s { value as nat } else { 0 }),
        moved(old(stats).status_504s, final(stats).status_504s, if field == StatField::Status504s { value as nat } else { 0 }),
        moved(old(stats).status_508s, final(stats).status_508s, if field == StatField::Status508s { value as nat } else { 0 }),
        moved(old(stats).wildcards_filtered, final(stats).wildcards_filtered, if field == StatField::WildcardsFiltered { value as nat } else { 0 }),
        moved(old(stats).responses_filtered, final(stats).responses_filtered, if field == StatField::ResponsesFiltered || field == StatField::WildcardsFiltered { value as nat } else { 0 }),
        moved(old(stats).resources_discovered, final(stats).resources_discovered, if field == StatField::ResourcesDiscovered { value as nat } else { 0 }),
        moved(old(stats).url_format_errors, final(stats).url_format_errors, if field == StatField::UrlFormatErrors { value as nat } else { 0 }),
        moved(old(stats).redirection_errors, final(stats).redirection_errors, if field == StatField::RedirectionErrors { value as nat } else { 0 }),
        moved(old(stats).connection_errors, final(stats).connection_errors, if field == StatField::ConnectionErrors { value as nat } else { 0 }),
        moved(old(stats).request_errors, final(stats).request_errors, if field == StatField::RequestErrors { value as nat } else { 0 }),
{
    law_view_shows_the_fields(*old(stats));
    law_same_view_same_fields(*old(stats), *final(stats));
    assert(value as nat * old(stats).expected_per_scan as nat * 1 == value as nat * old(
        stats,
    ).expected_per_scan as nat);
    if field != StatField::DirScanTimes {
        let tally = usize_tally(
            field,
            value as nat,
            old(stats).expected_per_scan as nat,
            num_extensions as nat,
        );
        lemma_plus_moves(*old(stats), *final(stats), tally);
    }
}

/// A scan time is appended behind the earlier ones; a time for another field is ignored. No
/// counter moves.
pub proof fn law_scan_time_is_appended(stats: &mut Stats, field: StatField, value: Seconds)
    requires
        call_ensures(Stats::update_f64_field, (stats, field, value), ()),
    ensures
        same_counters(*old(stats), *final(stats)),
        final(stats).kind@ == old(stats).kind@,
        final(stats).total_runtime@ == old(stats).total_runtime@,
        ({
            let before = old(stats).directory_scan_times@;
            let after = final(stats).directory_scan_times@;
            if field == StatField::DirScanTimes {
                &&& after.len() == before.len() + 1
                &&& after.last() == value
                &&& forall|i: int| 0 <= i < before.len() ==> after[i] == #[trigger] before[i]
            } else {
                after == before
            }
        }),
{
    law_view_shows_the_fields(*old(stats));
    law_view_shows_the_fields(*final(stats));
}

/// The runtime that was stored last is the first one held; the others, and all else, stay.
pub proof fn law_runtime_is_stored(stats: &mut Stats, seconds: Seconds)
    requires
        call_ensures(Stats::update_runtime, (stats, seconds), ()),
        old(stats).total_runtime@.len() > 0,
    ensures
        same_counters(*old(stats), *final(stats)),
        final(stats).kind@ == old(stats).kind@,
        final(stats).directory_scan_times@ == old(stats).directory_scan_times@,
        final(stats).total_runtime@.len() == old(stats).total_runtime@.len(),
        final(stats).total_runtime@[0] == seconds,
        forall|i: int|
            0 < i < old(stats).total_runtime@.len() ==> #[trigger] final(stats).total_runtime@[i]
                == old(stats).total_runtime@[i],
{
    law_view_shows_the_fields(*old(stats));
    law_view_shows_the_fields(*final(stats));
}

/// The number of requests expected of new scans is the product of their number, what is expected
/// of one scan and the number of extensions, if there are any. It is missing exactly where that
/// product does not fit.
pub proof fn law_expected_of_scans_is_a_product(
    stats: Stats,
    scans: usize,
    num_extensions: usize,
    expected: Option<usize>,
)
    requires
        call_ensures(Stats::expected_of_scans, (&stats, scans, num_extensions), expected),
    ensures
        num_extensions == 0 ==> match expected {
            Some(number) => number == scans * stats.expected_per_scan,
            None => scans * stats.expected_per_scan > usize::MAX,
        },
        num_extensions > 0 ==> match expected {
            Some(number) => number == scans * stats.expected_per_scan * num_extensions,
            None => scans * stats.expected_per_scan * num_extensions > usize::MAX,
        },
{
    law_view_shows_the_fields(stats);
}

/// With `n` extensions `n` times as many requests are expected as with one, and with none as many
/// as with one.
pub proof fn law_each_extension_counts(
    stats: Stats,
    scans: usize,
    num_extensions: usize,
    of_all: usize,
    of_one: usize,
    of_none: usize,
)
    requires
        num_extensions > 0,
        call_ensures(Stats::expected_of_scans, (&stats, scans, num_extensions), Some(of_all)),
        call_ensures(Stats::expected_of_scans, (&stats, scans, 1), Some(of_one)),
        call_ensures(Stats::expected_of_scans, (&stats, scans, 0), Some(of_none)),
    ensures
        of_all == of_one * num_extensions,
        of_none == of_one,
{
    law_expected_of_scans_is_a_product(stats, scans, num_extensions, Some(of_all));
    law_expected_of_scans_is_a_product(stats, scans, 1, Some(of_one));
    law_expected_of_scans_is_a_product(stats, scans, 0, Some(of_none));
}

/// A command is turned down exactly if it starts scans of which more requests are expected than
/// a counter can show.
pub proof fn law_accepted_commands(
    stats: Stats,
    command: StatCommand,
    num_extensions: usize,
    accepted: bool,
)
    requires
        call_ensures(accepts_command, (&stats, &command, num_extensions), accepted),
    ensures
        !accepted <==> (command matches StatCommand::UpdateUsizeField(field, scans) && field
            == StatField::TotalScans && (if num_extensions == 0 {
            scans * stats.expected_per_scan > usize::MAX
        } else {
            scans * stats.expected_per_scan * num_extensions > usize::MAX
        })),
{
    law_view_shows_the_fields(stats);
}

/// The number of a status code is the one that it was made from, and every number of three digits
/// makes one.
pub proof fn law_status_codes_have_three_digits(number: u16, status: Option<StatusCode>)
    requires
        call_ensures(StatusCode::from_u16, (number,), status),
    ensures
        status is Some <==> 100 <= number < 1000,
        status matches Some(code) ==> forall|again: u16|
            call_ensures(StatusCode::as_u16, (&code,), again) ==> again == number,
{
}

/// The class of a status code is told by its first digit.
pub proof fn law_first_digit_is_the_class(
    status: StatusCode,
    number: u16,
    success: bool,
    redirection: bool,
    client_error: bool,
    server_error: bool,
)
    requires
        call_ensures(StatusCode::as_u16, (&status,), number),
        call_ensures(StatusCode::is_success, (&status,), success),
        call_ensures(StatusCode::is_redirection, (&status,), redirection),
        call_ensures(StatusCode::is_client_error, (&status,), client_error),
        call_ensures(StatusCode::is_server_error, (&status,), server_error),
    ensures
        number == status@,
        success <==> number / 100 == 2,
        redirection <==> number / 100 == 3,
        client_error <==> number / 100 == 4,
        server_error <==> number / 100 == 5,
{
}

/// Whether the reaction to a command asks for what the command is about: only new scans set the
/// length of the progress bar, only `CreateBar` creates one, both with the total expectation; only
/// `Save` saves, only `LoadStats` loads, and from the file that it names.
pub open spec fn asks_for_what_it_should(
    command: StatCommand,
    effect: Effect,
    total_expected: usize,
) -> bool {
    &&& effect is SetBarLength <==> (command matches StatCommand::UpdateUsizeField(field, _)
        && field == StatField::TotalScans)
    &&& effect is CreateBar <==> command is CreateBar
    &&& effect is Save <==> command is Save
    &&& effect is LoadStats <==> command is LoadStats
    &&& (effect matches Effect::SetBarLength(length) ==> length == total_expected)
    &&& (effect matches Effect::CreateBar(length) ==> length == total_expected)
    &&& (effect matches Effect::LoadStats(filename) ==> command == StatCommand::LoadStats(filename))
}

/// The handler leaves its loop at `Exit` and at no other command. Else the reaction asks for what
/// the command is about, with the total expectation that the statistics then hold.
pub proof fn law_reaction_fits_the_command(
    stats: &mut Stats,
    command: StatCommand,
    num_extensions: usize,
    reaction: Reaction,
)
    requires
        call_ensures(handle_command, (stats, command, num_extensions), reaction),
    ensures
        reaction is Exit <==> command is Exit,
        reaction matches Reaction::Continue { effect, message } ==> asks_for_what_it_should(
            command,
            effect,
            final(stats).total_expected,
        ),
{
    law_view_shows_the_fields(*final(stats));
}

/// Commands about the progress bar and the disk, and `Exit`, leave every field as it is.
pub proof fn law_handler_only_counts_updates(
    stats: &mut Stats,
    command: StatCommand,
    num_extensions: usize,
    reaction: Reaction,
)
    requires
        call_ensures(handle_command, (stats, command, num_extensions), reaction),
        command is CreateBar || command is Save || command is LoadStats || command is Exit,
    ensures
        same_counters(*old(stats), *final(stats)),
        same_times(*old(stats), *final(stats)),
{
    law_same_view_same_fields(*old(stats), *final(stats));
}

/// Handling `AddRequest` does to the statistics what adding a request does.
pub proof fn law_handler_adds_requests(
    handled: &mut Stats,
    updated: &mut Stats,
    num_extensions: usize,
    reaction: Reaction,
)
    requires
        call_ensures(handle_command, (handled, StatCommand::AddRequest, num_extensions), reaction),
        call_ensures(Stats::add_request, (updated,), ()),
        same_counters(*old(handled), *old(updated)),
        same_times(*old(handled), *old(updated)),
    ensures
        same_counters(*final(handled), *final(updated)),
        same_times(*final(handled), *final(updated)),
{
    law_same_view_same_fields(*old(handled), *old(updated));
    law_same_view_same_fields(*final(handled), *final(updated));
}

/// Handling `AddError` does to the statistics what adding the error does.
pub proof fn law_handler_adds_errors(
    handled: &mut Stats,
    updated: &mut Stats,
    error: StatError,
    num_extensions: usize,
    reaction: Reaction,
)
    requires
        call_ensures(handle_command, (handled, StatCommand::AddError(error), num_extensions), reaction),
        call_ensures(Stats::add_error, (updated, error), ()),
        same_counters(*old(handled), *old(updated)),
        same_times(*old(handled), *old(updated)),
    ensures
        same_counters(*final(handled), *final(updated)),
        same_times(*final(handled), *final(updated)),
{
    law_same_view_same_fields(*old(handled), *old(updated));
    law_same_view_same_fields(*final(handled), *final(updated));
}

/// Handling `AddStatus` does to the statistics what adding the status code does.
pub proof fn law_handler_adds_responses(
    handled: &mut Stats,
    updated: &mut Stats,
    status: StatusCode,
    num_extensions: usize,
    reaction: Reaction,
)
    requires
        call_ensures(handle_command, (handled, StatCommand::AddStatus(status), num_extensions), reaction),
        call_ensures(Stats::add_status_code, (updated, status), ()),
        same_counters(*old(handled), *old(updated)),
        same_times(*old(handled), *old(updated)),
    ensures
        same_counters(*final(handled), *final(updated)),
        same_times(*final(handled), *final(updated)),
{
    law_same_view_same_fields(*old(handled), *old(updated));
    law_same_view_same_fields(*final(handled), *final(updated));
}

/// Handling `UpdateUsizeField` does to the statistics what updating the field does.
pub proof fn law_handler_updates_counters(
    handled: &mut Stats,
    updated: &mut Stats,
    field: StatField,
    value: usize,
    num_extensions: usize,
    reaction: Reaction,
)
    requires
        call_ensures(handle_command, (handled, StatCommand::UpdateUsizeField(field, value), num_extensions), reaction),
        call_ensures(Stats::update_usize_field, (updated, field, value, num_extensions), ()),
        same_counters(*old(handled), *old(updated)),
        same_times(*old(handled), *old(updated)),
    ensures
        same_counters(*final(handled), *final(updated)),
        same_times(*final(handled), *final(updated)),
{
    law_same_view_same_fields(*old(handled), *old(updated));
    law_same_view_same_fields(*final(handled), *final(updated));
}

/// Handling `UpdateF64Field` does to the statistics what updating the field does.
pub proof fn law_handler_appends_times(
    handled: &mut Stats,
    updated: &mut Stats,
    field: StatField,
    value: Seconds,
    num_extensions: usize,
    reaction: Reaction,
)
    requires
        call_ensures(handle_command, (handled, StatCommand::UpdateF64Field(field, value), num_extensions), reaction),
        call_ensures(Stats::update_f64_field, (updated, field, value), ()),
        same_counters(*old(handled), *old(updated)),
        same_times(*old(handled), *old(updated)),
    ensures
        same_counters(*final(handled), *final(updated)),
        same_times(*final(handled), *final(updated)),
{
    law_same_view_same_fields(*old(handled), *old(updated));
    law_same_view_same_fields(*final(handled), *final(updated));
}

} // verus!
