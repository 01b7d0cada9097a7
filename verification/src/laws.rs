//! What holds of the statistics as a whole, over all commands and runs of commands.

use crate::command::{Seconds, StatCommand, StatError, StatField};
use crate::counter::{
    lemma_wrapped_bound, lemma_wrapped_fits, lemma_wrapped_turn, lemma_wrapped_twice, wrapped,
};
use crate::handler::{command_tally, Effect};
use crate::resume::{
    counter_commands, early_fields, late_fields, time_commands, update_amount, update_commands,
};
use crate::stats::{extension_multiplier, is_counter, one_if, scan_requests, Stats, StatsView};
use crate::status::StatusCode;
use vstd::prelude::*;

verus! {

broadcast use {lemma_wrapped_bound, lemma_wrapped_fits, lemma_wrapped_twice};

/// What a `Stats` holds is valid: one number for each counter, each of which fits in a `usize`.
pub proof fn law_stats_are_valid(stats: Stats)
    ensures
        stats@.valid(),
{
}

/// A command adds its tally to each counter and leaves the statistics valid.
pub proof fn law_command_adds_its_tally(stats: StatsView, command: StatCommand, num_extensions: nat)
    requires
        stats.valid(),
    ensures
        stats.after(command, num_extensions).valid(),
        forall|field: StatField|
            is_counter(field) ==> #[trigger] stats.after(command, num_extensions).counters[field]
                == wrapped(stats.counters[field] + stats.tally(command, num_extensions)(field)),
{
    let after = stats.after(command, num_extensions);
    assert forall|field: StatField| is_counter(field) implies #[trigger] after.counters[field]
        == wrapped(stats.counters[field] + stats.tally(command, num_extensions)(field)) by {}
}

/// Commands about the progress bar and the disk, and the command to exit, leave the
/// statistics as they are.
pub proof fn law_other_commands_change_nothing(
    stats: StatsView,
    command: StatCommand,
    num_extensions: nat,
)
    requires
        command is CreateBar || command is Save || command is LoadStats || command is Exit,
    ensures
        stats.after(command, num_extensions) == stats,
{
}

/// No run of commands changes the kind of the statistics or the total runtime. So the
/// statistics that a scan starts with keep the one value in which the runtime is stored.
pub proof fn law_kind_and_runtime_are_kept(
    stats: StatsView,
    commands: Seq<StatCommand>,
    num_extensions: nat,
)
    ensures
        stats.after_all(commands, num_extensions).kind == stats.kind,
        stats.after_all(commands, num_extensions).total_runtime == stats.total_runtime,
    decreases commands.len(),
{
    if commands.len() > 0 && !(commands[0] is Exit) {
        law_kind_and_runtime_are_kept(
            stats.after(commands[0], num_extensions),
            commands.drop_first(),
            num_extensions,
        );
    }
}

/// Every run of commands leaves the statistics valid.
pub proof fn law_runs_keep_statistics_valid(
    stats: StatsView,
    commands: Seq<StatCommand>,
    num_extensions: nat,
)
    requires
        stats.valid(),
    ensures
        stats.after_all(commands, num_extensions).valid(),
    decreases commands.len(),
{
    if commands.len() > 0 && !(commands[0] is Exit) {
        law_command_adds_its_tally(stats, commands[0], num_extensions);
        law_runs_keep_statistics_valid(
            stats.after(commands[0], num_extensions),
            commands.drop_first(),
            num_extensions,
        );
    }
}

/// Nothing that arrives after an `Exit` is counted.
pub proof fn law_exit_ends_the_run(
    stats: StatsView,
    before: Seq<StatCommand>,
    rest: Seq<StatCommand>,
    num_extensions: nat,
)
    ensures
        stats.after_all(before.push(StatCommand::Exit) + rest, num_extensions) == stats.after_all(
            before,
            num_extensions,
        ),
    decreases before.len(),
{
    let all = before.push(StatCommand::Exit) + rest;
    if before.len() > 0 {
        assert(all[0] == before[0]);
        assert(all.drop_first() =~= before.drop_first().push(StatCommand::Exit) + rest);
        if !(before[0] is Exit) {
            law_exit_ends_the_run(
                stats.after(before[0], num_extensions),
                before.drop_first(),
                rest,
                num_extensions,
            );
        }
    } else {
        assert(all[0] is Exit);
    }
}

/// No command of a run is an `Exit`.
pub open spec fn has_no_exit(commands: Seq<StatCommand>) -> bool {
    forall|i: int| 0 <= i < commands.len() ==> !(#[trigger] commands[i] is Exit)
}

/// A run without an `Exit`, followed by another run, is the two runs one after the other.
pub proof fn law_runs_compose(
    stats: StatsView,
    first: Seq<StatCommand>,
    second: Seq<StatCommand>,
    num_extensions: nat,
)
    requires
        has_no_exit(first),
    ensures
        stats.after_all(first + second, num_extensions) == stats.after_all(
            first,
            num_extensions,
        ).after_all(second, num_extensions),
    decreases first.len(),
{
    let all = first + second;
    if first.len() > 0 {
        assert(all[0] == first[0]);
        assert(all.drop_first() =~= first.drop_first() + second);
        assert(has_no_exit(first.drop_first())) by {
            assert forall|i: int| 0 <= i < first.drop_first().len() implies !(
            #[trigger] first.drop_first()[i] is Exit) by {
                assert(first.drop_first()[i] == first[i + 1]);
            }
        }
        law_runs_compose(
            stats.after(first[0], num_extensions),
            first.drop_first(),
            second,
            num_extensions,
        );
    } else {
        assert(all =~= second);
    }
}

/// What a run of commands adds to a counter in all, as long as the expectation per scan
/// stays what it is.
pub open spec fn total_added(
    commands: Seq<StatCommand>,
    expected_per_scan: nat,
    num_extensions: nat,
    field: StatField,
) -> nat
    decreases commands.len(),
{
    if commands.len() == 0 {
        0
    } else {
        command_tally(commands[0], expected_per_scan, num_extensions)(field) + total_added(
            commands.drop_first(),
            expected_per_scan,
            num_extensions,
            field,
        )
    }
}

/// Whether no command of a run changes the expectation per scan.
pub open spec fn keeps_expectation(commands: Seq<StatCommand>) -> bool {
    forall|i: int|
        0 <= i < commands.len() ==> !(#[trigger] commands[i] matches StatCommand::UpdateUsizeField(
            StatField::ExpectedPerScan,
            _,
        ))
}

proof fn lemma_drop_first_keeps(commands: Seq<StatCommand>)
    requires
        commands.len() > 0,
    ensures
        has_no_exit(commands) ==> has_no_exit(commands.drop_first()),
        keeps_expectation(commands) ==> keeps_expectation(commands.drop_first()),
{
    assert forall|i: int| 0 <= i < commands.drop_first().len() implies
        #[trigger] commands.drop_first()[i] == commands[i + 1] by {}
}

/// For all counters but the total expectation it does not matter what is expected of a scan.
proof fn lemma_total_added_elsewhere(
    commands: Seq<StatCommand>,
    expected1: nat,
    expected2: nat,
    num_extensions: nat,
    field: StatField,
)
    requires
        !(field is TotalExpected),
    ensures
        total_added(commands, expected1, num_extensions, field) == total_added(
            commands,
            expected2,
            num_extensions,
            field,
        ),
    decreases commands.len(),
{
    if commands.len() > 0 {
        lemma_total_added_elsewhere(
            commands.drop_first(),
            expected1,
            expected2,
            num_extensions,
            field,
        );
    }
}

/// After a run of commands a counter shows what it showed before plus what the commands add.
/// For the total expectation this is said of runs that do not change the expectation per scan.
pub proof fn law_runs_add_up(
    stats: StatsView,
    commands: Seq<StatCommand>,
    num_extensions: nat,
    field: StatField,
)
    requires
        stats.valid(),
        is_counter(field),
        has_no_exit(commands),
        field is TotalExpected ==> keeps_expectation(commands),
    ensures
        stats.after_all(commands, num_extensions).counters[field] == wrapped(
            stats.counters[field] + total_added(
                commands,
                stats.counters[StatField::ExpectedPerScan],
                num_extensions,
                field,
            ),
        ),
    decreases commands.len(),
{
    if commands.len() > 0 {
        let next = stats.after(commands[0], num_extensions);
        let rest = commands.drop_first();
        let expected = stats.counters[StatField::ExpectedPerScan];
        law_command_adds_its_tally(stats, commands[0], num_extensions);
        lemma_drop_first_keeps(commands);
        law_runs_add_up(next, rest, num_extensions, field);
        if field is TotalExpected {
            assert(next.counters[StatField::ExpectedPerScan] == expected);
        } else {
            lemma_total_added_elsewhere(
                rest,
                next.counters[StatField::ExpectedPerScan],
                expected,
                num_extensions,
                field,
            );
        }
        let added = stats.tally(commands[0], num_extensions)(field);
        let more = total_added(rest, expected, num_extensions, field);
        assert(next.counters[field] == wrapped(stats.counters[field] + added));
        lemma_wrapped_twice(stats.counters[field] + added, more);
    }
}

/// As long as nothing wraps around, no counter ever shows less than before.
pub proof fn law_counters_only_grow(
    stats: StatsView,
    commands: Seq<StatCommand>,
    num_extensions: nat,
    field: StatField,
)
    requires
        stats.valid(),
        is_counter(field),
        has_no_exit(commands),
        field is TotalExpected ==> keeps_expectation(commands),
        stats.counters[field] + total_added(
            commands,
            stats.counters[StatField::ExpectedPerScan],
            num_extensions,
            field,
        ) <= usize::MAX,
    ensures
        stats.counters[field] <= stats.after_all(commands, num_extensions).counters[field],
{
    law_runs_add_up(stats, commands, num_extensions, field);
}

/// What a run adds to a counter, as a fold over its commands.
proof fn lemma_total_added_is_fold(
    commands: Seq<StatCommand>,
    expected_per_scan: nat,
    num_extensions: nat,
    field: StatField,
)
    ensures
        total_added(commands, expected_per_scan, num_extensions, field) == commands.fold_right_alt(
            |command: StatCommand, sum: nat|
                command_tally(command, expected_per_scan, num_extensions)(field) + sum,
            0nat,
        ),
    decreases commands.len(),
{
    if commands.len() > 0 {
        lemma_total_added_is_fold(
            commands.drop_first(),
            expected_per_scan,
            num_extensions,
            field,
        );
        assert(commands.drop_first() =~= commands.subrange(1, commands.len() as int));
    }
}

/// The order in which commands arrive does not matter to a counter. For the total expectation
/// this is said of runs that do not change the expectation per scan.
pub proof fn law_order_does_not_matter(
    stats: StatsView,
    commands: Seq<StatCommand>,
    reordered: Seq<StatCommand>,
    num_extensions: nat,
    field: StatField,
)
    requires
        stats.valid(),
        is_counter(field),
        has_no_exit(commands),
        field is TotalExpected ==> keeps_expectation(commands),
        commands.to_multiset() == reordered.to_multiset(),
    ensures
        stats.after_all(commands, num_extensions).counters[field] == stats.after_all(
            reordered,
            num_extensions,
        ).counters[field],
{
    broadcast use vstd::seq_lib::group_to_multiset_ensures;

    assert forall|i: int| 0 <= i < reordered.len() implies commands.contains(
        #[trigger] reordered[i],
    ) by {
        assert(reordered.contains(reordered[i]));
        assert(reordered.to_multiset().count(reordered[i]) > 0);
    }
    let expected = stats.counters[StatField::ExpectedPerScan];
    let step = |command: StatCommand, sum: nat|
        command_tally(command, expected, num_extensions)(field) + sum;
    lemma_total_added_is_fold(commands, expected, num_extensions, field);
    lemma_total_added_is_fold(reordered, expected, num_extensions, field);
    commands.lemma_fold_right_alt(step, 0nat);
    reordered.lemma_fold_right_alt(step, 0nat);
    vstd::seq_lib::lemma_fold_right_permutation(commands, reordered, step, 0nat);
    law_runs_add_up(stats, commands, num_extensions, field);
    law_runs_add_up(stats, reordered, num_extensions, field);
}

/// How many commands of a run have a property.
pub open spec fn number_of(commands: Seq<StatCommand>, property: spec_fn(StatCommand) -> bool) -> nat
    decreases commands.len(),
{
    if commands.len() == 0 {
        0
    } else if property(commands[0]) {
        1 + number_of(commands.drop_first(), property)
    } else {
        number_of(commands.drop_first(), property)
    }
}

/// By how much a command updates a field, if it is a batch update of that field.
pub open spec fn batch_value(command: StatCommand, updated: StatField) -> nat {
    match command {
        StatCommand::UpdateUsizeField(field, value) => if field == updated {
            value as nat
        } else {
            0
        },
        _ => 0,
    }
}

/// By how much the batch updates of a field in a run update it in all.
pub open spec fn batched(commands: Seq<StatCommand>, updated: StatField) -> nat
    decreases commands.len(),
{
    if commands.len() == 0 {
        0
    } else {
        batch_value(commands[0], updated) + batched(commands.drop_first(), updated)
    }
}

/// A request that is neither an error nor a response.
pub open spec fn plain_requests() -> spec_fn(StatCommand) -> bool {
    |command: StatCommand| command == StatCommand::AddRequest
}

/// An error of any kind.
pub open spec fn any_error() -> spec_fn(StatCommand) -> bool {
    |command: StatCommand| command matches StatCommand::AddError(_)
}

/// An error of the given kind.
pub open spec fn errors_of(kind: StatError) -> spec_fn(StatCommand) -> bool {
    |command: StatCommand| command == StatCommand::AddError(kind)
}

/// A response with a status code from `lowest` to `highest`.
pub open spec fn responses(lowest: u16, highest: u16) -> spec_fn(StatCommand) -> bool {
    |command: StatCommand|
        command matches StatCommand::AddStatus(status) && lowest <= status@ <= highest
}

/// Whether the status code in a command, if there is one, has three digits.
pub open spec fn has_status_code(command: StatCommand) -> bool {
    command matches StatCommand::AddStatus(status) ==> 100 <= status@ <= 999
}

/// Whether every status code in a run has three digits, as every `StatusCode` has.
pub open spec fn has_status_codes(commands: Seq<StatCommand>) -> bool {
    forall|i: int| 0 <= i < commands.len() ==> has_status_code(#[trigger] commands[i])
}

spec fn also_batch(command: StatCommand, also: Option<StatField>) -> nat {
    match also {
        Some(field) => batch_value(command, field),
        None => 0,
    }
}

spec fn also_batched(commands: Seq<StatCommand>, also: Option<StatField>) -> nat {
    match also {
        Some(field) => batched(commands, field),
        None => 0,
    }
}

/// No command at all.
spec fn none() -> spec_fn(StatCommand) -> bool {
    |command: StatCommand| false
}

proof fn lemma_number_of_none(commands: Seq<StatCommand>)
    ensures
        number_of(commands, none()) == 0,
    decreases commands.len(),
{
    if commands.len() > 0 {
        lemma_number_of_none(commands.drop_first());
    }
}

/// If each command adds one to a counter for each of three properties that it has, and what it
/// updates in a batch, a run adds the number of commands with these properties and the batches.
proof fn lemma_events_of(
    commands: Seq<StatCommand>,
    expected_per_scan: nat,
    num_extensions: nat,
    field: StatField,
    also: Option<StatField>,
    a: spec_fn(StatCommand) -> bool,
    b: spec_fn(StatCommand) -> bool,
    c: spec_fn(StatCommand) -> bool,
)
    requires
        has_status_codes(commands),
        forall|command: StatCommand|
            has_status_code(command) ==> #[trigger] command_tally(
                command,
                expected_per_scan,
                num_extensions,
            )(field) == one_if(a(command)) + one_if(b(command)) + one_if(c(command)) + batch_value(
                command,
                field,
            ) + also_batch(command, also),
    ensures
        total_added(commands, expected_per_scan, num_extensions, field) == number_of(commands, a)
            + number_of(commands, b) + number_of(commands, c) + batched(commands, field) + also_batched(
            commands,
            also,
        ),
    decreases commands.len(),
{
    if commands.len() > 0 {
        let rest = commands.drop_first();
        assert(has_status_codes(rest)) by {
            assert forall|i: int| 0 <= i < rest.len() implies has_status_code(
                #[trigger] rest[i],
            ) by {
                assert(rest[i] == commands[i + 1]);
            }
        }
        assert(has_status_code(commands[0]));
        lemma_events_of(rest, expected_per_scan, num_extensions, field, also, a, b, c);
    }
}

/// After a run of commands every counter shows what it showed before plus the number of events
/// that it is there to count and plus the batch updates of its field: `successes` the responses
/// from 200 to 299, `status_403s` the errors and responses that are a 403, and so on.
#[verifier::spinoff_prover]
#[verifier::rlimit(40)]
pub proof fn law_counters_count_events(
    stats: StatsView,
    commands: Seq<StatCommand>,
    num_extensions: nat,
)
    requires
        stats.valid(),
        has_no_exit(commands),
        has_status_codes(commands),
    ensures
        ({
            let before = stats.counters;
            let after = stats.after_all(commands, num_extensions).counters;
            &&& after[StatField::Timeouts] == wrapped(
                before[StatField::Timeouts] + number_of(commands, errors_of(StatError::Timeout)) + batched(commands, StatField::Timeouts),
            )
            &&& after[StatField::Requests] == wrapped(
                before[StatField::Requests] + number_of(commands, plain_requests()) + number_of(commands, any_error()) + number_of(commands, responses(100, 999)) + batched(commands, StatField::Requests),
            )
            &&& after[StatField::ExpectedPerScan] == wrapped(
                before[StatField::ExpectedPerScan] + batched(commands, StatField::ExpectedPerScan),
            )
            &&& after[StatField::Errors] == wrapped(
                before[StatField::Errors] + number_of(commands, any_error()) + number_of(commands, responses(400, 599)) + batched(commands, StatField::Errors),
            )
            &&& after[StatField::Successes] == wrapped(
                before[StatField::Successes] + number_of(commands, responses(200, 299)) + batched(commands, StatField::Successes),
            )
            &&& after[StatField::Redirects] == wrapped(
                before[StatField::Redirects] + number_of(commands, responses(300, 399)) + batched(commands, StatField::Redirects),
            )
            &&& after[StatField::ClientErrors] == wrapped(
                before[StatField::ClientErrors] + number_of(commands, errors_of(StatError::Status403)) + number_of(commands, responses(400, 499)) + batched(commands, StatField::ClientErrors),
            )
            &&& after[StatField::ServerErrors] == wrapped(
                before[StatField::ServerErrors] + number_of(commands, responses(500, 599)) + batched(commands, StatField::ServerErrors),
            )
            &&& after[StatField::TotalScans] == wrapped(
                before[StatField::TotalScans] + batched(commands, StatField::TotalScans),
            )
            &&& after[StatField::InitialTargets] == wrapped(
                before[StatField::InitialTargets] + batched(commands, StatField::InitialTargets),
            )
            &&& after[StatField::LinksExtracted] == wrapped(
                before[StatField::LinksExtracted] + batched(commands, StatField::LinksExtracted),
            )
            &&& after[StatField::Status403s] == wrapped(
                before[StatField::Status403s] + number_of(commands, errors_of(StatError::Status403)) + number_of(commands, responses(403, 403)) + batched(commands, StatField::Status403s),
            )
            &&& after[StatField::Status200s] == wrapped(
                before[StatField::Status200s] + number_of(commands, responses(200, 200)) + batched(commands, StatField::Status200s),
            )
            &&& after[StatField::Status301s] == wrapped(
                before[StatField::Status301s] + number_of(commands, responses(301, 301)) + batched(commands, StatField::Status301s),
            )
            &&& after[StatField::Status302s] == wrapped(
                before[StatField::Status302s] + number_of(commands, responses(302, 302)) + batched(commands, StatField::Status302s),
            )
            &&& after[StatField::Status401s] == wrapped(
                before[StatField::Status401s] + number_of(commands, responses(401, 401)) + batched(commands, StatField::Status401s),
            )
            &&& after[StatField::Status429s] == wrapped(
                before[StatField::Status429s] + number_of(commands, responses(429, 429)) + batched(commands, StatField::Status429s),
            )
            &&& after[StatField::Status500s] == wrapped(
                before[StatField::Status500s] + number_of(commands, responses(500, 500)) + batched(commands, StatField::Status500s),
            )
            &&& after[StatField::Status503s] == wrapped(
                before[StatField::Status503s] + number_of(commands, responses(503, 503)) + batched(commands, StatField::Status503s),
            )
            &&& after[StatField::Status504s] == wrapped(
                before[StatField::Status504s] + number_of(commands, responses(504, 504)) + batched(commands, StatField::Status504s),
            )
            &&& after[StatField::Status508s] == wrapped(
                before[StatField::Status508s] + number_of(commands, responses(508, 508)) + batched(commands, StatField::Status508s),
            )
            &&& after[StatField::WildcardsFiltered] == wrapped(
                before[StatField::WildcardsFiltered] + batched(commands, StatField::WildcardsFiltered),
            )
            &&& after[StatField::ResponsesFiltered] == wrapped(
                before[StatField::ResponsesFiltered] + batched(commands, StatField::ResponsesFiltered) + batched(commands, StatField::WildcardsFiltered),
            )
            &&& after[StatField::ResourcesDiscovered] == wrapped(
                before[StatField::ResourcesDiscovered] + batched(commands, StatField::ResourcesDiscovered),
            )
            &&& after[StatField::UrlFormatErrors] == wrapped(
                before[StatField::UrlFormatErrors] + number_of(commands, errors_of(StatError::UrlFormat)) + batched(commands, StatField::UrlFormatErrors),
            )
            &&& after[StatField::RedirectionErrors] == wrapped(
                before[StatField::RedirectionErrors] + number_of(commands, errors_of(StatError::Redirection)) + batched(commands, StatField::RedirectionErrors),
            )
            &&& after[StatField::ConnectionErrors] == wrapped(
                before[StatField::ConnectionErrors] + number_of(commands, errors_of(StatError::Connection)) + batched(commands, StatField::ConnectionErrors),
            )
            &&& after[StatField::RequestErrors] == wrapped(
                before[StatField::RequestErrors] + number_of(commands, errors_of(StatError::Request)) + batched(commands, StatField::RequestErrors),
            )
        }),
{
    let expected = stats.counters[StatField::ExpectedPerScan];
    lemma_number_of_none(commands);
    lemma_events_of(
        commands,
        expected,
        num_extensions,
        StatField::Timeouts,
        None,
        errors_of(StatError::Timeout),
        none(),
        none(),
    );
    law_runs_add_up(stats, commands, num_extensions, StatField::Timeouts);
    lemma_events_of(
        commands,
        expected,
        num_extensions,
        StatField::Requests,
        None,
        plain_requests(),
        any_error(),
        responses(100, 999),
    );
    law_runs_add_up(stats, commands, num_extensions, StatField::Requests);
    lemma_events_of(
        commands,
        expected,
        num_extensions,
        StatField::ExpectedPerScan,
        None,
        none(),
        none(),
        none(),
    );
    law_runs_add_up(stats, commands, num_extensions, StatField::ExpectedPerScan);
    lemma_events_of(
        commands,
        expected,
        num_extensions,
        StatField::Errors,
        None,
        any_error(),
        responses(400, 599),
        none(),
    );
    law_runs_add_up(stats, commands, num_extensions, StatField::Errors);
    lemma_events_of(
        commands,
        expected,
        num_extensions,
        StatField::Successes,
        None,
        responses(200, 299),
        none(),
        none(),
    );
    law_runs_add_up(stats, commands, num_extensions, StatField::Successes);
    lemma_events_of(
        commands,
        expected,
        num_extensions,
        StatField::Redirects,
        None,
        responses(300, 399),
        none(),
        none(),
    );
    law_runs_add_up(stats, commands, num_extensions, StatField::Redirects);
    lemma_events_of(
        commands,
        expected,
        num_extensions,
        StatField::ClientErrors,
        None,
        errors_of(StatError::Status403),
        responses(400, 499),
        none(),
    );
    law_runs_add_up(stats, commands, num_extensions, StatField::ClientErrors);
    lemma_events_of(
        commands,
        expected,
        num_extensions,
        StatField::ServerErrors,
        None,
        responses(500, 599),
        none(),
        none(),
    );
    law_runs_add_up(stats, commands, num_extensions, StatField::ServerErrors);
    lemma_events_of(
        commands,
        expected,
        num_extensions,
        StatField::TotalScans,
        None,
        none(),
        none(),
        none(),
    );
    law_runs_add_up(stats, commands, num_extensions, StatField::TotalScans);
    lemma_events_of(
        commands,
        expected,
        num_extensions,
        StatField::InitialTargets,
        None,
        none(),
        none(),
        none(),
    );
    law_runs_add_up(stats, commands, num_extensions, StatField::InitialTargets);
    lemma_events_of(
        commands,
        expected,
        num_extensions,
        StatField::LinksExtracted,
        None,
        none(),
        none(),
        none(),
    );
    law_runs_add_up(stats, commands, num_extensions, StatField::LinksExtracted);
    lemma_events_of(
        commands,
        expected,
        num_extensions,
        StatField::Status403s,
        None,
        errors_of(StatError::Status403),
        responses(403, 403),
        none(),
    );
    law_runs_add_up(stats, commands, num_extensions, StatField::Status403s);
    lemma_events_of(
        commands,
        expected,
        num_extensions,
        StatField::Status200s,
        None,
        responses(200, 200),
        none(),
        none(),
    );
    law_runs_add_up(stats, commands, num_extensions, StatField::Status200s);
    lemma_events_of(
        commands,
        expected,
        num_extensions,
        StatField::Status301s,
        None,
        responses(301, 301),
        none(),
        none(),
    );
    law_runs_add_up(stats, commands, num_extensions, StatField::Status301s);
    lemma_events_of(
        commands,
        expected,
        num_extensions,
        StatField::Status302s,
        None,
        responses(302, 302),
        none(),
        none(),
    );
    law_runs_add_up(stats, commands, num_extensions, StatField::Status302s);
    lemma_events_of(
        commands,
        expected,
        num_extensions,
        StatField::Status401s,
        None,
        responses(401, 401),
        none(),
        none(),
    );
    law_runs_add_up(stats, commands, num_extensions, StatField::Status401s);
    lemma_events_of(
        commands,
        expected,
        num_extensions,
        StatField::Status429s,
        None,
        responses(429, 429),
        none(),
        none(),
    );
    law_runs_add_up(stats, commands, num_extensions, StatField::Status429s);
    lemma_events_of(
        commands,
        expected,
        num_extensions,
        StatField::Status500s,
        None,
        responses(500, 500),
        none(),
        none(),
    );
    law_runs_add_up(stats, commands, num_extensions, StatField::Status500s);
    lemma_events_of(
        commands,
        expected,
        num_extensions,
        StatField::Status503s,
        None,
        responses(503, 503),
        none(),
        none(),
    );
    law_runs_add_up(stats, commands, num_extensions, StatField::Status503s);
    lemma_events_of(
        commands,
        expected,
        num_extensions,
        StatField::Status504s,
        None,
        responses(504, 504),
        none(),
        none(),
    );
    law_runs_add_up(stats, commands, num_extensions, StatField::Status504s);
    lemma_events_of(
        commands,
        expected,
        num_extensions,
        StatField::Status508s,
        None,
        responses(508, 508),
        none(),
        none(),
    );
    law_runs_add_up(stats, commands, num_extensions, StatField::Status508s);
    lemma_events_of(
        commands,
        expected,
        num_extensions,
        StatField::WildcardsFiltered,
        None,
        none(),
        none(),
        none(),
    );
    law_runs_add_up(stats, commands, num_extensions, StatField::WildcardsFiltered);
    lemma_events_of(
        commands,
        expected,
        num_extensions,
        StatField::ResponsesFiltered,
        Some(StatField::WildcardsFiltered),
        none(),
        none(),
        none(),
    );
    law_runs_add_up(stats, commands, num_extensions, StatField::ResponsesFiltered);
    lemma_events_of(
        commands,
        expected,
        num_extensions,
        StatField::ResourcesDiscovered,
        None,
        none(),
        none(),
        none(),
    );
    law_runs_add_up(stats, commands, num_extensions, StatField::ResourcesDiscovered);
    lemma_events_of(
        commands,
        expected,
        num_extensions,
        StatField::UrlFormatErrors,
        None,
        errors_of(StatError::UrlFormat),
        none(),
        none(),
    );
    law_runs_add_up(stats, commands, num_extensions, StatField::UrlFormatErrors);
    lemma_events_of(
        commands,
        expected,
        num_extensions,
        StatField::RedirectionErrors,
        None,
        errors_of(StatError::Redirection),
        none(),
        none(),
    );
    law_runs_add_up(stats, commands, num_extensions, StatField::RedirectionErrors);
    lemma_events_of(
        commands,
        expected,
        num_extensions,
        StatField::ConnectionErrors,
        None,
        errors_of(StatError::Connection),
        none(),
        none(),
    );
    law_runs_add_up(stats, commands, num_extensions, StatField::ConnectionErrors);
    lemma_events_of(
        commands,
        expected,
        num_extensions,
        StatField::RequestErrors,
        None,
        errors_of(StatError::Request),
        none(),
        none(),
    );
    law_runs_add_up(stats, commands, num_extensions, StatField::RequestErrors);
}

proof fn lemma_expectation(commands: Seq<StatCommand>, expected_per_scan: nat, num_extensions: nat)
    ensures
        num_extensions == 0 ==> total_added(
            commands,
            expected_per_scan,
            num_extensions,
            StatField::TotalExpected,
        ) == batched(commands, StatField::TotalExpected) + batched(commands, StatField::TotalScans)
            * expected_per_scan,
        num_extensions > 0 ==> total_added(
            commands,
            expected_per_scan,
            num_extensions,
            StatField::TotalExpected,
        ) == batched(commands, StatField::TotalExpected) + batched(commands, StatField::TotalScans)
            * expected_per_scan * num_extensions,
    decreases commands.len(),
{
    if commands.len() > 0 {
        let rest = commands.drop_first();
        lemma_expectation(rest, expected_per_scan, num_extensions);
        let first = batch_value(commands[0], StatField::TotalScans);
        let more = batched(rest, StatField::TotalScans);
        let scans = batched(commands, StatField::TotalScans);
        assert(scans == first + more);
        assert(scans * expected_per_scan == first * expected_per_scan + more * expected_per_scan
            && scans * expected_per_scan * num_extensions == first * expected_per_scan
            * num_extensions + more * expected_per_scan * num_extensions) by (nonlinear_arith)
            requires
                scans == first + more,
        ;
        assert(first == 0 ==> first * expected_per_scan == 0 && first * expected_per_scan
            * num_extensions == 0) by (nonlinear_arith);
        let added = command_tally(commands[0], expected_per_scan, num_extensions)(
            StatField::TotalExpected,
        );
        let direct = batch_value(commands[0], StatField::TotalExpected);
        assert(num_extensions == 0 ==> added == direct + first * expected_per_scan);
        assert(num_extensions > 0 ==> added == direct + first * expected_per_scan * num_extensions);
    } else {
        assert(0 * expected_per_scan == 0 && 0 * expected_per_scan * num_extensions == 0)
            by (nonlinear_arith);
    }
}

/// Over a run that does not change the expectation per scan, the total expectation grows by its
/// own batch updates and by the number of new scans times what is expected of one scan, times the
/// number of extensions if there are any.
pub proof fn law_expectation_grows_with_scans(
    stats: StatsView,
    commands: Seq<StatCommand>,
    num_extensions: nat,
)
    requires
        stats.valid(),
        has_no_exit(commands),
        keeps_expectation(commands),
    ensures
        ({
            let before = stats.counters;
            let after = stats.after_all(commands, num_extensions).counters;
            let scans = batched(commands, StatField::TotalScans);
            let direct = batched(commands, StatField::TotalExpected);
            &&& num_extensions == 0 ==> after[StatField::TotalExpected] == wrapped(
                before[StatField::TotalExpected] + (direct + scans
                    * before[StatField::ExpectedPerScan]),
            )
            &&& num_extensions > 0 ==> after[StatField::TotalExpected] == wrapped(
                before[StatField::TotalExpected] + (direct + scans
                    * before[StatField::ExpectedPerScan] * num_extensions),
            )
        }),
{
    lemma_expectation(commands, stats.counters[StatField::ExpectedPerScan], num_extensions);
    law_runs_add_up(stats, commands, num_extensions, StatField::TotalExpected);
}

/// Whether a command stands for one request.
pub open spec fn is_request(command: StatCommand) -> bool {
    command is AddRequest || command is AddError || command is AddStatus
}

/// Each request, each error and each response counts as one request.
pub proof fn law_requests_are_counted(
    stats: StatsView,
    commands: Seq<StatCommand>,
    num_extensions: nat,
)
    requires
        stats.valid(),
        forall|i: int| 0 <= i < commands.len() ==> is_request(#[trigger] commands[i]),
    ensures
        stats.after_all(commands, num_extensions).counters[StatField::Requests] == wrapped(
            stats.counters[StatField::Requests] + commands.len(),
        ),
    decreases commands.len(),
{
    if commands.len() > 0 {
        let next = stats.after(commands[0], num_extensions);
        let rest = commands.drop_first();
        assert(is_request(commands[0]));
        law_command_adds_its_tally(stats, commands[0], num_extensions);
        assert forall|i: int| 0 <= i < rest.len() implies is_request(#[trigger] rest[i]) by {
            assert(rest[i] == commands[i + 1]);
        }
        law_requests_are_counted(next, rest, num_extensions);
        lemma_wrapped_twice(stats.counters[StatField::Requests] + 1, rest.len());
    }
}

/// A request added by itself is a batch of one request.
pub proof fn law_request_is_a_batch_of_one(stats: StatsView, num_extensions: nat)
    ensures
        stats.after(StatCommand::AddRequest, num_extensions) == stats.after(
            StatCommand::UpdateUsizeField(StatField::Requests, 1),
            num_extensions,
        ),
{
    let one = stats.after(StatCommand::AddRequest, num_extensions);
    let batch = stats.after(StatCommand::UpdateUsizeField(StatField::Requests, 1), num_extensions);
    assert(one.counters =~= batch.counters);
}

/// A new scan raises the total expectation by what is expected of one scan, once for each
/// extension, and the progress bar is set to the raised expectation.
pub proof fn law_new_scan_raises_expectation(stats: StatsView, num_extensions: nat)
    requires
        stats.valid(),
    ensures
        ({
            let command = StatCommand::UpdateUsizeField(StatField::TotalScans, 1);
            let after = stats.after(command, num_extensions);
            &&& after.counters[StatField::TotalScans] == wrapped(
                stats.counters[StatField::TotalScans] + 1,
            )
            &&& after.counters[StatField::TotalExpected] == wrapped(
                stats.counters[StatField::TotalExpected] + stats.counters[StatField::ExpectedPerScan]
                    * (if num_extensions == 0 {
                    1
                } else {
                    num_extensions
                }),
            )
            &&& after.effect(command) == Effect::SetBarLength(
                after.counters[StatField::TotalExpected] as u64,
            )
        }),
{
    let command = StatCommand::UpdateUsizeField(StatField::TotalScans, 1);
    law_command_adds_its_tally(stats, command, num_extensions);
    assert(scan_requests(1, stats.counters[StatField::ExpectedPerScan], num_extensions)
        == stats.counters[StatField::ExpectedPerScan] * extension_multiplier(num_extensions));
}

/// Two batch updates of a field do the same as one by the sum of the two.
pub proof fn law_batches_merge(
    stats: StatsView,
    field: StatField,
    a: usize,
    b: usize,
    num_extensions: nat,
)
    requires
        stats.valid(),
        a + b <= usize::MAX,
    ensures
        stats.after(StatCommand::UpdateUsizeField(field, a), num_extensions).after(
            StatCommand::UpdateUsizeField(field, b),
            num_extensions,
        ) == stats.after(
            StatCommand::UpdateUsizeField(field, (a + b) as usize),
            num_extensions,
        ),
{
    let first = StatCommand::UpdateUsizeField(field, a);
    let second = StatCommand::UpdateUsizeField(field, b);
    let both = StatCommand::UpdateUsizeField(field, (a + b) as usize);
    let between = stats.after(first, num_extensions);
    law_command_adds_its_tally(stats, first, num_extensions);
    law_command_adds_its_tally(stats, both, num_extensions);
    law_command_adds_its_tally(between, second, num_extensions);
    let expected = stats.counters[StatField::ExpectedPerScan];
    assert(scan_requests(a as nat, expected, num_extensions) + scan_requests(
        b as nat,
        expected,
        num_extensions,
    ) == scan_requests((a + b) as nat, expected, num_extensions)) by {
        let multiplier = extension_multiplier(num_extensions);
        assert(a * expected * multiplier + b * expected * multiplier == (a + b) * expected
            * multiplier) by (nonlinear_arith);
    }
    if is_counter(field) {
        assert forall|other: StatField| is_counter(other) implies between.after(
            second,
            num_extensions,
        ).counters[other] == stats.after(both, num_extensions).counters[other] by {
            lemma_wrapped_twice(
                stats.counters[other] + stats.tally(first, num_extensions)(other),
                between.tally(second, num_extensions)(other),
            );
        }
        assert(between.after(second, num_extensions).counters =~= stats.after(
            both,
            num_extensions,
        ).counters);
    }
}

/// A 403 counts the same whether it is reported as an error or as a status code.
pub proof fn law_403_counts_the_same_either_way(
    stats: StatsView,
    status: StatusCode,
    num_extensions: nat,
)
    requires
        status@ == 403,
    ensures
        stats.after(StatCommand::AddError(StatError::Status403), num_extensions) == stats.after(
            StatCommand::AddStatus(status),
            num_extensions,
        ),
{
    let error = stats.after(StatCommand::AddError(StatError::Status403), num_extensions);
    let response = stats.after(StatCommand::AddStatus(status), num_extensions);
    assert(error.counters =~= response.counters);
}

/// Whether a field takes part in the breakdown of requests and errors.
pub open spec fn in_breakdown(field: StatField) -> bool {
    match field {
        StatField::Requests | StatField::Errors | StatField::Timeouts | StatField::Successes
        | StatField::Redirects | StatField::ClientErrors | StatField::ServerErrors
        | StatField::Status403s | StatField::Status200s | StatField::Status301s
        | StatField::Status302s | StatField::Status401s | StatField::Status429s
        | StatField::Status500s | StatField::Status503s | StatField::Status504s
        | StatField::Status508s | StatField::UrlFormatErrors | StatField::RedirectionErrors
        | StatField::ConnectionErrors | StatField::RequestErrors => true,
        _ => false,
    }
}

/// Whether the counters of requests and errors agree with the counters of their kinds.
pub open spec fn breaks_down(stats: StatsView) -> bool {
    let count = stats.counters;
    // each response is a request and has at most one class
    &&& count[StatField::Successes] + count[StatField::Redirects] + count[StatField::ClientErrors]
        + count[StatField::ServerErrors] <= count[StatField::Requests]
    // a code that is counted by itself is counted in its class
    &&& count[StatField::Status200s] <= count[StatField::Successes]
    &&& count[StatField::Status301s] + count[StatField::Status302s] <= count[StatField::Redirects]
    &&& count[StatField::Status401s] + count[StatField::Status403s] + count[StatField::Status429s]
        <= count[StatField::ClientErrors]
    &&& count[StatField::Status500s] + count[StatField::Status503s] + count[StatField::Status504s]
        + count[StatField::Status508s] <= count[StatField::ServerErrors]
    // each error of a kind and each 4xx and 5xx is an error
    &&& count[StatField::Timeouts] + count[StatField::UrlFormatErrors]
        + count[StatField::RedirectionErrors] + count[StatField::ConnectionErrors]
        + count[StatField::RequestErrors] + count[StatField::ClientErrors]
        + count[StatField::ServerErrors] <= count[StatField::Errors]
    // each error is a request
    &&& count[StatField::Errors] <= count[StatField::Requests]
}

/// Whether a command is no batch update of a counter in the breakdown.
pub open spec fn is_single(command: StatCommand) -> bool {
    command matches StatCommand::UpdateUsizeField(field, _) ==> !in_breakdown(field)
}

proof fn lemma_breakdown_step(stats: StatsView, command: StatCommand, num_extensions: nat)
    requires
        stats.valid(),
        breaks_down(stats),
        is_single(command),
        stats.counters[StatField::Requests] + 1 <= usize::MAX,
    ensures
        breaks_down(stats.after(command, num_extensions)),
        stats.after(command, num_extensions).counters[StatField::Requests]
            <= stats.counters[StatField::Requests] + 1,
{
    let after = stats.after(command, num_extensions);
    law_command_adds_its_tally(stats, command, num_extensions);
    assert forall|field: StatField| in_breakdown(field) implies after.counters[field]
        == stats.counters[field] + stats.tally(command, num_extensions)(field) by {
        assert(stats.counters[field] <= stats.counters[StatField::Requests]);
    }
}

/// While a scan reports its requests, errors and responses one at a time and fewer than the
/// counters can hold, the counters of requests and errors agree with those of their kinds.
pub proof fn law_counts_break_down(
    stats: StatsView,
    commands: Seq<StatCommand>,
    num_extensions: nat,
)
    requires
        stats.valid(),
        breaks_down(stats),
        forall|i: int| 0 <= i < commands.len() ==> is_single(#[trigger] commands[i]),
        stats.counters[StatField::Requests] + commands.len() <= usize::MAX,
    ensures
        breaks_down(stats.after_all(commands, num_extensions)),
    decreases commands.len(),
{
    if commands.len() > 0 && !(commands[0] is Exit) {
        let rest = commands.drop_first();
        assert(is_single(commands[0]));
        law_command_adds_its_tally(stats, commands[0], num_extensions);
        lemma_breakdown_step(stats, commands[0], num_extensions);
        assert forall|i: int| 0 <= i < rest.len() implies is_single(#[trigger] rest[i]) by {
            assert(rest[i] == commands[i + 1]);
        }
        law_counts_break_down(stats.after(commands[0], num_extensions), rest, num_extensions);
    }
}

/// The statistics that a scan starts with break down.
pub proof fn law_fresh_statistics_break_down()
    ensures
        StatsView::fresh().valid(),
        breaks_down(StatsView::fresh()),
{
}

/// A command leaves the filtered wildcards no more than the filtered responses, as long as the
/// latter do not wrap around.
pub proof fn law_command_keeps_wildcards_among_responses(
    stats: StatsView,
    command: StatCommand,
    num_extensions: nat,
)
    requires
        stats.valid(),
        stats.counters[StatField::WildcardsFiltered]
            <= stats.counters[StatField::ResponsesFiltered],
        stats.counters[StatField::ResponsesFiltered] + stats.tally(command, num_extensions)(
            StatField::ResponsesFiltered,
        ) <= usize::MAX,
    ensures
        stats.after(command, num_extensions).counters[StatField::WildcardsFiltered]
            <= stats.after(command, num_extensions).counters[StatField::ResponsesFiltered],
{
    law_command_adds_its_tally(stats, command, num_extensions);
}

/// Filtered wildcards are never more than filtered responses, as long as the latter do not
/// wrap around. So this holds of all statistics that a scan reaches from those it starts with.
pub proof fn law_wildcards_are_filtered_responses(
    stats: StatsView,
    commands: Seq<StatCommand>,
    num_extensions: nat,
)
    requires
        stats.valid(),
        stats.counters[StatField::WildcardsFiltered]
            <= stats.counters[StatField::ResponsesFiltered],
        stats.counters[StatField::ResponsesFiltered] + total_added(
            commands,
            stats.counters[StatField::ExpectedPerScan],
            num_extensions,
            StatField::ResponsesFiltered,
        ) <= usize::MAX,
    ensures
        stats.after_all(commands, num_extensions).counters[StatField::WildcardsFiltered]
            <= stats.after_all(commands, num_extensions).counters[StatField::ResponsesFiltered],
    decreases commands.len(),
{
    if commands.len() > 0 && !(commands[0] is Exit) {
        let next = stats.after(commands[0], num_extensions);
        let rest = commands.drop_first();
        law_command_adds_its_tally(stats, commands[0], num_extensions);
        law_command_keeps_wildcards_among_responses(stats, commands[0], num_extensions);
        lemma_total_added_elsewhere(
            rest,
            stats.counters[StatField::ExpectedPerScan],
            next.counters[StatField::ExpectedPerScan],
            num_extensions,
            StatField::ResponsesFiltered,
        );
        law_wildcards_are_filtered_responses(next, rest, num_extensions);
    }
}

/// The scan times that a run of commands reports, in the order of the commands.
pub open spec fn reported_times(commands: Seq<StatCommand>) -> Seq<Seconds>
    decreases commands.len(),
{
    if commands.len() == 0 {
        Seq::empty()
    } else {
        let rest = reported_times(commands.drop_first());
        match commands[0] {
            StatCommand::UpdateF64Field(StatField::DirScanTimes, time) => seq![time] + rest,
            _ => rest,
        }
    }
}

/// The scan times are kept in the order in which they were reported.
pub proof fn law_scan_times_stay_in_order(
    stats: StatsView,
    commands: Seq<StatCommand>,
    num_extensions: nat,
)
    requires
        has_no_exit(commands),
    ensures
        stats.after_all(commands, num_extensions).directory_scan_times
            == stats.directory_scan_times + reported_times(commands),
    decreases commands.len(),
{
    if commands.len() > 0 {
        lemma_drop_first_keeps(commands);
        law_scan_times_stay_in_order(
            stats.after(commands[0], num_extensions),
            commands.drop_first(),
            num_extensions,
        );
    }
    assert(stats.after_all(commands, num_extensions).directory_scan_times
        =~= stats.directory_scan_times + reported_times(commands));
}

/// What taking up saved statistics adds to a counter: the saved number, if it is one of those
/// taken up.
pub open spec fn taken_up(saved: StatsView, field: StatField) -> nat {
    if early_fields().contains(field) || late_fields().contains(field) {
        saved.counters[field]
    } else {
        0
    }
}

proof fn lemma_total_added_concat(
    first: Seq<StatCommand>,
    second: Seq<StatCommand>,
    expected_per_scan: nat,
    num_extensions: nat,
    field: StatField,
)
    ensures
        total_added(first + second, expected_per_scan, num_extensions, field) == total_added(
            first,
            expected_per_scan,
            num_extensions,
            field,
        ) + total_added(second, expected_per_scan, num_extensions, field),
    decreases first.len(),
{
    if first.len() > 0 {
        assert((first + second).drop_first() =~= first.drop_first() + second);
        lemma_total_added_concat(
            first.drop_first(),
            second,
            expected_per_scan,
            num_extensions,
            field,
        );
    } else {
        assert(first + second =~= second);
    }
}

proof fn lemma_reported_times_concat(first: Seq<StatCommand>, second: Seq<StatCommand>)
    ensures
        reported_times(first + second) == reported_times(first) + reported_times(second),
    decreases first.len(),
{
    if first.len() > 0 {
        assert((first + second).drop_first() =~= first.drop_first() + second);
        lemma_reported_times_concat(first.drop_first(), second);
    } else {
        assert(first + second =~= second);
    }
    assert(reported_times(first + second) =~= reported_times(first) + reported_times(second));
}

/// What commands for distinct counters, without those of scans, add to one of them.
proof fn lemma_counter_commands_add(
    saved: StatsView,
    fields: Seq<StatField>,
    expected_per_scan: nat,
    num_extensions: nat,
    field: StatField,
)
    requires
        saved.valid(),
        is_counter(field),
        fields.no_duplicates(),
        forall|i: int|
            0 <= i < fields.len() ==> is_counter(#[trigger] fields[i]) && !(fields[i] is TotalScans),
    ensures
        total_added(
            counter_commands(saved, fields),
            expected_per_scan,
            num_extensions,
            field,
        ) == (if fields.contains(field) {
            update_amount(saved, field)
        } else {
            0
        }) + (if field is ResponsesFiltered && fields.contains(StatField::WildcardsFiltered) {
            saved.counters[StatField::WildcardsFiltered]
        } else {
            0
        }),
        reported_times(counter_commands(saved, fields)) == Seq::<Seconds>::empty(),
    decreases fields.len(),
{
    let commands = counter_commands(saved, fields);
    if fields.len() > 0 {
        let rest = fields.drop_first();
        assert(commands.drop_first() =~= counter_commands(saved, rest));
        lemma_counter_commands_add(saved, rest, expected_per_scan, num_extensions, field);
        assert forall|other: StatField| #[trigger]
            fields.contains(other) <==> other == fields[0] || rest.contains(other) by {
            if fields.contains(other) && other != fields[0] {
                let i = fields.index_of(other);
                assert(rest[i - 1] == other);
            }
            if rest.contains(other) {
                let i = rest.index_of(other);
                assert(fields[i + 1] == other);
            }
            assert(fields.contains(fields[0]));
        }
        assert(!rest.contains(fields[0])) by {
            if rest.contains(fields[0]) {
                let i = rest.index_of(fields[0]);
                assert(fields[i + 1] == fields[0]);
            }
        }
    }
}

proof fn lemma_time_commands_add(
    times: Seq<Seconds>,
    expected_per_scan: nat,
    num_extensions: nat,
    field: StatField,
)
    ensures
        total_added(time_commands(times), expected_per_scan, num_extensions, field) == 0,
        reported_times(time_commands(times)) == times,
    decreases times.len(),
{
    if times.len() > 0 {
        assert(time_commands(times).drop_first() =~= time_commands(times.drop_first()));
        lemma_time_commands_add(
            times.drop_first(),
            expected_per_scan,
            num_extensions,
            field,
        );
        assert(seq![times[0]] + times.drop_first() =~= times);
    } else {
        assert(times =~= Seq::<Seconds>::empty());
    }
}

/// The commands for saved statistics report the saved scan times.
pub(crate) proof fn lemma_update_commands_report(saved: StatsView)
    requires
        saved.valid(),
    ensures
        reported_times(update_commands(saved)) == saved.directory_scan_times,
{
    let early = counter_commands(saved, early_fields());
    let times = time_commands(saved.directory_scan_times);
    let late = counter_commands(saved, late_fields());
    lemma_reported_times_concat(early + times, late);
    lemma_reported_times_concat(early, times);
    lemma_counter_commands_add(saved, early_fields(), 0, 0, StatField::Requests);
    lemma_counter_commands_add(saved, late_fields(), 0, 0, StatField::Requests);
    lemma_time_commands_add(saved.directory_scan_times, 0, 0, StatField::Requests);
    assert(reported_times(update_commands(saved)) =~= saved.directory_scan_times);
}

/// Taking up saved statistics adds each saved counter that is taken up to its counter, appends
/// the saved scan times in their order, and changes nothing else: the number of scans, of
/// initial targets and of expected requests, the kind and the runtime stay what they are.
pub proof fn law_update_adds_saved_statistics(
    saved: StatsView,
    stats: StatsView,
    num_extensions: nat,
)
    requires
        saved.valid(),
        stats.valid(),
    ensures
        ({
            let after = stats.after_all(update_commands(saved), num_extensions);
            &&& forall|field: StatField|
                is_counter(field) ==> #[trigger] after.counters[field] == wrapped(
                    stats.counters[field] + taken_up(saved, field),
                )
            &&& after.directory_scan_times == stats.directory_scan_times
                + saved.directory_scan_times
            &&& after.kind == stats.kind
            &&& after.total_runtime == stats.total_runtime
        }),
{
    let early = counter_commands(saved, early_fields());
    let times = time_commands(saved.directory_scan_times);
    let late = counter_commands(saved, late_fields());
    let commands = update_commands(saved);
    let expected = stats.counters[StatField::ExpectedPerScan];
    let after = stats.after_all(commands, num_extensions);
    assert(has_no_exit(commands));
    assert(keeps_expectation(commands));
    law_kind_and_runtime_are_kept(stats, commands, num_extensions);
    law_scan_times_stay_in_order(stats, commands, num_extensions);
    lemma_update_commands_report(saved);
    assert(after.directory_scan_times =~= stats.directory_scan_times + saved.directory_scan_times);
    assert(early_fields()[18] is WildcardsFiltered);
    assert(early_fields()[19] is ResponsesFiltered);
    assert forall|field: StatField| is_counter(field) implies #[trigger] after.counters[field]
        == wrapped(stats.counters[field] + taken_up(saved, field)) by {
        law_runs_add_up(stats, commands, num_extensions, field);
        lemma_total_added_concat(early + times, late, expected, num_extensions, field);
        lemma_total_added_concat(early, times, expected, num_extensions, field);
        lemma_counter_commands_add(saved, early_fields(), expected, num_extensions, field);
        lemma_counter_commands_add(saved, late_fields(), expected, num_extensions, field);
        lemma_time_commands_add(saved.directory_scan_times, expected, num_extensions, field);
        if field is ResponsesFiltered {
            lemma_wrapped_turn(stats.counters[field] + saved.counters[field]);
        }
    }
}

/// A resumed scan starts with the saved scan times, and with the saved number in each counter
/// that is taken up.
pub proof fn law_resumed_scan_has_saved_counts(
    saved: StatsView,
    num_extensions: nat,
    field: StatField,
)
    requires
        saved.valid(),
        early_fields().contains(field) || late_fields().contains(field),
    ensures
        ({
            let resumed = StatsView::fresh().after_all(update_commands(saved), num_extensions);
            &&& resumed.counters[field] == saved.counters[field]
            &&& resumed.directory_scan_times == saved.directory_scan_times
        }),
{
    let resumed = StatsView::fresh().after_all(update_commands(saved), num_extensions);
    law_update_adds_saved_statistics(saved, StatsView::fresh(), num_extensions);
    assert(is_counter(field));
    assert(resumed.directory_scan_times =~= saved.directory_scan_times);
}

} // verus!
