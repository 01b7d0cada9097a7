//! The statistics handler: what each command does to the statistics, and what is
//! to be done about the progress bar and the disk.

use crate::command::{StatCommand, StatField};
use crate::message::{is_progress_message, progress_message};
use crate::stats::{error_tally, request_tally, scan_requests, status_tally, usize_tally, Stats, StatsView};
use vstd::prelude::*;

verus! {

/// What a command asks for besides the update of the statistics.
#[derive(Debug, PartialEq, Eq)]
pub enum Effect {
    /// nothing else
    Nothing,
    /// save the statistics to disk
    Save,
    /// load statistics from the named file
    LoadStats(String),
    /// set the length of the progress bar
    SetBarLength(u64),
    /// create a progress bar of the given length
    CreateBar(u64),
}

/// What the handler is to do after a command.
#[derive(Debug, PartialEq, Eq)]
pub enum Reaction {
    /// carry out the effect, show the message, move the progress bar on by one and go on
    Continue {
        /// what the command asks for
        effect: Effect,
        /// what the progress bar is to show
        message: String,
    },
    /// leave the receive loop
    Exit,
}

/// What a command adds to each counter, given the number of requests expected of one scan.
pub open spec fn command_tally(
    command: StatCommand,
    expected_per_scan: nat,
    num_extensions: nat,
) -> spec_fn(StatField) -> nat {
    match command {
        StatCommand::AddRequest => request_tally(),
        StatCommand::AddError(error) => error_tally(error),
        StatCommand::AddStatus(status) => status_tally(status@),
        StatCommand::UpdateUsizeField(field, value) => usize_tally(
            field,
            value as nat,
            expected_per_scan,
            num_extensions,
        ),
        _ => |field: StatField| 0,
    }
}

impl StatsView {
    /// Whether the number of requests that a command adds to the total expectation fits in a `usize`.
    pub open spec fn accepts(self, command: StatCommand, num_extensions: nat) -> bool {
        command matches StatCommand::UpdateUsizeField(StatField::TotalScans, scans)
            ==> scan_requests(
            scans as nat,
            self.counters[StatField::ExpectedPerScan],
            num_extensions,
        ) <= usize::MAX
    }

    /// What a command adds to each counter of these statistics.
    pub open spec fn tally(self, command: StatCommand, num_extensions: nat) -> spec_fn(
        StatField,
    ) -> nat {
        command_tally(command, self.counters[StatField::ExpectedPerScan], num_extensions)
    }

    /// The statistics after a command.
    pub open spec fn after(self, command: StatCommand, num_extensions: nat) -> StatsView {
        match command {
            StatCommand::AddRequest | StatCommand::AddError(_) | StatCommand::AddStatus(_) => self.plus(
                self.tally(command, num_extensions),
            ),
            StatCommand::UpdateUsizeField(field, _) => if field is DirScanTimes {
                self
            } else {
                self.plus(self.tally(command, num_extensions))
            },
            StatCommand::UpdateF64Field(field, time) => if field is DirScanTimes {
                self.with_scan_time(time)
            } else {
                self
            },
            _ => self,
        }
    }

    /// The statistics after the handler has received the given commands: it stops at
    /// the first `Exit`.
    pub open spec fn after_all(self, commands: Seq<StatCommand>, num_extensions: nat) -> StatsView
        decreases commands.len(),
    {
        if commands.len() == 0 || commands[0] is Exit {
            self
        } else {
            self.after(commands[0], num_extensions).after_all(commands.drop_first(), num_extensions)
        }
    }

    /// What a command asks for besides the update, where `self` are the statistics after it.
    pub open spec fn effect(self, command: StatCommand) -> Effect {
        match command {
            StatCommand::Save => Effect::Save,
            StatCommand::LoadStats(filename) => Effect::LoadStats(filename),
            StatCommand::UpdateUsizeField(StatField::TotalScans, _) => Effect::SetBarLength(
                self.counters[StatField::TotalExpected] as u64,
            ),
            StatCommand::CreateBar => Effect::CreateBar(
                self.counters[StatField::TotalExpected] as u64,
            ),
            _ => Effect::Nothing,
        }
    }
}

/// Whether `handle_command` takes a command: not if the number of requests that it would
/// add to the total expectation is too large for a `usize`.
pub fn accepts_command(stats: &Stats, command: &StatCommand, num_extensions: usize) -> (accepted: bool)
    ensures
        accepted == stats@.accepts(*command, num_extensions as nat),
{
    match command {
        StatCommand::UpdateUsizeField(StatField::TotalScans, scans) => stats.expected_of_scans(
            *scans,
            num_extensions,
        ).is_some(),
        _ => true,
    }
}

/// Update the statistics by one command and tell what else is to be done.
pub fn handle_command(stats: &mut Stats, command: StatCommand, num_extensions: usize) -> (reaction:
    Reaction)
    requires
        old(stats)@.accepts(command, num_extensions as nat),
    ensures
        final(stats)@ == old(stats)@.after(command, num_extensions as nat),
        reaction is Exit <==> command is Exit,
        reaction matches Reaction::Continue { effect, message } ==> {
            &&& effect == final(stats)@.effect(command)
            &&& is_progress_message(
                message@,
                final(stats)@.counters[StatField::ResourcesDiscovered],
                final(stats)@.counters[StatField::Errors],
            )
        },
{
    let effect = match command {
        StatCommand::AddError(error) => {
            stats.add_error(error);
            Effect::Nothing
        },
        StatCommand::AddStatus(status) => {
            stats.add_status_code(status);
            Effect::Nothing
        },
        StatCommand::AddRequest => {
            stats.add_request();
            Effect::Nothing
        },
        StatCommand::Save => Effect::Save,
        StatCommand::UpdateUsizeField(field, value) => {
            let update_len = matches!(field, StatField::TotalScans);
            stats.update_usize_field(field, value, num_extensions);
            if update_len {
                Effect::SetBarLength(stats.total_expected as u64)
            } else {
                Effect::Nothing
            }
        },
        StatCommand::UpdateF64Field(field, time) => {
            stats.update_f64_field(field, time);
            Effect::Nothing
        },
        StatCommand::CreateBar => Effect::CreateBar(stats.total_expected as u64),
        StatCommand::LoadStats(filename) => Effect::LoadStats(filename),
        StatCommand::Exit => {
            return Reaction::Exit;
        },
    };
    let message = progress_message(stats.resources_discovered, stats.errors);
    Reaction::Continue { effect, message }
}

} // verus!
