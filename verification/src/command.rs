//! The commands by which the rest of a scan reports to its statistics.

use crate::status::StatusCode;
use vstd::prelude::*;

verus! {

/// A number of seconds as a double-precision value, held by its bit pattern.
///
/// The statistics only store and hand out such values, so nothing here depends
/// on what the bits stand for.
#[derive(Clone, Copy, Debug, PartialEq, Eq, Structural)]
pub struct Seconds {
    /// bit pattern of the value
    pub bits: u64,
}

/// Enum variants used to inform the `StatCommand` protocol what `Stats` fields should be updated
#[derive(Clone, Copy, Debug, PartialEq, Eq, Structural)]
pub enum StatError {
    /// Represents a 403 response code
    Status403,
    /// Represents a timeout error
    Timeout,
    /// Represents a URL formatting error
    UrlFormat,
    /// Represents an error encountered during redirection
    Redirection,
    /// Represents an error encountered during connection
    Connection,
    /// Represents an error resulting from the client's request
    Request,
    /// Represents any other error not explicitly defined above
    Other,
}

/// Enum representing fields whose updates need to be performed in batches instead of one at
/// a time
///
/// Every variant but `DirScanTimes` names one counter of a `Stats`.
#[derive(Clone, Copy, Debug, PartialEq, Eq, Structural)]
pub enum StatField {
    /// Translates to `expected_per_scan`, which is not known when a `Stats` is made
    ExpectedPerScan,
    /// Translates to `total_scans`
    TotalScans,
    /// Translates to `links_extracted`
    LinksExtracted,
    /// Translates to `total_expected`
    TotalExpected,
    /// Translates to `wildcards_filtered`
    WildcardsFiltered,
    /// Translates to `responses_filtered`
    ResponsesFiltered,
    /// Translates to `resources_discovered`
    ResourcesDiscovered,
    /// Translates to `initial_targets`
    InitialTargets,
    /// Translates to `url_format_errors`
    UrlFormatErrors,
    /// Translates to `requests`
    Requests,
    /// Translates to `errors`
    Errors,
    /// Translates to `timeouts`
    Timeouts,
    /// Translates to `successes`
    Successes,
    /// Translates to `redirects`
    Redirects,
    /// Translates to `client_errors`
    ClientErrors,
    /// Translates to `server_errors`
    ServerErrors,
    /// Translates to `status_403s`
    Status403s,
    /// Translates to `status_200s`
    Status200s,
    /// Translates to `status_301s`
    Status301s,
    /// Translates to `status_302s`
    Status302s,
    /// Translates to `status_401s`
    Status401s,
    /// Translates to `status_429s`
    Status429s,
    /// Translates to `status_500s`
    Status500s,
    /// Translates to `status_503s`
    Status503s,
    /// Translates to `status_504s`
    Status504s,
    /// Translates to `status_508s`
    Status508s,
    /// Translates to `redirection_errors`
    RedirectionErrors,
    /// Translates to `connection_errors`
    ConnectionErrors,
    /// Translates to `request_errors`
    RequestErrors,
    /// Translates to `directory_scan_times`; assumes a single append to the vector
    DirScanTimes,
}

/// Protocol definition for updating a `Stats` object via a channel
#[derive(Debug, PartialEq, Eq)]
pub enum StatCommand {
    /// Add one to the total number of requests
    AddRequest,
    /// Add one to the proper field(s) based on the given `StatError`
    AddError(StatError),
    /// Add one to the proper field(s) based on the given `StatusCode`
    AddStatus(StatusCode),
    /// Create the progress bar that is updated by the statistics handler
    CreateBar,
    /// Update a `Stats` field that corresponds to the given `StatField` by the given `usize` value
    UpdateUsizeField(StatField, usize),
    /// Update a `Stats` field that corresponds to the given `StatField` by the given time
    UpdateF64Field(StatField, Seconds),
    /// Save a `Stats` object to disk
    Save,
    /// Load a `Stats` object from disk
    LoadStats(String),
    /// Break out of the (infinite) receive loop
    Exit,
}

} // verus!
