//! The statistics of a scan and the ways to update them.

use crate::command::{Seconds, StatError, StatField};
use crate::counter::{bump, wrapped};
use crate::status::StatusCode;
use vstd::prelude::*;

verus! {

broadcast use crate::counter::lemma_wrapped_fits;

/// Data collection of statistics related to a scan
#[derive(Debug)]
pub struct Stats {
    /// name of this type of record, `statistics` for one made by `new`
    pub kind: String,
    /// number of timeouts seen by the client
    pub timeouts: usize,
    /// total number of requests sent by the client
    pub requests: usize,
    /// number of requests that one scan is expected to send if it runs to completion
    pub expected_per_scan: usize,
    /// total number of requests expected so far; grows as new scans are started
    pub total_expected: usize,
    /// total number of errors encountered by the client
    pub errors: usize,
    /// overall number of 2xx status codes seen by the client
    pub successes: usize,
    /// overall number of 3xx status codes seen by the client
    pub redirects: usize,
    /// overall number of 4xx status codes seen by the client
    pub client_errors: usize,
    /// overall number of 5xx status codes seen by the client
    pub server_errors: usize,
    /// number of scans performed, one for each directory recursed into
    pub total_scans: usize,
    /// initial number of requested targets
    pub initial_targets: usize,
    /// number of links extracted from response bodies and robots.txt
    pub links_extracted: usize,
    /// overall number of 403s seen by the client
    pub status_403s: usize,
    /// overall number of 200s seen by the client
    pub status_200s: usize,
    /// overall number of 301s seen by the client
    pub status_301s: usize,
    /// overall number of 302s seen by the client
    pub status_302s: usize,
    /// overall number of 401s seen by the client
    pub status_401s: usize,
    /// overall number of 429s seen by the client
    pub status_429s: usize,
    /// overall number of 500s seen by the client
    pub status_500s: usize,
    /// overall number of 503s seen by the client
    pub status_503s: usize,
    /// overall number of 504s seen by the client
    pub status_504s: usize,
    /// overall number of 508s seen by the client
    pub status_508s: usize,
    /// overall number of wildcard urls filtered out by the client
    pub wildcards_filtered: usize,
    /// overall number of all filtered responses
    pub responses_filtered: usize,
    /// number of files found
    pub resources_discovered: usize,
    /// each directory's total scan time in seconds
    pub directory_scan_times: Vec<Seconds>,
    /// total runtime in seconds
    pub total_runtime: Vec<Seconds>,
    /// number of errors triggered during URL formatting
    pub url_format_errors: usize,
    /// number of errors triggered by the redirect policy
    pub redirection_errors: usize,
    /// number of errors related to the connecting
    pub connection_errors: usize,
    /// number of errors related to the request used
    pub request_errors: usize,
}

/// Whether a field names a counter, that is, anything but the scan times.
pub open spec fn is_counter(field: StatField) -> bool {
    field != StatField::DirScanTimes
}

/// What a `Stats` holds: its kind, the number in each counter, and the times.
#[verifier::ext_equal]
pub struct StatsView {
    pub kind: Seq<char>,
    pub counters: Map<StatField, nat>,
    pub directory_scan_times: Seq<Seconds>,
    pub total_runtime: Seq<Seconds>,
}

impl StatsView {
    /// There is a number for each counter, and it is one that a counter can show.
    pub open spec fn valid(self) -> bool {
        &&& forall|field: StatField| #[trigger]
            self.counters.dom().contains(field) <==> is_counter(field)
        &&& forall|field: StatField| is_counter(field) ==> #[trigger] self.counters[field] <= usize::MAX
    }

    /// Statistics of the given kind and runtime with nothing counted yet.
    pub open spec fn blank(kind: Seq<char>, total_runtime: Seq<Seconds>) -> StatsView {
        StatsView {
            kind,
            counters: Map::new(|field: StatField| is_counter(field), |field: StatField| 0nat),
            directory_scan_times: Seq::empty(),
            total_runtime,
        }
    }

    /// The statistics that a scan starts with.
    pub open spec fn fresh() -> StatsView {
        StatsView::blank("statistics"@, seq![Seconds { bits: 0 }])
    }

    /// The same statistics with each counter bumped by its part of `tally`.
    pub open spec fn plus(self, tally: spec_fn(StatField) -> nat) -> StatsView {
        StatsView {
            counters: Map::new(
                |field: StatField| is_counter(field),
                |field: StatField| wrapped(self.counters[field] + tally(field)),
            ),
            ..self
        }
    }

    /// The same statistics with one more directory scan time at the end.
    pub open spec fn with_scan_time(self, time: Seconds) -> StatsView {
        StatsView { directory_scan_times: self.directory_scan_times.push(time), ..self }
    }
}

/// One if `condition` holds, else zero.
pub open spec fn one_if(condition: bool) -> nat {
    if condition {
        1
    } else {
        0
    }
}

/// What one request adds to each counter.
pub open spec fn request_tally() -> spec_fn(StatField) -> nat {
    |field: StatField| one_if(field is Requests)
}

/// What an error adds to each counter: one to `requests`, one to `errors`, and one to
/// the counters of its kind.
pub open spec fn error_tally(error: StatError) -> spec_fn(StatField) -> nat {
    |field: StatField|
        match field {
            StatField::Requests => 1nat,
            StatField::Errors => 1,
            StatField::Timeouts => one_if(error is Timeout),
            StatField::Status403s => one_if(error is Status403),
            StatField::ClientErrors => one_if(error is Status403),
            StatField::UrlFormatErrors => one_if(error is UrlFormat),
            StatField::RedirectionErrors => one_if(error is Redirection),
            StatField::ConnectionErrors => one_if(error is Connection),
            StatField::RequestErrors => one_if(error is Request),
            _ => 0,
        }
}

/// What a response with the given status code adds to each counter: one to
/// `requests`, one to the counter of its class, one to the counter of the code
/// itself where it has one, and one to `errors` for a 4xx or 5xx.
pub open spec fn status_tally(code: u16) -> spec_fn(StatField) -> nat {
    |field: StatField|
        match field {
            StatField::Requests => 1nat,
            StatField::Errors => one_if(400 <= code <= 599),
            StatField::Successes => one_if(200 <= code <= 299),
            StatField::Redirects => one_if(300 <= code <= 399),
            StatField::ClientErrors => one_if(400 <= code <= 499),
            StatField::ServerErrors => one_if(500 <= code <= 599),
            StatField::Status403s => one_if(code == 403),
            StatField::Status200s => one_if(code == 200),
            StatField::Status301s => one_if(code == 301),
            StatField::Status302s => one_if(code == 302),
            StatField::Status401s => one_if(code == 401),
            StatField::Status429s => one_if(code == 429),
            StatField::Status500s => one_if(code == 500),
            StatField::Status503s => one_if(code == 503),
            StatField::Status504s => one_if(code == 504),
            StatField::Status508s => one_if(code == 508),
            _ => 0,
        }
}

/// How often each word is requested: once for each extension, or once if there is none.
pub open spec fn extension_multiplier(num_extensions: nat) -> nat {
    if num_extensions > 0 {
        num_extensions
    } else {
        1
    }
}

/// The number of requests expected of `scans` new scans.
pub open spec fn scan_requests(scans: nat, expected_per_scan: nat, num_extensions: nat) -> nat {
    scans * expected_per_scan * extension_multiplier(num_extensions)
}

/// What a batch update of `updated` by `value` adds to each counter: `value` to the
/// counter itself; new scans also raise the total expectation by `scan_requests`,
/// and filtered wildcards are filtered responses too.
pub open spec fn usize_tally(
    updated: StatField,
    value: nat,
    expected_per_scan: nat,
    num_extensions: nat,
) -> spec_fn(StatField) -> nat {
    |field: StatField|
        if field == updated {
            value
        } else if updated is TotalScans && field is TotalExpected {
            scan_requests(value, expected_per_scan, num_extensions)
        } else if updated is WildcardsFiltered && field is ResponsesFiltered {
            value
        } else {
            0
        }
}

impl View for Stats {
    type V = StatsView;

    open spec fn view(&self) -> StatsView {
        StatsView {
            kind: self.kind@,
            counters: Map::new(
                |field: StatField| is_counter(field),
                |field: StatField| self.counter(field),
            ),
            directory_scan_times: self.directory_scan_times@,
            total_runtime: self.total_runtime@,
        }
    }
}

impl Stats {
    /// The number in the counter that `field` names.
    pub open spec fn counter(&self, field: StatField) -> nat {
        match field {
            StatField::Timeouts => self.timeouts as nat,
            StatField::Requests => self.requests as nat,
            StatField::ExpectedPerScan => self.expected_per_scan as nat,
            StatField::TotalExpected => self.total_expected as nat,
            StatField::Errors => self.errors as nat,
            StatField::Successes => self.successes as nat,
            StatField::Redirects => self.redirects as nat,
            StatField::ClientErrors => self.client_errors as nat,
            StatField::ServerErrors => self.server_errors as nat,
            StatField::TotalScans => self.total_scans as nat,
            StatField::InitialTargets => self.initial_targets as nat,
            StatField::LinksExtracted => self.links_extracted as nat,
            StatField::Status403s => self.status_403s as nat,
            StatField::Status200s => self.status_200s as nat,
            StatField::Status301s => self.status_301s as nat,
            StatField::Status302s => self.status_302s as nat,
            StatField::Status401s => self.status_401s as nat,
            StatField::Status429s => self.status_429s as nat,
            StatField::Status500s => self.status_500s as nat,
            StatField::Status503s => self.status_503s as nat,
            StatField::Status504s => self.status_504s as nat,
            StatField::Status508s => self.status_508s as nat,
            StatField::WildcardsFiltered => self.wildcards_filtered as nat,
            StatField::ResponsesFiltered => self.responses_filtered as nat,
            StatField::ResourcesDiscovered => self.resources_discovered as nat,
            StatField::UrlFormatErrors => self.url_format_errors as nat,
            StatField::RedirectionErrors => self.redirection_errors as nat,
            StatField::ConnectionErrors => self.connection_errors as nat,
            StatField::RequestErrors => self.request_errors as nat,
            StatField::DirScanTimes => 0,
        }
    }

    /// Statistics are those of `before` plus a tally if each counter is.
    proof fn lemma_plus(before: Stats, after: Stats, tally: spec_fn(StatField) -> nat)
        requires
            after.kind@ == before.kind@,
            after.directory_scan_times@ == before.directory_scan_times@,
            after.total_runtime@ == before.total_runtime@,
            after.timeouts as nat == wrapped(before.timeouts as nat + tally(StatField::Timeouts)),
            after.requests as nat == wrapped(before.requests as nat + tally(StatField::Requests)),
            after.expected_per_scan as nat == wrapped(before.expected_per_scan as nat + tally(StatField::ExpectedPerScan)),
            after.total_expected as nat == wrapped(before.total_expected as nat + tally(StatField::TotalExpected)),
            after.errors as nat == wrapped(before.errors as nat + tally(StatField::Errors)),
            after.successes as nat == wrapped(before.successes as nat + tally(StatField::Successes)),
            after.redirects as nat == wrapped(before.redirects as nat + tally(StatField::Redirects)),
            after.client_errors as nat == wrapped(before.client_errors as nat + tally(StatField::ClientErrors)),
            after.server_errors as nat == wrapped(before.server_errors as nat + tally(StatField::ServerErrors)),
            after.total_scans as nat == wrapped(before.total_scans as nat + tally(StatField::TotalScans)),
            after.initial_targets as nat == wrapped(before.initial_targets as nat + tally(StatField::InitialTargets)),
            after.links_extracted as nat == wrapped(before.links_extracted as nat + tally(StatField::LinksExtracted)),
            after.status_403s as nat == wrapped(before.status_403s as nat + tally(StatField::Status403s)),
            after.status_200s as nat == wrapped(before.status_200s as nat + tally(StatField::Status200s)),
            after.status_301s as nat == wrapped(before.status_301s as nat + tally(StatField::Status301s)),
            after.status_302s as nat == wrapped(before.status_302s as nat + tally(StatField::Status302s)),
            after.status_401s as nat == wrapped(before.status_401s as nat + tally(StatField::Status401s)),
            after.status_429s as nat == wrapped(before.status_429s as nat + tally(StatField::Status429s)),
            after.status_500s as nat == wrapped(before.status_500s as nat + tally(StatField::Status500s)),
            after.status_503s as nat == wrapped(before.status_503s as nat + tally(StatField::Status503s)),
            after.status_504s as nat == wrapped(before.status_504s as nat + tally(StatField::Status504s)),
            after.status_508s as nat == wrapped(before.status_508s as nat + tally(StatField::Status508s)),
            after.wildcards_filtered as nat == wrapped(before.wildcards_filtered as nat + tally(StatField::WildcardsFiltered)),
            after.responses_filtered as nat == wrapped(before.responses_filtered as nat + tally(StatField::ResponsesFiltered)),
            after.resources_discovered as nat == wrapped(before.resources_discovered as nat + tally(StatField::ResourcesDiscovered)),
            after.url_format_errors as nat == wrapped(before.url_format_errors as nat + tally(StatField::UrlFormatErrors)),
            after.redirection_errors as nat == wrapped(before.redirection_errors as nat + tally(StatField::RedirectionErrors)),
            after.connection_errors as nat == wrapped(before.connection_errors as nat + tally(StatField::ConnectionErrors)),
            after.request_errors as nat == wrapped(before.request_errors as nat + tally(StatField::RequestErrors)),
        ensures
            after@ == before@.plus(tally),
    {
        assert forall|field: StatField| is_counter(field) implies after@.counters[field]
            == before@.plus(tally).counters[field] by {}
        assert(after@ =~= before@.plus(tally));
    }
}

impl Default for Stats {
    fn default() -> (stats: Self)
        ensures
            stats@ == StatsView::blank(Seq::<char>::empty(), Seq::<Seconds>::empty()),
    {
        Stats {
            kind: String::new(),
            timeouts: 0,
            requests: 0,
            expected_per_scan: 0,
            total_expected: 0,
            errors: 0,
            successes: 0,
            redirects: 0,
            client_errors: 0,
            server_errors: 0,
            total_scans: 0,
            initial_targets: 0,
            links_extracted: 0,
            status_403s: 0,
            status_200s: 0,
            status_301s: 0,
            status_302s: 0,
            status_401s: 0,
            status_429s: 0,
            status_500s: 0,
            status_503s: 0,
            status_504s: 0,
            status_508s: 0,
            wildcards_filtered: 0,
            responses_filtered: 0,
            resources_discovered: 0,
            directory_scan_times: Vec::new(),
            total_runtime: Vec::new(),
            url_format_errors: 0,
            redirection_errors: 0,
            connection_errors: 0,
            request_errors: 0,
        }
    }
}

impl Stats {
    /// Small wrapper for default to set `kind` to "statistics" and `total_runtime` to have at least
    /// one value
    pub fn new() -> (stats: Self)
        ensures
            stats@ == StatsView::fresh(),
    {
        let blank = Stats::default();
        let stats = Stats {
            kind: "statistics".to_owned(),
            total_runtime: vec![Seconds { bits: 0 }],
            ..blank
        };
        assert(stats@.counters =~= blank@.counters);
        stats
    }

    /// increment `requests` field by one
    pub fn add_request(&mut self)
        ensures
            final(self)@ == old(self)@.plus(request_tally()),
    {
        self.requests = bump(self.requests, 1);
        proof {
            Stats::lemma_plus(*old(self), *self, request_tally());
        }
    }

    /// store the total runtime
    pub fn update_runtime(&mut self, seconds: Seconds)
        requires
            old(self)@.total_runtime.len() > 0,
        ensures
            final(self)@ == (StatsView {
                total_runtime: old(self)@.total_runtime.update(0, seconds),
                ..old(self)@
            }),
    {
        self.total_runtime.set(0, seconds);
    }

    /// Inspect the given `StatError` and increment the appropriate fields
    ///
    /// Implies incrementing:
    ///     - requests
    ///     - errors
    pub fn add_error(&mut self, error: StatError)
        ensures
            final(self)@ == old(self)@.plus(error_tally(error)),
    {
        self.requests = bump(self.requests, 1);
        self.errors = bump(self.errors, 1);
        match error {
            StatError::Timeout => {
                self.timeouts = bump(self.timeouts, 1);
            },
            StatError::Status403 => {
                self.status_403s = bump(self.status_403s, 1);
                self.client_errors = bump(self.client_errors, 1);
            },
            StatError::UrlFormat => {
                self.url_format_errors = bump(self.url_format_errors, 1);
            },
            StatError::Redirection => {
                self.redirection_errors = bump(self.redirection_errors, 1);
            },
            StatError::Connection => {
                self.connection_errors = bump(self.connection_errors, 1);
            },
            StatError::Request => {
                self.request_errors = bump(self.request_errors, 1);
            },
            StatError::Other => {},
        }
        proof {
            Stats::lemma_plus(*old(self), *self, error_tally(error));
        }
    }

    /// Inspect the given `StatusCode` and increment the appropriate fields
    ///
    /// Implies incrementing:
    ///     - requests
    ///     - status_403s (when code is 403)
    ///     - errors (when code is [45]xx)
    pub fn add_status_code(&mut self, status: StatusCode)
        ensures
            final(self)@ == old(self)@.plus(status_tally(status@)),
    {
        self.requests = bump(self.requests, 1);
        if status.is_success() {
            self.successes = bump(self.successes, 1);
        } else if status.is_redirection() {
            self.redirects = bump(self.redirects, 1);
        } else if status.is_client_error() {
            self.errors = bump(self.errors, 1);
            self.client_errors = bump(self.client_errors, 1);
        } else if status.is_server_error() {
            self.errors = bump(self.errors, 1);
            self.server_errors = bump(self.server_errors, 1);
        }
        match status.as_u16() {
            403 => {
                self.status_403s = bump(self.status_403s, 1);
            },
            200 => {
                self.status_200s = bump(self.status_200s, 1);
            },
            301 => {
                self.status_301s = bump(self.status_301s, 1);
            },
            302 => {
                self.status_302s = bump(self.status_302s, 1);
            },
            401 => {
                self.status_401s = bump(self.status_401s, 1);
            },
            429 => {
                self.status_429s = bump(self.status_429s, 1);
            },
            500 => {
                self.status_500s = bump(self.status_500s, 1);
            },
            503 => {
                self.status_503s = bump(self.status_503s, 1);
            },
            504 => {
                self.status_504s = bump(self.status_504s, 1);
            },
            508 => {
                self.status_508s = bump(self.status_508s, 1);
            },
            _ => {},
        }
        proof {
            Stats::lemma_plus(*old(self), *self, status_tally(status@));
        }
    }

    /// Update a `Stats` field that holds times
    pub fn update_f64_field(&mut self, field: StatField, value: Seconds)
        ensures
            final(self)@ == (if field is DirScanTimes {
                old(self)@.with_scan_time(value)
            } else {
                old(self)@
            }),
    {
        if let StatField::DirScanTimes = field {
            self.directory_scan_times.push(value);
        }
    }

    /// The number of requests that `scans` new scans are expected to send, if it fits in a `usize`
    pub fn expected_of_scans(&self, scans: usize, num_extensions: usize) -> (expected: Option<usize>)
        ensures
            ({
                let requests = scan_requests(
                    scans as nat,
                    self@.counters[StatField::ExpectedPerScan],
                    num_extensions as nat,
                );
                if requests <= usize::MAX {
                    expected is Some && expected->0 as nat == requests
                } else {
                    expected is None
                }
            }),
    {
        let multiplier: usize = if num_extensions > 0 {
            num_extensions
        } else {
            1
        };
        let ghost words = scans * self.expected_per_scan;
        assert(words * multiplier >= words) by (nonlinear_arith)
            requires
                words >= 0,
                multiplier >= 1,
        ;
        match scans.checked_mul(self.expected_per_scan) {
            Some(once) => once.checked_mul(multiplier),
            None => None,
        }
    }

    /// Update a `Stats` field of type usize
    ///
    /// `num_extensions` is the number of file extensions of the scan's configuration. The number
    /// of requests expected of new scans has to fit in a `usize`; see `expected_of_scans`.
    pub fn update_usize_field(&mut self, field: StatField, value: usize, num_extensions: usize)
        requires
            field is TotalScans ==> scan_requests(
                value as nat,
                old(self)@.counters[StatField::ExpectedPerScan],
                num_extensions as nat,
            ) <= usize::MAX,
        ensures
            final(self)@ == (if is_counter(field) {
                old(self)@.plus(
                    usize_tally(
                        field,
                        value as nat,
                        old(self)@.counters[StatField::ExpectedPerScan],
                        num_extensions as nat,
                    ),
                )
            } else {
                old(self)@
            }),
            // filtered wildcards stay among the filtered responses unless these wrap around
            old(self).wildcards_filtered <= old(self).responses_filtered
                && old(self).responses_filtered + value <= usize::MAX
                ==> final(self).wildcards_filtered <= final(self).responses_filtered,
    {
        match field {
            StatField::ExpectedPerScan => {
                self.expected_per_scan = bump(self.expected_per_scan, value);
            },
            StatField::TotalScans => {
                // the number fits, so it is always there
                if let Some(expected) = self.expected_of_scans(value, num_extensions) {
                    self.total_scans = bump(self.total_scans, value);
                    self.total_expected = bump(self.total_expected, expected);
                }
            },
            StatField::TotalExpected => {
                self.total_expected = bump(self.total_expected, value);
            },
            StatField::LinksExtracted => {
                self.links_extracted = bump(self.links_extracted, value);
            },
            StatField::WildcardsFiltered => {
                self.wildcards_filtered = bump(self.wildcards_filtered, value);
                self.responses_filtered = bump(self.responses_filtered, value);
            },
            StatField::ResponsesFiltered => {
                self.responses_filtered = bump(self.responses_filtered, value);
            },
            StatField::ResourcesDiscovered => {
                self.resources_discovered = bump(self.resources_discovered, value);
            },
            StatField::InitialTargets => {
                self.initial_targets = bump(self.initial_targets, value);
            },
            StatField::Requests => {
                self.requests = bump(self.requests, value);
            },
            StatField::UrlFormatErrors => {
                self.url_format_errors = bump(self.url_format_errors, value);
            },
            StatField::Errors => {
                self.errors = bump(self.errors, value);
            },
            StatField::Timeouts => {
                self.timeouts = bump(self.timeouts, value);
            },
            StatField::Successes => {
                self.successes = bump(self.successes, value);
            },
            StatField::Redirects => {
                self.redirects = bump(self.redirects, value);
            },
            StatField::ClientErrors => {
                self.client_errors = bump(self.client_errors, value);
            },
            StatField::ServerErrors => {
                self.server_errors = bump(self.server_errors, value);
            },
            StatField::Status403s => {
                self.status_403s = bump(self.status_403s, value);
            },
            StatField::Status200s => {
                self.status_200s = bump(self.status_200s, value);
            },
            StatField::Status301s => {
                self.status_301s = bump(self.status_301s, value);
            },
            StatField::Status302s => {
                self.status_302s = bump(self.status_302s, value);
            },
            StatField::Status401s => {
                self.status_401s = bump(self.status_401s, value);
            },
            StatField::Status429s => {
                self.status_429s = bump(self.status_429s, value);
            },
            StatField::Status500s => {
                self.status_500s = bump(self.status_500s, value);
            },
            StatField::Status503s => {
                self.status_503s = bump(self.status_503s, value);
            },
            StatField::Status504s => {
                self.status_504s = bump(self.status_504s, value);
            },
            StatField::Status508s => {
                self.status_508s = bump(self.status_508s, value);
            },
            StatField::RedirectionErrors => {
                self.redirection_errors = bump(self.redirection_errors, value);
            },
            StatField::ConnectionErrors => {
                self.connection_errors = bump(self.connection_errors, value);
            },
            StatField::RequestErrors => {
                self.request_errors = bump(self.request_errors, value);
            },
            StatField::DirScanTimes => {},
        }
        proof {
            if is_counter(field) {
                let tally = usize_tally(
                    field,
                    value as nat,
                    old(self)@.counters[StatField::ExpectedPerScan],
                    num_extensions as nat,
                );
                Stats::lemma_plus(*old(self), *self, tally);
            }
        }
    }
}

} // verus!
