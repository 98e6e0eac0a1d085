//! The verified face of an RPC shell: how scheduler errors map to
//! transport status codes. The transport itself (listeners, wire format)
//! is not part of the core; an embedding shell translates its requests
//! into scheduler calls and carries these statuses back out.

use crate::cache::{DataCache, Timeseries};
use crate::data_switch;
use crate::data_switch::{spec_extra, SpaceSpec, TimeSpec, Timerange, Timestamp};
use crate::duration;
use crate::flag::Flag;
use crate::harness;
use crate::harness::{all_checks_provided, CheckResult};
use crate::pipeline::CheckConf;
use crate::scheduler;
use crate::scheduler::{schedule_post, Scheduler};
use vstd::prelude::*;

verus! {

/// The status kinds an RPC shell reports for a failed validation.
#[derive(Debug, Clone, Copy, PartialEq, Eq, Structural)]
pub enum StatusKind {
    /// The request itself was malformed or named an unknown pipeline.
    InvalidArgument,
    /// The named data source, or its data, could not be found.
    NotFound,
    /// A check failed while running, so the run was abandoned.
    Aborted,
    /// Any other failure inside the service.
    Internal,
}

impl StatusKind {
    /// The conventional numeric code of each status kind.
    pub fn code(self) -> (r: u16)
        ensures
            self is InvalidArgument ==> r == 3,
            self is NotFound ==> r == 5,
            self is Aborted ==> r == 10,
            self is Internal ==> r == 13,
    {
        match self {
            StatusKind::InvalidArgument => 3,
            StatusKind::NotFound => 5,
            StatusKind::Aborted => 10,
            StatusKind::Internal => 13,
        }
    }
}

/// Maps a scheduler error to the status an RPC shell reports: invalid
/// arguments map to `InvalidArgument`, a missing data source to
/// `NotFound`, a failed check to `Aborted`, and every other data switch
/// failure to `Internal`.
pub fn status_kind(e: &scheduler::Error) -> (r: StatusKind)
    ensures
        r is InvalidArgument <==> e is InvalidArg,
        r is Aborted <==> e is Runner,
        r is NotFound <==> (e matches scheduler::Error::DataSwitch(de) && de matches
            data_switch::Error::InvalidDataSource(_)),
        r is Internal <==> (e matches scheduler::Error::DataSwitch(de) && !(de matches
            data_switch::Error::InvalidDataSource(_))),
{
    match e {
        scheduler::Error::InvalidArg(_) => StatusKind::InvalidArgument,
        scheduler::Error::Runner(_) => StatusKind::Aborted,
        scheduler::Error::DataSwitch(de) => match de {
            data_switch::Error::InvalidDataSource(_) => StatusKind::NotFound,
            _ => StatusKind::Internal,
        },
    }
}

/// One validation request as a transport shell hands it over: plain
/// values, with nothing left for the shell to interpret. Fields the wire
/// may omit arrive as options.
#[derive(Debug, Clone, PartialEq)]
pub struct ValidateRequest {
    /// Name of the data source to fetch from.
    pub data_source: String,
    /// Names of auxiliary sources; accepted, but the current contract
    /// forwards only the primary source.
    pub backing_sources: Vec<String>,
    /// Start of the time range, in seconds since the epoch.
    pub start_time: Option<i64>,
    /// End of the time range, in seconds since the epoch.
    pub end_time: Option<i64>,
    /// Time resolution as an ISO-8601 duration.
    pub time_resolution: String,
    /// Which data to fetch, spatially.
    pub space_spec: Option<SpaceSpec>,
    /// Name of the pipeline to run.
    pub pipeline: String,
    /// Extra source-specific selection text.
    pub extra_spec: Option<String>,
}

/// What a successful wire-level validation means: the named pipeline is
/// loaded, every check in it has a provider, and the results are a
/// schedule outcome for it on a well-formed cache that carries the
/// pipeline's derived context demand and, for a single-series selection,
/// exactly that series.
pub open spec fn validate_ok_post<
    C: data_switch::DataConnector,
    K: Fn(&CheckConf, &DataCache) -> Result<Vec<Timeseries<Flag>>, harness::Error>,
>(
    scheduler: Scheduler<C>,
    source_name: Seq<char>,
    pipeline_name: Seq<char>,
    space: SpaceSpec,
    time_spec: TimeSpec,
    extra: Option<Seq<char>>,
    kernel: K,
    results: Vec<CheckResult>,
) -> bool {
    &&& scheduler.has_pipeline(pipeline_name)
    &&& all_checks_provided(scheduler.spec_pipeline(pipeline_name).steps@)
    &&& scheduler.data_switch.has_source(source_name)
    &&& exists|cache: DataCache|
        {
            &&& cache.well_formed()
            &&& cache.num_leading_points == scheduler.spec_pipeline(
                pipeline_name,
            ).num_leading_required
            &&& cache.num_trailing_points == scheduler.spec_pipeline(
                pipeline_name,
            ).num_trailing_required
            &&& (space matches SpaceSpec::One(id) ==> cache.data@.len() == 1
                && cache.data@[0].tag@ == id@)
            &&& scheduler.data_switch.spec_source(source_name).fetch_response(
                space,
                time_spec,
                scheduler.spec_pipeline(pipeline_name).num_leading_required,
                scheduler.spec_pipeline(pipeline_name).num_trailing_required,
                extra,
                Result::Ok(cache),
            )
            &&& #[trigger] schedule_post(
                kernel,
                scheduler.spec_pipeline(pipeline_name),
                cache,
                Result::<Vec<CheckResult>, scheduler::Error>::Ok(results),
            )
        }
}

/// What an aborted wire-level validation means: the request and pipeline
/// checks passed, the routed connector answered with a cache, and a step
/// of the schedule run on that cache failed.
pub open spec fn validate_aborted_post<
    C: data_switch::DataConnector,
    K: Fn(&CheckConf, &DataCache) -> Result<Vec<Timeseries<Flag>>, harness::Error>,
>(
    scheduler: Scheduler<C>,
    source_name: Seq<char>,
    pipeline_name: Seq<char>,
    space: SpaceSpec,
    time_spec: TimeSpec,
    extra: Option<Seq<char>>,
    kernel: K,
) -> bool {
    &&& scheduler.has_pipeline(pipeline_name)
    &&& all_checks_provided(scheduler.spec_pipeline(pipeline_name).steps@)
    &&& scheduler.data_switch.has_source(source_name)
    &&& exists|cache: DataCache, he: harness::Error|
        {
            &&& cache.well_formed()
            &&& scheduler.data_switch.spec_source(source_name).fetch_response(
                space,
                time_spec,
                scheduler.spec_pipeline(pipeline_name).num_leading_required,
                scheduler.spec_pipeline(pipeline_name).num_trailing_required,
                extra,
                Result::Ok(cache),
            )
            &&& #[trigger] schedule_post(
                kernel,
                scheduler.spec_pipeline(pipeline_name),
                cache,
                Result::<Vec<CheckResult>, scheduler::Error>::Err(scheduler::Error::Runner(he)),
            )
        }
}

/// Whether the connector a fetch for this source is routed to can answer
/// these arguments with an error, of the name-not-found kind or not.
pub open spec fn connector_err_response<C: data_switch::DataConnector>(
    scheduler: Scheduler<C>,
    source_name: Seq<char>,
    space: SpaceSpec,
    time_spec: TimeSpec,
    leading: u8,
    trailing: u8,
    extra: Option<Seq<char>>,
    not_found_kind: bool,
) -> bool {
    exists|de: data_switch::Error|
        (de is InvalidDataSource) == not_found_kind
            && #[trigger] scheduler.data_switch.spec_source(source_name).fetch_response(
            space,
            time_spec,
            leading,
            trailing,
            extra,
            Result::Err(de),
        )
}

/// Whether a wire request's time and space fields are well formed: both
/// timestamps present and in order, the resolution valid ISO-8601, and a
/// space selection present.
pub open spec fn request_fields_ok(request: ValidateRequest) -> bool {
    &&& request.start_time matches Some(s) && (request.end_time matches Some(e) && s <= e)
    &&& duration::spec_parse_duration(request.time_resolution@) is Some
    &&& request.space_spec is Some
}

/// The time spec a well-formed wire request selects.
pub open spec fn spec_request_time_spec(request: ValidateRequest) -> TimeSpec {
    TimeSpec {
        timerange: Timerange {
            start: Timestamp(request.start_time->Some_0),
            end: Timestamp(request.end_time->Some_0),
        },
        time_resolution: crate::duration::RelativeDuration {
            months: (duration::spec_parse_duration(request.time_resolution@)->Some_0).0 as i32,
            seconds: (duration::spec_parse_duration(request.time_resolution@)->Some_0).1 as i64,
        },
    }
}

/// The extra selection text a wire request carries, when one is given.
pub open spec fn spec_request_extra(request: ValidateRequest) -> Option<Seq<char>> {
    match request.extra_spec {
        Some(s) => Some(s@),
        None => None,
    }
}

impl<C: data_switch::DataConnector> Scheduler<C> {
    /// Handles one wire-level validation request: checks the request's
    /// time fields, space selection and resolution text, runs the named
    /// pipeline on the named source, and reports failures as transport
    /// status kinds.
    pub fn validate<
        K: Fn(&CheckConf, &DataCache) -> Result<Vec<Timeseries<Flag>>, harness::Error>,
    >(&self, request: &ValidateRequest, kernel: &K) -> (r: Result<Vec<CheckResult>, StatusKind>)
        requires
            self.pipelines_well_formed(),
            forall|conf: &CheckConf, c: &DataCache| #[trigger] call_requires(*kernel, (conf, c)),
        ensures
            (r matches Err(k) && k is InvalidArgument) <==> (!request_fields_ok(*request)
                || !self.has_pipeline(request.pipeline@) || !all_checks_provided(
                self.spec_pipeline(request.pipeline@).steps@,
            )),
            (request_fields_ok(*request) && self.has_pipeline(request.pipeline@)
                && all_checks_provided(self.spec_pipeline(request.pipeline@).steps@)
                && !self.data_switch.has_source(request.data_source@)) ==> (r matches Err(k)
                && k is NotFound),
            (r matches Err(k) && (k is NotFound || k is Aborted || k is Internal)) ==> (
            request_fields_ok(*request) && self.has_pipeline(request.pipeline@)
                && all_checks_provided(self.spec_pipeline(request.pipeline@).steps@)),
            (r matches Err(k) && k is Aborted) ==> (request.space_spec matches Some(space)
                && validate_aborted_post(
                *self,
                request.data_source@,
                request.pipeline@,
                space,
                spec_request_time_spec(*request),
                spec_request_extra(*request),
                *kernel,
            )),
            (r matches Err(k) && k is NotFound) ==> (request.space_spec matches Some(space) && (
            !self.data_switch.has_source(request.data_source@) || connector_err_response(
                *self,
                request.data_source@,
                space,
                spec_request_time_spec(*request),
                self.spec_pipeline(request.pipeline@).num_leading_required,
                self.spec_pipeline(request.pipeline@).num_trailing_required,
                spec_request_extra(*request),
                true,
            ))),
            (r matches Err(k) && k is Internal) ==> (request.space_spec matches Some(space)
                && self.data_switch.has_source(request.data_source@) && connector_err_response(
                *self,
                request.data_source@,
                space,
                spec_request_time_spec(*request),
                self.spec_pipeline(request.pipeline@).num_leading_required,
                self.spec_pipeline(request.pipeline@).num_trailing_required,
                spec_request_extra(*request),
                false,
            )),
            r matches Ok(results) ==> (request.space_spec matches Some(space) && validate_ok_post(
                *self,
                request.data_source@,
                request.pipeline@,
                space,
                spec_request_time_spec(*request),
                spec_request_extra(*request),
                *kernel,
                results,
            )),
    {
        let start = match request.start_time {
            Some(seconds) => seconds,
            None => {
                return Err(StatusKind::InvalidArgument);
            },
        };
        let end = match request.end_time {
            Some(seconds) => seconds,
            None => {
                return Err(StatusKind::InvalidArgument);
            },
        };
        if start > end {
            return Err(StatusKind::InvalidArgument);
        }
        let time_spec = match TimeSpec::new_time_resolution_string(
            Timestamp(start),
            Timestamp(end),
            request.time_resolution.as_str(),
        ) {
            Ok(time_spec) => time_spec,
            Err(_) => {
                return Err(StatusKind::InvalidArgument);
            },
        };
        let space_spec = match &request.space_spec {
            Some(space_spec) => space_spec,
            None => {
                return Err(StatusKind::InvalidArgument);
            },
        };

        let extra = match &request.extra_spec {
            Some(extra) => Some(extra.as_str()),
            None => None,
        };
        proof {
            assert(time_spec == spec_request_time_spec(*request));
            assert(spec_extra(extra) == spec_request_extra(*request));
        }

        match self.validate_direct(
            request.data_source.as_str(),
            request.backing_sources.as_slice(),
            &time_spec,
            space_spec,
            request.pipeline.as_str(),
            extra,
            kernel,
        ) {
            Ok(results) => {
                proof {
                    assert(validate_ok_post(
                        *self,
                        request.data_source@,
                        request.pipeline@,
                        *space_spec,
                        time_spec,
                        spec_extra(extra),
                        *kernel,
                        results,
                    ));
                }
                Ok(results)
            },
            Err(e) => {
                proof {
                    match &e {
                        scheduler::Error::Runner(he) => {
                            assert(validate_aborted_post(
                                *self,
                                request.data_source@,
                                request.pipeline@,
                                *space_spec,
                                time_spec,
                                spec_extra(extra),
                                *kernel,
                            ));
                        },
                        scheduler::Error::DataSwitch(de) => {
                            if self.data_switch.has_source(request.data_source@) {
                                assert(self.data_switch.spec_source(
                                    request.data_source@,
                                ).fetch_response(
                                    *space_spec,
                                    time_spec,
                                    self.spec_pipeline(request.pipeline@).num_leading_required,
                                    self.spec_pipeline(request.pipeline@).num_trailing_required,
                                    spec_extra(extra),
                                    Result::Err(*de),
                                ));
                            }
                        },
                        scheduler::Error::InvalidArg(_) => {},
                    }
                }
                Err(status_kind(&e))
            },
        }
    }
}

/// The flag codes of one series.
fn series_codes(values: &Vec<Flag>) -> (r: Vec<u8>)
    ensures
        r@.len() == values@.len(),
        forall|k: int| 0 <= k < values@.len() ==> #[trigger] r@[k] == values@[k].spec_code(),
{
    let mut codes: Vec<u8> = Vec::new();
    let len = values.len();
    let mut k: usize = 0;
    while k < len
        invariant
            0 <= k <= len,
            len == values@.len(),
            codes@.len() == k,
            forall|c: int| 0 <= c < k ==> #[trigger] codes@[c] == values@[c].spec_code(),
        decreases len - k,
    {
        codes.push(values[k].to_code());
        k = k + 1;
    }
    codes
}

/// Whether a wire pair carries exactly one check result: the step name,
/// and per station its tag with the stable code of every flag.
pub open spec fn wire_matches_result(w: (String, Vec<(String, Vec<u8>)>), cr: CheckResult) -> bool {
    &&& w.0@ == cr.check@
    &&& w.1@.len() == cr.results@.len()
    &&& forall|b: int|
        0 <= b < cr.results@.len() ==> {
            &&& #[trigger] w.1@[b].0@ == cr.results@[b].tag@
            &&& w.1@[b].1@.len() == cr.results@[b].values@.len()
            &&& forall|c: int|
                0 <= c < cr.results@[b].values@.len() ==> #[trigger] w.1@[b].1@[c]
                    == cr.results@[b].values@[c].spec_code()
        }
}

/// The wire shape of one check result.
fn result_to_wire(cr: &CheckResult) -> (r: (String, Vec<(String, Vec<u8>)>))
    ensures
        wire_matches_result(r, *cr),
{
    let mut series: Vec<(String, Vec<u8>)> = Vec::new();
    let m = cr.results.len();
    let mut j: usize = 0;
    while j < m
        invariant
            0 <= j <= m,
            m == cr.results@.len(),
            series@.len() == j,
            forall|b: int|
                0 <= b < j ==> {
                    &&& #[trigger] series@[b].0@ == cr.results@[b].tag@
                    &&& series@[b].1@.len() == cr.results@[b].values@.len()
                    &&& forall|c: int|
                        0 <= c < cr.results@[b].values@.len() ==> #[trigger] series@[b].1@[c]
                            == cr.results@[b].values@[c].spec_code()
                },
        decreases m - j,
    {
        let ts = &cr.results[j];
        let codes = series_codes(&ts.values);
        series.push((ts.tag.clone(), codes));
        j = j + 1;
    }
    (cr.check.clone(), series)
}

/// Flattens check results to their wire shape: per check, the step name
/// and one tag with flag codes per station, every flag encoded by its
/// stable integer code.
pub fn results_to_wire(results: &Vec<CheckResult>) -> (r: Vec<(String, Vec<(String, Vec<u8>)>)>)
    ensures
        r@.len() == results@.len(),
        forall|i: int|
            0 <= i < results@.len() ==> #[trigger] wire_matches_result(r@[i], results@[i]),
{
    let mut wire: Vec<(String, Vec<(String, Vec<u8>)>)> = Vec::new();
    let n = results.len();
    let mut i: usize = 0;
    while i < n
        invariant
            0 <= i <= n,
            n == results@.len(),
            wire@.len() == i,
            forall|a: int|
                0 <= a < i ==> #[trigger] wire_matches_result(wire@[a], results@[a]),
        decreases n - i,
    {
        wire.push(result_to_wire(&results[i]));
        i = i + 1;
    }
    wire
}

} // verus!
