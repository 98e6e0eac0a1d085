//! Scheduling QC checks: look a pipeline up by name, fetch one coherent
//! cache for it through the data switch, run every step against that
//! cache, and collect the results in pipeline order.

use crate::cache::{DataCache, Timeseries};
use crate::data_switch::{self, spec_extra, DataConnector, DataSwitch, SpaceSpec, TimeSpec};
use crate::flag::Flag;
use crate::harness::{self, all_checks_provided, error_view, has_provider, result_view, run_check_post, CheckResult};
use crate::pipeline::{CheckConf, Pipeline};
use vstd::prelude::*;

verus! {

/// Error type for scheduler methods.
#[derive(Debug)]
pub enum Error {
    /// The check harness returned an error.
    Runner(harness::Error),
    /// The method received an invalid argument.
    InvalidArg(&'static str),
    /// The data switch returned an error.
    DataSwitch(data_switch::Error),
}

/// Receiver type for QC runs: holds the loaded pipelines and the data
/// switch that reaches the data sources.
#[derive(Debug)]
pub struct Scheduler<C: DataConnector> {
    /// The loaded pipelines, each under its name.
    pub pipelines: Vec<(String, Pipeline)>,
    /// Registry of data sources.
    pub data_switch: DataSwitch<C>,
}

/// Index of the first pipeline registered under a name, or -1 if none is.
pub open spec fn spec_find_pipeline(pipelines: Seq<(String, Pipeline)>, name: Seq<char>) -> int
    decreases pipelines.len(),
{
    if pipelines.len() == 0 {
        -1
    } else if pipelines[0].0@ == name {
        0
    } else {
        let r = spec_find_pipeline(pipelines.skip(1), name);
        if r < 0 {
            -1
        } else {
            1 + r
        }
    }
}

proof fn lemma_find_pipeline_at(pipelines: Seq<(String, Pipeline)>, name: Seq<char>, i: int)
    requires
        0 <= i < pipelines.len(),
        pipelines[i].0@ == name,
        forall|j: int| 0 <= j < i ==> pipelines[j].0@ != name,
    ensures
        spec_find_pipeline(pipelines, name) == i,
    decreases pipelines.len(),
{
    if i > 0 {
        assert(forall|j: int| 0 <= j < i - 1 ==> pipelines.skip(1)[j].0@ != name);
        lemma_find_pipeline_at(pipelines.skip(1), name, i - 1);
    }
}

proof fn lemma_find_pipeline_absent(pipelines: Seq<(String, Pipeline)>, name: Seq<char>)
    requires
        forall|j: int| 0 <= j < pipelines.len() ==> pipelines[j].0@ != name,
    ensures
        spec_find_pipeline(pipelines, name) == -1,
    decreases pipelines.len(),
{
    if pipelines.len() > 0 {
        assert(forall|j: int| 0 <= j < pipelines.skip(1).len() ==> pipelines.skip(1)[j].0@ != name);
        lemma_find_pipeline_absent(pipelines.skip(1), name);
    }
}

/// Whether a run fails at step `i` with this harness error, after the
/// steps before `i` succeeded with the results in `prefix`.
pub open spec fn step_fails_at<
    K: Fn(&CheckConf, &DataCache) -> Result<Vec<Timeseries<Flag>>, harness::Error>,
>(
    kernel: K,
    pipeline: Pipeline,
    data: DataCache,
    he: harness::Error,
    i: int,
    prefix: Seq<CheckResult>,
) -> bool {
    &&& 0 <= i < pipeline.steps@.len()
    &&& prefix.len() == i
    &&& run_check_post(kernel, pipeline.steps@[i], data, Result::Err(he))
    &&& forall|k: int|
        0 <= k < i ==> #[trigger] run_check_post(
            kernel,
            pipeline.steps@[k],
            data,
            Result::Ok(prefix[k]),
        )
}

/// Everything a schedule run promises: on success, one result per step in
/// pipeline order, each an outcome the harness contract allows for its
/// step; on failure, a harness error from some step whose predecessors all
/// succeeded, with no results at all.
pub open spec fn schedule_post<
    K: Fn(&CheckConf, &DataCache) -> Result<Vec<Timeseries<Flag>>, harness::Error>,
>(kernel: K, pipeline: Pipeline, data: DataCache, r: Result<Vec<CheckResult>, Error>) -> bool {
    match r {
        Ok(results) => {
            &&& results@.len() == pipeline.steps@.len()
            &&& forall|i: int|
                0 <= i < results@.len() ==> #[trigger] run_check_post(
                    kernel,
                    pipeline.steps@[i],
                    data,
                    Result::Ok(results@[i]),
                )
        },
        Err(e) => match e {
            Error::Runner(he) => exists|i: int, prefix: Seq<CheckResult>| #[trigger] step_fails_at(
                kernel,
                pipeline,
                data,
                he,
                i,
                prefix,
            ),
            _ => false,
        },
    }
}

/// View of a whole schedule outcome: the per-step result views, or the
/// kind and text of the error.
pub open spec fn schedule_view(r: Result<Vec<CheckResult>, Error>) -> Result<
    Seq<(Seq<char>, Seq<(Seq<char>, Seq<Flag>)>)>,
    (int, (int, Seq<char>)),
> {
    match r {
        Ok(results) => Ok(Seq::new(results@.len(), |i: int| result_view(results@[i]))),
        Err(e) => Err(
            match e {
                Error::Runner(he) => (0int, error_view(he)),
                Error::InvalidArg(m) => (1int, (0int, m@)),
                Error::DataSwitch(de) => (2int, data_switch_error_view(de)),
            },
        ),
    }
}

/// View of a data switch error: which kind it is, and the text it carries.
pub open spec fn data_switch_error_view(e: data_switch::Error) -> (int, Seq<char>) {
    match e {
        data_switch::Error::InvalidSeriesId(s) => (0int, s@),
        data_switch::Error::InvalidDataSource(s) => (1int, s@),
        data_switch::Error::InvalidExtraSpec { data_source, extra_spec, reason } => (2int, reason@),
        data_switch::Error::Io(s) => (3int, s@),
        data_switch::Error::UnimplementedSeries(s) => (4int, s@),
        data_switch::Error::UnimplementedSpatial(s) => (5int, s@),
        data_switch::Error::Other(s) => (6int, s@),
    }
}

impl<C: DataConnector> Scheduler<C> {
    /// Whether a pipeline of this name is loaded.
    pub open spec fn has_pipeline(self, name: Seq<char>) -> bool {
        spec_find_pipeline(self.pipelines@, name) >= 0
    }

    /// The first pipeline loaded under this name.
    pub open spec fn spec_pipeline(self, name: Seq<char>) -> Pipeline {
        self.pipelines@[spec_find_pipeline(self.pipelines@, name)].1
    }

    /// Whether every loaded pipeline is well formed: non-empty, with its
    /// context counts equal to the element-wise maximum of its steps'
    /// demands. Loading derives the counts, so this holds of every
    /// pipeline table a loader builds.
    pub open spec fn pipelines_well_formed(self) -> bool {
        forall|i: int|
            0 <= i < self.pipelines@.len() ==> (#[trigger] self.pipelines@[i].1).well_formed()
    }

    /// Instantiates a new scheduler.
    pub fn new(pipelines: Vec<(String, Pipeline)>, data_switch: DataSwitch<C>) -> (r: Scheduler<C>)
        ensures
            r.pipelines == pipelines,
            r.data_switch == data_switch,
    {
        Scheduler { pipelines, data_switch }
    }

    /// Directly invokes a pipeline on a cache: runs every step in order
    /// and collects the results, stopping at the first failing step with
    /// no partial results.
    pub fn schedule_tests<
        K: Fn(&CheckConf, &DataCache) -> Result<Vec<Timeseries<Flag>>, harness::Error>,
    >(pipeline: &Pipeline, data: DataCache, kernel: &K) -> (r: Result<Vec<CheckResult>, Error>)
        requires
            forall|conf: &CheckConf, c: &DataCache| #[trigger] call_requires(*kernel, (conf, c)),
        ensures
            schedule_post(*kernel, *pipeline, data, r),
    {
        let mut results: Vec<CheckResult> = Vec::new();
        let n = pipeline.steps.len();
        let mut i: usize = 0;
        while i < n
            invariant
                n == pipeline.steps@.len(),
                0 <= i <= n,
                results@.len() == i,
                forall|j: int|
                    0 <= j < i ==> #[trigger] run_check_post(
                        *kernel,
                        pipeline.steps@[j],
                        data,
                        Result::Ok(results@[j]),
                    ),
                forall|conf: &CheckConf, c: &DataCache| #[trigger] call_requires(
                    *kernel,
                    (conf, c),
                ),
            decreases n - i,
        {
            match harness::run_check(&pipeline.steps[i], &data, kernel) {
                Ok(cr) => {
                    results.push(cr);
                },
                Err(e) => {
                    proof {
                        assert(step_fails_at(*kernel, *pipeline, data, e, i as int, results@));
                    }
                    return Err(Error::Runner(e));
                },
            }
            i = i + 1;
        }
        Ok(results)
    }

    /// Runs a named pipeline on data fetched from a named source.
    ///
    /// Looks the pipeline up, derives its context demand, fetches one
    /// cache through the data switch, and runs every step against it.
    /// `backing_sources` is accepted for auxiliary context data, but the
    /// current contract forwards only the primary source.
    ///
    /// Errs with `InvalidArg` exactly when the pipeline name is not
    /// loaded; with the switch's `InvalidDataSource` error when the data
    /// source is not registered, in which case no connector is invoked.
    pub fn validate_direct<
        K: Fn(&CheckConf, &DataCache) -> Result<Vec<Timeseries<Flag>>, harness::Error>,
    >(
        &self,
        data_source: &str,
        _backing_sources: &[String],
        time_spec: &TimeSpec,
        space_spec: &SpaceSpec,
        test_pipeline: &str,
        extra_spec: Option<&str>,
        kernel: &K,
    ) -> (r: Result<Vec<CheckResult>, Error>)
        requires
            self.pipelines_well_formed(),
            forall|conf: &CheckConf, c: &DataCache| #[trigger] call_requires(*kernel, (conf, c)),
        ensures
            !self.has_pipeline(test_pipeline@) <==> (r matches Err(e) && e matches
                Error::InvalidArg(m) && m@ == "pipeline not recognised"@),
            (self.has_pipeline(test_pipeline@) && !all_checks_provided(
                self.spec_pipeline(test_pipeline@).steps@,
            )) ==> (r matches Err(e) && e matches Error::InvalidArg(m) && m@
                == "pipeline contains a check with no provider configured"@),
            (self.has_pipeline(test_pipeline@) && all_checks_provided(
                self.spec_pipeline(test_pipeline@).steps@,
            ) && !self.data_switch.has_source(data_source@)) ==> (r matches Err(e) && e matches
                Error::DataSwitch(de) && de matches data_switch::Error::InvalidDataSource(n) && n@
                == data_source@),
            (self.has_pipeline(test_pipeline@) && all_checks_provided(
                self.spec_pipeline(test_pipeline@).steps@,
            ) && self.data_switch.has_source(data_source@)) ==> {
                let p = self.spec_pipeline(test_pipeline@);
                let conn = self.data_switch.spec_source(data_source@);
                ||| (r matches Err(e) && e matches Error::DataSwitch(de)
                    && conn.fetch_response(
                    *space_spec,
                    *time_spec,
                    p.num_leading_required,
                    p.num_trailing_required,
                    spec_extra(extra_spec),
                    Result::Err(de),
                ))
                ||| exists|cache: DataCache|
                    {
                        &&& cache.well_formed()
                        &&& cache.num_leading_points == p.num_leading_required
                        &&& cache.num_trailing_points == p.num_trailing_required
                        &&& cache.num_leading_points == crate::pipeline::spec_max_demand(
                            p.steps@,
                        ).0
                        &&& cache.num_trailing_points == crate::pipeline::spec_max_demand(
                            p.steps@,
                        ).1
                        &&& (space_spec matches SpaceSpec::One(id) ==> cache.data@.len() == 1
                            && cache.data@[0].tag@ == id@)
                        &&& conn.fetch_response(
                            *space_spec,
                            *time_spec,
                            p.num_leading_required,
                            p.num_trailing_required,
                            spec_extra(extra_spec),
                            Result::Ok(cache),
                        )
                        &&& #[trigger] schedule_post(*kernel, p, cache, r)
                    }
            },
    {
        proof {
            reveal_strlit("pipeline not recognised");
            reveal_strlit("pipeline contains a check with no provider configured");
            assert("pipeline not recognised"@ != "pipeline contains a check with no provider configured"@)
                by {
                assert("pipeline not recognised"@[9] == 'n');
                assert("pipeline contains a check with no provider configured"@[9] == 'c');
            }
        }
        let n = self.pipelines.len();
        let mut idx: usize = 0;
        let mut found: bool = false;
        while idx < n && !found
            invariant
                n == self.pipelines@.len(),
                0 <= idx <= n,
                found ==> idx < n && self.pipelines@[idx as int].0@ == test_pipeline@ && (forall|
                    j: int,
                |
                    0 <= j < idx ==> self.pipelines@[j].0@ != test_pipeline@),
                !found ==> forall|j: int| 0 <= j < idx ==> self.pipelines@[j].0@ != test_pipeline@,
            decreases n - idx + (if found {
                0int
            } else {
                1int
            }),
        {
            if data_switch::str_eq(self.pipelines[idx].0.as_str(), test_pipeline) {
                found = true;
            } else {
                idx = idx + 1;
            }
        }
        if !found {
            proof {
                lemma_find_pipeline_absent(self.pipelines@, test_pipeline@);
            }
            return Err(Error::InvalidArg("pipeline not recognised"));
        }
        proof {
            lemma_find_pipeline_at(self.pipelines@, test_pipeline@, idx as int);
        }
        let pipeline = &self.pipelines[idx].1;

        // a pipeline naming a check with no provider configured is
        // rejected here, before any data is fetched
        let steps_n = pipeline.steps.len();
        let mut k: usize = 0;
        while k < steps_n
            invariant
                steps_n == pipeline.steps@.len(),
                0 <= k <= steps_n,
                self.has_pipeline(test_pipeline@),
                self.spec_pipeline(test_pipeline@) == *pipeline,
                "pipeline not recognised"@ != "pipeline contains a check with no provider configured"@,
                forall|j: int| 0 <= j < k ==> has_provider(#[trigger] pipeline.steps@[j].check),
            decreases steps_n - k,
        {
            match &pipeline.steps[k].check {
                CheckConf::RangeCheckDynamic(_) | CheckConf::ModelConsistencyCheck(_) => {
                    proof {
                        assert(!has_provider(pipeline.steps@[k as int].check));
                        assert(!all_checks_provided(pipeline.steps@));
                    }
                    return Err(
                        Error::InvalidArg("pipeline contains a check with no provider configured"),
                    );
                },
                _ => {},
            }
            k = k + 1;
        }
        assert(all_checks_provided(pipeline.steps@));

        let data = match self.data_switch.fetch_data(
            data_source,
            space_spec,
            time_spec,
            pipeline.num_leading_required,
            pipeline.num_trailing_required,
            extra_spec,
        ) {
            Ok(data) => data,
            Err(e) => {
                return Err(Error::DataSwitch(e));
            },
        };

        let r = Self::schedule_tests(pipeline, data, kernel);
        proof {
            let p = self.spec_pipeline(test_pipeline@);
            assert(schedule_post(*kernel, p, data, r));
        }
        r
    }
}

/// Scheduling is deterministic: with a kernel that admits only one
/// response per call, any two outcomes the schedule contract allows for
/// the same pipeline and cache agree, result for result.
pub proof fn lemma_schedule_deterministic<
    K: Fn(&CheckConf, &DataCache) -> Result<Vec<Timeseries<Flag>>, harness::Error>,
>(
    kernel: K,
    pipeline: Pipeline,
    data: DataCache,
    r1: Result<Vec<CheckResult>, Error>,
    r2: Result<Vec<CheckResult>, Error>,
)
    requires
        forall|conf: &CheckConf, c: &DataCache, o1: Result<
            Vec<Timeseries<Flag>>,
            harness::Error,
        >, o2: Result<Vec<Timeseries<Flag>>, harness::Error>|
            call_ensures(kernel, (conf, c), o1) && call_ensures(kernel, (conf, c), o2) ==> o1 == o2,
        schedule_post(kernel, pipeline, data, r1),
        schedule_post(kernel, pipeline, data, r2),
    ensures
        schedule_view(r1) == schedule_view(r2),
{
    match (r1, r2) {
        (Ok(res1), Ok(res2)) => {
            assert forall|i: int| 0 <= i < res1@.len() implies result_view(res1@[i]) == result_view(
                res2@[i],
            ) by {
                harness::lemma_run_check_deterministic(
                    kernel,
                    pipeline.steps@[i],
                    data,
                    Result::Ok(res1@[i]),
                    Result::Ok(res2@[i]),
                );
            }
            assert(schedule_view(r1) matches Ok(v1) && schedule_view(r2) matches Ok(v2) ==> v1
                =~= v2);
        },
        (Ok(res1), Err(e2)) => {
            let he2 = e2->Runner_0;
            let (i, prefix) = choose|i: int, prefix: Seq<CheckResult>|
                #[trigger] step_fails_at(kernel, pipeline, data, he2, i, prefix);
            harness::lemma_run_check_deterministic(
                kernel,
                pipeline.steps@[i],
                data,
                Result::Ok(res1@[i]),
                Result::Err(he2),
            );
            assert(false);
        },
        (Err(e1), Ok(res2)) => {
            let he1 = e1->Runner_0;
            let (i, prefix) = choose|i: int, prefix: Seq<CheckResult>|
                #[trigger] step_fails_at(kernel, pipeline, data, he1, i, prefix);
            harness::lemma_run_check_deterministic(
                kernel,
                pipeline.steps@[i],
                data,
                Result::Err(he1),
                Result::Ok(res2@[i]),
            );
            assert(false);
        },
        (Err(e1), Err(e2)) => {
            let he1 = e1->Runner_0;
            let he2 = e2->Runner_0;
            let (i1, prefix1) = choose|i: int, prefix: Seq<CheckResult>|
                #[trigger] step_fails_at(kernel, pipeline, data, he1, i, prefix);
            let (i2, prefix2) = choose|i: int, prefix: Seq<CheckResult>|
                #[trigger] step_fails_at(kernel, pipeline, data, he2, i, prefix);
            if i1 < i2 {
                harness::lemma_run_check_deterministic(
                    kernel,
                    pipeline.steps@[i1],
                    data,
                    Result::Err(he1),
                    Result::Ok(prefix2[i1]),
                );
                assert(false);
            } else if i2 < i1 {
                harness::lemma_run_check_deterministic(
                    kernel,
                    pipeline.steps@[i2],
                    data,
                    Result::Ok(prefix1[i2]),
                    Result::Err(he2),
                );
                assert(false);
            } else {
                harness::lemma_run_check_deterministic(
                    kernel,
                    pipeline.steps@[i1],
                    data,
                    Result::Err(he1),
                    Result::Err(he2),
                );
            }
        },
    }
}

} // verus!
