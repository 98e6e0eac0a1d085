//! The check harness: runs one pipeline step against a data cache and
//! wraps the outcome into a check result.
//!
//! The numeric kernels themselves compute with machine numbers, which this
//! core does not touch; the harness therefore receives the kernel as a
//! function value from the embedding shell, dispatches the step's
//! configuration and the cache to it, and wraps whatever comes back. The
//! mock check and the rejection of unprovided checks are decided here.

use crate::cache::{DataCache, Timeseries};
use crate::flag::Flag;
use crate::pipeline::{CheckConf, PipelineStep};
use vstd::prelude::*;
use vstd::string::*;

verus! {

/// Error type for the check harness.
#[derive(Debug, Clone, PartialEq)]
pub enum Error {
    /// A mock step's name did not mark it as a test step.
    InvalidTestName(String),
    /// The numeric kernel signalled a failure.
    FailedTest(String),
    /// The kernel returned a flag outside the known set.
    UnknownFlag(String),
    /// The step's check has no provider configured.
    UnimplementedCheck(String),
}

/// The outcome of one pipeline step: the step's name and one flag series
/// per station.
#[derive(Debug, Clone, PartialEq)]
pub struct CheckResult {
    /// Name of the step that produced this result.
    pub check: String,
    /// One series of flags per station.
    pub results: Vec<Timeseries<Flag>>,
}

/// Whether a step name marks the mock check as a test step.
pub open spec fn spec_is_test_name(s: Seq<char>) -> bool {
    s.len() >= 4 && s[0] == 't' && s[1] == 'e' && s[2] == 's' && s[3] == 't'
}

fn is_test_name(s: &str) -> (r: bool)
    ensures
        r == spec_is_test_name(s@),
{
    let len = s.unicode_len();
    len >= 4 && s.get_char(0) == 't' && s.get_char(1) == 'e' && s.get_char(2) == 's' && s.get_char(
        3,
    ) == 't'
}

/// Whether a check is dispatched to a numeric kernel (everything but the
/// mock check and the checks that need an external provider).
pub open spec fn is_kernel_check(conf: CheckConf) -> bool {
    !(conf is Dummy || conf is RangeCheckDynamic || conf is ModelConsistencyCheck)
}

/// Whether a check has a provider in this build: everything but the two
/// checks that need external model data.
pub open spec fn has_provider(conf: CheckConf) -> bool {
    !(conf is RangeCheckDynamic || conf is ModelConsistencyCheck)
}

/// Whether every step of a pipeline names a check with a provider.
pub open spec fn all_checks_provided(steps: Seq<PipelineStep>) -> bool {
    forall|i: int| 0 <= i < steps.len() ==> has_provider(#[trigger] steps[i].check)
}

/// View of one flag series: its tag and its flags.
pub open spec fn series_view(ts: Timeseries<Flag>) -> (Seq<char>, Seq<Flag>) {
    (ts.tag@, ts.values@)
}

/// View of a check result: the step name and the flag series.
pub open spec fn result_view(cr: CheckResult) -> (Seq<char>, Seq<(Seq<char>, Seq<Flag>)>) {
    (cr.check@, Seq::new(cr.results@.len(), |i: int| series_view(cr.results@[i])))
}

/// View of a harness error: which kind it is, and the text it carries.
pub open spec fn error_view(e: Error) -> (int, Seq<char>) {
    match e {
        Error::InvalidTestName(s) => (0, s@),
        Error::FailedTest(s) => (1, s@),
        Error::UnknownFlag(s) => (2, s@),
        Error::UnimplementedCheck(s) => (3, s@),
    }
}

/// View of a whole step outcome.
pub open spec fn outcome_view(r: Result<CheckResult, Error>) -> Result<
    (Seq<char>, Seq<(Seq<char>, Seq<Flag>)>),
    (int, Seq<char>),
> {
    match r {
        Ok(cr) => Ok(result_view(cr)),
        Err(e) => Err(error_view(e)),
    }
}

/// Everything `run_check` promises of its outcome: the mock check answers
/// from its step name alone, unprovided checks are rejected, and every
/// other check's outcome wraps one possible kernel response for this step
/// and cache.
pub open spec fn run_check_post<K: Fn(&CheckConf, &DataCache) -> Result<
    Vec<Timeseries<Flag>>,
    Error,
>>(kernel: K, step: PipelineStep, cache: DataCache, r: Result<CheckResult, Error>) -> bool {
    if step.check is Dummy {
        if spec_is_test_name(step.name@) {
            r matches Ok(cr) && cr.check@ == step.name@ && cr.results@.len() == 1
                && cr.results@[0].tag@ == "test"@ && cr.results@[0].values@ =~= seq![
                Flag::Inconclusive,
            ]
        } else {
            r matches Err(e) && e matches Error::InvalidTestName(name) && name@ == step.name@
        }
    } else if step.check is RangeCheckDynamic {
        r matches Err(e) && e matches Error::UnimplementedCheck(m) && m@
            == "range check dynamic needs model data"@
    } else if step.check is ModelConsistencyCheck {
        r matches Err(e) && e matches Error::UnimplementedCheck(m) && m@
            == "model consistency check needs model data"@
    } else {
        exists|resp: Result<Vec<Timeseries<Flag>>, Error>|
            {
                &&& #[trigger] call_ensures(kernel, (&step.check, &cache), resp)
                &&& match resp {
                    Ok(flags) => r matches Ok(cr) && cr.check@ == step.name@ && cr.results == flags,
                    Err(e) => r == Result::<CheckResult, Error>::Err(e),
                }
            }
    }
}

/// Runs one pipeline step against a cache.
///
/// The mock check answers from its step name alone; checks without a
/// provider are rejected; every other check goes to the kernel, and its
/// flag series are wrapped under the step's name.
pub fn run_check<K: Fn(&CheckConf, &DataCache) -> Result<Vec<Timeseries<Flag>>, Error>>(
    step: &PipelineStep,
    cache: &DataCache,
    kernel: &K,
) -> (r: Result<CheckResult, Error>)
    requires
        forall|conf: &CheckConf, c: &DataCache| #[trigger] call_requires(*kernel, (conf, c)),
    ensures
        run_check_post(*kernel, *step, *cache, r),
{
    let step_name = step.name.clone();
    match &step.check {
        CheckConf::Dummy => {
            if is_test_name(step_name.as_str()) {
                let mut values: Vec<Flag> = Vec::new();
                values.push(Flag::Inconclusive);
                let mut results: Vec<Timeseries<Flag>> = Vec::new();
                results.push(Timeseries { tag: "test".to_owned(), values });
                Ok(CheckResult { check: step_name, results })
            } else {
                Err(Error::InvalidTestName(step_name))
            }
        },
        CheckConf::RangeCheckDynamic(_) => Err(
            Error::UnimplementedCheck("range check dynamic needs model data".to_owned()),
        ),
        CheckConf::ModelConsistencyCheck(_) => Err(
            Error::UnimplementedCheck("model consistency check needs model data".to_owned()),
        ),
        _ => {
            let resp = kernel(&step.check, cache);
            match resp {
                Ok(flags) => Ok(CheckResult { check: step_name, results: flags }),
                Err(e) => Err(e),
            }
        },
    }
}

/// A deterministic kernel admits only one outcome per step: any two
/// results the harness contract allows for the same step and cache agree,
/// down to their text.
pub proof fn lemma_run_check_deterministic<
    K: Fn(&CheckConf, &DataCache) -> Result<Vec<Timeseries<Flag>>, Error>,
>(
    kernel: K,
    step: PipelineStep,
    cache: DataCache,
    r1: Result<CheckResult, Error>,
    r2: Result<CheckResult, Error>,
)
    requires
        forall|conf: &CheckConf, c: &DataCache, o1: Result<Vec<Timeseries<Flag>>, Error>, o2:
            Result<Vec<Timeseries<Flag>>, Error>|
            call_ensures(kernel, (conf, c), o1) && call_ensures(kernel, (conf, c), o2) ==> o1 == o2,
        run_check_post(kernel, step, cache, r1),
        run_check_post(kernel, step, cache, r2),
    ensures
        outcome_view(r1) == outcome_view(r2),
{
    if is_kernel_check(step.check) {
        let resp1 = choose|resp: Result<Vec<Timeseries<Flag>>, Error>|
            {
                &&& #[trigger] call_ensures(kernel, (&step.check, &cache), resp)
                &&& match resp {
                    Ok(flags) => r1 matches Ok(cr) && cr.check@ == step.name@ && cr.results
                        == flags,
                    Err(e) => r1 == Result::<CheckResult, Error>::Err(e),
                }
            };
        let resp2 = choose|resp: Result<Vec<Timeseries<Flag>>, Error>|
            {
                &&& #[trigger] call_ensures(kernel, (&step.check, &cache), resp)
                &&& match resp {
                    Ok(flags) => r2 matches Ok(cr) && cr.check@ == step.name@ && cr.results
                        == flags,
                    Err(e) => r2 == Result::<CheckResult, Error>::Err(e),
                }
            };
        assert(resp1 == resp2);
        match resp1 {
            Ok(flags) => {
                let cr1 = r1->Ok_0;
                let cr2 = r2->Ok_0;
                assert(result_view(cr1) =~~= result_view(cr2));
            },
            Err(e) => {},
        }
    } else if step.check is Dummy {
        if spec_is_test_name(step.name@) {
            let cr1 = r1->Ok_0;
            let cr2 = r2->Ok_0;
            assert(result_view(cr1) =~~= result_view(cr2));
        }
    }
}

/// Whether every flag series of a result spans exactly the cache's QCed
/// window. The kernels linked by the embedding shell trim the context from
/// both series and spatial results, so this is the shape every result of a
/// run is expected to have.
pub fn covers_payload(cache: &DataCache, result: &CheckResult) -> (r: bool)
    requires
        cache.well_formed(),
    ensures
        r <==> forall|i: int|
            0 <= i < result.results@.len() ==> #[trigger] result.results@[i].values@.len()
                == cache.spec_payload_len(),
{
    let payload = cache.payload_len();
    let n = result.results.len();
    let mut i: usize = 0;
    while i < n
        invariant
            0 <= i <= n,
            n == result.results@.len(),
            payload == cache.spec_payload_len(),
            forall|j: int|
                0 <= j < i ==> #[trigger] result.results@[j].values@.len()
                    == cache.spec_payload_len(),
        decreases n - i,
    {
        if result.results[i].values.len() != payload {
            return false;
        }
        i = i + 1;
    }
    true
}

} // verus!
