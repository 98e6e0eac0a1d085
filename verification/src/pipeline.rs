//! The pipeline model: checks, their configuration, and the context each
//! pipeline demands of a data source.

use crate::value::Real;
use vstd::prelude::*;

verus! {

/// Leading values a cache must carry per series for the step check.
pub const STEP_LEADING_PER_RUN: u8 = 1;

/// Leading values a cache must carry per series for the spike check.
pub const SPIKE_LEADING_PER_RUN: u8 = 1;

/// Trailing values a cache must carry per series for the spike check.
pub const SPIKE_TRAILING_PER_RUN: u8 = 1;

/// Configuration of the special-values check: observations matching any of
/// these values fail.
#[derive(Debug, Clone, PartialEq)]
pub struct SpecialValueCheckConf {
    /// The values to flag.
    pub special_values: Vec<Real>,
}

/// Configuration of the range check: observations outside the inclusive
/// limits fail.
#[derive(Debug, Clone, Copy, PartialEq, Eq, Structural)]
pub struct RangeCheckConf {
    /// Upper inclusive limit.
    pub max: Real,
    /// Lower inclusive limit.
    pub min: Real,
}

/// Configuration of the dynamic range check, whose thresholds come from an
/// external source.
#[derive(Debug, Clone, PartialEq)]
pub struct RangeCheckDynamicConf {
    /// Identifier of the threshold source.
    pub source: String,
}

/// Configuration of the step check: a jump from the preceding observation
/// larger than `max` fails.
#[derive(Debug, Clone, Copy, PartialEq, Eq, Structural)]
pub struct StepCheckConf {
    /// Largest allowed difference between consecutive observations.
    pub max: Real,
}

/// Configuration of the spike check: an excursion against both neighbours
/// larger than `max` fails.
#[derive(Debug, Clone, Copy, PartialEq, Eq, Structural)]
pub struct SpikeCheckConf {
    /// Largest allowed excursion.
    pub max: Real,
}

/// Configuration of the flatline check: `max` consecutive equal
/// observations fail.
#[derive(Debug, Clone, Copy, PartialEq, Eq, Structural)]
pub struct FlatlineCheckConf {
    /// Window length that counts as a flatline.
    pub max: u8,
}

/// Configuration of the buddy check, a spatial comparison against
/// neighbouring stations.
#[derive(Debug, Clone, Copy, PartialEq, Eq, Structural)]
pub struct BuddyCheckConf {
    /// Search radius for buddies, broadcast to all stations.
    pub radii: Real,
    /// Minimum number of buddies, broadcast to all stations.
    pub min_buddies: u32,
    /// Variance threshold for flagging.
    pub threshold: Real,
    /// Maximum elevation difference for a buddy.
    pub max_elev_diff: Real,
    /// Linear elevation gradient applied before comparing.
    pub elev_gradient: Real,
    /// Lower bound on the neighbourhood standard deviation.
    pub min_std: Real,
    /// Number of iterations to perform.
    pub num_iterations: u32,
}

/// Configuration of the spatial consistency test.
#[derive(Debug, Clone, PartialEq)]
pub struct SctConf {
    /// Stations with fewer neighbours than this are not QCed.
    pub num_min: usize,
    /// Cap on the neighbours used for the expected value.
    pub num_max: usize,
    /// Radius in which the interpolation is reused.
    pub inner_radius: Real,
    /// Radius for computing the interpolation and background.
    pub outer_radius: Real,
    /// Number of iterations to perform.
    pub num_iterations: u32,
    /// Minimum number of observations for a vertical profile.
    pub num_min_prof: usize,
    /// Minimum elevation difference for a vertical profile.
    pub min_elev_diff: Real,
    /// Minimum horizontal decorrelation length.
    pub min_horizontal_scale: Real,
    /// Vertical decorrelation length.
    pub vertical_scale: Real,
    /// Positive deviation allowed, broadcast to all stations.
    pub pos: Real,
    /// Negative deviation allowed, broadcast to all stations.
    pub neg: Real,
    /// Ratio of observation to background error variance, broadcast to all
    /// stations.
    pub eps2: Real,
    /// Which stations to check; absent means all.
    pub obs_to_check: Option<Vec<bool>>,
}

/// Configuration of the model consistency check, which compares against an
/// external model field.
#[derive(Debug, Clone, PartialEq)]
pub struct ModelConsistencyCheckConf {
    /// Identifier of the model data source.
    pub model_source: String,
    /// Arguments passed to the model source.
    pub model_args: String,
    /// Largest allowed deviation from the model.
    pub threshold: Real,
}

/// Identifies a check, and provides a configuration (arguments) for it.
#[derive(Debug, Clone, PartialEq)]
pub enum CheckConf {
    /// Flag observations equal to configured special values.
    SpecialValueCheck(SpecialValueCheckConf),
    /// Flag observations outside fixed limits.
    RangeCheck(RangeCheckConf),
    /// Flag observations outside limits from an external source.
    RangeCheckDynamic(RangeCheckDynamicConf),
    /// Flag jumps against the preceding observation.
    StepCheck(StepCheckConf),
    /// Flag excursions against both neighbouring observations.
    SpikeCheck(SpikeCheckConf),
    /// Flag runs of identical observations.
    FlatlineCheck(FlatlineCheckConf),
    /// Flag outliers against neighbouring stations.
    BuddyCheck(BuddyCheckConf),
    /// Flag outliers by spatial consistency.
    Sct(SctConf),
    /// Flag deviations from an external model field.
    ModelConsistencyCheck(ModelConsistencyCheckConf),
    /// Mock check used for integration testing.
    Dummy,
}

/// The `(leading, trailing)` context a single check demands of the cache.
pub open spec fn spec_num_leading_trailing(conf: CheckConf) -> (u8, u8) {
    match conf {
        CheckConf::StepCheck(_) => (STEP_LEADING_PER_RUN, 0u8),
        CheckConf::SpikeCheck(_) => (SPIKE_LEADING_PER_RUN, SPIKE_TRAILING_PER_RUN),
        CheckConf::FlatlineCheck(conf) => (conf.max, 0u8),
        _ => (0u8, 0u8),
    }
}

impl CheckConf {
    /// The `(leading, trailing)` context this check demands of the cache.
    pub fn get_num_leading_trailing(&self) -> (r: (u8, u8))
        ensures
            r == spec_num_leading_trailing(*self),
    {
        match self {
            CheckConf::SpecialValueCheck(_)
            | CheckConf::RangeCheck(_)
            | CheckConf::RangeCheckDynamic(_)
            | CheckConf::BuddyCheck(_)
            | CheckConf::Sct(_)
            | CheckConf::ModelConsistencyCheck(_)
            | CheckConf::Dummy => (0, 0),
            CheckConf::StepCheck(_) => (STEP_LEADING_PER_RUN, 0),
            CheckConf::SpikeCheck(_) => (SPIKE_LEADING_PER_RUN, SPIKE_TRAILING_PER_RUN),
            CheckConf::FlatlineCheck(conf) => (conf.max, 0),
        }
    }
}

/// One step in a pipeline.
///
/// The name is kept distinct from the check kind, as one check may be used
/// for several different steps within a pipeline.
#[derive(Debug, Clone, PartialEq)]
pub struct PipelineStep {
    /// Name of the step.
    pub name: String,
    /// Which check to run for this step, with its configuration.
    pub check: CheckConf,
}

/// A pipeline of checks, with parameters built in.
///
/// The two context counts are derived from the steps, not user-supplied;
/// [`derive_num_leading_trailing`] computes them.
#[derive(Debug, Clone, PartialEq)]
pub struct Pipeline {
    /// Sequence of steps in the pipeline.
    pub steps: Vec<PipelineStep>,
    /// Leading points required by the checks in this pipeline.
    pub num_leading_required: u8,
    /// Trailing points required by the checks in this pipeline.
    pub num_trailing_required: u8,
}

/// Element-wise maximum of the context demands of a sequence of steps.
pub open spec fn spec_max_demand(steps: Seq<PipelineStep>) -> (u8, u8)
    decreases steps.len(),
{
    if steps.len() == 0 {
        (0u8, 0u8)
    } else {
        let prev = spec_max_demand(steps.drop_last());
        let last = spec_num_leading_trailing(steps.last().check);
        (
            if prev.0 >= last.0 {
                prev.0
            } else {
                last.0
            },
            if prev.1 >= last.1 {
                prev.1
            } else {
                last.1
            },
        )
    }
}

impl Pipeline {
    /// A pipeline in the shape every loaded pipeline has: at least one
    /// step, and context counts equal to the element-wise maximum of the
    /// steps' demands.
    pub open spec fn well_formed(self) -> bool {
        &&& self.steps.len() > 0
        &&& (self.num_leading_required, self.num_trailing_required) == spec_max_demand(
            self.steps@,
        )
    }
}

/// Derives the number of leading and trailing points per timeseries a
/// dataset needs for all its intended data to be QCed by the pipeline: the
/// element-wise maximum of the steps' demands.
pub fn derive_num_leading_trailing(pipeline: &Pipeline) -> (r: (u8, u8))
    ensures
        r == spec_max_demand(pipeline.steps@),
{
    let mut leading: u8 = 0;
    let mut trailing: u8 = 0;
    let mut i: usize = 0;
    while i < pipeline.steps.len()
        invariant
            0 <= i <= pipeline.steps.len(),
            (leading, trailing) == spec_max_demand(pipeline.steps@.take(i as int)),
        decreases pipeline.steps.len() - i,
    {
        proof {
            assert(pipeline.steps@.take(i + 1).drop_last() =~= pipeline.steps@.take(i as int));
            assert(pipeline.steps@.take(i + 1).last() == pipeline.steps@[i as int]);
        }
        let demand = pipeline.steps[i].check.get_num_leading_trailing();
        if demand.0 > leading {
            leading = demand.0;
        }
        if demand.1 > trailing {
            trailing = demand.1;
        }
        i = i + 1;
    }
    proof {
        assert(pipeline.steps@.take(pipeline.steps@.len() as int) =~= pipeline.steps@);
    }
    (leading, trailing)
}

/// The derived context counts bound every step's demand, and each bound is
/// attained by some step unless it is zero.
pub proof fn lemma_padding_is_elementwise_max(steps: Seq<PipelineStep>)
    ensures
        forall|i: int|
            0 <= i < steps.len() ==> #[trigger] spec_num_leading_trailing(steps[i].check).0
                <= spec_max_demand(steps).0 && spec_num_leading_trailing(steps[i].check).1
                <= spec_max_demand(steps).1,
        spec_max_demand(steps).0 == 0 || exists|i: int|
            0 <= i < steps.len() && #[trigger] spec_num_leading_trailing(steps[i].check).0
                == spec_max_demand(steps).0,
        spec_max_demand(steps).1 == 0 || exists|i: int|
            0 <= i < steps.len() && #[trigger] spec_num_leading_trailing(steps[i].check).1
                == spec_max_demand(steps).1,
    decreases steps.len(),
{
    if steps.len() > 0 {
        lemma_padding_is_elementwise_max(steps.drop_last());
        assert(forall|i: int|
            0 <= i < steps.len() - 1 ==> steps.drop_last()[i] == steps[i]);
        assert(steps.last() == steps[steps.len() - 1]);
    }
}

} // verus!
