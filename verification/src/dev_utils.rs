//! Development utilities: a synthetic data source and a built-in pipeline,
//! for exercising the scheduler without any upstream service.

use crate::cache::{DataCache, Timeseries, Timestamp};
use crate::data_switch::{self, DataConnector, SpaceSpec, TimeSpec};
use crate::duration::RelativeDuration;
use crate::pipeline::{
    BuddyCheckConf, CheckConf, Pipeline, PipelineStep, SctConf, SpikeCheckConf, StepCheckConf,
};
use crate::value::{real_from_int, spec_real_bits_of_int, Real};
use vstd::prelude::*;

verus! {

/// A data source that fabricates observations: every value is the constant
/// one, timestamped from zero at five-minute resolution. A single-series
/// selection yields one station at the origin; the whole-data-set
/// selection yields one station per supplied position. The positions are
/// handed in by the embedder, which fabricates them with machine numbers —
/// a clustered spread of fractional degrees — that the core cannot carry
/// itself.
#[derive(Debug, Clone, PartialEq)]
pub struct TestDataSource {
    /// Series length for the single-station selection `"single"`.
    pub data_len_single: usize,
    /// Series length for the single-station selection `"series"`.
    pub data_len_series: usize,
    /// Number of stations for the whole-data-set selection.
    pub data_len_spatial: usize,
    /// Latitude and longitude of each fabricated station for the
    /// whole-data-set selection, one pair per station.
    pub spatial_latlons: Vec<(Real, Real)>,
}

/// Whether every observation of a series is present and equal to one.
pub open spec fn spec_constant_one(values: Seq<Option<Real>>) -> bool {
    forall|k: int|
        0 <= k < values.len() ==> (#[trigger] values[k] matches Some(v) && v.bits
            == spec_real_bits_of_int(1))
}

/// The exact cache a single-series selection fabricates: one series of
/// constant ones under the given tag, at the origin at elevation zero,
/// timestamped from zero at five-minute resolution.
pub open spec fn single_cache_shape(cache: DataCache, tag: Seq<char>, len: int) -> bool {
    &&& cache.data@.len() == 1
    &&& cache.data@[0].tag@ == tag
    &&& cache.data@[0].values@.len() == len
    &&& spec_constant_one(cache.data@[0].values@)
    &&& cache.lats@.len() == 1 && cache.lats@[0].bits == 0
    &&& cache.lons@.len() == 1 && cache.lons@[0].bits == 0
    &&& cache.elevs@.len() == 1 && cache.elevs@[0].bits == 0
    &&& cache.start_time == Timestamp(0)
    &&& cache.period == RelativeDuration { months: 0, seconds: 300 }
}

/// The exact cache the whole-data-set selection fabricates: one series of
/// constant ones per supplied position, each tagged `test` at elevation
/// one, timestamped from zero at five-minute resolution.
pub open spec fn spatial_cache_shape(
    cache: DataCache,
    latlons: Seq<(Real, Real)>,
    series_len: int,
) -> bool {
    &&& cache.data@.len() == latlons.len()
    &&& forall|j: int| 0 <= j < latlons.len() ==> #[trigger] cache.data@[j].tag@ == "test"@
    &&& forall|j: int| 0 <= j < latlons.len() ==> #[trigger] cache.data@[j].values@.len()
        == series_len
    &&& forall|j: int|
        0 <= j < latlons.len() ==> spec_constant_one(#[trigger] cache.data@[j].values@)
    &&& cache.lats@.len() == latlons.len()
    &&& forall|j: int| 0 <= j < latlons.len() ==> #[trigger] cache.lats@[j] == latlons[j].0
    &&& cache.lons@.len() == latlons.len()
    &&& forall|j: int| 0 <= j < latlons.len() ==> #[trigger] cache.lons@[j] == latlons[j].1
    &&& cache.elevs@.len() == latlons.len()
    &&& forall|j: int|
        0 <= j < latlons.len() ==> #[trigger] cache.elevs@[j].bits == spec_real_bits_of_int(1)
    &&& cache.start_time == Timestamp(0)
    &&& cache.period == RelativeDuration { months: 0, seconds: 300 }
}

/// A series of the given length holding the constant observation one.
fn constant_series(tag: String, len: usize) -> (r: Timeseries<Option<Real>>)
    ensures
        r.tag == tag,
        r.values@.len() == len,
        spec_constant_one(r.values@),
{
    let one = real_from_int(1);
    let mut values: Vec<Option<Real>> = Vec::new();
    let mut k: usize = 0;
    while k < len
        invariant
            0 <= k <= len,
            values@.len() == k,
            one.bits == spec_real_bits_of_int(1),
            spec_constant_one(values@),
        decreases len - k,
    {
        values.push(Some(one));
        k = k + 1;
    }
    Timeseries { tag, values }
}

/// A one-station cache with a constant series of the given length at the
/// origin, carrying the requested context windows.
fn single_station_cache(
    tag: String,
    len: usize,
    num_leading_points: u8,
    num_trailing_points: u8,
) -> (r: Result<DataCache, data_switch::Error>)
    ensures
        r matches Ok(cache) <==> len >= num_leading_points + num_trailing_points,
        r matches Ok(cache) ==> cache.well_formed() && cache.num_leading_points
            == num_leading_points && cache.num_trailing_points == num_trailing_points
            && single_cache_shape(cache, tag@, len as int),
        r matches Err(e) ==> e is Other,
{
    if len < num_leading_points as usize + num_trailing_points as usize {
        return Err(
            data_switch::Error::Other(
                "the test series is shorter than the requested context".to_owned(),
            ),
        );
    }
    let mut data: Vec<Timeseries<Option<Real>>> = Vec::new();
    data.push(constant_series(tag, len));
    let mut lats: Vec<Real> = Vec::new();
    lats.push(Real::zero());
    let mut lons: Vec<Real> = Vec::new();
    lons.push(Real::zero());
    let mut elevs: Vec<Real> = Vec::new();
    elevs.push(Real::zero());
    Ok(
        DataCache::new(
            data,
            lats,
            lons,
            elevs,
            Timestamp(0),
            RelativeDuration::minutes(5),
            num_leading_points,
            num_trailing_points,
        ),
    )
}

impl DataConnector for TestDataSource {
    /// What this source answers, selection by selection: the exact
    /// single-station cache for `"single"` and `"series"` when the series
    /// is long enough, the exact per-position cache for the whole data
    /// set, and the stated error otherwise. The time and extra selections
    /// play no part in the fabricated data.
    open spec fn fetch_response(
        &self,
        space_spec: SpaceSpec,
        time_spec: TimeSpec,
        num_leading_points: u8,
        num_trailing_points: u8,
        extra_spec: Option<Seq<char>>,
        r: Result<DataCache, data_switch::Error>,
    ) -> bool {
        &&& (space_spec is Polygon ==> (r matches Err(e) && e is UnimplementedSpatial))
        &&& (space_spec matches SpaceSpec::One(id) ==> {
            &&& (id@ == "single"@ && self.data_len_single >= num_leading_points
                + num_trailing_points) ==> (r matches Ok(cache) && cache.well_formed()
                && cache.num_leading_points == num_leading_points && cache.num_trailing_points
                == num_trailing_points && single_cache_shape(
                cache,
                id@,
                self.data_len_single as int,
            ))
            &&& (id@ == "series"@ && self.data_len_series >= num_leading_points
                + num_trailing_points) ==> (r matches Ok(cache) && cache.well_formed()
                && cache.num_leading_points == num_leading_points && cache.num_trailing_points
                == num_trailing_points && single_cache_shape(
                cache,
                id@,
                self.data_len_series as int,
            ))
            &&& (id@ == "single"@ && self.data_len_single < num_leading_points
                + num_trailing_points) ==> (r matches Err(e) && e is Other)
            &&& (id@ == "series"@ && self.data_len_series < num_leading_points
                + num_trailing_points) ==> (r matches Err(e) && e is Other)
            &&& (id@ != "single"@ && id@ != "series"@) ==> (r matches Err(e) && e matches
                data_switch::Error::InvalidSeriesId(bad) && bad@ == id@)
        })
        &&& (space_spec is All ==> {
            &&& (self.data_len_spatial >= 1 && self.spatial_latlons@.len()
                == self.data_len_spatial) ==> (r matches Ok(cache) && cache.well_formed()
                && cache.num_leading_points == num_leading_points && cache.num_trailing_points
                == num_trailing_points && spatial_cache_shape(
                cache,
                self.spatial_latlons@,
                num_leading_points + 1 + num_trailing_points,
            ))
            &&& !(self.data_len_spatial >= 1 && self.spatial_latlons@.len()
                == self.data_len_spatial) ==> (r matches Err(e) && e is Other)
        })
    }

    /// Fabricates a cache for the selection: one constant series for
    /// `"single"` or `"series"`, a constant series per supplied position
    /// for the full data set; polygon selections are not offered.
    fn fetch_data(
        &self,
        space_spec: &SpaceSpec,
        _time_spec: &TimeSpec,
        num_leading_points: u8,
        num_trailing_points: u8,
        _extra_spec: Option<&str>,
    ) -> (r: Result<DataCache, data_switch::Error>) {
        proof {
            reveal_strlit("single");
            reveal_strlit("series");
            assert("single"@ != "series"@) by {
                assert("single"@[1] == 'i');
                assert("series"@[1] == 'e');
            }
        }
        match space_spec {
            SpaceSpec::One(data_id) => {
                if data_switch::str_eq(data_id.as_str(), "single") {
                    single_station_cache(
                        data_id.clone(),
                        self.data_len_single,
                        num_leading_points,
                        num_trailing_points,
                    )
                } else if data_switch::str_eq(data_id.as_str(), "series") {
                    single_station_cache(
                        data_id.clone(),
                        self.data_len_series,
                        num_leading_points,
                        num_trailing_points,
                    )
                } else {
                    Err(data_switch::Error::InvalidSeriesId(data_id.clone()))
                }
            },
            SpaceSpec::All => {
                let series_len = num_leading_points as usize + 1 + num_trailing_points as usize;
                let n = self.data_len_spatial;
                if n == 0 || self.spatial_latlons.len() != n {
                    return Err(
                        data_switch::Error::Other(
                            "the spatial selection needs one position per station".to_owned(),
                        ),
                    );
                }
                let mut data: Vec<Timeseries<Option<Real>>> = Vec::new();
                let mut lats: Vec<Real> = Vec::new();
                let mut lons: Vec<Real> = Vec::new();
                let mut elevs: Vec<Real> = Vec::new();
                let mut i: usize = 0;
                while i < n
                    invariant
                        0 <= i <= n,
                        n == self.spatial_latlons@.len(),
                        data@.len() == i,
                        lats@.len() == i,
                        lons@.len() == i,
                        elevs@.len() == i,
                        forall|j: int|
                            0 <= j < i ==> #[trigger] data@[j].values@.len() == series_len,
                        forall|j: int| 0 <= j < i ==> #[trigger] data@[j].tag@ == "test"@,
                        forall|j: int|
                            0 <= j < i ==> spec_constant_one(#[trigger] data@[j].values@),
                        forall|j: int|
                            0 <= j < i ==> #[trigger] lats@[j] == self.spatial_latlons@[j].0,
                        forall|j: int|
                            0 <= j < i ==> #[trigger] lons@[j] == self.spatial_latlons@[j].1,
                        forall|j: int|
                            0 <= j < i ==> #[trigger] elevs@[j].bits == spec_real_bits_of_int(1),
                    decreases n - i,
                {
                    data.push(constant_series("test".to_owned(), series_len));
                    lats.push(self.spatial_latlons[i].0);
                    lons.push(self.spatial_latlons[i].1);
                    elevs.push(real_from_int(1));
                    i = i + 1;
                }
                Ok(
                    DataCache::new(
                        data,
                        lats,
                        lons,
                        elevs,
                        Timestamp(0),
                        RelativeDuration::minutes(5),
                        num_leading_points,
                        num_trailing_points,
                    ),
                )
            },
            SpaceSpec::Polygon(_) => Err(
                data_switch::Error::UnimplementedSpatial(
                    "the test data source has no polygon selection".to_owned(),
                ),
            ),
        }
    }
}

/// The built-in pipeline: a step check, a spike check, a buddy check and a
/// spatial consistency test, under the name `hardcoded`, with its context
/// demand derived from the steps.
pub fn construct_hardcoded_pipeline() -> (r: Vec<(String, Pipeline)>)
    ensures
        r@.len() == 1,
        r@[0].0@ == "hardcoded"@,
        r@[0].1.well_formed(),
        r@[0].1.steps@.len() == 4,
        r@[0].1.steps@[0].name@ == "step_check"@ && (r@[0].1.steps@[0].check matches
            CheckConf::StepCheck(c) && c.max.bits == spec_real_bits_of_int(3)),
        r@[0].1.steps@[1].name@ == "spike_check"@ && (r@[0].1.steps@[1].check matches
            CheckConf::SpikeCheck(c) && c.max.bits == spec_real_bits_of_int(3)),
        r@[0].1.steps@[2].name@ == "buddy_check"@ && (r@[0].1.steps@[2].check matches
            CheckConf::BuddyCheck(c) && c == (BuddyCheckConf {
            radii: Real { bits: spec_real_bits_of_int(5000) },
            min_buddies: 2,
            threshold: Real { bits: spec_real_bits_of_int(2) },
            max_elev_diff: Real { bits: spec_real_bits_of_int(200) },
            elev_gradient: Real { bits: 0 },
            min_std: Real { bits: spec_real_bits_of_int(1) },
            num_iterations: 2,
        })),
        r@[0].1.steps@[3].name@ == "sct"@ && (r@[0].1.steps@[3].check matches CheckConf::Sct(c)
            && c == (SctConf {
            num_min: 5,
            num_max: 100,
            inner_radius: Real { bits: spec_real_bits_of_int(50000) },
            outer_radius: Real { bits: spec_real_bits_of_int(150000) },
            num_iterations: 5,
            num_min_prof: 20,
            min_elev_diff: Real { bits: spec_real_bits_of_int(200) },
            min_horizontal_scale: Real { bits: spec_real_bits_of_int(10000) },
            vertical_scale: Real { bits: spec_real_bits_of_int(200) },
            pos: Real { bits: spec_real_bits_of_int(4) },
            neg: Real { bits: spec_real_bits_of_int(8) },
            eps2: Real { bits: 0x3FE0000000000000 },
            obs_to_check: None,
        })),
        r@[0].1.num_leading_required == 1,
        r@[0].1.num_trailing_required == 1,
{
    let mut steps: Vec<PipelineStep> = Vec::new();
    steps.push(
        PipelineStep {
            name: "step_check".to_owned(),
            check: CheckConf::StepCheck(StepCheckConf { max: real_from_int(3) }),
        },
    );
    steps.push(
        PipelineStep {
            name: "spike_check".to_owned(),
            check: CheckConf::SpikeCheck(SpikeCheckConf { max: real_from_int(3) }),
        },
    );
    steps.push(
        PipelineStep {
            name: "buddy_check".to_owned(),
            check: CheckConf::BuddyCheck(
                BuddyCheckConf {
                    radii: real_from_int(5000),
                    min_buddies: 2,
                    threshold: real_from_int(2),
                    max_elev_diff: real_from_int(200),
                    elev_gradient: Real::zero(),
                    min_std: real_from_int(1),
                    num_iterations: 2,
                },
            ),
        },
    );
    steps.push(
        PipelineStep {
            name: "sct".to_owned(),
            check: CheckConf::Sct(
                SctConf {
                    num_min: 5,
                    num_max: 100,
                    inner_radius: real_from_int(50000),
                    outer_radius: real_from_int(150000),
                    num_iterations: 5,
                    num_min_prof: 20,
                    min_elev_diff: real_from_int(200),
                    min_horizontal_scale: real_from_int(10000),
                    vertical_scale: real_from_int(200),
                    pos: real_from_int(4),
                    neg: real_from_int(8),
                    // one half, as its IEEE-754 bit pattern
                    eps2: Real::from_bits(0x3FE0000000000000),
                    obs_to_check: None,
                },
            ),
        },
    );
    let mut pipeline = Pipeline { steps, num_leading_required: 0, num_trailing_required: 0 };
    let demand = crate::pipeline::derive_num_leading_trailing(&pipeline);
    pipeline.num_leading_required = demand.0;
    pipeline.num_trailing_required = demand.1;
    proof {
        reveal_with_fuel(crate::pipeline::spec_max_demand, 6);
        let s = pipeline.steps@;
        assert(s.drop_last() =~= s.take(3));
        assert(s.take(3).drop_last() =~= s.take(2));
        assert(s.take(2).drop_last() =~= s.take(1));
        assert(s.take(1).drop_last() =~= s.take(0));
        assert(s.take(0) =~= Seq::<PipelineStep>::empty());
        assert(crate::pipeline::spec_max_demand(s) == (1u8, 1u8));
    }
    let mut r: Vec<(String, Pipeline)> = Vec::new();
    r.push(("hardcoded".to_owned(), pipeline));
    r
}

} // verus!
