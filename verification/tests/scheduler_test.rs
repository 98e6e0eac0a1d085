use olympian::checks::series::{flatline_check_cache, spike_check_cache, step_check_cache};
use olympian::checks::single::{range_check_cache, special_values_check_cache};
use olympian::checks::spatial::{buddy_check_cache, sct_cache, BuddyCheckArgs, SctArgs};
use olympian::SingleOrVec;
use rove::cache::{DataCache, Timeseries, Timestamp};
use rove::data_switch::{DataConnector, DataSwitch, SpaceSpec, TimeSpec};
use rove::dev_utils::{construct_hardcoded_pipeline, TestDataSource};
use rove::flag::Flag;
use rove::harness;
use rove::pipeline::{
    CheckConf, FlatlineCheckConf, Pipeline, PipelineStep, RangeCheckConf, SctConf,
    SpecialValueCheckConf, SpikeCheckConf, StepCheckConf,
};
use rove::scheduler::{Error, Scheduler};
use rove::{Real, RelativeDuration};

fn rval(x: f64) -> Real {
    Real { bits: x.to_bits() }
}

// the fabricated station spread: a cluster of fractional degrees,
// computed in single precision as the connector's data is defined
fn test_latlons(n: usize) -> Vec<(Real, Real)> {
    (0..n)
        .map(|i| {
            (
                rval(((((i as f32).powi(2)) * 0.001) % 3.0) as f64),
                rval(((((i as f32) + 1.0).powi(2) * 0.001) % 3.0) as f64),
            )
        })
        .collect()
}

fn to_olympian_cache(c: &DataCache) -> olympian::DataCache {
    olympian::DataCache::new(
        c.data
            .iter()
            .map(|ts| olympian::Timeseries {
                tag: ts.tag.clone(),
                values: ts
                    .values
                    .iter()
                    .map(|v| v.map(|r| f64::from_bits(r.bits)))
                    .collect(),
            })
            .collect(),
        c.lats.iter().map(|r| f64::from_bits(r.bits)).collect(),
        c.lons.iter().map(|r| f64::from_bits(r.bits)).collect(),
        c.elevs.iter().map(|r| f64::from_bits(r.bits)).collect(),
        olympian::Timestamp(c.start_time.0),
        chronoutil::RelativeDuration::months(c.period.months)
            .with_duration(chrono::Duration::seconds(c.period.seconds)),
        c.num_leading_points,
        c.num_trailing_points,
    )
}

fn from_olympian_flag(f: olympian::Flag) -> Result<Flag, harness::Error> {
    match f {
        olympian::Flag::Pass => Ok(Flag::Pass),
        olympian::Flag::Fail => Ok(Flag::Fail),
        olympian::Flag::Warn => Ok(Flag::Warn),
        olympian::Flag::Inconclusive => Ok(Flag::Inconclusive),
        olympian::Flag::Invalid => Ok(Flag::Invalid),
        olympian::Flag::DataMissing => Ok(Flag::DataMissing),
        olympian::Flag::Isolated => Ok(Flag::Isolated),
        other => Err(harness::Error::UnknownFlag(format!("{:?}", other))),
    }
}

fn wrap_flags(
    flags: Vec<olympian::Timeseries<olympian::Flag>>,
) -> Result<Vec<Timeseries<Flag>>, harness::Error> {
    flags
        .into_iter()
        .map(|ts| {
            Ok(Timeseries {
                tag: ts.tag,
                values: ts
                    .values
                    .into_iter()
                    .map(from_olympian_flag)
                    .collect::<Result<Vec<Flag>, harness::Error>>()?,
            })
        })
        .collect()
}

fn kernel(conf: &CheckConf, cache: &DataCache) -> Result<Vec<Timeseries<Flag>>, harness::Error> {
    let oc = to_olympian_cache(cache);
    let failed = |e: olympian::Error| harness::Error::FailedTest(format!("{}", e));
    let flags = match conf {
        CheckConf::SpecialValueCheck(c) => {
            let values: Vec<f64> = c
                .special_values
                .iter()
                .map(|r| f64::from_bits(r.bits))
                .collect();
            special_values_check_cache(&oc, &values)
        }
        CheckConf::RangeCheck(c) => range_check_cache(
            &oc,
            f64::from_bits(c.min.bits),
            f64::from_bits(c.max.bits),
        ),
        CheckConf::StepCheck(c) => {
            step_check_cache(&oc, f64::from_bits(c.max.bits)).map_err(failed)?
        }
        CheckConf::SpikeCheck(c) => {
            spike_check_cache(&oc, f64::from_bits(c.max.bits)).map_err(failed)?
        }
        CheckConf::FlatlineCheck(c) => flatline_check_cache(&oc, c.max, 0.0001).map_err(failed)?,
        CheckConf::BuddyCheck(c) => buddy_check_cache(
            &oc,
            &BuddyCheckArgs {
                radii: SingleOrVec::Single(f64::from_bits(c.radii.bits)),
                min_buddies: SingleOrVec::Single(c.min_buddies),
                threshold: f64::from_bits(c.threshold.bits),
                max_elev_diff: f64::from_bits(c.max_elev_diff.bits),
                elev_gradient: f64::from_bits(c.elev_gradient.bits),
                min_std: f64::from_bits(c.min_std.bits),
                num_iterations: c.num_iterations,
            },
            None,
        )
        .map_err(failed)?,
        CheckConf::Sct(c) => sct_cache(
            &oc,
            &SctArgs {
                num_min: c.num_min,
                num_max: c.num_max,
                inner_radius: f64::from_bits(c.inner_radius.bits),
                outer_radius: f64::from_bits(c.outer_radius.bits),
                num_iterations: c.num_iterations,
                num_min_prof: c.num_min_prof,
                min_elev_diff: f64::from_bits(c.min_elev_diff.bits),
                min_horizontal_scale: f64::from_bits(c.min_horizontal_scale.bits),
                vertical_scale: f64::from_bits(c.vertical_scale.bits),
                pos: SingleOrVec::Single(f64::from_bits(c.pos.bits)),
                neg: SingleOrVec::Single(f64::from_bits(c.neg.bits)),
                eps2: SingleOrVec::Single(f64::from_bits(c.eps2.bits)),
            },
            c.obs_to_check.as_deref(),
        )
        .map_err(failed)?,
        _ => {
            return Err(harness::Error::UnimplementedCheck(
                "not a kernel check".to_string(),
            ))
        }
    };
    wrap_flags(flags)
}

fn series_cache(values: &[Option<f64>], leading: u8, trailing: u8) -> DataCache {
    DataCache::new(
        vec![Timeseries {
            tag: "s1".to_string(),
            values: values.iter().map(|v| v.map(rval)).collect(),
        }],
        vec![rval(60.0)],
        vec![rval(10.0)],
        vec![rval(0.0)],
        Timestamp(1_700_000_000),
        RelativeDuration::minutes(5),
        leading,
        trailing,
    )
}

fn one_step_pipeline(name: &str, check: CheckConf) -> Pipeline {
    let mut pipeline = Pipeline {
        steps: vec![PipelineStep {
            name: name.to_string(),
            check,
        }],
        num_leading_required: 0,
        num_trailing_required: 0,
    };
    let demand = rove::pipeline::derive_num_leading_trailing(&pipeline);
    pipeline.num_leading_required = demand.0;
    pipeline.num_trailing_required = demand.1;
    pipeline
}

fn flags_of(results: &[harness::CheckResult], i: usize) -> Vec<Flag> {
    results[i].results[0].values.clone()
}

#[test]
fn test_range_check_single_station_all_pass() {
    let cache = series_cache(&[Some(0.0), Some(10.0), Some(-5.0)], 0, 0);
    let pipeline = one_step_pipeline(
        "rc",
        CheckConf::RangeCheck(RangeCheckConf {
            max: rval(50.0),
            min: rval(-50.0),
        }),
    );
    let results =
        Scheduler::<TestDataSource>::schedule_tests(&pipeline, cache, &kernel).unwrap();
    assert_eq!(results.len(), 1);
    assert_eq!(results[0].check, "rc");
    assert_eq!(results[0].results.len(), 1);
    assert_eq!(results[0].results[0].tag, "s1");
    assert_eq!(flags_of(&results, 0), vec![Flag::Pass, Flag::Pass, Flag::Pass]);
}

#[test]
fn test_step_check_with_padding() {
    let cache = series_cache(&[Some(0.0), Some(10.0), Some(10.5)], 1, 0);
    let pipeline = one_step_pipeline(
        "sc",
        CheckConf::StepCheck(StepCheckConf { max: rval(3.0) }),
    );
    let results =
        Scheduler::<TestDataSource>::schedule_tests(&pipeline, cache, &kernel).unwrap();
    assert_eq!(flags_of(&results, 0), vec![Flag::Fail, Flag::Pass]);
}

#[test]
fn test_spike_check_flags_the_spike() {
    let cache = series_cache(&[Some(0.0), Some(0.0), Some(10.0), Some(0.0), Some(0.0)], 1, 1);
    let pipeline = one_step_pipeline(
        "sp",
        CheckConf::SpikeCheck(SpikeCheckConf { max: rval(3.0) }),
    );
    let results =
        Scheduler::<TestDataSource>::schedule_tests(&pipeline, cache, &kernel).unwrap();
    assert_eq!(flags_of(&results, 0), vec![Flag::Pass, Flag::Fail, Flag::Pass]);
}

#[test]
fn test_two_step_pipeline_preserves_order() {
    let cache = series_cache(&[Some(0.0), Some(0.0), Some(10.0), Some(0.0), Some(0.0)], 1, 1);
    let mut pipeline = Pipeline {
        steps: vec![
            PipelineStep {
                name: "step_check".to_string(),
                check: CheckConf::StepCheck(StepCheckConf { max: rval(3.0) }),
            },
            PipelineStep {
                name: "spike_check".to_string(),
                check: CheckConf::SpikeCheck(SpikeCheckConf { max: rval(3.0) }),
            },
        ],
        num_leading_required: 0,
        num_trailing_required: 0,
    };
    let demand = rove::pipeline::derive_num_leading_trailing(&pipeline);
    pipeline.num_leading_required = demand.0;
    pipeline.num_trailing_required = demand.1;
    let results =
        Scheduler::<TestDataSource>::schedule_tests(&pipeline, cache, &kernel).unwrap();
    assert_eq!(results.len(), 2);
    assert_eq!(results[0].check, "step_check");
    assert_eq!(results[1].check, "spike_check");
}

fn test_scheduler() -> Scheduler<TestDataSource> {
    let data_switch = DataSwitch::new(vec![(
        "test".to_string(),
        TestDataSource {
            data_len_single: 3,
            data_len_series: 1000,
            data_len_spatial: 1000,
            spatial_latlons: test_latlons(1000),
        },
    )])
    .unwrap();
    Scheduler::new(construct_hardcoded_pipeline(), data_switch)
}

fn test_time_spec() -> TimeSpec {
    TimeSpec::new(
        Timestamp(0),
        Timestamp(600),
        RelativeDuration::minutes(5),
    )
}

#[test]
fn test_unknown_data_source_is_rejected_without_fetching() {
    let scheduler = test_scheduler();
    let result = scheduler.validate_direct(
        "nosuch",
        &[],
        &test_time_spec(),
        &SpaceSpec::All,
        "hardcoded",
        None,
        &kernel,
    );
    match result {
        Err(Error::DataSwitch(rove::data_switch::Error::InvalidDataSource(name))) => {
            assert_eq!(name, "nosuch")
        }
        other => panic!("expected an unregistered-source error, got {:?}", other),
    }
}

#[test]
fn test_unknown_pipeline_is_rejected() {
    let scheduler = test_scheduler();
    let result = scheduler.validate_direct(
        "test",
        &[],
        &test_time_spec(),
        &SpaceSpec::All,
        "nosuch",
        None,
        &kernel,
    );
    match result {
        Err(Error::InvalidArg(msg)) => assert_eq!(msg, "pipeline not recognised"),
        other => panic!("expected an invalid-argument error, got {:?}", other),
    }
}

#[test]
fn test_duplicate_source_names_are_rejected() {
    let source = TestDataSource {
        data_len_single: 1,
        data_len_series: 1,
        data_len_spatial: 1,
        spatial_latlons: test_latlons(1),
    };
    assert!(DataSwitch::new(vec![
        ("a".to_string(), source.clone()),
        ("b".to_string(), source.clone()),
    ])
    .is_ok());
    assert!(DataSwitch::new(vec![
        ("a".to_string(), source.clone()),
        ("a".to_string(), source),
    ])
    .is_err());
}

#[test]
fn integration_test_hardcoded_pipeline() {
    let scheduler = test_scheduler();
    let response = scheduler
        .validate_direct(
            "test",
            &[],
            &test_time_spec(),
            &SpaceSpec::All,
            "hardcoded",
            None,
            &kernel,
        )
        .unwrap();

    assert_eq!(response.len(), 4);
    assert!(response.iter().any(|c| c.check == "step_check"));
    assert!(response.iter().any(|c| c.check == "spike_check"));
    assert!(response.iter().any(|c| c.check == "buddy_check"));
    assert!(response.iter().any(|c| c.check == "sct"));
    for result in &response {
        assert_eq!(result.results.len(), 1000);
        for series in &result.results {
            for flag in &series.values {
                assert!(
                    *flag == Flag::Pass || *flag == Flag::Isolated,
                    "check {} produced {:?}",
                    result.check,
                    flag
                );
            }
        }
    }
}

#[test]
fn test_flag_series_cover_exactly_the_payload() {
    let source = TestDataSource {
        data_len_single: 3,
        data_len_series: 1000,
        data_len_spatial: 100,
        spatial_latlons: test_latlons(100),
    };
    let cache = source
        .fetch_data(&SpaceSpec::All, &test_time_spec(), 1, 1, None)
        .unwrap();
    assert_eq!(cache.payload_len(), 1);
    let pipelines = construct_hardcoded_pipeline();
    let results = Scheduler::<TestDataSource>::schedule_tests(
        &pipelines[0].1,
        cache.clone(),
        &kernel,
    )
    .unwrap();
    for result in &results {
        assert!(harness::covers_payload(&cache, result), "{}", result.check);
    }
}

#[test]
fn test_dummy_check_answers_from_its_name() {
    let cache = series_cache(&[Some(0.0)], 0, 0);
    let step = PipelineStep {
        name: "test_something".to_string(),
        check: CheckConf::Dummy,
    };
    let result = harness::run_check(&step, &cache, &kernel).unwrap();
    assert_eq!(result.check, "test_something");
    assert_eq!(result.results.len(), 1);
    assert_eq!(result.results[0].tag, "test");
    assert_eq!(result.results[0].values, vec![Flag::Inconclusive]);

    let bad = PipelineStep {
        name: "something".to_string(),
        check: CheckConf::Dummy,
    };
    match harness::run_check(&bad, &cache, &kernel) {
        Err(harness::Error::InvalidTestName(name)) => assert_eq!(name, "something"),
        other => panic!("expected an invalid-test-name error, got {:?}", other),
    }
}

#[test]
fn test_unprovided_checks_are_rejected() {
    let cache = series_cache(&[Some(0.0)], 0, 0);
    let step = PipelineStep {
        name: "rcd".to_string(),
        check: CheckConf::RangeCheckDynamic(rove::pipeline::RangeCheckDynamicConf {
            source: "netatmo".to_string(),
        }),
    };
    assert!(matches!(
        harness::run_check(&step, &cache, &kernel),
        Err(harness::Error::UnimplementedCheck(_))
    ));
    let step = PipelineStep {
        name: "mc".to_string(),
        check: CheckConf::ModelConsistencyCheck(rove::pipeline::ModelConsistencyCheckConf {
            model_source: "lustre".to_string(),
            model_args: "".to_string(),
            threshold: rval(1.0),
        }),
    };
    assert!(matches!(
        harness::run_check(&step, &cache, &kernel),
        Err(harness::Error::UnimplementedCheck(_))
    ));
}

#[test]
fn test_dispatch_coverage_of_kernel_checks() {
    // a series cache compatible with every series check
    let series = series_cache(
        &[Some(1.0), Some(1.0), Some(2.0), Some(1.0), Some(1.0)],
        2,
        1,
    );
    // a spatial cache compatible with the neighbourhood checks
    let source = TestDataSource {
        data_len_single: 3,
        data_len_series: 10,
        data_len_spatial: 100,
        spatial_latlons: test_latlons(100),
    };
    let spatial = source
        .fetch_data(&SpaceSpec::All, &test_time_spec(), 0, 0, None)
        .unwrap();

    let cases: Vec<(CheckConf, &DataCache)> = vec![
        (
            CheckConf::SpecialValueCheck(SpecialValueCheckConf {
                special_values: vec![rval(99.0)],
            }),
            &series,
        ),
        (
            CheckConf::RangeCheck(RangeCheckConf {
                max: rval(50.0),
                min: rval(-50.0),
            }),
            &series,
        ),
        (
            CheckConf::StepCheck(StepCheckConf { max: rval(3.0) }),
            &series,
        ),
        (
            CheckConf::SpikeCheck(SpikeCheckConf { max: rval(3.0) }),
            &series,
        ),
        (
            CheckConf::FlatlineCheck(FlatlineCheckConf { max: 2 }),
            &series,
        ),
        (
            CheckConf::BuddyCheck(rove::pipeline::BuddyCheckConf {
                radii: rval(5000.0),
                min_buddies: 2,
                threshold: rval(2.0),
                max_elev_diff: rval(200.0),
                elev_gradient: rval(0.0),
                min_std: rval(1.0),
                num_iterations: 2,
            }),
            &spatial,
        ),
        (
            CheckConf::Sct(SctConf {
                num_min: 5,
                num_max: 100,
                inner_radius: rval(50000.0),
                outer_radius: rval(150000.0),
                num_iterations: 5,
                num_min_prof: 20,
                min_elev_diff: rval(200.0),
                min_horizontal_scale: rval(10000.0),
                vertical_scale: rval(200.0),
                pos: rval(4.0),
                neg: rval(8.0),
                eps2: rval(0.5),
                obs_to_check: None,
            }),
            &spatial,
        ),
    ];
    for (conf, cache) in cases {
        let step = PipelineStep {
            name: "coverage".to_string(),
            check: conf,
        };
        let result = harness::run_check(&step, cache, &kernel)
            .unwrap_or_else(|e| panic!("{:?} failed: {:?}", step.check, e));
        assert!(!result.results.is_empty(), "{:?}", step.check);
        assert!(result.results.iter().all(|s| !s.values.is_empty()));
    }
}

#[test]
fn test_spatial_index_follows_station_order() {
    // ten stations metres apart, all alike but the last; the buddy check
    // must flag exactly the station at the last index
    let n = 10;
    let lats: Vec<f64> = vec![60.0; n];
    let lons: Vec<f64> = (0..n).map(|i| 60.0 + i as f64 * 0.00011111).collect();
    let elevs: Vec<f64> = vec![0.0; n];
    let mut values: Vec<Option<f64>> = vec![Some(0.0); n];
    values[n - 1] = Some(1.0);

    let flags = olympian::checks::spatial::buddy_check(
        &values,
        &olympian::SpatialTree::from_latlons(lats, lons, elevs),
        &BuddyCheckArgs {
            radii: SingleOrVec::Single(10000.),
            min_buddies: SingleOrVec::Single(1),
            threshold: 1.,
            max_elev_diff: 200.,
            elev_gradient: -0.0065,
            min_std: 0.01,
            num_iterations: 2,
        },
        None,
    )
    .unwrap();
    assert_eq!(flags.len(), n);
    for (i, flag) in flags.iter().enumerate() {
        if i == n - 1 {
            assert_eq!(*flag, olympian::Flag::Fail);
        } else {
            assert_eq!(*flag, olympian::Flag::Pass);
        }
    }
}

#[test]
fn test_scheduling_is_deterministic() {
    let scheduler = test_scheduler();
    let run = || {
        scheduler
            .validate_direct(
                "test",
                &[],
                &test_time_spec(),
                &SpaceSpec::All,
                "hardcoded",
                None,
                &kernel,
            )
            .unwrap()
    };
    assert_eq!(run(), run());
}

#[test]
fn test_connector_error_kinds() {
    let source = TestDataSource {
        data_len_single: 3,
        data_len_series: 10,
        data_len_spatial: 10,
        spatial_latlons: test_latlons(10),
    };
    // an unknown series id
    match source.fetch_data(
        &SpaceSpec::One("bogus".to_string()),
        &test_time_spec(),
        0,
        0,
        None,
    ) {
        Err(rove::data_switch::Error::InvalidSeriesId(id)) => assert_eq!(id, "bogus"),
        other => panic!("expected an invalid-series-id error, got {:?}", other),
    }
    // a polygon selection, which the test source does not offer
    match source.fetch_data(
        &SpaceSpec::Polygon(vec![]),
        &test_time_spec(),
        0,
        0,
        None,
    ) {
        Err(rove::data_switch::Error::UnimplementedSpatial(_)) => {}
        other => panic!("expected an unimplemented-spatial error, got {:?}", other),
    }
    // a series too short for the requested context
    match source.fetch_data(
        &SpaceSpec::One("single".to_string()),
        &test_time_spec(),
        200,
        200,
        None,
    ) {
        Err(rove::data_switch::Error::Other(_)) => {}
        other => panic!("expected the too-short error, got {:?}", other),
    }
    // the single selection hands back exactly one station, tagged by id
    let cache = source
        .fetch_data(
            &SpaceSpec::One("single".to_string()),
            &test_time_spec(),
            0,
            0,
            None,
        )
        .unwrap();
    assert_eq!(cache.data.len(), 1);
    assert_eq!(cache.data[0].tag, "single");
    assert_eq!(cache.data[0].values.len(), 3);
}

#[test]
fn test_kernel_failure_aborts_the_run() {
    // a step check demands one leading point; a cache without it makes the
    // kernel fail, and the scheduler surfaces that as a runner error
    let cache = series_cache(&[Some(0.0), Some(1.0)], 0, 0);
    let pipeline = Pipeline {
        steps: vec![
            PipelineStep {
                name: "sc".to_string(),
                check: CheckConf::StepCheck(StepCheckConf { max: rval(3.0) }),
            },
            PipelineStep {
                name: "never_reached".to_string(),
                check: CheckConf::Dummy,
            },
        ],
        num_leading_required: 0,
        num_trailing_required: 0,
    };
    match Scheduler::<TestDataSource>::schedule_tests(&pipeline, cache, &kernel) {
        Err(Error::Runner(harness::Error::FailedTest(_))) => {}
        other => panic!("expected a failed-test error, got {:?}", other),
    }
}


#[test]
fn test_unprovided_checks_are_rejected_at_validation_time() {
    let mut pipelines = construct_hardcoded_pipeline();
    pipelines.push((
        "dynamic".to_string(),
        one_step_pipeline(
            "rcd",
            CheckConf::RangeCheckDynamic(rove::pipeline::RangeCheckDynamicConf {
                source: "netatmo".to_string(),
            }),
        ),
    ));
    let data_switch = DataSwitch::new(vec![(
        "test".to_string(),
        TestDataSource {
            data_len_single: 3,
            data_len_series: 10,
            data_len_spatial: 10,
            spatial_latlons: test_latlons(10),
        },
    )])
    .unwrap();
    let scheduler = Scheduler::new(pipelines, data_switch);
    match scheduler.validate_direct(
        "test",
        &[],
        &test_time_spec(),
        &SpaceSpec::All,
        "dynamic",
        None,
        &kernel,
    ) {
        Err(Error::InvalidArg(msg)) => {
            assert_eq!(msg, "pipeline contains a check with no provider configured")
        }
        other => panic!("expected the no-provider rejection, got {:?}", other),
    }
}

#[test]
fn test_spatial_selection_uses_the_supplied_positions() {
    let n = 5;
    let source = TestDataSource {
        data_len_single: 3,
        data_len_series: 10,
        data_len_spatial: n,
        spatial_latlons: test_latlons(n),
    };
    let cache = source
        .fetch_data(&SpaceSpec::All, &test_time_spec(), 0, 0, None)
        .unwrap();
    assert_eq!(cache.data.len(), n);
    let expected = test_latlons(n);
    for i in 0..n {
        assert_eq!(cache.lats[i], expected[i].0);
        assert_eq!(cache.lons[i], expected[i].1);
        assert_eq!(f64::from_bits(cache.elevs[i].bits), 1.0);
        assert_eq!(cache.data[i].tag, "test");
    }
    assert_eq!(f64::from_bits(cache.lats[2].bits), ((2.0f32.powi(2) * 0.001) % 3.0) as f64);

    // one position too few: the selection is refused
    let bad = TestDataSource {
        data_len_single: 3,
        data_len_series: 10,
        data_len_spatial: n,
        spatial_latlons: test_latlons(n - 1),
    };
    assert!(matches!(
        bad.fetch_data(&SpaceSpec::All, &test_time_spec(), 0, 0, None),
        Err(rove::data_switch::Error::Other(_))
    ));
}

#[test]
fn test_wire_validation_succeeds_end_to_end() {
    let scheduler = test_scheduler();
    let request = rove::server::ValidateRequest {
        data_source: "test".to_string(),
        backing_sources: vec![],
        start_time: Some(0),
        end_time: Some(600),
        time_resolution: "PT5M".to_string(),
        space_spec: Some(SpaceSpec::All),
        pipeline: "hardcoded".to_string(),
        extra_spec: None,
    };
    let results = scheduler.validate(&request, &kernel).unwrap();
    let wire = rove::server::results_to_wire(&results);
    assert_eq!(wire.len(), 4);
    let names: Vec<&str> = wire.iter().map(|(check, _)| check.as_str()).collect();
    assert_eq!(names, vec!["step_check", "spike_check", "buddy_check", "sct"]);
    for (_, series) in &wire {
        assert_eq!(series.len(), 1000);
    }
}


#[test]
fn test_connector_errors_pass_through_the_switch_unchanged() {
    let scheduler = test_scheduler();
    // the test source rejects this series id; the switch and scheduler
    // must surface that exact error, not one of their own
    match scheduler.validate_direct(
        "test",
        &[],
        &test_time_spec(),
        &SpaceSpec::One("bogus".to_string()),
        "hardcoded",
        None,
        &kernel,
    ) {
        Err(Error::DataSwitch(rove::data_switch::Error::InvalidSeriesId(id))) => {
            assert_eq!(id, "bogus")
        }
        other => panic!("expected the connector's own error, got {:?}", other),
    }
}
