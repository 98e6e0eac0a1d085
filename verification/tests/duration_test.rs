use rove::data_switch::{TimeSpec, Timestamp};
use rove::duration::{dhms_to_duration, parse_duration};
use rove::RelativeDuration;

#[test]
fn test_parse_duration() {
    [
        ("P1YT1S", RelativeDuration::months(12).with_seconds(1)),
        (
            "P2Y2M2DT2H2M2S",
            RelativeDuration::months(2 * 12 + 2).with_seconds(dhms_to_duration(2, 2, 2, 2)),
        ),
        ("P1M", RelativeDuration::months(1).with_seconds(0)),
        ("PT10M", RelativeDuration::minutes(10)),
    ]
    .into_iter()
    .for_each(|(input, expected)| assert_eq!(parse_duration(input).unwrap(), expected))
}

#[test]
fn test_parse_duration_empty_is_zero() {
    assert_eq!(parse_duration("P").unwrap(), RelativeDuration::zero());
    assert_eq!(parse_duration("PT").unwrap(), RelativeDuration::zero());
}

#[test]
fn test_parse_duration_rejects_malformed() {
    // no `P` prefix
    assert!(parse_duration("1Y").is_err());
    assert!(parse_duration("").is_err());
    // trailing characters after the last field
    assert!(parse_duration("P1Yx").is_err());
    assert!(parse_duration("PT10Mx").is_err());
    // a field that is not an integer
    assert!(parse_duration("PxY").is_err());
    assert!(parse_duration("PT1.5S").is_err());
    // a field out of the 32-bit range
    assert!(parse_duration("P99999999999M").is_err());
}

#[test]
fn test_parse_duration_negative_fields() {
    assert_eq!(parse_duration("P-1M").unwrap(), RelativeDuration::months(-1));
    assert_eq!(
        parse_duration("PT-10S").unwrap(),
        RelativeDuration::seconds(-10)
    );
}

#[test]
fn test_iso8601_round_trip() {
    let cases = [
        RelativeDuration::zero(),
        RelativeDuration::months(1),
        RelativeDuration::months(26).with_seconds(181322),
        RelativeDuration::minutes(10),
        RelativeDuration::seconds(2147483647),
    ];
    for d in cases {
        let text = d.to_iso8601();
        assert_eq!(parse_duration(&text).unwrap(), d);
    }
    assert_eq!(
        RelativeDuration::months(7).with_seconds(3661).to_iso8601(),
        "P7MT3661S"
    );
}

#[test]
fn test_time_resolution_spec_matches_parser() {
    let ts = TimeSpec::new_time_resolution_string(Timestamp(0), Timestamp(3600), "PT5M").unwrap();
    assert_eq!(ts.time_resolution, RelativeDuration::minutes(5));
    assert_eq!(ts.timerange.start, Timestamp(0));
    assert_eq!(ts.timerange.end, Timestamp(3600));
    assert!(TimeSpec::new_time_resolution_string(Timestamp(0), Timestamp(1), "5 minutes").is_err());
}
