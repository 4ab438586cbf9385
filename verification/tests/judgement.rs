use ivy_dated::resolve::Version;
use ivy_dated::verdict::{classify, Classification, Stats};

fn version(v: &str, publish_time: i64) -> Version {
    Version {
        group: "org.example".into(),
        artifact: "lib".into(),
        version: v.into(),
        publish_time,
    }
}

#[test]
fn same_version_is_current() {
    let t1 = 1_546_300_800;
    let c = classify(&Some(version("1.2.0", t1)), &Some(version("1.2.0", t1)));
    assert_eq!(c, Classification::Current);
}

#[test]
fn same_version_is_current_whatever_the_times() {
    let c = classify(&Some(version("1.2.0", 5)), &Some(version("1.2.0", 900)));
    assert_eq!(c, Classification::Current);
}

#[test]
fn older_pinned_version_is_dated_with_negative_lag() {
    let t1 = 1_546_300_800;
    let t2 = 1_577_836_800;
    let c = classify(&Some(version("1.2.0", t1)), &Some(version("1.3.0", t2)));
    assert_eq!(c, Classification::Dated { lag: -31_536_000 });
}

#[test]
fn lag_is_pinned_minus_latest() {
    let c = classify(&Some(version("2", 100)), &Some(version("1", 40)));
    assert_eq!(c, Classification::Dated { lag: 60 });
    let c = classify(&Some(version("2", 7)), &Some(version("1", 7)));
    assert_eq!(c, Classification::Dated { lag: 0 });
}

#[test]
fn lag_does_not_overflow() {
    let c = classify(&Some(version("a", i64::MIN)), &Some(version("b", i64::MAX)));
    assert_eq!(c, Classification::Dated { lag: -18_446_744_073_709_551_615 });
    let c = classify(&Some(version("a", i64::MAX)), &Some(version("b", i64::MIN)));
    assert_eq!(c, Classification::Dated { lag: 18_446_744_073_709_551_615 });
}

#[test]
fn missing_pinned_version_is_unknown() {
    assert_eq!(classify(&None, &None), Classification::Unknown);
    assert_eq!(classify(&None, &Some(version("1.3.0", 1))), Classification::Unknown);
}

#[test]
fn missing_latest_version_is_unknown() {
    assert_eq!(classify(&Some(version("1.2.0", 1)), &None), Classification::Unknown);
}

#[test]
fn empty_versions_on_both_sides_are_current() {
    let c = classify(&Some(version("", 1)), &Some(version("", 2)));
    assert_eq!(c, Classification::Current);
}

#[test]
fn stats_start_at_zero() {
    assert_eq!(Stats::default(), Stats { dated: 0, current: 0, unknown: 0 });
}

#[test]
fn stats_count_each_judgement_once() {
    let mut stats = Stats::default();
    stats.record(Classification::Current);
    assert_eq!(stats, Stats { dated: 0, current: 1, unknown: 0 });
    stats.record(Classification::Dated { lag: -5 });
    assert_eq!(stats, Stats { dated: 1, current: 1, unknown: 0 });
    stats.record(Classification::Unknown);
    assert_eq!(stats, Stats { dated: 1, current: 1, unknown: 1 });
    stats.record(Classification::Current);
    assert_eq!(stats, Stats { dated: 1, current: 2, unknown: 1 });
}

#[test]
fn summary_names_the_three_counts() {
    assert_eq!(Stats::default().summary(), "Dated: 0 Current: 0 Unknown: 0");
    let stats = Stats { dated: 3, current: 12, unknown: 105 };
    assert_eq!(stats.summary(), "Dated: 3 Current: 12 Unknown: 105");
}
