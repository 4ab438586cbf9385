use ivy_dated::order::{precedes, sort_by_name};
use ivy_dated::parse::{Dependency, ParseError, Parser};
use ivy_dated::resolve::{ResolveError, Resolver, Version};
use ivy_dated::run::{Report, Request, Run, PAUSE_MILLIS};
use ivy_dated::verdict::{Classification, Stats};
use std::cell::RefCell;
use std::path::PathBuf;

fn dep(org: &str, name: Option<&str>, module: Option<&str>, rev: &str) -> Dependency {
    Dependency {
        org: org.into(),
        name: name.map(String::from),
        module: module.map(String::from),
        rev: rev.into(),
    }
}

fn version(group: &str, artifact: &str, v: &str, publish_time: i64) -> Version {
    Version { group: group.into(), artifact: artifact.into(), version: v.into(), publish_time }
}

struct FixedParser(Result<Vec<Dependency>, ParseError>);

impl Parser for FixedParser {
    fn parse(&self, _path: PathBuf) -> Result<Vec<Dependency>, ParseError> {
        self.0.clone()
    }
}

struct Registry {
    latest: Vec<(&'static str, &'static str, &'static str, i64)>,
    pinned: Vec<(&'static str, &'static str, &'static str, i64)>,
    failing: Option<ResolveError>,
    calls: RefCell<Vec<String>>,
}

impl Resolver for Registry {
    fn version_info(
        &self,
        group: String,
        artifact: String,
        version: String,
    ) -> Result<Option<Version>, ResolveError> {
        self.calls.borrow_mut().push(format!("pinned {}/{}@{}", group, artifact, version));
        if let Some(e) = self.failing {
            return Err(e);
        }
        Ok(self
            .pinned
            .iter()
            .find(|(g, a, v, _)| *g == group && *a == artifact && *v == version)
            .map(|(g, a, v, t)| self::version(g, a, v, *t)))
    }

    fn latest_version(
        &self,
        group: String,
        artifact: String,
    ) -> Result<Option<Version>, ResolveError> {
        self.calls.borrow_mut().push(format!("latest {}/{}", group, artifact));
        if let Some(e) = self.failing {
            return Err(e);
        }
        Ok(self
            .latest
            .iter()
            .find(|(g, a, _, _)| *g == group && *a == artifact)
            .map(|(g, a, v, t)| self::version(g, a, v, *t)))
    }
}

#[test]
fn sorting_is_by_display_name() {
    let deps = vec![
        dep("org.b", Some("x"), None, "1"),
        dep("org.a", None, Some("z"), "2"),
        dep("org.a", Some("y"), None, "3"),
        dep("org.a", None, None, "4"),
    ];
    let sorted = sort_by_name(deps);
    let names: Vec<String> = sorted.iter().map(|d| d.fullname()).collect();
    assert_eq!(names, vec!["org.a/?", "org.a/y", "org.a/z", "org.b/x"]);
}

#[test]
fn sorting_keeps_every_dependency() {
    let deps = vec![
        dep("c", Some("1"), None, "r1"),
        dep("a", Some("1"), None, "r2"),
        dep("b", Some("1"), None, "r3"),
        dep("a", Some("1"), None, "r4"),
    ];
    let sorted = sort_by_name(deps.clone());
    assert_eq!(sorted.len(), deps.len());
    for d in &deps {
        assert_eq!(
            sorted.iter().filter(|s| *s == d).count(),
            deps.iter().filter(|s| *s == d).count()
        );
    }
    for pair in sorted.windows(2) {
        assert!(pair[0].fullname() <= pair[1].fullname());
    }
}

#[test]
fn dependencies_of_one_name_keep_their_order() {
    let deps = vec![
        dep("a", Some("lib"), None, "first"),
        dep("a", None, Some("lib"), "second"),
        dep("a", Some("lib"), Some("other"), "third"),
    ];
    let sorted = sort_by_name(deps.clone());
    assert_eq!(sorted, deps);
}

#[test]
fn sorting_nothing_gives_nothing() {
    assert_eq!(sort_by_name(Vec::new()), Vec::new());
}

#[test]
fn precedes_goes_by_display_name() {
    let a = dep("foo", Some("bar"), None, "9");
    let b = dep("foo", None, Some("baz"), "1");
    assert!(precedes(&a, &b));
    assert!(!precedes(&b, &a));
    assert!(precedes(&a, &a));
    let bare = dep("foo", None, None, "1");
    assert!(precedes(&bare, &a));
}

#[test]
fn run_asks_in_name_order_not_document_order() {
    let mut run = Run::new(vec![
        dep("org.z", Some("last"), None, "1"),
        dep("org.a", Some("first"), None, "2"),
    ]);
    assert_eq!(
        run.request(),
        Some(Request::Pinned {
            group: "org.a".into(),
            artifact: "first".into(),
            version: "2".into(),
        })
    );
    assert!(run.advance(None).is_some());
    assert_eq!(
        run.request(),
        Some(Request::Pinned {
            group: "org.z".into(),
            artifact: "last".into(),
            version: "1".into(),
        })
    );
}

#[test]
fn request_names_module_where_there_is_no_name_and_nothing_where_there_is_neither() {
    let run = Run::new(vec![dep("org", None, Some("mod"), "1")]);
    assert_eq!(
        run.request(),
        Some(Request::Pinned { group: "org".into(), artifact: "mod".into(), version: "1".into() })
    );
    let run = Run::new(vec![dep("org", None, None, "1")]);
    assert_eq!(
        run.request(),
        Some(Request::Pinned { group: "org".into(), artifact: "".into(), version: "1".into() })
    );
}

#[test]
fn request_url_is_that_of_its_lookup() {
    let pinned =
        Request::Pinned { group: "g".into(), artifact: "a".into(), version: "1 0".into() };
    assert_eq!(
        pinned.url(),
        "http://search.maven.org/solrsearch/select?q=g:%22g%22+AND+a:%22a%22+AND+v:%221%200%22&wt=json"
    );
    let latest = Request::Latest { group: "g".into(), artifact: "a".into() };
    assert_eq!(
        latest.url(),
        "http://search.maven.org/solrsearch/select?q=g:%22g%22+AND+a:%22a%22&wt=json&core=gav"
    );
}

#[test]
fn pinned_lookup_without_documents_is_unknown() {
    let d = dep("org", Some("lib"), None, "1.2.0");
    let mut run = Run::new(vec![d.clone()]);
    let report = run.advance(None);
    assert_eq!(
        report,
        Some(Report {
            dependency: d,
            classification: Classification::Unknown,
            pinned: None,
            latest: None,
        })
    );
    assert_eq!(run.stats(), Stats { dated: 0, current: 0, unknown: 1 });
    assert!(run.is_finished());
    assert_eq!(run.request(), None);
}

#[test]
fn found_pinned_version_leads_to_latest_lookup() {
    let mut run = Run::new(vec![dep("org", Some("lib"), None, "1.2.0")]);
    let report = run.advance(Some(version("org", "lib", "1.2.0", 10)));
    assert_eq!(report, None);
    assert!(!run.is_finished());
    assert_eq!(run.stats(), Stats::default());
    assert_eq!(
        run.request(),
        Some(Request::Latest { group: "org".into(), artifact: "lib".into() })
    );
}

#[test]
fn same_pinned_and_latest_version_is_reported_current() {
    let d = dep("org", Some("lib"), None, "1.2.0");
    let mut run = Run::new(vec![d.clone()]);
    let t1 = 1_546_300_800;
    assert_eq!(run.advance(Some(version("org", "lib", "1.2.0", t1))), None);
    let report = run.advance(Some(version("org", "lib", "1.2.0", t1)));
    assert_eq!(
        report,
        Some(Report {
            dependency: d,
            classification: Classification::Current,
            pinned: Some(version("org", "lib", "1.2.0", t1)),
            latest: Some(version("org", "lib", "1.2.0", t1)),
        })
    );
    assert_eq!(run.stats(), Stats { dated: 0, current: 1, unknown: 0 });
}

#[test]
fn later_latest_version_is_reported_dated() {
    let d = dep("org", Some("lib"), None, "1.2.0");
    let mut run = Run::new(vec![d.clone()]);
    assert_eq!(run.advance(Some(version("org", "lib", "1.2.0", 1_000))), None);
    let report = run.advance(Some(version("org", "lib", "1.3.0", 4_600))).unwrap();
    assert_eq!(report.classification, Classification::Dated { lag: -3_600 });
    assert_eq!(report.pinned, Some(version("org", "lib", "1.2.0", 1_000)));
    assert_eq!(report.latest, Some(version("org", "lib", "1.3.0", 4_600)));
    assert_eq!(run.stats(), Stats { dated: 1, current: 0, unknown: 0 });
}

#[test]
fn missing_latest_version_is_reported_unknown() {
    let mut run = Run::new(vec![dep("org", Some("lib"), None, "1.2.0")]);
    assert_eq!(run.advance(Some(version("org", "lib", "1.2.0", 1_000))), None);
    let report = run.advance(None).unwrap();
    assert_eq!(report.classification, Classification::Unknown);
    assert_eq!(report.pinned, Some(version("org", "lib", "1.2.0", 1_000)));
    assert_eq!(report.latest, None);
    assert_eq!(run.stats(), Stats { dated: 0, current: 0, unknown: 1 });
    assert!(run.is_finished());
}

#[test]
fn run_pauses_between_lookups_only() {
    let mut run = Run::new(vec![dep("a", Some("x"), None, "1"), dep("b", Some("y"), None, "1")]);
    assert_eq!(run.delay_millis(), 0);
    run.advance(Some(version("a", "x", "1", 1)));
    assert_eq!(run.delay_millis(), PAUSE_MILLIS);
    assert_eq!(PAUSE_MILLIS, 200);
    run.advance(Some(version("a", "x", "1", 1)));
    assert_eq!(run.delay_millis(), 200);
    run.advance(None);
    assert!(run.is_finished());
    assert_eq!(run.delay_millis(), 0);
}

#[test]
fn empty_run_is_finished_at_once() {
    let mut run = Run::new(Vec::new());
    assert!(run.is_finished());
    assert_eq!(run.request(), None);
    assert_eq!(run.delay_millis(), 0);
    assert_eq!(run.advance(Some(version("g", "a", "1", 1))), None);
    assert_eq!(run.stats(), Stats::default());
}

#[test]
fn finished_run_ignores_further_answers() {
    let mut run = Run::new(vec![dep("a", Some("x"), None, "1")]);
    run.advance(None);
    assert!(run.is_finished());
    assert_eq!(run.advance(None), None);
    assert_eq!(run.advance(Some(version("a", "x", "1", 1))), None);
    assert_eq!(run.stats(), Stats { dated: 0, current: 0, unknown: 1 });
    assert_eq!(run.request(), None);
}

#[test]
fn malformed_manifest_begins_no_run() {
    assert!(matches!(Run::begin(Err(ParseError::Format)), Err(ParseError::Format)));
    assert!(matches!(Run::begin(Err(ParseError::Io)), Err(ParseError::Io)));
    let run = Run::begin(Ok(vec![dep("a", Some("x"), None, "1")])).unwrap();
    assert!(!run.is_finished());
}

#[test]
fn failed_parse_makes_no_lookup() {
    let registry =
        Registry { latest: vec![], pinned: vec![], failing: None, calls: RefCell::new(vec![]) };
    let loaded = Run::load(&FixedParser(Err(ParseError::Format)), PathBuf::from("ivy.xml"));
    assert!(matches!(loaded, Err(ParseError::Format)));
    assert!(registry.calls.borrow().is_empty());
    let loaded = Run::load(&FixedParser(Err(ParseError::Io)), PathBuf::from("missing.xml"));
    assert!(matches!(loaded, Err(ParseError::Io)));
}

#[test]
fn whole_run_through_a_resolver() {
    let registry = Registry {
        pinned: vec![("org.a", "cur", "1.0", 100), ("org.b", "old", "1.2.0", 1_000)],
        latest: vec![("org.a", "cur", "1.0", 100), ("org.b", "old", "1.3.0", 5_000)],
        failing: None,
        calls: RefCell::new(vec![]),
    };
    let parser = FixedParser(Ok(vec![
        dep("org.c", Some("gone"), None, "0.1"),
        dep("org.b", None, Some("old"), "1.2.0"),
        dep("org.a", Some("cur"), None, "1.0"),
    ]));
    let mut run = Run::load(&parser, PathBuf::from("ivy.xml")).unwrap();
    let mut reports = Vec::new();
    let mut delays = Vec::new();
    while !run.is_finished() {
        delays.push(run.delay_millis());
        if let Some(report) = run.settle(&registry).unwrap() {
            reports.push(report);
        }
    }
    assert_eq!(
        *registry.calls.borrow(),
        vec![
            "pinned org.a/cur@1.0",
            "latest org.a/cur",
            "pinned org.b/old@1.2.0",
            "latest org.b/old",
            "pinned org.c/gone@0.1",
        ]
    );
    assert_eq!(delays, vec![0, 200, 200, 200, 200]);
    let verdicts: Vec<(String, Classification)> =
        reports.iter().map(|r| (r.dependency.fullname(), r.classification)).collect();
    assert_eq!(
        verdicts,
        vec![
            ("org.a/cur".to_string(), Classification::Current),
            ("org.b/old".to_string(), Classification::Dated { lag: -4_000 }),
            ("org.c/gone".to_string(), Classification::Unknown),
        ]
    );
    assert_eq!(run.stats(), Stats { dated: 1, current: 1, unknown: 1 });
    assert_eq!(run.stats().summary(), "Dated: 1 Current: 1 Unknown: 1");
    assert_eq!(run.settle(&registry), Ok(None));
    assert_eq!(registry.calls.borrow().len(), 5);
}

#[test]
fn failed_lookup_leaves_the_run_as_it_is() {
    let mut registry = Registry {
        pinned: vec![("org", "lib", "1", 1)],
        latest: vec![("org", "lib", "2", 2)],
        failing: Some(ResolveError::Network),
        calls: RefCell::new(vec![]),
    };
    let mut run = Run::new(vec![dep("org", Some("lib"), None, "1")]);
    assert_eq!(run.settle(&registry), Err(ResolveError::Network));
    assert_eq!(run.stats(), Stats::default());
    assert_eq!(
        run.request(),
        Some(Request::Pinned { group: "org".into(), artifact: "lib".into(), version: "1".into() })
    );
    registry.failing = None;
    assert_eq!(run.settle(&registry), Ok(None));
    registry.failing = Some(ResolveError::Decode);
    assert_eq!(run.settle(&registry), Err(ResolveError::Decode));
    assert_eq!(
        run.request(),
        Some(Request::Latest { group: "org".into(), artifact: "lib".into() })
    );
    registry.failing = None;
    let report = run.settle(&registry).unwrap().unwrap();
    assert_eq!(report.classification, Classification::Dated { lag: -1 });
    assert!(run.is_finished());
}

#[test]
fn finished_run_settles_without_asking() {
    let registry = Registry {
        pinned: vec![],
        latest: vec![],
        failing: Some(ResolveError::Network),
        calls: RefCell::new(vec![]),
    };
    let mut empty = Run::new(Vec::new());
    assert_eq!(empty.settle(&registry), Ok(None));
    assert!(empty.is_finished());
    assert_eq!(empty.stats(), Stats::default());
    let mut run = Run::new(vec![dep("org", Some("lib"), None, "1")]);
    assert!(run.advance(None).is_some());
    assert_eq!(run.settle(&registry), Ok(None));
    assert_eq!(run.stats(), Stats { dated: 0, current: 0, unknown: 1 });
    assert!(registry.calls.borrow().is_empty());
}
