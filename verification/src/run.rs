//! A run over a manifest, one registry lookup at a time.
//!
//! The run decides; its caller acts. The caller asks the run for the next
//! lookup, waits as long as the run says, makes the lookup, and hands the
//! answer back. The run then moves on, and says what to report.

use vstd::prelude::*;
use vstd::string::*;
use crate::order::{by_name, by_name_sorts, in_name_order, sort_by_name};
use crate::parse::{Dependency, DependencyModel, ParseError, Parser};
use crate::resolve::{
    latest_query, latest_url, pinned_query, pinned_url, ResolveError, Resolver, Version,
    VersionModel,
};
use crate::verdict::{classification, classify, Classification, Stats};

verus! {

/// The pause between two lookups, in milliseconds.
pub const PAUSE_MILLIS: u64 = 200;

/// What a [`Request`] stands for.
pub enum RequestModel {
    Pinned { group: Seq<char>, artifact: Seq<char>, version: Seq<char> },
    Latest { group: Seq<char>, artifact: Seq<char> },
}

impl RequestModel {
    /// The address at which the registry answers the lookup.
    pub open spec fn address(self) -> Seq<char> {
        match self {
            RequestModel::Pinned { group, artifact, version } => pinned_query(
                group,
                artifact,
                version,
            ),
            RequestModel::Latest { group, artifact } => latest_query(group, artifact),
        }
    }
}

/// A lookup that a run asks for.
#[derive(Debug, PartialEq, Eq)]
pub enum Request {
    /// The version of an artifact that the manifest pins.
    Pinned { group: String, artifact: String, version: String },
    /// The version of an artifact that was published last.
    Latest { group: String, artifact: String },
}

impl View for Request {
    type V = RequestModel;

    open spec fn view(&self) -> RequestModel {
        match self {
            Request::Pinned { group, artifact, version } => RequestModel::Pinned {
                group: group@,
                artifact: artifact@,
                version: version@,
            },
            Request::Latest { group, artifact } => RequestModel::Latest {
                group: group@,
                artifact: artifact@,
            },
        }
    }
}

impl DeepView for Request {
    type V = RequestModel;

    open spec fn deep_view(&self) -> RequestModel {
        self@
    }
}

impl Request {
    /// The address at which the registry answers the lookup.
    pub fn url(&self) -> (url: String)
        ensures
            url@ == self@.address(),
    {
        match self {
            Request::Pinned { group, artifact, version } => pinned_url(
                group.as_str(),
                artifact.as_str(),
                version.as_str(),
            ),
            Request::Latest { group, artifact } => latest_url(group.as_str(), artifact.as_str()),
        }
    }
}

/// What a [`Report`] stands for.
pub struct ReportModel {
    pub dependency: DependencyModel,
    pub classification: Classification,
    pub pinned: Option<VersionModel>,
    pub latest: Option<VersionModel>,
}

/// The judgement on one dependency, with the versions it rests on.
#[derive(Debug, PartialEq, Eq)]
pub struct Report {
    pub dependency: Dependency,
    pub classification: Classification,
    pub pinned: Option<Version>,
    pub latest: Option<Version>,
}

impl View for Report {
    type V = ReportModel;

    open spec fn view(&self) -> ReportModel {
        ReportModel {
            dependency: self.dependency@,
            classification: self.classification,
            pinned: self.pinned.deep_view(),
            latest: self.latest.deep_view(),
        }
    }
}

impl DeepView for Report {
    type V = ReportModel;

    open spec fn deep_view(&self) -> ReportModel {
        self@
    }
}

/// The artifact that the registry is asked about: the artifact identifier of
/// the dependency, or the empty text where it has none.
pub open spec fn queried_artifact(d: DependencyModel) -> Seq<char> {
    match d.artifact() {
        Some(a) => a,
        None => Seq::empty(),
    }
}

/// What a [`Run`] stands for: the dependencies in the order of the run, how
/// many of them are judged, the pinned version of the next one where the
/// registry has found it, and the tally so far.
pub struct RunModel {
    pub queue: Seq<DependencyModel>,
    pub done: nat,
    pub pinned: Option<VersionModel>,
    pub stats: Stats,
}

impl RunModel {
    /// The run over `deps` before its first lookup.
    pub open spec fn start(deps: Seq<DependencyModel>) -> RunModel {
        RunModel {
            queue: by_name(deps),
            done: 0,
            pinned: None,
            stats: Stats { dated: 0, current: 0, unknown: 0 },
        }
    }

    /// What holds of every run: its dependencies are in name order, each
    /// judged dependency is counted once, and a pinned version is held only
    /// for a dependency that is still to be judged.
    pub open spec fn wf(self) -> bool {
        &&& in_name_order(self.queue)
        &&& self.queue.len() <= usize::MAX
        &&& self.done <= self.queue.len()
        &&& self.stats.total() == self.done
        &&& self.pinned is Some ==> self.done < self.queue.len()
    }

    /// Whether every dependency is judged.
    pub open spec fn finished(self) -> bool {
        self.done >= self.queue.len()
    }

    /// The lookup that the run waits for: none once it is finished; else,
    /// for the first dependency not yet judged, the pinned version, or the
    /// latest version once the pinned one is found.
    pub open spec fn request(self) -> Option<RequestModel> {
        if self.finished() {
            None
        } else {
            let d = self.queue[self.done as int];
            match self.pinned {
                None => Some(
                    RequestModel::Pinned {
                        group: d.org,
                        artifact: queried_artifact(d),
                        version: d.rev,
                    },
                ),
                Some(_) => Some(
                    RequestModel::Latest { group: d.org, artifact: queried_artifact(d) },
                ),
            }
        }
    }

    /// The pause before the lookup that the run waits for: none before the
    /// first lookup of a run and none once it is finished, else
    /// [`PAUSE_MILLIS`].
    pub open spec fn delay_millis(self) -> nat {
        if self.finished() || (self.done == 0 && self.pinned is None) {
            0
        } else {
            PAUSE_MILLIS as nat
        }
    }

    /// The report that the answer `reply` to the awaited lookup gives rise
    /// to. A pinned version that is found gives none yet: the latest version
    /// is still to be looked up. Any other answer settles the dependency.
    pub open spec fn report(self, reply: Option<VersionModel>) -> Option<ReportModel> {
        if self.finished() {
            None
        } else {
            let d = self.queue[self.done as int];
            match self.pinned {
                None => match reply {
                    Some(_) => None,
                    None => Some(
                        ReportModel {
                            dependency: d,
                            classification: Classification::Unknown,
                            pinned: None,
                            latest: None,
                        },
                    ),
                },
                Some(p) => Some(
                    ReportModel {
                        dependency: d,
                        classification: classification(Some(p), reply),
                        pinned: Some(p),
                        latest: reply,
                    },
                ),
            }
        }
    }

    /// The run after the answer `reply` to the awaited lookup. A finished
    /// run stays as it is.
    pub open spec fn step(self, reply: Option<VersionModel>) -> RunModel {
        match self.report(reply) {
            Some(r) => RunModel {
                queue: self.queue,
                done: self.done + 1,
                pinned: None,
                stats: self.stats.with(r.classification),
            },
            None => if self.finished() {
                self
            } else {
                RunModel { pinned: reply, ..self }
            },
        }
    }
}

/// A run over the dependencies of a manifest.
pub struct Run {
    queue: Vec<Dependency>,
    done: usize,
    pinned: Option<Version>,
    stats: Stats,
}

impl View for Run {
    type V = RunModel;

    closed spec fn view(&self) -> RunModel {
        RunModel {
            queue: self.queue.deep_view(),
            done: self.done as nat,
            pinned: self.pinned.deep_view(),
            stats: self.stats,
        }
    }
}

impl Run {
    /// Begins a run over `deps`, which it puts in name order.
    pub fn new(deps: Vec<Dependency>) -> (run: Run)
        ensures
            run@ == RunModel::start(deps.deep_view()),
            run@.wf(),
    {
        proof {
            by_name_sorts(deps.deep_view());
        }
        let queue = sort_by_name(deps);
        assert(queue.deep_view().len() == queue.len());
        Run { queue, done: 0, pinned: None, stats: Stats { dated: 0, current: 0, unknown: 0 } }
    }

    /// Begins a run over the outcome of parsing a manifest. A manifest that
    /// did not parse begins no run: the error comes back, and nothing is
    /// looked up.
    pub fn begin(parsed: Result<Vec<Dependency>, ParseError>) -> (begun: Result<Run, ParseError>)
        ensures
            match parsed {
                Ok(deps) => begun matches Ok(run) && run@ == RunModel::start(deps.deep_view())
                    && run@.wf(),
                Err(e) => begun == Err::<Run, ParseError>(e),
            },
    {
        match parsed {
            Ok(deps) => Ok(Run::new(deps)),
            Err(e) => Err(e),
        }
    }

    /// Begins a run over the manifest at `path`, as `parser` reads it. Where
    /// the parser fails, its error comes back and no run begins.
    pub fn load<P: Parser>(parser: &P, path: std::path::PathBuf) -> (loaded: Result<
        Run,
        ParseError,
    >)
        ensures
            loaded matches Ok(run) ==> run@.wf() && exists|deps: Seq<DependencyModel>|
                run@ == #[trigger] RunModel::start(deps),
    {
        Run::begin(parser.parse(path))
    }

    /// Whether every dependency is judged.
    pub fn is_finished(&self) -> (finished: bool)
        ensures
            finished == self@.finished(),
    {
        self.done >= self.queue.len()
    }

    /// The tally of the judgements so far.
    pub fn stats(&self) -> (stats: Stats)
        ensures
            stats == self@.stats,
    {
        self.stats
    }

    /// The lookup that the run waits for, or none once it is finished.
    pub fn request(&self) -> (request: Option<Request>)
        ensures
            request.deep_view() == self@.request(),
    {
        if self.done >= self.queue.len() {
            return None;
        }
        let d = &self.queue[self.done];
        assert(d@ == self@.queue[self.done as int]);
        let artifact = match d.artifact() {
            Some(a) => a.clone(),
            None => String::new(),
        };
        match &self.pinned {
            None => Some(
                Request::Pinned { group: d.org.clone(), artifact, version: d.rev.clone() },
            ),
            Some(_) => Some(Request::Latest { group: d.org.clone(), artifact }),
        }
    }

    /// How long to wait before the lookup that the run waits for, in
    /// milliseconds.
    pub fn delay_millis(&self) -> (millis: u64)
        ensures
            millis == self@.delay_millis(),
    {
        if self.done >= self.queue.len() || (self.done == 0 && self.pinned.is_none()) {
            0
        } else {
            PAUSE_MILLIS
        }
    }

    /// Takes the answer to the awaited lookup, moves the run on, and gives
    /// the report on the dependency where the answer settles it.
    pub fn advance(&mut self, reply: Option<Version>) -> (report: Option<Report>)
        requires
            old(self)@.wf(),
        ensures
            final(self)@ == old(self)@.step(reply.deep_view()),
            final(self)@.wf(),
            report.deep_view() == old(self)@.report(reply.deep_view()),
    {
        if self.done >= self.queue.len() {
            return None;
        }
        assert(self.queue[self.done as int]@ == self@.queue[self.done as int]);
        let pinned = self.pinned.take();
        if pinned.is_none() && reply.is_some() {
            self.pinned = reply;
            return None;
        }
        let c = classify(&pinned, &reply);
        let dependency = self.queue[self.done].clone();
        self.stats.record(c);
        self.done = self.done + 1;
        let latest = if pinned.is_none() {
            None
        } else {
            reply
        };
        Some(Report { dependency, classification: c, pinned, latest })
    }

    /// Makes the awaited lookup through `resolver` and takes its answer as
    /// [`Run::advance`] does. Where the lookup fails, its error comes back
    /// and the run stays as it is. A finished run looks nothing up: it
    /// succeeds with no report, whatever the resolver would answer.
    pub fn settle<R: Resolver>(&mut self, resolver: &R) -> (settled: Result<
        Option<Report>,
        ResolveError,
    >)
        requires
            old(self)@.wf(),
        ensures
            final(self)@.wf(),
            old(self)@.finished() ==> settled == Ok::<Option<Report>, ResolveError>(None)
                && final(self)@ == old(self)@,
            match settled {
                Ok(report) => exists|reply: Option<VersionModel>|
                    final(self)@ == #[trigger] old(self)@.step(reply) && report.deep_view() == old(
                        self,
                    )@.report(reply),
                Err(_) => final(self)@ == old(self)@,
            },
    {
        let answer = match self.request() {
            None => {
                assert(self@ == self@.step(None));
                return Ok(None);
            },
            Some(Request::Pinned { group, artifact, version }) => resolver.version_info(
                group,
                artifact,
                version,
            ),
            Some(Request::Latest { group, artifact }) => resolver.latest_version(group, artifact),
        };
        match answer {
            Ok(found) => {
                let ghost reply = found.deep_view();
                let report = self.advance(found);
                assert(self@ == old(self)@.step(reply));
                Ok(report)
            },
            Err(e) => Err(e),
        }
    }
}

/// A run keeps its dependencies and their order, and never goes back: each
/// answer settles the dependency in turn or none.
pub proof fn step_goes_forward(run: RunModel, reply: Option<VersionModel>)
    requires
        run.wf(),
    ensures
        run.step(reply).wf(),
        run.step(reply).queue == run.queue,
        run.step(reply).done == run.done || run.step(reply).done == run.done + 1,
        run.step(reply).done == run.done + 1 <==> run.report(reply) is Some,
{
}

/// The lookups of a run come in name order: the dependency that the awaited
/// lookup is about has a display name no smaller than that of any dependency
/// judged before, and the queue holds the dependencies of the manifest, each
/// as often as there.
pub proof fn lookups_in_name_order(deps: Seq<DependencyModel>, run: RunModel, earlier: int)
    requires
        run.wf(),
        run.queue == RunModel::start(deps).queue,
        !run.finished(),
        0 <= earlier < run.done,
    ensures
        crate::order::name_le(run.queue[earlier], run.queue[run.done as int]),
        run.queue.to_multiset() == deps.to_multiset(),
        run.request() is Some,
{
    by_name_sorts(deps);
}

/// A pinned lookup that finds nothing settles the dependency as `Unknown`:
/// it is counted as such, and no latest version is looked up for it.
pub proof fn unknown_when_not_found(run: RunModel)
    requires
        run.wf(),
        !run.finished(),
        run.pinned is None,
    ensures
        run.report(None) matches Some(r) && r.classification == Classification::Unknown,
        run.step(None).done == run.done + 1,
        run.step(None).pinned is None,
        run.step(None).stats.unknown == run.stats.unknown + 1,
        run.step(None).stats.dated == run.stats.dated,
        run.step(None).stats.current == run.stats.current,
{
}

/// A finished run has judged every dependency once: the three counts add up
/// to the number of dependencies.
pub proof fn finished_run_counts_all(run: RunModel)
    requires
        run.wf(),
        run.finished(),
    ensures
        run.stats.total() == run.queue.len(),
        run.request() is None,
{
}

} // verus!
