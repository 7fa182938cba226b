//! The resolution as a sequence of steps. Each step names the one thing the
//! caller has to do next; the caller does it and reports what came of it.

use vstd::prelude::*;
use crate::config::{
    opt_text, Backend, Capabilities, Config, ConfigView, GitRepo, GitRepoView, Library,
    SourceDir, SourceDirView,
};
use crate::error::{BackendError, BackendErrorView, BuildError, BuildErrorView, Source, SourceView};
use crate::link::{LibraryInfo, LinkView};
use crate::laws::lemma_run_is_plan;
use crate::plan::{
    backend_view, local_ready, located_local, opt_link, outcome, probe_runs, remote_ready,
    request_for, result_view, trace, why_skipped, Answers, AnswersView, ProbeKind, ProbeRequest,
    ProbeRequestView,
};
use crate::record::{Record, Stage, Why};

verus! {

/// A resolution that waits for the answer of a system probe.
pub struct Probing<'a> {
    config: &'a Config,
    caps: Capabilities,
    kind: ProbeKind,
    library: &'a Library,
}

/// Mathematical content of a [`Probing`].
pub struct ProbingView {
    pub config: ConfigView,
    pub caps: Capabilities,
    pub kind: ProbeKind,
}

/// A resolution that waits to learn whether the local source directory exists.
pub struct Locating<'a> {
    config: &'a Config,
    dir: &'a SourceDir,
}

/// Mathematical content of a [`Locating`].
pub struct LocatingView {
    pub config: ConfigView,
}

/// A resolution that waits for the checkout of the remote repository.
pub struct Fetching<'a> {
    config: &'a Config,
    repo: &'a GitRepo,
}

/// Mathematical content of a [`Fetching`].
pub struct FetchingView {
    pub config: ConfigView,
}

/// A resolution that waits for the backend to build the located source.
pub struct Building<'a> {
    config: &'a Config,
    dir: String,
}

/// Mathematical content of a [`Building`].
pub struct BuildingView {
    pub config: ConfigView,
    pub dir: Seq<char>,
}

/// What the caller has to do next.
pub enum Next<'a> {
    /// Ask a system probe.
    Probe(Probing<'a>),
    /// Check the local source directory.
    Locate(Locating<'a>),
    /// Fetch the remote repository.
    Fetch(Fetching<'a>),
    /// Run the build backend.
    Build(Building<'a>),
    /// Nothing: the resolution has ended.
    Done(Result<LibraryInfo, BuildError>),
}

/// Mathematical content of a [`Next`].
pub enum NextView {
    Probe(ProbingView),
    Locate(LocatingView),
    Fetch(FetchingView),
    Build(BuildingView),
    Done(Result<LinkView, BuildErrorView>),
}

/// One step of a resolution: what it reports, and what comes next.
pub struct Step<'a> {
    /// The records of the decisions taken in this step, in order.
    pub log: Vec<Record>,
    pub next: Next<'a>,
}

/// Mathematical content of a [`Step`].
pub struct StepView {
    pub log: Seq<Record>,
    pub next: NextView,
}

impl<'a> View for Probing<'a> {
    type V = ProbingView;

    closed spec fn view(&self) -> ProbingView {
        ProbingView { config: self.config@, caps: self.caps, kind: self.kind }
    }
}

impl<'a> View for Locating<'a> {
    type V = LocatingView;

    closed spec fn view(&self) -> LocatingView {
        LocatingView { config: self.config@ }
    }
}

impl<'a> View for Fetching<'a> {
    type V = FetchingView;

    closed spec fn view(&self) -> FetchingView {
        FetchingView { config: self.config@ }
    }
}

impl<'a> View for Building<'a> {
    type V = BuildingView;

    closed spec fn view(&self) -> BuildingView {
        BuildingView { config: self.config@, dir: self.dir@ }
    }
}

impl<'a> View for Next<'a> {
    type V = NextView;

    open spec fn view(&self) -> NextView {
        match self {
            Next::Probe(p) => NextView::Probe(p@),
            Next::Locate(l) => NextView::Locate(l@),
            Next::Fetch(f) => NextView::Fetch(f@),
            Next::Build(b) => NextView::Build(b@),
            Next::Done(r) => NextView::Done(result_view(*r)),
        }
    }
}

impl<'a> View for Step<'a> {
    type V = StepView;

    open spec fn view(&self) -> StepView {
        StepView { log: self.log@, next: self.next@ }
    }
}

impl ProbingView {
    /// The probe is enabled and there is a library to ask for.
    pub open spec fn wf(self) -> bool {
        probe_runs(self.config, self.caps, self.kind)
    }

    /// What the probe is asked to find.
    pub open spec fn request(self) -> ProbeRequestView {
        request_for(self.config.library->0, self.caps)
    }
}

impl LocatingView {
    /// There is a local source to look for.
    pub open spec fn wf(self) -> bool {
        self.config.source_dir is Some
    }

    /// The local source that is looked for.
    pub open spec fn source(self) -> SourceDirView {
        self.config.source_dir->0
    }
}

impl FetchingView {
    /// There is a remote source to fetch.
    pub open spec fn wf(self) -> bool {
        self.config.git_repo is Some
    }

    /// The remote source that is fetched.
    pub open spec fn source(self) -> GitRepoView {
        self.config.git_repo->0
    }
}

impl NextView {
    /// Every waiting state has what it waits for.
    pub open spec fn wf(self) -> bool {
        match self {
            NextView::Probe(p) => p.wf(),
            NextView::Locate(l) => l.wf(),
            NextView::Fetch(f) => f.wf(),
            NextView::Build(_) => true,
            NextView::Done(_) => true,
        }
    }

    /// How many more answers the resolution may need at most.
    pub open spec fn rank(self) -> nat {
        match self {
            NextView::Probe(p) => match p.kind {
                ProbeKind::PkgConfig => 4,
                ProbeKind::Vcpkg => 3,
            },
            NextView::Locate(_) => 2,
            NextView::Fetch(_) => 2,
            NextView::Build(_) => 1,
            NextView::Done(_) => 0,
        }
    }
}

impl StepView {
    /// The step that ends the resolution with `result`.
    pub open spec fn done(log: Seq<Record>, result: Result<LinkView, BuildErrorView>) -> StepView {
        StepView { log, next: NextView::Done(result) }
    }

    /// The same step, reported after `earlier` records.
    pub open spec fn after(self, earlier: Seq<Record>) -> StepView {
        StepView { log: earlier + self.log, next: self.next }
    }
}

/// The step that reaches the source stages: the local directory is looked for
/// if it is ready, else the remote repository is fetched if it is ready, else
/// the resolution ends for want of a source.
pub open spec fn enter_sources(config: ConfigView, caps: Capabilities) -> StepView {
    if local_ready(config, caps) {
        StepView { log: Seq::empty(), next: NextView::Locate(LocatingView { config }) }
    } else if remote_ready(config, caps) {
        StepView {
            log: seq![Record::Skipped(Stage::LocalSource, why_skipped(caps.source_dir))],
            next: NextView::Fetch(FetchingView { config }),
        }
    } else {
        StepView::done(
            seq![
                Record::Skipped(Stage::LocalSource, why_skipped(caps.source_dir)),
                Record::Skipped(Stage::RemoteSource, why_skipped(caps.git)),
                Record::NoSource,
            ],
            Err(BuildErrorView::NoSourceAvailable),
        )
    }
}

/// The step that reaches the package-manager probe: it is asked if it runs,
/// else passed over for the source stages.
pub open spec fn enter_vcpkg(config: ConfigView, caps: Capabilities) -> StepView {
    if probe_runs(config, caps, ProbeKind::Vcpkg) {
        StepView {
            log: Seq::empty(),
            next: NextView::Probe(ProbingView { config, caps, kind: ProbeKind::Vcpkg }),
        }
    } else {
        enter_sources(config, caps).after(
            seq![Record::Skipped(Stage::Vcpkg, why_skipped(caps.use_vcpkg))],
        )
    }
}

/// The first step of a resolution. It reaches the package-metadata probe: it
/// is asked if it runs, else passed over for the package-manager probe.
pub open spec fn start(config: ConfigView, caps: Capabilities) -> StepView {
    if probe_runs(config, caps, ProbeKind::PkgConfig) {
        StepView {
            log: Seq::empty(),
            next: NextView::Probe(ProbingView { config, caps, kind: ProbeKind::PkgConfig }),
        }
    } else {
        enter_vcpkg(config, caps).after(
            seq![Record::Skipped(Stage::PkgConfig, why_skipped(caps.use_pkgconfig))],
        )
    }
}

/// The step after a probe has answered. What it found ends the resolution at
/// once; when it found nothing, the stage behind it is reached.
pub open spec fn after_probe(p: ProbingView, found: Option<LinkView>) -> StepView {
    match found {
        Some(info) => StepView::done(seq![Record::Found(p.kind.spec_stage())], Ok(info)),
        None => (match p.kind {
            ProbeKind::PkgConfig => enter_vcpkg(p.config, p.caps),
            ProbeKind::Vcpkg => enter_sources(p.config, p.caps),
        }).after(seq![Record::Missed(p.kind.spec_stage())]),
    }
}

/// The step after the local directory was looked for. A directory that exists
/// is handed to the backend; one that does not ends the resolution.
pub open spec fn after_locate(l: LocatingView, exists: bool) -> StepView {
    match located_local(l.source(), exists) {
        Some(dir) => StepView {
            log: seq![Record::Found(Stage::LocalSource)],
            next: NextView::Build(BuildingView { config: l.config, dir }),
        },
        None => StepView::done(
            seq![Record::Missed(Stage::LocalSource)],
            Err(BuildErrorView::SourceResolutionFailed { source: SourceView::Local(l.source()) }),
        ),
    }
}

/// The step after the remote repository was fetched. A checkout is handed to
/// the backend; a failed fetch ends the resolution.
pub open spec fn after_fetch(f: FetchingView, checkout: Option<Seq<char>>) -> StepView {
    match checkout {
        Some(dir) => StepView {
            log: seq![Record::Found(Stage::RemoteSource)],
            next: NextView::Build(BuildingView { config: f.config, dir }),
        },
        None => StepView::done(
            seq![Record::Missed(Stage::RemoteSource)],
            Err(BuildErrorView::SourceResolutionFailed { source: SourceView::Remote(f.source()) }),
        ),
    }
}

/// The last step, after the backend has run: its description is the result,
/// and its failure is reported with the backend and the directory it ran on.
pub open spec fn after_build(b: BuildingView, built: Result<LinkView, BackendErrorView>) -> StepView {
    let backend = b.config.backend.spec_kind();
    match built {
        Ok(info) => StepView::done(seq![Record::Built(backend)], Ok(info)),
        Err(error) => StepView::done(
            seq![Record::BackendFailed(backend)],
            Err(BuildErrorView::BackendExecutionFailed { backend, dir: b.dir, error }),
        ),
    }
}

/// The step that follows `next` when the collaborators answer as `answers`
/// says.
pub open spec fn advance(next: NextView, answers: AnswersView) -> StepView {
    match next {
        NextView::Probe(p) => after_probe(p, answers.probe(p.kind)),
        NextView::Locate(l) => after_locate(l, answers.local_exists),
        NextView::Fetch(f) => after_fetch(f, answers.checkout),
        NextView::Build(b) => after_build(b, answers.backend),
        NextView::Done(r) => StepView::done(Seq::empty(), r),
    }
}

/// The step a resolution ends with when it goes on from `step` and the
/// collaborators answer as `answers` says: all records so far, and the result.
pub open spec fn run(step: StepView, answers: AnswersView) -> StepView
    decreases step.next.rank(),
{
    if step.next is Done {
        step
    } else {
        run(advance(step.next, answers).after(step.log), answers)
    }
}

/// Why a stage that does not run is passed over.
fn why(enabled: bool) -> (r: Why)
    ensures
        r == why_skipped(enabled),
{
    if enabled {
        Why::NotConfigured
    } else {
        Why::Disabled
    }
}

/// Reaches the source stages after `log` was reported.
fn to_sources<'a>(config: &'a Config, caps: Capabilities, log: Vec<Record>) -> (r: Step<'a>)
    ensures
        r@ == enter_sources(config@, caps).after(log@),
        r@.next.wf(),
{
    let mut log = log;
    let ghost earlier = log@;
    match config.local_source() {
        Some(dir) if caps.source_dir => {
            assert(log@ =~= earlier + Seq::<Record>::empty());
            Step { log, next: Next::Locate(Locating { config, dir }) }
        },
        _ => {
            log.push(Record::Skipped(Stage::LocalSource, why(caps.source_dir)));
            match config.remote_source() {
                Some(repo) if caps.git => {
                    assert(log@ =~= earlier + enter_sources(config@, caps).log);
                    Step { log, next: Next::Fetch(Fetching { config, repo }) }
                },
                _ => {
                    log.push(Record::Skipped(Stage::RemoteSource, why(caps.git)));
                    log.push(Record::NoSource);
                    assert(log@ =~= earlier + enter_sources(config@, caps).log);
                    Step { log, next: Next::Done(Err(BuildError::NoSourceAvailable)) }
                },
            }
        },
    }
}

/// Reaches the package-manager probe after `log` was reported.
fn to_vcpkg<'a>(config: &'a Config, caps: Capabilities, log: Vec<Record>) -> (r: Step<'a>)
    ensures
        r@ == enter_vcpkg(config@, caps).after(log@),
        r@.next.wf(),
{
    let mut log = log;
    let ghost earlier = log@;
    match config.system_library() {
        Some(library) if caps.use_vcpkg => {
            assert(log@ =~= earlier + Seq::<Record>::empty());
            Step { log, next: Next::Probe(Probing { config, caps, kind: ProbeKind::Vcpkg, library }) }
        },
        _ => {
            let skipped = Record::Skipped(Stage::Vcpkg, why(caps.use_vcpkg));
            log.push(skipped);
            let r = to_sources(config, caps, log);
            assert(r@.log =~= earlier + (seq![skipped] + enter_sources(config@, caps).log));
            r
        },
    }
}

impl Config {
    /// Begins a resolution: passes over the stages that do not run and stops
    /// at the first thing the caller has to do, or at the end.
    pub fn start(&self, caps: &Capabilities) -> (r: Step<'_>)
        ensures
            r@ == start(self@, *caps),
            r@.next.wf(),
    {
        match self.system_library() {
            Some(library) if caps.use_pkgconfig => {
                Step {
                    log: Vec::new(),
                    next: Next::Probe(
                        Probing { config: self, caps: *caps, kind: ProbeKind::PkgConfig, library },
                    ),
                }
            },
            _ => {
                let skipped = Record::Skipped(Stage::PkgConfig, why(caps.use_pkgconfig));
                let mut log: Vec<Record> = Vec::new();
                log.push(skipped);
                let r = to_vcpkg(self, *caps, log);
                assert(log@ =~= seq![skipped]);
                r
            },
        }
    }
}

impl<'a> Probing<'a> {
    /// The invariant of the state.
    #[verifier::type_invariant]
    closed spec fn inv(&self) -> bool {
        &&& self.config@.library == Some(self.library@)
        &&& self.kind.spec_enabled(self.caps)
    }

    /// The probe that is to be asked.
    pub fn kind(&self) -> (r: ProbeKind)
        ensures
            r == self@.kind,
    {
        self.kind
    }

    /// What the probe is to be asked for.
    pub fn request(&self) -> (r: ProbeRequest)
        ensures
            self@.wf(),
            r@ == self@.request(),
    {
        proof {
            use_type_invariant(self);
        }
        self.library.probe_request(&self.caps)
    }

    /// Takes the probe's answer and goes on.
    pub fn resolve(self, found: Option<LibraryInfo>) -> (r: Step<'a>)
        ensures
            self@.wf(),
            r@ == after_probe(self@, opt_link(found)),
            r@.next.wf(),
    {
        proof {
            use_type_invariant(&self);
        }
        let mut log: Vec<Record> = Vec::new();
        match found {
            Some(info) => {
                log.push(Record::Found(self.kind.stage()));
                assert(log@ =~= seq![Record::Found(self.kind.spec_stage())]);
                Step { log, next: Next::Done(Ok(info)) }
            },
            None => {
                log.push(Record::Missed(self.kind.stage()));
                assert(log@ =~= seq![Record::Missed(self.kind.spec_stage())]);
                match self.kind {
                    ProbeKind::PkgConfig => to_vcpkg(self.config, self.caps, log),
                    ProbeKind::Vcpkg => to_sources(self.config, self.caps, log),
                }
            },
        }
    }
}

impl<'a> Locating<'a> {
    /// The invariant of the state.
    #[verifier::type_invariant]
    closed spec fn inv(&self) -> bool {
        self.config@.source_dir == Some(self.dir@)
    }

    /// The local source whose directory is to be checked.
    pub fn source(&self) -> (r: &SourceDir)
        ensures
            self@.wf(),
            r@ == self@.source(),
    {
        proof {
            use_type_invariant(self);
        }
        self.dir
    }

    /// Takes the answer whether the directory exists and goes on.
    pub fn resolve(self, exists: bool) -> (r: Step<'a>)
        ensures
            self@.wf(),
            r@ == after_locate(self@, exists),
            r@.next.wf(),
    {
        proof {
            use_type_invariant(&self);
        }
        let mut log: Vec<Record> = Vec::new();
        match Config::find_source_dir(self.dir, exists) {
            Some(dir) => {
                log.push(Record::Found(Stage::LocalSource));
                assert(log@ =~= seq![Record::Found(Stage::LocalSource)]);
                Step { log, next: Next::Build(Building { config: self.config, dir }) }
            },
            None => {
                log.push(Record::Missed(Stage::LocalSource));
                assert(log@ =~= seq![Record::Missed(Stage::LocalSource)]);
                let source = Source::Local(self.dir.clone());
                Step { log, next: Next::Done(Err(BuildError::SourceResolutionFailed { source })) }
            },
        }
    }
}

impl<'a> Fetching<'a> {
    /// The invariant of the state.
    #[verifier::type_invariant]
    closed spec fn inv(&self) -> bool {
        self.config@.git_repo == Some(self.repo@)
    }

    /// The remote source that is to be fetched.
    pub fn source(&self) -> (r: &GitRepo)
        ensures
            self@.wf(),
            r@ == self@.source(),
    {
        proof {
            use_type_invariant(self);
        }
        self.repo
    }

    /// Takes the directory of the checkout, or the news that there is none,
    /// and goes on.
    pub fn resolve(self, checkout: Option<String>) -> (r: Step<'a>)
        ensures
            self@.wf(),
            r@ == after_fetch(self@, opt_text(checkout)),
            r@.next.wf(),
    {
        proof {
            use_type_invariant(&self);
        }
        let mut log: Vec<Record> = Vec::new();
        match checkout {
            Some(dir) => {
                log.push(Record::Found(Stage::RemoteSource));
                assert(log@ =~= seq![Record::Found(Stage::RemoteSource)]);
                Step { log, next: Next::Build(Building { config: self.config, dir }) }
            },
            None => {
                log.push(Record::Missed(Stage::RemoteSource));
                assert(log@ =~= seq![Record::Missed(Stage::RemoteSource)]);
                let source = Source::Remote(self.repo.clone());
                Step { log, next: Next::Done(Err(BuildError::SourceResolutionFailed { source })) }
            },
        }
    }
}

impl<'a> Building<'a> {
    /// The directory that holds the source to build.
    pub fn dir(&self) -> (r: &String)
        ensures
            r@ == self@.dir,
    {
        &self.dir
    }

    /// The backend that is to run, with its options.
    pub fn backend(&self) -> (r: Backend)
        ensures
            r == self@.config.backend,
    {
        self.config.backend()
    }

    /// Takes what the backend made of the source and ends the resolution.
    pub fn resolve(self, built: Result<LibraryInfo, BackendError>) -> (r: Step<'a>)
        ensures
            r@ == after_build(self@, backend_view(built)),
            r@.next is Done,
    {
        let backend = self.config.backend().kind();
        let mut log: Vec<Record> = Vec::new();
        match built {
            Ok(info) => {
                log.push(Record::Built(backend));
                assert(log@ =~= seq![Record::Built(backend)]);
                Step { log, next: Next::Done(Ok(info)) }
            },
            Err(error) => {
                log.push(Record::BackendFailed(backend));
                assert(log@ =~= seq![Record::BackendFailed(backend)]);
                Step {
                    log,
                    next: Next::Done(
                        Err(BuildError::BackendExecutionFailed { backend, dir: self.dir, error }),
                    ),
                }
            },
        }
    }
}

impl Answers {
    /// A copy of what the probe `kind` finds.
    fn probe(&self, kind: ProbeKind) -> (r: Option<LibraryInfo>)
        ensures
            opt_link(r) == self@.probe(kind),
    {
        let found = match kind {
            ProbeKind::PkgConfig => &self.pkgconfig,
            ProbeKind::Vcpkg => &self.vcpkg,
        };
        match found {
            Some(info) => Some(info.clone()),
            None => None,
        }
    }

    /// A copy of the checkout's directory.
    fn checkout(&self) -> (r: Option<String>)
        ensures
            opt_text(r) == self@.checkout,
    {
        match &self.checkout {
            Some(dir) => Some(dir.clone()),
            None => None,
        }
    }

    /// A copy of what the backend hands back.
    fn backend(&self) -> (r: Result<LibraryInfo, BackendError>)
        ensures
            backend_view(r) == self@.backend,
    {
        match &self.backend {
            Ok(info) => Ok(info.clone()),
            Err(error) => Err(error.clone()),
        }
    }
}

impl Config {
    /// Resolves the request against collaborators that answer as `answers`
    /// says, and appends to `log` what the resolution reports on its way.
    ///
    /// A library that a probe finds is the result, and then no source is
    /// looked for and no backend runs. Otherwise the selected source is
    /// located and built; each way in which that can fail has its own error.
    pub fn build(&self, caps: &Capabilities, answers: &Answers, log: &mut Vec<Record>) -> (r:
        Result<LibraryInfo, BuildError>)
        ensures
            result_view(r) == outcome(self@, *caps, answers@),
            final(log)@ == old(log)@ + trace(self@, *caps, answers@),
    {
        let ghost goal = StepView::done(
            old(log)@ + trace(self@, *caps, answers@),
            outcome(self@, *caps, answers@),
        );
        proof {
            lemma_run_is_plan(self@, *caps, answers@, log@);
        }
        let Step { log: mut notes, next } = self.start(caps);
        let mut next = next;
        log.append(&mut notes);
        loop
            invariant
                goal == StepView::done(
                    old(log)@ + trace(self@, *caps, answers@),
                    outcome(self@, *caps, answers@),
                ),
                run(StepView { log: log@, next: next@ }, answers@) == goal,
            decreases next@.rank(),
        {
            let ghost before = StepView { log: log@, next: next@ };
            let step = match next {
                Next::Done(r) => {
                    return r;
                },
                Next::Probe(p) => {
                    let found = answers.probe(p.kind());
                    p.resolve(found)
                },
                Next::Locate(l) => l.resolve(answers.local_exists),
                Next::Fetch(f) => f.resolve(answers.checkout()),
                Next::Build(b) => b.resolve(answers.backend()),
            };
            let Step { log: mut notes, next: then } = step;
            log.append(&mut notes);
            next = then;
            assert(StepView { log: log@, next: next@ } == advance(before.next, answers@).after(
                before.log,
            ));
        }
    }
}

} // verus!
