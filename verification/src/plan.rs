//! The policy of a resolution: which probes are asked, which source is
//! selected, and what the whole resolution comes to once every collaborator
//! has answered.

use vstd::prelude::*;
use crate::config::{
    copy_opt, opt_text, Capabilities, Config, ConfigView, Library, LibraryView, SourceDir,
    SourceDirView,
};
use crate::error::{BackendError, BackendErrorView, BuildError, BuildErrorView, Source, SourceView};
use crate::link::{LibraryInfo, LinkView};
use crate::record::{Record, Stage, Why};

verus! {

/// The two mechanisms that look for an installed library, in the order of
/// their priority.
#[derive(Clone, Copy, Debug, PartialEq, Eq, Structural)]
pub enum ProbeKind {
    PkgConfig,
    Vcpkg,
}

impl ProbeKind {
    /// The stage at which the probe runs.
    pub open spec fn spec_stage(self) -> Stage {
        match self {
            ProbeKind::PkgConfig => Stage::PkgConfig,
            ProbeKind::Vcpkg => Stage::Vcpkg,
        }
    }

    /// The stage at which the probe runs.
    #[verifier::when_used_as_spec(spec_stage)]
    pub fn stage(self) -> (r: Stage)
        ensures
            r == self.spec_stage(),
    {
        match self {
            ProbeKind::PkgConfig => Stage::PkgConfig,
            ProbeKind::Vcpkg => Stage::Vcpkg,
        }
    }

    /// The flag that gates the probe.
    pub open spec fn spec_enabled(self, caps: Capabilities) -> bool {
        match self {
            ProbeKind::PkgConfig => caps.use_pkgconfig,
            ProbeKind::Vcpkg => caps.use_vcpkg,
        }
    }

    /// The flag that gates the probe.
    #[verifier::when_used_as_spec(spec_enabled)]
    pub fn enabled(self, caps: Capabilities) -> (r: bool)
        ensures
            r == self.spec_enabled(caps),
    {
        match self {
            ProbeKind::PkgConfig => caps.use_pkgconfig,
            ProbeKind::Vcpkg => caps.use_vcpkg,
        }
    }
}

/// What a system probe is asked to find.
#[derive(Debug, PartialEq, Eq)]
pub struct ProbeRequest {
    /// Name under which the library is looked up.
    pub name: String,
    /// Lowest version that counts as found.
    pub min_version: Option<String>,
    /// Prefer the static over the dynamic library.
    pub statik: bool,
}

/// Mathematical content of a [`ProbeRequest`].
pub struct ProbeRequestView {
    pub name: Seq<char>,
    pub min_version: Option<Seq<char>>,
    pub statik: bool,
}

impl View for ProbeRequest {
    type V = ProbeRequestView;

    open spec fn view(&self) -> ProbeRequestView {
        ProbeRequestView {
            name: self.name@,
            min_version: opt_text(self.min_version),
            statik: self.statik,
        }
    }
}

/// The request that asks for `library` under the linking preference of
/// `caps`: the version bound is passed on when the descriptor has one.
pub open spec fn request_for(library: LibraryView, caps: Capabilities) -> ProbeRequestView {
    ProbeRequestView {
        name: library.name,
        min_version: library.version,
        statik: caps.static_linking,
    }
}

impl Library {
    /// The request that asks a probe for this library.
    pub fn probe_request(&self, caps: &Capabilities) -> (r: ProbeRequest)
        ensures
            r@ == request_for(self@, *caps),
    {
        ProbeRequest {
            name: self.name.clone(),
            min_version: copy_opt(&self.version),
            statik: caps.static_linking,
        }
    }
}

/// Why a stage that does not run is passed over: its flag is looked at first.
pub open spec fn why_skipped(enabled: bool) -> Why {
    if enabled {
        Why::NotConfigured
    } else {
        Why::Disabled
    }
}

/// The probe `kind` runs when its flag is on and a library is configured.
pub open spec fn probe_runs(config: ConfigView, caps: Capabilities, kind: ProbeKind) -> bool {
    kind.spec_enabled(caps) && config.library is Some
}

/// The local source can be used when its flag is on and a directory is
/// configured.
pub open spec fn local_ready(config: ConfigView, caps: Capabilities) -> bool {
    caps.source_dir && config.source_dir is Some
}

/// The remote source can be used when its flag is on and a repository is
/// configured.
pub open spec fn remote_ready(config: ConfigView, caps: Capabilities) -> bool {
    caps.git && config.git_repo is Some
}

/// The source a build starts from: the local directory before the remote
/// repository, each only if configured and enabled.
pub open spec fn selected_source(config: ConfigView, caps: Capabilities) -> Option<SourceView> {
    if local_ready(config, caps) {
        Some(SourceView::Local(config.source_dir->0))
    } else if remote_ready(config, caps) {
        Some(SourceView::Remote(config.git_repo->0))
    } else {
        None
    }
}

/// The content of an optional source.
pub open spec fn opt_source(s: Option<Source>) -> Option<SourceView> {
    match s {
        Some(s) => Some(s@),
        None => None,
    }
}

/// Where a local source lies, given whether its directory exists: the
/// directory's own path, or nowhere.
pub open spec fn located_local(dir: SourceDirView, exists: bool) -> Option<Seq<char>> {
    if exists {
        Some(dir.path)
    } else {
        None
    }
}

impl Config {
    /// The source a build would start from, if any is configured and enabled.
    pub fn select_source(&self, caps: &Capabilities) -> (r: Option<Source>)
        ensures
            opt_source(r) == selected_source(self@, *caps),
    {
        match self.local_source() {
            Some(d) if caps.source_dir => Some(Source::Local(d.clone())),
            _ => match self.remote_source() {
                Some(g) if caps.git => Some(Source::Remote(g.clone())),
                _ => None,
            },
        }
    }

    /// Resolves a local source once it is known whether its directory exists.
    pub fn find_source_dir(dir: &SourceDir, exists: bool) -> (r: Option<String>)
        ensures
            opt_text(r) == located_local(dir@, exists),
    {
        if exists {
            Some(dir.path.clone())
        } else {
            None
        }
    }
}

/// The content of an optional link description.
pub open spec fn opt_link(i: Option<LibraryInfo>) -> Option<LinkView> {
    match i {
        Some(i) => Some(i@),
        None => None,
    }
}

/// The content of what a backend hands back.
pub open spec fn backend_view(r: Result<LibraryInfo, BackendError>) -> Result<
    LinkView,
    BackendErrorView,
> {
    match r {
        Ok(i) => Ok(i@),
        Err(e) => Err(e@),
    }
}

/// The content of what a resolution ends with.
pub open spec fn result_view(r: Result<LibraryInfo, BuildError>) -> Result<
    LinkView,
    BuildErrorView,
> {
    match r {
        Ok(i) => Ok(i@),
        Err(e) => Err(e@),
    }
}

/// What each collaborator answers when it is asked. A resolution consults
/// only the answers it needs; the others have no influence on it.
#[derive(Debug, PartialEq, Eq)]
pub struct Answers {
    /// What the package-metadata probe finds.
    pub pkgconfig: Option<LibraryInfo>,
    /// What the platform package manager finds.
    pub vcpkg: Option<LibraryInfo>,
    /// Whether the local source directory exists.
    pub local_exists: bool,
    /// The directory of the checkout, when the repository can be fetched.
    pub checkout: Option<String>,
    /// What the backend makes of the located source.
    pub backend: Result<LibraryInfo, BackendError>,
}

/// Mathematical content of [`Answers`].
pub struct AnswersView {
    pub pkgconfig: Option<LinkView>,
    pub vcpkg: Option<LinkView>,
    pub local_exists: bool,
    pub checkout: Option<Seq<char>>,
    pub backend: Result<LinkView, BackendErrorView>,
}

impl View for Answers {
    type V = AnswersView;

    open spec fn view(&self) -> AnswersView {
        AnswersView {
            pkgconfig: opt_link(self.pkgconfig),
            vcpkg: opt_link(self.vcpkg),
            local_exists: self.local_exists,
            checkout: opt_text(self.checkout),
            backend: backend_view(self.backend),
        }
    }
}

impl AnswersView {
    /// What the probe `kind` finds.
    pub open spec fn probe(self, kind: ProbeKind) -> Option<LinkView> {
        match kind {
            ProbeKind::PkgConfig => self.pkgconfig,
            ProbeKind::Vcpkg => self.vcpkg,
        }
    }

    /// Where `source` lies once it was looked for.
    pub open spec fn locate(self, source: SourceView) -> Option<Seq<char>> {
        match source {
            SourceView::Local(d) => located_local(d, self.local_exists),
            SourceView::Remote(_) => self.checkout,
        }
    }
}

/// The probe `kind` is asked and finds the library.
pub open spec fn probe_hits(
    config: ConfigView,
    caps: Capabilities,
    answers: AnswersView,
    kind: ProbeKind,
) -> bool {
    probe_runs(config, caps, kind) && answers.probe(kind) is Some
}

/// The installed library that satisfies the request: what the first probe
/// that runs and finds something has found, the package-metadata probe before
/// the package manager.
pub open spec fn system_library(
    config: ConfigView,
    caps: Capabilities,
    answers: AnswersView,
) -> Option<LinkView> {
    if probe_hits(config, caps, answers, ProbeKind::PkgConfig) {
        answers.pkgconfig
    } else if probe_hits(config, caps, answers, ProbeKind::Vcpkg) {
        answers.vcpkg
    } else {
        None
    }
}

/// What the backend's run on the source in `dir` comes to: its description,
/// or its failure together with the backend and the directory.
pub open spec fn build_result(config: ConfigView, dir: Seq<char>, answers: AnswersView) -> Result<
    LinkView,
    BuildErrorView,
> {
    match answers.backend {
        Ok(info) => Ok(info),
        Err(error) => Err(
            BuildErrorView::BackendExecutionFailed {
                backend: config.backend.spec_kind(),
                dir,
                error,
            },
        ),
    }
}

/// What building from source comes to: the selected source has to be located
/// and the backend has to succeed on it. Nothing is retried: a source that
/// cannot be located ends the resolution even if the other source is
/// configured.
pub open spec fn source_build(
    config: ConfigView,
    caps: Capabilities,
    answers: AnswersView,
) -> Result<LinkView, BuildErrorView> {
    match selected_source(config, caps) {
        None => Err(BuildErrorView::NoSourceAvailable),
        Some(source) => match answers.locate(source) {
            None => Err(BuildErrorView::SourceResolutionFailed { source }),
            Some(dir) => build_result(config, dir, answers),
        },
    }
}

/// What a resolution ends with: the installed library if a probe finds one,
/// else the result of building from source.
pub open spec fn outcome(config: ConfigView, caps: Capabilities, answers: AnswersView) -> Result<
    LinkView,
    BuildErrorView,
> {
    match system_library(config, caps, answers) {
        Some(info) => Ok(info),
        None => source_build(config, caps, answers),
    }
}

/// The record of one probe stage once it is reached: passed over, or asked
/// with or without success.
pub open spec fn probe_log(
    config: ConfigView,
    caps: Capabilities,
    answers: AnswersView,
    kind: ProbeKind,
) -> Seq<Record> {
    if !probe_runs(config, caps, kind) {
        seq![Record::Skipped(kind.spec_stage(), why_skipped(kind.spec_enabled(caps)))]
    } else if answers.probe(kind) is Some {
        seq![Record::Found(kind.spec_stage())]
    } else {
        seq![Record::Missed(kind.spec_stage())]
    }
}

/// The record of the backend's run.
pub open spec fn backend_log(config: ConfigView, answers: AnswersView) -> Seq<Record> {
    if answers.backend is Ok {
        seq![Record::Built(config.backend.spec_kind())]
    } else {
        seq![Record::BackendFailed(config.backend.spec_kind())]
    }
}

/// The records of the source stages and of the backend, once no probe has
/// found the library.
pub open spec fn source_log(config: ConfigView, caps: Capabilities, answers: AnswersView) -> Seq<
    Record,
> {
    if local_ready(config, caps) {
        if answers.local_exists {
            seq![Record::Found(Stage::LocalSource)] + backend_log(config, answers)
        } else {
            seq![Record::Missed(Stage::LocalSource)]
        }
    } else {
        seq![Record::Skipped(Stage::LocalSource, why_skipped(caps.source_dir))] + (
        if remote_ready(config, caps) {
            if answers.checkout is Some {
                seq![Record::Found(Stage::RemoteSource)] + backend_log(config, answers)
            } else {
                seq![Record::Missed(Stage::RemoteSource)]
            }
        } else {
            seq![Record::Skipped(Stage::RemoteSource, why_skipped(caps.git)), Record::NoSource]
        })
    }
}

/// Everything a resolution reports, in order. Every stage that is reached
/// leaves a record, also when it is passed over; a stage behind the one that
/// settles the resolution is not reached and leaves none.
pub open spec fn trace(config: ConfigView, caps: Capabilities, answers: AnswersView) -> Seq<
    Record,
> {
    probe_log(config, caps, answers, ProbeKind::PkgConfig) + (
    if probe_hits(config, caps, answers, ProbeKind::PkgConfig) {
        Seq::empty()
    } else {
        probe_log(config, caps, answers, ProbeKind::Vcpkg) + (
        if probe_hits(config, caps, answers, ProbeKind::Vcpkg) {
            Seq::empty()
        } else {
            source_log(config, caps, answers)
        })
    })
}

} // verus!
