//! What holds of every resolution.

use vstd::prelude::*;
use crate::config::{Capabilities, ConfigView};
use crate::engine::{
    advance, after_fetch, after_locate, after_probe, enter_sources, enter_vcpkg, run, start,
    BuildingView, LocatingView, NextView, ProbingView, StepView,
};
use crate::error::{BuildErrorView, SourceView};
use crate::link::LinkView;
use crate::plan::{
    backend_log, build_result, local_ready, located_local, outcome, probe_hits, probe_log,
    probe_runs, selected_source, source_build, source_log, system_library, trace, AnswersView,
    ProbeKind,
};
use crate::record::{Record, Stage};

verus! {

/// From the backend's run on, the steps come to the backend's result.
proof fn lemma_run_build(b: BuildingView, answers: AnswersView, earlier: Seq<Record>)
    ensures
        run(StepView { log: earlier, next: NextView::Build(b) }, answers) == StepView::done(
            earlier + backend_log(b.config, answers),
            build_result(b.config, b.dir, answers),
        ),
{
    reveal_with_fuel(run, 3);
    let end = run(StepView { log: earlier, next: NextView::Build(b) }, answers);
    assert(end.log =~= earlier + backend_log(b.config, answers));
}

/// From the source stages on, the steps come to the result of building from
/// source.
proof fn lemma_run_sources(
    config: ConfigView,
    caps: Capabilities,
    answers: AnswersView,
    earlier: Seq<Record>,
)
    ensures
        run(enter_sources(config, caps).after(earlier), answers) == StepView::done(
            earlier + source_log(config, caps, answers),
            source_build(config, caps, answers),
        ),
{
    reveal_with_fuel(run, 2);
    let first = enter_sources(config, caps).after(earlier);
    let end = run(first, answers);
    match first.next {
        NextView::Locate(l) => {
            let second = after_locate(l, answers.local_exists).after(first.log);
            if let NextView::Build(b) = second.next {
                lemma_run_build(b, answers, second.log);
            }
            assert(end.log =~= earlier + source_log(config, caps, answers));
        },
        NextView::Fetch(f) => {
            let second = after_fetch(f, answers.checkout).after(first.log);
            if let NextView::Build(b) = second.next {
                lemma_run_build(b, answers, second.log);
            }
            assert(end.log =~= earlier + source_log(config, caps, answers));
        },
        _ => {
            assert(end.log =~= earlier + source_log(config, caps, answers));
        },
    }
}

/// The records from the package-manager probe on.
spec fn vcpkg_log(config: ConfigView, caps: Capabilities, answers: AnswersView) -> Seq<Record> {
    probe_log(config, caps, answers, ProbeKind::Vcpkg) + (
    if probe_hits(config, caps, answers, ProbeKind::Vcpkg) {
        Seq::empty()
    } else {
        source_log(config, caps, answers)
    })
}

/// The result from the package-manager probe on.
spec fn vcpkg_result(config: ConfigView, caps: Capabilities, answers: AnswersView) -> Result<
    LinkView,
    BuildErrorView,
> {
    if probe_hits(config, caps, answers, ProbeKind::Vcpkg) {
        Ok(answers.vcpkg->0)
    } else {
        source_build(config, caps, answers)
    }
}

/// From the package-manager probe on, the steps come to what it finds, or to
/// the result of building from source.
proof fn lemma_run_vcpkg(
    config: ConfigView,
    caps: Capabilities,
    answers: AnswersView,
    earlier: Seq<Record>,
)
    ensures
        run(enter_vcpkg(config, caps).after(earlier), answers) == StepView::done(
            earlier + vcpkg_log(config, caps, answers),
            vcpkg_result(config, caps, answers),
        ),
{
    reveal_with_fuel(run, 2);
    let first = enter_vcpkg(config, caps).after(earlier);
    let end = run(first, answers);
    let own = probe_log(config, caps, answers, ProbeKind::Vcpkg);
    if probe_runs(config, caps, ProbeKind::Vcpkg) {
        assert(first.log =~= earlier);
        if answers.vcpkg is None {
            lemma_run_sources(config, caps, answers, earlier + own);
            assert(advance(first.next, answers).after(first.log) == enter_sources(
                config,
                caps,
            ).after(earlier + own)) by {
                assert(advance(first.next, answers).after(first.log).log =~= enter_sources(
                    config,
                    caps,
                ).after(earlier + own).log);
            }
            assert((earlier + own) + source_log(config, caps, answers) =~= earlier + vcpkg_log(
                config,
                caps,
                answers,
            ));
        } else {
            assert(end.log =~= earlier + vcpkg_log(config, caps, answers));
        }
    } else {
        lemma_run_sources(config, caps, answers, earlier + own);
        assert(first.log =~= enter_sources(config, caps).after(earlier + own).log);
        assert((earlier + own) + source_log(config, caps, answers) =~= earlier + vcpkg_log(
            config,
            caps,
            answers,
        ));
    }
}

/// Going through the steps one answer at a time comes to the same end as the
/// policy read as a whole: the same result and the same records, in the same
/// order, after whatever was reported before.
pub proof fn lemma_run_is_plan(
    config: ConfigView,
    caps: Capabilities,
    answers: AnswersView,
    earlier: Seq<Record>,
)
    ensures
        run(start(config, caps).after(earlier), answers) == StepView::done(
            earlier + trace(config, caps, answers),
            outcome(config, caps, answers),
        ),
{
    reveal_with_fuel(run, 2);
    let first = start(config, caps).after(earlier);
    let end = run(first, answers);
    let own = probe_log(config, caps, answers, ProbeKind::PkgConfig);
    if probe_runs(config, caps, ProbeKind::PkgConfig) {
        assert(first.log =~= earlier);
        if answers.pkgconfig is None {
            lemma_run_vcpkg(config, caps, answers, earlier + own);
            assert(advance(first.next, answers).after(first.log) == enter_vcpkg(
                config,
                caps,
            ).after(earlier + own)) by {
                assert(advance(first.next, answers).after(first.log).log =~= enter_vcpkg(
                    config,
                    caps,
                ).after(earlier + own).log);
            }
            assert((earlier + own) + vcpkg_log(config, caps, answers) =~= earlier + trace(
                config,
                caps,
                answers,
            ));
        } else {
            assert(end.log =~= earlier + trace(config, caps, answers));
        }
    } else {
        lemma_run_vcpkg(config, caps, answers, earlier + own);
        assert(first.log =~= enter_vcpkg(config, caps).after(earlier + own).log);
        assert((earlier + own) + vcpkg_log(config, caps, answers) =~= earlier + trace(
            config,
            caps,
            answers,
        ));
    }
}

/// No record of `log` tells of a system probe that was asked.
pub open spec fn no_probe_attempt(log: Seq<Record>) -> bool {
    forall|i: int| 0 <= i < log.len() ==> !(#[trigger] log[i]).is_probe_attempt()
}

/// No record of `log` tells of a source that was looked for.
pub open spec fn no_source_attempt(log: Seq<Record>) -> bool {
    forall|i: int| 0 <= i < log.len() ==> !(#[trigger] log[i]).is_source_attempt()
}

/// No record of `log` tells of a backend that was run.
pub open spec fn no_backend_run(log: Seq<Record>) -> bool {
    forall|i: int| 0 <= i < log.len() ==> !(#[trigger] log[i]).is_backend_run()
}

/// With both probes disabled no probe is ever asked: the first step does not
/// wait for one, and no record tells of one. If the local source is
/// configured and enabled and its directory exists, the resolution goes
/// straight to that directory and from there to the backend, whose result is
/// the result of the resolution.
pub proof fn lemma_disabled_discovery_builds_from_source(
    config: ConfigView,
    caps: Capabilities,
    answers: AnswersView,
)
    requires
        !caps.discovery(),
    ensures
        !(start(config, caps).next is Probe),
        no_probe_attempt(trace(config, caps, answers)),
        local_ready(config, caps) && answers.local_exists ==> {
            let waiting = LocatingView { config };
            let dir = config.source_dir->0.path;
            &&& start(config, caps).next == NextView::Locate(waiting)
            &&& after_locate(waiting, true).next == NextView::Build(BuildingView { config, dir })
            &&& outcome(config, caps, answers) == build_result(config, dir, answers)
        },
{
}

/// When both sources are configured and enabled, the local directory is the
/// selected source: it is the one that is looked for, and the repository is
/// never fetched, whether or not the directory exists.
pub proof fn lemma_local_source_first(config: ConfigView, caps: Capabilities, answers: AnswersView)
    requires
        config.source_dir is Some,
        config.git_repo is Some,
        caps.source_dir,
        caps.git,
    ensures
        selected_source(config, caps) == Some(SourceView::Local(config.source_dir->0)),
        enter_sources(config, caps).next == NextView::Locate(LocatingView { config }),
        !(after_locate(LocatingView { config }, answers.local_exists).next is Fetch),
        !trace(config, caps, answers).contains(Record::Found(Stage::RemoteSource)),
        !trace(config, caps, answers).contains(Record::Missed(Stage::RemoteSource)),
{
}

/// A resolution fails for want of a source exactly when no probe finds the
/// library and no source is both configured and enabled. In particular it
/// does so when no source is configured at all and discovery is disabled or
/// finds nothing.
pub proof fn lemma_no_source(config: ConfigView, caps: Capabilities, answers: AnswersView)
    ensures
        outcome(config, caps, answers) == Err::<LinkView, _>(BuildErrorView::NoSourceAvailable) <==> (
        system_library(config, caps, answers) is None && selected_source(config, caps) is None),
        config.source_dir is None && config.git_repo is None && (!caps.discovery()
            || system_library(config, caps, answers) is None) ==> outcome(config, caps, answers)
            == Err::<LinkView, _>(BuildErrorView::NoSourceAvailable),
{
}

/// Locating a local source is idempotent: two looks at a directory that is
/// there both times give the same path, the directory's own, and lead to the
/// same step.
pub proof fn lemma_local_locate_is_idempotent(waiting: LocatingView, first: bool, second: bool)
    requires
        first,
        second,
    ensures
        located_local(waiting.source(), first) == Some(waiting.source().path),
        located_local(waiting.source(), second) == located_local(waiting.source(), first),
        after_locate(waiting, second) == after_locate(waiting, first),
{
}

/// What a probe finds ends the resolution at once: the step after the find is
/// the last one, its result is the find, no source is looked for and no
/// backend is run.
pub proof fn lemma_probe_hit_ends_resolution(
    config: ConfigView,
    caps: Capabilities,
    answers: AnswersView,
)
    requires
        system_library(config, caps, answers) is Some,
    ensures
        outcome(config, caps, answers) == Ok::<_, BuildErrorView>(
            system_library(config, caps, answers)->0,
        ),
        no_source_attempt(trace(config, caps, answers)),
        no_backend_run(trace(config, caps, answers)),
        forall|p: ProbingView, info: LinkView| #[trigger]
            after_probe(p, Some(info)).next == NextView::Done(Ok(info)),
{
}

/// A selected source that cannot be located ends the resolution, even when
/// the other source is configured and enabled: nothing is retried.
pub proof fn lemma_unresolved_source_is_final(
    config: ConfigView,
    caps: Capabilities,
    answers: AnswersView,
)
    requires
        system_library(config, caps, answers) is None,
        selected_source(config, caps) is Some,
        answers.locate(selected_source(config, caps)->0) is None,
    ensures
        outcome(config, caps, answers) == Err::<LinkView, _>(
            BuildErrorView::SourceResolutionFailed { source: selected_source(config, caps)->0 },
        ),
        no_backend_run(trace(config, caps, answers)),
{
}

/// Each failure has its own cause. A resolution ends with an unresolved
/// source exactly when no probe finds the library and the selected source
/// cannot be located; it ends with a backend failure exactly when no probe
/// finds the library, the selected source is located and the backend fails on
/// it, and then the error names the backend, the located directory and what
/// the backend reported.
pub proof fn lemma_failure_causes(config: ConfigView, caps: Capabilities, answers: AnswersView)
    ensures
        ({
            let end = outcome(config, caps, answers);
            let source = selected_source(config, caps);
            let unsettled = system_library(config, caps, answers) is None;
            &&& (end is Err && end->Err_0 is SourceResolutionFailed) <==> (unsettled && source
                is Some && answers.locate(source->0) is None)
            &&& (end is Err && end->Err_0 is SourceResolutionFailed) ==> end
                == Err::<LinkView, _>(BuildErrorView::SourceResolutionFailed { source: source->0 })
            &&& (end is Err && end->Err_0 is BackendExecutionFailed) <==> (unsettled && source
                is Some && answers.locate(source->0) is Some && answers.backend is Err)
            &&& (end is Err && end->Err_0 is BackendExecutionFailed) ==> end == Err::<LinkView, _>(
                BuildErrorView::BackendExecutionFailed {
                    backend: config.backend.spec_kind(),
                    dir: answers.locate(source->0)->0,
                    error: answers.backend->Err_0,
                },
            )
        }),
{
}

/// A resolution succeeds exactly when a probe finds the library, or the
/// selected source is located and the backend succeeds on it.
pub proof fn lemma_success(config: ConfigView, caps: Capabilities, answers: AnswersView)
    ensures
        outcome(config, caps, answers) is Ok <==> system_library(config, caps, answers) is Some || (
        selected_source(config, caps) is Some && answers.locate(
            selected_source(config, caps)->0,
        ) is Some && answers.backend is Ok),
{
}

/// At most one backend run is reported: a resolution builds once or not at
/// all.
pub proof fn lemma_at_most_one_build(config: ConfigView, caps: Capabilities, answers: AnswersView)
    ensures
        forall|i: int, j: int|
            #![trigger trace(config, caps, answers)[i], trace(config, caps, answers)[j]]
            0 <= i < j < trace(config, caps, answers).len() ==> !(trace(
                config,
                caps,
                answers,
            )[i].is_backend_run() && trace(config, caps, answers)[j].is_backend_run()),
{
}

/// Answers that are not asked for have no influence: when a probe finds the
/// library, the result is the same whatever the source stages and the backend
/// would have answered.
pub proof fn lemma_unasked_answers_do_not_count(
    config: ConfigView,
    caps: Capabilities,
    answers: AnswersView,
    others: AnswersView,
)
    requires
        system_library(config, caps, answers) is Some,
        others.pkgconfig == answers.pkgconfig,
        others.vcpkg == answers.vcpkg,
    ensures
        outcome(config, caps, others) == outcome(config, caps, answers),
        trace(config, caps, others) == trace(config, caps, answers),
{
}

/// Some record of `log` tells what became of `stage`: that it was passed
/// over, or that it ran with or without success.
pub open spec fn accounts_for(log: Seq<Record>, stage: Stage) -> bool {
    exists|i: int|
        0 <= i < log.len() && (#[trigger] log[i] is Skipped && log[i]->Skipped_0 == stage
            || log[i] == Record::Missed(stage) || log[i] == Record::Found(stage))
}

/// No stage is passed in silence. The package-metadata probe is always
/// accounted for; each later stage is accounted for exactly when the
/// resolution was not settled before it: the package-manager probe unless the
/// metadata probe found the library, the local source unless a probe found
/// it, and the remote source unless a probe found it or the local source was
/// selected.
pub proof fn lemma_every_reached_stage_is_recorded(
    config: ConfigView,
    caps: Capabilities,
    answers: AnswersView,
)
    ensures
        accounts_for(trace(config, caps, answers), Stage::PkgConfig),
        accounts_for(trace(config, caps, answers), Stage::Vcpkg) <==> !probe_hits(
            config,
            caps,
            answers,
            ProbeKind::PkgConfig,
        ),
        accounts_for(trace(config, caps, answers), Stage::LocalSource) <==> system_library(
            config,
            caps,
            answers,
        ) is None,
        accounts_for(trace(config, caps, answers), Stage::RemoteSource) <==> system_library(
            config,
            caps,
            answers,
        ) is None && !local_ready(config, caps),
{
    let log = trace(config, caps, answers);
    let first = probe_log(config, caps, answers, ProbeKind::PkgConfig);
    assert(log[0] == first[0]);
    if !probe_hits(config, caps, answers, ProbeKind::PkgConfig) {
        let second = probe_log(config, caps, answers, ProbeKind::Vcpkg);
        assert(log[1] == second[0]);
        if !probe_hits(config, caps, answers, ProbeKind::Vcpkg) {
            let rest = source_log(config, caps, answers);
            assert(log[2] == rest[0]);
            if !local_ready(config, caps) {
                assert(log[3] == rest[1]);
            }
        }
    }
}

} // verus!
