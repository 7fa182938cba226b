//! What a resolution reports about its own decisions, for the caller's log.

use vstd::prelude::*;
use crate::config::BackendKind;

verus! {

/// The gated stages of a resolution, in the order in which they are reached.
#[derive(Clone, Copy, Debug, PartialEq, Eq, Structural)]
pub enum Stage {
    /// The package-metadata probe.
    PkgConfig,
    /// The platform package-manager probe.
    Vcpkg,
    /// The local source directory.
    LocalSource,
    /// The remote git repository.
    RemoteSource,
}

/// Why a stage that was reached did not run.
#[derive(Clone, Copy, Debug, PartialEq, Eq, Structural)]
pub enum Why {
    /// Its capability flag is off.
    Disabled,
    /// Its flag is on, but the request holds no descriptor for it.
    NotConfigured,
}

/// How much attention a record deserves.
#[derive(Clone, Copy, Debug, PartialEq, Eq, Structural)]
pub enum Level {
    Info,
    Error,
}

/// One decision or observation of a resolution.
#[derive(Clone, Copy, Debug, PartialEq, Eq, Structural)]
pub enum Record {
    /// The stage was reached and passed over.
    Skipped(Stage, Why),
    /// The stage ran and came back empty-handed.
    Missed(Stage),
    /// The stage ran and delivered.
    Found(Stage),
    /// No source is both configured and enabled.
    NoSource,
    /// The backend ran and failed.
    BackendFailed(BackendKind),
    /// The backend ran and produced the library.
    Built(BackendKind),
}

impl Stage {
    /// True for the two stages that look for an installed library.
    pub open spec fn spec_is_probe(self) -> bool {
        self == Stage::PkgConfig || self == Stage::Vcpkg
    }

    /// True for the two stages that look for an installed library.
    #[verifier::when_used_as_spec(spec_is_probe)]
    pub fn is_probe(self) -> (r: bool)
        ensures
            r == self.spec_is_probe(),
    {
        match self {
            Stage::PkgConfig | Stage::Vcpkg => true,
            Stage::LocalSource | Stage::RemoteSource => false,
        }
    }
}

impl Record {
    /// A probe that finds nothing is an ordinary outcome and a passed stage
    /// is a remark; what ends a resolution in failure is an error.
    pub open spec fn spec_level(self) -> Level {
        match self {
            Record::Skipped(_, _) => Level::Info,
            Record::Missed(stage) => if stage.spec_is_probe() {
                Level::Info
            } else {
                Level::Error
            },
            Record::Found(_) => Level::Info,
            Record::NoSource => Level::Error,
            Record::BackendFailed(_) => Level::Error,
            Record::Built(_) => Level::Info,
        }
    }

    /// The level at which the record is to be logged.
    #[verifier::when_used_as_spec(spec_level)]
    pub fn level(self) -> (r: Level)
        ensures
            r == self.spec_level(),
    {
        match self {
            Record::Skipped(_, _) => Level::Info,
            Record::Missed(stage) => if stage.is_probe() {
                Level::Info
            } else {
                Level::Error
            },
            Record::Found(_) => Level::Info,
            Record::NoSource => Level::Error,
            Record::BackendFailed(_) => Level::Error,
            Record::Built(_) => Level::Info,
        }
    }

    /// True when the record tells of a system probe that was actually asked.
    pub open spec fn is_probe_attempt(self) -> bool {
        match self {
            Record::Missed(stage) => stage.spec_is_probe(),
            Record::Found(stage) => stage.spec_is_probe(),
            _ => false,
        }
    }

    /// True when the record tells of a source that was actually looked for.
    pub open spec fn is_source_attempt(self) -> bool {
        match self {
            Record::Missed(stage) => !stage.spec_is_probe(),
            Record::Found(stage) => !stage.spec_is_probe(),
            _ => false,
        }
    }

    /// True when the record tells of a backend that was actually run.
    pub open spec fn is_backend_run(self) -> bool {
        self is BackendFailed || self is Built
    }
}

} // verus!
