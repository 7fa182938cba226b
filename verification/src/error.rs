//! Why a resolution ends without a link description.

use vstd::prelude::*;
use vstd::string::StringExecFns;
use crate::config::{BackendKind, GitRepo, GitRepoView, SourceDir, SourceDirView};

verus! {

/// A source a library may be built from.
#[derive(Debug, PartialEq, Eq)]
pub enum Source {
    Local(SourceDir),
    Remote(GitRepo),
}

/// Mathematical content of a [`Source`].
pub enum SourceView {
    Local(SourceDirView),
    Remote(GitRepoView),
}

impl View for Source {
    type V = SourceView;

    open spec fn view(&self) -> SourceView {
        match self {
            Source::Local(d) => SourceView::Local(d@),
            Source::Remote(g) => SourceView::Remote(g@),
        }
    }
}

impl Clone for Source {
    /// An independent copy with the same content.
    fn clone(&self) -> (r: Source)
        ensures
            r@ == self@,
    {
        match self {
            Source::Local(d) => Source::Local(d.clone()),
            Source::Remote(g) => Source::Remote(g.clone()),
        }
    }
}

/// How a build backend failed.
#[derive(Debug, PartialEq, Eq)]
pub enum BackendError {
    /// The external process could not be run or ended unsuccessfully.
    ProcessFailed {
        /// Exit status, when the process ran to an exit.
        status: Option<i32>,
        /// What the process printed.
        output: String,
    },
    /// The process succeeded but did not leave the file the build needs.
    MissingArtifact { path: String },
}

/// Mathematical content of a [`BackendError`].
pub enum BackendErrorView {
    ProcessFailed { status: Option<i32>, output: Seq<char> },
    MissingArtifact { path: Seq<char> },
}

impl View for BackendError {
    type V = BackendErrorView;

    open spec fn view(&self) -> BackendErrorView {
        match self {
            BackendError::ProcessFailed { status, output } => BackendErrorView::ProcessFailed {
                status: *status,
                output: output@,
            },
            BackendError::MissingArtifact { path } => BackendErrorView::MissingArtifact {
                path: path@,
            },
        }
    }
}

impl Clone for BackendError {
    /// An independent copy with the same content.
    fn clone(&self) -> (r: BackendError)
        ensures
            r@ == self@,
    {
        match self {
            BackendError::ProcessFailed { status, output } => BackendError::ProcessFailed {
                status: *status,
                output: output.clone(),
            },
            BackendError::MissingArtifact { path } => BackendError::MissingArtifact {
                path: path.clone(),
            },
        }
    }
}

/// Why a resolution failed.
#[derive(Debug, PartialEq, Eq)]
pub enum BuildError {
    /// No source is both configured and enabled.
    NoSourceAvailable,
    /// The selected source could not be turned into a directory.
    SourceResolutionFailed { source: Source },
    /// The backend ran on the located source and failed.
    BackendExecutionFailed { backend: BackendKind, dir: String, error: BackendError },
}

/// Mathematical content of a [`BuildError`].
pub enum BuildErrorView {
    NoSourceAvailable,
    SourceResolutionFailed { source: SourceView },
    BackendExecutionFailed { backend: BackendKind, dir: Seq<char>, error: BackendErrorView },
}

impl View for BuildError {
    type V = BuildErrorView;

    open spec fn view(&self) -> BuildErrorView {
        match self {
            BuildError::NoSourceAvailable => BuildErrorView::NoSourceAvailable,
            BuildError::SourceResolutionFailed { source } => BuildErrorView::SourceResolutionFailed {
                source: source@,
            },
            BuildError::BackendExecutionFailed {
                backend,
                dir,
                error,
            } => BuildErrorView::BackendExecutionFailed {
                backend: *backend,
                dir: dir@,
                error: error@,
            },
        }
    }
}

impl Clone for BuildError {
    /// An independent copy with the same content.
    fn clone(&self) -> (r: BuildError)
        ensures
            r@ == self@,
    {
        match self {
            BuildError::NoSourceAvailable => BuildError::NoSourceAvailable,
            BuildError::SourceResolutionFailed { source } => BuildError::SourceResolutionFailed {
                source: source.clone(),
            },
            BuildError::BackendExecutionFailed {
                backend,
                dir,
                error,
            } => BuildError::BackendExecutionFailed {
                backend: *backend,
                dir: dir.clone(),
                error: error.clone(),
            },
        }
    }
}

impl BackendKind {
    /// The backend's name as it appears in messages.
    pub open spec fn spec_label(self) -> Seq<char> {
        match self {
            BackendKind::Cc => "cc"@,
            BackendKind::Autotools => "autotools"@,
            BackendKind::CMake => "cmake"@,
        }
    }

    /// The backend's name as it appears in messages.
    pub fn label(self) -> (r: &'static str)
        ensures
            r@ == self.spec_label(),
    {
        match self {
            BackendKind::Cc => "cc",
            BackendKind::Autotools => "autotools",
            BackendKind::CMake => "cmake",
        }
    }
}

impl SourceView {
    /// Names the source for a reader of a message.
    pub open spec fn describe(self) -> Seq<char> {
        match self {
            SourceView::Local(d) => "local directory `"@ + d.path + "`"@,
            SourceView::Remote(g) => match g.reference {
                Some(r) => "git repository `"@ + g.repo + "` at `"@ + r + "`"@,
                None => "git repository `"@ + g.repo + "`"@,
            },
        }
    }
}

impl Source {
    /// Names the source for a reader of a message.
    pub fn describe(&self) -> (r: String)
        ensures
            r@ == self@.describe(),
    {
        match self {
            Source::Local(d) => {
                let mut r = String::from_str("local directory `");
                r.append(d.path.as_str());
                r.append("`");
                r
            },
            Source::Remote(g) => {
                let mut r = String::from_str("git repository `");
                r.append(g.repo.as_str());
                match &g.reference {
                    Some(at) => {
                        r.append("` at `");
                        r.append(at.as_str());
                    },
                    None => {},
                }
                r.append("`");
                r
            },
        }
    }
}

impl BackendErrorView {
    /// Says what went wrong in the backend.
    pub open spec fn describe(self) -> Seq<char> {
        match self {
            BackendErrorView::ProcessFailed { status, output } => "process failed: "@ + output,
            BackendErrorView::MissingArtifact { path } => "missing artifact `"@ + path + "`"@,
        }
    }
}

impl BackendError {
    /// Says what went wrong in the backend, with the process's own output.
    pub fn describe(&self) -> (r: String)
        ensures
            r@ == self@.describe(),
    {
        match self {
            BackendError::ProcessFailed { status, output } => {
                let mut r = String::from_str("process failed: ");
                r.append(output.as_str());
                r
            },
            BackendError::MissingArtifact { path } => {
                let mut r = String::from_str("missing artifact `");
                r.append(path.as_str());
                r.append("`");
                r
            },
        }
    }
}

impl BuildErrorView {
    /// The message shown to the person who has to mend the configuration:
    /// the step that failed and the descriptor it worked on.
    pub open spec fn message(self) -> Seq<char> {
        match self {
            BuildErrorView::NoSourceAvailable =>
                "no source available: configure `source_dir` or `git_repo` and enable the matching flag"@,
            BuildErrorView::SourceResolutionFailed { source } => "source resolution failed: "@
                + source.describe(),
            BuildErrorView::BackendExecutionFailed { backend, dir, error } => "build failed: "@
                + backend.spec_label() + " in `"@ + dir + "`: "@ + error.describe(),
        }
    }
}

impl BuildError {
    /// The message shown to the person who has to mend the configuration.
    pub fn message(&self) -> (r: String)
        ensures
            r@ == self@.message(),
    {
        match self {
            BuildError::NoSourceAvailable => String::from_str(
                "no source available: configure `source_dir` or `git_repo` and enable the matching flag",
            ),
            BuildError::SourceResolutionFailed { source } => {
                let mut r = String::from_str("source resolution failed: ");
                let what = source.describe();
                r.append(what.as_str());
                r
            },
            BuildError::BackendExecutionFailed { backend, dir, error } => {
                let mut r = String::from_str("build failed: ");
                r.append(backend.label());
                r.append(" in `");
                r.append(dir.as_str());
                r.append("`: ");
                let what = error.describe();
                r.append(what.as_str());
                r
            },
        }
    }
}

} // verus!
