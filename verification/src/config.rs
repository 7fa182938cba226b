//! The build request and the descriptors it is made of.

use vstd::prelude::*;

verus! {

/// The text of an optional owned string.
pub open spec fn opt_text(s: Option<String>) -> Option<Seq<char>> {
    match s {
        Some(t) => Some(t@),
        None => None,
    }
}

/// The text of an optional borrowed string.
pub open spec fn opt_str(s: Option<&str>) -> Option<Seq<char>> {
    match s {
        Some(t) => Some(t@),
        None => None,
    }
}

/// Copies an optional borrowed string into an owned one.
pub(crate) fn own_opt(s: Option<&str>) -> (r: Option<String>)
    ensures
        opt_text(r) == opt_str(s),
{
    match s {
        Some(t) => Some(t.to_owned()),
        None => None,
    }
}

/// Copies an optional owned string.
pub(crate) fn copy_opt(s: &Option<String>) -> (r: Option<String>)
    ensures
        opt_text(r) == opt_text(*s),
{
    match s {
        Some(t) => Some(t.clone()),
        None => None,
    }
}

/// A library that may already be installed on the host.
#[derive(Debug, PartialEq, Eq)]
pub struct Library {
    /// Name under which the probes look the library up.
    pub name: String,
    /// Lowest version that satisfies the request.
    pub version: Option<String>,
}

/// Mathematical content of a [`Library`].
pub struct LibraryView {
    pub name: Seq<char>,
    pub version: Option<Seq<char>>,
}

impl View for Library {
    type V = LibraryView;

    open spec fn view(&self) -> LibraryView {
        LibraryView { name: self.name@, version: opt_text(self.version) }
    }
}

impl Clone for Library {
    /// An independent copy with the same content.
    fn clone(&self) -> (r: Library)
        ensures
            r@ == self@,
    {
        Library { name: self.name.clone(), version: copy_opt(&self.version) }
    }
}

impl LibraryView {
    /// A descriptor is well formed when it names a library.
    pub open spec fn wf(self) -> bool {
        self.name.len() > 0
    }
}

impl Library {
    /// Tells whether the descriptor names a library.
    pub fn is_valid(&self) -> (ok: bool)
        ensures
            ok == self@.wf(),
    {
        !self.name.as_str().is_empty()
    }
}

/// A source tree that lies in a local directory.
#[derive(Debug, PartialEq, Eq)]
pub struct SourceDir {
    pub path: String,
}

/// Mathematical content of a [`SourceDir`].
pub struct SourceDirView {
    pub path: Seq<char>,
}

impl View for SourceDir {
    type V = SourceDirView;

    open spec fn view(&self) -> SourceDirView {
        SourceDirView { path: self.path@ }
    }
}

impl Clone for SourceDir {
    /// An independent copy with the same content.
    fn clone(&self) -> (r: SourceDir)
        ensures
            r@ == self@,
    {
        SourceDir { path: self.path.clone() }
    }
}

/// A source tree that lies in a remote git repository.
#[derive(Debug, PartialEq, Eq)]
pub struct GitRepo {
    pub repo: String,
    /// Branch, tag or commit; the repository's default tip when absent.
    pub reference: Option<String>,
}

/// Mathematical content of a [`GitRepo`].
pub struct GitRepoView {
    pub repo: Seq<char>,
    pub reference: Option<Seq<char>>,
}

impl View for GitRepo {
    type V = GitRepoView;

    open spec fn view(&self) -> GitRepoView {
        GitRepoView { repo: self.repo@, reference: opt_text(self.reference) }
    }
}

impl Clone for GitRepo {
    /// An independent copy with the same content.
    fn clone(&self) -> (r: GitRepo)
        ensures
            r@ == self@,
    {
        GitRepo { repo: self.repo.clone(), reference: copy_opt(&self.reference) }
    }
}

/// Options of the backend that invokes the compiler directly.
#[derive(Clone, Copy, Debug, PartialEq, Eq)]
#[non_exhaustive]
pub struct CcOptions {}

/// Options of the autotools backend.
#[derive(Clone, Copy, Debug, PartialEq, Eq)]
#[non_exhaustive]
pub struct AutotoolsOptions {}

/// Options of the CMake backend.
#[derive(Clone, Copy, Debug, PartialEq, Eq)]
#[non_exhaustive]
pub struct CMakeOptions {}

impl CcOptions {
    /// The options with every setting at its default.
    pub fn new() -> (r: CcOptions)
        ensures
            r == (CcOptions {  }),
    {
        CcOptions {  }
    }
}

impl AutotoolsOptions {
    /// The options with every setting at its default.
    pub fn new() -> (r: AutotoolsOptions)
        ensures
            r == (AutotoolsOptions {  }),
    {
        AutotoolsOptions {  }
    }
}

impl CMakeOptions {
    /// The options with every setting at its default.
    pub fn new() -> (r: CMakeOptions)
        ensures
            r == (CMakeOptions {  }),
    {
        CMakeOptions {  }
    }
}

impl Default for CcOptions {
    fn default() -> (r: CcOptions)
        ensures
            r == (CcOptions {  }),
    {
        CcOptions {  }
    }
}

impl Default for AutotoolsOptions {
    fn default() -> (r: AutotoolsOptions)
        ensures
            r == (AutotoolsOptions {  }),
    {
        AutotoolsOptions {  }
    }
}

impl Default for CMakeOptions {
    fn default() -> (r: CMakeOptions)
        ensures
            r == (CMakeOptions {  }),
    {
        CMakeOptions {  }
    }
}

/// The three native build drivers.
#[derive(Clone, Copy, Debug, PartialEq, Eq, Structural)]
pub enum BackendKind {
    Cc,
    Autotools,
    CMake,
}

/// A build driver together with its options.
#[derive(Clone, Copy, Debug, PartialEq, Eq)]
pub enum Backend {
    Cc(CcOptions),
    Autotools(AutotoolsOptions),
    CMake(CMakeOptions),
}

impl Backend {
    /// The driver this value selects.
    pub open spec fn spec_kind(self) -> BackendKind {
        match self {
            Backend::Cc(_) => BackendKind::Cc,
            Backend::Autotools(_) => BackendKind::Autotools,
            Backend::CMake(_) => BackendKind::CMake,
        }
    }

    /// The driver this value selects.
    #[verifier::when_used_as_spec(spec_kind)]
    pub fn kind(self) -> (k: BackendKind)
        ensures
            k == self.spec_kind(),
    {
        match self {
            Backend::Cc(_) => BackendKind::Cc,
            Backend::Autotools(_) => BackendKind::Autotools,
            Backend::CMake(_) => BackendKind::CMake,
        }
    }
}

/// Which steps of a resolution are allowed to run.
#[derive(Clone, Copy, Debug, PartialEq, Eq, Structural)]
pub struct Capabilities {
    /// Ask the package-metadata probe for a system library.
    pub use_pkgconfig: bool,
    /// Ask the platform package manager for a system library.
    pub use_vcpkg: bool,
    /// Build from the configured local directory.
    pub source_dir: bool,
    /// Build from the configured git repository.
    pub git: bool,
    /// Prefer static over dynamic linking when probing.
    pub static_linking: bool,
}

impl Default for Capabilities {
    /// Every step is disabled until it is asked for.
    fn default() -> (r: Capabilities)
        ensures
            r == (Capabilities {
                use_pkgconfig: false,
                use_vcpkg: false,
                source_dir: false,
                git: false,
                static_linking: false,
            }),
    {
        Capabilities::none()
    }
}

impl Capabilities {
    /// The capabilities with every step disabled.
    pub fn none() -> (r: Capabilities)
        ensures
            r == (Capabilities {
                use_pkgconfig: false,
                use_vcpkg: false,
                source_dir: false,
                git: false,
                static_linking: false,
            }),
    {
        Capabilities {
            use_pkgconfig: false,
            use_vcpkg: false,
            source_dir: false,
            git: false,
            static_linking: false,
        }
    }

    /// True when at least one system probe may run.
    pub open spec fn discovery(self) -> bool {
        self.use_pkgconfig || self.use_vcpkg
    }
}

/// One request to obtain a library.
#[derive(Debug, PartialEq, Eq)]
pub struct Config {
    name: String,
    library: Option<Library>,
    source_dir: Option<SourceDir>,
    git_repo: Option<GitRepo>,
    backend: Backend,
}

/// Mathematical content of a [`Config`].
pub struct ConfigView {
    pub name: Seq<char>,
    pub library: Option<LibraryView>,
    pub source_dir: Option<SourceDirView>,
    pub git_repo: Option<GitRepoView>,
    pub backend: Backend,
}

impl View for Config {
    type V = ConfigView;

    closed spec fn view(&self) -> ConfigView {
        ConfigView {
            name: self.name@,
            library: opt_library(self.library),
            source_dir: opt_source_dir(self.source_dir),
            git_repo: opt_git_repo(self.git_repo),
            backend: self.backend,
        }
    }
}

/// The content of an optional library descriptor.
pub open spec fn opt_library(l: Option<Library>) -> Option<LibraryView> {
    match l {
        Some(l) => Some(l@),
        None => None,
    }
}

/// The content of an optional local source.
pub open spec fn opt_source_dir(d: Option<SourceDir>) -> Option<SourceDirView> {
    match d {
        Some(d) => Some(d@),
        None => None,
    }
}

/// The content of an optional remote source.
pub open spec fn opt_git_repo(g: Option<GitRepo>) -> Option<GitRepoView> {
    match g {
        Some(g) => Some(g@),
        None => None,
    }
}

impl Clone for Config {
    /// An independent copy with the same content.
    fn clone(&self) -> (r: Config)
        ensures
            r@ == self@,
    {
        Config {
            name: self.name.clone(),
            library: match &self.library {
                Some(l) => Some(l.clone()),
                None => None,
            },
            source_dir: match &self.source_dir {
                Some(d) => Some(d.clone()),
                None => None,
            },
            git_repo: match &self.git_repo {
                Some(g) => Some(g.clone()),
                None => None,
            },
            backend: self.backend,
        }
    }
}

impl Config {
    /// A request for the library `name`, looked up on the host under the same
    /// name and at least at `version`, with no source configured and the
    /// compiler-direct backend.
    pub fn new(name: &str, version: Option<&str>) -> (r: Config)
        ensures
            r@ == (ConfigView {
                name: name@,
                library: Some(LibraryView { name: name@, version: opt_str(version) }),
                source_dir: None,
                git_repo: None,
                backend: Backend::Cc(CcOptions {  }),
            }),
    {
        Config {
            name: name.to_owned(),
            library: Some(Library { name: name.to_owned(), version: own_opt(version) }),
            source_dir: None,
            git_repo: None,
            backend: Backend::Cc(CcOptions::new()),
        }
    }

    /// Sets or clears the system library candidate.
    pub fn library(self, library: Option<Library>) -> (r: Config)
        ensures
            r@ == (ConfigView { library: opt_library(library), ..self@ }),
    {
        Config { library, ..self }
    }

    /// Configures the local directory `dir` as a source.
    pub fn source_dir(self, dir: &str) -> (r: Config)
        ensures
            r@ == (ConfigView { source_dir: Some(SourceDirView { path: dir@ }), ..self@ }),
    {
        Config { source_dir: Some(SourceDir { path: dir.to_owned() }), ..self }
    }

    /// Configures the git repository `repo` as a source, at `reference` or at
    /// the repository's default tip.
    pub fn git_repo(self, repo: &str, reference: Option<&str>) -> (r: Config)
        ensures
            r@ == (ConfigView {
                git_repo: Some(GitRepoView { repo: repo@, reference: opt_str(reference) }),
                ..self@
            }),
    {
        Config {
            git_repo: Some(GitRepo { repo: repo.to_owned(), reference: own_opt(reference) }),
            ..self
        }
    }

    /// Selects the compiler-direct backend.
    pub fn cc(self, opts: CcOptions) -> (r: Config)
        ensures
            r@ == (ConfigView { backend: Backend::Cc(opts), ..self@ }),
    {
        Config { backend: Backend::Cc(opts), ..self }
    }

    /// Selects the autotools backend.
    pub fn autotools(self, opts: AutotoolsOptions) -> (r: Config)
        ensures
            r@ == (ConfigView { backend: Backend::Autotools(opts), ..self@ }),
    {
        Config { backend: Backend::Autotools(opts), ..self }
    }

    /// Selects the CMake backend.
    pub fn cmake(self, opts: CMakeOptions) -> (r: Config)
        ensures
            r@ == (ConfigView { backend: Backend::CMake(opts), ..self@ }),
    {
        Config { backend: Backend::CMake(opts), ..self }
    }

    /// The library's base name.
    pub fn name(&self) -> (r: &String)
        ensures
            r@ == self@.name,
    {
        &self.name
    }

    /// The system library candidate, if one is configured.
    pub fn system_library(&self) -> (r: &Option<Library>)
        ensures
            opt_library(*r) == self@.library,
    {
        &self.library
    }

    /// The local source, if one is configured.
    pub fn local_source(&self) -> (r: &Option<SourceDir>)
        ensures
            opt_source_dir(*r) == self@.source_dir,
    {
        &self.source_dir
    }

    /// The remote source, if one is configured.
    pub fn remote_source(&self) -> (r: &Option<GitRepo>)
        ensures
            opt_git_repo(*r) == self@.git_repo,
    {
        &self.git_repo
    }

    /// The backend that builds a located source.
    pub fn backend(&self) -> (r: Backend)
        ensures
            r == self@.backend,
    {
        self.backend
    }
}

/// Settings from the project's metadata that replace those of the request
/// for the library they name. A field that is absent leaves the request's own
/// setting in place.
#[derive(Debug, PartialEq, Eq)]
pub struct Override {
    /// Base name of the library whose request is changed.
    pub name: String,
    pub library: Option<Library>,
    pub source_dir: Option<SourceDir>,
    pub git_repo: Option<GitRepo>,
    pub backend: Option<Backend>,
}

/// Mathematical content of an [`Override`].
pub struct OverrideView {
    pub name: Seq<char>,
    pub library: Option<LibraryView>,
    pub source_dir: Option<SourceDirView>,
    pub git_repo: Option<GitRepoView>,
    pub backend: Option<Backend>,
}

impl View for Override {
    type V = OverrideView;

    open spec fn view(&self) -> OverrideView {
        OverrideView {
            name: self.name@,
            library: opt_library(self.library),
            source_dir: opt_source_dir(self.source_dir),
            git_repo: opt_git_repo(self.git_repo),
            backend: self.backend,
        }
    }
}

/// The first setting if there is one, else the second.
pub open spec fn or_else<T>(first: Option<T>, second: Option<T>) -> Option<T> {
    if first is Some {
        first
    } else {
        second
    }
}

impl ConfigView {
    /// The request after `patch` was laid over it: unchanged when `patch`
    /// names another library, else with each setting of `patch` in place of
    /// its own.
    pub open spec fn overridden(self, patch: OverrideView) -> ConfigView {
        if patch.name == self.name {
            ConfigView {
                name: self.name,
                library: or_else(patch.library, self.library),
                source_dir: or_else(patch.source_dir, self.source_dir),
                git_repo: or_else(patch.git_repo, self.git_repo),
                backend: match patch.backend {
                    Some(b) => b,
                    None => self.backend,
                },
            }
        } else {
            self
        }
    }

    /// The request names the library, and so does its candidate on the host.
    pub open spec fn wf(self) -> bool {
        &&& self.name.len() > 0
        &&& self.library matches Some(l) ==> l.wf()
    }
}

impl Config {
    /// Lays the settings of `patch` over the request if `patch` names its
    /// library.
    pub fn overridden(self, patch: Override) -> (r: Config)
        ensures
            r@ == self@.overridden(patch@),
    {
        if patch.name == self.name {
            Config {
                name: self.name,
                library: match patch.library {
                    Some(l) => Some(l),
                    None => self.library,
                },
                source_dir: match patch.source_dir {
                    Some(d) => Some(d),
                    None => self.source_dir,
                },
                git_repo: match patch.git_repo {
                    Some(g) => Some(g),
                    None => self.git_repo,
                },
                backend: match patch.backend {
                    Some(b) => b,
                    None => self.backend,
                },
            }
        } else {
            self
        }
    }

    /// Tells whether the request names its library and its candidate on the
    /// host.
    pub fn is_valid(&self) -> (ok: bool)
        ensures
            ok == self@.wf(),
    {
        !self.name.as_str().is_empty() && match &self.library {
            Some(l) => l.is_valid(),
            None => true,
        }
    }
}

} // verus!
