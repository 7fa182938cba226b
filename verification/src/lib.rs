//! Decides how a native library is obtained for a dependent build: from the
//! host system when a probe finds it, otherwise from a local or remote source
//! tree handed to a build backend. The crate holds the decisions only; probes,
//! fetches and backend runs are carried out by the caller and reported back.

pub mod config;
pub mod engine;
pub mod error;
pub mod laws;
pub mod link;
pub mod plan;
pub mod record;

pub use config::{
    AutotoolsOptions, Backend, BackendKind, CMakeOptions, Capabilities, CcOptions, Config,
    GitRepo, Library, Override, SourceDir,
};
pub use engine::{Building, Fetching, Locating, Next, Probing, Step};
pub use error::{BackendError, BuildError, Source};
pub use link::{Define, LibraryInfo};
pub use plan::{Answers, ProbeKind, ProbeRequest};
pub use record::{Level, Record, Stage, Why};
