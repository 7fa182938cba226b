use sys_build::{
    AutotoolsOptions, Backend, BackendError, BackendKind, BuildError, CMakeOptions, Capabilities,
    CcOptions, Config, GitRepo, Level, Library, Override, ProbeKind, Record, Source, SourceDir,
    Stage, Why,
};

#[test]
fn new_request_asks_the_host_for_the_same_name() {
    let config = Config::new("foo", Some("1.2.0"));
    assert_eq!(config.name(), "foo");
    assert_eq!(
        config.system_library(),
        &Some(Library { name: String::from("foo"), version: Some(String::from("1.2.0")) })
    );
    assert_eq!(config.local_source(), &None);
    assert_eq!(config.remote_source(), &None);
    assert_eq!(config.backend(), Backend::Cc(CcOptions::new()));
    let unversioned = Config::new("foo", None);
    assert_eq!(
        unversioned.system_library(),
        &Some(Library { name: String::from("foo"), version: None })
    );
}

#[test]
fn setters_change_one_field_each() {
    let base = Config::new("foo", None);
    let with_dir = base.clone().source_dir("vendor/foo");
    assert_eq!(with_dir.local_source(), &Some(SourceDir { path: String::from("vendor/foo") }));
    assert_eq!(with_dir.remote_source(), &None);
    assert_eq!(with_dir.system_library(), base.system_library());
    let with_repo = with_dir.clone().git_repo("https://example/foo.git", Some("v1"));
    assert_eq!(
        with_repo.remote_source(),
        &Some(GitRepo {
            repo: String::from("https://example/foo.git"),
            reference: Some(String::from("v1")),
        })
    );
    assert_eq!(with_repo.local_source(), with_dir.local_source());
    let default_tip = base.clone().git_repo("https://example/foo.git", None);
    assert_eq!(
        default_tip.remote_source(),
        &Some(GitRepo { repo: String::from("https://example/foo.git"), reference: None })
    );
    let without_library = base.clone().library(None);
    assert_eq!(without_library.system_library(), &None);
    assert_eq!(without_library.name(), "foo");
}

#[test]
fn backend_setters_select_the_backend() {
    let base = Config::new("foo", None);
    assert_eq!(base.clone().cc(CcOptions::new()).backend().kind(), BackendKind::Cc);
    assert_eq!(
        base.clone().autotools(AutotoolsOptions::new()).backend(),
        Backend::Autotools(AutotoolsOptions::new())
    );
    assert_eq!(base.clone().cmake(CMakeOptions::new()).backend().kind(), BackendKind::CMake);
    let last_wins = base.cmake(CMakeOptions::new()).cc(CcOptions::new());
    assert_eq!(last_wins.backend().kind(), BackendKind::Cc);
}

#[test]
fn clone_of_a_request_is_equal() {
    let config = Config::new("foo", Some("1")).source_dir("d").git_repo("r", Some("t")).cmake(
        CMakeOptions::new(),
    );
    assert_eq!(config.clone(), config);
}

#[test]
fn validity_asks_for_names() {
    assert!(Config::new("foo", None).is_valid());
    assert!(!Config::new("", None).is_valid());
    assert!(Config::new("foo", None).library(None).is_valid());
    let unnamed = Library { name: String::new(), version: Some(String::from("1.0")) };
    assert!(!unnamed.is_valid());
    assert!(!Config::new("foo", None).library(Some(unnamed)).is_valid());
    assert!(Library { name: String::from("z"), version: None }.is_valid());
}

#[test]
fn no_capabilities_disables_everything() {
    let caps = Capabilities::none();
    assert!(!caps.use_pkgconfig);
    assert!(!caps.use_vcpkg);
    assert!(!caps.source_dir);
    assert!(!caps.git);
    assert!(!caps.static_linking);
    assert!(!ProbeKind::PkgConfig.enabled(caps));
    assert!(!ProbeKind::Vcpkg.enabled(caps));
    let metadata_only = Capabilities { use_pkgconfig: true, ..caps };
    assert!(ProbeKind::PkgConfig.enabled(metadata_only));
    assert!(!ProbeKind::Vcpkg.enabled(metadata_only));
}

#[test]
fn probe_request_carries_version_and_linking_preference() {
    let library = Library { name: String::from("foo"), version: Some(String::from("1.2.0")) };
    let dynamic = library.probe_request(&Capabilities::none());
    assert_eq!(dynamic.name, "foo");
    assert_eq!(dynamic.min_version, Some(String::from("1.2.0")));
    assert!(!dynamic.statik);
    let statik = Capabilities { static_linking: true, ..Capabilities::none() };
    let request = Library { name: String::from("bar"), version: None }.probe_request(&statik);
    assert_eq!(request.name, "bar");
    assert_eq!(request.min_version, None);
    assert!(request.statik);
}

#[test]
fn override_replaces_the_settings_it_holds() {
    let config = Config::new("foo", Some("1.0")).source_dir("vendor/foo");
    let patch = Override {
        name: String::from("foo"),
        library: None,
        source_dir: Some(SourceDir { path: String::from("/opt/foo-src") }),
        git_repo: Some(GitRepo { repo: String::from("https://example/foo.git"), reference: None }),
        backend: Some(Backend::CMake(CMakeOptions::new())),
    };
    let patched = config.clone().overridden(patch);
    assert_eq!(patched.name(), "foo");
    assert_eq!(patched.system_library(), config.system_library());
    assert_eq!(patched.local_source(), &Some(SourceDir { path: String::from("/opt/foo-src") }));
    assert_eq!(
        patched.remote_source(),
        &Some(GitRepo { repo: String::from("https://example/foo.git"), reference: None })
    );
    assert_eq!(patched.backend().kind(), BackendKind::CMake);
}

#[test]
fn override_for_another_library_changes_nothing() {
    let config = Config::new("foo", Some("1.0")).source_dir("vendor/foo");
    let patch = Override {
        name: String::from("bar"),
        library: Some(Library { name: String::from("bar"), version: None }),
        source_dir: Some(SourceDir { path: String::from("/opt/bar-src") }),
        git_repo: None,
        backend: Some(Backend::CMake(CMakeOptions::new())),
    };
    assert_eq!(config.clone().overridden(patch), config);
}

#[test]
fn record_levels() {
    assert_eq!(Record::Skipped(Stage::PkgConfig, Why::Disabled).level(), Level::Info);
    assert_eq!(Record::Skipped(Stage::RemoteSource, Why::NotConfigured).level(), Level::Info);
    assert_eq!(Record::Missed(Stage::PkgConfig).level(), Level::Info);
    assert_eq!(Record::Missed(Stage::Vcpkg).level(), Level::Info);
    assert_eq!(Record::Missed(Stage::LocalSource).level(), Level::Error);
    assert_eq!(Record::Missed(Stage::RemoteSource).level(), Level::Error);
    assert_eq!(Record::Found(Stage::Vcpkg).level(), Level::Info);
    assert_eq!(Record::Found(Stage::LocalSource).level(), Level::Info);
    assert_eq!(Record::NoSource.level(), Level::Error);
    assert_eq!(Record::BackendFailed(BackendKind::Cc).level(), Level::Error);
    assert_eq!(Record::Built(BackendKind::CMake).level(), Level::Info);
    assert!(Stage::PkgConfig.is_probe());
    assert!(Stage::Vcpkg.is_probe());
    assert!(!Stage::LocalSource.is_probe());
    assert!(!Stage::RemoteSource.is_probe());
    assert_eq!(ProbeKind::PkgConfig.stage(), Stage::PkgConfig);
    assert_eq!(ProbeKind::Vcpkg.stage(), Stage::Vcpkg);
}

#[test]
fn error_messages_name_step_and_descriptor() {
    assert_eq!(
        BuildError::NoSourceAvailable.message(),
        "no source available: configure `source_dir` or `git_repo` and enable the matching flag"
    );
    let local = Source::Local(SourceDir { path: String::from("./missing_dir") });
    assert_eq!(local.describe(), "local directory `./missing_dir`");
    assert_eq!(
        BuildError::SourceResolutionFailed { source: local }.message(),
        "source resolution failed: local directory `./missing_dir`"
    );
    let tagged = Source::Remote(GitRepo {
        repo: String::from("https://example/bar.git"),
        reference: Some(String::from("v2.0")),
    });
    assert_eq!(
        BuildError::SourceResolutionFailed { source: tagged }.message(),
        "source resolution failed: git repository `https://example/bar.git` at `v2.0`"
    );
    let tip = Source::Remote(
        GitRepo { repo: String::from("https://example/bar.git"), reference: None },
    );
    assert_eq!(
        BuildError::SourceResolutionFailed { source: tip }.message(),
        "source resolution failed: git repository `https://example/bar.git`"
    );
    let failed = BuildError::BackendExecutionFailed {
        backend: BackendKind::CMake,
        dir: String::from("/work/bar"),
        error: BackendError::ProcessFailed { status: Some(1), output: String::from("boom") },
    };
    assert_eq!(failed.message(), "build failed: cmake in `/work/bar`: process failed: boom");
    let missing = BuildError::BackendExecutionFailed {
        backend: BackendKind::Autotools,
        dir: String::from("vendor/foo"),
        error: BackendError::MissingArtifact { path: String::from("out/lib/libfoo.a") },
    };
    assert_eq!(
        missing.message(),
        "build failed: autotools in `vendor/foo`: missing artifact `out/lib/libfoo.a`"
    );
    assert_eq!(BackendKind::Cc.label(), "cc");
    assert_eq!(
        BackendError::MissingArtifact { path: String::from("x") }.describe(),
        "missing artifact `x`"
    );
}

#[test]
fn defaults_are_the_disabled_and_empty_values() {
    assert_eq!(Capabilities::default(), Capabilities::none());
    assert_eq!(CcOptions::default(), CcOptions::new());
    assert_eq!(AutotoolsOptions::default(), AutotoolsOptions::new());
    assert_eq!(CMakeOptions::default(), CMakeOptions::new());
}
