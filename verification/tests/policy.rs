use sys_build::{
    Answers, AutotoolsOptions, Backend, BackendError, BackendKind, BuildError, Capabilities,
    CcOptions, Config, GitRepo, LibraryInfo, Next, ProbeKind, Record, Source, SourceDir, Stage,
    Why,
};

fn failing_backend() -> Result<LibraryInfo, BackendError> {
    Err(BackendError::ProcessFailed { status: Some(2), output: String::from("make: *** Error 2") })
}

fn everything_enabled() -> Capabilities {
    Capabilities {
        use_pkgconfig: true,
        use_vcpkg: true,
        source_dir: true,
        git: true,
        static_linking: false,
    }
}

fn is_probe_attempt(record: &Record) -> bool {
    matches!(
        record,
        Record::Found(Stage::PkgConfig)
            | Record::Found(Stage::Vcpkg)
            | Record::Missed(Stage::PkgConfig)
            | Record::Missed(Stage::Vcpkg)
    )
}

fn is_backend_run(record: &Record) -> bool {
    matches!(record, Record::Built(_) | Record::BackendFailed(_))
}

#[test]
fn disabled_discovery_goes_straight_to_the_local_source() {
    let config = Config::new("foo", Some("1.0")).source_dir("vendor/foo");
    let caps = Capabilities { source_dir: true, ..Capabilities::none() };
    let built = LibraryInfo::new().lib("foo");
    let answers = Answers {
        pkgconfig: Some(LibraryInfo::new().lib("from-the-host")),
        vcpkg: Some(LibraryInfo::new().lib("from-the-host")),
        local_exists: true,
        checkout: None,
        backend: Ok(built.clone()),
    };
    let mut log = Vec::new();
    assert_eq!(config.build(&caps, &answers, &mut log), Ok(built));
    assert!(!log.iter().any(is_probe_attempt));
    assert_eq!(
        log,
        vec![
            Record::Skipped(Stage::PkgConfig, Why::Disabled),
            Record::Skipped(Stage::Vcpkg, Why::Disabled),
            Record::Found(Stage::LocalSource),
            Record::Built(BackendKind::Cc),
        ]
    );
    let step = config.start(&caps);
    let locating = match step.next {
        Next::Locate(l) => l,
        _ => panic!("the local directory is looked for first"),
    };
    assert_eq!(locating.source(), &SourceDir { path: String::from("vendor/foo") });
    match locating.resolve(true).next {
        Next::Build(b) => {
            assert_eq!(b.dir(), "vendor/foo");
            assert_eq!(b.backend(), Backend::Cc(CcOptions::new()));
        },
        _ => panic!("an existing directory is built"),
    }
}

#[test]
fn local_source_comes_before_remote_source() {
    let config = Config::new("foo", None).git_repo("https://example/foo.git", None).source_dir(
        "vendor/foo",
    );
    let caps = Capabilities { source_dir: true, git: true, ..Capabilities::none() };
    assert_eq!(
        config.select_source(&caps),
        Some(Source::Local(SourceDir { path: String::from("vendor/foo") }))
    );
    let answers = Answers {
        pkgconfig: None,
        vcpkg: None,
        local_exists: true,
        checkout: Some(String::from("/work/foo")),
        backend: Ok(LibraryInfo::new().lib("foo")),
    };
    let mut log = Vec::new();
    assert!(config.build(&caps, &answers, &mut log).is_ok());
    assert!(log.contains(&Record::Found(Stage::LocalSource)));
    assert!(!log.contains(&Record::Found(Stage::RemoteSource)));
    assert!(!log.contains(&Record::Missed(Stage::RemoteSource)));
}

#[test]
fn remote_source_is_selected_when_local_is_disabled_or_absent() {
    let remote = Source::Remote(
        GitRepo { repo: String::from("https://example/foo.git"), reference: None },
    );
    let both = Config::new("foo", None).source_dir("vendor/foo").git_repo(
        "https://example/foo.git",
        None,
    );
    let git_only = Capabilities { git: true, ..Capabilities::none() };
    assert_eq!(both.select_source(&git_only), Some(remote.clone()));
    let only_remote = Config::new("foo", None).git_repo("https://example/foo.git", None);
    assert_eq!(only_remote.select_source(&everything_enabled()), Some(remote));
    assert_eq!(only_remote.select_source(&Capabilities::none()), None);
    assert_eq!(Config::new("foo", None).select_source(&everything_enabled()), None);
}

#[test]
fn no_source_and_no_discovery_is_no_source_available() {
    let config = Config::new("foo", None);
    let answers = Answers {
        pkgconfig: Some(LibraryInfo::new().lib("foo")),
        vcpkg: None,
        local_exists: true,
        checkout: Some(String::from("/work/foo")),
        backend: Ok(LibraryInfo::new().lib("foo")),
    };
    let mut log = Vec::new();
    assert_eq!(
        config.build(&Capabilities::none(), &answers, &mut log),
        Err(BuildError::NoSourceAvailable)
    );
    assert_eq!(log.last(), Some(&Record::NoSource));
}

#[test]
fn no_source_and_failing_discovery_is_no_source_available() {
    let config = Config::new("foo", None);
    let answers = Answers {
        pkgconfig: None,
        vcpkg: None,
        local_exists: true,
        checkout: Some(String::from("/work/foo")),
        backend: Ok(LibraryInfo::new().lib("foo")),
    };
    let mut log = Vec::new();
    assert_eq!(
        config.build(&everything_enabled(), &answers, &mut log),
        Err(BuildError::NoSourceAvailable)
    );
    assert_eq!(
        log,
        vec![
            Record::Missed(Stage::PkgConfig),
            Record::Missed(Stage::Vcpkg),
            Record::Skipped(Stage::LocalSource, Why::NotConfigured),
            Record::Skipped(Stage::RemoteSource, Why::NotConfigured),
            Record::NoSource,
        ]
    );
}

#[test]
fn locating_an_existing_directory_twice_gives_the_same_path() {
    let dir = SourceDir { path: String::from("vendor/foo") };
    let first = Config::find_source_dir(&dir, true);
    let second = Config::find_source_dir(&dir, true);
    assert_eq!(first, Some(String::from("vendor/foo")));
    assert_eq!(first, second);
    assert_eq!(Config::find_source_dir(&dir, false), None);
}

#[test]
fn probe_hit_never_runs_a_backend() {
    let config = Config::new("foo", None).source_dir("vendor/foo").git_repo(
        "https://example/foo.git",
        None,
    );
    let found = LibraryInfo::new().lib("foo");
    let answers = Answers {
        pkgconfig: None,
        vcpkg: Some(found.clone()),
        local_exists: true,
        checkout: Some(String::from("/work/foo")),
        backend: failing_backend(),
    };
    let mut log = Vec::new();
    assert_eq!(config.build(&everything_enabled(), &answers, &mut log), Ok(found));
    assert!(!log.iter().any(is_backend_run));
    assert_eq!(log, vec![Record::Missed(Stage::PkgConfig), Record::Found(Stage::Vcpkg)]);
}

#[test]
fn metadata_probe_has_priority_over_package_manager() {
    let config = Config::new("foo", None);
    let from_metadata = LibraryInfo::new().lib("foo-metadata");
    let from_manager = LibraryInfo::new().lib("foo-manager");
    let answers = Answers {
        pkgconfig: Some(from_metadata.clone()),
        vcpkg: Some(from_manager.clone()),
        local_exists: false,
        checkout: None,
        backend: failing_backend(),
    };
    let mut log = Vec::new();
    assert_eq!(config.build(&everything_enabled(), &answers, &mut log), Ok(from_metadata));
    assert_eq!(log, vec![Record::Found(Stage::PkgConfig)]);
    let manager_only = Capabilities { use_vcpkg: true, ..Capabilities::none() };
    let mut log = Vec::new();
    assert_eq!(config.build(&manager_only, &answers, &mut log), Ok(from_manager));
    assert_eq!(
        log,
        vec![Record::Skipped(Stage::PkgConfig, Why::Disabled), Record::Found(Stage::Vcpkg)]
    );
}

#[test]
fn probes_are_passed_over_without_a_library() {
    let config = Config::new("foo", None).library(None).source_dir("vendor/foo");
    let answers = Answers {
        pkgconfig: Some(LibraryInfo::new().lib("foo")),
        vcpkg: Some(LibraryInfo::new().lib("foo")),
        local_exists: true,
        checkout: None,
        backend: Ok(LibraryInfo::new().lib("built")),
    };
    let mut log = Vec::new();
    let result = config.build(&everything_enabled(), &answers, &mut log);
    assert_eq!(result, Ok(LibraryInfo::new().lib("built")));
    assert_eq!(
        log,
        vec![
            Record::Skipped(Stage::PkgConfig, Why::NotConfigured),
            Record::Skipped(Stage::Vcpkg, Why::NotConfigured),
            Record::Found(Stage::LocalSource),
            Record::Built(BackendKind::Cc),
        ]
    );
}

#[test]
fn unresolved_local_source_does_not_fall_back_to_remote() {
    let config = Config::new("foo", None).source_dir("vendor/foo").git_repo(
        "https://example/foo.git",
        Some("main"),
    );
    let answers = Answers {
        pkgconfig: None,
        vcpkg: None,
        local_exists: false,
        checkout: Some(String::from("/work/foo")),
        backend: Ok(LibraryInfo::new().lib("foo")),
    };
    let mut log = Vec::new();
    assert_eq!(
        config.build(&everything_enabled(), &answers, &mut log),
        Err(BuildError::SourceResolutionFailed {
            source: Source::Local(SourceDir { path: String::from("vendor/foo") }),
        })
    );
    assert_eq!(log.last(), Some(&Record::Missed(Stage::LocalSource)));
    assert!(!log.iter().any(is_backend_run));
}

#[test]
fn failed_fetch_fails_resolution() {
    let config = Config::new("foo", None).git_repo("https://example/foo.git", Some("main"));
    let caps = Capabilities { git: true, ..Capabilities::none() };
    let answers = Answers {
        pkgconfig: None,
        vcpkg: None,
        local_exists: true,
        checkout: None,
        backend: Ok(LibraryInfo::new().lib("foo")),
    };
    let mut log = Vec::new();
    assert_eq!(
        config.build(&caps, &answers, &mut log),
        Err(BuildError::SourceResolutionFailed {
            source: Source::Remote(GitRepo {
                repo: String::from("https://example/foo.git"),
                reference: Some(String::from("main")),
            }),
        })
    );
    assert_eq!(log.last(), Some(&Record::Missed(Stage::RemoteSource)));
}

#[test]
fn backend_failure_is_reported_with_backend_and_directory() {
    let config = Config::new("foo", None).source_dir("vendor/foo").autotools(
        AutotoolsOptions::new(),
    );
    let caps = Capabilities { source_dir: true, ..Capabilities::none() };
    let answers = Answers {
        pkgconfig: None,
        vcpkg: None,
        local_exists: true,
        checkout: None,
        backend: failing_backend(),
    };
    let mut log = Vec::new();
    assert_eq!(
        config.build(&caps, &answers, &mut log),
        Err(BuildError::BackendExecutionFailed {
            backend: BackendKind::Autotools,
            dir: String::from("vendor/foo"),
            error: BackendError::ProcessFailed {
                status: Some(2),
                output: String::from("make: *** Error 2"),
            },
        })
    );
    assert_eq!(log.last(), Some(&Record::BackendFailed(BackendKind::Autotools)));
    assert_eq!(log.iter().filter(|r| is_backend_run(r)).count(), 1);
}

#[test]
fn build_appends_to_an_existing_log() {
    let config = Config::new("foo", None);
    let mut log = vec![Record::Built(BackendKind::CMake)];
    let answers = Answers {
        pkgconfig: Some(LibraryInfo::new()),
        vcpkg: None,
        local_exists: false,
        checkout: None,
        backend: failing_backend(),
    };
    let caps = Capabilities { use_pkgconfig: true, ..Capabilities::none() };
    assert_eq!(config.build(&caps, &answers, &mut log), Ok(LibraryInfo::new()));
    assert_eq!(log, vec![Record::Built(BackendKind::CMake), Record::Found(Stage::PkgConfig)]);
}

#[test]
fn steps_agree_with_build() {
    let config = Config::new("foo", Some("2.0")).git_repo("https://example/foo.git", None);
    let caps = Capabilities { static_linking: true, ..everything_enabled() };
    let built = LibraryInfo::new().lib("foo");
    let answers = Answers {
        pkgconfig: None,
        vcpkg: None,
        local_exists: false,
        checkout: Some(String::from("/work/foo")),
        backend: Ok(built.clone()),
    };
    let mut expected = Vec::new();
    let result = config.build(&caps, &answers, &mut expected);

    let mut log = Vec::new();
    let mut step = config.start(&caps);
    let mut asked = Vec::new();
    let outcome = loop {
        log.extend(step.log);
        step = match step.next {
            Next::Probe(p) => {
                asked.push(p.kind());
                let request = p.request();
                assert_eq!(request.name, "foo");
                assert_eq!(request.min_version.as_deref(), Some("2.0"));
                assert!(request.statik);
                p.resolve(None)
            },
            Next::Locate(l) => l.resolve(false),
            Next::Fetch(f) => f.resolve(Some(String::from("/work/foo"))),
            Next::Build(b) => b.resolve(Ok(built.clone())),
            Next::Done(result) => break result,
        };
    };
    assert_eq!(asked, vec![ProbeKind::PkgConfig, ProbeKind::Vcpkg]);
    assert_eq!(outcome, result);
    assert_eq!(log, expected);
    assert_eq!(
        log,
        vec![
            Record::Missed(Stage::PkgConfig),
            Record::Missed(Stage::Vcpkg),
            Record::Skipped(Stage::LocalSource, Why::NotConfigured),
            Record::Found(Stage::RemoteSource),
            Record::Built(BackendKind::Cc),
        ]
    );
}
