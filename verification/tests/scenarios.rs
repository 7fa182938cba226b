use sys_build::{
    Answers, Backend, BackendError, BackendKind, BuildError, CMakeOptions, Capabilities, Config,
    GitRepo, LibraryInfo, Next, ProbeKind, Record, Source, SourceDir, Stage, Why,
};

fn unused_backend() -> Result<LibraryInfo, BackendError> {
    Err(BackendError::MissingArtifact { path: String::from("never asked") })
}

fn no_answers() -> Answers {
    Answers {
        pkgconfig: None,
        vcpkg: None,
        local_exists: false,
        checkout: None,
        backend: unused_backend(),
    }
}

#[test]
fn system_library_found_by_metadata_probe() {
    let config = Config::new("foo", Some("1.2.0"));
    let caps = Capabilities { use_pkgconfig: true, ..Capabilities::none() };
    let found = LibraryInfo::new()
        .include_dir("/usr/include/foo-1.3.0")
        .link_dir("/usr/lib")
        .lib("foo")
        .define("FOO_VERSION", Some("1.3.0"));
    let answers = Answers { pkgconfig: Some(found.clone()), ..no_answers() };
    let mut log = Vec::new();
    let result = config.build(&caps, &answers, &mut log);
    assert_eq!(result, Ok(found));
    assert_eq!(log, vec![Record::Found(Stage::PkgConfig)]);
}

#[test]
fn system_library_found_step_by_step() {
    let config = Config::new("foo", Some("1.2.0"));
    let caps = Capabilities { use_pkgconfig: true, ..Capabilities::none() };
    let step = config.start(&caps);
    assert!(step.log.is_empty());
    let probing = match step.next {
        Next::Probe(p) => p,
        _ => panic!("the metadata probe is asked first"),
    };
    assert_eq!(probing.kind(), ProbeKind::PkgConfig);
    let request = probing.request();
    assert_eq!(request.name, "foo");
    assert_eq!(request.min_version.as_deref(), Some("1.2.0"));
    assert!(!request.statik);
    let found = LibraryInfo::new().lib("foo");
    let step = probing.resolve(Some(found.clone()));
    assert_eq!(step.log, vec![Record::Found(Stage::PkgConfig)]);
    match step.next {
        Next::Done(result) => assert_eq!(result, Ok(found)),
        _ => panic!("a find ends the resolution"),
    }
}

#[test]
fn missing_local_directory_fails_resolution() {
    let config = Config::new("foo", None).source_dir("./missing_dir");
    let caps = Capabilities { source_dir: true, ..Capabilities::none() };
    let mut log = Vec::new();
    let result = config.build(&caps, &no_answers(), &mut log);
    assert_eq!(
        result,
        Err(BuildError::SourceResolutionFailed {
            source: Source::Local(SourceDir { path: String::from("./missing_dir") }),
        })
    );
    assert_eq!(
        log,
        vec![
            Record::Skipped(Stage::PkgConfig, Why::Disabled),
            Record::Skipped(Stage::Vcpkg, Why::Disabled),
            Record::Missed(Stage::LocalSource),
        ]
    );
}

#[test]
fn missing_local_directory_with_source_flag_off_has_no_source() {
    let config = Config::new("foo", None).source_dir("./missing_dir");
    let caps = Capabilities::none();
    let mut log = Vec::new();
    let result = config.build(&caps, &no_answers(), &mut log);
    assert_eq!(result, Err(BuildError::NoSourceAvailable));
    assert_eq!(
        log,
        vec![
            Record::Skipped(Stage::PkgConfig, Why::Disabled),
            Record::Skipped(Stage::Vcpkg, Why::Disabled),
            Record::Skipped(Stage::LocalSource, Why::Disabled),
            Record::Skipped(Stage::RemoteSource, Why::Disabled),
            Record::NoSource,
        ]
    );
}

#[test]
fn remote_source_built_with_cmake() {
    let config = Config::new("bar", None)
        .git_repo("https://example/bar.git", Some("v2.0"))
        .cmake(CMakeOptions::new());
    let caps = Capabilities { git: true, ..Capabilities::none() };
    let built = LibraryInfo::new().include_dir("/work/bar/out/include").link_dir(
        "/work/bar/out/lib",
    ).lib("bar");
    let answers = Answers {
        checkout: Some(String::from("/work/bar")),
        backend: Ok(built.clone()),
        ..no_answers()
    };
    let mut log = Vec::new();
    let result = config.build(&caps, &answers, &mut log);
    let info = result.expect("the build succeeds");
    assert!(info.links("bar"));
    assert_eq!(info, built);
    assert_eq!(
        log,
        vec![
            Record::Skipped(Stage::PkgConfig, Why::Disabled),
            Record::Skipped(Stage::Vcpkg, Why::Disabled),
            Record::Skipped(Stage::LocalSource, Why::Disabled),
            Record::Found(Stage::RemoteSource),
            Record::Built(BackendKind::CMake),
        ]
    );
}

#[test]
fn remote_source_built_step_by_step() {
    let config = Config::new("bar", None)
        .git_repo("https://example/bar.git", Some("v2.0"))
        .cmake(CMakeOptions::new());
    let caps = Capabilities { git: true, ..Capabilities::none() };
    let step = config.start(&caps);
    let fetching = match step.next {
        Next::Fetch(f) => f,
        _ => panic!("the repository is fetched first"),
    };
    assert_eq!(
        fetching.source(),
        &GitRepo {
            repo: String::from("https://example/bar.git"),
            reference: Some(String::from("v2.0")),
        }
    );
    let step = fetching.resolve(Some(String::from("/work/bar")));
    assert_eq!(step.log, vec![Record::Found(Stage::RemoteSource)]);
    let building = match step.next {
        Next::Build(b) => b,
        _ => panic!("the checkout is built"),
    };
    assert_eq!(building.dir(), "/work/bar");
    assert_eq!(building.backend(), Backend::CMake(CMakeOptions::new()));
    let step = building.resolve(Ok(LibraryInfo::new().lib("bar")));
    assert_eq!(step.log, vec![Record::Built(BackendKind::CMake)]);
    match step.next {
        Next::Done(Ok(info)) => assert_eq!(info.libs(), &vec![String::from("bar")]),
        _ => panic!("the build ends the resolution"),
    }
}
