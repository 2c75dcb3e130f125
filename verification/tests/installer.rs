use openfrp_launcher::config::{Config, StoreError, StoreErrorKind};
use openfrp_launcher::installer::{
    Action, Event, InstallError, Installer, Log, Phase, RemoteVersionDescriptor, Source, Step,
    EXECUTABLE_MODE,
};
use openfrp_launcher::platform::{Arch, Os, Platform, Unsupported};

fn descriptor(latest: &str, bases: &[&str]) -> RemoteVersionDescriptor {
    RemoteVersionDescriptor {
        latest: latest.to_string(),
        sources: bases
            .iter()
            .map(|b| Source { label: "mirror".to_string(), base_url: b.to_string() })
            .collect(),
    }
}

fn stored(version: Option<&str>, filename: Option<&str>) -> Config {
    Config {
        schema_version: Some(1),
        agent_version: version.map(|v| v.to_string()),
        agent_filename: filename.map(|f| f.to_string()),
        host_app_version: Some("0.4.2".to_string()),
    }
}

fn begun(os: &str, arch: &str) -> Step {
    Installer::begin(os, arch).unwrap()
}

/// Runs an install up to the probe of the target, and returns the step
/// that asks for it.
fn up_to_probe(os: &str, arch: &str, latest: &str, base: &str, record: Config) -> Step {
    let first = begun(os, arch);
    let second = first.state.step(Event::Metadata(descriptor(latest, &[base])));
    assert!(matches!(second.action, Action::LoadConfig));
    second.state.step(Event::Loaded(record))
}

/// Runs an install up to the download, with no agent in place.
fn up_to_download(os: &str, arch: &str) -> Step {
    let probe = up_to_probe(os, arch, "1.2.3", "https://dl.example.net/", stored(None, None));
    probe.state.step(Event::Exists(false))
}

fn failed_phase(step: &Step) -> Phase {
    match &step.action {
        Action::Finish(Err(InstallError::Network(f))) => f.phase,
        Action::Finish(Err(InstallError::Filesystem(f))) => f.phase,
        Action::Finish(Err(InstallError::Archive(f))) => f.phase,
        other => panic!("not a failure: {:?}", other),
    }
}

#[test]
fn begin_asks_the_registry() {
    let first = begun("linux", "x86_64");
    assert!(matches!(first.action, Action::FetchMetadata));
    assert!(matches!(first.logs.as_slice(), [Log::CheckingLatest]));
    assert_eq!(first.state.phase, Phase::FetchingMetadata);
    assert_eq!(first.state.platform, Platform { os: Os::Linux, arch: Arch::Amd64 });
}

#[test]
fn begin_refuses_an_unsupported_machine() {
    assert!(matches!(
        Installer::begin("freebsd", "x86_64"),
        Err(InstallError::UnsupportedPlatform(Unsupported::Os))
    ));
    assert!(matches!(
        Installer::begin("linux", "mips"),
        Err(InstallError::UnsupportedPlatform(Unsupported::Arch))
    ));
    assert!(matches!(
        Installer::begin("", ""),
        Err(InstallError::UnsupportedPlatform(Unsupported::Os))
    ));
}

#[test]
fn metadata_is_followed_by_the_configuration() {
    let first = begun("linux", "x86_64");
    let second = first.state.step(Event::Metadata(descriptor(
        "/1.2.3/",
        &["https://a.example.net/", "https://b.example.net/"],
    )));
    assert!(matches!(second.action, Action::LoadConfig));
    assert!(second.logs.is_empty());
    assert_eq!(second.state.phase, Phase::LoadingConfig);
    assert_eq!(second.state.latest, "1.2.3");
    assert_eq!(second.state.source_base, "https://a.example.net/");
}

#[test]
fn metadata_without_a_source_is_a_network_failure() {
    let first = begun("linux", "x86_64");
    let second = first.state.step(Event::Metadata(descriptor("1.2.3", &[])));
    match &second.action {
        Action::Finish(Err(InstallError::Network(f))) => {
            assert_eq!(f.phase, Phase::FetchingMetadata);
            assert_eq!(f.detail, "the registry names no download source");
        }
        other => panic!("unexpected {:?}", other),
    }
    assert_eq!(second.state.phase, Phase::Finished);
}

#[test]
fn failed_fetch_is_a_network_failure() {
    let first = begun("macos", "aarch64");
    let second = first.state.step(Event::Failed("connection refused".to_string()));
    match &second.action {
        Action::Finish(Err(InstallError::Network(f))) => {
            assert_eq!(f.phase, Phase::FetchingMetadata);
            assert_eq!(f.detail, "connection refused");
        }
        other => panic!("unexpected {:?}", other),
    }
}

#[test]
fn failed_load_is_a_store_failure() {
    let first = begun("linux", "x86_64");
    let second = first.state.step(Event::Metadata(descriptor("1", &["b"])));
    let third = second.state.step(Event::StoreFailed(StoreError {
        kind: StoreErrorKind::Parse,
        detail: "expected value at line 1".to_string(),
    }));
    match &third.action {
        Action::Finish(Err(InstallError::Store(e))) => {
            assert_eq!(e.kind, StoreErrorKind::Parse);
            assert_eq!(e.detail, "expected value at line 1");
        }
        other => panic!("unexpected {:?}", other),
    }
}

#[test]
fn loaded_configuration_is_followed_by_the_probe_of_the_target() {
    let probe = up_to_probe("windows", "x86_64", "1.2.3", "b", stored(None, None));
    match &probe.action {
        Action::Probe { name } => assert_eq!(name, "frpc_windows_amd64.exe"),
        other => panic!("unexpected {:?}", other),
    }
    assert!(probe.logs.is_empty());
    assert_eq!(probe.state.phase, Phase::ProbingTarget);
}

#[test]
fn current_agent_is_left_alone() {
    let probe = up_to_probe(
        "linux",
        "x86_64",
        "/1.2.3/",
        "https://dl.example.net/",
        stored(Some("1.2.3"), Some("frpc_linux_amd64")),
    );
    let last = probe.state.step(Event::Exists(true));
    match &last.action {
        Action::Finish(Ok(done)) => {
            assert_eq!(done.filename, "frpc_linux_amd64");
            assert!(!done.downloaded);
        }
        other => panic!("unexpected {:?}", other),
    }
    match last.logs.as_slice() {
        [Log::VersionCheck { current, latest }, Log::AlreadyCurrent] => {
            assert_eq!(current, "1.2.3");
            assert_eq!(latest, "1.2.3");
        }
        other => panic!("unexpected {:?}", other),
    }
    assert_eq!(last.state.phase, Phase::Finished);
}

#[test]
fn second_install_fetches_once_and_downloads_nothing() {
    // The first install: nothing in place.
    let mut step = up_to_download("linux", "x86_64");
    let mut saved: Option<Config> = None;
    let mut actions = 0;
    loop {
        actions += 1;
        assert!(actions < 32);
        let event = match &step.action {
            Action::Download { .. } => Event::Payload { announced: None, body: vec![1, 2, 3] },
            Action::ExtractTarGz { .. } => Event::Done,
            Action::Probe { .. } => Event::Exists(true),
            Action::Rename { .. } | Action::RemoveDir { .. } | Action::SetMode { .. } => Event::Done,
            Action::SaveConfig { record } => {
                saved = Some(record.clone());
                Event::Done
            }
            Action::Finish(outcome) => {
                assert!(outcome.as_ref().unwrap().downloaded);
                break;
            }
            other => panic!("unexpected {:?}", other),
        };
        step = step.state.step(event);
    }
    // The second install: the agent is in place, the registry unchanged.
    let reloaded = Config::on_load(saved, "0.4.2");
    let mut step = begun("linux", "x86_64");
    let mut fetches = 0;
    let mut downloads = 0;
    loop {
        let event = match &step.action {
            Action::FetchMetadata => {
                fetches += 1;
                Event::Metadata(descriptor("1.2.3", &["https://dl.example.net/"]))
            }
            Action::LoadConfig => Event::Loaded(reloaded.clone()),
            Action::Probe { .. } => Event::Exists(true),
            Action::Download { .. } => {
                downloads += 1;
                Event::Payload { announced: None, body: vec![] }
            }
            Action::Finish(outcome) => {
                assert!(!outcome.as_ref().unwrap().downloaded);
                break;
            }
            other => panic!("unexpected {:?}", other),
        };
        step = step.state.step(event);
    }
    assert_eq!(fetches, 1);
    assert_eq!(downloads, 0);
}

#[test]
fn outdated_agent_is_removed_first() {
    let probe = up_to_probe(
        "linux",
        "x86_64",
        "1.2.3",
        "https://dl.example.net/",
        stored(Some("1.2.2"), Some("frpc_linux_amd64")),
    );
    let removal = probe.state.step(Event::Exists(true));
    match &removal.action {
        Action::RemoveFile { name } => assert_eq!(name, "frpc_linux_amd64"),
        other => panic!("unexpected {:?}", other),
    }
    match removal.logs.as_slice() {
        [Log::VersionCheck { current, latest }] => {
            assert_eq!(current, "1.2.2");
            assert_eq!(latest, "1.2.3");
        }
        other => panic!("unexpected {:?}", other),
    }
    let download = removal.state.step(Event::Done);
    match &download.action {
        Action::Download { url } => {
            assert_eq!(url, "https://dl.example.net/1.2.3frpc_linux_amd64.tar.gz")
        }
        other => panic!("unexpected {:?}", other),
    }
    match download.logs.as_slice() {
        [Log::DownloadStarting { url }] => {
            assert_eq!(url, "https://dl.example.net/1.2.3frpc_linux_amd64.tar.gz")
        }
        other => panic!("unexpected {:?}", other),
    }
}

#[test]
fn agent_without_recorded_version_is_outdated() {
    let probe = up_to_probe("linux", "x86_64", "1.2.3", "b/", stored(None, None));
    let removal = probe.state.step(Event::Exists(true));
    assert!(matches!(removal.action, Action::RemoveFile { .. }));
    match removal.logs.as_slice() {
        [Log::VersionCheck { current, latest }] => {
            assert_eq!(current, "");
            assert_eq!(latest, "1.2.3");
        }
        other => panic!("unexpected {:?}", other),
    }
}

#[test]
fn failed_removal_is_a_filesystem_failure() {
    let probe = up_to_probe("linux", "x86_64", "2", "b/", stored(Some("1"), None));
    let removal = probe.state.step(Event::Exists(true));
    let last = removal.state.step(Event::Failed("permission denied".to_string()));
    assert!(matches!(last.action, Action::Finish(Err(InstallError::Filesystem(_)))));
    assert_eq!(failed_phase(&last), Phase::RemovingStale);
}

#[test]
fn missing_agent_is_downloaded() {
    let download = up_to_download("macos", "aarch64");
    match &download.action {
        Action::Download { url } => {
            assert_eq!(url, "https://dl.example.net/1.2.3frpc_darwin_arm64.tar.gz")
        }
        other => panic!("unexpected {:?}", other),
    }
    match download.logs.as_slice() {
        [Log::TargetMissing, Log::DownloadStarting { url }] => {
            assert_eq!(url, "https://dl.example.net/1.2.3frpc_darwin_arm64.tar.gz")
        }
        other => panic!("unexpected {:?}", other),
    }
    assert_eq!(download.state.phase, Phase::Downloading);
}

#[test]
fn failed_download_is_a_network_failure() {
    let download = up_to_download("linux", "x86_64");
    let last = download.state.step(Event::Failed("timed out".to_string()));
    assert!(matches!(last.action, Action::Finish(Err(InstallError::Network(_)))));
    assert_eq!(failed_phase(&last), Phase::Downloading);
}

#[test]
fn install_of_a_newer_version_on_linux() {
    // Latest "1.2.3", stored "1.2.2", target absent.
    let probe = up_to_probe(
        "linux",
        "x86_64",
        "1.2.3",
        "https://dl.example.net/",
        stored(Some("1.2.2"), Some("frpc_linux_amd64")),
    );
    let download = probe.state.step(Event::Exists(false));
    assert!(matches!(download.action, Action::Download { .. }));

    let unpack = download.state.step(Event::Payload { announced: Some(5), body: vec![9, 8, 7] });
    match &unpack.action {
        Action::ExtractTarGz { contents } => assert_eq!(contents, &vec![9, 8, 7]),
        other => panic!("unexpected {:?}", other),
    }
    assert!(matches!(
        unpack.logs.as_slice(),
        [Log::ArchiveSize { announced: 5 }, Log::Downloaded { bytes: 3 }, Log::Extracting]
    ));

    let probe_exe = unpack.state.step(Event::Done);
    match &probe_exe.action {
        Action::Probe { name } => assert_eq!(name, "frpc_linux_amd6464/frpc"),
        other => panic!("unexpected {:?}", other),
    }

    let rename = probe_exe.state.step(Event::Exists(true));
    match &rename.action {
        Action::Rename { from, to } => {
            assert_eq!(from, "frpc_linux_amd6464/frpc");
            assert_eq!(to, "frpc_linux_amd64");
        }
        other => panic!("unexpected {:?}", other),
    }

    let probe_dir = rename.state.step(Event::Done);
    match &probe_dir.action {
        Action::Probe { name } => assert_eq!(name, "frpc_linux_amd6464"),
        other => panic!("unexpected {:?}", other),
    }

    let cleanup = probe_dir.state.step(Event::Exists(true));
    match &cleanup.action {
        Action::RemoveDir { name } => assert_eq!(name, "frpc_linux_amd6464"),
        other => panic!("unexpected {:?}", other),
    }

    let mode = cleanup.state.step(Event::Done);
    match &mode.action {
        Action::SetMode { name, mode } => {
            assert_eq!(name, "frpc_linux_amd64");
            assert_eq!(*mode, 0o755);
        }
        other => panic!("unexpected {:?}", other),
    }

    let save = mode.state.step(Event::Done);
    match &save.action {
        Action::SaveConfig { record } => {
            assert_eq!(record.agent_version, Some("1.2.3".to_string()));
            assert_eq!(record.agent_filename, Some("frpc_linux_amd64".to_string()));
            assert_eq!(record.schema_version, Some(1));
            assert_eq!(record.host_app_version, Some("0.4.2".to_string()));
        }
        other => panic!("unexpected {:?}", other),
    }
    assert!(matches!(save.logs.as_slice(), [Log::PermissionsSet]));
    assert_eq!(save.state.record.agent_version, Some("1.2.3".to_string()));

    let done = save.state.step(Event::Done);
    match &done.action {
        Action::Finish(Ok(installed)) => {
            assert_eq!(installed.filename, "frpc_linux_amd64");
            assert!(installed.downloaded);
        }
        other => panic!("unexpected {:?}", other),
    }
    assert!(matches!(done.logs.as_slice(), [Log::Completed]));
    assert_eq!(done.state.phase, Phase::Finished);
}

#[test]
fn install_on_windows_goes_through_a_zip_file() {
    let download = up_to_download("windows", "x86_64");
    match &download.action {
        Action::Download { url } => {
            assert_eq!(url, "https://dl.example.net/1.2.3frpc_windows_amd64.zip")
        }
        other => panic!("unexpected {:?}", other),
    }

    let write = download.state.step(Event::Payload { announced: None, body: vec![80, 75] });
    match &write.action {
        Action::WriteFile { name, contents } => {
            assert_eq!(name, "frpc.zip");
            assert_eq!(contents, &vec![80, 75]);
        }
        other => panic!("unexpected {:?}", other),
    }
    match write.logs.as_slice() {
        [Log::ArchiveSize { announced: 0 }, Log::Downloaded { bytes: 2 }, Log::TemporaryFile { name }] => {
            assert_eq!(name, "frpc.zip")
        }
        other => panic!("unexpected {:?}", other),
    }

    let unpack = write.state.step(Event::Done);
    match &unpack.action {
        Action::ExtractZip { archive } => assert_eq!(archive, "frpc.zip"),
        other => panic!("unexpected {:?}", other),
    }
    assert!(matches!(unpack.logs.as_slice(), [Log::Extracting]));

    let remove_zip = unpack.state.step(Event::Done);
    match &remove_zip.action {
        Action::RemoveFile { name } => assert_eq!(name, "frpc.zip"),
        other => panic!("unexpected {:?}", other),
    }

    let probe_exe = remove_zip.state.step(Event::Done);
    match &probe_exe.action {
        Action::Probe { name } => assert_eq!(name, "frpc_windows_amd6464/frpc.exe"),
        other => panic!("unexpected {:?}", other),
    }
    assert!(probe_exe.logs.is_empty());

    let rename = probe_exe.state.step(Event::Exists(true));
    match &rename.action {
        Action::Rename { from, to } => {
            assert_eq!(from, "frpc_windows_amd6464/frpc.exe");
            assert_eq!(to, "frpc_windows_amd64.exe");
        }
        other => panic!("unexpected {:?}", other),
    }

    let probe_dir = rename.state.step(Event::Done);
    let cleanup = probe_dir.state.step(Event::Exists(true));
    assert!(matches!(cleanup.action, Action::RemoveDir { .. }));

    // No permission bits on this family: the configuration is saved next.
    let save = cleanup.state.step(Event::Done);
    match &save.action {
        Action::SaveConfig { record } => {
            assert_eq!(record.agent_version, Some("1.2.3".to_string()));
            assert_eq!(record.agent_filename, Some("frpc_windows_amd64.exe".to_string()));
        }
        other => panic!("unexpected {:?}", other),
    }
    assert!(save.logs.is_empty());

    let done = save.state.step(Event::Done);
    assert!(matches!(done.action, Action::Finish(Ok(_))));
}

#[test]
fn zip_file_that_cannot_be_written_is_a_filesystem_failure() {
    let download = up_to_download("windows", "x86");
    let write = download.state.step(Event::Payload { announced: None, body: vec![] });
    let last = write.state.step(Event::Failed("disk full".to_string()));
    assert!(matches!(last.action, Action::Finish(Err(InstallError::Filesystem(_)))));
    assert_eq!(failed_phase(&last), Phase::WritingArchive);
}

#[test]
fn archive_that_cannot_be_unpacked_is_an_archive_failure() {
    let download = up_to_download("linux", "arm");
    let unpack = download.state.step(Event::Payload { announced: None, body: vec![0] });
    let last = unpack.state.step(Event::Failed("invalid gzip header".to_string()));
    match &last.action {
        Action::Finish(Err(InstallError::Archive(f))) => {
            assert_eq!(f.phase, Phase::Unpacking);
            assert_eq!(f.detail, "invalid gzip header");
        }
        other => panic!("unexpected {:?}", other),
    }

    let download = up_to_download("windows", "arm");
    let write = download.state.step(Event::Payload { announced: None, body: vec![0] });
    let unpack = write.state.step(Event::Done);
    let last = unpack.state.step(Event::Failed("invalid Zip archive".to_string()));
    assert!(matches!(last.action, Action::Finish(Err(InstallError::Archive(_)))));
}

#[test]
fn zip_file_that_cannot_be_removed_is_only_logged() {
    let download = up_to_download("windows", "x86_64");
    let write = download.state.step(Event::Payload { announced: None, body: vec![] });
    let unpack = write.state.step(Event::Done);
    let remove_zip = unpack.state.step(Event::Done);
    let probe_exe = remove_zip.state.step(Event::Failed("in use".to_string()));
    assert!(matches!(probe_exe.action, Action::Probe { .. }));
    match probe_exe.logs.as_slice() {
        [Log::TemporaryFileLeft { detail }] => assert_eq!(detail, "in use"),
        other => panic!("unexpected {:?}", other),
    }
}

#[test]
fn missing_unpacked_paths_are_logged_and_the_install_goes_on() {
    let download = up_to_download("linux", "x86_64");
    let unpack = download.state.step(Event::Payload { announced: None, body: vec![] });
    let probe_exe = unpack.state.step(Event::Done);
    let probe_dir = probe_exe.state.step(Event::Exists(false));
    match &probe_dir.action {
        Action::Probe { name } => assert_eq!(name, "frpc_linux_amd6464"),
        other => panic!("unexpected {:?}", other),
    }
    match probe_dir.logs.as_slice() {
        [Log::UnpackedMissing { name }] => assert_eq!(name, "frpc_linux_amd6464/frpc"),
        other => panic!("unexpected {:?}", other),
    }
    let mode = probe_dir.state.step(Event::Exists(false));
    assert!(matches!(mode.action, Action::SetMode { .. }));
    match mode.logs.as_slice() {
        [Log::UnpackedMissing { name }] => assert_eq!(name, "frpc_linux_amd6464"),
        other => panic!("unexpected {:?}", other),
    }
}

#[test]
fn failed_move_is_a_filesystem_failure() {
    let download = up_to_download("linux", "x86_64");
    let unpack = download.state.step(Event::Payload { announced: None, body: vec![] });
    let probe_exe = unpack.state.step(Event::Done);
    let rename = probe_exe.state.step(Event::Exists(true));
    let last = rename.state.step(Event::Failed("cross-device link".to_string()));
    assert!(matches!(last.action, Action::Finish(Err(InstallError::Filesystem(_)))));
    assert_eq!(failed_phase(&last), Phase::MovingExecutable);
}

#[test]
fn failed_cleanup_is_a_filesystem_failure() {
    let download = up_to_download("linux", "x86_64");
    let unpack = download.state.step(Event::Payload { announced: None, body: vec![] });
    let probe_exe = unpack.state.step(Event::Done);
    let probe_dir = probe_exe.state.step(Event::Exists(false));
    let cleanup = probe_dir.state.step(Event::Exists(true));
    let last = cleanup.state.step(Event::Failed("busy".to_string()));
    assert!(matches!(last.action, Action::Finish(Err(InstallError::Filesystem(_)))));
    assert_eq!(failed_phase(&last), Phase::RemovingUnpacked);
}

#[test]
fn failed_permissions_are_only_logged() {
    let download = up_to_download("macos", "x86_64");
    let unpack = download.state.step(Event::Payload { announced: None, body: vec![] });
    let probe_exe = unpack.state.step(Event::Done);
    let probe_dir = probe_exe.state.step(Event::Exists(false));
    let mode = probe_dir.state.step(Event::Exists(false));
    let save = mode.state.step(Event::Failed("operation not permitted".to_string()));
    assert!(matches!(save.action, Action::SaveConfig { .. }));
    match save.logs.as_slice() {
        [Log::PermissionsNotSet { detail }] => assert_eq!(detail, "operation not permitted"),
        other => panic!("unexpected {:?}", other),
    }
}

#[test]
fn failed_save_is_a_store_failure() {
    let download = up_to_download("windows", "x86_64");
    let write = download.state.step(Event::Payload { announced: None, body: vec![] });
    let unpack = write.state.step(Event::Done);
    let remove_zip = unpack.state.step(Event::Done);
    let probe_exe = remove_zip.state.step(Event::Done);
    let probe_dir = probe_exe.state.step(Event::Exists(false));
    let save = probe_dir.state.step(Event::Exists(false));
    assert!(matches!(save.action, Action::SaveConfig { .. }));
    let last = save.state.step(Event::StoreFailed(StoreError {
        kind: StoreErrorKind::Io,
        detail: "read-only file system".to_string(),
    }));
    match &last.action {
        Action::Finish(Err(InstallError::Store(e))) => {
            assert_eq!(e.kind, StoreErrorKind::Io);
            assert_eq!(e.detail, "read-only file system");
        }
        other => panic!("unexpected {:?}", other),
    }
}

#[test]
fn event_out_of_turn_ends_the_install() {
    let first = begun("linux", "x86_64");
    let last = first.state.step(Event::Done);
    assert!(matches!(
        last.action,
        Action::Finish(Err(InstallError::OutOfTurn(Phase::FetchingMetadata)))
    ));
    assert_eq!(last.state.phase, Phase::Finished);

    let probe = up_to_probe("linux", "x86_64", "1", "b", stored(None, None));
    let last = probe.state.step(Event::Loaded(stored(None, None)));
    assert!(matches!(
        last.action,
        Action::Finish(Err(InstallError::OutOfTurn(Phase::ProbingTarget)))
    ));
}

#[test]
fn finished_install_takes_no_more_events() {
    let first = begun("linux", "x86_64");
    let ended = first.state.step(Event::Failed("offline".to_string()));
    assert_eq!(ended.state.phase, Phase::Finished);
    let again = ended.state.step(Event::Metadata(descriptor("1", &["b"])));
    assert!(matches!(again.action, Action::Finish(Err(InstallError::OutOfTurn(Phase::Finished)))));
    assert_eq!(again.state.phase, Phase::Finished);
}

#[test]
fn version_is_compared_without_its_slashes() {
    let probe = up_to_probe("linux", "x86_64", "//v9//", "b", stored(Some("v9"), None));
    let last = probe.state.step(Event::Exists(true));
    assert!(matches!(last.action, Action::Finish(Ok(_))));
    let probe = up_to_probe("linux", "x86_64", "v9", "b", stored(Some("/v9/"), None));
    let last = probe.state.step(Event::Exists(true));
    assert!(matches!(last.action, Action::RemoveFile { .. }));
}

#[test]
fn address_and_target_of_an_install() {
    let probe = up_to_probe("linux", "aarch64", "/7.0/", "https://m.example.org/f/", stored(None, None));
    assert_eq!(probe.state.target(), "frpc_linux_arm64");
    assert_eq!(probe.state.address(), "https://m.example.org/f/7.0frpc_linux_arm64.tar.gz");
    assert!(!probe.state.is_current());
}

#[test]
fn executable_mode_is_0755() {
    assert_eq!(EXECUTABLE_MODE, 0o755);
    assert_eq!(EXECUTABLE_MODE, 493);
}
