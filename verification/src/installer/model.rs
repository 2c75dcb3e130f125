//! The installer as a function: from an install and the event that
//! answers its last action to the install as it then stands, the entries
//! to log and the next action.

use crate::config::{text_or, with_install, ConfigView};
use crate::installer::data::{
    archive_file, no_source, ActionView, EventView, FailureView, InstallErrorView, InstalledView,
    InstallerView, LogView, Phase, StepView, EXECUTABLE_MODE,
};
use crate::platform::{
    download_address, installed_name, resolved, unpacked_dir, unpacked_executable, Os,
};
use crate::text::trimmed;
use vstd::prelude::*;

verus! {

/// The install `s` in phase `phase`, with `logs` and then `action` to
/// carry out.
pub open spec fn proceed(s: InstallerView, phase: Phase, logs: Seq<LogView>, action: ActionView) -> StepView {
    StepView { state: InstallerView { phase, ..s }, logs, action }
}

/// The install `s` at its end, with `outcome`.
pub open spec fn ended(
    s: InstallerView,
    logs: Seq<LogView>,
    outcome: Result<InstalledView, InstallErrorView>,
) -> StepView {
    proceed(s, Phase::Finished, logs, ActionView::Finish(outcome))
}

/// The failure of what `s` waits for, with the message `detail`.
pub open spec fn failure(s: InstallerView, detail: Seq<char>) -> FailureView {
    FailureView { phase: s.phase, detail }
}

/// The install `s` at its end because the event does not answer what it
/// waits for.
pub open spec fn out_of_turn(s: InstallerView) -> StepView {
    ended(s, Seq::empty(), Err(InstallErrorView::OutOfTurn(s.phase)))
}

/// The name under which `s` installs the agent.
pub open spec fn target(s: InstallerView) -> Seq<char> {
    installed_name(s.platform)
}

/// The address that `s` downloads from: the first source's base, the
/// latest version without the `/` around it, and the archive's name.
pub open spec fn address(s: InstallerView) -> Seq<char> {
    download_address(s.source_base, s.latest, s.platform)
}

/// The download starts, after `logs` and the entry that announces it.
pub open spec fn start_download(s: InstallerView, logs: Seq<LogView>) -> StepView {
    proceed(
        s,
        Phase::Downloading,
        logs.push(LogView::DownloadStarting { url: address(s) }),
        ActionView::Download { url: address(s) },
    )
}

/// The archive is unpacked: look for the executable in it.
pub open spec fn probe_unpacked(s: InstallerView, logs: Seq<LogView>) -> StepView {
    proceed(
        s,
        Phase::ProbingUnpacked,
        logs,
        ActionView::Probe { name: unpacked_executable(s.platform) },
    )
}

/// The executable is dealt with: look for the directory that the archive
/// unpacked into.
pub open spec fn probe_unpacked_dir(s: InstallerView, logs: Seq<LogView>) -> StepView {
    proceed(s, Phase::ProbingUnpackedDir, logs, ActionView::Probe { name: unpacked_dir(s.platform) })
}

/// The configuration is saved, with the version and the name of what was
/// installed.
pub open spec fn save(s: InstallerView, logs: Seq<LogView>) -> StepView {
    let record = with_install(s.record, s.latest, target(s));
    StepView {
        state: InstallerView { phase: Phase::SavingConfig, record, ..s },
        logs,
        action: ActionView::SaveConfig { record },
    }
}

/// The files are in place: set the permission bits where the platform
/// has them, and then save the configuration.
pub open spec fn settle(s: InstallerView, logs: Seq<LogView>) -> StepView {
    if s.platform.os != Os::Windows {
        proceed(
            s,
            Phase::SettingMode,
            logs,
            ActionView::SetMode { name: target(s), mode: EXECUTABLE_MODE },
        )
    } else {
        save(s, logs)
    }
}

/// The first decision of an install on a machine that reports `os` and
/// `arch`: ask the registry, or fail where the machine has no build.
pub open spec fn begin_spec(os: Seq<char>, arch: Seq<char>) -> Result<StepView, InstallErrorView> {
    match resolved(os, arch) {
        Err(u) => Err(InstallErrorView::UnsupportedPlatform(u)),
        Ok(platform) => Ok(
            StepView {
                state: InstallerView {
                    phase: Phase::FetchingMetadata,
                    platform,
                    latest: Seq::empty(),
                    source_base: Seq::empty(),
                    record: ConfigView {
                        schema_version: None,
                        agent_version: None,
                        agent_filename: None,
                        host_app_version: None,
                    },
                },
                logs: seq![LogView::CheckingLatest],
                action: ActionView::FetchMetadata,
            },
        ),
    }
}

/// The decision that follows the event `e` in the install `s`.
pub open spec fn step_spec(s: InstallerView, e: EventView) -> StepView {
    match s.phase {
        Phase::FetchingMetadata => match e {
            EventView::Metadata(d) => if d.sources.len() == 0 {
                ended(s, Seq::empty(), Err(InstallErrorView::Network(failure(s, no_source()))))
            } else {
                proceed(
                    InstallerView {
                        latest: trimmed(d.latest, '/'),
                        source_base: d.sources[0].base_url,
                        ..s
                    },
                    Phase::LoadingConfig,
                    Seq::empty(),
                    ActionView::LoadConfig,
                )
            },
            EventView::Failed(detail) => ended(
                s,
                Seq::empty(),
                Err(InstallErrorView::Network(failure(s, detail))),
            ),
            _ => out_of_turn(s),
        },
        Phase::LoadingConfig => match e {
            EventView::Loaded(record) => proceed(
                InstallerView { record, ..s },
                Phase::ProbingTarget,
                Seq::empty(),
                ActionView::Probe { name: target(s) },
            ),
            EventView::StoreFailed(err) => ended(s, Seq::empty(), Err(InstallErrorView::Store(err))),
            _ => out_of_turn(s),
        },
        Phase::ProbingTarget => match e {
            EventView::Exists(true) => {
                let check = LogView::VersionCheck {
                    current: text_or(s.record.agent_version, Seq::empty()),
                    latest: s.latest,
                };
                if s.record.agent_version == Some(s.latest) {
                    ended(
                        s,
                        seq![check, LogView::AlreadyCurrent],
                        Ok(InstalledView { filename: target(s), downloaded: false }),
                    )
                } else {
                    proceed(
                        s,
                        Phase::RemovingStale,
                        seq![check],
                        ActionView::RemoveFile { name: target(s) },
                    )
                }
            },
            EventView::Exists(false) => start_download(s, seq![LogView::TargetMissing]),
            _ => out_of_turn(s),
        },
        Phase::RemovingStale => match e {
            EventView::Done => start_download(s, Seq::empty()),
            EventView::Failed(detail) => ended(
                s,
                Seq::empty(),
                Err(InstallErrorView::Filesystem(failure(s, detail))),
            ),
            _ => out_of_turn(s),
        },
        Phase::Downloading => match e {
            EventView::Payload { announced, body } => {
                let size = LogView::ArchiveSize {
                    announced: match announced {
                        Some(n) => n,
                        None => 0,
                    },
                };
                let got = LogView::Downloaded { bytes: body.len() };
                if s.platform.os == Os::Windows {
                    proceed(
                        s,
                        Phase::WritingArchive,
                        seq![size, got, LogView::TemporaryFile { name: archive_file() }],
                        ActionView::WriteFile { name: archive_file(), contents: body },
                    )
                } else {
                    proceed(
                        s,
                        Phase::Unpacking,
                        seq![size, got, LogView::Extracting],
                        ActionView::ExtractTarGz { contents: body },
                    )
                }
            },
            EventView::Failed(detail) => ended(
                s,
                Seq::empty(),
                Err(InstallErrorView::Network(failure(s, detail))),
            ),
            _ => out_of_turn(s),
        },
        Phase::WritingArchive => match e {
            EventView::Done => proceed(
                s,
                Phase::Unpacking,
                seq![LogView::Extracting],
                ActionView::ExtractZip { archive: archive_file() },
            ),
            EventView::Failed(detail) => ended(
                s,
                Seq::empty(),
                Err(InstallErrorView::Filesystem(failure(s, detail))),
            ),
            _ => out_of_turn(s),
        },
        Phase::Unpacking => match e {
            EventView::Done => if s.platform.os == Os::Windows {
                proceed(
                    s,
                    Phase::RemovingArchive,
                    Seq::empty(),
                    ActionView::RemoveFile { name: archive_file() },
                )
            } else {
                probe_unpacked(s, Seq::empty())
            },
            EventView::Failed(detail) => ended(
                s,
                Seq::empty(),
                Err(InstallErrorView::Archive(failure(s, detail))),
            ),
            _ => out_of_turn(s),
        },
        Phase::RemovingArchive => match e {
            EventView::Done => probe_unpacked(s, Seq::empty()),
            EventView::Failed(detail) => probe_unpacked(
                s,
                seq![LogView::TemporaryFileLeft { detail }],
            ),
            _ => out_of_turn(s),
        },
        Phase::ProbingUnpacked => match e {
            EventView::Exists(true) => proceed(
                s,
                Phase::MovingExecutable,
                Seq::empty(),
                ActionView::Rename { from: unpacked_executable(s.platform), to: target(s) },
            ),
            EventView::Exists(false) => probe_unpacked_dir(
                s,
                seq![LogView::UnpackedMissing { name: unpacked_executable(s.platform) }],
            ),
            _ => out_of_turn(s),
        },
        Phase::MovingExecutable => match e {
            EventView::Done => probe_unpacked_dir(s, Seq::empty()),
            EventView::Failed(detail) => ended(
                s,
                Seq::empty(),
                Err(InstallErrorView::Filesystem(failure(s, detail))),
            ),
            _ => out_of_turn(s),
        },
        Phase::ProbingUnpackedDir => match e {
            EventView::Exists(true) => proceed(
                s,
                Phase::RemovingUnpacked,
                Seq::empty(),
                ActionView::RemoveDir { name: unpacked_dir(s.platform) },
            ),
            EventView::Exists(false) => settle(
                s,
                seq![LogView::UnpackedMissing { name: unpacked_dir(s.platform) }],
            ),
            _ => out_of_turn(s),
        },
        Phase::RemovingUnpacked => match e {
            EventView::Done => settle(s, Seq::empty()),
            EventView::Failed(detail) => ended(
                s,
                Seq::empty(),
                Err(InstallErrorView::Filesystem(failure(s, detail))),
            ),
            _ => out_of_turn(s),
        },
        Phase::SettingMode => match e {
            EventView::Done => save(s, seq![LogView::PermissionsSet]),
            EventView::Failed(detail) => save(s, seq![LogView::PermissionsNotSet { detail }]),
            _ => out_of_turn(s),
        },
        Phase::SavingConfig => match e {
            EventView::Done => ended(
                s,
                seq![LogView::Completed],
                Ok(InstalledView { filename: target(s), downloaded: true }),
            ),
            EventView::StoreFailed(err) => ended(s, Seq::empty(), Err(InstallErrorView::Store(err))),
            _ => out_of_turn(s),
        },
        Phase::Finished => out_of_turn(s),
    }
}

} // verus!
