//! The installer: what to do next to get the latest agent in place.
//!
//! Installing alternates between work that only the host can do (asking
//! the registry, touching the disk, unpacking an archive) and decisions.
//! The decisions are here. [`Installer::begin`] and [`Installer::step`]
//! each answer with a [`Step`]: the log entries to emit, and the one
//! action to perform next. The host performs the action and reports what
//! came of it as an [`Event`] to the next call of `step`, until the action
//! is [`Action::Finish`].
//!
//! All names in actions are relative to the application's data directory.
//!
//! An archive that unpacks without the expected executable, or without
//! the expected directory, does not fail the install: the missing path is
//! logged as [`Log::UnpackedMissing`] and the install goes on.

pub mod data;
pub mod laws;
pub mod model;

use crate::config::{Config, StoreError};
pub use crate::installer::data::{
    Action, Event, Failure, InstallError, Installed, Installer, Log, Phase,
    RemoteVersionDescriptor, Source, Step, EXECUTABLE_MODE,
};
use crate::installer::data::{logs_view, outcome_view, InstallErrorView, LogView, StepView};
use crate::installer::model::{
    address, begin_spec, ended, failure, out_of_turn, probe_unpacked, probe_unpacked_dir, proceed,
    save, settle, start_download, step_spec, target,
};
use crate::platform::{Os, Platform};
use crate::text::{same_text, trim_matches};
use vstd::prelude::*;

verus! {

fn no_logs() -> (r: Vec<Log>)
    ensures
        logs_view(r@) == Seq::<LogView>::empty(),
{
    let r: Vec<Log> = Vec::new();
    assert(logs_view(r@) =~= Seq::<LogView>::empty());
    r
}

fn with_log(logs: Vec<Log>, entry: Log) -> (r: Vec<Log>)
    ensures
        logs_view(r@) == logs_view(logs@).push(entry@),
{
    let mut r = logs;
    r.push(entry);
    assert(logs_view(r@) =~= logs_view(logs@).push(entry@));
    r
}

fn one_log(entry: Log) -> (r: Vec<Log>)
    ensures
        logs_view(r@) == seq![entry@],
{
    let r = with_log(no_logs(), entry);
    assert(logs_view(r@) =~= seq![entry@]);
    r
}

impl Installer {
    /// The first decision of an install on a machine that reports `os`
    /// and `arch`. A machine without a build is refused here, before
    /// there is any action to perform.
    pub fn begin(os: &str, arch: &str) -> (r: Result<Step, InstallError>)
        ensures
            match r {
                Ok(step) => begin_spec(os@, arch@) == Ok::<StepView, InstallErrorView>(step@),
                Err(e) => begin_spec(os@, arch@) == Err::<StepView, InstallErrorView>(e@),
            },
    {
        match Platform::resolve(os, arch) {
            Err(u) => Err(InstallError::UnsupportedPlatform(u)),
            Ok(platform) => {
                let state = Installer {
                    phase: Phase::FetchingMetadata,
                    platform,
                    latest: String::new(),
                    source_base: String::new(),
                    record: Config {
                        schema_version: None,
                        agent_version: None,
                        agent_filename: None,
                        host_app_version: None,
                    },
                };
                Ok(Step { state, logs: one_log(Log::CheckingLatest), action: Action::FetchMetadata })
            },
        }
    }

    fn proceed(self, phase: Phase, logs: Vec<Log>, action: Action) -> (r: Step)
        ensures
            r@ == proceed(self@, phase, logs_view(logs@), action@),
    {
        let mut state = self;
        state.phase = phase;
        Step { state, logs, action }
    }

    fn ended(self, logs: Vec<Log>, outcome: Result<Installed, InstallError>) -> (r: Step)
        ensures
            r@ == ended(self@, logs_view(logs@), outcome_view(outcome)),
    {
        self.proceed(Phase::Finished, logs, Action::Finish(outcome))
    }

    fn failure(&self, detail: String) -> (r: Failure)
        ensures
            r@ == failure(self@, detail@),
    {
        Failure { phase: self.phase, detail }
    }

    fn out_of_turn(self) -> (r: Step)
        ensures
            r@ == out_of_turn(self@),
    {
        let phase = self.phase;
        self.ended(no_logs(), Err(InstallError::OutOfTurn(phase)))
    }

    fn network_failed(self, detail: String) -> (r: Step)
        ensures
            r@ == ended(self@, Seq::empty(), Err(InstallErrorView::Network(failure(self@, detail@)))),
    {
        let f = self.failure(detail);
        self.ended(no_logs(), Err(InstallError::Network(f)))
    }

    fn filesystem_failed(self, detail: String) -> (r: Step)
        ensures
            r@ == ended(
                self@,
                Seq::empty(),
                Err(InstallErrorView::Filesystem(failure(self@, detail@))),
            ),
    {
        let f = self.failure(detail);
        self.ended(no_logs(), Err(InstallError::Filesystem(f)))
    }

    fn archive_failed(self, detail: String) -> (r: Step)
        ensures
            r@ == ended(self@, Seq::empty(), Err(InstallErrorView::Archive(failure(self@, detail@)))),
    {
        let f = self.failure(detail);
        self.ended(no_logs(), Err(InstallError::Archive(f)))
    }

    fn store_failed(self, err: StoreError) -> (r: Step)
        ensures
            r@ == ended(self@, Seq::empty(), Err(InstallErrorView::Store(err@))),
    {
        self.ended(no_logs(), Err(InstallError::Store(err)))
    }

    /// The name under which the agent is installed.
    pub fn target(&self) -> (r: String)
        ensures
            r@ == target(self@),
    {
        self.platform.target_filename()
    }

    /// The address that the archive is downloaded from.
    pub fn address(&self) -> (r: String)
        ensures
            r@ == address(self@),
    {
        self.platform.download_url(self.source_base.as_str(), self.latest.as_str())
    }

    /// Whether the configuration records the latest version as installed.
    pub fn is_current(&self) -> (r: bool)
        ensures
            r == (self@.record.agent_version == Some(self@.latest)),
    {
        match &self.record.agent_version {
            Some(v) => same_text(v.as_str(), self.latest.as_str()),
            None => false,
        }
    }

    fn start_download(self, logs: Vec<Log>) -> (r: Step)
        ensures
            r@ == start_download(self@, logs_view(logs@)),
    {
        let url = self.address();
        let logs = with_log(logs, Log::DownloadStarting { url: url.clone() });
        self.proceed(Phase::Downloading, logs, Action::Download { url })
    }

    fn probe_unpacked(self, logs: Vec<Log>) -> (r: Step)
        ensures
            r@ == probe_unpacked(self@, logs_view(logs@)),
    {
        let name = self.platform.extracted_executable();
        self.proceed(Phase::ProbingUnpacked, logs, Action::Probe { name })
    }

    fn probe_unpacked_dir(self, logs: Vec<Log>) -> (r: Step)
        ensures
            r@ == probe_unpacked_dir(self@, logs_view(logs@)),
    {
        let name = self.platform.extraction_dir();
        self.proceed(Phase::ProbingUnpackedDir, logs, Action::Probe { name })
    }

    fn save(self, logs: Vec<Log>) -> (r: Step)
        ensures
            r@ == save(self@, logs_view(logs@)),
    {
        let mut state = self;
        let version = state.latest.clone();
        let name = state.target();
        state.record.record_install(version, name);
        state.phase = Phase::SavingConfig;
        let record = state.record.clone();
        Step { state, logs, action: Action::SaveConfig { record } }
    }

    fn settle(self, logs: Vec<Log>) -> (r: Step)
        ensures
            r@ == settle(self@, logs_view(logs@)),
    {
        if self.platform.os.has_permission_bits() {
            let name = self.target();
            self.proceed(Phase::SettingMode, logs, Action::SetMode { name, mode: EXECUTABLE_MODE })
        } else {
            self.save(logs)
        }
    }

    fn on_metadata(self, event: Event) -> (r: Step)
        requires
            self.phase == Phase::FetchingMetadata,
        ensures
            r@ == step_spec(self@, event@),
    {
        match event {
            Event::Metadata(d) => {
                let RemoteVersionDescriptor { latest, sources } = d;
                if sources.len() == 0 {
                    self.network_failed("the registry names no download source".to_owned())
                } else {
                    let mut state = self;
                    state.latest = trim_matches(latest.as_str(), '/');
                    state.source_base = sources[0].base_url.clone();
                    state.proceed(Phase::LoadingConfig, no_logs(), Action::LoadConfig)
                }
            },
            Event::Failed(detail) => self.network_failed(detail),
            _ => self.out_of_turn(),
        }
    }

    fn on_target_probed(self, event: Event) -> (r: Step)
        requires
            self.phase == Phase::ProbingTarget,
        ensures
            r@ == step_spec(self@, event@),
    {
        match event {
            Event::Exists(true) => {
                let check = Log::VersionCheck {
                    current: self.record.agent_version_text(),
                    latest: self.latest.clone(),
                };
                if self.is_current() {
                    let filename = self.target();
                    let logs = with_log(one_log(check), Log::AlreadyCurrent);
                    assert(logs_view(logs@) =~= seq![check@, LogView::AlreadyCurrent]);
                    self.ended(logs, Ok(Installed { filename, downloaded: false }))
                } else {
                    let name = self.target();
                    self.proceed(Phase::RemovingStale, one_log(check), Action::RemoveFile { name })
                }
            },
            Event::Exists(false) => self.start_download(one_log(Log::TargetMissing)),
            _ => self.out_of_turn(),
        }
    }

    fn on_payload(self, event: Event) -> (r: Step)
        requires
            self.phase == Phase::Downloading,
        ensures
            r@ == step_spec(self@, event@),
    {
        match event {
            Event::Payload { announced, body } => {
                let size = Log::ArchiveSize {
                    announced: match announced {
                        Some(n) => n,
                        None => 0,
                    },
                };
                let got = Log::Downloaded { bytes: body.len() };
                let logs = with_log(one_log(size), got);
                match self.platform.os {
                    Os::Windows => {
                        let note = Log::TemporaryFile { name: "frpc.zip".to_owned() };
                        let logs = with_log(logs, note);
                        assert(logs_view(logs@) =~= seq![size@, got@, note@]);
                        self.proceed(
                            Phase::WritingArchive,
                            logs,
                            Action::WriteFile { name: "frpc.zip".to_owned(), contents: body },
                        )
                    },
                    _ => {
                        let logs = with_log(logs, Log::Extracting);
                        assert(logs_view(logs@) =~= seq![size@, got@, LogView::Extracting]);
                        self.proceed(Phase::Unpacking, logs, Action::ExtractTarGz { contents: body })
                    },
                }
            },
            Event::Failed(detail) => self.network_failed(detail),
            _ => self.out_of_turn(),
        }
    }

    fn on_unpacked(self, event: Event) -> (r: Step)
        requires
            self.phase == Phase::Unpacking,
        ensures
            r@ == step_spec(self@, event@),
    {
        match event {
            Event::Done => match self.platform.os {
                Os::Windows => self.proceed(
                    Phase::RemovingArchive,
                    no_logs(),
                    Action::RemoveFile { name: "frpc.zip".to_owned() },
                ),
                _ => self.probe_unpacked(no_logs()),
            },
            Event::Failed(detail) => self.archive_failed(detail),
            _ => self.out_of_turn(),
        }
    }

    fn on_unpacked_probed(self, event: Event) -> (r: Step)
        requires
            self.phase == Phase::ProbingUnpacked,
        ensures
            r@ == step_spec(self@, event@),
    {
        match event {
            Event::Exists(true) => {
                let from = self.platform.extracted_executable();
                let to = self.target();
                self.proceed(Phase::MovingExecutable, no_logs(), Action::Rename { from, to })
            },
            Event::Exists(false) => {
                let name = self.platform.extracted_executable();
                self.probe_unpacked_dir(one_log(Log::UnpackedMissing { name }))
            },
            _ => self.out_of_turn(),
        }
    }

    fn on_unpacked_dir_probed(self, event: Event) -> (r: Step)
        requires
            self.phase == Phase::ProbingUnpackedDir,
        ensures
            r@ == step_spec(self@, event@),
    {
        match event {
            Event::Exists(true) => {
                let name = self.platform.extraction_dir();
                self.proceed(Phase::RemovingUnpacked, no_logs(), Action::RemoveDir { name })
            },
            Event::Exists(false) => {
                let name = self.platform.extraction_dir();
                self.settle(one_log(Log::UnpackedMissing { name }))
            },
            _ => self.out_of_turn(),
        }
    }

    /// The decision that follows `event`, which reports what came of the
    /// action of the step before. An event that does not answer that
    /// action ends the install with [`InstallError::OutOfTurn`].
    pub fn step(self, event: Event) -> (r: Step)
        ensures
            r@ == step_spec(self@, event@),
    {
        match self.phase {
            Phase::FetchingMetadata => self.on_metadata(event),
            Phase::LoadingConfig => match event {
                Event::Loaded(record) => {
                    let name = self.target();
                    let mut state = self;
                    state.record = record;
                    state.proceed(Phase::ProbingTarget, no_logs(), Action::Probe { name })
                },
                Event::StoreFailed(err) => self.store_failed(err),
                _ => self.out_of_turn(),
            },
            Phase::ProbingTarget => self.on_target_probed(event),
            Phase::RemovingStale => match event {
                Event::Done => self.start_download(no_logs()),
                Event::Failed(detail) => self.filesystem_failed(detail),
                _ => self.out_of_turn(),
            },
            Phase::Downloading => self.on_payload(event),
            Phase::WritingArchive => match event {
                Event::Done => self.proceed(
                    Phase::Unpacking,
                    one_log(Log::Extracting),
                    Action::ExtractZip { archive: "frpc.zip".to_owned() },
                ),
                Event::Failed(detail) => self.filesystem_failed(detail),
                _ => self.out_of_turn(),
            },
            Phase::Unpacking => self.on_unpacked(event),
            Phase::RemovingArchive => match event {
                Event::Done => self.probe_unpacked(no_logs()),
                Event::Failed(detail) => self.probe_unpacked(
                    one_log(Log::TemporaryFileLeft { detail }),
                ),
                _ => self.out_of_turn(),
            },
            Phase::ProbingUnpacked => self.on_unpacked_probed(event),
            Phase::MovingExecutable => match event {
                Event::Done => self.probe_unpacked_dir(no_logs()),
                Event::Failed(detail) => self.filesystem_failed(detail),
                _ => self.out_of_turn(),
            },
            Phase::ProbingUnpackedDir => self.on_unpacked_dir_probed(event),
            Phase::RemovingUnpacked => match event {
                Event::Done => self.settle(no_logs()),
                Event::Failed(detail) => self.filesystem_failed(detail),
                _ => self.out_of_turn(),
            },
            Phase::SettingMode => match event {
                Event::Done => self.save(one_log(Log::PermissionsSet)),
                Event::Failed(detail) => self.save(one_log(Log::PermissionsNotSet { detail })),
                _ => self.out_of_turn(),
            },
            Phase::SavingConfig => match event {
                Event::Done => {
                    let filename = self.target();
                    self.ended(one_log(Log::Completed), Ok(Installed { filename, downloaded: true }))
                },
                Event::StoreFailed(err) => self.store_failed(err),
                _ => self.out_of_turn(),
            },
            Phase::Finished => self.out_of_turn(),
        }
    }
}

} // verus!
