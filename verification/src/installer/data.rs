//! What an install is made of: its phases, what the registry answers,
//! the actions and events that pass between the installer and the host,
//! the log entries and the errors, each with its mathematical value.

use crate::config::{Config, ConfigView, StoreError, StoreErrorView};
use crate::platform::{Platform, Unsupported};
use vstd::prelude::*;

verus! {

/// The permission bits of the installed agent: read and execute for all,
/// write for the owner.
pub const EXECUTABLE_MODE: u32 = 0o755;

/// The name under which a zip archive is written before it is unpacked.
pub open spec fn archive_file() -> Seq<char> {
    "frpc.zip"@
}

/// What a failure says where the registry names no download source.
pub open spec fn no_source() -> Seq<char> {
    "the registry names no download source"@
}

/// Where an install stands: which answer it is waiting for.
#[derive(Clone, Copy, Debug, PartialEq, Eq, Structural)]
pub enum Phase {
    FetchingMetadata,
    LoadingConfig,
    ProbingTarget,
    RemovingStale,
    Downloading,
    WritingArchive,
    Unpacking,
    RemovingArchive,
    ProbingUnpacked,
    MovingExecutable,
    ProbingUnpackedDir,
    RemovingUnpacked,
    SettingMode,
    SavingConfig,
    Finished,
}

/// A labelled place to download from.
#[derive(Debug)]
pub struct Source {
    pub label: String,
    pub base_url: String,
}

/// The mathematical value of a `Source`.
pub struct SourceView {
    pub label: Seq<char>,
    pub base_url: Seq<char>,
}

impl View for Source {
    type V = SourceView;

    open spec fn view(&self) -> SourceView {
        SourceView { label: self.label@, base_url: self.base_url@ }
    }
}

/// What the registry answers: the latest version, and where to download
/// it from. Only the first source is used.
#[derive(Debug)]
pub struct RemoteVersionDescriptor {
    pub latest: String,
    pub sources: Vec<Source>,
}

/// The mathematical value of a `RemoteVersionDescriptor`.
pub struct DescriptorView {
    pub latest: Seq<char>,
    pub sources: Seq<SourceView>,
}

impl View for RemoteVersionDescriptor {
    type V = DescriptorView;

    open spec fn view(&self) -> DescriptorView {
        DescriptorView {
            latest: self.latest@,
            sources: self.sources@.map_values(|s: Source| s@),
        }
    }
}

/// A failed action: the phase that waited for it, and the message of
/// what failed underneath.
#[derive(Debug)]
pub struct Failure {
    pub phase: Phase,
    pub detail: String,
}

/// The mathematical value of a `Failure`.
pub struct FailureView {
    pub phase: Phase,
    pub detail: Seq<char>,
}

impl View for Failure {
    type V = FailureView;

    open spec fn view(&self) -> FailureView {
        FailureView { phase: self.phase, detail: self.detail@ }
    }
}

/// Why an install did not complete.
#[derive(Debug)]
pub enum InstallError {
    /// There is no agent build for this machine.
    UnsupportedPlatform(Unsupported),
    /// The registry or the download could not be reached, or the registry
    /// named no source.
    Network(Failure),
    /// A file or directory could not be removed, written or moved.
    Filesystem(Failure),
    /// The downloaded archive could not be unpacked.
    Archive(Failure),
    /// The configuration could not be loaded or saved.
    Store(StoreError),
    /// The event does not answer the action that the phase waits for.
    OutOfTurn(Phase),
}

/// The mathematical value of an `InstallError`.
pub enum InstallErrorView {
    UnsupportedPlatform(Unsupported),
    Network(FailureView),
    Filesystem(FailureView),
    Archive(FailureView),
    Store(StoreErrorView),
    OutOfTurn(Phase),
}

impl View for InstallError {
    type V = InstallErrorView;

    open spec fn view(&self) -> InstallErrorView {
        match self {
            InstallError::UnsupportedPlatform(u) => InstallErrorView::UnsupportedPlatform(*u),
            InstallError::Network(f) => InstallErrorView::Network(f@),
            InstallError::Filesystem(f) => InstallErrorView::Filesystem(f@),
            InstallError::Archive(f) => InstallErrorView::Archive(f@),
            InstallError::Store(e) => InstallErrorView::Store(e@),
            InstallError::OutOfTurn(p) => InstallErrorView::OutOfTurn(*p),
        }
    }
}

/// A completed install: the name of the agent in the data directory, and
/// whether it had to be downloaded.
#[derive(Debug)]
pub struct Installed {
    pub filename: String,
    pub downloaded: bool,
}

/// The mathematical value of an `Installed`.
pub struct InstalledView {
    pub filename: Seq<char>,
    pub downloaded: bool,
}

impl View for Installed {
    type V = InstalledView;

    open spec fn view(&self) -> InstalledView {
        InstalledView { filename: self.filename@, downloaded: self.downloaded }
    }
}

/// The view of how an install ended.
pub open spec fn outcome_view(r: Result<Installed, InstallError>) -> Result<
    InstalledView,
    InstallErrorView,
> {
    match r {
        Ok(i) => Ok(i@),
        Err(e) => Err(e@),
    }
}

/// A milestone for the host to show.
#[derive(Debug)]
pub enum Log {
    /// The registry is about to be asked.
    CheckingLatest,
    /// The agent is installed: its recorded version, and the latest.
    VersionCheck { current: String, latest: String },
    /// Nothing to do.
    AlreadyCurrent,
    /// No agent is installed.
    TargetMissing,
    /// The download from `url` is about to start.
    DownloadStarting { url: String },
    /// The size that the server announced, 0 where it announced none.
    ArchiveSize { announced: u64 },
    /// The number of bytes received.
    Downloaded { bytes: usize },
    /// The archive is about to be written under `name`.
    TemporaryFile { name: String },
    /// The archive is about to be unpacked.
    Extracting,
    /// The written archive could not be removed; the install goes on.
    TemporaryFileLeft { detail: String },
    /// The archive did not unpack to `name`; the install goes on.
    UnpackedMissing { name: String },
    /// The agent was made executable.
    PermissionsSet,
    /// The agent could not be made executable; the install goes on.
    PermissionsNotSet { detail: String },
    /// The install is complete.
    Completed,
}

/// The mathematical value of a `Log`.
pub enum LogView {
    CheckingLatest,
    VersionCheck { current: Seq<char>, latest: Seq<char> },
    AlreadyCurrent,
    TargetMissing,
    DownloadStarting { url: Seq<char> },
    ArchiveSize { announced: u64 },
    Downloaded { bytes: nat },
    TemporaryFile { name: Seq<char> },
    Extracting,
    TemporaryFileLeft { detail: Seq<char> },
    UnpackedMissing { name: Seq<char> },
    PermissionsSet,
    PermissionsNotSet { detail: Seq<char> },
    Completed,
}

impl View for Log {
    type V = LogView;

    open spec fn view(&self) -> LogView {
        match self {
            Log::CheckingLatest => LogView::CheckingLatest,
            Log::VersionCheck { current, latest } => LogView::VersionCheck {
                current: current@,
                latest: latest@,
            },
            Log::AlreadyCurrent => LogView::AlreadyCurrent,
            Log::TargetMissing => LogView::TargetMissing,
            Log::DownloadStarting { url } => LogView::DownloadStarting { url: url@ },
            Log::ArchiveSize { announced } => LogView::ArchiveSize { announced: *announced },
            Log::Downloaded { bytes } => LogView::Downloaded { bytes: *bytes as nat },
            Log::TemporaryFile { name } => LogView::TemporaryFile { name: name@ },
            Log::Extracting => LogView::Extracting,
            Log::TemporaryFileLeft { detail } => LogView::TemporaryFileLeft { detail: detail@ },
            Log::UnpackedMissing { name } => LogView::UnpackedMissing { name: name@ },
            Log::PermissionsSet => LogView::PermissionsSet,
            Log::PermissionsNotSet { detail } => LogView::PermissionsNotSet { detail: detail@ },
            Log::Completed => LogView::Completed,
        }
    }
}

/// The view of a list of log entries.
pub open spec fn logs_view(v: Seq<Log>) -> Seq<LogView> {
    v.map_values(|l: Log| l@)
}

/// What the host is to do next. Every name is relative to the data
/// directory.
#[derive(Debug)]
pub enum Action {
    /// Ask the registry for the latest version and its sources.
    FetchMetadata,
    /// Load the configuration.
    LoadConfig,
    /// Find out whether `name` exists.
    Probe { name: String },
    /// Remove the file `name`.
    RemoveFile { name: String },
    /// Fetch all of `url` into memory.
    Download { url: String },
    /// Write `contents` to the file `name`.
    WriteFile { name: String, contents: Vec<u8> },
    /// Unpack the zip archive in the file `archive` into the data
    /// directory.
    ExtractZip { archive: String },
    /// Unpack the gzip-compressed tar archive `contents` into the data
    /// directory.
    ExtractTarGz { contents: Vec<u8> },
    /// Move `from` to `to`.
    Rename { from: String, to: String },
    /// Remove the directory `name` and what it holds.
    RemoveDir { name: String },
    /// Set the permission bits of `name` to `mode`.
    SetMode { name: String, mode: u32 },
    /// Save `record` as the configuration.
    SaveConfig { record: Config },
    /// Nothing more: the install ended as given.
    Finish(Result<Installed, InstallError>),
}

/// The mathematical value of an `Action`.
pub enum ActionView {
    FetchMetadata,
    LoadConfig,
    Probe { name: Seq<char> },
    RemoveFile { name: Seq<char> },
    Download { url: Seq<char> },
    WriteFile { name: Seq<char>, contents: Seq<u8> },
    ExtractZip { archive: Seq<char> },
    ExtractTarGz { contents: Seq<u8> },
    Rename { from: Seq<char>, to: Seq<char> },
    RemoveDir { name: Seq<char> },
    SetMode { name: Seq<char>, mode: u32 },
    SaveConfig { record: ConfigView },
    Finish(Result<InstalledView, InstallErrorView>),
}

impl View for Action {
    type V = ActionView;

    open spec fn view(&self) -> ActionView {
        match self {
            Action::FetchMetadata => ActionView::FetchMetadata,
            Action::LoadConfig => ActionView::LoadConfig,
            Action::Probe { name } => ActionView::Probe { name: name@ },
            Action::RemoveFile { name } => ActionView::RemoveFile { name: name@ },
            Action::Download { url } => ActionView::Download { url: url@ },
            Action::WriteFile { name, contents } => ActionView::WriteFile {
                name: name@,
                contents: contents@,
            },
            Action::ExtractZip { archive } => ActionView::ExtractZip { archive: archive@ },
            Action::ExtractTarGz { contents } => ActionView::ExtractTarGz { contents: contents@ },
            Action::Rename { from, to } => ActionView::Rename { from: from@, to: to@ },
            Action::RemoveDir { name } => ActionView::RemoveDir { name: name@ },
            Action::SetMode { name, mode } => ActionView::SetMode { name: name@, mode: *mode },
            Action::SaveConfig { record } => ActionView::SaveConfig { record: record@ },
            Action::Finish(r) => ActionView::Finish(outcome_view(*r)),
        }
    }
}

/// What came of the action that the host performed.
#[derive(Debug)]
pub enum Event {
    /// The registry answered.
    Metadata(RemoteVersionDescriptor),
    /// The configuration was loaded.
    Loaded(Config),
    /// Whether the probed name exists.
    Exists(bool),
    /// The download arrived: the size that the server announced, if any,
    /// and the bytes.
    Payload { announced: Option<u64>, body: Vec<u8> },
    /// The action succeeded and has nothing to report.
    Done,
    /// The action failed, with the message of what failed underneath.
    Failed(String),
    /// Loading or saving the configuration failed.
    StoreFailed(StoreError),
}

/// The mathematical value of an `Event`.
pub enum EventView {
    Metadata(DescriptorView),
    Loaded(ConfigView),
    Exists(bool),
    Payload { announced: Option<u64>, body: Seq<u8> },
    Done,
    Failed(Seq<char>),
    StoreFailed(StoreErrorView),
}

impl View for Event {
    type V = EventView;

    open spec fn view(&self) -> EventView {
        match self {
            Event::Metadata(d) => EventView::Metadata(d@),
            Event::Loaded(c) => EventView::Loaded(c@),
            Event::Exists(b) => EventView::Exists(*b),
            Event::Payload { announced, body } => EventView::Payload {
                announced: *announced,
                body: body@,
            },
            Event::Done => EventView::Done,
            Event::Failed(d) => EventView::Failed(d@),
            Event::StoreFailed(e) => EventView::StoreFailed(e@),
        }
    }
}

/// An install under way.
#[derive(Debug)]
pub struct Installer {
    /// Which answer is awaited.
    pub phase: Phase,
    /// The platform that is installed for.
    pub platform: Platform,
    /// The latest version, without the `/` around it; empty until the
    /// registry has answered.
    pub latest: String,
    /// The base address of the first source; empty until the registry
    /// has answered.
    pub source_base: String,
    /// The configuration; without any field until it has been loaded.
    pub record: Config,
}

/// The mathematical value of an `Installer`.
pub struct InstallerView {
    pub phase: Phase,
    pub platform: Platform,
    pub latest: Seq<char>,
    pub source_base: Seq<char>,
    pub record: ConfigView,
}

impl View for Installer {
    type V = InstallerView;

    open spec fn view(&self) -> InstallerView {
        InstallerView {
            phase: self.phase,
            platform: self.platform,
            latest: self.latest@,
            source_base: self.source_base@,
            record: self.record@,
        }
    }
}

/// One decision: the install as it now stands, the entries to log, and
/// then the action to perform.
#[derive(Debug)]
pub struct Step {
    pub state: Installer,
    pub logs: Vec<Log>,
    pub action: Action,
}

/// The mathematical value of a `Step`.
pub struct StepView {
    pub state: InstallerView,
    pub logs: Seq<LogView>,
    pub action: ActionView,
}

impl View for Step {
    type V = StepView;

    open spec fn view(&self) -> StepView {
        StepView { state: self.state@, logs: logs_view(self.logs@), action: self.action@ }
    }
}

} // verus!
