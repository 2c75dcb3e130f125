//! The persisted configuration record: which agent is installed, under
//! which name, and by which schema the record was written. Reading and
//! writing the document is the host's part; what a loaded document is
//! turned into, and how an older one is upgraded, is decided here.

use vstd::prelude::*;

verus! {

/// The schema version that this build reads and writes.
pub const CONFIG_VERSION: u32 = 1;

/// The configuration record as it is stored. A field that the stored
/// document lacks is `None`.
#[derive(Debug)]
pub struct Config {
    pub schema_version: Option<u32>,
    pub agent_version: Option<String>,
    pub agent_filename: Option<String>,
    pub host_app_version: Option<String>,
}

/// The mathematical value of a `Config`.
pub struct ConfigView {
    pub schema_version: Option<u32>,
    pub agent_version: Option<Seq<char>>,
    pub agent_filename: Option<Seq<char>>,
    pub host_app_version: Option<Seq<char>>,
}

/// The view of an optional string.
pub open spec fn opt_view(s: Option<String>) -> Option<Seq<char>> {
    match s {
        Some(t) => Some(t@),
        None => None,
    }
}

impl View for Config {
    type V = ConfigView;

    open spec fn view(&self) -> ConfigView {
        ConfigView {
            schema_version: self.schema_version,
            agent_version: opt_view(self.agent_version),
            agent_filename: opt_view(self.agent_filename),
            host_app_version: opt_view(self.host_app_version),
        }
    }
}

/// The host application version that a record written before schema 1 is
/// taken to come from.
pub open spec fn legacy_host_version() -> Seq<char> {
    "0.4.0"@
}

/// The value of an optional text, or `fallback` where it is absent.
pub open spec fn text_or(s: Option<Seq<char>>, fallback: Seq<char>) -> Seq<char> {
    match s {
        Some(t) => t,
        None => fallback,
    }
}

/// The record `c` brought to the current schema. A record stored before
/// schema 1 gets each field that schema 1 introduced, unless it already
/// holds one; every record is stamped with the current schema version.
pub open spec fn upgraded(c: ConfigView) -> ConfigView {
    let stored: u32 = match c.schema_version {
        Some(v) => v,
        None => 0,
    };
    if stored < 1 {
        ConfigView {
            schema_version: Some(CONFIG_VERSION),
            agent_version: Some(text_or(c.agent_version, Seq::empty())),
            agent_filename: Some(text_or(c.agent_filename, Seq::empty())),
            host_app_version: Some(text_or(c.host_app_version, legacy_host_version())),
        }
    } else {
        ConfigView { schema_version: Some(CONFIG_VERSION), ..c }
    }
}

/// The record that a first run starts from: current schema, the running
/// host build, and no agent installed.
pub open spec fn fresh(host_version: Seq<char>) -> ConfigView {
    ConfigView {
        schema_version: Some(CONFIG_VERSION),
        agent_version: None,
        agent_filename: None,
        host_app_version: Some(host_version),
    }
}

/// What loading yields: a fresh record where nothing is stored, else the
/// stored record upgraded; in both cases the host version is that of the
/// running build.
pub open spec fn loaded(stored: Option<ConfigView>, host_version: Seq<char>) -> ConfigView {
    match stored {
        None => fresh(host_version),
        Some(c) => ConfigView { host_app_version: Some(host_version), ..upgraded(c) },
    }
}

/// The view of an optional record.
pub open spec fn opt_config_view(c: Option<Config>) -> Option<ConfigView> {
    match c {
        Some(r) => Some(r@),
        None => None,
    }
}

/// The record `c` after an install of `version` under the name
/// `filename`: the two agent fields are set, the others kept.
pub open spec fn with_install(c: ConfigView, version: Seq<char>, filename: Seq<char>) -> ConfigView {
    ConfigView { agent_version: Some(version), agent_filename: Some(filename), ..c }
}

/// The name of the installed agent that `c` records, where it records
/// one: a name that is present and not empty.
pub open spec fn installed_filename(c: ConfigView) -> Option<Seq<char>> {
    match c.agent_filename {
        Some(name) => if name.len() > 0 {
            Some(name)
        } else {
            None
        },
        None => None,
    }
}

/// What went wrong in the store.
#[derive(Clone, Copy, Debug, PartialEq, Eq, Structural)]
pub enum StoreErrorKind {
    /// The document could not be read or written.
    Io,
    /// The stored document is not a configuration record.
    Parse,
    /// The record could not be written down as a document.
    Serialize,
}

/// A failure of the store, with the message of what failed underneath.
#[derive(Debug)]
pub struct StoreError {
    pub kind: StoreErrorKind,
    pub detail: String,
}

/// The mathematical value of a `StoreError`.
pub struct StoreErrorView {
    pub kind: StoreErrorKind,
    pub detail: Seq<char>,
}

impl View for StoreError {
    type V = StoreErrorView;

    open spec fn view(&self) -> StoreErrorView {
        StoreErrorView { kind: self.kind, detail: self.detail@ }
    }
}

fn copy_text(s: &Option<String>) -> (r: Option<String>)
    ensures
        opt_view(r) == opt_view(*s),
{
    match s {
        Some(t) => Some(t.clone()),
        None => None,
    }
}

fn or_text(s: Option<String>, fallback: &str) -> (r: String)
    ensures
        r@ == text_or(opt_view(s), fallback@),
{
    match s {
        Some(t) => t,
        None => fallback.to_owned(),
    }
}

impl Clone for Config {
    fn clone(&self) -> (r: Config)
        ensures
            r@ == self@,
    {
        Config {
            schema_version: self.schema_version,
            agent_version: copy_text(&self.agent_version),
            agent_filename: copy_text(&self.agent_filename),
            host_app_version: copy_text(&self.host_app_version),
        }
    }
}

impl Config {
    /// The record that a first run starts from.
    pub fn fresh(host_version: &str) -> (r: Config)
        ensures
            r@ == fresh(host_version@),
    {
        Config {
            schema_version: Some(CONFIG_VERSION),
            agent_version: None,
            agent_filename: None,
            host_app_version: Some(host_version.to_owned()),
        }
    }

    /// What loading yields from what the store holds: `stored` is the
    /// parsed document, or `None` where there is none yet. The result is
    /// what the caller hands on and writes back.
    pub fn on_load(stored: Option<Config>, host_version: &str) -> (r: Config)
        ensures
            r@ == loaded(opt_config_view(stored), host_version@),
    {
        match stored {
            None => Config::fresh(host_version),
            Some(c) => {
                let mut up = c.upgrade();
                up.host_app_version = Some(host_version.to_owned());
                up
            },
        }
    }

    /// Records an install of `version` under the name `filename`.
    pub fn record_install(&mut self, version: String, filename: String)
        ensures
            final(self)@ == with_install(old(self)@, version@, filename@),
    {
        self.agent_version = Some(version);
        self.agent_filename = Some(filename);
    }

    /// The installed agent version, empty before the first install.
    pub fn agent_version_text(&self) -> (r: String)
        ensures
            r@ == text_or(self@.agent_version, Seq::empty()),
    {
        match &self.agent_version {
            Some(v) => v.clone(),
            None => String::new(),
        }
    }

    /// The host application version, or that of a record written before
    /// schema 1 where the field is absent.
    pub fn host_app_version_text(&self) -> (r: String)
        ensures
            r@ == text_or(self@.host_app_version, legacy_host_version()),
    {
        match &self.host_app_version {
            Some(v) => v.clone(),
            None => "0.4.0".to_owned(),
        }
    }

    /// The name of the installed agent, where the record holds one.
    pub fn installed_filename(&self) -> (r: Option<String>)
        ensures
            opt_view(r) == installed_filename(self@),
    {
        match &self.agent_filename {
            Some(name) => {
                if name.as_str().unicode_len() > 0 {
                    Some(name.clone())
                } else {
                    None
                }
            },
            None => None,
        }
    }

    /// Brings the record to the current schema.
    pub fn upgrade(self) -> (r: Config)
        ensures
            r@ == upgraded(self@),
    {
        let Config { schema_version, agent_version, agent_filename, host_app_version } = self;
        let stored: u32 = match schema_version {
            Some(v) => v,
            None => 0,
        };
        if stored < 1 {
            proof {
                reveal_strlit("");
                assert(""@ =~= Seq::<char>::empty());
            }
            Config {
                schema_version: Some(CONFIG_VERSION),
                agent_version: Some(or_text(agent_version, "")),
                agent_filename: Some(or_text(agent_filename, "")),
                host_app_version: Some(or_text(host_app_version, "0.4.0")),
            }
        } else {
            Config {
                schema_version: Some(CONFIG_VERSION),
                agent_version,
                agent_filename,
                host_app_version,
            }
        }
    }
}

/// Upgrading a record that has already been upgraded changes nothing.
pub proof fn upgrade_is_idempotent(c: ConfigView)
    ensures
        upgraded(upgraded(c)) == upgraded(c),
{
}

/// An upgrade never replaces a field that the stored record holds, and
/// leaves the record at the current schema.
pub proof fn upgrade_keeps_what_is_stored(c: ConfigView)
    ensures
        upgraded(c).schema_version == Some(CONFIG_VERSION),
        c.agent_version is Some ==> upgraded(c).agent_version == c.agent_version,
        c.agent_filename is Some ==> upgraded(c).agent_filename == c.agent_filename,
        c.host_app_version is Some ==> upgraded(c).host_app_version == c.host_app_version,
{
}

/// What loading yields is at the current schema and names the running
/// host build, whatever is stored.
pub proof fn loaded_record_is_current(stored: Option<ConfigView>, host_version: Seq<char>)
    ensures
        loaded(stored, host_version).schema_version == Some(CONFIG_VERSION),
        loaded(stored, host_version).host_app_version == Some(host_version),
{
}

/// Loading what an earlier load wrote back yields the same record again,
/// as long as the same host build runs.
pub proof fn load_is_stable(stored: Option<ConfigView>, host_version: Seq<char>)
    ensures
        loaded(Some(loaded(stored, host_version)), host_version) == loaded(stored, host_version),
{
}

} // verus!
