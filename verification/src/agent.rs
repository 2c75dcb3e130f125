//! How the agent is invoked and addressed: the command lines to run it,
//! to ask its version and to kill it, what its version output means, and
//! the names under which its output is passed on to the host.

use crate::config::{installed_filename, with_install, Config, ConfigView};
use crate::platform::{installed_name, resolved, Os, Platform, Unsupported};
use crate::supervisor::{SupervisorError, Termination};
use crate::text::{
    decimal, decimal_text, first_line, joined, last_word, last_word_of_first_line, same_text,
    text_from_utf8, texts,
};
use vstd::prelude::*;
use vstd::utf8::{decode_utf8, valid_utf8};

verus! {

/// A program and the arguments to run it with.
#[derive(Debug)]
pub struct CommandLine {
    pub program: String,
    pub args: Vec<String>,
}

/// The mathematical value of a `CommandLine`.
pub struct CommandLineView {
    pub program: Seq<char>,
    pub args: Seq<Seq<char>>,
}

impl View for CommandLine {
    type V = CommandLineView;

    open spec fn view(&self) -> CommandLineView {
        CommandLineView { program: self.program@, args: texts(self.args@) }
    }
}

/// How to launch an instance: the agent, named relative to the data
/// directory, with its arguments. `output_captured` says whether standard
/// output and standard error are captured, to be read line by line,
/// rather than inherited from the host. `console_hidden` says whether the
/// process must be kept from opening a console window of its own.
#[derive(Debug)]
pub struct Launch {
    pub command: CommandLine,
    pub output_captured: bool,
    pub console_hidden: bool,
}

/// The mathematical value of a `Launch`.
pub struct LaunchView {
    pub command: CommandLineView,
    pub output_captured: bool,
    pub console_hidden: bool,
}

impl View for Launch {
    type V = LaunchView;

    open spec fn view(&self) -> LaunchView {
        LaunchView {
            command: self.command@,
            output_captured: self.output_captured,
            console_hidden: self.console_hidden,
        }
    }
}

/// One of the two output streams of an instance.
#[derive(Clone, Copy, Debug, PartialEq, Eq, Structural)]
pub enum Stream {
    Stdout,
    Stderr,
}

/// Why the agent's version could not be taken from its answer.
#[derive(Debug)]
pub enum VersionProbeError {
    /// The agent exited with a failure.
    Failed,
    /// What the agent printed is not text: the message says why.
    NotText(String),
}

/// The arguments that run an instance: `-u <token> -p <tunnel_id>`.
pub open spec fn run_arguments(token: Seq<char>, tunnel_id: Seq<char>) -> Seq<Seq<char>> {
    seq!["-u"@, token, "-p"@, tunnel_id]
}

/// The arguments that make the agent print its version: `-v`.
pub open spec fn version_arguments() -> Seq<Seq<char>> {
    seq!["-v"@]
}

/// The installed agent that can be run, given what the configuration
/// `record` holds and whether the file it names `exists`: there is none
/// where the record names no file, or the file is not there.
pub open spec fn runnable(record: ConfigView, exists: bool) -> Result<Seq<char>, SupervisorError> {
    match installed_filename(record) {
        Some(name) => if exists {
            Ok(name)
        } else {
            Err(SupervisorError::NotInstalled)
        },
        None => Err(SupervisorError::NotInstalled),
    }
}

/// How an instance is launched with `token` and `tunnel_id` on a machine
/// that reports the operating system `os`: the installed agent with the
/// run arguments, its output captured, and its console hidden on the
/// Windows family.
pub open spec fn launch(
    record: ConfigView,
    exists: bool,
    token: Seq<char>,
    tunnel_id: Seq<char>,
    os: Seq<char>,
) -> Result<LaunchView, SupervisorError> {
    match runnable(record, exists) {
        Ok(name) => Ok(
            LaunchView {
                command: CommandLineView { program: name, args: run_arguments(token, tunnel_id) },
                output_captured: true,
                console_hidden: os == "windows"@,
            },
        ),
        Err(e) => Err(e),
    }
}

/// The version that the agent reports in `output`: the last word of the
/// first line, where that line has a word.
pub open spec fn reported_version(output: Seq<char>) -> Option<Seq<char>> {
    let word = last_word(first_line(output));
    if word.len() == 0 {
        None
    } else {
        Some(word)
    }
}

/// The record to save after the agent was asked for its version: none
/// where the output holds no version, else `record` with that version.
pub open spec fn version_recorded(record: ConfigView, output: Seq<char>) -> Option<ConfigView> {
    match reported_version(output) {
        Some(version) => Some(ConfigView { agent_version: Some(version), ..record }),
        None => None,
    }
}

/// The command that kills the whole process tree of `group_id`.
pub open spec fn tree_kill(group_id: u32) -> CommandLineView {
    CommandLineView {
        program: "taskkill"@,
        args: seq!["/F"@, "/T"@, "/PID"@, decimal(group_id as nat)],
    }
}

/// The command that carries out a termination, where it takes one: a
/// direct kill goes through the handle, not through a command.
pub open spec fn termination_command(t: Termination) -> Option<CommandLineView> {
    match t {
        Termination::Tree { group_id } => Some(tree_kill(group_id)),
        Termination::Direct => None,
    }
}

/// The command that kills every process that runs the agent of the
/// platform `p`, found by the name of the installed file.
pub open spec fn sweep(p: Platform) -> CommandLineView {
    match p.os {
        Os::Windows => CommandLineView {
            program: "taskkill"@,
            args: seq!["/F"@, "/IM"@, installed_name(p)],
        },
        _ => CommandLineView { program: "pkill"@, args: seq!["-f"@, installed_name(p)] },
    }
}

/// The name of the event that carries the output of the instance `id`.
pub open spec fn channel(id: Seq<char>) -> Seq<char> {
    "frpc-log-"@ + id
}

/// The message that passes on `line` of an instance's output: the line
/// itself from standard output, and the line behind a mark from standard
/// error.
pub open spec fn message(stream: Stream, line: Seq<char>) -> Seq<char> {
    match stream {
        Stream::Stdout => line,
        Stream::Stderr => "错误: "@ + line,
    }
}

fn two(a: String, b: String) -> (r: Vec<String>)
    ensures
        texts(r@) == seq![a@, b@],
{
    let mut v: Vec<String> = Vec::new();
    v.push(a);
    v.push(b);
    assert(texts(v@) =~= seq![a@, b@]);
    v
}

fn three(a: String, b: String, c: String) -> (r: Vec<String>)
    ensures
        texts(r@) == seq![a@, b@, c@],
{
    let mut v: Vec<String> = Vec::new();
    v.push(a);
    v.push(b);
    v.push(c);
    assert(texts(v@) =~= seq![a@, b@, c@]);
    v
}

fn four(a: String, b: String, c: String, d: String) -> (r: Vec<String>)
    ensures
        texts(r@) == seq![a@, b@, c@, d@],
{
    let mut v: Vec<String> = Vec::new();
    v.push(a);
    v.push(b);
    v.push(c);
    v.push(d);
    assert(texts(v@) =~= seq![a@, b@, c@, d@]);
    v
}

/// The arguments that run an instance.
pub fn agent_arguments(token: &str, tunnel_id: &str) -> (r: Vec<String>)
    ensures
        texts(r@) == run_arguments(token@, tunnel_id@),
{
    four("-u".to_owned(), token.to_owned(), "-p".to_owned(), tunnel_id.to_owned())
}

/// The arguments that make the agent print its version.
pub fn version_probe_arguments() -> (r: Vec<String>)
    ensures
        texts(r@) == version_arguments(),
{
    let mut v: Vec<String> = Vec::new();
    v.push("-v".to_owned());
    assert(texts(v@) =~= version_arguments());
    v
}

/// The installed agent that can be run: the file that `record` names,
/// where `exists` says that it is there. Fails with `NotInstalled`
/// otherwise.
pub fn runnable_agent(record: &Config, exists: bool) -> (r: Result<String, SupervisorError>)
    ensures
        match r {
            Ok(name) => runnable(record@, exists) == Ok::<Seq<char>, SupervisorError>(name@),
            Err(e) => runnable(record@, exists) == Err::<Seq<char>, SupervisorError>(e),
        },
{
    match record.installed_filename() {
        Some(name) => {
            if exists {
                Ok(name)
            } else {
                Err(SupervisorError::NotInstalled)
            }
        },
        None => Err(SupervisorError::NotInstalled),
    }
}

/// Whether the agent has to be downloaded before anything can run.
pub fn needs_download(record: &Config, exists: bool) -> (r: bool)
    ensures
        r == (runnable(record@, exists) is Err),
{
    runnable_agent(record, exists).is_err()
}

/// How to launch an instance with `token` and `tunnel_id` on a machine
/// that reports the operating system `os`. Fails with `NotInstalled`
/// where there is no installed agent to run.
pub fn launch_plan(record: &Config, exists: bool, token: &str, tunnel_id: &str, os: &str) -> (r:
    Result<Launch, SupervisorError>)
    ensures
        match r {
            Ok(l) => launch(record@, exists, token@, tunnel_id@, os@) == Ok::<
                LaunchView,
                SupervisorError,
            >(l@),
            Err(e) => launch(record@, exists, token@, tunnel_id@, os@) == Err::<
                LaunchView,
                SupervisorError,
            >(e),
        },
{
    match runnable_agent(record, exists) {
        Ok(program) => Ok(
            Launch {
                command: CommandLine { program, args: agent_arguments(token, tunnel_id) },
                output_captured: true,
                console_hidden: same_text(os, "windows"),
            },
        ),
        Err(e) => Err(e),
    }
}

/// The version that the agent reports in `output`.
pub fn parse_version_output(output: &str) -> (r: Option<String>)
    ensures
        match r {
            Some(v) => reported_version(output@) == Some(v@),
            None => reported_version(output@) is None,
        },
{
    let word = last_word_of_first_line(output);
    if word.as_str().unicode_len() == 0 {
        None
    } else {
        Some(word)
    }
}

/// What to do with the answer of the agent that was asked for its
/// version: `succeeded` says whether it exited with success, `output` is
/// what it printed. Fails with `Failed` where it did not succeed, and
/// with `NotText` where it did and the output is not valid UTF-8. Else
/// the result is the record to save, or none where the output holds no
/// version.
pub fn record_probed_version(record: Config, succeeded: bool, output: Vec<u8>) -> (r: Result<
    Option<Config>,
    VersionProbeError,
>)
    ensures
        match r {
            Ok(Some(c)) => succeeded && valid_utf8(output@) && version_recorded(
                record@,
                decode_utf8(output@),
            ) == Some(c@),
            Ok(None) => succeeded && valid_utf8(output@) && version_recorded(
                record@,
                decode_utf8(output@),
            ) is None,
            Err(VersionProbeError::Failed) => !succeeded,
            Err(VersionProbeError::NotText(_)) => succeeded && !valid_utf8(output@),
        },
{
    if !succeeded {
        return Err(VersionProbeError::Failed);
    }
    let text = match text_from_utf8(output) {
        Ok(text) => text,
        Err(why) => {
            return Err(VersionProbeError::NotText(why));
        },
    };
    match parse_version_output(text.as_str()) {
        Some(version) => {
            let mut updated = record;
            updated.agent_version = Some(version);
            Ok(Some(updated))
        },
        None => Ok(None),
    }
}

/// The command that kills the whole process tree of `group_id`.
pub fn tree_kill_command(group_id: u32) -> (r: CommandLine)
    ensures
        r@ == tree_kill(group_id),
{
    CommandLine {
        program: "taskkill".to_owned(),
        args: four("/F".to_owned(), "/T".to_owned(), "/PID".to_owned(), decimal_text(group_id)),
    }
}

impl Termination {
    /// The command that carries out the termination, where it takes one.
    pub fn command(self) -> (r: Option<CommandLine>)
        ensures
            match r {
                Some(c) => termination_command(self) == Some(c@),
                None => termination_command(self) is None,
            },
    {
        match self {
            Termination::Tree { group_id } => Some(tree_kill_command(group_id)),
            Termination::Direct => None,
        }
    }
}

/// The command that kills every process that runs the agent, whatever
/// the table holds, on a machine that reports `os` and `arch`. Fails
/// where the machine has no agent build.
pub fn kill_all_command(os: &str, arch: &str) -> (r: Result<CommandLine, Unsupported>)
    ensures
        match r {
            Ok(c) => resolved(os@, arch@) matches Ok(p) && c@ == sweep(p),
            Err(u) => resolved(os@, arch@) == Err::<Platform, Unsupported>(u),
        },
{
    match Platform::resolve(os, arch) {
        Err(u) => Err(u),
        Ok(p) => {
            let name = p.target_filename();
            match p.os {
                Os::Windows => Ok(
                    CommandLine {
                        program: "taskkill".to_owned(),
                        args: three("/F".to_owned(), "/IM".to_owned(), name),
                    },
                ),
                _ => Ok(CommandLine { program: "pkill".to_owned(), args: two("-f".to_owned(), name) }),
            }
        },
    }
}

/// The name of the event that carries the output of the instance `id`.
pub fn log_channel(id: &str) -> (r: String)
    ensures
        r@ == channel(id@),
{
    joined("frpc-log-", id)
}

/// The message that passes on one line of an instance's output.
pub fn log_message(stream: Stream, line: &str) -> (r: String)
    ensures
        r@ == message(stream, line@),
{
    match stream {
        Stream::Stdout => line.to_owned(),
        Stream::Stderr => joined("错误: ", line),
    }
}

/// An agent that was installed can be run: once the configuration
/// records an install for the platform `p`, and the installed file is in
/// place, a launch is not refused, and it runs the file that the
/// installer names.
pub proof fn installed_agent_is_runnable(
    record: ConfigView,
    version: Seq<char>,
    p: Platform,
    token: Seq<char>,
    tunnel_id: Seq<char>,
    os: Seq<char>,
)
    ensures
        runnable(with_install(record, version, installed_name(p)), true) == Ok::<
            Seq<char>,
            SupervisorError,
        >(installed_name(p)),
        launch(with_install(record, version, installed_name(p)), true, token, tunnel_id, os) is Ok,
{
    reveal_strlit("frpc_");
    assert(installed_name(p).len() >= "frpc_"@.len());
}

} // verus!
