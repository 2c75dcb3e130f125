//! What holds of every install.

use crate::config::{loaded, upgrade_keeps_what_is_stored, with_install, ConfigView};
use crate::installer::data::{
    ActionView, DescriptorView, EventView, InstallErrorView, InstalledView, InstallerView, Phase,
    StepView,
};
use crate::installer::model::{address, begin_spec, out_of_turn, step_spec};
use crate::platform::{installed_name, resolved, Platform, Unsupported};
use crate::text::trimmed;
use vstd::prelude::*;

verus! {

/// A machine without an agent build is refused at the outset, with the
/// reason, before any decision names an action; every other machine
/// starts by asking the registry.
pub proof fn unsupported_machine_is_refused_first(os: Seq<char>, arch: Seq<char>)
    ensures
        match resolved(os, arch) {
            Err(u) => begin_spec(os, arch) == Err::<StepView, InstallErrorView>(
                InstallErrorView::UnsupportedPlatform(u),
            ),
            Ok(p) => begin_spec(os, arch) matches Ok(first) && first.action
                == ActionView::FetchMetadata && first.state.platform == p,
        },
{
}

/// Whenever the configuration is saved, it records the latest version
/// and the platform's installed name, and keeps its other fields.
pub proof fn saved_record_names_the_install(s: InstallerView, e: EventView)
    ensures
        step_spec(s, e).action matches ActionView::SaveConfig { record } ==> record == with_install(
            s.record,
            s.latest,
            installed_name(s.platform),
        ),
{
}

/// Where the agent is in place and the configuration records the latest
/// version, an install asks the registry once, loads the configuration,
/// looks for the agent and ends: it downloads nothing and changes
/// nothing.
pub proof fn current_install_is_left_alone(
    os: Seq<char>,
    arch: Seq<char>,
    answer: DescriptorView,
    stored: ConfigView,
)
    requires
        resolved(os, arch) is Ok,
        answer.sources.len() > 0,
        stored.agent_version == Some(trimmed(answer.latest, '/')),
    ensures
        ({
            let name = installed_name(resolved(os, arch)->Ok_0);
            let first = begin_spec(os, arch)->Ok_0;
            let second = step_spec(first.state, EventView::Metadata(answer));
            let third = step_spec(second.state, EventView::Loaded(stored));
            let last = step_spec(third.state, EventView::Exists(true));
            &&& first.action == ActionView::FetchMetadata
            &&& second.action == ActionView::LoadConfig
            &&& third.action == ActionView::Probe { name }
            &&& last.action == ActionView::Finish(Ok(InstalledView { filename: name, downloaded: false }))
        }),
{
}

/// An install that follows a completed one downloads nothing: where an
/// install of the platform saved `saved`, the agent is still in place,
/// and the registry still names the version that was installed, the
/// next install finds the loaded configuration current. The load in
/// between may run under any host build.
pub proof fn second_install_downloads_nothing(
    done: InstallerView,
    e: EventView,
    os: Seq<char>,
    arch: Seq<char>,
    answer: DescriptorView,
    host_version: Seq<char>,
)
    requires
        resolved(os, arch) == Ok::<Platform, Unsupported>(done.platform),
        step_spec(done, e).action is SaveConfig,
        answer.sources.len() > 0,
        trimmed(answer.latest, '/') == done.latest,
    ensures
        ({
            let saved = step_spec(done, e).action->SaveConfig_record;
            let stored = loaded(Some(saved), host_version);
            let name = installed_name(done.platform);
            let first = begin_spec(os, arch)->Ok_0;
            let second = step_spec(first.state, EventView::Metadata(answer));
            let third = step_spec(second.state, EventView::Loaded(stored));
            let last = step_spec(third.state, EventView::Exists(true));
            &&& first.action == ActionView::FetchMetadata
            &&& second.action == ActionView::LoadConfig
            &&& third.action == ActionView::Probe { name }
            &&& last.action == ActionView::Finish(Ok(InstalledView { filename: name, downloaded: false }))
        }),
{
    saved_record_names_the_install(done, e);
    let saved = step_spec(done, e).action->SaveConfig_record;
    upgrade_keeps_what_is_stored(saved);
    current_install_is_left_alone(os, arch, answer, loaded(Some(saved), host_version));
}

/// A download is decided only after the agent was looked for and found
/// missing or outdated: directly after the probe that found it missing,
/// or after the outdated one was removed.
pub proof fn download_follows_the_probe(s: InstallerView, e: EventView)
    requires
        step_spec(s, e).action is Download,
    ensures
        (s.phase == Phase::ProbingTarget && e == EventView::Exists(false)) || (s.phase
            == Phase::RemovingStale && e == EventView::Done),
        step_spec(s, e).action == (ActionView::Download { url: address(s) }),
{
}

/// A stale agent is removed only when it is there and the configuration
/// does not record the latest version.
pub proof fn removal_follows_a_version_mismatch(s: InstallerView, e: EventView)
    requires
        step_spec(s, e).state.phase == Phase::RemovingStale,
    ensures
        s.phase == Phase::ProbingTarget,
        e == EventView::Exists(true),
        s.record.agent_version != Some(s.latest),
{
}

/// An install that has ended stays ended: every further event is out of
/// turn.
pub proof fn finished_is_final(s: InstallerView, e: EventView)
    requires
        s.phase == Phase::Finished,
    ensures
        step_spec(s, e) == out_of_turn(s),
        step_spec(s, e).state.phase == Phase::Finished,
{
}

} // verus!
