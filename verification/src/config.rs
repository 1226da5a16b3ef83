//! The configuration program: how it is launched, and what a restart does to
//! the state.

use vstd::prelude::*;
use crate::command::{split_command, split_on};
use crate::expand::{expand_envs, expanded, kept, table_strings};
use crate::input::{Keybinding, Mousebinding};
use crate::keys::{Keybind, ModifierMask};
use crate::output::Output;
use crate::state::{ProcessId, SocketSource, SocketToken, State, WindowRule};
use crate::tag::TagId;

verus! {

/// What the configuration's descriptor declares.
#[derive(Debug)]
pub struct Metaconfig {
    /// The command that starts the configuration program.
    pub command: String,
    /// Environment variables for the program.
    pub envs: Option<toml::Table>,
    pub reload_keybind: Keybind,
    pub kill_keybind: Keybind,
    /// The directory for the control socket, where the default is not wanted.
    pub socket_dir: Option<String>,
}

/// Where the control socket is to be.
#[derive(Debug)]
pub enum SocketDir {
    /// In the directory that the descriptor names. The name is relative to
    /// the directory of the configuration.
    Configured(String),
    /// In the user's runtime directory.
    Runtime(String),
    /// In the temporary directory, for want of anything else.
    Fallback,
}

/// The directory that [`SocketDir::Fallback`] stands for.
pub const DEFAULT_SOCKET_DIR: &'static str = "/tmp";

/// Where the control socket is to be: where the descriptor says, else in the
/// runtime directory, else in the temporary directory.
pub open spec fn socket_dir_for(configured: Option<String>, runtime_dir: Option<String>) -> SocketDir {
    match configured {
        Some(dir) => SocketDir::Configured(dir),
        None => match runtime_dir {
            Some(dir) => SocketDir::Runtime(dir),
            None => SocketDir::Fallback,
        },
    }
}

/// Decides where the control socket is to be.
pub fn socket_dir(configured: Option<String>, runtime_dir: Option<String>) -> (r: SocketDir)
    ensures
        r == socket_dir_for(configured, runtime_dir),
{
    match configured {
        Some(dir) => SocketDir::Configured(dir),
        None => match runtime_dir {
            Some(dir) => SocketDir::Runtime(dir),
            None => SocketDir::Fallback,
        },
    }
}

/// Everything that is needed to launch the configuration program.
#[derive(Debug)]
pub struct ConfigLaunch {
    pub program: String,
    pub args: Vec<String>,
    /// The environment variables to set for the program, on top of the
    /// compositor's own.
    pub envs: Vec<(String, String)>,
    pub socket_dir: SocketDir,
    pub reload_keybind: (ModifierMask, u32),
    pub kill_keybind: (ModifierMask, u32),
}

/// Works out how to launch the configuration program that `metaconfig`
/// declares.
///
/// The command is split at its spaces, with no quoting: the first piece is the
/// program and the others are its arguments. Of the declared environment
/// variables those with a string value are kept, each value expanded against
/// `home` and `vars`; a reference to a variable that `vars` lacks expands to
/// nothing, so that a missing variable never stops the launch. The two
/// keybinds become a mask and a symbol code each.
pub fn start_config(
    metaconfig: Metaconfig,
    home: Option<String>,
    vars: Vec<(String, String)>,
    runtime_dir: Option<String>,
) -> (r: ConfigLaunch)
    ensures
        r.program@ == split_on(metaconfig.command@, ' ')[0],
        r.args.deep_view() == split_on(metaconfig.command@, ' ').skip(1),
        r.envs.deep_view() == match metaconfig.envs {
            Some(table) => kept(expanded(table_strings(table), home.deep_view(), vars.deep_view())),
            None => Seq::empty(),
        },
        r.socket_dir == socket_dir_for(metaconfig.socket_dir, runtime_dir),
        r.reload_keybind == metaconfig.reload_keybind.binding_spec(),
        r.kill_keybind == metaconfig.kill_keybind.binding_spec(),
{
    let socket_dir = socket_dir(metaconfig.socket_dir, runtime_dir);
    let mut pieces = split_command(metaconfig.command.as_str());
    proof {
        crate::command::lemma_split_joins(metaconfig.command@, ' ');
    }
    let ghost all = pieces.deep_view();
    let program = pieces.remove(0);
    proof {
        assert(pieces.deep_view() =~= all.skip(1));
    }
    let envs = match &metaconfig.envs {
        Some(table) => expand_envs(table, &home, &vars),
        None => Vec::new(),
    };
    let reload_keybind = metaconfig.reload_keybind.binding();
    let kill_keybind = metaconfig.kill_keybind.binding();
    ConfigLaunch { program, args: pieces, envs, socket_dir, reload_keybind, kill_keybind }
}

/// A configuration that was launched: its keybinds, its process, and its
/// control socket, which is yet to be registered.
#[derive(Clone, Copy, Debug)]
pub struct ConfigReturn {
    pub reload_keybind: (ModifierMask, u32),
    pub kill_keybind: (ModifierMask, u32),
    pub config_child_handle: ProcessId,
    pub socket_source: SocketSource,
}

/// What is left of the configuration that ran before a restart, for the
/// caller to dispose of before it launches the next.
#[derive(Clone, Copy, Debug)]
pub struct Teardown {
    /// The process to terminate. That it cannot be terminated is no error:
    /// it may be dead already.
    pub kill: Option<ProcessId>,
    /// The registration of the control socket to take out of the reactor.
    pub remove: Option<SocketToken>,
}

/// The phase that the configuration program is in.
#[derive(Clone, Copy, Debug, PartialEq, Eq, Structural)]
pub enum ConfigPhase {
    Stopped,
    Starting,
    Running,
    Stopping,
}

/// What happens to the configuration program.
#[derive(Clone, Copy, Debug, PartialEq, Eq, Structural)]
pub enum ConfigEvent {
    /// The first launch is asked for.
    Start,
    /// The program was launched and is installed.
    Started,
    /// A restart is asked for.
    Reload,
    /// What was left of the old program is disposed of.
    TornDown,
    /// The program is to stop, and no other takes its place.
    Kill,
    /// The program has ended by itself.
    Exited,
}

impl ConfigPhase {
    /// The phase after `event`; `None` where the event has no place in this
    /// phase.
    pub open spec fn after(self, event: ConfigEvent) -> Option<ConfigPhase> {
        match (self, event) {
            (ConfigPhase::Stopped, ConfigEvent::Start) => Some(ConfigPhase::Starting),
            (ConfigPhase::Starting, ConfigEvent::Started) => Some(ConfigPhase::Running),
            (ConfigPhase::Running, ConfigEvent::Reload) => Some(ConfigPhase::Stopping),
            (ConfigPhase::Stopping, ConfigEvent::TornDown) => Some(ConfigPhase::Starting),
            (ConfigPhase::Running, ConfigEvent::Kill) => Some(ConfigPhase::Stopped),
            (ConfigPhase::Running, ConfigEvent::Exited) => Some(ConfigPhase::Stopped),
            _ => None,
        }
    }

    /// Takes the step that `event` asks for.
    pub fn on(self, event: ConfigEvent) -> (r: Option<ConfigPhase>)
        ensures
            r == self.after(event),
    {
        match self {
            ConfigPhase::Stopped => match event {
                ConfigEvent::Start => Some(ConfigPhase::Starting),
                _ => None,
            },
            ConfigPhase::Starting => match event {
                ConfigEvent::Started => Some(ConfigPhase::Running),
                _ => None,
            },
            ConfigPhase::Running => match event {
                ConfigEvent::Reload => Some(ConfigPhase::Stopping),
                ConfigEvent::Kill => Some(ConfigPhase::Stopped),
                ConfigEvent::Exited => Some(ConfigPhase::Stopped),
                _ => None,
            },
            ConfigPhase::Stopping => match event {
                ConfigEvent::TornDown => Some(ConfigPhase::Starting),
                _ => None,
            },
        }
    }
}

/// The phase after the events of `events`, one after the other; `None` as
/// soon as one of them has no place.
pub open spec fn phase_after(phase: ConfigPhase, events: Seq<ConfigEvent>) -> Option<ConfigPhase>
    decreases events.len(),
{
    if events.len() == 0 {
        Some(phase)
    } else {
        match phase_after(phase, events.drop_last()) {
            Some(before) => before.after(events.last()),
            None => None,
        }
    }
}

/// A restart brings a running configuration back to running, by way of
/// stopping and starting; the first launch brings a stopped one to running.
pub proof fn lemma_restart_returns_to_running()
    ensures
        phase_after(
            ConfigPhase::Running,
            seq![ConfigEvent::Reload, ConfigEvent::TornDown, ConfigEvent::Started],
        ) == Some(ConfigPhase::Running),
        phase_after(ConfigPhase::Stopped, seq![ConfigEvent::Start, ConfigEvent::Started]) == Some(
            ConfigPhase::Running,
        ),
{
    let restart = seq![ConfigEvent::Reload, ConfigEvent::TornDown, ConfigEvent::Started];
    assert(restart.drop_last() =~= seq![ConfigEvent::Reload, ConfigEvent::TornDown]);
    assert(restart.drop_last().drop_last() =~= seq![ConfigEvent::Reload]);
    assert(restart.drop_last().drop_last().drop_last() =~= Seq::<ConfigEvent>::empty());
    reveal_with_fuel(phase_after, 4);
    let launch = seq![ConfigEvent::Start, ConfigEvent::Started];
    assert(launch.drop_last() =~= seq![ConfigEvent::Start]);
    assert(launch.drop_last().drop_last() =~= Seq::<ConfigEvent>::empty());
}

/// Whether `after` is `before` with the tags of every output removed: the
/// same outputs in the same order, under the same names.
pub open spec fn tags_cleared(before: Seq<Output>, after: Seq<Output>) -> bool {
    &&& after.len() == before.len()
    &&& forall|i: int|
        0 <= i < after.len() ==> (#[trigger] after[i]).name == before[i].name && after[i].state.tags@
            == Seq::<TagId>::empty()
}

impl State {
    /// Takes the state back to where a configuration finds it at its start,
    /// and says what is left to dispose of.
    ///
    /// Afterwards no output has a tag, the tag allocator is in its initial
    /// state, and there is no keybinding, no mouse binding and no window
    /// rule. The process and the socket registration of the configuration
    /// that ran are returned, for the caller to terminate the one and to
    /// deregister the other. They, and the two keybinds of the configuration,
    /// stay installed until [`State::install_config`] replaces them, all at
    /// once. Nothing else changes.
    ///
    /// Among the phases of the configuration this is [`ConfigEvent::Reload`];
    /// the caller's disposal is [`ConfigEvent::TornDown`]. A restart is not
    /// held back by the phase: it goes ahead though the old process be dead.
    pub fn restart_config(&mut self) -> (r: Teardown)
        ensures
            tags_cleared(old(self).pinnacle.outputs@, final(self).pinnacle.outputs@),
            final(self).pinnacle.tag_ids.upcoming() == 0,
            final(self).pinnacle.input_state.keybinds@ == Seq::<Keybinding>::empty(),
            final(self).pinnacle.input_state.mousebinds@ == Seq::<Mousebinding>::empty(),
            final(self).pinnacle.window_rules@ == Seq::<WindowRule>::empty(),
            r.kill == old(self).api_state.config_process,
            r.remove == old(self).api_state.socket_token,
            final(self).api_state == old(self).api_state,
            final(self).pinnacle.input_state.reload_keybind == old(
                self,
            ).pinnacle.input_state.reload_keybind,
            final(self).pinnacle.input_state.kill_keybind == old(self).pinnacle.input_state.kill_keybind,
            final(self).pinnacle.input_state.libinput_settings == old(
                self,
            ).pinnacle.input_state.libinput_settings,
            final(self).pinnacle.input_state.libinput_devices == old(
                self,
            ).pinnacle.input_state.libinput_devices,
            final(self).pinnacle.windows == old(self).pinnacle.windows,
            final(self).pinnacle.focus_state == old(self).pinnacle.focus_state,
            final(self).pinnacle.layout_state == old(self).pinnacle.layout_state,
            final(self).pinnacle.socket_name == old(self).pinnacle.socket_name,
    {
        let mut i: usize = 0;
        while i < self.pinnacle.outputs.len()
            invariant
                i <= self.pinnacle.outputs.len(),
                self.pinnacle.outputs.len() == old(self).pinnacle.outputs.len(),
                forall|j: int|
                    0 <= j < i ==> (#[trigger] self.pinnacle.outputs@[j]).name == old(
                        self,
                    ).pinnacle.outputs@[j].name && self.pinnacle.outputs@[j].state.tags@
                        == Seq::<TagId>::empty(),
                forall|j: int|
                    i <= j < self.pinnacle.outputs.len() ==> self.pinnacle.outputs@[j] == old(
                        self,
                    ).pinnacle.outputs@[j],
                self.api_state == old(self).api_state,
                self.pinnacle.input_state == old(self).pinnacle.input_state,
                self.pinnacle.windows == old(self).pinnacle.windows,
                self.pinnacle.window_rules == old(self).pinnacle.window_rules,
                self.pinnacle.focus_state == old(self).pinnacle.focus_state,
                self.pinnacle.layout_state == old(self).pinnacle.layout_state,
                self.pinnacle.socket_name == old(self).pinnacle.socket_name,
                self.pinnacle.tag_ids == old(self).pinnacle.tag_ids,
            decreases self.pinnacle.outputs.len() - i,
        {
            self.pinnacle.outputs[i].state.tags.clear();
            i = i + 1;
        }
        self.pinnacle.tag_ids.reset();
        self.pinnacle.input_state.keybinds.clear();
        self.pinnacle.input_state.mousebinds.clear();
        self.pinnacle.window_rules.clear();
        Teardown { kill: self.api_state.config_process, remove: self.api_state.socket_token }
    }

    /// Installs a configuration that was launched: its two keybinds, its
    /// process and the registration of its control socket take the place of
    /// those of the configuration before it, all in one step. Nothing else
    /// changes. Among the phases this is [`ConfigEvent::Started`].
    pub fn install_config(&mut self, config: ConfigReturn, socket_token: SocketToken)
        ensures
            final(self).pinnacle.input_state.reload_keybind == Some(config.reload_keybind),
            final(self).pinnacle.input_state.kill_keybind == Some(config.kill_keybind),
            final(self).api_state.config_process == Some(config.config_child_handle),
            final(self).api_state.socket_token == Some(socket_token),
            final(self).api_state.stream == old(self).api_state.stream,
            final(self).api_state.tx_channel == old(self).api_state.tx_channel,
            final(self).pinnacle.input_state.keybinds == old(self).pinnacle.input_state.keybinds,
            final(self).pinnacle.input_state.mousebinds == old(self).pinnacle.input_state.mousebinds,
            final(self).pinnacle.input_state.libinput_settings == old(
                self,
            ).pinnacle.input_state.libinput_settings,
            final(self).pinnacle.input_state.libinput_devices == old(
                self,
            ).pinnacle.input_state.libinput_devices,
            final(self).pinnacle.outputs == old(self).pinnacle.outputs,
            final(self).pinnacle.windows == old(self).pinnacle.windows,
            final(self).pinnacle.window_rules == old(self).pinnacle.window_rules,
            final(self).pinnacle.focus_state == old(self).pinnacle.focus_state,
            final(self).pinnacle.layout_state == old(self).pinnacle.layout_state,
            final(self).pinnacle.tag_ids == old(self).pinnacle.tag_ids,
            final(self).pinnacle.socket_name == old(self).pinnacle.socket_name,
    {
        self.pinnacle.input_state.reload_keybind = Some(config.reload_keybind);
        self.pinnacle.input_state.kill_keybind = Some(config.kill_keybind);
        self.api_state.config_process = Some(config.config_child_handle);
        self.api_state.socket_token = Some(socket_token);
    }

    /// Stops the configuration without starting another: returns its process,
    /// for the caller to terminate, and keeps no process on record. The
    /// compositor's own data stays as it is. Among the phases this is
    /// [`ConfigEvent::Kill`].
    pub fn kill_config(&mut self) -> (r: Option<ProcessId>)
        ensures
            r == old(self).api_state.config_process,
            final(self).api_state.config_process is None,
            final(self).api_state.stream == old(self).api_state.stream,
            final(self).api_state.socket_token == old(self).api_state.socket_token,
            final(self).api_state.tx_channel == old(self).api_state.tx_channel,
            final(self).pinnacle == old(self).pinnacle,
    {
        let process = self.api_state.config_process;
        self.api_state.config_process = None;
        process
    }
}

} // verus!
