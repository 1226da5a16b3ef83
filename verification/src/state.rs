use vstd::prelude::*;
use crate::api::layout::LayoutState;
use crate::channel::StateFnSender;
use crate::input::InputState;
use crate::output::{Output, OutputName};
use crate::tag::TagIdAllocator;
use crate::window::{all_idle, windows_are_idle, WindowElement};

verus! {

/// Names a transport: a connection of a client on the control socket.
#[derive(Clone, Copy, Debug, PartialEq, Eq, Structural)]
pub struct TransportId(pub u64);

/// Names a process of the configuration.
#[derive(Clone, Copy, Debug, PartialEq, Eq, Structural)]
pub struct ProcessId(pub u64);

/// Names a control socket that listens and is not yet registered.
#[derive(Clone, Copy, Debug, PartialEq, Eq, Structural)]
pub struct SocketSource(pub u64);

/// Names the registration of a control socket with the reactor.
#[derive(Clone, Copy, Debug, PartialEq, Eq, Structural)]
pub struct SocketToken(pub u64);

/// Names the sender of a stream towards a client.
#[derive(Clone, Copy, Debug, PartialEq, Eq, Structural)]
pub struct StreamId(pub u64);

/// A rule for new windows, by the number under which the configuration
/// registered it.
#[derive(Clone, Copy, Debug, PartialEq, Eq, Structural)]
pub struct WindowRule(pub u32);

/// What has the focus.
#[derive(Debug)]
pub struct FocusState {
    pub focused_output: Option<OutputName>,
}

impl FocusState {
    /// Nothing has the focus.
    pub fn new() -> (r: Self)
        ensures
            r.focused_output is None,
    {
        FocusState { focused_output: None }
    }
}

/// The compositor's own data.
#[derive(Debug)]
pub struct Pinnacle {
    pub outputs: Vec<Output>,
    pub windows: Vec<WindowElement>,
    pub focus_state: FocusState,
    pub input_state: InputState,
    pub window_rules: Vec<WindowRule>,
    pub layout_state: LayoutState,
    pub tag_ids: TagIdAllocator,
    /// The name of the display socket, for clients to find it.
    pub socket_name: String,
}

impl Pinnacle {
    /// Whether this differs from `other` at most in the devices that have
    /// their settings.
    pub open spec fn unchanged_but_devices(&self, other: Pinnacle) -> bool {
        &&& self.outputs == other.outputs
        &&& self.windows == other.windows
        &&& self.focus_state == other.focus_state
        &&& self.window_rules == other.window_rules
        &&& self.layout_state == other.layout_state
        &&& self.tag_ids == other.tag_ids
        &&& self.socket_name == other.socket_name
        &&& self.input_state.keybinds == other.input_state.keybinds
        &&& self.input_state.mousebinds == other.input_state.mousebinds
        &&& self.input_state.reload_keybind == other.input_state.reload_keybind
        &&& self.input_state.kill_keybind == other.input_state.kill_keybind
        &&& self.input_state.libinput_settings == other.input_state.libinput_settings
    }

    /// Whether this differs from `other` at most in the layout state.
    pub open spec fn unchanged_but_layout(&self, other: Pinnacle) -> bool {
        &&& self.outputs == other.outputs
        &&& self.windows == other.windows
        &&& self.focus_state == other.focus_state
        &&& self.window_rules == other.window_rules
        &&& self.input_state == other.input_state
        &&& self.tag_ids == other.tag_ids
        &&& self.socket_name == other.socket_name
    }
}

/// The handles of the control channel.
#[derive(Debug)]
pub struct ApiState {
    /// The transport of the client that connected last, while there is one.
    pub stream: Option<TransportId>,
    /// The process of the configuration that was installed last.
    pub config_process: Option<ProcessId>,
    /// The registration of the control socket that was installed last.
    pub socket_token: Option<SocketToken>,
    /// The producer end of the command channel.
    pub tx_channel: Option<StateFnSender>,
}

/// The transport that is installed after the transports of `accepted` were
/// accepted one after the other.
pub open spec fn installed_after(stream: Option<TransportId>, accepted: Seq<TransportId>) -> Option<
    TransportId,
> {
    if accepted.len() == 0 {
        stream
    } else {
        Some(accepted.last())
    }
}

/// The transports that were displaced, and so are to be shut down, while the
/// transports of `accepted` were accepted one after the other: in the order
/// in which they were displaced.
pub open spec fn displaced_by(stream: Option<TransportId>, accepted: Seq<TransportId>) -> Seq<
    TransportId,
>
    decreases accepted.len(),
{
    if accepted.len() == 0 {
        Seq::empty()
    } else {
        let before = displaced_by(stream, accepted.drop_last());
        match installed_after(stream, accepted.drop_last()) {
            Some(old) => before.push(old),
            None => before,
        }
    }
}

/// The transport that was installed at first, if any, as a sequence.
pub open spec fn at_first(stream: Option<TransportId>) -> Seq<TransportId> {
    match stream {
        Some(old) => seq![old],
        None => Seq::empty(),
    }
}

/// At most one transport is installed: after any number of connections, the
/// one accepted last is installed, and the others, with the one that was
/// installed at first, were each displaced once, in the order in which they
/// came.
pub proof fn lemma_last_accepted_is_installed(stream: Option<TransportId>, accepted: Seq<TransportId>)
    requires
        accepted.len() > 0,
    ensures
        installed_after(stream, accepted) == Some(accepted.last()),
        displaced_by(stream, accepted) == at_first(stream) + accepted.drop_last(),
    decreases accepted.len(),
{
    let init = accepted.drop_last();
    if init.len() == 0 {
        assert(displaced_by(stream, init) == Seq::<TransportId>::empty());
        assert(displaced_by(stream, accepted) =~= at_first(stream) + init);
    } else {
        lemma_last_accepted_is_installed(stream, init);
        assert(init.drop_last().push(init.last()) =~= init);
        assert(displaced_by(stream, accepted) =~= at_first(stream) + init);
    }
}

impl ApiState {
    /// Handles of a control channel on which nothing is installed.
    pub fn new() -> (r: Self)
        ensures
            r.stream is None,
            r.config_process is None,
            r.socket_token is None,
            r.tx_channel is None,
    {
        ApiState { stream: None, config_process: None, socket_token: None, tx_channel: None }
    }

    /// Installs the transport of a client that has connected, in place of the
    /// one installed before. Returns the displaced transport: the caller
    /// shuts it down, for reading and for writing, before dropping it.
    pub fn accept(&mut self, stream: TransportId) -> (r: Option<TransportId>)
        ensures
            r == old(self).stream,
            final(self).stream == Some(stream),
            final(self).stream == installed_after(old(self).stream, seq![stream]),
            at_first(r) == displaced_by(old(self).stream, seq![stream]),
            final(self).config_process == old(self).config_process,
            final(self).socket_token == old(self).socket_token,
            final(self).tx_channel == old(self).tx_channel,
    {
        let displaced = self.stream;
        self.stream = Some(stream);
        proof {
            assert(seq![stream].drop_last() =~= Seq::<TransportId>::empty());
            assert(displaced_by(displaced, Seq::<TransportId>::empty()) =~= Seq::<TransportId>::empty());
        }
        displaced
    }
}

/// The state that the reactor thread owns. No other thread reaches it but
/// through a command.
#[derive(Debug)]
pub struct State {
    pub pinnacle: Pinnacle,
    pub api_state: ApiState,
}

impl State {
    /// The state at the start of the process: no output, no window, no
    /// binding, no rule, no device, no open stream, nothing installed on the
    /// control channel but its producer end, and a fresh tag allocator.
    pub fn init(socket_name: String, tx_channel: StateFnSender) -> (r: Self)
        ensures
            r.pinnacle.socket_name == socket_name,
            r.pinnacle.outputs@.len() == 0,
            r.pinnacle.windows@.len() == 0,
            r.pinnacle.focus_state.focused_output is None,
            r.pinnacle.window_rules@.len() == 0,
            r.pinnacle.input_state.keybinds@.len() == 0,
            r.pinnacle.input_state.mousebinds@.len() == 0,
            r.pinnacle.input_state.reload_keybind is None,
            r.pinnacle.input_state.kill_keybind is None,
            r.pinnacle.input_state.libinput_settings@.len() == 0,
            r.pinnacle.input_state.libinput_devices@.len() == 0,
            r.pinnacle.layout_state.layout_request_sender is None,
            r.pinnacle.tag_ids.upcoming() == 0,
            r.api_state.stream is None,
            r.api_state.config_process is None,
            r.api_state.socket_token is None,
            r.api_state.tx_channel == Some(tx_channel),
    {
        let mut api_state = ApiState::new();
        api_state.tx_channel = Some(tx_channel);
        State {
            pinnacle: Pinnacle {
                outputs: Vec::new(),
                windows: Vec::new(),
                focus_state: FocusState::new(),
                input_state: InputState::new(),
                window_rules: Vec::new(),
                layout_state: LayoutState::new(),
                tag_ids: TagIdAllocator::new(),
                socket_name,
            },
            api_state,
        }
    }
}

/// What became of work that was scheduled.
#[derive(Debug)]
pub enum Scheduled<W> {
    /// Its condition held, and it ran.
    Ran,
    /// Its condition did not hold. The work is handed back, for the caller to
    /// schedule it again on the reactor's next idle turn, not before.
    Deferred(W),
}

/// Schedules `run` for when `condition` returns true: checks the condition
/// now, runs `run` if it holds, and hands both back if it does not.
pub fn schedule<S, F1, F2>(data: &mut S, condition: F1, run: F2) -> (r: Scheduled<(F1, F2)>) where
    F1: Fn(&mut S) -> bool,
    F2: FnOnce(&mut S),

    requires
        forall|s: &mut S| call_requires(condition, (s,)),
        forall|s: &mut S| call_requires(run, (s,)),
    ensures
        match r {
            Scheduled::Ran => exists|checked: &mut S, ran: &mut S|
                {
                    &&& *checked == *old(data)
                    &&& call_ensures(condition, (checked,), true)
                    &&& *ran == *final(checked)
                    &&& call_ensures(run, (ran,), ())
                    &&& *final(ran) == *final(data)
                },
            Scheduled::Deferred(again) => again == (condition, run) && exists|checked: &mut S|
                {
                    &&& *checked == *old(data)
                    &&& call_ensures(condition, (checked,), false)
                    &&& *final(checked) == *final(data)
                },
        },
{
    if !condition(data) {
        return Scheduled::Deferred((condition, run));
    }
    run(data);
    Scheduled::Ran
}

/// Schedules `on_commit` for when the windows of `windows` have finished
/// committing: runs it now if each of them that is still among the
/// compositor's windows and alive has nothing pending, and hands it back with
/// the windows if not.
pub fn schedule_on_commit<F>(data: &mut State, windows: Vec<u64>, on_commit: F) -> (r: Scheduled<
    (Vec<u64>, F),
>) where F: FnOnce(&mut State)
    requires
        forall|s: &mut State| call_requires(on_commit, (s,)),
    ensures
        match r {
            Scheduled::Ran => all_idle(old(data).pinnacle.windows@, windows@) && exists|ran: &mut State|
                {
                    &&& *ran == *old(data)
                    &&& call_ensures(on_commit, (ran,), ())
                    &&& *final(ran) == *final(data)
                },
            Scheduled::Deferred(again) => {
                &&& !all_idle(old(data).pinnacle.windows@, windows@)
                &&& again == (windows, on_commit)
                &&& *final(data) == *old(data)
            },
        },
{
    if !windows_are_idle(&data.pinnacle.windows, &windows) {
        return Scheduled::Deferred((windows, on_commit));
    }
    on_commit(data);
    Scheduled::Ran
}

/// Whether work that was scheduled on turn 0 is checked on turn `turn`, when
/// `holds[t]` tells whether its condition holds on turn `t`: it is checked on
/// turn 0, and on each later turn if it was checked on the turn before and
/// deferred there.
pub open spec fn checked_on(holds: Seq<bool>, turn: int) -> bool
    decreases turn,
{
    if turn <= 0 {
        turn == 0
    } else {
        checked_on(holds, turn - 1) && !holds[turn - 1]
    }
}

/// Whether work that was scheduled on turn 0 runs on turn `turn`: it is
/// checked there, and its condition holds.
pub open spec fn runs_on(holds: Seq<bool>, turn: int) -> bool {
    checked_on(holds, turn) && holds[turn]
}

/// Work whose condition holds for the first time on turn `first` runs on that
/// turn: on no turn before it, and on no turn after it, so exactly once.
pub proof fn lemma_runs_once_when_ready(holds: Seq<bool>, first: int, turn: int)
    requires
        0 <= first < holds.len(),
        holds[first],
        forall|t: int| 0 <= t < first ==> !holds[t],
        0 <= turn < holds.len(),
    ensures
        runs_on(holds, turn) <==> turn == first,
        checked_on(holds, turn) <==> turn <= first,
    decreases turn,
{
    if turn > 0 {
        lemma_runs_once_when_ready(holds, first, turn - 1);
    }
}

/// Work whose condition never holds is checked on every turn and never runs.
pub proof fn lemma_never_ready_never_runs(holds: Seq<bool>, turn: int)
    requires
        forall|t: int| 0 <= t < holds.len() ==> !holds[t],
        0 <= turn < holds.len(),
    ensures
        checked_on(holds, turn),
        !runs_on(holds, turn),
    decreases turn,
{
    if turn > 0 {
        lemma_never_ready_never_runs(holds, turn - 1);
    }
}

/// A place on the screen, in logical pixels.
#[derive(Clone, Copy, Debug, PartialEq, Eq, Structural)]
pub struct Point {
    pub x: i32,
    pub y: i32,
}

/// A size on the screen, in logical pixels.
#[derive(Clone, Copy, Debug, PartialEq, Eq, Structural)]
pub struct Size {
    pub w: i32,
    pub h: i32,
}

/// How far an interactive resize of a surface has come.
#[derive(Clone, Copy, Debug, PartialEq, Eq, Structural)]
pub enum ResizeSurfaceState {
    /// The surface is not being resized.
    Idle,
    /// The surface is being resized by the edges `edges`, from where and how
    /// large it was at first.
    Resizing { edges: u32, initial_window_loc: Point, initial_window_size: Size },
    /// The resize has ended; the surface has yet to commit its last size.
    WaitingForLastCommit { edges: u32, initial_window_loc: Point },
}

/// The state that the compositor keeps for a surface.
#[derive(Clone, Copy, Debug, PartialEq, Eq, Structural)]
pub struct WlSurfaceState {
    pub resize_state: ResizeSurfaceState,
}

impl Default for WlSurfaceState {
    fn default() -> (r: Self)
        ensures
            r.resize_state == ResizeSurfaceState::Idle,
    {
        WlSurfaceState { resize_state: ResizeSurfaceState::Idle }
    }
}

/// State that the compositor keeps for an object, reached through the object.
pub trait WithState {
    /// The state that is kept.
    type State: Default;

    /// The state that is kept for this object.
    spec fn state(&self) -> Self::State;

    /// This object with `state` kept for it, and nothing else changed.
    spec fn replaced(&self, state: Self::State) -> Self where Self: Sized;

    /// Runs `func` on this object's state and returns what it returns. The
    /// state is left as `func` leaves it; nothing else of the object changes.
    fn with_state<F, T>(&mut self, func: F) -> (r: T) where
        F: FnMut(&mut Self::State) -> T,
        Self: Sized,

        requires
            forall|s: &mut Self::State| *s == old(self).state() ==> call_requires(func, (s,)),
        ensures
            exists|s: &mut Self::State|
                *s == old(self).state() && *final(s) == final(self).state() && call_ensures(
                    func,
                    (s,),
                    r,
                ),
            *final(self) == old(self).replaced(final(self).state()),
    ;
}

} // verus!
