//! Windows, as far as the control plane reads them.

use vstd::prelude::*;
use crate::state::WithState;

verus! {

/// How far a request to move a window has come.
#[derive(Clone, Copy, Debug, PartialEq, Eq, Structural)]
pub enum LocationRequestState {
    /// Nothing is pending.
    Idle,
    /// The new geometry was sent to the window.
    Sent,
    /// The window was asked to commit the new geometry.
    Requested,
    /// The window acknowledged the request and has yet to commit.
    Acknowledged,
}

/// The state that the compositor keeps for a window.
#[derive(Clone, Copy, Debug, PartialEq, Eq, Structural)]
pub struct WindowElementState {
    pub loc_request_state: LocationRequestState,
}

impl Default for WindowElementState {
    fn default() -> (r: Self)
        ensures
            r.loc_request_state == LocationRequestState::Idle,
    {
        WindowElementState { loc_request_state: LocationRequestState::Idle }
    }
}

/// A window.
#[derive(Clone, Copy, Debug, PartialEq, Eq, Structural)]
pub struct WindowElement {
    /// Identifies the window for as long as the compositor runs.
    pub id: u64,
    /// Whether the window's surface still exists.
    pub alive: bool,
    pub state: WindowElementState,
}

impl WindowElement {
    /// A window that is alive, with nothing pending.
    pub fn new(id: u64) -> (r: Self)
        ensures
            r.id == id,
            r.alive,
            r.state.loc_request_state == LocationRequestState::Idle,
    {
        WindowElement { id, alive: true, state: WindowElementState::default() }
    }

    /// Whether the window's surface still exists.
    pub fn alive(&self) -> (r: bool)
        ensures
            r == self.alive,
    {
        self.alive
    }
}

impl WithState for WindowElement {
    type State = WindowElementState;

    open spec fn state(&self) -> WindowElementState {
        self.state
    }

    open spec fn replaced(&self, state: WindowElementState) -> Self {
        WindowElement { id: self.id, alive: self.alive, state }
    }

    fn with_state<F, T>(&mut self, mut func: F) -> (r: T) where
        F: FnMut(&mut Self::State) -> T,
     {
        func(&mut self.state)
    }
}

/// Whether every window of `watched` that is in `windows` and alive has
/// nothing pending. A window that is gone, or not alive, does not count.
pub open spec fn all_idle(windows: Seq<WindowElement>, watched: Seq<u64>) -> bool {
    forall|i: int, j: int|
        0 <= i < watched.len() && 0 <= j < windows.len() && (#[trigger] windows[j]).id
            == #[trigger] watched[i] && windows[j].alive ==> windows[j].state.loc_request_state
            == LocationRequestState::Idle
}

/// Whether the window `id`, where it is in `windows` and alive, has nothing
/// pending.
pub open spec fn idle_in(windows: Seq<WindowElement>, id: u64) -> bool {
    forall|j: int|
        0 <= j < windows.len() && (#[trigger] windows[j]).id == id && windows[j].alive
            ==> windows[j].state.loc_request_state == LocationRequestState::Idle
}

/// Tells whether the window `id`, where it is in `windows` and alive, has
/// nothing pending.
pub fn window_is_idle(windows: &Vec<WindowElement>, id: u64) -> (r: bool)
    ensures
        r == idle_in(windows@, id),
{
    let mut j: usize = 0;
    while j < windows.len()
        invariant
            j <= windows.len(),
            forall|k: int|
                0 <= k < j && (#[trigger] windows@[k]).id == id && windows@[k].alive
                    ==> windows@[k].state.loc_request_state == LocationRequestState::Idle,
        decreases windows.len() - j,
    {
        if windows[j].id == id && windows[j].alive() {
            match windows[j].state.loc_request_state {
                LocationRequestState::Idle => {},
                _ => {
                    return false;
                },
            }
        }
        j = j + 1;
    }
    true
}

/// Tells whether every window of `watched` that is in `windows` and alive has
/// nothing pending.
pub fn windows_are_idle(windows: &Vec<WindowElement>, watched: &Vec<u64>) -> (r: bool)
    ensures
        r == all_idle(windows@, watched@),
{
    let mut i: usize = 0;
    while i < watched.len()
        invariant
            i <= watched.len(),
            forall|k: int| 0 <= k < i ==> idle_in(windows@, #[trigger] watched@[k]),
        decreases watched.len() - i,
    {
        if !window_is_idle(windows, watched[i]) {
            return false;
        }
        i = i + 1;
    }
    proof {
        assert forall|i: int, j: int|
            0 <= i < watched.len() && 0 <= j < windows.len() && (#[trigger] windows@[j]).id
                == #[trigger] watched@[i] && windows@[j].alive implies windows@[j].state.loc_request_state
            == LocationRequestState::Idle by {
            assert(idle_in(windows@, watched@[i]));
        }
    }
    true
}

} // verus!
