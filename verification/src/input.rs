//! Input state: bindings, the two keybinds of the configuration, and the
//! settings of input devices.

pub mod libinput;

use vstd::prelude::*;
use crate::input::libinput::{Device, SettingCategory};
use crate::keys::ModifierMask;

verus! {

/// A key combination bound to a callback of the configuration.
#[derive(Clone, Copy, Debug, PartialEq, Eq, Structural)]
pub struct Keybinding {
    pub mask: ModifierMask,
    pub key: u32,
    pub callback: u32,
}

/// A mouse button bound to a callback of the configuration.
#[derive(Clone, Copy, Debug, PartialEq, Eq, Structural)]
pub struct Mousebinding {
    pub mask: ModifierMask,
    pub button: u32,
    pub on_press: bool,
    pub callback: u32,
}

/// What the compositor keeps about input.
#[derive(Debug)]
pub struct InputState {
    pub keybinds: Vec<Keybinding>,
    pub mousebinds: Vec<Mousebinding>,
    /// The keybind that restarts the configuration, once one is installed.
    pub reload_keybind: Option<(ModifierMask, u32)>,
    /// The keybind that stops the configuration, once one is installed.
    pub kill_keybind: Option<(ModifierMask, u32)>,
    /// Device settings by category. Within a category the entry added last
    /// stands last.
    pub libinput_settings: Vec<SettingCategory>,
    /// The devices that have their settings.
    pub libinput_devices: Vec<Device>,
}

impl InputState {
    /// Input state with no binding, no keybind, no setting and no device.
    pub fn new() -> (r: Self)
        ensures
            r.keybinds@.len() == 0,
            r.mousebinds@.len() == 0,
            r.reload_keybind is None,
            r.kill_keybind is None,
            r.libinput_settings@.len() == 0,
            r.libinput_devices@.len() == 0,
    {
        InputState {
            keybinds: Vec::new(),
            mousebinds: Vec::new(),
            reload_keybind: None,
            kill_keybind: None,
            libinput_settings: Vec::new(),
            libinput_devices: Vec::new(),
        }
    }

    /// Whether a key event with exactly this mask and this symbol code is the
    /// reload keybind.
    pub fn is_reload_keybind(&self, mask: ModifierMask, key: u32) -> (r: bool)
        ensures
            r == (self.reload_keybind == Some((mask, key))),
    {
        match self.reload_keybind {
            Some((m, k)) => m.0 == mask.0 && k == key,
            None => false,
        }
    }

    /// Whether a key event with exactly this mask and this symbol code is the
    /// kill keybind.
    pub fn is_kill_keybind(&self, mask: ModifierMask, key: u32) -> (r: bool)
        ensures
            r == (self.kill_keybind == Some((mask, key))),
    {
        match self.kill_keybind {
            Some((m, k)) => m.0 == mask.0 && k == key,
            None => false,
        }
    }
}

} // verus!
