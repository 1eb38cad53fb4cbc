//! Settings shared by the switcher's components.
use vstd::prelude::*;

verus! {

/// Identifier of the hotkey that switches between windows of the same app.
pub const SWITCH_WINDOWS_HOTKEY_ID: u32 = 1;

/// Identifier of the hotkey that switches between apps.
pub const SWITCH_APPS_HOTKEY_ID: u32 = 2;

/// How app-switch entries are rendered.
#[derive(Clone, Copy, Debug, PartialEq, Eq, Structural)]
pub enum SwitchAppsRenderMode {
    /// A compact strip of app icons.
    IconOnly,
    /// Live preview cards where thumbnails are available.
    Preview,
}

impl SwitchAppsRenderMode {
    /// Whether entries are drawn as cards (true in preview mode only).
    pub fn uses_preview_cards(&self) -> (r: bool)
        ensures
            r == (*self == SwitchAppsRenderMode::Preview),
    {
        match self {
            SwitchAppsRenderMode::IconOnly => false,
            SwitchAppsRenderMode::Preview => true,
        }
    }
}

/// A hotkey: a main key, the modifier keys that must be held with it, and an id.
/// Keys are identified by their keyboard scan codes.
#[derive(Clone, Debug)]
pub struct Hotkey {
    pub id: u32,
    pub modifier: Vec<u32>,
    pub code: u32,
}

impl Hotkey {
    /// Builds a hotkey from its id, modifier scan codes and main key scan code.
    pub fn new(id: u32, modifier: Vec<u32>, code: u32) -> (r: Self)
        ensures
            r.id == id,
            r.modifier@ == modifier@,
            r.code == code,
    {
        Hotkey { id, modifier, code }
    }

    /// Whether `scan_code` is one of this hotkey's modifier keys.
    pub fn has_modifier(&self, scan_code: u32) -> (r: bool)
        ensures
            r == self.modifier@.contains(scan_code),
    {
        let mut i: usize = 0;
        while i < self.modifier.len()
            invariant
                i <= self.modifier.len(),
                forall|j: int| 0 <= j < i ==> self.modifier@[j] != scan_code,
            decreases self.modifier.len() - i,
        {
            if self.modifier[i] == scan_code {
                return true;
            }
            i = i + 1;
        }
        false
    }
}

} // verus!
