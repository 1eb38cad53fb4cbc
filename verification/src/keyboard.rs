//! The hotkey state machines behind the keyboard hook.
//!
//! Each registered hotkey tracks whether its modifier and main key are held and
//! whether a switch is waiting to be committed when the modifier is released.
use vstd::prelude::*;

use crate::config::{Hotkey, SWITCH_APPS_HOTKEY_ID, SWITCH_WINDOWS_HOTKEY_ID};

verus! {

/// Scan code of the left Shift key.
pub const SCANCODE_LSHIFT: u32 = 0x2a;

/// Scan code of the right Shift key.
pub const SCANCODE_RSHIFT: u32 = 0x36;

/// Scan code of the Escape key, which cancels an open app switcher.
pub const SCANCODE_ESCAPE: u32 = 0x01;

/// Flag of a low-level keyboard event that marks a key release.
pub const LLKHF_UP: u32 = 0x80;

/// First message number that the platform leaves to applications.
pub const WM_USER: u32 = 0x0400;

/// Advance the app switcher; the parameter is 1 for reverse, 0 for forward.
pub const WM_USER_SWITCH_APPS: u32 = WM_USER + 2;

/// Commit the app switcher's selection.
pub const WM_USER_SWITCH_APPS_DONE: u32 = WM_USER + 3;

/// Close the app switcher without switching.
pub const WM_USER_SWITCH_APPS_CANCEL: u32 = WM_USER + 4;

/// Advance the window switcher; the parameter is 1 for reverse, 0 for forward.
pub const WM_USER_SWITCH_WINDOWS: u32 = WM_USER + 5;

/// Commit the window switcher's selection.
pub const WM_USER_SWITCH_WINDOWS_DONE: u32 = WM_USER + 6;

/// A message for the switcher window: its number and its optional parameter.
#[derive(Clone, Copy, Debug, PartialEq, Eq, Structural)]
pub struct HookMessage {
    pub msg: u32,
    pub lparam: Option<isize>,
}

/// What the hook asks the switcher window to do.
#[derive(Clone, Copy, Debug, PartialEq, Eq, Structural)]
pub enum HotKeyAction {
    /// Swallow the key without doing anything.
    Consume,
    SwitchApps { reverse: bool },
    SwitchAppsDone,
    SwitchAppsCancel,
    SwitchWindows { reverse: bool },
    SwitchWindowsDone,
}

/// The message that carries an action to the switcher window; a swallowed key
/// sends nothing.
pub open spec fn spec_action_message(action: HotKeyAction) -> Option<HookMessage> {
    match action {
        HotKeyAction::Consume => None,
        HotKeyAction::SwitchApps { reverse } => Some(
            HookMessage { msg: WM_USER_SWITCH_APPS, lparam: Some(if reverse { 1 } else { 0 }) },
        ),
        HotKeyAction::SwitchAppsDone => Some(
            HookMessage { msg: WM_USER_SWITCH_APPS_DONE, lparam: None },
        ),
        HotKeyAction::SwitchAppsCancel => Some(
            HookMessage { msg: WM_USER_SWITCH_APPS_CANCEL, lparam: None },
        ),
        HotKeyAction::SwitchWindows { reverse } => Some(
            HookMessage { msg: WM_USER_SWITCH_WINDOWS, lparam: Some(if reverse { 1 } else { 0 }) },
        ),
        HotKeyAction::SwitchWindowsDone => Some(
            HookMessage { msg: WM_USER_SWITCH_WINDOWS_DONE, lparam: None },
        ),
    }
}

/// Maps an action to the message the hook sends for it.
pub fn action_message(action: HotKeyAction) -> (r: Option<HookMessage>)
    ensures
        r == spec_action_message(action),
{
    match action {
        HotKeyAction::Consume => None,
        HotKeyAction::SwitchApps { reverse } => Some(
            HookMessage { msg: WM_USER_SWITCH_APPS, lparam: Some(if reverse { 1 } else { 0 }) },
        ),
        HotKeyAction::SwitchAppsDone => Some(
            HookMessage { msg: WM_USER_SWITCH_APPS_DONE, lparam: None },
        ),
        HotKeyAction::SwitchAppsCancel => Some(
            HookMessage { msg: WM_USER_SWITCH_APPS_CANCEL, lparam: None },
        ),
        HotKeyAction::SwitchWindows { reverse } => Some(
            HookMessage { msg: WM_USER_SWITCH_WINDOWS, lparam: Some(if reverse { 1 } else { 0 }) },
        ),
        HotKeyAction::SwitchWindowsDone => Some(
            HookMessage { msg: WM_USER_SWITCH_WINDOWS_DONE, lparam: None },
        ),
    }
}

/// The press state of one hotkey.
#[derive(Debug)]
pub struct HotKeyState {
    pub hotkey: Hotkey,
    pub is_modifier_pressed: bool,
    pub is_hotkey_pressed: bool,
    pub should_commit_on_modifier_release: bool,
}

/// The action that commits a switch of the hotkey with this id.
pub open spec fn done_action(id: u32) -> Option<HotKeyAction> {
    if id == SWITCH_APPS_HOTKEY_ID {
        Some(HotKeyAction::SwitchAppsDone)
    } else if id == SWITCH_WINDOWS_HOTKEY_ID {
        Some(HotKeyAction::SwitchWindowsDone)
    } else {
        None
    }
}

/// The action that advances a switch of the hotkey with this id.
pub open spec fn switch_action(id: u32, reverse: bool) -> Option<HotKeyAction> {
    if id == SWITCH_APPS_HOTKEY_ID {
        Some(HotKeyAction::SwitchApps { reverse })
    } else if id == SWITCH_WINDOWS_HOTKEY_ID {
        Some(HotKeyAction::SwitchWindows { reverse })
    } else {
        None
    }
}

/// A modifier key event: pressing a modifier arms the hotkey; releasing it resets
/// the hotkey and commits a pending switch.
pub open spec fn spec_modifier_event(s: HotKeyState, scan_code: u32, is_key_pressed: bool) -> (
    HotKeyState,
    Option<HotKeyAction>,
) {
    if !s.hotkey.modifier@.contains(scan_code) {
        (s, None)
    } else if is_key_pressed {
        (HotKeyState { is_modifier_pressed: true, ..s }, None)
    } else {
        (
            HotKeyState {
                is_modifier_pressed: false,
                is_hotkey_pressed: false,
                should_commit_on_modifier_release: false,
                ..s
            },
            if s.should_commit_on_modifier_release {
                done_action(s.hotkey.id)
            } else {
                None
            },
        )
    }
}

/// A main key event. A press while the modifier is held advances the switch
/// (when allowed) and arms the commit; a held-down repeat of the app-switch key
/// is swallowed without advancing again.
pub open spec fn spec_hotkey_event(
    s: HotKeyState,
    scan_code: u32,
    is_key_pressed: bool,
    reverse: bool,
    allow_switch: bool,
) -> (HotKeyState, Option<HotKeyAction>) {
    if scan_code != s.hotkey.code {
        (s, None)
    } else if !is_key_pressed {
        (HotKeyState { is_hotkey_pressed: false, ..s }, None)
    } else {
        let pressed = HotKeyState { is_hotkey_pressed: true, ..s };
        if !s.is_modifier_pressed {
            (pressed, None)
        } else if s.hotkey.id == SWITCH_APPS_HOTKEY_ID && s.is_hotkey_pressed {
            (pressed, Some(HotKeyAction::Consume))
        } else if !allow_switch {
            (pressed, None)
        } else {
            (
                HotKeyState { should_commit_on_modifier_release: true, ..pressed },
                switch_action(s.hotkey.id, reverse),
            )
        }
    }
}

/// Escape pressed while the app switcher's modifier is held cancels the switch.
pub open spec fn spec_cancel_event(s: HotKeyState, scan_code: u32, is_key_pressed: bool) -> (
    HotKeyState,
    Option<HotKeyAction>,
) {
    if s.hotkey.id != SWITCH_APPS_HOTKEY_ID || scan_code != SCANCODE_ESCAPE || !is_key_pressed
        || !s.is_modifier_pressed {
        (s, None)
    } else {
        (
            HotKeyState { should_commit_on_modifier_release: false, ..s },
            Some(HotKeyAction::SwitchAppsCancel),
        )
    }
}

/// A hotkey with nothing held and nothing pending.
pub open spec fn spec_fresh_state(hotkey: Hotkey) -> HotKeyState {
    HotKeyState {
        hotkey,
        is_modifier_pressed: false,
        is_hotkey_pressed: false,
        should_commit_on_modifier_release: false,
    }
}

impl HotKeyState {
    pub fn new(hotkey: Hotkey) -> (r: Self)
        ensures
            r == spec_fresh_state(hotkey),
    {
        HotKeyState {
            hotkey,
            is_modifier_pressed: false,
            is_hotkey_pressed: false,
            should_commit_on_modifier_release: false,
        }
    }

    pub fn handle_modifier_event(&mut self, scan_code: u32, is_key_pressed: bool) -> (r: Option<
        HotKeyAction,
    >)
        ensures
            (*final(self), r) == spec_modifier_event(*old(self), scan_code, is_key_pressed),
    {
        if !self.hotkey.has_modifier(scan_code) {
            return None;
        }
        if is_key_pressed {
            self.is_modifier_pressed = true;
            return None;
        }
        self.is_modifier_pressed = false;
        self.is_hotkey_pressed = false;
        let should_commit = self.should_commit_on_modifier_release;
        self.should_commit_on_modifier_release = false;

        if !should_commit {
            return None;
        }
        if self.hotkey.id == SWITCH_APPS_HOTKEY_ID {
            Some(HotKeyAction::SwitchAppsDone)
        } else if self.hotkey.id == SWITCH_WINDOWS_HOTKEY_ID {
            Some(HotKeyAction::SwitchWindowsDone)
        } else {
            None
        }
    }

    pub fn handle_hotkey_event(
        &mut self,
        scan_code: u32,
        is_key_pressed: bool,
        reverse: bool,
        allow_switch: bool,
    ) -> (r: Option<HotKeyAction>)
        ensures
            (*final(self), r) == spec_hotkey_event(
                *old(self),
                scan_code,
                is_key_pressed,
                reverse,
                allow_switch,
            ),
    {
        if scan_code != self.hotkey.code {
            return None;
        }
        if !is_key_pressed {
            self.is_hotkey_pressed = false;
            return None;
        }
        let is_repeat = self.is_hotkey_pressed;
        self.is_hotkey_pressed = true;

        if !self.is_modifier_pressed {
            return None;
        }
        if self.hotkey.id == SWITCH_APPS_HOTKEY_ID && is_repeat {
            // Swallow repeated Alt+Tab keydowns so the system does not see the native
            // shortcut, but only advance once per physical Tab press.
            return Some(HotKeyAction::Consume);
        }
        if !allow_switch {
            return None;
        }
        self.should_commit_on_modifier_release = true;
        if self.hotkey.id == SWITCH_APPS_HOTKEY_ID {
            Some(HotKeyAction::SwitchApps { reverse })
        } else if self.hotkey.id == SWITCH_WINDOWS_HOTKEY_ID {
            Some(HotKeyAction::SwitchWindows { reverse })
        } else {
            None
        }
    }

    pub fn handle_cancel_event(&mut self, scan_code: u32, is_key_pressed: bool) -> (r: Option<
        HotKeyAction,
    >)
        ensures
            (*final(self), r) == spec_cancel_event(*old(self), scan_code, is_key_pressed),
    {
        if self.hotkey.id != SWITCH_APPS_HOTKEY_ID || scan_code != SCANCODE_ESCAPE
            || !is_key_pressed || !self.is_modifier_pressed {
            return None;
        }
        self.should_commit_on_modifier_release = false;
        Some(HotKeyAction::SwitchAppsCancel)
    }
}


/// Holding the app-switch hotkey down makes the keyboard repeat the main key; each
/// repeat is swallowed and leaves the state as it was, so one physical press
/// advances the switcher once.
pub proof fn lemma_repeat_press_is_consumed(
    s: HotKeyState,
    reverse: bool,
    allow_switch: bool,
)
    requires
        s.hotkey.id == SWITCH_APPS_HOTKEY_ID,
        s.is_modifier_pressed,
        s.is_hotkey_pressed,
    ensures
        spec_hotkey_event(s, s.hotkey.code, true, reverse, allow_switch) == (
            s,
            Some(HotKeyAction::Consume),
        ),
{
}

/// A switch that was advanced is committed exactly when its modifier is released:
/// the release yields the hotkey's done action and leaves nothing held or pending.
pub proof fn lemma_switch_commits_on_modifier_release(
    s: HotKeyState,
    reverse: bool,
    modifier_code: u32,
)
    requires
        s.is_modifier_pressed,
        !(s.hotkey.id == SWITCH_APPS_HOTKEY_ID && s.is_hotkey_pressed),
        s.hotkey.modifier@.contains(modifier_code),
    ensures
        ({
            let (pressed, action) = spec_hotkey_event(s, s.hotkey.code, true, reverse, true);
            let (released, done) = spec_modifier_event(pressed, modifier_code, false);
            &&& action == switch_action(s.hotkey.id, reverse)
            &&& done == done_action(s.hotkey.id)
            &&& !released.is_modifier_pressed
            &&& !released.is_hotkey_pressed
            &&& !released.should_commit_on_modifier_release
        }),
{
}

/// Escape cancels a pending app switch: the following modifier release commits
/// nothing.
pub proof fn lemma_cancel_clears_pending_commit(s: HotKeyState, modifier_code: u32)
    requires
        s.hotkey.id == SWITCH_APPS_HOTKEY_ID,
        s.is_modifier_pressed,
    ensures
        ({
            let (cancelled, action) = spec_cancel_event(s, SCANCODE_ESCAPE, true);
            &&& action == Some(HotKeyAction::SwitchAppsCancel)
            &&& spec_modifier_event(cancelled, modifier_code, false).1 == None::<HotKeyAction>
        }),
{
}

/// A press that was not allowed to switch arms no commit, so the later modifier
/// release stays silent.
pub proof fn lemma_disallowed_switch_never_commits(
    s: HotKeyState,
    scan_code: u32,
    reverse: bool,
    modifier_code: u32,
)
    requires
        !s.should_commit_on_modifier_release,
        s.hotkey.id != SWITCH_APPS_HOTKEY_ID,
    ensures
        ({
            let (after, action) = spec_hotkey_event(s, scan_code, true, reverse, false);
            &&& action == None::<HotKeyAction>
            &&& !after.should_commit_on_modifier_release
            &&& spec_modifier_event(after, modifier_code, false).1 == None::<HotKeyAction>
        }),
{
}


/// The state the keyboard hook keeps between events: one state machine per
/// registered hotkey and whether Shift is held (Shift reverses the direction).
#[derive(Debug)]
pub struct KeyboardHookState {
    pub states: Vec<HotKeyState>,
    pub is_shift_pressed: bool,
}

/// What the hook does with one key event: the actions to send, in order, and
/// whether the key is swallowed instead of passed on.
#[derive(Debug)]
pub struct KeyEventOutcome {
    pub actions: Vec<HotKeyAction>,
    pub swallow: bool,
}

/// Whether a raw event flag word marks a key press (not a release).
pub open spec fn spec_is_key_pressed(flags: u32) -> bool {
    flags & LLKHF_UP == 0
}

/// The modifier pass over the first `n` hotkeys: each handles the event in turn;
/// the actions that come out are kept in order.
pub open spec fn spec_modifier_pass(
    states: Seq<HotKeyState>,
    scan_code: u32,
    is_key_pressed: bool,
    n: nat,
) -> (Seq<HotKeyState>, Seq<HotKeyAction>)
    decreases n,
{
    if n == 0 {
        (Seq::empty(), Seq::empty())
    } else {
        let (done, actions) = spec_modifier_pass(states, scan_code, is_key_pressed, (n - 1) as nat);
        let (next, action) = spec_modifier_event(states[n - 1], scan_code, is_key_pressed);
        (
            done.push(next),
            match action {
                Some(a) => actions.push(a),
                None => actions,
            },
        )
    }
}

/// Whether the scan code is a modifier of any hotkey.
pub open spec fn spec_is_any_modifier(states: Seq<HotKeyState>, scan_code: u32) -> bool {
    exists|i: int| 0 <= i < states.len() && #[trigger] states[i].hotkey.modifier@.contains(scan_code)
}

/// Whether the hotkey may start or advance a switch: the window switch is refused
/// while the foreground app is blacklisted.
pub open spec fn spec_allow_switch(s: HotKeyState, foreground_in_blacklist: bool) -> bool {
    s.hotkey.id != SWITCH_WINDOWS_HOTKEY_ID || !foreground_in_blacklist
}

/// The main-key pass from hotkey `i` on: each hotkey handles the event as its main
/// key, then as a cancel; the first action stops the pass.
pub open spec fn spec_hotkey_pass(
    states: Seq<HotKeyState>,
    scan_code: u32,
    is_key_pressed: bool,
    reverse: bool,
    foreground_in_blacklist: bool,
    i: nat,
) -> (Seq<HotKeyState>, Option<HotKeyAction>)
    decreases states.len() - i,
{
    if i >= states.len() {
        (states, None)
    } else {
        let s = states[i as int];
        let (s1, a1) = spec_hotkey_event(
            s,
            scan_code,
            is_key_pressed,
            reverse,
            spec_allow_switch(s, foreground_in_blacklist),
        );
        if a1 is Some {
            (states.update(i as int, s1), a1)
        } else {
            let (s2, a2) = spec_cancel_event(s1, scan_code, is_key_pressed);
            if a2 is Some {
                (states.update(i as int, s2), a2)
            } else {
                spec_hotkey_pass(
                    states.update(i as int, s2),
                    scan_code,
                    is_key_pressed,
                    reverse,
                    foreground_in_blacklist,
                    i + 1,
                )
            }
        }
    }
}

/// The Shift state after an event.
pub open spec fn spec_shift_after(is_shift_pressed: bool, scan_code: u32, flags: u32) -> bool {
    if scan_code == SCANCODE_LSHIFT || scan_code == SCANCODE_RSHIFT {
        spec_is_key_pressed(flags)
    } else {
        is_shift_pressed
    }
}

/// The whole effect of one key event: the new hotkey states, the actions sent in
/// order, and whether the key is swallowed. A key that is some hotkey's modifier
/// only goes through the modifier pass and is always passed on.
pub open spec fn spec_key_event(
    states: Seq<HotKeyState>,
    is_shift_pressed: bool,
    scan_code: u32,
    flags: u32,
    foreground_in_blacklist: bool,
) -> (Seq<HotKeyState>, Seq<HotKeyAction>, bool) {
    let pressed = spec_is_key_pressed(flags);
    let reverse = spec_shift_after(is_shift_pressed, scan_code, flags);
    let (after_mod, mod_actions) = spec_modifier_pass(states, scan_code, pressed, states.len());
    if spec_is_any_modifier(states, scan_code) {
        (after_mod, mod_actions, false)
    } else {
        let (after_key, action) = spec_hotkey_pass(
            after_mod,
            scan_code,
            pressed,
            reverse,
            foreground_in_blacklist,
            0,
        );
        match action {
            Some(a) => (after_key, mod_actions.push(a), true),
            None => (after_key, mod_actions, false),
        }
    }
}

/// The modifier pass changes each hotkey by its own modifier event and keeps the
/// number of hotkeys.
proof fn lemma_modifier_pass_len(
    states: Seq<HotKeyState>,
    scan_code: u32,
    is_key_pressed: bool,
    n: nat,
)
    requires
        n <= states.len(),
    ensures
        spec_modifier_pass(states, scan_code, is_key_pressed, n).0.len() == n,
        forall|i: int|
            0 <= i < n ==> #[trigger] spec_modifier_pass(states, scan_code, is_key_pressed, n).0[i]
                == spec_modifier_event(states[i], scan_code, is_key_pressed).0,
    decreases n,
{
    if n > 0 {
        lemma_modifier_pass_len(states, scan_code, is_key_pressed, (n - 1) as nat);
    }
}

/// Modifier keys are never swallowed, and they never touch a hotkey's main-key
/// state: the hook only records them (and commits on release).
pub proof fn lemma_modifier_keys_pass_through(
    states: Seq<HotKeyState>,
    is_shift_pressed: bool,
    scan_code: u32,
    flags: u32,
    foreground_in_blacklist: bool,
)
    requires
        spec_is_any_modifier(states, scan_code),
    ensures
        ({
            let (after, actions, swallow) = spec_key_event(
                states,
                is_shift_pressed,
                scan_code,
                flags,
                foreground_in_blacklist,
            );
            &&& !swallow
            &&& after.len() == states.len()
            &&& forall|i: int|
                0 <= i < states.len() ==> #[trigger] after[i] == spec_modifier_event(
                    states[i],
                    scan_code,
                    spec_is_key_pressed(flags),
                ).0
            &&& forall|i: int|
                0 <= i < states.len() && !spec_is_key_pressed(flags) ==> !after[i].is_hotkey_pressed
                    || !states[i].hotkey.modifier@.contains(scan_code)
        }),
{
    lemma_modifier_pass_len(states, scan_code, spec_is_key_pressed(flags), states.len());
}

/// A modifier pass leaves a key that is no one's modifier without effect.
proof fn lemma_modifier_pass_unrelated(
    states: Seq<HotKeyState>,
    scan_code: u32,
    is_key_pressed: bool,
    n: nat,
)
    requires
        n <= states.len(),
        forall|i: int| 0 <= i < n ==> !(#[trigger] states[i].hotkey.modifier@.contains(scan_code)),
    ensures
        spec_modifier_pass(states, scan_code, is_key_pressed, n).0 == states.subrange(0, n as int),
        spec_modifier_pass(states, scan_code, is_key_pressed, n).1 == Seq::<HotKeyAction>::empty(),
    decreases n,
{
    if n > 0 {
        lemma_modifier_pass_unrelated(states, scan_code, is_key_pressed, (n - 1) as nat);
        assert(states.subrange(0, n as int) =~= states.subrange(0, n - 1).push(states[n - 1]));
    }
}

/// Hotkeys whose main key is not the pressed key, and that are not cancelled by it,
/// let the main-key pass go on to the next hotkey unchanged.
proof fn lemma_hotkey_pass_skips(
    states: Seq<HotKeyState>,
    scan_code: u32,
    is_key_pressed: bool,
    reverse: bool,
    foreground_in_blacklist: bool,
    j: nat,
    i: nat,
)
    requires
        j <= i <= states.len(),
        scan_code != SCANCODE_ESCAPE,
        forall|k: int| j <= k < i ==> #[trigger] states[k].hotkey.code != scan_code,
    ensures
        spec_hotkey_pass(states, scan_code, is_key_pressed, reverse, foreground_in_blacklist, j)
            == spec_hotkey_pass(states, scan_code, is_key_pressed, reverse, foreground_in_blacklist, i),
    decreases i - j,
{
    if j < i {
        assert(states.update(j as int, states[j as int]) =~= states);
        lemma_hotkey_pass_skips(states, scan_code, is_key_pressed, reverse, foreground_in_blacklist, j + 1, i);
    }
}

/// Pressing a hotkey's main key while its modifier is held (and it is not a held
/// app-switch key repeating) advances that switcher in the direction Shift gives:
/// backwards exactly when Shift is held, for the app switcher and the window
/// switcher alike. The action is the only one sent, and the key is swallowed.
pub proof fn lemma_switch_direction_follows_shift(
    states: Seq<HotKeyState>,
    is_shift_pressed: bool,
    i: int,
    flags: u32,
    foreground_in_blacklist: bool,
)
    requires
        0 <= i < states.len(),
        flags & LLKHF_UP == 0,
        states[i].hotkey.id == SWITCH_APPS_HOTKEY_ID || states[i].hotkey.id
            == SWITCH_WINDOWS_HOTKEY_ID,
        states[i].is_modifier_pressed,
        !(states[i].hotkey.id == SWITCH_APPS_HOTKEY_ID && states[i].is_hotkey_pressed),
        !(states[i].hotkey.id == SWITCH_WINDOWS_HOTKEY_ID && foreground_in_blacklist),
        states[i].hotkey.code != SCANCODE_ESCAPE,
        states[i].hotkey.code != SCANCODE_LSHIFT,
        states[i].hotkey.code != SCANCODE_RSHIFT,
        forall|k: int| 0 <= k < i ==> #[trigger] states[k].hotkey.code != states[i].hotkey.code,
        forall|k: int|
            0 <= k < states.len() ==> !(#[trigger] states[k].hotkey.modifier@.contains(
                states[i].hotkey.code,
            )),
    ensures
        ({
            let (after, actions, swallow) = spec_key_event(
                states,
                is_shift_pressed,
                states[i].hotkey.code,
                flags,
                foreground_in_blacklist,
            );
            &&& swallow
            &&& actions == seq![
                if states[i].hotkey.id == SWITCH_APPS_HOTKEY_ID {
                    HotKeyAction::SwitchApps { reverse: is_shift_pressed }
                } else {
                    HotKeyAction::SwitchWindows { reverse: is_shift_pressed }
                },
            ]
            &&& after[i].should_commit_on_modifier_release
        }),
{
    let code = states[i].hotkey.code;
    let pressed = spec_is_key_pressed(flags);
    lemma_modifier_pass_unrelated(states, code, pressed, states.len());
    assert(states.subrange(0, states.len() as int) =~= states);
    assert(!spec_is_any_modifier(states, code));
    lemma_hotkey_pass_skips(states, code, pressed, is_shift_pressed, foreground_in_blacklist, 0, i as nat);
    assert(Seq::<HotKeyAction>::empty().push(
        spec_hotkey_pass(states, code, pressed, is_shift_pressed, foreground_in_blacklist, i as nat).1->0,
    ) =~= seq![spec_hotkey_pass(states, code, pressed, is_shift_pressed, foreground_in_blacklist, i as nat).1->0]);
}

impl KeyboardHookState {
    /// Fresh state machines, one per hotkey, in the given order; Shift not held.
    pub fn new(hotkeys: Vec<Hotkey>) -> (r: Self)
        ensures
            r.states@.len() == hotkeys@.len(),
            forall|i: int|
                0 <= i < hotkeys@.len() ==> r.states@[i] == spec_fresh_state(#[trigger] hotkeys@[i]),
            !r.is_shift_pressed,
    {
        let mut rest = hotkeys;
        let mut states: Vec<HotKeyState> = Vec::new();
        let ghost all = rest@;
        while rest.len() > 0
            invariant
                states@.len() + rest@.len() == all.len(),
                rest@ == all.subrange(states@.len() as int, all.len() as int),
                forall|i: int|
                    0 <= i < states@.len() ==> states@[i] == spec_fresh_state(#[trigger] all[i]),
            decreases rest.len(),
        {
            let hotkey = rest.remove(0);
            states.push(HotKeyState::new(hotkey));
        }
        KeyboardHookState { states, is_shift_pressed: false }
    }

    /// Handles one low-level keyboard event. `flags` are the event's raw flags;
    /// `foreground_in_blacklist` tells whether the foreground app refuses the window
    /// switch hotkey.
    pub fn handle_key_event(
        &mut self,
        scan_code: u32,
        flags: u32,
        foreground_in_blacklist: bool,
    ) -> (r: KeyEventOutcome)
        ensures
            (final(self).states@, r.actions@, r.swallow) == spec_key_event(
                old(self).states@,
                old(self).is_shift_pressed,
                scan_code,
                flags,
                foreground_in_blacklist,
            ),
            final(self).is_shift_pressed == spec_shift_after(
                old(self).is_shift_pressed,
                scan_code,
                flags,
            ),
    {
        let is_key_pressed = flags & LLKHF_UP == 0;
        if scan_code == SCANCODE_LSHIFT || scan_code == SCANCODE_RSHIFT {
            self.is_shift_pressed = is_key_pressed;
        }
        let reverse = self.is_shift_pressed;
        let ghost start = self.states@;
        let mut actions: Vec<HotKeyAction> = Vec::new();
        let mut is_modifier = false;
        let n = self.states.len();
        let mut i: usize = 0;
        while i < n
            invariant
                n == start.len(),
                i <= n,
                self.states@.len() == n,
                is_key_pressed == spec_is_key_pressed(flags),
                self.is_shift_pressed == spec_shift_after(old(self).is_shift_pressed, scan_code, flags),
                reverse == self.is_shift_pressed,
                ({
                    let (done, acts) = spec_modifier_pass(start, scan_code, is_key_pressed, i as nat);
                    &&& self.states@.subrange(0, i as int) == done
                    &&& actions@ == acts
                }),
                self.states@.subrange(i as int, n as int) == start.subrange(i as int, n as int),
                is_modifier == exists|j: int|
                    0 <= j < i && #[trigger] start[j].hotkey.modifier@.contains(scan_code),
            decreases n - i,
        {
            let ghost before = self.states@;
            let action = self.states[i].handle_modifier_event(scan_code, is_key_pressed);
            assert(before[i as int] == start[i as int]) by {
                assert(before.subrange(i as int, n as int)[0] == start.subrange(i as int, n as int)[0]);
            }
            match action {
                Some(a) => {
                    is_modifier = true;
                    actions.push(a);
                },
                None => {
                    if self.states[i].hotkey.has_modifier(scan_code) {
                        is_modifier = true;
                    }
                },
            }
            proof {
                let (done, acts) = spec_modifier_pass(start, scan_code, is_key_pressed, i as nat);
                assert(self.states@.subrange(0, i + 1) =~= done.push(self.states@[i as int]));
                assert(self.states@.subrange(i + 1, n as int) =~= start.subrange(i + 1, n as int)) by {
                    assert forall|k: int| 0 <= k < n - i - 1 implies
                        #[trigger] self.states@.subrange(i + 1, n as int)[k] == start.subrange(i + 1, n as int)[k] by {
                        assert(before.subrange(i as int, n as int)[k + 1] == start.subrange(i as int, n as int)[k + 1]);
                    }
                }
                if is_modifier {
                    if !(exists|j: int|
                        0 <= j < i && #[trigger] start[j].hotkey.modifier@.contains(scan_code)) {
                        assert(start[i as int].hotkey.modifier@.contains(scan_code));
                    }
                }
            }
            i = i + 1;
        }
        proof {
            assert(self.states@.subrange(0, n as int) =~= self.states@);
        }
        if is_modifier {
            return KeyEventOutcome { actions, swallow: false };
        }
        let ghost after_mod = self.states@;
        proof {
            lemma_modifier_pass_unrelated(start, scan_code, is_key_pressed, n as nat);
            assert(start.subrange(0, n as int) =~= start);
            assert(!spec_is_any_modifier(start, scan_code));
        }
        let mut k: usize = 0;
        while k < n
            invariant
                n == start.len(),
                k <= n,
                self.states@.len() == n,
                after_mod == start,
                old(self).states@ == start,
                spec_modifier_pass(start, scan_code, is_key_pressed, n as nat) == (start, Seq::<HotKeyAction>::empty()),
                !spec_is_any_modifier(start, scan_code),
                is_key_pressed == spec_is_key_pressed(flags),
                self.is_shift_pressed == spec_shift_after(old(self).is_shift_pressed, scan_code, flags),
                reverse == self.is_shift_pressed,
                spec_hotkey_pass(after_mod, scan_code, is_key_pressed, reverse, foreground_in_blacklist, 0)
                    == spec_hotkey_pass(self.states@, scan_code, is_key_pressed, reverse, foreground_in_blacklist, k as nat),
                actions@ == Seq::<HotKeyAction>::empty(),
            decreases n - k,
        {
            let ghost before = self.states@;
            let allow_switch = self.states[k].hotkey.id != SWITCH_WINDOWS_HOTKEY_ID || !foreground_in_blacklist;
            let action = self.states[k].handle_hotkey_event(scan_code, is_key_pressed, reverse, allow_switch);
            if let Some(a) = action {
                actions.push(a);
                assert(self.states@ =~= before.update(k as int, self.states@[k as int]));
                assert(spec_hotkey_pass(before, scan_code, is_key_pressed, reverse, foreground_in_blacklist, k as nat)
                    == (self.states@, action));
                return KeyEventOutcome { actions, swallow: true };
            }
            let ghost mid = self.states@;
            let cancel = self.states[k].handle_cancel_event(scan_code, is_key_pressed);
            if let Some(a) = cancel {
                actions.push(a);
                assert(self.states@ =~= before.update(k as int, self.states@[k as int]));
                assert(spec_hotkey_pass(before, scan_code, is_key_pressed, reverse, foreground_in_blacklist, k as nat)
                    == (self.states@, cancel));
                return KeyEventOutcome { actions, swallow: true };
            }
            assert(self.states@ =~= before.update(k as int, self.states@[k as int]));
            k = k + 1;
        }
        KeyEventOutcome { actions, swallow: false }
    }
}

} // verus!
