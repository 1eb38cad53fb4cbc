//! App entries of the app switcher and the selection state that cycles through
//! apps and through the windows of the selected app.
use vstd::prelude::*;

use crate::config::SwitchAppsRenderMode;
use crate::handles::{Hicon, Hwnd};
use crate::preview::AppPreview;
use crate::text::{chars_equal, normalize, spec_normalize};

verus! {

/// Which window of an app group stands for the app.
#[derive(Clone, Copy, Debug, PartialEq, Eq, Structural)]
pub enum RepresentativeWindowPolicy {
    /// The first window, unless it is minimized and the app has more windows;
    /// then the last one.
    LegacyMinimizedFallback,
    /// Always the first window in the group's order.
    FirstWindow,
}

impl Default for RepresentativeWindowPolicy {
    fn default() -> (r: Self)
        ensures
            r == RepresentativeWindowPolicy::LegacyMinimizedFallback,
    {
        RepresentativeWindowPolicy::LegacyMinimizedFallback
    }
}

/// The policy a setting value names, if any.
pub open spec fn spec_parse_policy(value: Seq<char>) -> Option<RepresentativeWindowPolicy> {
    let v = spec_normalize(value);
    if v == "legacy"@ || v == "legacy_minimized_fallback"@ {
        Some(RepresentativeWindowPolicy::LegacyMinimizedFallback)
    } else if v == "first"@ || v == "first_window"@ {
        Some(RepresentativeWindowPolicy::FirstWindow)
    } else {
        None
    }
}

impl RepresentativeWindowPolicy {
    /// Reads a policy from a setting value. Surrounding white space and ASCII case
    /// are ignored and `-` stands for `_`; `legacy` and `first` are short names.
    pub fn parse(value: &str) -> (r: Option<Self>)
        ensures
            r == spec_parse_policy(value@),
    {
        let v = normalize(value);
        if chars_equal(&v, "legacy") || chars_equal(&v, "legacy_minimized_fallback") {
            Some(RepresentativeWindowPolicy::LegacyMinimizedFallback)
        } else if chars_equal(&v, "first") || chars_equal(&v, "first_window") {
            Some(RepresentativeWindowPolicy::FirstWindow)
        } else {
            None
        }
    }
}

/// One window of an app group.
#[derive(Clone, Debug, PartialEq, Eq)]
pub struct AppSwitchWindow {
    pub hwnd: Hwnd,
    pub title: String,
}

impl AppSwitchWindow {
    pub fn new(hwnd: Hwnd, title: String) -> (r: Self)
        ensures
            r.hwnd == hwnd,
            r.title == title,
    {
        AppSwitchWindow { hwnd, title }
    }
}

/// One app in the app switcher: its windows, the window that stands for it and
/// what its card shows.
#[derive(Clone, Debug)]
pub struct AppSwitchEntry {
    pub exe_path: String,
    pub icon: Hicon,
    pub representative_hwnd: Hwnd,
    pub preview: AppPreview,
    pub windows: Vec<AppSwitchWindow>,
}

/// Whether `hwnd` is one of `windows`.
pub open spec fn has_window(windows: Seq<AppSwitchWindow>, hwnd: Hwnd) -> bool {
    exists|i: int| 0 <= i < windows.len() && #[trigger] windows[i].hwnd == hwnd
}

/// A preview belongs to an entry when it is unavailable or shows the entry's
/// representative window.
pub open spec fn preview_matches(preview: AppPreview, representative_hwnd: Hwnd) -> bool {
    match preview {
        AppPreview::DwmThumbnail(p) => p.source_hwnd == representative_hwnd,
        AppPreview::Unavailable(_) => true,
    }
}

/// The representative window is one of the entry's windows and the preview shows it.
pub open spec fn entry_wf(e: AppSwitchEntry) -> bool {
    &&& has_window(e.windows@, e.representative_hwnd)
    &&& preview_matches(e.preview, e.representative_hwnd)
}

/// The position of the first window at or after `i` whose handle is `hwnd`, or the
/// number of windows when there is none.
pub open spec fn spec_first_position_from(windows: Seq<AppSwitchWindow>, hwnd: Hwnd, i: int) -> int
    decreases windows.len() - i,
{
    if i >= windows.len() {
        windows.len() as int
    } else if windows[i].hwnd == hwnd {
        i
    } else {
        spec_first_position_from(windows, hwnd, i + 1)
    }
}

/// The position of the representative window among the entry's windows.
pub open spec fn spec_representative_position(e: AppSwitchEntry) -> int {
    spec_first_position_from(e.windows@, e.representative_hwnd, 0)
}

/// The window that `window_index` selects in an entry. The windows are enumerated
/// representative first, then the others in their order: index `0` and any index
/// out of range select the representative window, index `k` below the
/// representative's position `r` the window at `k - 1`, and an index above `r` the
/// window there.
pub open spec fn spec_hwnd_for_window_index(e: AppSwitchEntry, window_index: usize) -> Hwnd {
    if window_index == 0 || window_index >= e.windows@.len() {
        e.representative_hwnd
    } else if window_index <= spec_representative_position(e) {
        e.windows@[window_index - 1].hwnd
    } else {
        e.windows@[window_index as int].hwnd
    }
}

/// The window index under which the window at position `j` is enumerated.
pub open spec fn spec_window_slot(e: AppSwitchEntry, j: int) -> int {
    let r = spec_representative_position(e);
    if j == r {
        0
    } else if j < r {
        j + 1
    } else {
        j
    }
}

/// The representative index for a group of `len` windows, given whether the first
/// window is minimized.
pub open spec fn spec_representative_index(
    len: nat,
    policy: RepresentativeWindowPolicy,
    first_is_iconic: bool,
) -> Option<usize> {
    if len == 0 {
        None
    } else {
        match policy {
            RepresentativeWindowPolicy::LegacyMinimizedFallback => if len > 1 && first_is_iconic {
                Some((len - 1) as usize)
            } else {
                Some(0)
            },
            RepresentativeWindowPolicy::FirstWindow => Some(0),
        }
    }
}

/// Which window stands for an app group: none for an empty group; under the legacy
/// policy the last window of the group when there are several and the first one is
/// minimized; in every other case the first window. The choice is always one of the
/// group's windows (of which there are at most `usize::MAX`).
pub proof fn lemma_representative_choice(
    len: nat,
    policy: RepresentativeWindowPolicy,
    first_is_iconic: bool,
)
    requires
        len <= usize::MAX,
    ensures
        spec_representative_index(len, policy, first_is_iconic) is None <==> len == 0,
        spec_representative_index(len, policy, first_is_iconic) matches Some(k) ==> k < len,
        policy == RepresentativeWindowPolicy::LegacyMinimizedFallback && len > 1 && first_is_iconic
            ==> (spec_representative_index(len, policy, first_is_iconic) matches Some(k) && k + 1
            == len),
        len > 0 && !(policy == RepresentativeWindowPolicy::LegacyMinimizedFallback && len > 1
            && first_is_iconic) ==> spec_representative_index(len, policy, first_is_iconic)
            == Some(0usize),
{
}

/// Whether choosing the representative asks if the first window is minimized.
pub open spec fn asks_iconic(len: nat, policy: RepresentativeWindowPolicy) -> bool {
    len > 1 && policy == RepresentativeWindowPolicy::LegacyMinimizedFallback
}

/// Picks the window that stands for an app group. `is_iconic` is asked about the
/// first window only, and only under the legacy policy with more than one window.
pub fn representative_window_index<T, F: Fn(&T) -> bool>(
    windows: &[T],
    policy: RepresentativeWindowPolicy,
    is_iconic: F,
) -> (r: Option<usize>)
    requires
        asks_iconic(windows@.len(), policy) ==> is_iconic.requires((&windows@[0],)),
    ensures
        asks_iconic(windows@.len(), policy) ==> exists|b: bool|
            #[trigger] is_iconic.ensures((&windows@[0],), b) && r == spec_representative_index(
                windows@.len(),
                policy,
                b,
            ),
        !asks_iconic(windows@.len(), policy) ==> r == spec_representative_index(
            windows@.len(),
            policy,
            false,
        ),
{
    if windows.len() == 0 {
        return None;
    }
    match policy {
        RepresentativeWindowPolicy::LegacyMinimizedFallback => {
            if windows.len() > 1 && is_iconic(&windows[0]) {
                Some(windows.len() - 1)
            } else {
                Some(0)
            }
        },
        RepresentativeWindowPolicy::FirstWindow => {
            // Window groups keep the shell's order, so the first window of the group
            // stands for the app in both preview and activation.
            Some(0)
        },
    }
}

impl AppSwitchEntry {
    /// Builds an entry. The representative window must be one of `windows`, and a
    /// thumbnail preview must show the representative window.
    pub fn new(
        exe_path: String,
        icon: Hicon,
        representative_hwnd: Hwnd,
        preview: AppPreview,
        windows: Vec<AppSwitchWindow>,
    ) -> (r: Self)
        requires
            has_window(windows@, representative_hwnd),
            preview_matches(preview, representative_hwnd),
        ensures
            r.exe_path == exe_path,
            r.icon == icon,
            r.representative_hwnd == representative_hwnd,
            r.preview == preview,
            r.windows@ == windows@,
            entry_wf(r),
    {
        AppSwitchEntry { exe_path, icon, representative_hwnd, preview, windows }
    }

    /// Builds an entry whose representative window is chosen by `policy`; `None` for
    /// an empty group.
    pub fn from_windows<F: Fn(&AppSwitchWindow) -> bool>(
        exe_path: String,
        icon: Hicon,
        preview: AppPreview,
        windows: Vec<AppSwitchWindow>,
        policy: RepresentativeWindowPolicy,
        is_iconic: F,
    ) -> (r: Option<Self>)
        requires
            asks_iconic(windows@.len(), policy) ==> is_iconic.requires((&windows@[0],)),
            forall|b: bool|
                windows@.len() > 0 && (asks_iconic(windows@.len(), policy) ==> is_iconic.ensures(
                    (&windows@[0],),
                    b,
                )) ==> preview_matches(
                    preview,
                    windows@[#[trigger] spec_representative_index(windows@.len(), policy, b)->0 as int].hwnd,
                ),
        ensures
            r is None <==> windows@.len() == 0,
            r matches Some(e) ==> {
                &&& e.exe_path == exe_path
                &&& e.icon == icon
                &&& e.preview == preview
                &&& e.windows@ == windows@
                &&& entry_wf(e)
                &&& exists|b: bool|
                    (asks_iconic(windows@.len(), policy) ==> is_iconic.ensures(
                        (&windows@[0],),
                        b,
                    )) && e.representative_hwnd == windows@[#[trigger] spec_representative_index(
                        windows@.len(),
                        policy,
                        b,
                    )->0 as int].hwnd
            },
    {
        let index = representative_window_index(windows.as_slice(), policy, is_iconic);
        proof {
            if asks_iconic(windows@.len(), policy) {
                let b = choose|b: bool|
                    #[trigger] is_iconic.ensures((&windows@[0],), b) && index
                        == spec_representative_index(windows@.len(), policy, b);
                assert(spec_representative_index(windows@.len(), policy, b) == index);
            }
        }
        match index {
            None => None,
            Some(i) => {
                let representative_hwnd = windows[i].hwnd;
                let ghost b: bool = if asks_iconic(windows@.len(), policy) {
                    choose|b: bool|
                        #[trigger] is_iconic.ensures((&windows@[0],), b) && index
                            == spec_representative_index(windows@.len(), policy, b)
                } else {
                    false
                };
                assert((asks_iconic(windows@.len(), policy) ==> is_iconic.ensures(
                    (&windows@[0],),
                    b,
                )) && representative_hwnd == windows@[spec_representative_index(
                    windows@.len(),
                    policy,
                    b,
                )->0 as int].hwnd);
                Some(AppSwitchEntry::new(exe_path, icon, representative_hwnd, preview, windows))
            },
        }
    }

    /// The window whose thumbnail the entry shows.
    pub fn preview_hwnd(&self) -> (r: Hwnd)
        ensures
            r == self.representative_hwnd,
    {
        self.representative_hwnd
    }

    /// The window at `window_index` when the windows are enumerated representative
    /// first; index `0` and any index out of range give the representative window.
    pub fn hwnd_for_window_index(&self, window_index: usize) -> (r: Hwnd)
        ensures
            r == spec_hwnd_for_window_index(*self, window_index),
    {
        let len = self.windows.len();
        if window_index == 0 || window_index >= len {
            return self.representative_hwnd;
        }
        let mut position: usize = 0;
        while position < len && self.windows[position].hwnd.0 != self.representative_hwnd.0
            invariant
                len == self.windows@.len(),
                position <= len,
                spec_first_position_from(self.windows@, self.representative_hwnd, position as int)
                    == spec_representative_position(*self),
            decreases len - position,
        {
            position = position + 1;
        }
        if window_index <= position {
            self.windows[window_index - 1].hwnd
        } else {
            self.windows[window_index].hwnd
        }
    }
}

/// The app switcher while it is open: the entries, the selected app, the selected
/// window within it, and how the overlay is drawn.
#[derive(Clone, Debug)]
pub struct SwitchAppsState {
    pub apps: Vec<AppSwitchEntry>,
    pub index: usize,
    /// Index of the selected window within the currently selected app; `0` means the
    /// representative window. Inline window cycling moves it.
    pub window_index: usize,
    pub render_mode: SwitchAppsRenderMode,
    pub show_window_count: bool,
    pub overlay_scale: u32,
    pub backdrop_opacity: u32,
    pub backdrop_color: Option<u32>,
}

/// The next window index when cycling through `count` windows, wrapping at both ends.
pub open spec fn spec_cycle(window_index: usize, count: usize, reverse: bool) -> usize {
    if reverse {
        if window_index == 0 {
            (count - 1) as usize
        } else {
            (window_index - 1) as usize
        }
    } else {
        if window_index >= count - 1 {
            0
        } else {
            (window_index + 1) as usize
        }
    }
}

/// Cycling moves the window index of the selected app when it has more than one
/// window; otherwise nothing changes.
pub open spec fn spec_cycle_window(s: SwitchAppsState, reverse: bool) -> SwitchAppsState {
    if s.index < s.apps@.len() && s.apps@[s.index as int].windows.len() > 1 {
        SwitchAppsState {
            window_index: spec_cycle(s.window_index, s.apps@[s.index as int].windows.len(), reverse),
            ..s
        }
    } else {
        s
    }
}

/// The window the switcher would activate: the selected window of the selected app.
pub open spec fn spec_selected_hwnd(s: SwitchAppsState) -> Option<Hwnd> {
    if s.index < s.apps@.len() {
        Some(spec_hwnd_for_window_index(s.apps@[s.index as int], s.window_index))
    } else {
        None
    }
}

impl SwitchAppsState {
    pub fn selected_app(&self) -> (r: Option<&AppSwitchEntry>)
        ensures
            r == (if self.index < self.apps@.len() {
                Some(&self.apps@[self.index as int])
            } else {
                None
            }),
    {
        if self.index < self.apps.len() {
            Some(&self.apps[self.index])
        } else {
            None
        }
    }

    pub fn selected_hwnd(&self) -> (r: Option<Hwnd>)
        ensures
            r == spec_selected_hwnd(*self),
    {
        match self.selected_app() {
            Some(app) => Some(app.hwnd_for_window_index(self.window_index)),
            None => None,
        }
    }

    /// The window whose thumbnail app `app_index` shows: the selected window for the
    /// selected app, the representative window for the others.
    pub fn preview_hwnd_for_app(&self, app_index: usize) -> (r: Option<Hwnd>)
        ensures
            r == (if app_index < self.apps@.len() {
                Some(
                    if app_index == self.index {
                        spec_hwnd_for_window_index(self.apps@[app_index as int], self.window_index)
                    } else {
                        self.apps@[app_index as int].representative_hwnd
                    },
                )
            } else {
                None
            }),
    {
        if app_index >= self.apps.len() {
            return None;
        }
        let app = &self.apps[app_index];
        if app_index == self.index {
            Some(app.hwnd_for_window_index(self.window_index))
        } else {
            Some(app.representative_hwnd)
        }
    }

    pub fn cycle_window(&mut self, reverse: bool)
        ensures
            *final(self) == spec_cycle_window(*old(self), reverse),
    {
        if self.index >= self.apps.len() {
            return;
        }
        let count = self.apps[self.index].windows.len();
        if count <= 1 {
            return;
        }
        if reverse {
            self.window_index = if self.window_index == 0 {
                count - 1
            } else {
                self.window_index - 1
            };
        } else {
            self.window_index = if self.window_index >= count - 1 {
                0
            } else {
                self.window_index + 1
            };
        }
    }

    pub fn reset_window_index(&mut self)
        ensures
            *final(self) == (SwitchAppsState { window_index: 0, ..*old(self) }),
    {
        self.window_index = 0;
    }
}


/// Cycling through an app with more than one window lands on one of its windows:
/// forward from any index, backward from an index in range.
pub proof fn lemma_cycle_stays_in_range(window_index: usize, count: usize, reverse: bool)
    requires
        count > 1,
        reverse ==> window_index < count,
    ensures
        spec_cycle(window_index, count, reverse) < count,
{
}

/// Cycling forward and then back (or back and then forward) returns to the window
/// that was selected, when the selection was in range.
pub proof fn lemma_cycle_round_trip(s: SwitchAppsState, reverse: bool)
    requires
        s.index < s.apps@.len() ==> s.window_index < s.apps@[s.index as int].windows@.len()
            || s.apps@[s.index as int].windows@.len() <= 1,
    ensures
        spec_cycle_window(spec_cycle_window(s, reverse), !reverse) == s,
{
    let t = spec_cycle_window(s, reverse);
    if s.index < s.apps@.len() && s.apps@[s.index as int].windows@.len() > 1 {
        let count = s.apps@[s.index as int].windows.len();
        assert(t.apps == s.apps);
        assert(t.index == s.index);
        assert(spec_cycle(spec_cycle(s.window_index, count, reverse), count, !reverse)
            == s.window_index);
        assert(spec_cycle_window(t, !reverse) =~= s);
    }
}

/// Cycling forward `steps` times through `count` windows.
pub open spec fn spec_cycle_forward_times(window_index: usize, count: usize, steps: nat) -> usize
    decreases steps,
{
    if steps == 0 {
        window_index
    } else {
        spec_cycle(spec_cycle_forward_times(window_index, count, (steps - 1) as nat), count, false)
    }
}

/// Cycling forward wraps around: after `steps` steps from an in-range index the
/// selection is `(index + steps) mod count`; in particular `count` steps return to
/// the start.
pub proof fn lemma_cycle_forward_wraps(window_index: usize, count: usize, steps: nat)
    requires
        count > 1,
        window_index < count,
    ensures
        spec_cycle_forward_times(window_index, count, steps) == (window_index + steps) % (
        count as int),
    decreases steps,
{
    if steps == 0 {
        vstd::arithmetic::div_mod::lemma_small_mod(window_index as nat, count as nat);
    } else {
        lemma_cycle_forward_wraps(window_index, count, (steps - 1) as nat);
        let prev = spec_cycle_forward_times(window_index, count, (steps - 1) as nat);
        let c = count as int;
        let a = window_index + steps - 1;
        vstd::arithmetic::div_mod::lemma_mod_pos_bound(a, c);
        assert(prev == a % c);
        assert(window_index + steps == a + 1);
        let q = a / c;
        let r = a % c;
        vstd::arithmetic::div_mod::lemma_fundamental_div_mod(a, c);
        assert(c * q == q * c) by (nonlinear_arith);
        assert((q + 1) * c == q * c + c) by (nonlinear_arith);
        if r == c - 1 {
            vstd::arithmetic::div_mod::lemma_fundamental_div_mod_converse(a + 1, c, q + 1, 0);
        } else {
            vstd::arithmetic::div_mod::lemma_fundamental_div_mod_converse(a + 1, c, q, r + 1);
        }
    }
}

/// With the window index reset, the switcher activates the selected app's
/// representative window, the one its thumbnail shows.
pub proof fn lemma_reset_selects_representative(s: SwitchAppsState)
    requires
        s.index < s.apps@.len(),
    ensures
        spec_selected_hwnd(SwitchAppsState { window_index: 0, ..s }) == Some(
            s.apps@[s.index as int].representative_hwnd,
        ),
{
}

/// The first matching position is at or after the start and within the windows,
/// holds that handle when it is within them, and is the length when no window at or
/// after the start has that handle.
proof fn lemma_first_position_from(windows: Seq<AppSwitchWindow>, hwnd: Hwnd, i: int, j: int)
    requires
        0 <= i <= windows.len(),
    ensures
        i <= spec_first_position_from(windows, hwnd, i) <= windows.len(),
        spec_first_position_from(windows, hwnd, i) < windows.len() ==> windows[spec_first_position_from(
            windows,
            hwnd,
            i,
        )].hwnd == hwnd,
        i <= j < spec_first_position_from(windows, hwnd, i) ==> windows[j].hwnd != hwnd,
    decreases windows.len() - i,
{
    if i < windows.len() && windows[i].hwnd != hwnd {
        lemma_first_position_from(windows, hwnd, i + 1, j);
    }
}

/// When every entry is well formed, the window the switcher activates is always one
/// of the selected app's windows, even for a stale window index.
pub proof fn lemma_selected_hwnd_belongs_to_selected_app(s: SwitchAppsState)
    requires
        s.index < s.apps@.len(),
        entry_wf(s.apps@[s.index as int]),
    ensures
        spec_selected_hwnd(s) matches Some(h) && has_window(s.apps@[s.index as int].windows@, h),
{
    let e = s.apps@[s.index as int];
    let k = s.window_index;
    if 0 < k < e.windows@.len() {
        if k <= spec_representative_position(e) {
            assert(e.windows@[k - 1].hwnd == spec_hwnd_for_window_index(e, k));
        } else {
            assert(e.windows@[k as int].hwnd == spec_hwnd_for_window_index(e, k));
        }
    }
}

/// In a well-formed entry, enumerating the window indexes `0..len` visits every
/// window exactly once: the window at position `j` is selected by index
/// `spec_window_slot(e, j)`, and distinct positions get distinct indexes.
pub proof fn lemma_every_window_enumerated_once(e: AppSwitchEntry, j: int, k: int)
    requires
        entry_wf(e),
        0 <= j < e.windows@.len(),
        0 <= k < e.windows@.len(),
    ensures
        0 <= spec_window_slot(e, j) < e.windows@.len(),
        spec_hwnd_for_window_index(e, spec_window_slot(e, j) as usize) == e.windows@[j].hwnd,
        j != k ==> spec_window_slot(e, j) != spec_window_slot(e, k),
{
    let r = spec_representative_position(e);
    let w = choose|i: int| 0 <= i < e.windows@.len() && #[trigger] e.windows@[i].hwnd == e.representative_hwnd;
    lemma_first_position_from(e.windows@, e.representative_hwnd, 0, w);
    lemma_first_position_from(e.windows@, e.representative_hwnd, 0, j);
    assert(r < e.windows@.len());
    assert(e.windows@.len() == e.windows.len());
    let slot = spec_window_slot(e, j);
    assert(slot as usize as int == slot);
    if j == r {
    } else if j < r {
        assert(e.windows@[slot - 1].hwnd == e.windows@[j].hwnd);
    } else {
        assert(e.windows@[slot].hwnd == e.windows@[j].hwnd);
    }
}

/// When the representative window comes first among the entry's windows, every
/// window index selects the window at that position.
pub proof fn lemma_first_representative_keeps_order(e: AppSwitchEntry, k: usize)
    requires
        e.windows@.len() > 0,
        e.windows@[0].hwnd == e.representative_hwnd,
        k < e.windows@.len(),
    ensures
        spec_hwnd_for_window_index(e, k) == e.windows@[k as int].hwnd,
{
}

} // verus!
