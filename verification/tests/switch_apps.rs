use window_switcher::config::SwitchAppsRenderMode;
use window_switcher::handles::{Hicon, Hwnd};
use window_switcher::preview::{AppPreview, DwmThumbnailPreview, PreviewUnavailableReason};
use window_switcher::switch_apps::{
    representative_window_index, AppSwitchEntry, AppSwitchWindow, RepresentativeWindowPolicy,
    SwitchAppsState,
};

fn fake_hwnd(value: usize) -> Hwnd {
    Hwnd(value as isize)
}

fn fake_hicon(value: usize) -> Hicon {
    Hicon(value as isize)
}

#[test]
fn representative_window_index_legacy_policy_prefers_first_when_not_iconic() {
    let windows = [1, 2, 3];
    assert_eq!(
        representative_window_index(
            &windows,
            RepresentativeWindowPolicy::LegacyMinimizedFallback,
            |_| false
        ),
        Some(0)
    );
}

#[test]
fn representative_window_index_legacy_policy_falls_back_to_last_when_first_is_iconic() {
    let windows = [1, 2, 3];
    assert_eq!(
        representative_window_index(
            &windows,
            RepresentativeWindowPolicy::LegacyMinimizedFallback,
            |value| *value == 1
        ),
        Some(2)
    );
}

#[test]
fn representative_window_index_first_window_policy_always_uses_first_window() {
    let windows = [3, 2, 1];
    assert_eq!(
        representative_window_index(&windows, RepresentativeWindowPolicy::FirstWindow, |_| {
            true
        }),
        Some(0)
    );
}

#[test]
fn representative_window_index_handles_empty_groups() {
    let windows: [usize; 0] = [];
    assert_eq!(
        representative_window_index(
            &windows,
            RepresentativeWindowPolicy::LegacyMinimizedFallback,
            |_| false
        ),
        None
    );
    assert_eq!(
        representative_window_index(&windows, RepresentativeWindowPolicy::FirstWindow, |_| {
            false
        }),
        None
    );
}

#[test]
fn representative_window_index_single_minimized_window_stays_first() {
    let windows = [7];
    assert_eq!(
        representative_window_index(
            &windows,
            RepresentativeWindowPolicy::LegacyMinimizedFallback,
            |_| true
        ),
        Some(0)
    );
}

#[test]
fn app_switch_entry_from_windows_rejects_empty_groups() {
    let entry = AppSwitchEntry::from_windows(
        "C:\\Program Files\\App\\app.exe".into(),
        fake_hicon(7),
        AppPreview::Unavailable(PreviewUnavailableReason::DisabledByConfig),
        vec![],
        RepresentativeWindowPolicy::LegacyMinimizedFallback,
        |_| false,
    );

    assert!(entry.is_none());
}

#[test]
fn app_switch_entry_first_window_policy_uses_same_window_for_preview_and_activation() {
    let first_hwnd = fake_hwnd(42);
    let entry = AppSwitchEntry::from_windows(
        "C:\\Program Files\\App\\app.exe".into(),
        fake_hicon(7),
        AppPreview::DwmThumbnail(DwmThumbnailPreview::new(first_hwnd)),
        vec![
            AppSwitchWindow::new(first_hwnd, "Current".into()),
            AppSwitchWindow::new(fake_hwnd(41), "Older".into()),
        ],
        RepresentativeWindowPolicy::FirstWindow,
        |_| false,
    );
    let entry = entry.expect("entry should be created");

    assert_eq!(entry.preview_hwnd(), first_hwnd);
    assert_eq!(
        entry.preview,
        AppPreview::DwmThumbnail(DwmThumbnailPreview::new(first_hwnd))
    );
    assert_eq!(entry.windows.len(), 2);
    assert_eq!(entry.exe_path, "C:\\Program Files\\App\\app.exe");
    assert_eq!(
        entry
            .windows
            .iter()
            .find(|window| window.hwnd == first_hwnd)
            .map(|window| window.title.as_str()),
        Some("Current")
    );
}

#[test]
fn app_switch_entry_legacy_policy_preserves_minimized_fallback() {
    let fallback_hwnd = fake_hwnd(41);
    let entry = AppSwitchEntry::from_windows(
        "C:\\Program Files\\App\\app.exe".into(),
        fake_hicon(7),
        AppPreview::Unavailable(PreviewUnavailableReason::Minimized),
        vec![
            AppSwitchWindow::new(fake_hwnd(42), "Minimized".into()),
            AppSwitchWindow::new(fallback_hwnd, "Fallback".into()),
        ],
        RepresentativeWindowPolicy::LegacyMinimizedFallback,
        |window| window.title == "Minimized",
    )
    .expect("entry should be created");

    assert_eq!(entry.preview_hwnd(), fallback_hwnd);
    assert_eq!(
        entry.preview,
        AppPreview::Unavailable(PreviewUnavailableReason::Minimized)
    );
}

fn make_test_state(window_counts: &[usize]) -> SwitchAppsState {
    let apps = window_counts
        .iter()
        .enumerate()
        .map(|(app_idx, &count)| {
            let windows: Vec<AppSwitchWindow> = (0..count)
                .map(|win_idx| {
                    AppSwitchWindow::new(
                        fake_hwnd(app_idx * 100 + win_idx + 1),
                        format!("Window {win_idx}"),
                    )
                })
                .collect();
            let representative_hwnd = windows[0].hwnd;
            AppSwitchEntry::new(
                format!("app{app_idx}.exe"),
                fake_hicon(app_idx + 1),
                representative_hwnd,
                AppPreview::Unavailable(PreviewUnavailableReason::DisabledByConfig),
                windows,
            )
        })
        .collect();

    SwitchAppsState {
        apps,
        index: 0,
        window_index: 0,
        render_mode: SwitchAppsRenderMode::IconOnly,
        show_window_count: false,
        overlay_scale: 100,
        backdrop_opacity: 100,
        backdrop_color: None,
    }
}

#[test]
fn cycle_window_advances_within_selected_app() {
    let mut state = make_test_state(&[3, 1]);

    assert_eq!(state.window_index, 0);
    state.cycle_window(false);
    assert_eq!(state.window_index, 1);
    state.cycle_window(false);
    assert_eq!(state.window_index, 2);
    state.cycle_window(false);
    assert_eq!(state.window_index, 0);
}

#[test]
fn cycle_window_reverses_within_selected_app() {
    let mut state = make_test_state(&[3, 1]);

    assert_eq!(state.window_index, 0);
    state.cycle_window(true);
    assert_eq!(state.window_index, 2);
    state.cycle_window(true);
    assert_eq!(state.window_index, 1);
}

#[test]
fn cycle_window_is_noop_for_single_window_app() {
    let mut state = make_test_state(&[1, 3]);

    state.cycle_window(false);
    assert_eq!(state.window_index, 0);
    state.cycle_window(true);
    assert_eq!(state.window_index, 0);
}

#[test]
fn selected_hwnd_follows_window_index() {
    let mut state = make_test_state(&[3, 1]);
    let expected_first = state.apps[0].windows[0].hwnd;
    let expected_second = state.apps[0].windows[1].hwnd;

    assert_eq!(state.selected_hwnd(), Some(expected_first));
    state.cycle_window(false);
    assert_eq!(state.selected_hwnd(), Some(expected_second));
}

#[test]
fn reset_window_index_returns_to_representative() {
    let mut state = make_test_state(&[3, 1]);

    state.cycle_window(false);
    state.cycle_window(false);
    assert_eq!(state.window_index, 2);

    state.reset_window_index();
    assert_eq!(state.window_index, 0);
    assert_eq!(state.selected_hwnd(), Some(state.apps[0].windows[0].hwnd));
}

#[test]
fn switching_apps_resets_window_index_conceptually() {
    let mut state = make_test_state(&[3, 2]);

    state.cycle_window(false);
    assert_eq!(state.window_index, 1);

    // Simulate switching to next app.
    state.index = 1;
    state.reset_window_index();
    assert_eq!(state.window_index, 0);
    assert_eq!(state.selected_hwnd(), Some(state.apps[1].windows[0].hwnd));
}

#[test]
fn selected_hwnd_falls_back_to_representative_for_out_of_range_window_index() {
    let mut state = make_test_state(&[2, 1]);
    // Manually set window_index out of range to simulate a stale index.
    state.window_index = 99;
    assert_eq!(
        state.selected_hwnd(),
        Some(state.apps[0].representative_hwnd)
    );
}

#[test]
fn preview_hwnd_for_selected_app_follows_window_index() {
    let mut state = make_test_state(&[3, 2]);
    let selected_preview = state.apps[0].windows[0].hwnd;
    let cycled_preview = state.apps[0].windows[2].hwnd;

    assert_eq!(state.preview_hwnd_for_app(0), Some(selected_preview));

    state.cycle_window(false);
    state.cycle_window(false);

    assert_eq!(state.preview_hwnd_for_app(0), Some(cycled_preview));
}

#[test]
fn preview_hwnd_for_other_apps_stays_on_representative_window() {
    let mut state = make_test_state(&[2, 3]);
    let other_representative = state.apps[1].representative_hwnd;

    state.cycle_window(false);

    assert_eq!(state.preview_hwnd_for_app(1), Some(other_representative));
}

#[test]
fn preview_hwnd_for_selected_app_falls_back_to_representative_when_stale() {
    let mut state = make_test_state(&[2, 1]);
    state.window_index = 99;

    assert_eq!(
        state.preview_hwnd_for_app(0),
        Some(state.apps[0].representative_hwnd)
    );
}

#[test]
fn cycle_window_wraps_forward_and_backward_with_two_windows() {
    let mut state = make_test_state(&[2]);
    let w0 = state.apps[0].windows[0].hwnd;
    let w1 = state.apps[0].windows[1].hwnd;

    assert_eq!(state.selected_hwnd(), Some(w0));
    state.cycle_window(false);
    assert_eq!(state.selected_hwnd(), Some(w1));
    state.cycle_window(false);
    assert_eq!(state.selected_hwnd(), Some(w0));

    state.cycle_window(true);
    assert_eq!(state.selected_hwnd(), Some(w1));
    state.cycle_window(true);
    assert_eq!(state.selected_hwnd(), Some(w0));
}

#[test]
fn selected_app_returns_none_for_empty_state() {
    let state = make_test_state(&[]);
    assert!(state.selected_app().is_none());
    assert!(state.selected_hwnd().is_none());
}

#[test]
fn preview_hwnd_for_missing_app_is_none() {
    let state = make_test_state(&[2]);
    assert_eq!(state.preview_hwnd_for_app(1), None);
}

#[test]
fn cycle_window_round_trip_restores_selection() {
    let mut state = make_test_state(&[4]);
    for start in 0..4 {
        state.window_index = start;
        state.cycle_window(false);
        state.cycle_window(true);
        assert_eq!(state.window_index, start);
        state.cycle_window(true);
        state.cycle_window(false);
        assert_eq!(state.window_index, start);
    }
}

#[test]
fn cycle_window_forward_count_times_returns_to_start() {
    let mut state = make_test_state(&[5]);
    state.window_index = 3;
    for step in 1..=5usize {
        state.cycle_window(false);
        assert_eq!(state.window_index, (3 + step) % 5);
    }
    assert_eq!(state.window_index, 3);
}

#[test]
fn cycle_window_from_stale_index_wraps_to_first() {
    let mut state = make_test_state(&[3]);
    state.window_index = 99;
    state.cycle_window(false);
    assert_eq!(state.window_index, 0);
}

#[test]
fn cycle_window_is_noop_without_selected_app() {
    let mut state = make_test_state(&[3]);
    state.index = 5;
    state.window_index = 1;
    state.cycle_window(false);
    assert_eq!(state.window_index, 1);
}

#[test]
fn hwnd_for_window_index_falls_back_to_representative() {
    let entry = AppSwitchEntry::new(
        "a.exe".into(),
        fake_hicon(1),
        fake_hwnd(12),
        AppPreview::Unavailable(PreviewUnavailableReason::Cloaked),
        vec![
            AppSwitchWindow::new(fake_hwnd(11), "one".into()),
            AppSwitchWindow::new(fake_hwnd(12), "two".into()),
        ],
    );
    assert_eq!(entry.hwnd_for_window_index(0), fake_hwnd(12));
    assert_eq!(entry.hwnd_for_window_index(1), fake_hwnd(11));
    assert_eq!(entry.hwnd_for_window_index(2), fake_hwnd(12));
    assert_eq!(entry.preview_hwnd(), fake_hwnd(12));
}

#[test]
fn window_index_zero_selects_representative_of_minimized_legacy_group() {
    let minimized = fake_hwnd(51);
    let middle = fake_hwnd(52);
    let last = fake_hwnd(53);
    let entry = AppSwitchEntry::from_windows(
        "C:\\Apps\\editor.exe".into(),
        fake_hicon(5),
        AppPreview::DwmThumbnail(DwmThumbnailPreview::new(last)),
        vec![
            AppSwitchWindow::new(minimized, "Minimized".into()),
            AppSwitchWindow::new(middle, "Middle".into()),
            AppSwitchWindow::new(last, "Last".into()),
        ],
        RepresentativeWindowPolicy::LegacyMinimizedFallback,
        |window| window.hwnd == minimized,
    )
    .expect("entry should be created");
    assert_eq!(entry.representative_hwnd, last);

    let mut state = SwitchAppsState {
        apps: vec![entry],
        index: 0,
        window_index: 0,
        render_mode: SwitchAppsRenderMode::Preview,
        show_window_count: true,
        overlay_scale: 100,
        backdrop_opacity: 100,
        backdrop_color: None,
    };
    assert_eq!(state.selected_hwnd(), Some(last));
    assert_eq!(state.preview_hwnd_for_app(0), Some(last));

    // Representative first, then the other windows in their order.
    state.cycle_window(false);
    assert_eq!(state.window_index, 1);
    assert_eq!(state.selected_hwnd(), Some(minimized));
    assert_eq!(state.preview_hwnd_for_app(0), Some(minimized));

    state.cycle_window(false);
    assert_eq!(state.selected_hwnd(), Some(middle));

    state.cycle_window(false);
    assert_eq!(state.window_index, 0);
    assert_eq!(state.selected_hwnd(), Some(last));

    state.cycle_window(true);
    assert_eq!(state.selected_hwnd(), Some(middle));

    state.reset_window_index();
    assert_eq!(state.selected_hwnd(), Some(last));
}

#[test]
fn policy_parse_accepts_names_and_aliases() {
    assert_eq!(
        RepresentativeWindowPolicy::parse("legacy"),
        Some(RepresentativeWindowPolicy::LegacyMinimizedFallback)
    );
    assert_eq!(
        RepresentativeWindowPolicy::parse("legacy_minimized_fallback"),
        Some(RepresentativeWindowPolicy::LegacyMinimizedFallback)
    );
    assert_eq!(
        RepresentativeWindowPolicy::parse("  Legacy-Minimized-Fallback \t"),
        Some(RepresentativeWindowPolicy::LegacyMinimizedFallback)
    );
    assert_eq!(
        RepresentativeWindowPolicy::parse("first"),
        Some(RepresentativeWindowPolicy::FirstWindow)
    );
    assert_eq!(
        RepresentativeWindowPolicy::parse("FIRST-WINDOW"),
        Some(RepresentativeWindowPolicy::FirstWindow)
    );
    assert_eq!(
        RepresentativeWindowPolicy::parse("\u{3000}first_window\u{a0}"),
        Some(RepresentativeWindowPolicy::FirstWindow)
    );
}

#[test]
fn policy_parse_rejects_other_values() {
    assert_eq!(RepresentativeWindowPolicy::parse(""), None);
    assert_eq!(RepresentativeWindowPolicy::parse("last"), None);
    assert_eq!(RepresentativeWindowPolicy::parse("first window"), None);
    assert_eq!(RepresentativeWindowPolicy::parse("firstwindow"), None);
    assert_eq!(RepresentativeWindowPolicy::parse("\u{130}first"), None);
}

#[test]
fn policy_defaults_to_legacy() {
    assert_eq!(
        RepresentativeWindowPolicy::default(),
        RepresentativeWindowPolicy::LegacyMinimizedFallback
    );
}
