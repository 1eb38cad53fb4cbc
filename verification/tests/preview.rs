use window_switcher::config::SwitchAppsRenderMode;
use window_switcher::handles::Hwnd;
use window_switcher::preview::{
    resolve_preview, AppPreview, DwmThumbnailPreview, PreviewUnavailableReason,
    PreviewWindowState, WindowPreviewSource,
};

fn fake_hwnd(value: usize) -> Hwnd {
    Hwnd(value as isize)
}

#[test]
fn resolve_preview_disables_preview_in_icon_only_mode() {
    let hwnd = fake_hwnd(1);
    let preview = resolve_preview(
        SwitchAppsRenderMode::IconOnly,
        hwnd,
        PreviewWindowState {
            is_iconic: false,
            cloak_type: 0,
        },
    );

    assert_eq!(
        preview,
        AppPreview::Unavailable(PreviewUnavailableReason::DisabledByConfig)
    );
}

#[test]
fn resolve_preview_marks_minimized_windows_unavailable() {
    let hwnd = fake_hwnd(1);
    let preview = resolve_preview(
        SwitchAppsRenderMode::Preview,
        hwnd,
        PreviewWindowState {
            is_iconic: true,
            cloak_type: 0,
        },
    );

    assert_eq!(
        preview,
        AppPreview::Unavailable(PreviewUnavailableReason::Minimized)
    );
}

#[test]
fn resolve_preview_marks_cloaked_windows_unavailable() {
    let hwnd = fake_hwnd(1);
    let preview = resolve_preview(
        SwitchAppsRenderMode::Preview,
        hwnd,
        PreviewWindowState {
            is_iconic: false,
            cloak_type: 1,
        },
    );

    assert_eq!(
        preview,
        AppPreview::Unavailable(PreviewUnavailableReason::Cloaked)
    );
}

#[test]
fn resolve_preview_uses_dwm_thumbnail_for_eligible_windows() {
    let hwnd = fake_hwnd(7);
    let preview = resolve_preview(
        SwitchAppsRenderMode::Preview,
        hwnd,
        PreviewWindowState {
            is_iconic: false,
            cloak_type: 0,
        },
    );

    assert_eq!(
        preview,
        AppPreview::DwmThumbnail(DwmThumbnailPreview::new(hwnd))
    );
}

#[test]
fn window_preview_source_short_circuits_when_preview_mode_is_disabled() {
    let source = WindowPreviewSource::new(SwitchAppsRenderMode::IconOnly);

    assert_eq!(
        source.preview_for_hwnd(fake_hwnd(9), |_| -> PreviewWindowState {
            unreachable!("the window is not probed outside preview mode")
        }),
        AppPreview::Unavailable(PreviewUnavailableReason::DisabledByConfig)
    );
}

#[test]
fn resolve_preview_minimized_wins_over_cloaked() {
    let preview = resolve_preview(
        SwitchAppsRenderMode::Preview,
        fake_hwnd(3),
        PreviewWindowState {
            is_iconic: true,
            cloak_type: 2,
        },
    );
    assert_eq!(
        preview,
        AppPreview::Unavailable(PreviewUnavailableReason::Minimized)
    );
}

#[test]
fn window_preview_source_probes_in_preview_mode() {
    let source = WindowPreviewSource::new(SwitchAppsRenderMode::Preview);
    assert_eq!(source.render_mode(), SwitchAppsRenderMode::Preview);
    assert_eq!(
        source.preview_for_hwnd(fake_hwnd(9), |hwnd| PreviewWindowState {
            is_iconic: false,
            cloak_type: if hwnd == fake_hwnd(9) { 4 } else { 0 },
        }),
        AppPreview::Unavailable(PreviewUnavailableReason::Cloaked)
    );
    assert_eq!(
        source.preview_for_hwnd(fake_hwnd(5), |_| PreviewWindowState {
            is_iconic: false,
            cloak_type: 0,
        }),
        AppPreview::DwmThumbnail(DwmThumbnailPreview::new(fake_hwnd(5)))
    );
}

#[test]
fn cloaked_means_any_flag_set() {
    assert!(!PreviewWindowState { is_iconic: false, cloak_type: 0 }.is_cloaked());
    assert!(PreviewWindowState { is_iconic: false, cloak_type: 1 }.is_cloaked());
    assert!(PreviewWindowState { is_iconic: true, cloak_type: 6 }.is_cloaked());
}
