use window_switcher::config::SwitchAppsRenderMode;
use window_switcher::geometry::{
    centered_rect, inset_rect, offset_rect, point_in_rect, scale_rect, Point, Rect, Size,
};
use window_switcher::handles::{Hicon, Hwnd};
use window_switcher::layout::{
    dot_indicator_layout, find_clicked_app_index, hit_test_app_index, layout_in_range,
    window_counts, OverlayLayout,
};
use window_switcher::painter::{
    cursor_in_range, dots_plan_in_range, entries_plan_in_range, fit_preview_destination,
    keeps_thumbnail, overlay_step, plan_dot_indicators, plan_entries, plan_live_previews, plan_paint,
    selected_card_inner, thumbnail_next, CardFill, DotDraw, PreviewTarget, ThumbnailAction,
    ThumbnailEvent, OverlayCommand, OverlayEvent,
};
use window_switcher::palette::{
    blend_color, overlay_palette, theme_color, BG_DARK_COLOR, BG_LIGHT_COLOR, FG_DARK_COLOR,
    FG_LIGHT_COLOR, SELECTION_OUTLINE_COLOR,
};
use window_switcher::preview::{AppPreview, DwmThumbnailPreview, PreviewUnavailableReason};
use window_switcher::switch_apps::{AppSwitchEntry, AppSwitchWindow, SwitchAppsState};

fn monitor(width: i32, height: i32) -> Rect {
    Rect { left: 0, top: 0, right: width, bottom: height }
}

fn rect(left: i32, top: i32, right: i32, bottom: i32) -> Rect {
    Rect { left, top, right, bottom }
}

fn state_with(
    window_counts: &[usize],
    render_mode: SwitchAppsRenderMode,
    show_window_count: bool,
) -> SwitchAppsState {
    let apps = window_counts
        .iter()
        .enumerate()
        .map(|(app_idx, &count)| {
            let windows: Vec<AppSwitchWindow> = (0..count)
                .map(|win_idx| {
                    AppSwitchWindow::new(
                        Hwnd((app_idx * 100 + win_idx + 1) as isize),
                        format!("Window {win_idx}"),
                    )
                })
                .collect();
            let representative_hwnd = windows[0].hwnd;
            let preview = if app_idx % 2 == 0 {
                AppPreview::DwmThumbnail(DwmThumbnailPreview::new(representative_hwnd))
            } else {
                AppPreview::Unavailable(PreviewUnavailableReason::Minimized)
            };
            AppSwitchEntry::new(
                format!("app{app_idx}.exe"),
                Hicon((app_idx + 1) as isize),
                representative_hwnd,
                preview,
                windows,
            )
        })
        .collect();
    SwitchAppsState {
        apps,
        index: 0,
        window_index: 0,
        render_mode,
        show_window_count,
        overlay_scale: 100,
        backdrop_opacity: 100,
        backdrop_color: None,
    }
}

#[test]
fn icon_layout_exact_geometry() {
    let layout = OverlayLayout::new(
        SwitchAppsRenderMode::IconOnly,
        false,
        100,
        &[1, 1, 1],
        monitor(1920, 1080),
    );
    assert_eq!(layout.width, 236);
    assert_eq!(layout.height, 92);
    assert_eq!(layout.x, 842);
    assert_eq!(layout.y, 494);
    assert_eq!(layout.content_rect, rect(10, 10, 226, 82));
    assert_eq!(layout.entries[1].card_rect, rect(82, 10, 154, 82));
    assert_eq!(layout.entries[1].preview_rect, rect(86, 14, 150, 78));
    assert_eq!(layout.entries[1].icon_rect, rect(86, 14, 150, 78));
    assert_eq!(layout.overlay_corner_radius, 18);
    assert_eq!(layout.card_corner_radius, 18);
    assert_eq!(layout.selected_outline_width, 2);
}

#[test]
fn preview_layout_exact_grid_for_ten_apps() {
    let layout = OverlayLayout::new(
        SwitchAppsRenderMode::Preview,
        false,
        100,
        &[1; 10],
        monitor(1920, 1080),
    );
    // 7 cards fit a row; 10 cards take 2 rows of 5.
    assert_eq!(layout.width, 1168);
    assert_eq!(layout.height, 306);
    assert_eq!(layout.entries[4].card_rect, rect(938, 10, 1158, 147));
    assert_eq!(layout.entries[5].card_rect, rect(10, 159, 230, 296));
    assert_eq!(layout.entries[5].preview_rect, rect(20, 169, 220, 286));
    assert_eq!(layout.entries[5].icon_rect, rect(88, 195, 152, 259));
    assert_eq!(layout.overlay_corner_radius, 22);
    assert_eq!(layout.card_corner_radius, 17);
}

#[test]
fn layout_on_secondary_monitor_is_centered_on_it() {
    let layout = OverlayLayout::new(
        SwitchAppsRenderMode::IconOnly,
        false,
        100,
        &[1, 1, 1],
        Rect { left: -1920, top: -200, right: 0, bottom: 880 },
    );
    assert_eq!(layout.x, -1920 + 842);
    assert_eq!(layout.y, -200 + 494);
}

#[test]
fn layout_on_inverted_monitor_rounds_toward_zero() {
    let layout = OverlayLayout::new(
        SwitchAppsRenderMode::IconOnly,
        false,
        100,
        &[1, 1, 1],
        Rect { left: 0, top: 0, right: -101, bottom: -1 },
    );
    // No room: one card per row.
    assert_eq!(layout.width, 92);
    assert_eq!(layout.height, 236);
    assert_eq!(layout.x, -96);
    assert_eq!(layout.y, -118);
}

#[test]
fn overlay_scale_is_clamped() {
    let small = OverlayLayout::new(SwitchAppsRenderMode::IconOnly, false, 1, &[1], monitor(1920, 1080));
    let min = OverlayLayout::new(SwitchAppsRenderMode::IconOnly, false, 50, &[1], monitor(1920, 1080));
    let big = OverlayLayout::new(SwitchAppsRenderMode::IconOnly, false, 1000, &[1], monitor(1920, 1080));
    let max = OverlayLayout::new(SwitchAppsRenderMode::IconOnly, false, 200, &[1], monitor(1920, 1080));
    assert_eq!(small.entries[0].card_rect, min.entries[0].card_rect);
    assert_eq!(big.entries[0].card_rect, max.entries[0].card_rect);
    assert_eq!(max.entries[0].card_rect, rect(10, 10, 154, 154));
}

#[test]
fn every_card_point_hits_its_own_entry() {
    let layout = OverlayLayout::new(
        SwitchAppsRenderMode::Preview,
        true,
        120,
        &[1, 2, 3, 1, 1, 4, 1, 2, 1, 1, 1, 1],
        monitor(1280, 720),
    );
    for (i, entry) in layout.entries.iter().enumerate() {
        let c = entry.card_rect;
        for (x, y) in [(c.left, c.top), (c.right - 1, c.bottom - 1), (c.left, c.bottom - 1)] {
            assert_eq!(hit_test_app_index(&layout, x, y), Some(i));
        }
        // Just outside the right edge is the gap (or the next card), never this one.
        assert_ne!(hit_test_app_index(&layout, c.right, c.top), Some(i));
        assert!(c.left >= layout.content_rect.left && c.right <= layout.content_rect.right);
        assert!(c.top >= layout.content_rect.top && c.bottom <= layout.content_rect.bottom);
    }
    assert!(layout.width <= 1280 * 85 / 100);
}

#[test]
fn find_clicked_app_index_uses_screen_coordinates() {
    let state = state_with(&[1, 1, 1], SwitchAppsRenderMode::IconOnly, false);
    let m = monitor(1920, 1080);
    assert_eq!(find_clicked_app_index(&state, m, Point { x: 842 + 10 + 72 + 5, y: 494 + 15 }), Some(1));
    assert_eq!(find_clicked_app_index(&state, m, Point { x: 842 + 5, y: 494 + 15 }), None);
    assert_eq!(find_clicked_app_index(&state, m, Point { x: 0, y: 0 }), None);
}

#[test]
fn dot_centers_are_symmetric_about_card_center() {
    let card = rect(7, 0, 120, 50);
    for count in 2..9usize {
        let dots = dot_indicator_layout(true, card, count).unwrap();
        let center = (card.left + card.right) / 2;
        for k in 0..count {
            assert_eq!(dots.centers[k].0 + dots.centers[count - 1 - k].0, 2 * center);
            assert_eq!(dots.centers[k].1, 50 - 6 - 3);
        }
        assert_eq!(dots.radius, 3);
    }
}

#[test]
fn dot_layout_exact_positions() {
    let dots = dot_indicator_layout(true, rect(0, 0, 200, 140), 2).unwrap();
    assert_eq!(dots.centers, vec![(93, 131), (107, 131)]);
}

#[test]
fn fit_preview_destination_exact_square_source() {
    let d = fit_preview_destination(rect(0, 0, 200, 100), Size { cx: 50, cy: 50 }).unwrap();
    assert_eq!(d, rect(50, 0, 150, 100));
    // Extreme aspect: at least one pixel tall.
    let d = fit_preview_destination(rect(0, 0, 100, 100), Size { cx: 100000, cy: 1 }).unwrap();
    assert_eq!(d, rect(0, 49, 100, 50));
    assert_eq!(fit_preview_destination(rect(0, 0, 100, 100), Size { cx: 10, cy: -1 }), None);
    assert_eq!(fit_preview_destination(rect(0, 10, 100, 5), Size { cx: 10, cy: 10 }), None);
}

#[test]
fn rect_helpers() {
    let r = rect(10, 20, 110, 70);
    assert_eq!(inset_rect(r, 5), rect(15, 25, 105, 65));
    assert_eq!(offset_rect(r, -10, -20), rect(0, 0, 100, 50));
    assert_eq!(scale_rect(r, 6), rect(60, 120, 660, 420));
    assert_eq!(centered_rect(r, 20, 10), rect(50, 40, 70, 50));
    assert_eq!(centered_rect(r, 21, 11), rect(49, 39, 70, 50));
    assert!(point_in_rect(&r, 10, 20));
    assert!(!point_in_rect(&r, 110, 20));
    assert!(!point_in_rect(&r, 10, 70));
}

#[test]
fn theme_colors() {
    assert_eq!(theme_color(true), (FG_LIGHT_COLOR, BG_LIGHT_COLOR));
    assert_eq!(theme_color(false), (FG_DARK_COLOR, BG_DARK_COLOR));
}

#[test]
fn blend_color_exact_values() {
    assert_eq!(blend_color(0x4c4c4c, 0x3b3b3b, 1, 2), 0x434343);
    assert_eq!(blend_color(0x4c4c4c, SELECTION_OUTLINE_COLOR, 1, 5), 0x67543c);
    assert_eq!(blend_color(0x123456, 0xabcdef, 0, 7), 0x123456);
    assert_eq!(blend_color(0x123456, 0xabcdef, 7, 7), 0xabcdef);
    // Alpha bits of the inputs are dropped.
    assert_eq!(blend_color(0xff000000, 0xff000000, 1, 2), 0);
}

#[test]
fn overlay_palette_exact_dark_theme() {
    let p = overlay_palette(false, None);
    assert_eq!(p.overlay_background, BG_DARK_COLOR);
    assert_eq!(p.card_background, 0x434343);
    assert_eq!(p.selected_card_background, 0x67543c);
    assert_eq!(p.unselected_badge_fill, FG_DARK_COLOR);
    assert_eq!(p.unselected_badge_text, BG_DARK_COLOR);
}

#[test]
fn plan_paint_combines_layout_palette_and_opacity() {
    let mut state = state_with(&[1, 1, 1], SwitchAppsRenderMode::IconOnly, false);
    state.backdrop_opacity = 50;
    let plan = plan_paint(&state, monitor(1920, 1080), false, true);
    assert_eq!(plan.backdrop_alpha, 127);
    assert_eq!(plan.corner_radius, 18);
    assert_eq!(plan.layout.x, 842);
    assert_eq!(plan.palette, overlay_palette(false, None));
    state.backdrop_opacity = 250;
    state.backdrop_color = Some(0x102030);
    let plan = plan_paint(&state, monitor(1920, 1080), true, false);
    assert_eq!(plan.backdrop_alpha, 255);
    assert_eq!(plan.corner_radius, 0);
    assert_eq!(plan.palette.overlay_background, 0x102030);
}

#[test]
fn plan_entries_in_preview_mode_fills_every_card() {
    let mut state = state_with(&[1, 2, 1], SwitchAppsRenderMode::Preview, false);
    state.index = 1;
    let layout = OverlayLayout::new(SwitchAppsRenderMode::Preview, false, 100, &[1, 2, 1], monitor(1920, 1080));
    let plan = plan_entries(&state, &layout, &[true, false]);
    assert_eq!(plan.width, 684);
    assert_eq!(plan.height, 137);
    assert_eq!(plan.scaled_width, 684 * 6);
    assert_eq!(plan.scaled_height, 137 * 6);
    assert_eq!(plan.scaled_card_corner_radius, 17 * 6);
    assert_eq!(plan.scaled_selected_outline_width, 12);
    assert_eq!(plan.cards.len(), 3);
    assert_eq!(plan.cards[0], CardFill { rect: rect(0, 0, 1320, 822), selected: false });
    assert_eq!(plan.cards[1], CardFill { rect: rect(1392, 0, 2712, 822), selected: true });
    assert!(!plan.cards[2].selected);
    assert_eq!(plan.icons.len(), 3);
    assert_eq!(plan.icons[0], None);
    assert!(plan.icons[1].is_some());
    assert!(plan.icons[2].is_some());
}

#[test]
fn plan_entries_in_icon_mode_fills_only_the_selected_card() {
    let mut state = state_with(&[1, 1, 1], SwitchAppsRenderMode::IconOnly, false);
    state.index = 2;
    let layout = OverlayLayout::new(SwitchAppsRenderMode::IconOnly, false, 100, &[1, 1, 1], monitor(1920, 1080));
    let plan = plan_entries(&state, &layout, &[]);
    assert_eq!(plan.cards, vec![CardFill { rect: rect(864, 0, 1296, 432), selected: true }]);
    assert_eq!(plan.icons[0], Some(rect(24, 24, 408, 408)));
    state.index = 7;
    let plan = plan_entries(&state, &layout, &[]);
    assert!(plan.cards.is_empty());
}

#[test]
fn selected_card_inner_fill() {
    assert_eq!(
        selected_card_inner(rect(0, 0, 12, 12), 6, 2),
        Some((rect(2, 2, 10, 10), 4))
    );
    assert_eq!(selected_card_inner(rect(0, 0, 12, 12), 1, 2), Some((rect(2, 2, 10, 10), 0)));
    assert_eq!(selected_card_inner(rect(0, 0, 12, 12), 6, 6), None);
}

#[test]
fn plan_dot_indicators_marks_selected_window() {
    let mut state = state_with(&[3, 1, 2], SwitchAppsRenderMode::Preview, true);
    state.index = 2;
    state.window_index = 1;
    let layout = OverlayLayout::new(SwitchAppsRenderMode::Preview, true, 100, &[3, 1, 2], monitor(1920, 1080));
    let plan = plan_dot_indicators(&state, &layout);
    assert_eq!(plan.len(), 3);
    assert_eq!(plan[0].len(), 3);
    assert!(plan[0].iter().all(|d| !d.active));
    assert!(plan[1].is_empty());
    assert_eq!(plan[2].len(), 2);
    assert!(!plan[2][0].active);
    assert!(plan[2][1].active);
    let c = layout.entries[2].dots.as_ref().unwrap().centers[1];
    assert_eq!(
        plan[2][1],
        DotDraw {
            rect: rect(c.0 - 3 - 10, c.1 - 3 - 10, c.0 + 3 - 10, c.1 + 3 - 10),
            corner_radius: 6,
            active: true,
        }
    );
    state.show_window_count = false;
    assert!(plan_dot_indicators(&state, &layout).is_empty());
}

#[test]
fn plan_live_previews_only_in_preview_mode() {
    let state = state_with(&[1, 1, 1], SwitchAppsRenderMode::Preview, false);
    let layout = OverlayLayout::new(SwitchAppsRenderMode::Preview, false, 100, &[1, 1, 1], monitor(1920, 1080));
    let targets = plan_live_previews(&state, &layout).expect("preview mode plans thumbnails");
    assert_eq!(targets.len(), 3);
    assert_eq!(
        targets[0],
        Some(PreviewTarget { source_hwnd: Hwnd(1), preview_rect: layout.entries[0].preview_rect })
    );
    assert_eq!(targets[1], None);
    assert_eq!(
        targets[2],
        Some(PreviewTarget { source_hwnd: Hwnd(201), preview_rect: layout.entries[2].preview_rect })
    );
    let icon_state = state_with(&[1, 1, 1], SwitchAppsRenderMode::IconOnly, false);
    assert!(plan_live_previews(&icon_state, &layout).is_none());
}

#[test]
fn layout_range_checks() {
    let state = state_with(&[1, 3, 1], SwitchAppsRenderMode::Preview, true);
    let m = monitor(1920, 1080);
    let counts = window_counts(&state);
    assert_eq!(counts, vec![1, 3, 1]);
    assert!(layout_in_range(SwitchAppsRenderMode::Preview, true, 100, &counts, m));
    let layout = OverlayLayout::for_state(&state, m);
    assert!(entries_plan_in_range(&state, &layout));
    assert!(dots_plan_in_range(&state, &layout));
    assert!(cursor_in_range(&state, m, Point { x: 5, y: 5 }));
    assert!(!cursor_in_range(&state, m, Point { x: i32::MIN, y: 5 }));
    // A monitor wider than the coordinate range.
    let huge = Rect { left: i32::MIN, top: 0, right: i32::MAX, bottom: 1080 };
    assert!(!layout_in_range(SwitchAppsRenderMode::Preview, true, 100, &counts, huge));
    // 85% of this width overflows.
    let wide = Rect { left: 0, top: 0, right: 30_000_000, bottom: 1080 };
    assert!(!layout_in_range(SwitchAppsRenderMode::IconOnly, false, 100, &counts, wide));
    // Too many dots for one row.
    assert!(!layout_in_range(SwitchAppsRenderMode::Preview, true, 100, &[usize::MAX], m));
    assert!(layout_in_range(SwitchAppsRenderMode::Preview, false, 100, &[usize::MAX], m));
    assert!(layout_in_range(SwitchAppsRenderMode::IconOnly, true, 100, &[], m));
}

#[test]
fn cards_share_one_size_in_row_major_order() {
    let counts = [1usize; 10];
    let layout = OverlayLayout::new(SwitchAppsRenderMode::Preview, true, 100, &counts, monitor(1280, 800));
    let first = layout.entries[0].card_rect;
    for pair in layout.entries.windows(2) {
        let (a, b) = (pair[0].card_rect, pair[1].card_rect);
        assert_eq!(b.right - b.left, first.right - first.left);
        assert_eq!(b.bottom - b.top, first.bottom - first.top);
        assert!(a.top < b.top || (a.top == b.top && a.left < b.left));
    }
    assert_eq!(
        layout.content_rect,
        rect(10, 10, layout.width - 10, layout.height - 10)
    );
}

#[test]
fn larger_scale_never_shrinks_cards_or_outline() {
    let counts = [2usize, 1, 3];
    let mut previous_width = 0;
    let mut previous_outline = 0;
    for scale in [0u32, 50, 75, 99, 100, 101, 150, 199, 200, 500] {
        for mode in [SwitchAppsRenderMode::IconOnly, SwitchAppsRenderMode::Preview] {
            let layout = OverlayLayout::new(mode, false, scale, &counts, monitor(3840, 2160));
            assert!(layout.selected_outline_width >= 1);
            if mode == SwitchAppsRenderMode::Preview {
                let card = layout.entries[0].card_rect;
                assert!(card.right - card.left >= previous_width);
                assert!(layout.selected_outline_width >= previous_outline);
                previous_width = card.right - card.left;
                previous_outline = layout.selected_outline_width;
            }
        }
    }
    assert_eq!(previous_width, 440);
    assert_eq!(previous_outline, 4);
}

#[test]
fn dots_never_move_cards() {
    let counts = [3usize, 1, 2, 5];
    let with_dots = OverlayLayout::new(SwitchAppsRenderMode::Preview, true, 120, &counts, monitor(1920, 1080));
    let plain = OverlayLayout::new(SwitchAppsRenderMode::Preview, false, 120, &counts, monitor(1920, 1080));
    assert_eq!((with_dots.x, with_dots.y), (plain.x, plain.y));
    assert_eq!((with_dots.width, with_dots.height), (plain.width, plain.height));
    assert_eq!(with_dots.content_rect, plain.content_rect);
    for (i, (a, b)) in with_dots.entries.iter().zip(plain.entries.iter()).enumerate() {
        assert_eq!(a.card_rect, b.card_rect);
        assert_eq!(a.preview_rect, b.preview_rect);
        assert_eq!(a.icon_rect, b.icon_rect);
        assert!(b.dots.is_none());
        match &a.dots {
            Some(d) => assert_eq!(d.centers.len(), counts[i]),
            None => assert_eq!(counts[i], 1),
        }
    }
}

#[test]
fn preview_cards_are_wider_than_tall_and_than_icon_cards() {
    for scale in [50u32, 100, 200] {
        let previews = OverlayLayout::new(SwitchAppsRenderMode::Preview, false, scale, &[1, 1], monitor(1920, 1080));
        let icons = OverlayLayout::new(SwitchAppsRenderMode::IconOnly, false, scale, &[1, 1], monitor(1920, 1080));
        let p = previews.entries[0].card_rect;
        let i = icons.entries[0].card_rect;
        assert!(p.right - p.left > p.bottom - p.top);
        assert!(p.right - p.left > i.right - i.left);
        let inner = previews.entries[0].preview_rect;
        assert!(p.left < inner.left && inner.right < p.right);
        assert!(p.top < inner.top && inner.bottom < p.bottom);
    }
}

#[test]
fn thumbnail_steps_register_query_show_and_go_live() {
    let area = rect(0, 0, 200, 100);
    assert_eq!(
        thumbnail_next(area, ThumbnailEvent::Start { registered: false }),
        ThumbnailAction::Register
    );
    assert_eq!(
        thumbnail_next(area, ThumbnailEvent::Start { registered: true }),
        ThumbnailAction::QuerySourceSize
    );
    assert_eq!(
        thumbnail_next(area, ThumbnailEvent::Registered { ok: true }),
        ThumbnailAction::QuerySourceSize
    );
    assert_eq!(
        thumbnail_next(area, ThumbnailEvent::SourceSize(Some(Size { cx: 100, cy: 100 }))),
        ThumbnailAction::Show(rect(50, 0, 150, 100))
    );
    assert_eq!(
        thumbnail_next(area, ThumbnailEvent::Shown { ok: true }),
        ThumbnailAction::Live
    );
}

#[test]
fn thumbnail_steps_fail_on_any_error_or_empty_destination() {
    let area = rect(0, 0, 200, 100);
    assert_eq!(
        thumbnail_next(area, ThumbnailEvent::Registered { ok: false }),
        ThumbnailAction::Fail
    );
    assert_eq!(thumbnail_next(area, ThumbnailEvent::SourceSize(None)), ThumbnailAction::Fail);
    assert_eq!(
        thumbnail_next(area, ThumbnailEvent::SourceSize(Some(Size { cx: 0, cy: 10 }))),
        ThumbnailAction::Fail
    );
    assert_eq!(
        thumbnail_next(rect(5, 5, 5, 20), ThumbnailEvent::SourceSize(Some(Size { cx: 10, cy: 10 }))),
        ThumbnailAction::Fail
    );
    assert_eq!(thumbnail_next(area, ThumbnailEvent::Shown { ok: false }), ThumbnailAction::Fail);
}

#[test]
fn thumbnails_kept_only_when_planned_and_not_failed() {
    let planned = [
        Some(PreviewTarget { source_hwnd: Hwnd(7), preview_rect: rect(0, 0, 10, 10) }),
        None,
        Some(PreviewTarget { source_hwnd: Hwnd(9), preview_rect: rect(10, 0, 20, 10) }),
    ];
    assert!(keeps_thumbnail(7, &planned, &[]));
    assert!(keeps_thumbnail(9, &planned, &[3]));
    assert!(!keeps_thumbnail(9, &planned, &[3, 9]));
    assert!(!keeps_thumbnail(8, &planned, &[]));
    assert!(!keeps_thumbnail(7, &[], &[]));
}

#[test]
fn overlay_is_shown_and_focused_on_first_paint_only() {
    let (shown, command) = overlay_step(false, OverlayEvent::Painted);
    assert_eq!((shown, command), (true, OverlayCommand::ShowAndFocus));
    let (shown, command) = overlay_step(shown, OverlayEvent::Painted);
    assert_eq!((shown, command), (true, OverlayCommand::Nothing));
    let (shown, command) = overlay_step(shown, OverlayEvent::Unpainted);
    assert_eq!((shown, command), (false, OverlayCommand::Hide));
    assert_eq!(overlay_step(shown, OverlayEvent::Painted), (true, OverlayCommand::ShowAndFocus));
    assert_eq!(overlay_step(false, OverlayEvent::Unpainted), (false, OverlayCommand::Hide));
}

#[test]
fn live_previews_outside_preview_mode_need_no_cards() {
    let state = state_with(&[2, 1], SwitchAppsRenderMode::IconOnly, false);
    let empty = OverlayLayout::new(SwitchAppsRenderMode::IconOnly, false, 100, &[], monitor(800, 600));
    assert!(plan_live_previews(&state, &empty).is_none());
}
