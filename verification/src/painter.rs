//! What the overlay painter draws: the per-frame plan of backdrop, cards, icons,
//! dots and live thumbnails, computed from the switcher state and its layout. The
//! drawing itself happens outside the library.
use vstd::prelude::*;

use crate::config::SwitchAppsRenderMode;
use crate::geometry::{
    centered_rect, edges_fit, fits_i32, inset_rect, offset_rect, rect_height, rect_width,
    scale_rect, spec_centered_rect, spec_height, spec_inset_rect, spec_offset_rect,
    spec_scale_rect, spec_width, Point, Rect, Size,
};
use crate::handles::Hwnd;
use crate::layout::{
    cursor_fits, fits_i32_exec, layout_fits, layout_matches, lemma_icon_within_preview_within_card,
    scaled, spec_scale, spec_window_counts, OverlayLayout, ICON_SIZE,
};
use crate::palette::{overlay_palette, spec_overlay_palette, OverlayPalette};
use crate::preview::AppPreview;
use crate::switch_apps::SwitchAppsState;

verus! {

/// Entries are drawn this many times larger and then scaled down, for smooth edges.
pub const SCALE_FACTOR: i32 = 6;

// ---------------------------------------------------------------------------
// Thumbnails

/// The destination of a thumbnail: within the bounds, as large as possible with
/// the source's aspect ratio (rounded down, at least one pixel), and centered.
pub open spec fn spec_fit_preview_destination(bounds: Rect, source: Size) -> Option<Rect> {
    let bw = spec_width(bounds);
    let bh = spec_height(bounds);
    let sw = source.cx as int;
    let sh = source.cy as int;
    if bw <= 0 || bh <= 0 || sw <= 0 || sh <= 0 {
        None
    } else if bw * sh <= bh * sw {
        let h = (bw * sh) / sw;
        Some(spec_centered_rect(bounds, bw, if h >= 1 { h } else { 1 }))
    } else {
        let w = (bh * sw) / sh;
        Some(spec_centered_rect(bounds, if w >= 1 { w } else { 1 }, bh))
    }
}

/// Fits a thumbnail of a `source_size` window into `bounds`; `None` when either is
/// empty.
pub fn fit_preview_destination(bounds: Rect, source_size: Size) -> (r: Option<Rect>)
    requires
        fits_i32(spec_width(bounds)),
        fits_i32(spec_height(bounds)),
    ensures
        r == spec_fit_preview_destination(bounds, source_size),
{
    let bounds_width = rect_width(&bounds);
    let bounds_height = rect_height(&bounds);
    if bounds_width <= 0 || bounds_height <= 0 || source_size.cx <= 0 || source_size.cy <= 0 {
        return None;
    }
    let bounds_width = bounds_width as i64;
    let bounds_height = bounds_height as i64;
    let source_width = source_size.cx as i64;
    let source_height = source_size.cy as i64;
    proof {
        assert(0 < bounds_width * source_height < 0x4000_0000_0000_0000) by (nonlinear_arith)
            requires
                0 < bounds_width <= i32::MAX,
                0 < source_height <= i32::MAX,
        ;
        assert(0 < bounds_height * source_width < 0x4000_0000_0000_0000) by (nonlinear_arith)
            requires
                0 < bounds_height <= i32::MAX,
                0 < source_width <= i32::MAX,
        ;
    }
    let (width, height) = if bounds_width * source_height <= bounds_height * source_width {
        let width = bounds_width as i32;
        let h = (bounds_width * source_height) / source_width;
        assert(h <= bounds_height) by (nonlinear_arith)
            requires
                bounds_width * source_height <= bounds_height * source_width,
                h == (bounds_width * source_height) as int / (source_width as int),
                source_width > 0,
                bounds_width > 0,
                source_height > 0,
        ;
        let height = (if h >= 1 { h } else { 1 }) as i32;
        (width, height)
    } else {
        let w = (bounds_height * source_width) / source_height;
        assert(w <= bounds_width) by (nonlinear_arith)
            requires
                bounds_width * source_height > bounds_height * source_width,
                w == (bounds_height * source_width) as int / (source_height as int),
                source_width > 0,
                bounds_height > 0,
                source_height > 0,
        ;
        let width = (if w >= 1 { w } else { 1 }) as i32;
        let height = bounds_height as i32;
        (width, height)
    };
    assert(1 <= width <= bounds_width && 1 <= height <= bounds_height);
    Some(centered_rect(bounds, width, height))
}

/// A thumbnail fills its bounds along one axis, stays inside them, and keeps the
/// source's aspect ratio up to rounding down.
pub proof fn lemma_fit_preview_destination_fills_bounds(bounds: Rect, source: Size)
    requires
        fits_i32(spec_width(bounds)),
        fits_i32(spec_height(bounds)),
        spec_width(bounds) > 0,
        spec_height(bounds) > 0,
        source.cx > 0,
        source.cy > 0,
    ensures
        spec_fit_preview_destination(bounds, source) matches Some(d) && {
            &&& bounds.left <= d.left <= d.right <= bounds.right
            &&& bounds.top <= d.top <= d.bottom <= bounds.bottom
            &&& spec_width(d) == spec_width(bounds) || spec_height(d) == spec_height(bounds)
            &&& spec_width(d) >= 1 && spec_height(d) >= 1
            &&& (spec_width(d) == spec_width(bounds) && spec_height(d) > 1 ==> spec_height(d)
                * source.cx <= spec_width(d) * source.cy)
            &&& (spec_height(d) == spec_height(bounds) && spec_width(d) > 1 ==> spec_width(d)
                * source.cy <= spec_height(d) * source.cx)
        },
{
    let bw = spec_width(bounds);
    let bh = spec_height(bounds);
    let sw = source.cx as int;
    let sh = source.cy as int;
    if bw * sh <= bh * sw {
        let h = (bw * sh) / sw;
        assert(h <= bh) by (nonlinear_arith)
            requires
                bw * sh <= bh * sw,
                h == (bw * sh) / sw,
                sw > 0,
                bw > 0,
                sh > 0,
        ;
        assert(h * sw <= bw * sh) by (nonlinear_arith)
            requires
                h == (bw * sh) / sw,
                sw > 0,
                bw * sh >= 0,
        ;
    } else {
        let w = (bh * sw) / sh;
        assert(w <= bw) by (nonlinear_arith)
            requires
                bw * sh > bh * sw,
                w == (bh * sw) / sh,
                sw > 0,
                bh > 0,
                sh > 0,
        ;
        assert(w * sh <= bh * sw) by (nonlinear_arith)
            requires
                w == (bh * sw) / sh,
                sh > 0,
                bh * sw >= 0,
        ;
    }
}


// ---------------------------------------------------------------------------
// Frame

/// How the overlay is painted this frame.
#[derive(Clone, Debug)]
pub struct PaintPlan {
    pub layout: OverlayLayout,
    /// Corner radius of the overlay background; 0 for square corners.
    pub corner_radius: i32,
    pub palette: OverlayPalette,
    /// Opacity of the whole overlay, 0 to 255.
    pub backdrop_alpha: u8,
}

/// The configured opacity percentage, clamped to 100, as an alpha value.
pub open spec fn spec_backdrop_alpha(backdrop_opacity: u32) -> int {
    (if backdrop_opacity <= 100 {
        backdrop_opacity as int
    } else {
        100
    }) * 255 / 100
}

/// Plans a frame: the layout on the given monitor, rounded corners when the system
/// draws them, the theme's palette and the overlay's opacity.
pub fn plan_paint(
    state: &SwitchAppsState,
    monitor_rect: Rect,
    light_theme: bool,
    rounded_corner: bool,
) -> (r: PaintPlan)
    requires
        layout_fits(
            state.render_mode,
            state.show_window_count,
            state.overlay_scale,
            spec_window_counts(*state),
            monitor_rect,
        ),
    ensures
        layout_matches(
            r.layout,
            state.render_mode,
            state.show_window_count,
            state.overlay_scale,
            spec_window_counts(*state),
            monitor_rect,
        ),
        r.corner_radius == (if rounded_corner {
            r.layout.overlay_corner_radius
        } else {
            0
        }),
        r.palette == spec_overlay_palette(light_theme, state.backdrop_color),
        r.backdrop_alpha == spec_backdrop_alpha(state.backdrop_opacity),
{
    let layout = OverlayLayout::for_state(state, monitor_rect);
    let corner_radius = if rounded_corner {
        layout.overlay_corner_radius
    } else {
        0
    };
    let palette = overlay_palette(light_theme, state.backdrop_color);
    let opacity = if state.backdrop_opacity <= 100 {
        state.backdrop_opacity
    } else {
        100
    };
    let backdrop_alpha = ((opacity * 255) / 100) as u8;
    PaintPlan { layout, corner_radius, palette, backdrop_alpha }
}

// ---------------------------------------------------------------------------
// Cards and icons

/// A card to fill, in the enlarged drawing surface.
#[derive(Clone, Copy, Debug, PartialEq, Eq, Structural)]
pub struct CardFill {
    pub rect: Rect,
    pub selected: bool,
}

/// What to draw into the card area, in the enlarged drawing surface.
#[derive(Clone, Debug)]
pub struct EntryDrawPlan {
    /// Size of the card area.
    pub width: i32,
    pub height: i32,
    /// Size of the enlarged drawing surface.
    pub scaled_width: i32,
    pub scaled_height: i32,
    pub scaled_card_corner_radius: i32,
    pub scaled_selected_outline_width: i32,
    /// Cards to fill, in drawing order.
    pub cards: Vec<CardFill>,
    /// Per app: where its icon goes, or `None` when its live thumbnail shows instead.
    pub icons: Vec<Option<Rect>>,
}

/// A rectangle of the overlay moved into the card area and enlarged.
pub open spec fn spec_to_scaled(r: Rect, content: Rect) -> Rect {
    spec_scale_rect(
        spec_offset_rect(r, -(content.left as int), -(content.top as int)),
        SCALE_FACTOR as int,
    )
}

/// Whether moving and enlarging a rectangle stays within `i32`.
pub open spec fn to_scaled_fits(r: Rect, content: Rect) -> bool {
    let m = spec_offset_rect(r, -(content.left as int), -(content.top as int));
    &&& fits_i32(-(content.left as int))
    &&& fits_i32(-(content.top as int))
    &&& edges_fit(
        r.left - content.left,
        r.top - content.top,
        r.right - content.left,
        r.bottom - content.top,
    )
    &&& edges_fit(
        m.left * SCALE_FACTOR,
        m.top * SCALE_FACTOR,
        m.right * SCALE_FACTOR,
        m.bottom * SCALE_FACTOR,
    )
}

/// Whether planning the entries of this layout stays within `i32` and finds an
/// entry for every app.
pub open spec fn entries_plan_fits(state: SwitchAppsState, layout: OverlayLayout) -> bool {
    let c = layout.content_rect;
    &&& state.apps@.len() <= layout.entries@.len()
    &&& fits_i32(spec_width(c))
    &&& fits_i32(spec_height(c))
    &&& fits_i32(spec_width(c) * SCALE_FACTOR)
    &&& fits_i32(spec_height(c) * SCALE_FACTOR)
    &&& fits_i32(layout.card_corner_radius * SCALE_FACTOR)
    &&& fits_i32(layout.selected_outline_width * SCALE_FACTOR)
    &&& forall|i: int|
        0 <= i < layout.entries@.len() ==> to_scaled_fits(
            #[trigger] layout.entries@[i].card_rect,
            c,
        ) && to_scaled_fits(layout.entries@[i].icon_rect, c)
}

/// The cards to fill: with preview cards every app's card, the selected one marked;
/// with icons only the selected app's card.
pub open spec fn spec_card_fills(state: SwitchAppsState, layout: OverlayLayout) -> Seq<CardFill> {
    if state.render_mode == SwitchAppsRenderMode::Preview {
        Seq::new(
            state.apps@.len(),
            |i: int|
                CardFill {
                    rect: spec_to_scaled(layout.entries@[i].card_rect, layout.content_rect),
                    selected: i == state.index,
                },
        )
    } else if state.index < layout.entries@.len() {
        seq![
            CardFill {
                rect: spec_to_scaled(
                    layout.entries@[state.index as int].card_rect,
                    layout.content_rect,
                ),
                selected: true,
            },
        ]
    } else {
        Seq::empty()
    }
}

/// Icons go on every card whose live thumbnail is not shown.
pub open spec fn spec_icon_draws(
    state: SwitchAppsState,
    layout: OverlayLayout,
    live_previews: Seq<bool>,
) -> Seq<Option<Rect>> {
    Seq::new(
        state.apps@.len(),
        |i: int|
            if i < live_previews.len() && live_previews[i] {
                None
            } else {
                Some(spec_to_scaled(layout.entries@[i].icon_rect, layout.content_rect))
            },
    )
}

fn to_scaled(r: Rect, content: Rect) -> (out: Rect)
    requires
        to_scaled_fits(r, content),
    ensures
        out == spec_to_scaled(r, content),
{
    scale_rect(offset_rect(r, -content.left, -content.top), SCALE_FACTOR)
}

/// Plans the cards and icons of a frame; `live_previews[i]` tells whether app `i`
/// shows a live thumbnail.
pub fn plan_entries(state: &SwitchAppsState, layout: &OverlayLayout, live_previews: &[bool]) -> (r:
    EntryDrawPlan)
    requires
        entries_plan_fits(*state, *layout),
    ensures
        r.width == spec_width(layout.content_rect),
        r.height == spec_height(layout.content_rect),
        r.scaled_width == spec_width(layout.content_rect) * SCALE_FACTOR,
        r.scaled_height == spec_height(layout.content_rect) * SCALE_FACTOR,
        r.scaled_card_corner_radius == layout.card_corner_radius * SCALE_FACTOR,
        r.scaled_selected_outline_width == layout.selected_outline_width * SCALE_FACTOR,
        r.cards@ == spec_card_fills(*state, *layout),
        r.icons@ == spec_icon_draws(*state, *layout, live_previews@),
{
    let width = rect_width(&layout.content_rect);
    let height = rect_height(&layout.content_rect);
    let c = layout.content_rect;
    let n = state.apps.len();
    let mut cards: Vec<CardFill> = Vec::new();
    if state.render_mode.uses_preview_cards() {
        let mut i: usize = 0;
        while i < n
            invariant
                n == state.apps@.len(),
                i <= n,
                entries_plan_fits(*state, *layout),
                c == layout.content_rect,
                state.render_mode == SwitchAppsRenderMode::Preview,
                cards@ == spec_card_fills(*state, *layout).subrange(0, i as int),
            decreases n - i,
        {
            assert(to_scaled_fits(layout.entries@[i as int].card_rect, c));
            let rect = to_scaled(layout.entries[i].card_rect, c);
            cards.push(CardFill { rect, selected: i == state.index });
            i = i + 1;
            assert(cards@ =~= spec_card_fills(*state, *layout).subrange(0, i as int));
        }
        assert(cards@ =~= spec_card_fills(*state, *layout));
    } else if state.index < layout.entries.len() {
        assert(to_scaled_fits(layout.entries@[state.index as int].card_rect, c));
        let rect = to_scaled(layout.entries[state.index].card_rect, c);
        cards.push(CardFill { rect, selected: true });
        assert(cards@ =~= spec_card_fills(*state, *layout));
    } else {
        assert(cards@ =~= spec_card_fills(*state, *layout));
    }

    let mut icons: Vec<Option<Rect>> = Vec::new();
    let mut i: usize = 0;
    while i < n
        invariant
            n == state.apps@.len(),
            i <= n,
            entries_plan_fits(*state, *layout),
            c == layout.content_rect,
            icons@ == spec_icon_draws(*state, *layout, live_previews@).subrange(0, i as int),
        decreases n - i,
    {
        let live = i < live_previews.len() && live_previews[i];
        if live {
            icons.push(None);
        } else {
            assert(i < layout.entries@.len());
            assert(to_scaled_fits(layout.entries@[i as int].card_rect, c));
            assert(to_scaled_fits(layout.entries@[i as int].icon_rect, c));
            icons.push(Some(to_scaled(layout.entries[i].icon_rect, c)));
        }
        i = i + 1;
        assert(icons@ =~= spec_icon_draws(*state, *layout, live_previews@).subrange(0, i as int));
    }
    assert(icons@ =~= spec_icon_draws(*state, *layout, live_previews@));

    EntryDrawPlan {
        width,
        height,
        scaled_width: width * SCALE_FACTOR,
        scaled_height: height * SCALE_FACTOR,
        scaled_card_corner_radius: layout.card_corner_radius * SCALE_FACTOR,
        scaled_selected_outline_width: layout.selected_outline_width * SCALE_FACTOR,
        cards,
        icons,
    }
}

/// The inner fill of a selected card drawn with an outline: the card inset by the
/// outline width with a correspondingly smaller corner radius, or nothing when the
/// outline covers the whole card.
pub open spec fn spec_selected_card_inner(card: Rect, corner_radius: int, outline_width: int) -> Option<
    (Rect, i32),
> {
    let inner = spec_inset_rect(card, outline_width);
    if spec_width(inner) <= 0 || spec_height(inner) <= 0 {
        None
    } else {
        Some(
            (
                inner,
                (if corner_radius - outline_width >= 0 {
                    corner_radius - outline_width
                } else {
                    0
                }) as i32,
            ),
        )
    }
}

/// Where the fill of a selected card goes inside its outline.
pub fn selected_card_inner(card_rect: Rect, corner_radius: i32, outline_width: i32) -> (r: Option<
    (Rect, i32),
>)
    requires
        edges_fit(
            card_rect.left + outline_width,
            card_rect.top + outline_width,
            card_rect.right - outline_width,
            card_rect.bottom - outline_width,
        ),
        fits_i32(spec_width(spec_inset_rect(card_rect, outline_width as int))),
        fits_i32(spec_height(spec_inset_rect(card_rect, outline_width as int))),
        fits_i32(corner_radius - outline_width),
    ensures
        r == spec_selected_card_inner(card_rect, corner_radius as int, outline_width as int),
{
    let inner_rect = inset_rect(card_rect, outline_width);
    if rect_width(&inner_rect) <= 0 || rect_height(&inner_rect) <= 0 {
        return None;
    }
    let radius = corner_radius - outline_width;
    Some((inner_rect, if radius >= 0 { radius } else { 0 }))
}


// ---------------------------------------------------------------------------
// Window dots

/// One dot to fill in the card area: its bounding square, the corner radius that
/// makes it round, and whether it marks the selected window.
#[derive(Clone, Copy, Debug, PartialEq, Eq, Structural)]
pub struct DotDraw {
    pub rect: Rect,
    pub corner_radius: i32,
    pub active: bool,
}

/// The dot centered at `center` with radius `r`, moved into the card area.
pub open spec fn spec_dot_draw(center: (i32, i32), r: i32, content: Rect, active: bool) -> DotDraw {
    DotDraw {
        rect: Rect {
            left: (center.0 - r - content.left) as i32,
            top: (center.1 - r - content.top) as i32,
            right: (center.0 + r - content.left) as i32,
            bottom: (center.1 + r - content.top) as i32,
        },
        corner_radius: (r * 2) as i32,
        active,
    }
}

/// Whether placing the dot stays within `i32`.
pub open spec fn dot_draw_fits(center: (i32, i32), r: i32, content: Rect) -> bool {
    &&& fits_i32(center.0 - r)
    &&& fits_i32(center.1 - r)
    &&& fits_i32(center.0 + r)
    &&& fits_i32(center.1 + r)
    &&& fits_i32(center.0 - r - content.left)
    &&& fits_i32(center.1 - r - content.top)
    &&& fits_i32(center.0 + r - content.left)
    &&& fits_i32(center.1 + r - content.top)
    &&& fits_i32(r * 2)
}

/// The dots of one entry.
pub open spec fn spec_entry_dots(
    state: SwitchAppsState,
    layout: OverlayLayout,
    app_index: int,
) -> Seq<DotDraw> {
    match layout.entries@[app_index].dots {
        None => Seq::empty(),
        Some(d) => Seq::new(
            d.centers@.len(),
            |j: int|
                spec_dot_draw(
                    d.centers@[j],
                    d.radius,
                    layout.content_rect,
                    app_index == state.index && j == state.window_index,
                ),
        ),
    }
}

/// Whether placing every dot stays within `i32`.
pub open spec fn dots_plan_fits(state: SwitchAppsState, layout: OverlayLayout) -> bool {
    forall|i: int, j: int|
        #![trigger layout.entries@[i].dots->0.centers@[j]]
        0 <= i < layout.entries@.len() && layout.entries@[i].dots is Some && 0 <= j
            < layout.entries@[i].dots->0.centers@.len() ==> dot_draw_fits(
            layout.entries@[i].dots->0.centers@[j],
            layout.entries@[i].dots->0.radius,
            layout.content_rect,
        )
}

/// Plans the window dots, one list per entry: nothing when dots are off; the
/// selected window's dot of the selected app is marked active.
pub fn plan_dot_indicators(state: &SwitchAppsState, layout: &OverlayLayout) -> (r: Vec<Vec<DotDraw>>)
    requires
        dots_plan_fits(*state, *layout),
    ensures
        r@.len() == (if state.show_window_count {
            layout.entries@.len()
        } else {
            0
        }),
        forall|i: int| 0 <= i < r@.len() ==> (#[trigger] r@[i])@ == spec_entry_dots(*state, *layout, i),
{
    let mut plan: Vec<Vec<DotDraw>> = Vec::new();
    if !state.show_window_count {
        return plan;
    }
    let active_window_index = state.window_index;
    let content_offset_x = layout.content_rect.left;
    let content_offset_y = layout.content_rect.top;
    let n = layout.entries.len();
    let mut app_index: usize = 0;
    while app_index < n
        invariant
            n == layout.entries@.len(),
            app_index <= n,
            dots_plan_fits(*state, *layout),
            active_window_index == state.window_index,
            content_offset_x == layout.content_rect.left,
            content_offset_y == layout.content_rect.top,
            plan@.len() == app_index,
            forall|i: int| 0 <= i < app_index ==> (#[trigger] plan@[i])@ == spec_entry_dots(*state, *layout, i),
        decreases n - app_index,
    {
        let mut dots_out: Vec<DotDraw> = Vec::new();
        match &layout.entries[app_index].dots {
            None => {
                assert(dots_out@ =~= spec_entry_dots(*state, *layout, app_index as int));
            },
            Some(dots) => {
                let m = dots.centers.len();
                let r = dots.radius;
                let mut dot_idx: usize = 0;
                while dot_idx < m
                    invariant
                        n == layout.entries@.len(),
                        app_index < n,
                        dots_plan_fits(*state, *layout),
                        layout.entries@[app_index as int].dots == Some(*dots),
                        m == dots.centers@.len(),
                        r == dots.radius,
                        dot_idx <= m,
                        active_window_index == state.window_index,
                        content_offset_x == layout.content_rect.left,
                        content_offset_y == layout.content_rect.top,
                        dots_out@ == spec_entry_dots(*state, *layout, app_index as int).subrange(0, dot_idx as int),
                    decreases m - dot_idx,
                {
                    let (cx, cy) = dots.centers[dot_idx];
                    assert(dot_draw_fits(
                        layout.entries@[app_index as int].dots->0.centers@[dot_idx as int],
                        layout.entries@[app_index as int].dots->0.radius,
                        layout.content_rect,
                    ));
                    let is_active = app_index == state.index && dot_idx == active_window_index;
                    let dot_rect = Rect {
                        left: cx - r - content_offset_x,
                        top: cy - r - content_offset_y,
                        right: cx + r - content_offset_x,
                        bottom: cy + r - content_offset_y,
                    };
                    dots_out.push(DotDraw { rect: dot_rect, corner_radius: r * 2, active: is_active });
                    dot_idx = dot_idx + 1;
                    assert(dots_out@ =~= spec_entry_dots(*state, *layout, app_index as int).subrange(0, dot_idx as int));
                }
                assert(dots_out@ =~= spec_entry_dots(*state, *layout, app_index as int));
            },
        }
        plan.push(dots_out);
        app_index = app_index + 1;
    }
    plan
}

// ---------------------------------------------------------------------------
// Laws of the frame plan

/// An app whose live thumbnail shows gets no icon. Every other app gets its icon
/// drawn on its own card as the layout's icon square moved into the card area and
/// enlarged: a square no larger than the enlarged scaled icon size, inside the
/// enlarged thumbnail area of that card, in either render mode.
pub proof fn lemma_icons_sit_in_thumbnail_area(
    state: SwitchAppsState,
    layout: OverlayLayout,
    live_previews: Seq<bool>,
    monitor: Rect,
    i: int,
)
    requires
        entries_plan_fits(state, layout),
        layout_fits(
            state.render_mode,
            state.show_window_count,
            state.overlay_scale,
            spec_window_counts(state),
            monitor,
        ),
        layout_matches(
            layout,
            state.render_mode,
            state.show_window_count,
            state.overlay_scale,
            spec_window_counts(state),
            monitor,
        ),
        0 <= i < state.apps@.len(),
    ensures
        spec_icon_draws(state, layout, live_previews).len() == state.apps@.len(),
        i < live_previews.len() && live_previews[i] ==> spec_icon_draws(
            state,
            layout,
            live_previews,
        )[i] is None,
        !(i < live_previews.len() && live_previews[i]) ==> (spec_icon_draws(
            state,
            layout,
            live_previews,
        )[i] matches Some(d) && {
            let e = layout.entries@[i];
            let c = layout.content_rect;
            &&& d == spec_to_scaled(e.icon_rect, c)
            &&& spec_width(d) == spec_height(d)
            &&& spec_width(d) == SCALE_FACTOR * spec_width(e.icon_rect)
            &&& 1 <= spec_width(d) <= SCALE_FACTOR * scaled(
                ICON_SIZE as int,
                spec_scale(state.overlay_scale),
            )
            &&& SCALE_FACTOR * (e.preview_rect.left - c.left) <= d.left
            &&& d.right <= SCALE_FACTOR * (e.preview_rect.right - c.left)
            &&& SCALE_FACTOR * (e.preview_rect.top - c.top) <= d.top
            &&& d.bottom <= SCALE_FACTOR * (e.preview_rect.bottom - c.top)
        }),
{
    lemma_icon_within_preview_within_card(
        layout,
        state.render_mode,
        state.show_window_count,
        state.overlay_scale,
        spec_window_counts(state),
        monitor,
        i,
    );
    assert(to_scaled_fits(layout.entries@[i].icon_rect, layout.content_rect));
}

/// With the selected app showing a dot for the selected window, that dot is the one
/// and only active dot of the whole plan, whichever window is selected (the first
/// one included).
pub proof fn lemma_exactly_selected_dot_active(
    state: SwitchAppsState,
    layout: OverlayLayout,
    i: int,
    j: int,
)
    requires
        state.index < layout.entries@.len(),
        layout.entries@[state.index as int].dots matches Some(d) && state.window_index
            < d.centers@.len(),
        0 <= i < layout.entries@.len(),
        0 <= j < spec_entry_dots(state, layout, i).len(),
    ensures
        state.window_index < spec_entry_dots(state, layout, state.index as int).len(),
        spec_entry_dots(state, layout, state.index as int)[state.window_index as int].active,
        spec_entry_dots(state, layout, i)[j].active <==> (i == state.index && j
            == state.window_index),
{
}


// ---------------------------------------------------------------------------
// Showing the overlay

/// What happened to the overlay window.
#[derive(Clone, Copy, Debug, PartialEq, Eq, Structural)]
pub enum OverlayEvent {
    /// A frame was painted.
    Painted,
    /// The overlay was taken down.
    Unpainted,
}

/// What the overlay window is told to do next.
#[derive(Clone, Copy, Debug, PartialEq, Eq, Structural)]
pub enum OverlayCommand {
    /// Nothing: the window is already showing.
    Nothing,
    /// Show the window and give it the keyboard focus.
    ShowAndFocus,
    /// Hide the window.
    Hide,
}

/// Whether the overlay is showing after the event, and the command for the window:
/// the first paint shows and focuses it, later paints leave it alone, and taking it
/// down hides it.
pub open spec fn spec_overlay_step(shown: bool, event: OverlayEvent) -> (bool, OverlayCommand) {
    match event {
        OverlayEvent::Painted => if shown {
            (true, OverlayCommand::Nothing)
        } else {
            (true, OverlayCommand::ShowAndFocus)
        },
        OverlayEvent::Unpainted => (false, OverlayCommand::Hide),
    }
}

/// Decides what the overlay window does after a paint or an unpaint.
pub fn overlay_step(shown: bool, event: OverlayEvent) -> (r: (bool, OverlayCommand))
    ensures
        r == spec_overlay_step(shown, event),
{
    match event {
        OverlayEvent::Painted => if shown {
            (true, OverlayCommand::Nothing)
        } else {
            (true, OverlayCommand::ShowAndFocus)
        },
        OverlayEvent::Unpainted => (false, OverlayCommand::Hide),
    }
}

/// The commands a run of events produces, starting from `shown`.
pub open spec fn spec_overlay_commands(shown: bool, events: Seq<OverlayEvent>) -> Seq<OverlayCommand>
    decreases events.len(),
{
    if events.len() == 0 {
        Seq::empty()
    } else {
        let (next, command) = spec_overlay_step(shown, events[0]);
        seq![command] + spec_overlay_commands(next, events.drop_first())
    }
}

/// Painting an overlay again and again shows and focuses it once, on the first
/// paint when it was hidden and never when it was already showing.
pub proof fn lemma_overlay_shown_once(shown: bool, events: Seq<OverlayEvent>)
    requires
        forall|i: int| 0 <= i < events.len() ==> #[trigger] events[i] == OverlayEvent::Painted,
    ensures
        spec_overlay_commands(shown, events).len() == events.len(),
        forall|i: int|
            0 <= i < events.len() ==> #[trigger] spec_overlay_commands(shown, events)[i] == (if i
                == 0 && !shown {
                OverlayCommand::ShowAndFocus
            } else {
                OverlayCommand::Nothing
            }),
    decreases events.len(),
{
    if events.len() > 0 {
        let rest = events.drop_first();
        assert forall|i: int| 0 <= i < rest.len() implies #[trigger] rest[i] == OverlayEvent::Painted by {
            assert(rest[i] == events[i + 1]);
        }
        lemma_overlay_shown_once(true, rest);
        let cs = spec_overlay_commands(shown, events);
        assert forall|i: int| 0 <= i < events.len() implies #[trigger] cs[i] == (if i == 0
            && !shown {
            OverlayCommand::ShowAndFocus
        } else {
            OverlayCommand::Nothing
        }) by {
            assert(events[0] == OverlayEvent::Painted);
            if i > 0 {
                assert(cs[i] == spec_overlay_commands(true, rest)[i - 1]);
            }
        }
    }
}


// ---------------------------------------------------------------------------
// Live thumbnails

/// A live thumbnail to show: of which window, and into which area of the overlay.
#[derive(Clone, Copy, Debug, PartialEq, Eq, Structural)]
pub struct PreviewTarget {
    pub source_hwnd: Hwnd,
    pub preview_rect: Rect,
}

/// The thumbnail each app wants: its thumbnail window in its card's thumbnail area,
/// or nothing when its preview is unavailable.
pub open spec fn spec_preview_targets(state: SwitchAppsState, layout: OverlayLayout) -> Seq<
    Option<PreviewTarget>,
> {
    Seq::new(
        state.apps@.len(),
        |i: int|
            match state.apps@[i].preview {
                AppPreview::DwmThumbnail(p) => Some(
                    PreviewTarget {
                        source_hwnd: p.source_hwnd,
                        preview_rect: layout.entries@[i].preview_rect,
                    },
                ),
                AppPreview::Unavailable(_) => None,
            },
    )
}

/// Plans the live thumbnails of a frame: `None` outside preview mode (every
/// registered thumbnail is dropped), else one optional target per app.
pub fn plan_live_previews(state: &SwitchAppsState, layout: &OverlayLayout) -> (r: Option<
    Vec<Option<PreviewTarget>>,
>)
    requires
        state.render_mode == SwitchAppsRenderMode::Preview ==> state.apps@.len()
            <= layout.entries@.len(),
    ensures
        state.render_mode != SwitchAppsRenderMode::Preview ==> r is None,
        state.render_mode == SwitchAppsRenderMode::Preview ==> (r matches Some(v) && v@
            == spec_preview_targets(*state, *layout)),
{
    if state.render_mode != SwitchAppsRenderMode::Preview {
        return None;
    }
    let n = state.apps.len();
    let mut targets: Vec<Option<PreviewTarget>> = Vec::new();
    let mut i: usize = 0;
    while i < n
        invariant
            n == state.apps@.len(),
            n <= layout.entries@.len(),
            i <= n,
            targets@ == spec_preview_targets(*state, *layout).subrange(0, i as int),
        decreases n - i,
    {
        let target = match state.apps[i].preview {
            AppPreview::DwmThumbnail(p) => Some(
                PreviewTarget { source_hwnd: p.source_hwnd, preview_rect: layout.entries[i].preview_rect },
            ),
            AppPreview::Unavailable(_) => None,
        };
        targets.push(target);
        i = i + 1;
        assert(targets@ =~= spec_preview_targets(*state, *layout).subrange(0, i as int));
    }
    assert(targets@ =~= spec_preview_targets(*state, *layout));
    Some(targets)
}


/// What the painter learns while bringing up one live thumbnail.
#[derive(Clone, Copy, Debug, PartialEq, Eq, Structural)]
pub enum ThumbnailEvent {
    /// The target comes up; whether a thumbnail of its window is already registered.
    Start { registered: bool },
    /// Registering a thumbnail of the window succeeded or failed.
    Registered { ok: bool },
    /// The size of the thumbnail's source window, or `None` when asking failed.
    SourceSize(Option<Size>),
    /// Placing and showing the thumbnail succeeded or failed.
    Shown { ok: bool },
}

/// What the painter does next for one live thumbnail.
#[derive(Clone, Copy, Debug, PartialEq, Eq, Structural)]
pub enum ThumbnailAction {
    /// Register a thumbnail of the target's window.
    Register,
    /// Ask the thumbnail for its source window's size.
    QuerySourceSize,
    /// Place the thumbnail at this destination and show it.
    Show(Rect),
    /// The thumbnail is showing: the card draws no icon over it.
    Live,
    /// Give up on this thumbnail for the frame; its registration is dropped.
    Fail,
}

/// The next step for a thumbnail whose card area is `preview_rect`: register it if
/// needed, ask for the source size, show it at the fitted destination, and fail as
/// soon as any step fails or the destination is empty.
pub open spec fn spec_thumbnail_next(preview_rect: Rect, event: ThumbnailEvent) -> ThumbnailAction {
    match event {
        ThumbnailEvent::Start { registered } => if registered {
            ThumbnailAction::QuerySourceSize
        } else {
            ThumbnailAction::Register
        },
        ThumbnailEvent::Registered { ok } => if ok {
            ThumbnailAction::QuerySourceSize
        } else {
            ThumbnailAction::Fail
        },
        ThumbnailEvent::SourceSize(size) => match size {
            Some(size) => match spec_fit_preview_destination(preview_rect, size) {
                Some(destination) => ThumbnailAction::Show(destination),
                None => ThumbnailAction::Fail,
            },
            None => ThumbnailAction::Fail,
        },
        ThumbnailEvent::Shown { ok } => if ok {
            ThumbnailAction::Live
        } else {
            ThumbnailAction::Fail
        },
    }
}

/// Decides the next step of bringing up a live thumbnail into `preview_rect`.
pub fn thumbnail_next(preview_rect: Rect, event: ThumbnailEvent) -> (r: ThumbnailAction)
    requires
        event is SourceSize ==> fits_i32(spec_width(preview_rect)) && fits_i32(
            spec_height(preview_rect),
        ),
    ensures
        r == spec_thumbnail_next(preview_rect, event),
{
    match event {
        ThumbnailEvent::Start { registered } => if registered {
            ThumbnailAction::QuerySourceSize
        } else {
            ThumbnailAction::Register
        },
        ThumbnailEvent::Registered { ok } => if ok {
            ThumbnailAction::QuerySourceSize
        } else {
            ThumbnailAction::Fail
        },
        ThumbnailEvent::SourceSize(size) => match size {
            Some(size) => match fit_preview_destination(preview_rect, size) {
                Some(destination) => ThumbnailAction::Show(destination),
                None => ThumbnailAction::Fail,
            },
            None => ThumbnailAction::Fail,
        },
        ThumbnailEvent::Shown { ok } => if ok {
            ThumbnailAction::Live
        } else {
            ThumbnailAction::Fail
        },
    }
}

/// Whether some planned target shows the window `key`.
pub open spec fn spec_is_planned(key: isize, planned: Seq<Option<PreviewTarget>>) -> bool {
    exists|i: int|
        0 <= i < planned.len() && (#[trigger] planned[i] matches Some(t) && t.source_hwnd.0 == key)
}

/// After a frame a registered thumbnail stays only when some target of the frame
/// shows its window and no step for that window failed.
pub open spec fn spec_keeps_thumbnail(
    key: isize,
    planned: Seq<Option<PreviewTarget>>,
    failed: Seq<isize>,
) -> bool {
    spec_is_planned(key, planned) && !failed.contains(key)
}

/// Whether the registered thumbnail of window `key` survives the frame.
pub fn keeps_thumbnail(key: isize, planned: &[Option<PreviewTarget>], failed: &[isize]) -> (r:
    bool)
    ensures
        r == spec_keeps_thumbnail(key, planned@, failed@),
{
    let mut found = false;
    let mut i: usize = 0;
    while i < planned.len()
        invariant
            i <= planned@.len(),
            found == (exists|j: int|
                0 <= j < i && (#[trigger] planned@[j] matches Some(t) && t.source_hwnd.0 == key)),
        decreases planned@.len() - i,
    {
        if let Some(t) = planned[i] {
            if t.source_hwnd.0 == key {
                found = true;
            }
        }
        i = i + 1;
    }
    if !found {
        return false;
    }
    let mut k: usize = 0;
    while k < failed.len()
        invariant
            k <= failed@.len(),
            forall|j: int| 0 <= j < k ==> #[trigger] failed@[j] != key,
        decreases failed@.len() - k,
    {
        if failed[k] == key {
            assert(failed@[k as int] == key);
            return false;
        }
        k = k + 1;
    }
    true
}

// ---------------------------------------------------------------------------
// Range checks

/// Whether moving and enlarging a rectangle stays within `i32`.
fn to_scaled_in_range(r: Rect, content: Rect) -> (ok: bool)
    ensures
        ok == to_scaled_fits(r, content),
{
    let l = r.left as i64 - content.left as i64;
    let t = r.top as i64 - content.top as i64;
    let rr = r.right as i64 - content.left as i64;
    let b = r.bottom as i64 - content.top as i64;
    fits_i32_exec(-(content.left as i64)) && fits_i32_exec(-(content.top as i64)) && fits_i32_exec(l)
        && fits_i32_exec(t) && fits_i32_exec(rr) && fits_i32_exec(b) && fits_i32_exec(l * 6)
        && fits_i32_exec(t * 6) && fits_i32_exec(rr * 6) && fits_i32_exec(b * 6)
}

/// Whether planning the entries stays within `i32` (see `entries_plan_fits`).
pub fn entries_plan_in_range(state: &SwitchAppsState, layout: &OverlayLayout) -> (r: bool)
    ensures
        r == entries_plan_fits(*state, *layout),
{
    let c = layout.content_rect;
    let w = c.right as i64 - c.left as i64;
    let h = c.bottom as i64 - c.top as i64;
    if state.apps.len() > layout.entries.len() || !fits_i32_exec(w) || !fits_i32_exec(h)
        || !fits_i32_exec(w * 6) || !fits_i32_exec(h * 6) || !fits_i32_exec(
        layout.card_corner_radius as i64 * 6,
    ) || !fits_i32_exec(layout.selected_outline_width as i64 * 6) {
        return false;
    }
    let n = layout.entries.len();
    let mut i: usize = 0;
    while i < n
        invariant
            n == layout.entries@.len(),
            i <= n,
            c == layout.content_rect,
            forall|j: int|
                0 <= j < i ==> to_scaled_fits((#[trigger] layout.entries@[j]).card_rect, c)
                    && to_scaled_fits(layout.entries@[j].icon_rect, c),
        decreases n - i,
    {
        if !to_scaled_in_range(layout.entries[i].card_rect, c) || !to_scaled_in_range(
            layout.entries[i].icon_rect,
            c,
        ) {
            return false;
        }
        i = i + 1;
    }
    true
}

/// Whether placing every dot stays within `i32` (see `dots_plan_fits`).
pub fn dots_plan_in_range(state: &SwitchAppsState, layout: &OverlayLayout) -> (r: bool)
    ensures
        r == dots_plan_fits(*state, *layout),
{
    let c = layout.content_rect;
    let n = layout.entries.len();
    let mut i: usize = 0;
    while i < n
        invariant
            n == layout.entries@.len(),
            i <= n,
            c == layout.content_rect,
            forall|a: int, j: int|
                #![trigger layout.entries@[a].dots->0.centers@[j]]
                0 <= a < i && layout.entries@[a].dots is Some && 0 <= j
                    < layout.entries@[a].dots->0.centers@.len() ==> dot_draw_fits(
                    layout.entries@[a].dots->0.centers@[j],
                    layout.entries@[a].dots->0.radius,
                    c,
                ),
        decreases n - i,
    {
        if let Some(dots) = &layout.entries[i].dots {
            let r = dots.radius as i64;
            let m = dots.centers.len();
            let mut k: usize = 0;
            while k < m
                invariant
                    n == layout.entries@.len(),
                    i < n,
                    layout.entries@[i as int].dots == Some(*dots),
                    m == dots.centers@.len(),
                    r == dots.radius,
                    k <= m,
                    c == layout.content_rect,
                    forall|j: int|
                        0 <= j < k ==> dot_draw_fits(#[trigger] dots.centers@[j], dots.radius, c),
                decreases m - k,
            {
                let (cx, cy) = dots.centers[k];
                let x = cx as i64;
                let y = cy as i64;
                let ok = fits_i32_exec(x - r) && fits_i32_exec(y - r) && fits_i32_exec(x + r)
                    && fits_i32_exec(y + r) && fits_i32_exec(x - r - c.left as i64)
                    && fits_i32_exec(y - r - c.top as i64) && fits_i32_exec(x + r - c.left as i64)
                    && fits_i32_exec(y + r - c.top as i64) && fits_i32_exec(r * 2);
                if !ok {
                    assert(!dot_draw_fits(
                        layout.entries@[i as int].dots->0.centers@[k as int],
                        layout.entries@[i as int].dots->0.radius,
                        layout.content_rect,
                    ));
                    return false;
                }
                k = k + 1;
            }
        }
        i = i + 1;
    }
    true
}

/// Whether the cursor, taken relative to the overlay, stays within `i32` (see
/// `cursor_fits`).
pub fn cursor_in_range(state: &SwitchAppsState, monitor_rect: Rect, cursor: Point) -> (r: bool)
    requires
        layout_fits(
            state.render_mode,
            state.show_window_count,
            state.overlay_scale,
            spec_window_counts(*state),
            monitor_rect,
        ),
    ensures
        r == cursor_fits(*state, monitor_rect, cursor),
{
    let layout = OverlayLayout::for_state(state, monitor_rect);
    fits_i32_exec(cursor.x as i64 - layout.x as i64) && fits_i32_exec(
        cursor.y as i64 - layout.y as i64,
    )
}

} // verus!
