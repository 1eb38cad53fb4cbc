//! Geometry of the switcher overlay: a grid of cards, one per app, centered on the
//! monitor, with an icon or thumbnail area in each card and per-window dots.
use vstd::prelude::*;

use crate::config::SwitchAppsRenderMode;
use crate::geometry::{
    centered_rect, fits_i32, inset_rect, point_in_rect, rect_height, rect_of, rect_width,
    spec_centered_rect, spec_height, spec_inset_rect, spec_point_in_rect, spec_width, tdiv, Point,
    Rect,
};
use crate::switch_apps::SwitchAppsState;

verus! {

pub const ICON_SIZE: i32 = 64;
pub const WINDOW_BORDER_SIZE: i32 = 10;
pub const ICON_BORDER_SIZE: i32 = 4;
pub const SELECTED_CARD_OUTLINE_WIDTH: i32 = 2;
pub const PREVIEW_CARD_GAP: i32 = 12;
pub const PREVIEW_CARD_MAX_WIDTH: i32 = 220;
pub const PREVIEW_CARD_CONTENT_PADDING: i32 = 10;
pub const PREVIEW_CARD_ASPECT_WIDTH: i32 = 16;
pub const PREVIEW_CARD_ASPECT_HEIGHT: i32 = 10;
pub const DOT_RADIUS: i32 = 3;
pub const DOT_SPACING: i32 = 8;
pub const DOT_BOTTOM_INSET: i32 = 6;

/// Dots under a card, one per window of the app.
#[derive(Clone, Debug)]
pub struct DotIndicatorLayout {
    /// The `(x, y)` center of each dot.
    pub centers: Vec<(i32, i32)>,
    pub radius: i32,
}

/// Where one app's card, thumbnail area, icon and dots go.
#[derive(Clone, Debug)]
pub struct OverlayEntryLayout {
    pub card_rect: Rect,
    pub preview_rect: Rect,
    pub icon_rect: Rect,
    /// Per-window dot indicators, when shown.
    pub dots: Option<DotIndicatorLayout>,
}

/// The whole overlay: its position and size on screen, the area the cards fill,
/// the corner radii and outline width, and one entry per app. Card rectangles are
/// relative to the overlay's top-left corner.
#[derive(Clone, Debug)]
pub struct OverlayLayout {
    pub x: i32,
    pub y: i32,
    pub width: i32,
    pub height: i32,
    pub content_rect: Rect,
    pub overlay_corner_radius: i32,
    pub card_corner_radius: i32,
    pub selected_outline_width: i32,
    pub entries: Vec<OverlayEntryLayout>,
}

// ---------------------------------------------------------------------------
// Dots

/// The abstract value of a dot layout.
pub struct DotsView {
    pub centers: Seq<(i32, i32)>,
    pub radius: i32,
}

pub open spec fn dots_view(d: Option<DotIndicatorLayout>) -> Option<DotsView> {
    match d {
        Some(l) => Some(DotsView { centers: l.centers@, radius: l.radius }),
        None => None,
    }
}

/// Total width of `count` dots with their spacing.
pub open spec fn spec_dots_total_width(count: int) -> int {
    DOT_RADIUS * 2 * count + DOT_SPACING * (count - 1)
}

/// Center of the first dot.
pub open spec fn spec_dots_start_x(card: Rect, count: int) -> int {
    tdiv(card.left + card.right, 2) - tdiv(spec_dots_total_width(count), 2) + DOT_RADIUS
}

/// Vertical position of the dot row.
pub open spec fn spec_dots_y(card: Rect) -> int {
    card.bottom - DOT_BOTTOM_INSET - DOT_RADIUS
}

/// Distance between neighbouring dot centers.
pub open spec fn spec_dot_pitch() -> int {
    DOT_RADIUS * 2 + DOT_SPACING
}

/// Dots appear only when enabled and only for apps with more than one window: one
/// per window, in a row centered on the card, near its bottom edge.
pub open spec fn spec_dots(show_window_count: bool, card: Rect, window_count: usize) -> Option<
    DotsView,
> {
    if !show_window_count || window_count <= 1 {
        None
    } else {
        let start = spec_dots_start_x(card, window_count as int);
        let y = spec_dots_y(card);
        Some(
            DotsView {
                centers: Seq::new(
                    window_count as nat,
                    |i: int| ((start + i * spec_dot_pitch()) as i32, y as i32),
                ),
                radius: DOT_RADIUS,
            },
        )
    }
}

/// Whether laying out the dots stays within `i32`.
pub open spec fn dots_fit(show_window_count: bool, card: Rect, window_count: usize) -> bool {
    !show_window_count || window_count <= 1 || {
        let c = window_count as int;
        &&& c <= i32::MAX
        &&& fits_i32(spec_dots_total_width(c))
        &&& fits_i32(card.left + card.right)
        &&& fits_i32(spec_dots_y(card))
        &&& fits_i32(tdiv(card.left + card.right, 2) - tdiv(spec_dots_total_width(c), 2))
        &&& fits_i32(spec_dots_start_x(card, c))
        &&& fits_i32(spec_dots_start_x(card, c) + (c - 1) * spec_dot_pitch())
    }
}

/// Dot indicators for a card whose app has `window_count` windows.
pub fn dot_indicator_layout(show_window_count: bool, card_rect: Rect, window_count: usize) -> (r:
    Option<DotIndicatorLayout>)
    requires
        dots_fit(show_window_count, card_rect, window_count),
    ensures
        dots_view(r) == spec_dots(show_window_count, card_rect, window_count),
{
    if !show_window_count || window_count <= 1 {
        return None;
    }
    let count = window_count as i32;
    let ghost c = count as int;
    assert(DOT_RADIUS * 2 * c <= spec_dots_total_width(c));
    let total_width = DOT_RADIUS * 2 * count + DOT_SPACING * (count - 1);
    let card_center_x = (card_rect.left + card_rect.right) / 2;
    let y = card_rect.bottom - DOT_BOTTOM_INSET - DOT_RADIUS;
    let start_x = card_center_x - total_width / 2 + DOT_RADIUS;
    assert(spec_dot_pitch() == 14);
    assert(spec_dots_total_width(c) == 14 * c - 8) by (nonlinear_arith)
        requires
            spec_dots_total_width(c) == 3 * 2 * c + 8 * (c - 1),
    ;
    assert((c - 1) * spec_dot_pitch() <= spec_dots_total_width(c));
    let mut centers: Vec<(i32, i32)> = Vec::new();
    let mut i: i32 = 0;
    while i < count
        invariant
            0 <= i <= count,
            c == count,
            c == window_count,
            start_x == spec_dots_start_x(card_rect, c),
            y == spec_dots_y(card_rect),
            fits_i32(start_x + (c - 1) * spec_dot_pitch()),
            fits_i32((c - 1) * spec_dot_pitch()),
            centers@.len() == i,
            forall|j: int|
                0 <= j < i ==> #[trigger] centers@[j] == (
                    (start_x + j * spec_dot_pitch()) as i32,
                    y as i32,
                ),
        decreases count - i,
    {
        assert(0 <= i * spec_dot_pitch() <= (c - 1) * spec_dot_pitch()) by (nonlinear_arith)
            requires
                0 <= i < c,
        ;
        centers.push((start_x + i * (DOT_RADIUS * 2 + DOT_SPACING), y));
        i = i + 1;
    }
    let r = Some(DotIndicatorLayout { centers, radius: DOT_RADIUS });
    assert(dots_view(r)->0.centers =~= spec_dots(show_window_count, card_rect, window_count)->0.centers);
    r
}


// ---------------------------------------------------------------------------
// Grid

/// The overlay scale in percent, clamped to `50..=200`.
pub open spec fn spec_scale(overlay_scale: u32) -> int {
    if overlay_scale < 50 {
        50
    } else if overlay_scale > 200 {
        200
    } else {
        overlay_scale as int
    }
}

/// A base size scaled by a percentage.
pub open spec fn scaled(base: int, scale: int) -> int {
    base * scale / 100
}

/// Gap between neighbouring cards, horizontally and vertically.
pub open spec fn spec_gap(mode: SwitchAppsRenderMode, scale: int) -> int {
    match mode {
        SwitchAppsRenderMode::IconOnly => 0,
        SwitchAppsRenderMode::Preview => scaled(PREVIEW_CARD_GAP as int, scale),
    }
}

/// Card width: an icon with its border, or a preview card.
pub open spec fn spec_card_width(mode: SwitchAppsRenderMode, scale: int) -> int {
    match mode {
        SwitchAppsRenderMode::IconOnly => scaled(ICON_SIZE as int, scale) + scaled(
            ICON_BORDER_SIZE as int,
            scale,
        ) * 2,
        SwitchAppsRenderMode::Preview => scaled(PREVIEW_CARD_MAX_WIDTH as int, scale),
    }
}

/// Card height: square icon cards, 16:10 preview cards.
pub open spec fn spec_card_height(mode: SwitchAppsRenderMode, scale: int) -> int {
    match mode {
        SwitchAppsRenderMode::IconOnly => spec_card_width(mode, scale),
        SwitchAppsRenderMode::Preview => spec_card_width(mode, scale)
            * (PREVIEW_CARD_ASPECT_HEIGHT as int) / (PREVIEW_CARD_ASPECT_WIDTH as int),
    }
}

/// The widest the card area may be: 85% of the monitor, but never less than one card.
pub open spec fn spec_max_content_width(mode: SwitchAppsRenderMode, scale: int, monitor_width: int) -> int {
    let card = spec_card_width(mode, scale);
    let pad = WINDOW_BORDER_SIZE as int;
    let limit = tdiv(monitor_width * 85, 100);
    (if limit >= card + pad * 2 {
        limit
    } else {
        card + pad * 2
    }) - pad * 2
}

/// How many cards fit in one row (at least one).
pub open spec fn spec_max_cols(mode: SwitchAppsRenderMode, scale: int, monitor_width: int) -> int {
    let q = (spec_max_content_width(mode, scale, monitor_width) + spec_gap(mode, scale)) / (
    spec_card_width(mode, scale) + spec_gap(mode, scale));
    if q >= 1 {
        q
    } else {
        1
    }
}

/// Columns and rows for `n` cards: one row when they fit, otherwise the fewest rows
/// with the cards spread evenly over them.
pub open spec fn spec_grid(n: int, max_cols: int) -> (int, int) {
    if n <= max_cols {
        (n, 1)
    } else {
        let rows = (n + max_cols - 1) / max_cols;
        let balanced = (n + rows - 1) / rows;
        let cols = if balanced <= max_cols {
            balanced
        } else {
            max_cols
        };
        (if cols >= 1 {
            cols
        } else {
            1
        }, rows)
    }
}

/// Extent of `count` cards of size `card` with gaps of `gap`.
pub open spec fn span(count: int, card: int, gap: int) -> int {
    card * count + gap * (count - 1)
}

/// The card of entry `index` in a grid of `cols` columns.
pub open spec fn spec_card_rect(mode: SwitchAppsRenderMode, scale: int, cols: int, index: int) -> Rect {
    let cw = spec_card_width(mode, scale);
    let ch = spec_card_height(mode, scale);
    let gap = spec_gap(mode, scale);
    let left = WINDOW_BORDER_SIZE + (index % cols) * (cw + gap);
    let top = WINDOW_BORDER_SIZE + (index / cols) * (ch + gap);
    rect_of(left, top, left + cw, top + ch)
}

/// Padding between a card's edge and its thumbnail area.
pub open spec fn spec_preview_padding(mode: SwitchAppsRenderMode, scale: int) -> int {
    match mode {
        SwitchAppsRenderMode::IconOnly => scaled(ICON_BORDER_SIZE as int, scale),
        SwitchAppsRenderMode::Preview => {
            let p = scaled(PREVIEW_CARD_CONTENT_PADDING as int, scale);
            let wlim = (if spec_card_width(mode, scale) - 1 >= 0 {
                spec_card_width(mode, scale) - 1
            } else {
                0
            }) / 2;
            let hlim = (if spec_card_height(mode, scale) - 1 >= 0 {
                spec_card_height(mode, scale) - 1
            } else {
                0
            }) / 2;
            let p1 = if p <= wlim {
                p
            } else {
                wlim
            };
            if p1 <= hlim {
                p1
            } else {
                hlim
            }
        },
    }
}

pub open spec fn min3(a: int, b: int, c: int) -> int {
    let m = if a <= b {
        a
    } else {
        b
    };
    if m <= c {
        m
    } else {
        c
    }
}

/// The size of the icon square inside a thumbnail area.
pub open spec fn spec_icon_size(scale: int, preview: Rect) -> int {
    min3(scaled(ICON_SIZE as int, scale), spec_width(preview), spec_height(preview))
}

/// Entry `index` as `new` lays it out.
pub open spec fn entry_matches(
    e: OverlayEntryLayout,
    mode: SwitchAppsRenderMode,
    show_window_count: bool,
    scale: int,
    cols: int,
    index: int,
    window_count: usize,
) -> bool {
    let card = spec_card_rect(mode, scale, cols, index);
    let preview = spec_inset_rect(card, spec_preview_padding(mode, scale));
    let icon = spec_icon_size(scale, preview);
    &&& e.card_rect == card
    &&& e.preview_rect == preview
    &&& e.icon_rect == spec_centered_rect(preview, icon, icon)
    &&& dots_view(e.dots) == spec_dots(show_window_count, card, window_count)
}

/// Whether every value that sizing and placing the card grid computes fits an `i32`.
pub open spec fn grid_fits(mode: SwitchAppsRenderMode, overlay_scale: u32, n: int, monitor: Rect) -> bool {
    let scale = spec_scale(overlay_scale);
    let mw = monitor.right - monitor.left;
    let mh = monitor.bottom - monitor.top;
    let pad = WINDOW_BORDER_SIZE as int;
    &&& 0 <= n <= i32::MAX
    &&& fits_i32(mw)
    &&& fits_i32(mh)
    &&& fits_i32(mw * 85)
    &&& if n == 0 {
        fits_i32(monitor.left + tdiv(mw, 2)) && fits_i32(monitor.top + tdiv(mh, 2))
    } else {
        let max_cols = spec_max_cols(mode, scale, mw);
        let (cols, rows) = spec_grid(n, max_cols);
        let cw = spec_card_width(mode, scale);
        let ch = spec_card_height(mode, scale);
        let gap = spec_gap(mode, scale);
        let width = span(cols, cw, gap) + pad * 2;
        let height = span(rows, ch, gap) + pad * 2;
        &&& fits_i32(n + max_cols)
        &&& fits_i32(n + rows)
        &&& fits_i32(cw * cols)
        &&& fits_i32(ch * rows)
        &&& fits_i32(gap * (rows - 1))
        &&& fits_i32(span(cols, cw, gap))
        &&& fits_i32(span(rows, ch, gap))
        &&& fits_i32(width)
        &&& fits_i32(height)
        &&& fits_i32(mw - width)
        &&& fits_i32(mh - height)
        &&& fits_i32(monitor.left + tdiv(mw - width, 2))
        &&& fits_i32(monitor.top + tdiv(mh - height, 2))
    }
}

/// Whether every value that laying out the overlay computes fits an `i32`.
pub open spec fn layout_fits(
    mode: SwitchAppsRenderMode,
    show_window_count: bool,
    overlay_scale: u32,
    window_counts: Seq<usize>,
    monitor: Rect,
) -> bool {
    let n = window_counts.len() as int;
    let scale = spec_scale(overlay_scale);
    let cols = spec_grid(n, spec_max_cols(mode, scale, monitor.right - monitor.left)).0;
    &&& grid_fits(mode, overlay_scale, n, monitor)
    &&& forall|i: int|
        0 <= i < n ==> #[trigger] dots_fit(
            show_window_count,
            spec_card_rect(mode, scale, cols, i),
            window_counts[i],
        )
}

/// Where the overlay's top-left corner goes on screen: centered on the monitor.
pub open spec fn spec_overlay_origin(
    mode: SwitchAppsRenderMode,
    overlay_scale: u32,
    n: int,
    monitor: Rect,
) -> (int, int) {
    let scale = spec_scale(overlay_scale);
    let mw = monitor.right - monitor.left;
    let mh = monitor.bottom - monitor.top;
    let pad = WINDOW_BORDER_SIZE as int;
    if n == 0 {
        (monitor.left + tdiv(mw, 2), monitor.top + tdiv(mh, 2))
    } else {
        let (cols, rows) = spec_grid(n, spec_max_cols(mode, scale, mw));
        let width = span(cols, spec_card_width(mode, scale), spec_gap(mode, scale)) + pad * 2;
        let height = span(rows, spec_card_height(mode, scale), spec_gap(mode, scale)) + pad * 2;
        (monitor.left + tdiv(mw - width, 2), monitor.top + tdiv(mh - height, 2))
    }
}

/// The layout `new` builds for these inputs.
pub open spec fn layout_matches(
    l: OverlayLayout,
    mode: SwitchAppsRenderMode,
    show_window_count: bool,
    overlay_scale: u32,
    window_counts: Seq<usize>,
    monitor: Rect,
) -> bool {
    let n = window_counts.len() as int;
    let scale = spec_scale(overlay_scale);
    let mw = monitor.right - monitor.left;
    let mh = monitor.bottom - monitor.top;
    let pad = WINDOW_BORDER_SIZE as int;
    &&& (l.x as int, l.y as int) == spec_overlay_origin(mode, overlay_scale, n, monitor)
    &&& if n == 0 {
        &&& l.width == pad * 2
        &&& l.height == pad * 2
        &&& l.content_rect == rect_of(pad, pad, pad, pad)
        &&& l.overlay_corner_radius == 0
        &&& l.card_corner_radius == 0
        &&& l.selected_outline_width == 0
        &&& l.entries@.len() == 0
    } else {
        let (cols, rows) = spec_grid(n, spec_max_cols(mode, scale, mw));
        let cw = spec_card_width(mode, scale);
        let ch = spec_card_height(mode, scale);
        let gap = spec_gap(mode, scale);
        let content_width = span(cols, cw, gap);
        let content_height = span(rows, ch, gap);
        let width = content_width + pad * 2;
        let height = content_height + pad * 2;
        &&& l.width == width
        &&& l.height == height
        &&& l.content_rect == rect_of(pad, pad, pad + content_width, pad + content_height)
        &&& l.overlay_corner_radius == match mode {
            SwitchAppsRenderMode::IconOnly => ch / 4,
            SwitchAppsRenderMode::Preview => if ch / 6 >= 10 {
                ch / 6
            } else {
                10
            },
        }
        &&& l.card_corner_radius == match mode {
            SwitchAppsRenderMode::IconOnly => ch / 4,
            SwitchAppsRenderMode::Preview => if ch / 8 >= 8 {
                ch / 8
            } else {
                8
            },
        }
        &&& l.selected_outline_width == (if scaled(SELECTED_CARD_OUTLINE_WIDTH as int, scale)
            >= 1 {
            scaled(SELECTED_CARD_OUTLINE_WIDTH as int, scale)
        } else {
            1
        })
        &&& l.entries@.len() == n
        &&& forall|i: int|
            0 <= i < n ==> entry_matches(
                #[trigger] l.entries@[i],
                mode,
                show_window_count,
                scale,
                cols,
                i,
                window_counts[i],
            )
    }
}


/// Facts about the grid shape: between one and `max_cols` columns, no more columns
/// than cards, at least one row, and room for every card.
pub proof fn lemma_grid_shape(n: int, max_cols: int)
    requires
        n >= 1,
        max_cols >= 1,
    ensures
        ({
            let (cols, rows) = spec_grid(n, max_cols);
            &&& 1 <= cols <= max_cols
            &&& cols <= n
            &&& rows >= 1
            &&& cols * rows >= n
            &&& rows <= n
        }),
{
    if n > max_cols {
        let m = max_cols;
        let rows = (n + m - 1) / m;
        vstd::arithmetic::div_mod::lemma_fundamental_div_mod(n + m - 1, m);
        vstd::arithmetic::div_mod::lemma_mod_pos_bound(n + m - 1, m);
        assert(rows * m >= n) by (nonlinear_arith)
            requires
                n + m - 1 == m * rows + (n + m - 1) % m,
                (n + m - 1) % m < m,
        ;
        assert(rows >= 1) by (nonlinear_arith)
            requires
                rows * m >= n,
                n > m,
                m >= 1,
        ;
        assert(rows <= n) by (nonlinear_arith)
            requires
                n + m - 1 == m * rows + (n + m - 1) % m,
                (n + m - 1) % m >= 0,
                m >= 1,
                n >= 1,
        ;
        let balanced = (n + rows - 1) / rows;
        vstd::arithmetic::div_mod::lemma_fundamental_div_mod(n + rows - 1, rows);
        vstd::arithmetic::div_mod::lemma_mod_pos_bound(n + rows - 1, rows);
        assert(balanced * rows >= n) by (nonlinear_arith)
            requires
                n + rows - 1 == rows * balanced + (n + rows - 1) % rows,
                (n + rows - 1) % rows < rows,
        ;
        assert(balanced <= m) by (nonlinear_arith)
            requires
                n + rows - 1 == rows * balanced + (n + rows - 1) % rows,
                (n + rows - 1) % rows >= 0,
                rows * m >= n,
                rows >= 1,
        ;
        assert(balanced >= 1) by (nonlinear_arith)
            requires
                balanced * rows >= n,
                n >= 1,
                rows >= 1,
        ;
        assert(balanced <= n) by (nonlinear_arith)
            requires
                n + rows - 1 == rows * balanced + (n + rows - 1) % rows,
                (n + rows - 1) % rows >= 0,
                rows >= 1,
                n >= 1,
        ;
    }
}

/// The row of entry `i` is within the grid.
proof fn lemma_row_in_grid(i: int, n: int, cols: int, rows: int)
    requires
        0 <= i < n,
        cols >= 1,
        cols * rows >= n,
    ensures
        0 <= i / cols < rows,
        0 <= i % cols < cols,
{
    vstd::arithmetic::div_mod::lemma_fundamental_div_mod(i, cols);
    vstd::arithmetic::div_mod::lemma_mod_pos_bound(i, cols);
    vstd::arithmetic::div_mod::lemma_div_pos_is_pos(i, cols);
    assert(i / cols < rows) by (nonlinear_arith)
        requires
            i == cols * (i / cols) + i % cols,
            i % cols >= 0,
            i < n,
            cols * rows >= n,
            cols >= 1,
    ;
}

/// The `k`th slot of a row or column starts within the span and ends before its end.
proof fn lemma_slot_in_span(k: int, count: int, card: int, gap: int)
    requires
        0 <= k < count,
        card >= 0,
        gap >= 0,
    ensures
        0 <= k * (card + gap),
        k * (card + gap) + card <= span(count, card, gap),
{
    assert(0 <= k * (card + gap)) by (nonlinear_arith)
        requires
            k >= 0,
            card + gap >= 0,
    ;
    assert(k * (card + gap) + card <= card * count + gap * (count - 1)) by (nonlinear_arith)
        requires
            0 <= k < count,
            card >= 0,
            gap >= 0,
    ;
}

fn clamp_scale(overlay_scale: u32) -> (r: i32)
    ensures
        r == spec_scale(overlay_scale),
{
    if overlay_scale < 50 {
        50
    } else if overlay_scale > 200 {
        200
    } else {
        overlay_scale as i32
    }
}

fn max_i32(a: i32, b: i32) -> (r: i32)
    ensures
        r == (if a >= b {
            a
        } else {
            b
        }),
{
    if a >= b {
        a
    } else {
        b
    }
}

fn min_i32(a: i32, b: i32) -> (r: i32)
    ensures
        r == (if a <= b {
            a
        } else {
            b
        }),
{
    if a <= b {
        a
    } else {
        b
    }
}

impl OverlayLayout {
    /// Lays out the overlay for apps with the given window counts on a monitor.
    pub fn new(
        render_mode: SwitchAppsRenderMode,
        show_window_count: bool,
        overlay_scale: u32,
        window_counts: &[usize],
        monitor_rect: Rect,
    ) -> (r: Self)
        requires
            layout_fits(render_mode, show_window_count, overlay_scale, window_counts@, monitor_rect),
        ensures
            layout_matches(r, render_mode, show_window_count, overlay_scale, window_counts@, monitor_rect),
    {
        let num_apps = window_counts.len();
        let monitor_width = monitor_rect.right - monitor_rect.left;
        let monitor_height = monitor_rect.bottom - monitor_rect.top;
        let outer_padding = WINDOW_BORDER_SIZE;
        let scale = clamp_scale(overlay_scale);
        let scaled_icon_size = (ICON_SIZE * scale) / 100;
        let scaled_icon_border = (ICON_BORDER_SIZE * scale) / 100;
        let scaled_preview_max_width = (PREVIEW_CARD_MAX_WIDTH * scale) / 100;
        let scaled_preview_gap = (PREVIEW_CARD_GAP * scale) / 100;
        let scaled_preview_padding = (PREVIEW_CARD_CONTENT_PADDING * scale) / 100;

        if num_apps == 0 {
            return OverlayLayout {
                x: monitor_rect.left + monitor_width / 2,
                y: monitor_rect.top + monitor_height / 2,
                width: outer_padding * 2,
                height: outer_padding * 2,
                content_rect: Rect {
                    left: outer_padding,
                    top: outer_padding,
                    right: outer_padding,
                    bottom: outer_padding,
                },
                overlay_corner_radius: 0,
                card_corner_radius: 0,
                selected_outline_width: 0,
                entries: Vec::new(),
            };
        }

        let gap = match render_mode {
            SwitchAppsRenderMode::IconOnly => 0,
            SwitchAppsRenderMode::Preview => scaled_preview_gap,
        };
        let desired_card_width = match render_mode {
            SwitchAppsRenderMode::IconOnly => scaled_icon_size + scaled_icon_border * 2,
            SwitchAppsRenderMode::Preview => scaled_preview_max_width,
        };
        let ghost s = scale as int;
        let ghost n = num_apps as int;
        assert(desired_card_width == spec_card_width(render_mode, s));
        assert(gap == spec_gap(render_mode, s));
        assert(desired_card_width >= 36 && desired_card_width <= 440);
        assert(0 <= gap <= 24);

        // Grid dimensions that fit within 85% of the monitor.
        let max_content_width = max_i32(monitor_width * 85 / 100, desired_card_width + outer_padding * 2)
            - outer_padding * 2;
        assert(max_content_width == spec_max_content_width(render_mode, s, monitor_width as int));
        let max_cols = if desired_card_width + gap <= 0 {
            num_apps as i32
        } else {
            max_i32((max_content_width + gap) / (desired_card_width + gap), 1)
        };
        assert(max_cols == spec_max_cols(render_mode, s, monitor_width as int));
        let napps = num_apps as i32;
        assert(napps == n);
        assert(n != 0);
        proof {
            lemma_grid_shape(n, max_cols as int);
        }
        assert(monitor_width == monitor_rect.right - monitor_rect.left);
        let (cols, rows) = if napps <= max_cols {
            (napps, 1i32)
        } else {
            let rows = (napps + max_cols - 1) / max_cols;
            assert(rows == spec_grid(n, max_cols as int).1);
            let balanced_cols = (napps + rows - 1) / rows;
            (max_i32(min_i32(balanced_cols, max_cols), 1), rows)
        };
        assert((cols as int, rows as int) == spec_grid(n, max_cols as int));

        let card_width = desired_card_width;
        let card_height = match render_mode {
            SwitchAppsRenderMode::IconOnly => card_width,
            SwitchAppsRenderMode::Preview => (card_width * PREVIEW_CARD_ASPECT_HEIGHT) / PREVIEW_CARD_ASPECT_WIDTH,
        };
        assert(card_height == spec_card_height(render_mode, s));
        assert(card_height >= 22);
        let row_gap = gap;
        let content_width = card_width * cols + gap * (cols - 1);
        let content_height = card_height * rows + row_gap * (rows - 1);
        let width = content_width + outer_padding * 2;
        let height = content_height + outer_padding * 2;
        let x = monitor_rect.left + (monitor_width - width) / 2;
        let y = monitor_rect.top + (monitor_height - height) / 2;
        let content_rect = Rect {
            left: outer_padding,
            top: outer_padding,
            right: outer_padding + content_width,
            bottom: outer_padding + content_height,
        };
        let preview_padding = match render_mode {
            SwitchAppsRenderMode::IconOnly => scaled_icon_border,
            SwitchAppsRenderMode::Preview => min_i32(
                min_i32(scaled_preview_padding, max_i32(card_width - 1, 0) / 2),
                max_i32(card_height - 1, 0) / 2,
            ),
        };
        assert(preview_padding == spec_preview_padding(render_mode, s));
        assert(0 <= preview_padding && preview_padding * 2 < card_height && preview_padding * 2 < card_width);

        let mut entries: Vec<OverlayEntryLayout> = Vec::new();
        let mut index: usize = 0;
        while index < num_apps
            invariant
                num_apps == window_counts@.len(),
                n == num_apps,
                n <= i32::MAX,
                content_rect.left == WINDOW_BORDER_SIZE,
                content_rect.top == WINDOW_BORDER_SIZE,
                row_gap == gap,
                s == spec_scale(overlay_scale),
                index <= num_apps,
                1 <= cols,
                cols * rows >= n,
                card_width == spec_card_width(render_mode, s),
                card_height == spec_card_height(render_mode, s),
                gap == spec_gap(render_mode, s),
                36 <= card_width <= 440,
                22 <= card_height,
                0 <= gap <= 24,
                preview_padding == spec_preview_padding(render_mode, s),
                0 <= preview_padding,
                preview_padding * 2 < card_height,
                preview_padding * 2 < card_width,
                scaled_icon_size == scaled(ICON_SIZE as int, s),
                fits_i32(span(cols as int, card_width as int, gap as int) + WINDOW_BORDER_SIZE * 2),
                fits_i32(span(rows as int, card_height as int, gap as int) + WINDOW_BORDER_SIZE * 2),
                span(cols as int, card_width as int, gap as int) >= 0,
                span(rows as int, card_height as int, gap as int) >= 0,
                forall|i: int|
                    0 <= i < n ==> #[trigger] dots_fit(
                        show_window_count,
                        spec_card_rect(render_mode, s, cols as int, i),
                        window_counts@[i],
                    ),
                entries@.len() == index,
                forall|i: int|
                    0 <= i < index ==> entry_matches(
                        #[trigger] entries@[i],
                        render_mode,
                        show_window_count,
                        s,
                        cols as int,
                        i,
                        window_counts@[i],
                    ),
            decreases num_apps - index,
        {
            let ghost i = index as int;
            proof {
                lemma_row_in_grid(i, n, cols as int, rows as int);
                lemma_slot_in_span(i % (cols as int), cols as int, card_width as int, gap as int);
                lemma_slot_in_span(i / (cols as int), rows as int, card_height as int, gap as int);
            }
            let col = index as i32 % cols;
            let row = index as i32 / cols;
            assert(col == i % (cols as int));
            assert(row == i / (cols as int));
            let left = content_rect.left + col * (card_width + gap);
            let top = content_rect.top + row * (card_height + row_gap);
            let card_rect = Rect { left, top, right: left + card_width, bottom: top + card_height };
            assert(card_rect == spec_card_rect(render_mode, s, cols as int, i));
            let preview_rect = inset_rect(card_rect, preview_padding);
            let icon_size = min_i32(
                min_i32(scaled_icon_size, rect_width(&preview_rect)),
                rect_height(&preview_rect),
            );
            assert(icon_size == spec_icon_size(s, preview_rect));
            let dots = dot_indicator_layout(show_window_count, card_rect, window_counts[index]);
            let icon_rect = centered_rect(preview_rect, icon_size, icon_size);
            entries.push(OverlayEntryLayout { card_rect, preview_rect, icon_rect, dots });
            index = index + 1;
        }

        let overlay_corner_radius = match render_mode {
            SwitchAppsRenderMode::IconOnly => card_height / 4,
            SwitchAppsRenderMode::Preview => max_i32(card_height / 6, 10),
        };
        let card_corner_radius = match render_mode {
            SwitchAppsRenderMode::IconOnly => card_height / 4,
            SwitchAppsRenderMode::Preview => max_i32(card_height / 8, 8),
        };
        OverlayLayout {
            x,
            y,
            width,
            height,
            content_rect,
            overlay_corner_radius,
            card_corner_radius,
            selected_outline_width: max_i32((SELECTED_CARD_OUTLINE_WIDTH * scale) / 100, 1),
            entries,
        }
    }
}


// ---------------------------------------------------------------------------
// Hit testing

/// The first entry at or after `k` whose card contains the point.
pub open spec fn spec_hit_test_from(entries: Seq<OverlayEntryLayout>, x: int, y: int, k: int) -> Option<
    usize,
>
    decreases entries.len() - k,
{
    if k < 0 || k >= entries.len() {
        None
    } else if spec_point_in_rect(entries[k].card_rect, x, y) {
        Some(k as usize)
    } else {
        spec_hit_test_from(entries, x, y, k + 1)
    }
}

/// The first entry whose card contains the point, if any.
pub open spec fn spec_hit_test(entries: Seq<OverlayEntryLayout>, x: int, y: int) -> Option<usize> {
    spec_hit_test_from(entries, x, y, 0)
}

/// The app whose card is under the point `(xpos, ypos)`, given relative to the
/// overlay's top-left corner.
pub fn hit_test_app_index(layout: &OverlayLayout, xpos: i32, ypos: i32) -> (r: Option<usize>)
    ensures
        r == spec_hit_test(layout.entries@, xpos as int, ypos as int),
{
    let n = layout.entries.len();
    let mut i: usize = 0;
    while i < n
        invariant
            n == layout.entries@.len(),
            i <= n,
            spec_hit_test(layout.entries@, xpos as int, ypos as int) == spec_hit_test_from(
                layout.entries@,
                xpos as int,
                ypos as int,
                i as int,
            ),
        decreases n - i,
    {
        if point_in_rect(&layout.entries[i].card_rect, xpos, ypos) {
            return Some(i);
        }
        i = i + 1;
    }
    None
}

/// The window counts of the apps, in order.
pub open spec fn spec_window_counts(state: SwitchAppsState) -> Seq<usize> {
    Seq::new(state.apps@.len(), |i: int| state.apps@[i].windows.len())
}

/// The window counts of the switcher's apps, in order.
pub fn window_counts(state: &SwitchAppsState) -> (r: Vec<usize>)
    ensures
        r@ == spec_window_counts(*state),
{
    let mut counts: Vec<usize> = Vec::new();
    let mut i: usize = 0;
    while i < state.apps.len()
        invariant
            i <= state.apps@.len(),
            counts@ == spec_window_counts(*state).subrange(0, i as int),
        decreases state.apps@.len() - i,
    {
        counts.push(state.apps[i].windows.len());
        i = i + 1;
        assert(counts@ =~= spec_window_counts(*state).subrange(0, i as int));
    }
    assert(counts@ =~= spec_window_counts(*state));
    counts
}

impl OverlayLayout {
    /// Lays out the overlay for the switcher's current apps on the given monitor.
    pub fn for_state(state: &SwitchAppsState, monitor_rect: Rect) -> (r: Self)
        requires
            layout_fits(
                state.render_mode,
                state.show_window_count,
                state.overlay_scale,
                spec_window_counts(*state),
                monitor_rect,
            ),
        ensures
            layout_matches(
                r,
                state.render_mode,
                state.show_window_count,
                state.overlay_scale,
                spec_window_counts(*state),
                monitor_rect,
            ),
    {
        let window_counts = window_counts(state);
        Self::new(
            state.render_mode,
            state.show_window_count,
            state.overlay_scale,
            window_counts.as_slice(),
            monitor_rect,
        )
    }
}

/// Whether the cursor, taken relative to the overlay, stays within `i32`.
pub open spec fn cursor_fits(state: SwitchAppsState, monitor_rect: Rect, cursor: Point) -> bool {
    let (x, y) = spec_overlay_origin(
        state.render_mode,
        state.overlay_scale,
        state.apps@.len() as int,
        monitor_rect,
    );
    fits_i32(cursor.x - x) && fits_i32(cursor.y - y)
}

/// The app whose card is under the cursor, for the overlay laid out on the given
/// monitor.
pub fn find_clicked_app_index(state: &SwitchAppsState, monitor_rect: Rect, cursor: Point) -> (r:
    Option<usize>)
    requires
        layout_fits(
            state.render_mode,
            state.show_window_count,
            state.overlay_scale,
            spec_window_counts(*state),
            monitor_rect,
        ),
        cursor_fits(*state, monitor_rect, cursor),
    ensures
        exists|l: OverlayLayout|
            layout_matches(
                l,
                state.render_mode,
                state.show_window_count,
                state.overlay_scale,
                spec_window_counts(*state),
                monitor_rect,
            ) && r == #[trigger] spec_hit_test(l.entries@, cursor.x - l.x, cursor.y - l.y),
{
    let layout = OverlayLayout::for_state(state, monitor_rect);
    let xpos = cursor.x - layout.x;
    let ypos = cursor.y - layout.y;
    hit_test_app_index(&layout, xpos, ypos)
}


// ---------------------------------------------------------------------------
// Laws of the layout

/// The grid's columns and rows for `n` apps.
pub open spec fn spec_grid_for(
    mode: SwitchAppsRenderMode,
    overlay_scale: u32,
    n: int,
    monitor: Rect,
) -> (int, int) {
    spec_grid(n, spec_max_cols(mode, spec_scale(overlay_scale), monitor.right - monitor.left))
}

/// Card `i` spans slot `i mod cols` horizontally and slot `i div cols` vertically,
/// inside the card area.
proof fn lemma_card_edges(
    mode: SwitchAppsRenderMode,
    show_window_count: bool,
    overlay_scale: u32,
    window_counts: Seq<usize>,
    monitor: Rect,
    i: int,
)
    requires
        grid_fits(mode, overlay_scale, window_counts.len() as int, monitor),
        0 <= i < window_counts.len(),
    ensures
        ({
            let n = window_counts.len() as int;
            let scale = spec_scale(overlay_scale);
            let (cols, rows) = spec_grid_for(mode, overlay_scale, n, monitor);
            let cw = spec_card_width(mode, scale);
            let ch = spec_card_height(mode, scale);
            let gap = spec_gap(mode, scale);
            let card = spec_card_rect(mode, scale, cols, i);
            &&& 1 <= cols && 1 <= rows && cols * rows >= n
            &&& cw >= 36 && ch >= 22 && gap >= 0
            &&& 0 <= i % cols < cols && 0 <= i / cols < rows
            &&& card.left == WINDOW_BORDER_SIZE + (i % cols) * (cw + gap)
            &&& card.top == WINDOW_BORDER_SIZE + (i / cols) * (ch + gap)
            &&& card.right == card.left + cw
            &&& card.bottom == card.top + ch
            &&& WINDOW_BORDER_SIZE <= card.left
            &&& card.right <= WINDOW_BORDER_SIZE + span(cols, cw, gap)
            &&& WINDOW_BORDER_SIZE <= card.top
            &&& card.bottom <= WINDOW_BORDER_SIZE + span(rows, ch, gap)
        }),
{
    let n = window_counts.len() as int;
    let scale = spec_scale(overlay_scale);
    let mw = monitor.right - monitor.left;
    let max_cols = spec_max_cols(mode, scale, mw);
    let (cols, rows) = spec_grid(n, max_cols);
    let cw = spec_card_width(mode, scale);
    let ch = spec_card_height(mode, scale);
    let gap = spec_gap(mode, scale);
    lemma_grid_shape(n, max_cols);
    lemma_row_in_grid(i, n, cols, rows);
    lemma_slot_in_span(i % cols, cols, cw, gap);
    lemma_slot_in_span(i / cols, rows, ch, gap);
}

/// Two distinct slots of a row (or column) never share a coordinate.
proof fn lemma_slots_disjoint(a: int, b: int, size: int, gap: int, p: int)
    requires
        a >= 0,
        b >= 0,
        a != b,
        size >= 0,
        gap >= 0,
        a * (size + gap) <= p < a * (size + gap) + size,
    ensures
        !(b * (size + gap) <= p < b * (size + gap) + size),
{
    if a < b {
        assert(b * (size + gap) >= a * (size + gap) + size + gap) by (nonlinear_arith)
            requires
                a < b,
                size + gap >= 0,
        ;
    } else {
        assert(a * (size + gap) >= b * (size + gap) + size + gap) by (nonlinear_arith)
            requires
                b < a,
                size + gap >= 0,
        ;
    }
}

/// Cards never overlap: a point in one app's card lies in no other card.
pub proof fn lemma_cards_disjoint(
    l: OverlayLayout,
    mode: SwitchAppsRenderMode,
    show_window_count: bool,
    overlay_scale: u32,
    window_counts: Seq<usize>,
    monitor: Rect,
    i: int,
    j: int,
    x: int,
    y: int,
)
    requires
        layout_fits(mode, show_window_count, overlay_scale, window_counts, monitor),
        layout_matches(l, mode, show_window_count, overlay_scale, window_counts, monitor),
        0 <= i < window_counts.len(),
        0 <= j < window_counts.len(),
        i != j,
        spec_point_in_rect(l.entries@[i].card_rect, x, y),
    ensures
        !spec_point_in_rect(l.entries@[j].card_rect, x, y),
{
    let n = window_counts.len() as int;
    let scale = spec_scale(overlay_scale);
    let (cols, rows) = spec_grid_for(mode, overlay_scale, n, monitor);
    let cw = spec_card_width(mode, scale);
    let ch = spec_card_height(mode, scale);
    let gap = spec_gap(mode, scale);
    lemma_card_edges(mode, show_window_count, overlay_scale, window_counts, monitor, i);
    lemma_card_edges(mode, show_window_count, overlay_scale, window_counts, monitor, j);
    assert(entry_matches(l.entries@[i], mode, show_window_count, scale, cols, i, window_counts[i]));
    assert(entry_matches(l.entries@[j], mode, show_window_count, scale, cols, j, window_counts[j]));
    let pad = WINDOW_BORDER_SIZE as int;
    if i % cols != j % cols {
        lemma_slots_disjoint(i % cols, j % cols, cw, gap, x - pad);
    } else {
        vstd::arithmetic::div_mod::lemma_fundamental_div_mod(i, cols);
        vstd::arithmetic::div_mod::lemma_fundamental_div_mod(j, cols);
        if i / cols == j / cols {
            assert(false);
        }
        lemma_slots_disjoint(i / cols, j / cols, ch, gap, y - pad);
    }
}

/// Hit testing finds the app whose card was clicked, for every point of every card.
pub proof fn lemma_hit_test_finds_card(
    l: OverlayLayout,
    mode: SwitchAppsRenderMode,
    show_window_count: bool,
    overlay_scale: u32,
    window_counts: Seq<usize>,
    monitor: Rect,
    i: int,
    x: int,
    y: int,
)
    requires
        layout_fits(mode, show_window_count, overlay_scale, window_counts, monitor),
        layout_matches(l, mode, show_window_count, overlay_scale, window_counts, monitor),
        0 <= i < window_counts.len(),
        spec_point_in_rect(l.entries@[i].card_rect, x, y),
    ensures
        spec_hit_test(l.entries@, x, y) == Some(i as usize),
{
    lemma_hit_test_from_finds_card(l, mode, show_window_count, overlay_scale, window_counts, monitor, i, x, y, 0);
}

proof fn lemma_hit_test_from_finds_card(
    l: OverlayLayout,
    mode: SwitchAppsRenderMode,
    show_window_count: bool,
    overlay_scale: u32,
    window_counts: Seq<usize>,
    monitor: Rect,
    i: int,
    x: int,
    y: int,
    k: int,
)
    requires
        layout_fits(mode, show_window_count, overlay_scale, window_counts, monitor),
        layout_matches(l, mode, show_window_count, overlay_scale, window_counts, monitor),
        0 <= i < window_counts.len(),
        0 <= k <= i,
        spec_point_in_rect(l.entries@[i].card_rect, x, y),
    ensures
        spec_hit_test_from(l.entries@, x, y, k) == Some(i as usize),
    decreases i - k,
{
    if k < i {
        lemma_cards_disjoint(l, mode, show_window_count, overlay_scale, window_counts, monitor, i, k, x, y);
        lemma_hit_test_from_finds_card(l, mode, show_window_count, overlay_scale, window_counts, monitor, i, x, y, k + 1);
    }
}

/// Every card lies inside the overlay's card area.
pub proof fn lemma_cards_within_content(
    l: OverlayLayout,
    mode: SwitchAppsRenderMode,
    show_window_count: bool,
    overlay_scale: u32,
    window_counts: Seq<usize>,
    monitor: Rect,
    i: int,
)
    requires
        layout_fits(mode, show_window_count, overlay_scale, window_counts, monitor),
        layout_matches(l, mode, show_window_count, overlay_scale, window_counts, monitor),
        0 <= i < window_counts.len(),
    ensures
        l.content_rect.left <= l.entries@[i].card_rect.left < l.entries@[i].card_rect.right
            <= l.content_rect.right,
        l.content_rect.top <= l.entries@[i].card_rect.top < l.entries@[i].card_rect.bottom
            <= l.content_rect.bottom,
        l.content_rect.right + WINDOW_BORDER_SIZE == l.width,
        l.content_rect.bottom + WINDOW_BORDER_SIZE == l.height,
{
    let n = window_counts.len() as int;
    let scale = spec_scale(overlay_scale);
    let (cols, rows) = spec_grid_for(mode, overlay_scale, n, monitor);
    lemma_card_edges(mode, show_window_count, overlay_scale, window_counts, monitor, i);
    assert(entry_matches(l.entries@[i], mode, show_window_count, scale, cols, i, window_counts[i]));
}

/// The overlay is never wider than 85% of the monitor, unless a single card is
/// wider than that; then it is exactly one card wide.
pub proof fn lemma_overlay_width_bounded(
    l: OverlayLayout,
    mode: SwitchAppsRenderMode,
    show_window_count: bool,
    overlay_scale: u32,
    window_counts: Seq<usize>,
    monitor: Rect,
)
    requires
        layout_fits(mode, show_window_count, overlay_scale, window_counts, monitor),
        layout_matches(l, mode, show_window_count, overlay_scale, window_counts, monitor),
        window_counts.len() > 0,
    ensures
        ({
            let limit = tdiv((monitor.right - monitor.left) * 85, 100);
            let one_card = spec_card_width(mode, spec_scale(overlay_scale)) + WINDOW_BORDER_SIZE * 2;
            l.width <= (if limit >= one_card {
                limit
            } else {
                one_card
            })
        }),
{
    let n = window_counts.len() as int;
    let scale = spec_scale(overlay_scale);
    let mw = monitor.right - monitor.left;
    let max_cols = spec_max_cols(mode, scale, mw);
    let (cols, rows) = spec_grid(n, max_cols);
    let cw = spec_card_width(mode, scale);
    let gap = spec_gap(mode, scale);
    let m = spec_max_content_width(mode, scale, mw);
    lemma_grid_shape(n, max_cols);
    let q = (m + gap) / (cw + gap);
    assert(cw >= 36 && gap >= 0);
    assert(m >= cw);
    vstd::arithmetic::div_mod::lemma_fundamental_div_mod(m + gap, cw + gap);
    vstd::arithmetic::div_mod::lemma_mod_pos_bound(m + gap, cw + gap);
    assert(span(max_cols, cw, gap) <= m) by (nonlinear_arith)
        requires
            m + gap == (cw + gap) * q + (m + gap) % (cw + gap),
            (m + gap) % (cw + gap) >= 0,
            max_cols == (if q >= 1 {
                q
            } else {
                1
            }),
            m >= cw,
            cw >= 0,
            gap >= 0,
            span(max_cols, cw, gap) == cw * max_cols + gap * (max_cols - 1),
    ;
    assert(span(cols, cw, gap) <= span(max_cols, cw, gap)) by (nonlinear_arith)
        requires
            1 <= cols <= max_cols,
            cw >= 0,
            gap >= 0,
            span(cols, cw, gap) == cw * cols + gap * (cols - 1),
            span(max_cols, cw, gap) == cw * max_cols + gap * (max_cols - 1),
    ;
}

/// The overlay of one or more apps is centered on the monitor: when it is no larger
/// than the monitor it lies entirely on it, with the slack split evenly (the odd
/// pixel on the right or bottom).
pub proof fn lemma_overlay_centered_on_monitor(
    l: OverlayLayout,
    mode: SwitchAppsRenderMode,
    show_window_count: bool,
    overlay_scale: u32,
    window_counts: Seq<usize>,
    monitor: Rect,
)
    requires
        layout_fits(mode, show_window_count, overlay_scale, window_counts, monitor),
        layout_matches(l, mode, show_window_count, overlay_scale, window_counts, monitor),
        window_counts.len() > 0,
        l.width <= monitor.right - monitor.left,
        l.height <= monitor.bottom - monitor.top,
    ensures
        monitor.left <= l.x,
        l.x + l.width <= monitor.right,
        monitor.top <= l.y,
        l.y + l.height <= monitor.bottom,
        (l.x - monitor.left) <= (monitor.right - (l.x + l.width)) <= (l.x - monitor.left) + 1,
        (l.y - monitor.top) <= (monitor.bottom - (l.y + l.height)) <= (l.y - monitor.top) + 1,
{
}

/// Inside every card the thumbnail area lies strictly within the card and the icon
/// square, no larger than the scaled icon size, lies within the thumbnail area.
pub proof fn lemma_icon_within_preview_within_card(
    l: OverlayLayout,
    mode: SwitchAppsRenderMode,
    show_window_count: bool,
    overlay_scale: u32,
    window_counts: Seq<usize>,
    monitor: Rect,
    i: int,
)
    requires
        layout_fits(mode, show_window_count, overlay_scale, window_counts, monitor),
        layout_matches(l, mode, show_window_count, overlay_scale, window_counts, monitor),
        0 <= i < window_counts.len(),
    ensures
        ({
            let e = l.entries@[i];
            &&& e.card_rect.left < e.preview_rect.left <= e.icon_rect.left <= e.icon_rect.right
                <= e.preview_rect.right < e.card_rect.right
            &&& e.card_rect.top < e.preview_rect.top <= e.icon_rect.top <= e.icon_rect.bottom
                <= e.preview_rect.bottom < e.card_rect.bottom
            &&& e.preview_rect.left < e.preview_rect.right
            &&& e.preview_rect.top < e.preview_rect.bottom
            &&& spec_width(e.icon_rect) == spec_height(e.icon_rect)
            &&& 1 <= spec_width(e.icon_rect) <= scaled(ICON_SIZE as int, spec_scale(overlay_scale))
        }),
{
    let n = window_counts.len() as int;
    let scale = spec_scale(overlay_scale);
    let (cols, rows) = spec_grid_for(mode, overlay_scale, n, monitor);
    lemma_card_edges(mode, show_window_count, overlay_scale, window_counts, monitor, i);
    assert(entry_matches(l.entries@[i], mode, show_window_count, scale, cols, i, window_counts[i]));
    let p = spec_preview_padding(mode, scale);
    assert(1 <= p && p * 2 < spec_card_width(mode, scale) && p * 2 < spec_card_height(mode, scale));
}

/// The dots are spread symmetrically about the card's horizontal center, in a row
/// inside the card; for an odd count the middle dot sits on the center.
pub proof fn lemma_dots_centered(show_window_count: bool, card: Rect, window_count: usize, k: int)
    requires
        dots_fit(show_window_count, card, window_count),
        show_window_count,
        window_count > 1,
        0 <= k < window_count,
    ensures
        ({
            let d = spec_dots(show_window_count, card, window_count)->0;
            let c = window_count as int;
            &&& d.centers.len() == c
            &&& d.centers[k].0 + d.centers[c - 1 - k].0 == 2 * tdiv(card.left + card.right, 2)
            &&& d.centers[k].1 == card.bottom - DOT_BOTTOM_INSET - DOT_RADIUS
        }),
{
    let c = window_count as int;
    let start = spec_dots_start_x(card, c);
    assert(spec_dots_total_width(c) == 14 * c - 8) by (nonlinear_arith)
        requires
            spec_dots_total_width(c) == 3 * 2 * c + 8 * (c - 1),
    ;
    assert(tdiv(14 * c - 8, 2) == 7 * c - 4);
    assert(0 <= k * 14 <= (c - 1) * 14) by (nonlinear_arith)
        requires
            0 <= k < c,
    ;
    assert(0 <= (c - 1 - k) * 14 <= (c - 1) * 14) by (nonlinear_arith)
        requires
            0 <= k < c,
    ;
    assert(k * 14 + (c - 1 - k) * 14 == (c - 1) * 14) by (nonlinear_arith);
}


/// The overlay's card area is the overlay inset by the border on every side.
pub proof fn lemma_content_rect_is_inset_overlay(
    l: OverlayLayout,
    mode: SwitchAppsRenderMode,
    show_window_count: bool,
    overlay_scale: u32,
    window_counts: Seq<usize>,
    monitor: Rect,
)
    requires
        layout_fits(mode, show_window_count, overlay_scale, window_counts, monitor),
        layout_matches(l, mode, show_window_count, overlay_scale, window_counts, monitor),
    ensures
        l.content_rect == rect_of(
            WINDOW_BORDER_SIZE as int,
            WINDOW_BORDER_SIZE as int,
            l.width - WINDOW_BORDER_SIZE,
            l.height - WINDOW_BORDER_SIZE,
        ),
{
}

/// All cards have the same size, one card width by one card height, and they are
/// laid out row by row: a later app's card is in a lower row, or in the same row
/// further right.
pub proof fn lemma_cards_uniform_row_major(
    l: OverlayLayout,
    mode: SwitchAppsRenderMode,
    show_window_count: bool,
    overlay_scale: u32,
    window_counts: Seq<usize>,
    monitor: Rect,
    i: int,
    j: int,
)
    requires
        layout_fits(mode, show_window_count, overlay_scale, window_counts, monitor),
        layout_matches(l, mode, show_window_count, overlay_scale, window_counts, monitor),
        0 <= i < j < window_counts.len(),
    ensures
        ({
            let scale = spec_scale(overlay_scale);
            let a = l.entries@[i].card_rect;
            let b = l.entries@[j].card_rect;
            &&& spec_width(a) == spec_card_width(mode, scale) == spec_width(b)
            &&& spec_height(a) == spec_card_height(mode, scale) == spec_height(b)
            &&& (a.top < b.top || (a.top == b.top && a.left < b.left))
        }),
{
    let n = window_counts.len() as int;
    let scale = spec_scale(overlay_scale);
    let (cols, rows) = spec_grid_for(mode, overlay_scale, n, monitor);
    let cw = spec_card_width(mode, scale);
    let ch = spec_card_height(mode, scale);
    let gap = spec_gap(mode, scale);
    lemma_card_edges(mode, show_window_count, overlay_scale, window_counts, monitor, i);
    lemma_card_edges(mode, show_window_count, overlay_scale, window_counts, monitor, j);
    assert(entry_matches(l.entries@[i], mode, show_window_count, scale, cols, i, window_counts[i]));
    assert(entry_matches(l.entries@[j], mode, show_window_count, scale, cols, j, window_counts[j]));
    vstd::arithmetic::div_mod::lemma_div_is_ordered(i, j, cols);
    vstd::arithmetic::div_mod::lemma_fundamental_div_mod(i, cols);
    vstd::arithmetic::div_mod::lemma_fundamental_div_mod(j, cols);
    if i / cols == j / cols {
        assert(i % cols < j % cols);
        assert((i % cols) * (cw + gap) < (j % cols) * (cw + gap)) by (nonlinear_arith)
            requires
                i % cols < j % cols,
                cw + gap > 0,
        ;
    } else {
        assert((i / cols) * (ch + gap) < (j / cols) * (ch + gap)) by (nonlinear_arith)
            requires
                i / cols < j / cols,
                ch + gap > 0,
        ;
    }
}

/// A base size scaled by a percentage never shrinks as the percentage grows.
proof fn lemma_scaled_monotone(base: int, a: int, b: int)
    requires
        0 <= base,
        a <= b,
    ensures
        scaled(base, a) <= scaled(base, b),
{
    assert(base * a <= base * b) by (nonlinear_arith)
        requires
            0 <= base,
            a <= b,
    ;
    vstd::arithmetic::div_mod::lemma_div_is_ordered(base * a, base * b, 100);
}

/// A configured scale is laid out exactly as the same scale clamped to `50..=200`.
pub proof fn lemma_scale_is_clamped(
    l: OverlayLayout,
    mode: SwitchAppsRenderMode,
    show_window_count: bool,
    overlay_scale: u32,
    window_counts: Seq<usize>,
    monitor: Rect,
)
    ensures
        ({
            let clamped: u32 = if overlay_scale < 50 {
                50
            } else if overlay_scale > 200 {
                200
            } else {
                overlay_scale
            };
            &&& spec_scale(overlay_scale) == clamped
            &&& layout_fits(mode, show_window_count, overlay_scale, window_counts, monitor)
                == layout_fits(mode, show_window_count, clamped, window_counts, monitor)
            &&& layout_matches(l, mode, show_window_count, overlay_scale, window_counts, monitor)
                == layout_matches(l, mode, show_window_count, clamped, window_counts, monitor)
        }),
{
    let clamped: u32 = if overlay_scale < 50 {
        50
    } else if overlay_scale > 200 {
        200
    } else {
        overlay_scale
    };
    assert(spec_scale(overlay_scale) == spec_scale(clamped));
}

/// Adding at least a hundred to a non-negative value raises its hundredths.
proof fn lemma_hundredths_step(x: int, y: int)
    requires
        0 <= x,
        x + 100 <= y,
    ensures
        x / 100 + 1 <= y / 100,
{
    vstd::arithmetic::div_mod::lemma_div_is_ordered(x + 100, y, 100);
    vstd::arithmetic::div_mod::lemma_fundamental_div_mod(x, 100);
    vstd::arithmetic::div_mod::lemma_fundamental_div_mod_converse(x + 100, 100, x / 100 + 1, x % 100);
}

/// A larger overlay scale never gives smaller cards or a thinner selection outline,
/// and the outline is always at least one pixel wide. Two or more percent more of
/// clamped scale gives strictly wider cards.
pub proof fn lemma_larger_scale_never_shrinks(
    small: OverlayLayout,
    large: OverlayLayout,
    mode: SwitchAppsRenderMode,
    show_window_count: bool,
    a: u32,
    b: u32,
    window_counts: Seq<usize>,
    monitor: Rect,
    i: int,
)
    requires
        a <= b,
        layout_fits(mode, show_window_count, a, window_counts, monitor),
        layout_matches(small, mode, show_window_count, a, window_counts, monitor),
        layout_fits(mode, show_window_count, b, window_counts, monitor),
        layout_matches(large, mode, show_window_count, b, window_counts, monitor),
        0 <= i < window_counts.len(),
    ensures
        spec_width(small.entries@[i].card_rect) <= spec_width(large.entries@[i].card_rect),
        spec_height(small.entries@[i].card_rect) <= spec_height(large.entries@[i].card_rect),
        1 <= small.selected_outline_width <= large.selected_outline_width,
        spec_scale(a) + 2 <= spec_scale(b) ==> spec_width(small.entries@[i].card_rect) < spec_width(
            large.entries@[i].card_rect,
        ),
{
    let n = window_counts.len() as int;
    let sa = spec_scale(a);
    let sb = spec_scale(b);
    let cols_a = spec_grid_for(mode, a, n, monitor).0;
    let cols_b = spec_grid_for(mode, b, n, monitor).0;
    lemma_card_edges(mode, show_window_count, a, window_counts, monitor, i);
    lemma_card_edges(mode, show_window_count, b, window_counts, monitor, i);
    assert(entry_matches(small.entries@[i], mode, show_window_count, sa, cols_a, i, window_counts[i]));
    assert(entry_matches(large.entries@[i], mode, show_window_count, sb, cols_b, i, window_counts[i]));
    assert(sa <= sb);
    lemma_scaled_monotone(ICON_SIZE as int, sa, sb);
    lemma_scaled_monotone(ICON_BORDER_SIZE as int, sa, sb);
    lemma_scaled_monotone(PREVIEW_CARD_MAX_WIDTH as int, sa, sb);
    lemma_scaled_monotone(SELECTED_CARD_OUTLINE_WIDTH as int, sa, sb);
    let wa = spec_card_width(mode, sa);
    let wb = spec_card_width(mode, sb);
    assert(wa <= wb);
    assert(wa * 10 <= wb * 10);
    vstd::arithmetic::div_mod::lemma_div_is_ordered(wa * 10, wb * 10, 16);
    if sa + 2 <= sb {
        lemma_hundredths_step(ICON_SIZE * sa, ICON_SIZE * sb);
        lemma_hundredths_step(PREVIEW_CARD_MAX_WIDTH * sa, PREVIEW_CARD_MAX_WIDTH * sb);
        assert(wa < wb);
    }
}

/// Turning on the window-count dots moves nothing: the overlay, its card area, its
/// radii and outline, and every card, thumbnail area and icon are where they are
/// without dots. Dots appear exactly for the apps with more than one window, one
/// dot per window.
pub proof fn lemma_dots_never_move_cards(
    l: OverlayLayout,
    plain: OverlayLayout,
    mode: SwitchAppsRenderMode,
    show_window_count: bool,
    overlay_scale: u32,
    window_counts: Seq<usize>,
    monitor: Rect,
)
    requires
        layout_fits(mode, show_window_count, overlay_scale, window_counts, monitor),
        layout_matches(l, mode, show_window_count, overlay_scale, window_counts, monitor),
        layout_matches(plain, mode, false, overlay_scale, window_counts, monitor),
    ensures
        l.x == plain.x,
        l.y == plain.y,
        l.width == plain.width,
        l.height == plain.height,
        l.content_rect == plain.content_rect,
        l.overlay_corner_radius == plain.overlay_corner_radius,
        l.card_corner_radius == plain.card_corner_radius,
        l.selected_outline_width == plain.selected_outline_width,
        l.entries@.len() == window_counts.len(),
        plain.entries@.len() == window_counts.len(),
        forall|k: int|
            #![trigger l.entries@[k]]
            0 <= k < window_counts.len() ==> {
                &&& l.entries@[k].card_rect == plain.entries@[k].card_rect
                &&& l.entries@[k].preview_rect == plain.entries@[k].preview_rect
                &&& l.entries@[k].icon_rect == plain.entries@[k].icon_rect
                &&& plain.entries@[k].dots is None
                &&& (l.entries@[k].dots is Some <==> show_window_count && window_counts[k] > 1)
                &&& (l.entries@[k].dots matches Some(d) ==> d.centers@.len() == window_counts[k]
                    && d.radius == DOT_RADIUS)
            },
{
    let n = window_counts.len() as int;
    let scale = spec_scale(overlay_scale);
    let cols = spec_grid_for(mode, overlay_scale, n, monitor).0;
    assert forall|k: int|
        #![trigger l.entries@[k]]
        0 <= k < n implies {
            &&& l.entries@[k].card_rect == plain.entries@[k].card_rect
            &&& l.entries@[k].preview_rect == plain.entries@[k].preview_rect
            &&& l.entries@[k].icon_rect == plain.entries@[k].icon_rect
            &&& plain.entries@[k].dots is None
            &&& (l.entries@[k].dots is Some <==> show_window_count && window_counts[k] > 1)
            &&& (l.entries@[k].dots matches Some(d) ==> d.centers@.len() == window_counts[k]
                && d.radius == DOT_RADIUS)
        } by {
        assert(entry_matches(l.entries@[k], mode, show_window_count, scale, cols, k, window_counts[k]));
        assert(entry_matches(plain.entries@[k], mode, false, scale, cols, k, window_counts[k]));
    }
}

/// Preview cards are wider than they are tall, and wider than icon cards at the
/// same scale.
pub proof fn lemma_preview_cards_wider(
    previews: OverlayLayout,
    icons: OverlayLayout,
    show_window_count: bool,
    overlay_scale: u32,
    window_counts: Seq<usize>,
    monitor: Rect,
    i: int,
)
    requires
        layout_fits(SwitchAppsRenderMode::Preview, show_window_count, overlay_scale, window_counts, monitor),
        layout_matches(previews, SwitchAppsRenderMode::Preview, show_window_count, overlay_scale, window_counts, monitor),
        layout_fits(SwitchAppsRenderMode::IconOnly, show_window_count, overlay_scale, window_counts, monitor),
        layout_matches(icons, SwitchAppsRenderMode::IconOnly, show_window_count, overlay_scale, window_counts, monitor),
        0 <= i < window_counts.len(),
    ensures
        spec_width(previews.entries@[i].card_rect) > spec_height(previews.entries@[i].card_rect),
        spec_width(previews.entries@[i].card_rect) > spec_width(icons.entries@[i].card_rect),
{
    let n = window_counts.len() as int;
    let s = spec_scale(overlay_scale);
    let p = SwitchAppsRenderMode::Preview;
    let ic = SwitchAppsRenderMode::IconOnly;
    let cols_p = spec_grid_for(p, overlay_scale, n, monitor).0;
    let cols_i = spec_grid_for(ic, overlay_scale, n, monitor).0;
    lemma_card_edges(p, show_window_count, overlay_scale, window_counts, monitor, i);
    lemma_card_edges(ic, show_window_count, overlay_scale, window_counts, monitor, i);
    assert(entry_matches(previews.entries@[i], p, show_window_count, s, cols_p, i, window_counts[i]));
    assert(entry_matches(icons.entries@[i], ic, show_window_count, s, cols_i, i, window_counts[i]));
    let w = spec_card_width(p, s);
    let icon = scaled(ICON_SIZE as int, s);
    let border = scaled(ICON_BORDER_SIZE as int, s);
    vstd::arithmetic::div_mod::lemma_fundamental_div_mod(PREVIEW_CARD_MAX_WIDTH * s, 100);
    vstd::arithmetic::div_mod::lemma_fundamental_div_mod(ICON_SIZE * s, 100);
    vstd::arithmetic::div_mod::lemma_fundamental_div_mod(ICON_BORDER_SIZE * s, 100);
    vstd::arithmetic::div_mod::lemma_mod_pos_bound(PREVIEW_CARD_MAX_WIDTH * s, 100);
    vstd::arithmetic::div_mod::lemma_mod_pos_bound(ICON_SIZE * s, 100);
    vstd::arithmetic::div_mod::lemma_mod_pos_bound(ICON_BORDER_SIZE * s, 100);
    assert(w > icon + border * 2) by (nonlinear_arith)
        requires
            220 * s == 100 * w + (220 * s) % 100,
            64 * s == 100 * icon + (64 * s) % 100,
            4 * s == 100 * border + (4 * s) % 100,
            0 <= (220 * s) % 100 < 100,
            0 <= (64 * s) % 100,
            0 <= (4 * s) % 100,
            s >= 50,
    ;
    assert(spec_card_height(p, s) == w * 10 / 16);
    assert(w * 10 / 16 < w);
}

/// The widest row of cards allowed: 85% of the monitor less the border on both
/// sides, but always room for one card.
pub open spec fn spec_row_room(mode: SwitchAppsRenderMode, overlay_scale: u32, monitor: Rect) -> int {
    let cw = spec_card_width(mode, spec_scale(overlay_scale));
    let border = WINDOW_BORDER_SIZE as int;
    let limit = tdiv((monitor.right - monitor.left) * 85, 100);
    (if limit >= cw + border * 2 {
        limit
    } else {
        cw + border * 2
    }) - border * 2
}

/// A row holds as many cards as fit in the room: `k` cards with their gaps fit
/// exactly when `k` is at most the row's column limit (for `k >= 1`).
pub proof fn lemma_row_holds_every_fitting_count(
    mode: SwitchAppsRenderMode,
    overlay_scale: u32,
    monitor: Rect,
    k: int,
)
    requires
        k >= 1,
    ensures
        ({
            let scale = spec_scale(overlay_scale);
            let cw = spec_card_width(mode, scale);
            let gap = spec_gap(mode, scale);
            let max_cols = spec_max_cols(mode, scale, monitor.right - monitor.left);
            &&& span(k, cw, gap) <= spec_row_room(mode, overlay_scale, monitor) ==> k <= max_cols
            &&& span(max_cols, cw, gap) <= spec_row_room(mode, overlay_scale, monitor)
        }),
{
    let scale = spec_scale(overlay_scale);
    let cw = spec_card_width(mode, scale);
    let gap = spec_gap(mode, scale);
    let mw = monitor.right - monitor.left;
    let m = spec_row_room(mode, overlay_scale, monitor);
    let max_cols = spec_max_cols(mode, scale, mw);
    assert(m == spec_max_content_width(mode, scale, mw));
    assert(cw >= 36 && gap >= 0);
    let d = cw + gap;
    let q = (m + gap) / d;
    if span(k, cw, gap) <= m {
        assert(k * d <= m + gap) by (nonlinear_arith)
            requires
                span(k, cw, gap) == cw * k + gap * (k - 1),
                span(k, cw, gap) <= m,
                d == cw + gap,
        ;
        vstd::arithmetic::div_mod::lemma_div_is_ordered(k * d, m + gap, d);
        vstd::arithmetic::div_mod::lemma_div_by_multiple(k, d);
    }
    vstd::arithmetic::div_mod::lemma_fundamental_div_mod(m + gap, d);
    vstd::arithmetic::div_mod::lemma_mod_pos_bound(m + gap, d);
    assert(span(max_cols, cw, gap) <= m) by (nonlinear_arith)
        requires
            m + gap == d * q + (m + gap) % d,
            (m + gap) % d >= 0,
            max_cols == (if q >= 1 {
                q
            } else {
                1
            }),
            m >= cw,
            cw >= 0,
            gap >= 0,
            d == cw + gap,
            span(max_cols, cw, gap) == cw * max_cols + gap * (max_cols - 1),
    ;
}

/// When all the cards fit side by side in the room, the overlay is a single row:
/// one card tall (plus the border), every card at the top, one after another.
pub proof fn lemma_fitting_cards_make_one_row(
    l: OverlayLayout,
    mode: SwitchAppsRenderMode,
    show_window_count: bool,
    overlay_scale: u32,
    window_counts: Seq<usize>,
    monitor: Rect,
)
    requires
        layout_fits(mode, show_window_count, overlay_scale, window_counts, monitor),
        layout_matches(l, mode, show_window_count, overlay_scale, window_counts, monitor),
        window_counts.len() >= 1,
        span(
            window_counts.len() as int,
            spec_card_width(mode, spec_scale(overlay_scale)),
            spec_gap(mode, spec_scale(overlay_scale)),
        ) <= spec_row_room(mode, overlay_scale, monitor),
    ensures
        l.height == spec_card_height(mode, spec_scale(overlay_scale)) + WINDOW_BORDER_SIZE * 2,
        l.width == span(
            window_counts.len() as int,
            spec_card_width(mode, spec_scale(overlay_scale)),
            spec_gap(mode, spec_scale(overlay_scale)),
        ) + WINDOW_BORDER_SIZE * 2,
        forall|i: int|
            0 <= i < window_counts.len() ==> (#[trigger] l.entries@[i]).card_rect.top
                == WINDOW_BORDER_SIZE && l.entries@[i].card_rect.left == WINDOW_BORDER_SIZE + i * (
            spec_card_width(mode, spec_scale(overlay_scale)) + spec_gap(
                mode,
                spec_scale(overlay_scale),
            )),
{
    let n = window_counts.len() as int;
    let scale = spec_scale(overlay_scale);
    lemma_row_holds_every_fitting_count(mode, overlay_scale, monitor, n);
    let (cols, rows) = spec_grid_for(mode, overlay_scale, n, monitor);
    assert(cols == n && rows == 1);
    let cw = spec_card_width(mode, scale);
    let ch = spec_card_height(mode, scale);
    let gap = spec_gap(mode, scale);
    assert(span(1, ch, gap) == ch) by (nonlinear_arith)
        requires
            span(1, ch, gap) == ch * 1 + gap * (1 - 1),
    ;
    assert forall|i: int| 0 <= i < n implies (#[trigger] l.entries@[i]).card_rect.top
        == WINDOW_BORDER_SIZE && l.entries@[i].card_rect.left == WINDOW_BORDER_SIZE + i * (
        spec_card_width(mode, scale) + spec_gap(mode, scale)) by {
        lemma_card_edges(mode, show_window_count, overlay_scale, window_counts, monitor, i);
        assert(entry_matches(l.entries@[i], mode, show_window_count, scale, cols, i, window_counts[i]));
        vstd::arithmetic::div_mod::lemma_small_mod(i as nat, n as nat);
        vstd::arithmetic::div_mod::lemma_basic_div(i, n);
        assert(i / cols == 0 && i % cols == i);
        assert((i / cols) * (ch + gap) == 0);
        assert((i % cols) * (cw + gap) == i * (cw + gap));
    }
}

// ---------------------------------------------------------------------------
// Range checks

/// Whether a wide intermediate value fits an `i32`.
pub fn fits_i32_exec(x: i64) -> (r: bool)
    ensures
        r == fits_i32(x as int),
{
    -2147483648 <= x && x <= 2147483647
}

/// Whether laying out the dots of a card stays within `i32` (see `dots_fit`).
pub fn dots_in_range(show_window_count: bool, card_rect: Rect, window_count: usize) -> (r: bool)
    ensures
        r == dots_fit(show_window_count, card_rect, window_count),
{
    if !show_window_count || window_count <= 1 {
        return true;
    }
    if window_count > 0x7fff_ffff {
        return false;
    }
    let c = window_count as i64;
    let total = 6 * c + 8 * (c - 1);
    assert(total == spec_dots_total_width(c as int));
    let sum = card_rect.left as i64 + card_rect.right as i64;
    let y = card_rect.bottom as i64 - 9;
    let shifted = sum / 2 - total / 2;
    let start = shifted + 3;
    let last = start + (c - 1) * 14;
    assert(shifted == tdiv(card_rect.left + card_rect.right, 2) - tdiv(spec_dots_total_width(c as int), 2));
    fits_i32_exec(total) && fits_i32_exec(sum) && fits_i32_exec(y) && fits_i32_exec(shifted)
        && fits_i32_exec(start) && fits_i32_exec(last)
}

/// Card width, card height and gap, widened.
fn card_metrics(render_mode: SwitchAppsRenderMode, overlay_scale: u32) -> (r: (i64, i64, i64))
    ensures
        r.0 == spec_card_width(render_mode, spec_scale(overlay_scale)),
        r.1 == spec_card_height(render_mode, spec_scale(overlay_scale)),
        r.2 == spec_gap(render_mode, spec_scale(overlay_scale)),
        36 <= r.0 <= 440,
        22 <= r.1 <= 440,
        0 <= r.2 <= 24,
{
    let scale = clamp_scale(overlay_scale) as i64;
    assert(50 <= scale <= 200);
    let icon = (64 * scale) / 100;
    let border = (4 * scale) / 100;
    let gap: i64 = match render_mode {
        SwitchAppsRenderMode::IconOnly => 0,
        SwitchAppsRenderMode::Preview => (12 * scale) / 100,
    };
    let cw: i64 = match render_mode {
        SwitchAppsRenderMode::IconOnly => icon + border * 2,
        SwitchAppsRenderMode::Preview => (220 * scale) / 100,
    };
    let ch: i64 = match render_mode {
        SwitchAppsRenderMode::IconOnly => cw,
        SwitchAppsRenderMode::Preview => (cw * 10) / 16,
    };
    (cw, ch, gap)
}

/// The grid's columns and rows for `n` apps on a monitor `mw` wide, widened.
fn grid_dims(render_mode: SwitchAppsRenderMode, overlay_scale: u32, n: i64, mw: i64) -> (r: (i64, i64, i64))
    requires
        1 <= n <= i32::MAX,
        fits_i32(mw as int),
        fits_i32(mw * 85),
    ensures
        r.0 == spec_max_cols(render_mode, spec_scale(overlay_scale), mw as int),
        (r.1 as int, r.2 as int) == spec_grid(n as int, r.0 as int),
        1 <= r.0 <= i32::MAX,
        1 <= r.1 <= i32::MAX,
        1 <= r.2 <= i32::MAX,
{
    let (cw, ch, gap) = card_metrics(render_mode, overlay_scale);
    let ghost s = spec_scale(overlay_scale);
    let limit = (mw * 85) / 100;
    assert(limit <= i32::MAX);
    let max_content = (if limit >= cw + 20 { limit } else { cw + 20 }) - 20;
    assert(max_content == spec_max_content_width(render_mode, s, mw as int));
    let q = (max_content + gap) / (cw + gap);
    assert(q <= max_content + gap) by (nonlinear_arith)
        requires
            q == (max_content + gap) / (cw + gap),
            cw + gap >= 36,
            max_content + gap >= 0,
    ;
    let max_cols = if q >= 1 { q } else { 1 };
    proof {
        lemma_grid_shape(n as int, max_cols as int);
    }
    let (cols, rows): (i64, i64) = if n <= max_cols {
        (n, 1)
    } else {
        let rows = (n + max_cols - 1) / max_cols;
        let balanced = (n + rows - 1) / rows;
        let c = if balanced <= max_cols { balanced } else { max_cols };
        (if c >= 1 { c } else { 1 }, rows)
    };
    (max_cols, cols, rows)
}

/// Whether the dots of every card stay within `i32`, given a grid that does.
fn entries_dots_in_range(
    render_mode: SwitchAppsRenderMode,
    show_window_count: bool,
    overlay_scale: u32,
    window_counts: &[usize],
    monitor_rect: Rect,
    cols: i64,
) -> (r: bool)
    requires
        grid_fits(render_mode, overlay_scale, window_counts@.len() as int, monitor_rect),
        window_counts@.len() > 0,
        cols as int == spec_grid(
            window_counts@.len() as int,
            spec_max_cols(
                render_mode,
                spec_scale(overlay_scale),
                monitor_rect.right - monitor_rect.left,
            ),
        ).0,
    ensures
        r == layout_fits(render_mode, show_window_count, overlay_scale, window_counts@, monitor_rect),
{
    let (cw, ch, gap) = card_metrics(render_mode, overlay_scale);
    let ghost s = spec_scale(overlay_scale);
    let ghost n = window_counts@.len() as int;
    let ghost counts = window_counts@;
    let num_apps = window_counts.len();
    let mut i: usize = 0;
    while i < num_apps
        invariant
            n == num_apps,
            counts == window_counts@,
            n == counts.len(),
            n > 0,
            i <= num_apps,
            s == spec_scale(overlay_scale),
            cols as int == spec_grid(n, spec_max_cols(render_mode, s, monitor_rect.right - monitor_rect.left)).0,
            grid_fits(render_mode, overlay_scale, n, monitor_rect),
            cw == spec_card_width(render_mode, s),
            ch == spec_card_height(render_mode, s),
            gap == spec_gap(render_mode, s),
            forall|j: int|
                0 <= j < i ==> #[trigger] dots_fit(
                    show_window_count,
                    spec_card_rect(render_mode, s, cols as int, j),
                    counts[j],
                ),
        decreases num_apps - i,
    {
        proof {
            lemma_card_edges(render_mode, show_window_count, overlay_scale, counts, monitor_rect, i as int);
        }
        let col = i as i64 % cols;
        let row = i as i64 / cols;
        assert(col == (i as int) % (cols as int) && row == (i as int) / (cols as int));
        let left = 10 + col * (cw + gap);
        let top = 10 + row * (ch + gap);
        let card = Rect {
            left: left as i32,
            top: top as i32,
            right: (left + cw) as i32,
            bottom: (top + ch) as i32,
        };
        assert(card == spec_card_rect(render_mode, s, cols as int, i as int));
        if !dots_in_range(show_window_count, card, window_counts[i]) {
            return false;
        }
        i = i + 1;
    }
    true
}

/// Whether laying out the overlay stays within `i32` (see `layout_fits`); callers
/// that cannot rule out an overflow check this before building the layout.
pub fn layout_in_range(
    render_mode: SwitchAppsRenderMode,
    show_window_count: bool,
    overlay_scale: u32,
    window_counts: &[usize],
    monitor_rect: Rect,
) -> (r: bool)
    ensures
        r == layout_fits(render_mode, show_window_count, overlay_scale, window_counts@, monitor_rect),
{
    let num_apps = window_counts.len();
    if num_apps > 0x7fff_ffff {
        return false;
    }
    let mw = monitor_rect.right as i64 - monitor_rect.left as i64;
    let mh = monitor_rect.bottom as i64 - monitor_rect.top as i64;
    if !fits_i32_exec(mw) || !fits_i32_exec(mh) || !fits_i32_exec(mw * 85) {
        return false;
    }
    if num_apps == 0 {
        return fits_i32_exec(monitor_rect.left as i64 + mw / 2) && fits_i32_exec(
            monitor_rect.top as i64 + mh / 2,
        );
    }
    let (cw, ch, gap) = card_metrics(render_mode, overlay_scale);
    let napps = num_apps as i64;
    let (max_cols, cols, rows) = grid_dims(render_mode, overlay_scale, napps, mw);
    assert(cw * cols <= 440 * 0x7fff_ffff && ch * rows <= 440 * 0x7fff_ffff && gap * (rows - 1)
        <= 24 * 0x7fff_ffff && gap * (cols - 1) <= 24 * 0x7fff_ffff) by (nonlinear_arith)
        requires
            1 <= cols <= 0x7fff_ffff,
            1 <= rows <= 0x7fff_ffff,
            36 <= cw <= 440,
            22 <= ch <= 440,
            0 <= gap <= 24,
    ;
    assert(cw * cols >= 0 && ch * rows >= 0 && gap * (rows - 1) >= 0 && gap * (cols - 1) >= 0)
        by (nonlinear_arith)
        requires
            1 <= cols,
            1 <= rows,
            36 <= cw,
            22 <= ch,
            0 <= gap,
    ;
    let content_width = cw * cols + gap * (cols - 1);
    let content_height = ch * rows + gap * (rows - 1);
    let width = content_width + 20;
    let height = content_height + 20;
    let grid_ok = fits_i32_exec(napps + max_cols) && fits_i32_exec(napps + rows) && fits_i32_exec(
        cw * cols,
    ) && fits_i32_exec(ch * rows) && fits_i32_exec(gap * (rows - 1)) && fits_i32_exec(
        content_width,
    ) && fits_i32_exec(content_height) && fits_i32_exec(width) && fits_i32_exec(height)
        && fits_i32_exec(mw - width) && fits_i32_exec(mh - height) && fits_i32_exec(
        monitor_rect.left as i64 + (mw - width) / 2,
    ) && fits_i32_exec(monitor_rect.top as i64 + (mh - height) / 2);
    if !grid_ok {
        return false;
    }
    entries_dots_in_range(render_mode, show_window_count, overlay_scale, window_counts, monitor_rect, cols)
}

} // verus!
