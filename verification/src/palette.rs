//! Overlay colors. Colors are `0x00BBGGRR` values.
use vstd::prelude::*;

verus! {

pub const BG_DARK_COLOR: u32 = 0x4c4c4c;
pub const FG_DARK_COLOR: u32 = 0x3b3b3b;
pub const BG_LIGHT_COLOR: u32 = 0xe0e0e0;
pub const FG_LIGHT_COLOR: u32 = 0xf2f2f2;
pub const ALPHA_MASK: u32 = 0xff000000;
pub const SELECTION_OUTLINE_COLOR: u32 = 0xd77800;

/// The colors the overlay is painted with.
#[derive(Clone, Copy, Debug, PartialEq, Eq, Structural)]
pub struct OverlayPalette {
    pub overlay_background: u32,
    pub card_background: u32,
    pub selected_card_background: u32,
    pub selection_outline: u32,
    pub unselected_badge_fill: u32,
    pub unselected_badge_text: u32,
    pub selected_badge_fill: u32,
    pub selected_badge_text: u32,
}

/// The theme's foreground and background colors.
pub open spec fn spec_theme_color(light_theme: bool) -> (u32, u32) {
    if light_theme {
        (FG_LIGHT_COLOR, BG_LIGHT_COLOR)
    } else {
        (FG_DARK_COLOR, BG_DARK_COLOR)
    }
}

/// Foreground and background colors of the light or dark theme.
pub fn theme_color(light_theme: bool) -> (r: (u32, u32))
    ensures
        r == spec_theme_color(light_theme),
{
    match light_theme {
        true => (FG_LIGHT_COLOR, BG_LIGHT_COLOR),
        false => (FG_DARK_COLOR, BG_DARK_COLOR),
    }
}

/// Channel `k` (0 = red, 1 = green, 2 = blue) of a color.
pub open spec fn channel(color: u32, k: int) -> int {
    if k == 0 {
        color as int % 256
    } else if k == 1 {
        (color as int / 256) % 256
    } else {
        (color as int / 65536) % 256
    }
}

/// One channel blended `numerator / denominator` of the way from `start` to `end`,
/// rounded down.
pub open spec fn spec_blend_channel(start: int, end: int, numerator: int, denominator: int) -> int {
    (start * (denominator - numerator) + end * numerator) / denominator
}

/// The color `numerator / denominator` of the way from `start` to `end`, channel by
/// channel; the result carries no alpha.
pub open spec fn spec_blend_color(start: u32, end: u32, numerator: u32, denominator: u32) -> int {
    let b = spec_blend_channel(channel(start, 2), channel(end, 2), numerator as int, denominator as int);
    let g = spec_blend_channel(channel(start, 1), channel(end, 1), numerator as int, denominator as int);
    let r = spec_blend_channel(channel(start, 0), channel(end, 0), numerator as int, denominator as int);
    b * 65536 + g * 256 + r
}

/// Whether blending stays within `u32`.
pub open spec fn blend_fits(start: u32, end: u32, numerator: u32, denominator: u32) -> bool {
    &&& 0 < denominator
    &&& numerator <= denominator
    &&& forall|k: int|
        0 <= k < 3 ==> #[trigger] channel(start, k) * (denominator - numerator) + channel(end, k)
            * numerator <= u32::MAX
}

/// Blending never leaves the range between the two colors: every channel of the
/// result lies between the corresponding channels of `start` and `end`.
pub proof fn lemma_blend_stays_between(start: u32, end: u32, numerator: u32, denominator: u32, k: int)
    requires
        0 <= k < 3,
        0 < denominator,
        numerator <= denominator,
    ensures
        ({
            let s = channel(start, k);
            let e = channel(end, k);
            let b = spec_blend_channel(s, e, numerator as int, denominator as int);
            &&& s <= e ==> s <= b <= e
            &&& e <= s ==> e <= b <= s
        }),
{
    let s = channel(start, k);
    let e = channel(end, k);
    let n = numerator as int;
    let d = denominator as int;
    assert(s * (d - n) + e * n == s * d + (e - s) * n) by (nonlinear_arith);
    assert(s * d / d == s && e * d / d == e) by (nonlinear_arith)
        requires
            d > 0,
    ;
    let t = s * (d - n) + e * n;
    if s <= e {
        assert(s * d <= t <= e * d) by (nonlinear_arith)
            requires
                s <= e,
                0 <= n <= d,
                t == s * d + (e - s) * n,
        ;
        vstd::arithmetic::div_mod::lemma_div_is_ordered(s * d, t, d);
        vstd::arithmetic::div_mod::lemma_div_is_ordered(t, e * d, d);
    } else {
        assert(e * d <= t <= s * d) by (nonlinear_arith)
            requires
                e < s,
                0 <= n <= d,
                t == s * d + (e - s) * n,
        ;
        vstd::arithmetic::div_mod::lemma_div_is_ordered(e * d, t, d);
        vstd::arithmetic::div_mod::lemma_div_is_ordered(t, s * d, d);
    }
}

proof fn lemma_blend_channel_bound(s: int, e: int, n: int, d: int)
    requires
        0 <= s < 256,
        0 <= e < 256,
        0 <= n <= d,
        0 < d,
    ensures
        0 <= spec_blend_channel(s, e, n, d) < 256,
{
    assert(0 <= s * (d - n) + e * n <= 255 * d) by (nonlinear_arith)
        requires
            0 <= s < 256,
            0 <= e < 256,
            0 <= n <= d,
    ;
    assert(0 <= (s * (d - n) + e * n) / d <= 255) by (nonlinear_arith)
        requires
            0 <= s * (d - n) + e * n <= 255 * d,
            0 < d,
    ;
}

fn blend_channel(start: u32, end: u32, numerator: u32, denominator: u32) -> (r: u32)
    requires
        0 < denominator,
        numerator <= denominator,
        start < 256,
        end < 256,
        start * (denominator - numerator) + end * numerator <= u32::MAX,
    ensures
        r == spec_blend_channel(start as int, end as int, numerator as int, denominator as int),
        r < 256,
{
    proof {
        lemma_blend_channel_bound(start as int, end as int, numerator as int, denominator as int);
        assert(0 <= start * (denominator - numerator)) by (nonlinear_arith)
            requires
                numerator <= denominator,
        ;
        assert(0 <= end * numerator) by (nonlinear_arith);
    }
    ((start * (denominator - numerator)) + (end * numerator)) / denominator
}

/// Blends two colors channel by channel, `numerator / denominator` of the way
/// from `start` to `end`.
pub fn blend_color(start: u32, end: u32, numerator: u32, denominator: u32) -> (r: u32)
    requires
        blend_fits(start, end, numerator, denominator),
    ensures
        r == spec_blend_color(start, end, numerator, denominator),
{
    let sb = (start >> 16) & 0xff;
    let eb = (end >> 16) & 0xff;
    let sg = (start >> 8) & 0xff;
    let eg = (end >> 8) & 0xff;
    let sr = start & 0xff;
    let er = end & 0xff;
    assert(sb == (start / 65536) % 256 && sg == (start / 256) % 256 && sr == start % 256)
        by (bit_vector)
        requires
            sb == (start >> 16) & 0xff,
            sg == (start >> 8) & 0xff,
            sr == start & 0xff,
    ;
    assert(eb == (end / 65536) % 256 && eg == (end / 256) % 256 && er == end % 256)
        by (bit_vector)
        requires
            eb == (end >> 16) & 0xff,
            eg == (end >> 8) & 0xff,
            er == end & 0xff,
    ;
    assert(channel(start, 2) * (denominator - numerator) + channel(end, 2) * numerator <= u32::MAX);
    assert(channel(start, 1) * (denominator - numerator) + channel(end, 1) * numerator <= u32::MAX);
    assert(channel(start, 0) * (denominator - numerator) + channel(end, 0) * numerator <= u32::MAX);
    let b = blend_channel(sb, eb, numerator, denominator);
    let g = blend_channel(sg, eg, numerator, denominator);
    let r = blend_channel(sr, er, numerator, denominator);
    assert((b << 16) | (g << 8) | r == b * 65536 + g * 256 + r) by (bit_vector)
        requires
            b < 256,
            g < 256,
            r < 256,
    ;
    (b << 16) | (g << 8) | r
}

/// The palette for a theme: the backdrop is the custom color when one is set,
/// else the theme background; cards are halfway between backdrop and foreground;
/// the selected card is tinted a fifth of the way toward the selection color.
pub open spec fn spec_overlay_palette(light_theme: bool, backdrop_color: Option<u32>) -> OverlayPalette {
    let (foreground, background) = spec_theme_color(light_theme);
    let overlay_background = match backdrop_color {
        Some(c) => c,
        None => background,
    };
    OverlayPalette {
        overlay_background,
        card_background: spec_blend_color(overlay_background, foreground, 1, 2) as u32,
        selected_card_background: spec_blend_color(
            overlay_background,
            SELECTION_OUTLINE_COLOR,
            1,
            5,
        ) as u32,
        selection_outline: SELECTION_OUTLINE_COLOR,
        unselected_badge_fill: foreground,
        unselected_badge_text: overlay_background,
        selected_badge_fill: SELECTION_OUTLINE_COLOR,
        selected_badge_text: 0xffffff,
    }
}

proof fn lemma_channel_bound(c: u32, k: int)
    ensures
        0 <= channel(c, k) < 256,
{
}

pub fn overlay_palette(light_theme: bool, backdrop_color: Option<u32>) -> (r: OverlayPalette)
    ensures
        r == spec_overlay_palette(light_theme, backdrop_color),
{
    let (foreground, background) = theme_color(light_theme);
    let overlay_background = match backdrop_color {
        Some(c) => c,
        None => background,
    };
    proof {
        assert forall|k: int| 0 <= k < 3 implies #[trigger] channel(overlay_background, k) * (2 - 1)
            + channel(foreground, k) * 1 <= u32::MAX by {
            lemma_channel_bound(overlay_background, k);
            lemma_channel_bound(foreground, k);
        }
        assert forall|k: int| 0 <= k < 3 implies #[trigger] channel(overlay_background, k) * (5 - 1)
            + channel(SELECTION_OUTLINE_COLOR, k) * 1 <= u32::MAX by {
            lemma_channel_bound(overlay_background, k);
            lemma_channel_bound(SELECTION_OUTLINE_COLOR, k);
        }
    }
    let card_background = blend_color(overlay_background, foreground, 1, 2);
    OverlayPalette {
        overlay_background,
        card_background,
        selected_card_background: blend_color(overlay_background, SELECTION_OUTLINE_COLOR, 1, 5),
        selection_outline: SELECTION_OUTLINE_COLOR,
        unselected_badge_fill: foreground,
        unselected_badge_text: overlay_background,
        selected_badge_fill: SELECTION_OUTLINE_COLOR,
        selected_badge_text: 0xffffff,
    }
}

} // verus!
