//! Whether an app entry can show a live thumbnail, and why not.
use vstd::prelude::*;

use crate::config::SwitchAppsRenderMode;
use crate::handles::Hwnd;

verus! {

/// What an app entry shows in preview mode.
#[derive(Clone, Copy, Debug, PartialEq, Eq, Structural)]
pub enum AppPreview {
    /// A live compositor thumbnail of the given window.
    DwmThumbnail(DwmThumbnailPreview),
    /// No thumbnail; the entry falls back to its icon.
    Unavailable(PreviewUnavailableReason),
}

/// Describes a live thumbnail of one source window.
#[derive(Clone, Copy, Debug, PartialEq, Eq, Structural)]
pub struct DwmThumbnailPreview {
    pub source_hwnd: Hwnd,
}

impl DwmThumbnailPreview {
    pub fn new(source_hwnd: Hwnd) -> (r: Self)
        ensures
            r.source_hwnd == source_hwnd,
    {
        DwmThumbnailPreview { source_hwnd }
    }
}

/// Why an entry shows no live thumbnail.
#[derive(Clone, Copy, Debug, PartialEq, Eq, Structural)]
pub enum PreviewUnavailableReason {
    DisabledByConfig,
    Minimized,
    Cloaked,
}

/// The window facts that decide preview eligibility.
#[derive(Clone, Copy, Debug, PartialEq, Eq, Structural)]
pub struct PreviewWindowState {
    pub is_iconic: bool,
    /// The compositor's cloak flags; `0` means not cloaked.
    pub cloak_type: u32,
}

impl PreviewWindowState {
    /// A window is cloaked when any cloak flag is set.
    pub fn is_cloaked(&self) -> (r: bool)
        ensures
            r == (self.cloak_type != 0),
    {
        self.cloak_type != 0
    }
}

/// The preview an entry gets for the given mode and window state.
pub open spec fn spec_resolve_preview(
    render_mode: SwitchAppsRenderMode,
    hwnd: Hwnd,
    state: PreviewWindowState,
) -> AppPreview {
    match render_mode {
        SwitchAppsRenderMode::IconOnly => AppPreview::Unavailable(
            PreviewUnavailableReason::DisabledByConfig,
        ),
        SwitchAppsRenderMode::Preview => if state.is_iconic {
            AppPreview::Unavailable(PreviewUnavailableReason::Minimized)
        } else if state.cloak_type != 0 {
            AppPreview::Unavailable(PreviewUnavailableReason::Cloaked)
        } else {
            AppPreview::DwmThumbnail(DwmThumbnailPreview { source_hwnd: hwnd })
        },
    }
}

/// Decides the preview for `hwnd`: disabled outside preview mode, unavailable for
/// minimized or cloaked windows, otherwise a thumbnail of `hwnd` itself.
pub fn resolve_preview(
    render_mode: SwitchAppsRenderMode,
    hwnd: Hwnd,
    state: PreviewWindowState,
) -> (r: AppPreview)
    ensures
        r == spec_resolve_preview(render_mode, hwnd, state),
{
    match render_mode {
        SwitchAppsRenderMode::IconOnly => AppPreview::Unavailable(
            PreviewUnavailableReason::DisabledByConfig,
        ),
        SwitchAppsRenderMode::Preview => {
            if state.is_iconic {
                AppPreview::Unavailable(PreviewUnavailableReason::Minimized)
            } else if state.is_cloaked() {
                AppPreview::Unavailable(PreviewUnavailableReason::Cloaked)
            } else {
                AppPreview::DwmThumbnail(DwmThumbnailPreview::new(hwnd))
            }
        },
    }
}

/// Produces previews for windows according to the configured render mode.
#[derive(Clone, Copy, Debug)]
pub struct WindowPreviewSource {
    render_mode: SwitchAppsRenderMode,
}

impl WindowPreviewSource {
    pub closed spec fn mode(&self) -> SwitchAppsRenderMode {
        self.render_mode
    }

    pub fn new(render_mode: SwitchAppsRenderMode) -> (r: Self)
        ensures
            r.mode() == render_mode,
    {
        WindowPreviewSource { render_mode }
    }

    pub fn render_mode(&self) -> (r: SwitchAppsRenderMode)
        ensures
            r == self.mode(),
    {
        self.render_mode
    }

    /// The preview for `hwnd`. Outside preview mode the window is not probed at
    /// all; in preview mode `probe` is called once and its answer decides.
    pub fn preview_for_hwnd<F: FnOnce(Hwnd) -> PreviewWindowState>(
        &self,
        hwnd: Hwnd,
        probe: F,
    ) -> (r: AppPreview)
        requires
            self.mode() == SwitchAppsRenderMode::Preview ==> probe.requires((hwnd,)),
        ensures
            self.mode() != SwitchAppsRenderMode::Preview ==> r == AppPreview::Unavailable(
                PreviewUnavailableReason::DisabledByConfig,
            ),
            self.mode() == SwitchAppsRenderMode::Preview ==> exists|state: PreviewWindowState|
                #[trigger] probe.ensures((hwnd,), state) && r == spec_resolve_preview(
                    self.mode(),
                    hwnd,
                    state,
                ),
    {
        if self.render_mode != SwitchAppsRenderMode::Preview {
            return AppPreview::Unavailable(PreviewUnavailableReason::DisabledByConfig);
        }
        let state = probe(hwnd);
        resolve_preview(self.render_mode, hwnd, state)
    }
}

} // verus!
