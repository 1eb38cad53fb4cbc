//! Short labels for the window inspection report.
use vstd::prelude::*;
use vstd::string::*;

verus! {

/// Cloak flag: hidden by its own app.
pub const DWM_CLOAKED_APP: u32 = 1;

/// Cloak flag: hidden by the shell (for example on another virtual desktop).
pub const DWM_CLOAKED_SHELL: u32 = 2;

/// Cloak flag: hidden because its owner is cloaked.
pub const DWM_CLOAKED_INHERITED: u32 = 4;

/// Why a window is left out of switching.
#[derive(Clone, Copy, Debug, PartialEq, Eq, Structural)]
pub enum WindowFilterReason {
    NotVisible,
    Minimized,
    ToolWindow,
    OwnedTopmostWindow,
    Cloaked,
    Small,
    EmptyTitle,
    WindowsInputExperience,
}

/// `*` for true, a blank for false.
pub fn pretty_bool(value: bool) -> (r: String)
    ensures
        r@ == (if value {
            "*"@
        } else {
            " "@
        }),
{
    if value {
        "*".to_owned()
    } else {
        " ".to_owned()
    }
}

/// `*` for true, a blank for false, `?` when unknown.
pub fn pretty_optional_bool(value: Option<bool>) -> (r: &'static str)
    ensures
        r@ == match value {
            Some(true) => "*"@,
            Some(false) => " "@,
            None => "?"@,
        },
{
    match value {
        Some(true) => "*",
        Some(false) => " ",
        None => "?",
    }
}

/// One letter for a window's cloak state: blank when not cloaked, `S`, `A` or `I`
/// for shell, app or inherited cloaking, `?` for any other combination.
pub fn pretty_cloak(value: u32) -> (r: &'static str)
    ensures
        r@ == (if value == 0 {
            " "@
        } else if value == DWM_CLOAKED_SHELL {
            "S"@
        } else if value == DWM_CLOAKED_APP {
            "A"@
        } else if value == DWM_CLOAKED_INHERITED {
            "I"@
        } else {
            "?"@
        }),
{
    if value == 0 {
        " "
    } else if value == DWM_CLOAKED_SHELL {
        "S"
    } else if value == DWM_CLOAKED_APP {
        "A"
    } else if value == DWM_CLOAKED_INHERITED {
        "I"
    } else {
        "?"
    }
}

/// The label of a filter reason.
pub open spec fn spec_filter_reason_label(reason: WindowFilterReason) -> Seq<char> {
    match reason {
        WindowFilterReason::NotVisible => "not-visible"@,
        WindowFilterReason::Minimized => "minimized"@,
        WindowFilterReason::ToolWindow => "tool-window"@,
        WindowFilterReason::OwnedTopmostWindow => "owned-topmost"@,
        WindowFilterReason::Cloaked => "cloaked"@,
        WindowFilterReason::Small => "small"@,
        WindowFilterReason::EmptyTitle => "empty-title"@,
        WindowFilterReason::WindowsInputExperience => "windows-input-experience"@,
    }
}

/// A short kebab-case label for a filter reason.
pub fn describe_filter_reason(reason: WindowFilterReason) -> (r: &'static str)
    ensures
        r@ == spec_filter_reason_label(reason),
{
    match reason {
        WindowFilterReason::NotVisible => "not-visible",
        WindowFilterReason::Minimized => "minimized",
        WindowFilterReason::ToolWindow => "tool-window",
        WindowFilterReason::OwnedTopmostWindow => "owned-topmost",
        WindowFilterReason::Cloaked => "cloaked",
        WindowFilterReason::Small => "small",
        WindowFilterReason::EmptyTitle => "empty-title",
        WindowFilterReason::WindowsInputExperience => "windows-input-experience",
    }
}

/// The status column of the report: the reason a window is filtered, else an
/// invalid module path, else an elevated process seen from a non-elevated tool,
/// else included.
pub open spec fn spec_window_status(
    filter: Option<WindowFilterReason>,
    valid_module: bool,
    is_admin: bool,
    elevated: Option<bool>,
) -> Seq<char> {
    match filter {
        Some(reason) => "filter:"@ + spec_filter_reason_label(reason),
        None => if !valid_module {
            "filter:invalid-module"@
        } else if !is_admin && elevated == Some(true) {
            "filter:elevated"@
        } else {
            "filter:include"@
        },
    }
}

/// The status of one window in the report, from its filter reason, whether its
/// module path is valid, whether the tool runs elevated, and whether the window's
/// process is elevated (`None` when unknown).
pub fn window_status(
    filter: Option<WindowFilterReason>,
    valid_module: bool,
    is_admin: bool,
    elevated: Option<bool>,
) -> (r: String)
    ensures
        r@ == spec_window_status(filter, valid_module, is_admin, elevated),
{
    match filter {
        Some(reason) => "filter:".to_owned().concat(describe_filter_reason(reason)),
        None => if !valid_module {
            "filter:invalid-module".to_owned()
        } else if !is_admin && elevated == Some(true) {
            "filter:elevated".to_owned()
        } else {
            "filter:include".to_owned()
        },
    }
}

} // verus!
