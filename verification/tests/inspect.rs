use window_switcher::inspect::{
    describe_filter_reason, pretty_bool, pretty_cloak, pretty_optional_bool, window_status,
    WindowFilterReason,
    DWM_CLOAKED_APP, DWM_CLOAKED_INHERITED, DWM_CLOAKED_SHELL,
};

#[test]
fn pretty_bool_marks_true() {
    assert_eq!(pretty_bool(true), "*");
    assert_eq!(pretty_bool(false), " ");
}

#[test]
fn pretty_optional_bool_marks_unknown() {
    assert_eq!(pretty_optional_bool(Some(true)), "*");
    assert_eq!(pretty_optional_bool(Some(false)), " ");
    assert_eq!(pretty_optional_bool(None), "?");
}

#[test]
fn pretty_cloak_letters() {
    assert_eq!(pretty_cloak(0), " ");
    assert_eq!(pretty_cloak(DWM_CLOAKED_SHELL), "S");
    assert_eq!(pretty_cloak(DWM_CLOAKED_APP), "A");
    assert_eq!(pretty_cloak(DWM_CLOAKED_INHERITED), "I");
    assert_eq!(pretty_cloak(3), "?");
}

#[test]
fn filter_reason_labels() {
    assert_eq!(describe_filter_reason(WindowFilterReason::NotVisible), "not-visible");
    assert_eq!(describe_filter_reason(WindowFilterReason::Minimized), "minimized");
    assert_eq!(describe_filter_reason(WindowFilterReason::ToolWindow), "tool-window");
    assert_eq!(describe_filter_reason(WindowFilterReason::OwnedTopmostWindow), "owned-topmost");
    assert_eq!(describe_filter_reason(WindowFilterReason::Cloaked), "cloaked");
    assert_eq!(describe_filter_reason(WindowFilterReason::Small), "small");
    assert_eq!(describe_filter_reason(WindowFilterReason::EmptyTitle), "empty-title");
    assert_eq!(
        describe_filter_reason(WindowFilterReason::WindowsInputExperience),
        "windows-input-experience"
    );
}

#[test]
fn window_status_prefers_filter_reason() {
    assert_eq!(
        window_status(Some(WindowFilterReason::Cloaked), false, false, Some(true)),
        "filter:cloaked"
    );
    assert_eq!(
        window_status(Some(WindowFilterReason::WindowsInputExperience), true, true, None),
        "filter:windows-input-experience"
    );
}

#[test]
fn window_status_invalid_module_before_elevation() {
    assert_eq!(window_status(None, false, false, Some(true)), "filter:invalid-module");
    assert_eq!(window_status(None, false, true, None), "filter:invalid-module");
}

#[test]
fn window_status_elevated_only_when_tool_is_not_admin() {
    assert_eq!(window_status(None, true, false, Some(true)), "filter:elevated");
    assert_eq!(window_status(None, true, true, Some(true)), "filter:include");
    assert_eq!(window_status(None, true, false, Some(false)), "filter:include");
    assert_eq!(window_status(None, true, false, None), "filter:include");
}
