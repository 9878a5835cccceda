use wayle_plugin::config::{ClickAction, ColorValue, CssToken, PluginDefinition, PluginKind};
use wayle_plugin::shell::module::{
    as_action, initial_effects, normalize_css_class, plan_dropdown, plugin_dropdown_name, update_css_class,
    DropdownBody, ModuleEffect, ModuleState, PluginCmd, PluginMsg, PluginsWatch, RowPlan,
};
use wayle_plugin::shell::registry::{
    PluginAction, PluginActionResult, PluginDropdown, PluginDropdownItem, PluginRowAction,
    PluginStyle, PluginUpdate,
};

fn definition(middle: ClickAction) -> PluginDefinition {
    PluginDefinition {
        id: String::from("demo"),
        kind: PluginKind::Wasm,
        enabled: true,
        interval_ms: 0,
        wasm_path: None,
        wasm_refresh_export: String::from("refresh"),
        wasm_timeout_ms: 2_000,
        capabilities: vec![String::from("command.exec")],
        command_exec_allowed_prefixes: vec![String::from("echo")],
        fs_read_allowed_paths: Vec::new(),
        plugin_config: serde_json::Value::Null,
        allow_shell_commands: false,
        icon_name: String::from("tb-bolt-symbolic"),
        border_show: false,
        border_color: ColorValue::Token(CssToken::BorderAccent),
        icon_show: true,
        icon_color: ColorValue::Auto,
        icon_bg_color: ColorValue::Token(CssToken::Accent),
        label_show: true,
        label_color: ColorValue::Token(CssToken::Accent),
        label_max_length: 0,
        button_bg_color: ColorValue::Token(CssToken::BgSurfaceElevated),
        left_click: ClickAction::NoAction,
        right_click: ClickAction::NoAction,
        middle_click: middle,
        scroll_up: ClickAction::NoAction,
        scroll_down: ClickAction::NoAction,
        hide_if_empty: false,
    }
}

fn update(label: &str, style: Option<PluginStyle>) -> PluginUpdate {
    PluginUpdate {
        label: String::from(label),
        tooltip: None,
        visible: true,
        dropdown: None,
        style,
    }
}

fn style(css: Option<&str>, once: bool) -> PluginStyle {
    PluginStyle {
        button_class: Some(String::from(" my-btn ")),
        dropdown_class: Some(String::from("bad class!")),
        css: css.map(String::from),
        once,
        dropdown_height_percent: Some(150),
    }
}

#[test]
fn css_class_names_are_validated() {
    assert_eq!(normalize_css_class("  my-class_1 "), Some(String::from("my-class_1")));
    assert_eq!(normalize_css_class("   "), None);
    assert_eq!(normalize_css_class("a b"), None);
    assert_eq!(normalize_css_class("é"), None);
    let mut slot = None;
    let swap = update_css_class(&mut slot, Some(" x ")).expect("first class");
    assert_eq!((swap.remove, swap.add.as_str()), (None, "x"));
    assert!(update_css_class(&mut slot, Some("x")).is_none());
    assert!(update_css_class(&mut slot, Some("bad!")).is_none());
    let swap = update_css_class(&mut slot, Some("y")).expect("replace");
    assert_eq!(swap.remove.as_deref(), Some("x"));
    assert_eq!(slot.as_deref(), Some("y"));
    assert_eq!(plugin_dropdown_name("demo"), "plugin-demo");
}

#[test]
fn messages_become_tasks() {
    assert_eq!(as_action(&PluginMsg::ScrollUp), Some(PluginAction::ScrollUp));
    assert_eq!(as_action(&PluginMsg::ManualRefresh), None);
    let mut st = ModuleState::new();
    let effects = st.on_message(PluginMsg::ManualRefresh, false);
    assert!(matches!(effects.as_slice(), [ModuleEffect::SpawnRefresh]));
    let effects = st.on_message(PluginMsg::CustomRowAction(String::from("p")), true);
    assert!(matches!(
        effects.as_slice(),
        [ModuleEffect::MarkRowActionInFlight, ModuleEffect::SpawnRowAction(p)] if p == "p"
    ));
    let effects = st.on_message(PluginMsg::MiddleClick, false);
    assert!(matches!(effects.as_slice(), [ModuleEffect::SpawnAction(PluginAction::MiddleClick)]));
    // The dropdown was open when the custom action started and is now closed.
    let effects = st.on_command(
        PluginCmd::RowActionResult(PluginActionResult::Consumed(None)),
        &definition(ClickAction::NoAction),
        false,
    );
    assert!(matches!(
        effects.as_slice(),
        [ModuleEffect::Popup, ModuleEffect::ClearRowActionInFlight]
    ));
}

#[test]
fn unhandled_middle_click_refreshes() {
    let mut st = ModuleState::new();
    let effects = st.on_command(
        PluginCmd::ActionResult(PluginAction::MiddleClick, PluginActionResult::Unhandled),
        &definition(ClickAction::NoAction),
        false,
    );
    assert!(matches!(effects.as_slice(), [ModuleEffect::ManualRefresh]));
    let effects = st.on_command(
        PluginCmd::ActionResult(PluginAction::MiddleClick, PluginActionResult::Unhandled),
        &definition(ClickAction::Run(String::from("pavucontrol"))),
        false,
    );
    assert!(matches!(
        effects.as_slice(),
        [ModuleEffect::DispatchClick(ClickAction::Run(c))] if c == "pavucontrol"
    ));
    let effects = st.on_command(
        PluginCmd::ActionResult(PluginAction::LeftClick, PluginActionResult::Unhandled),
        &definition(ClickAction::NoAction),
        false,
    );
    assert!(matches!(effects.as_slice(), [ModuleEffect::DispatchClick(ClickAction::NoAction)]));
}

#[test]
fn errors_show_a_question_mark() {
    let mut st = ModuleState::new();
    let effects = st.on_command(PluginCmd::Error(String::from("boom")), &definition(ClickAction::NoAction), true);
    assert!(matches!(
        effects.as_slice(),
        [
            ModuleEffect::LogError(e),
            ModuleEffect::SetLabel(l),
            ModuleEffect::SetTooltip(Some(t)),
            ModuleEffect::SetVisible(true),
            ModuleEffect::ClearRowActionInFlight,
        ] if e == "boom" && l == "?" && t == "Plugin refresh failed"
    ));
}

#[test]
fn snapshots_apply_label_style_and_resize() {
    let def = definition(ClickAction::NoAction);
    let mut st = ModuleState::new();
    let effects = st.on_command(PluginCmd::Snapshot(update("abc", None)), &def, false);
    assert_eq!(effects.len(), 3);
    let effects = st.on_command(
        PluginCmd::Snapshot(update("abcd", Some(style(Some(".a {}"), true)))),
        &def,
        false,
    );
    assert!(matches!(
        effects.as_slice(),
        [
            ModuleEffect::SetLabel(_),
            ModuleEffect::SetTooltip(None),
            ModuleEffect::SetVisible(true),
            ModuleEffect::SwapButtonClass(swap),
            ModuleEffect::LoadCss(css),
            ModuleEffect::ApplyHeight(Some(100)),
            ModuleEffect::ForceResize,
        ] if swap.add == "my-btn" && swap.remove.is_none() && css == ".a {}"
    ));
    // A second `once` style is ignored.
    let effects = st.on_command(
        PluginCmd::Snapshot(update("wxyz", Some(style(Some(".b {}"), true)))),
        &def,
        false,
    );
    assert_eq!(effects.len(), 3);
    // The same CSS is not loaded twice.
    let effects = st.on_command(
        PluginCmd::ActionResult(
            PluginAction::LeftClick,
            PluginActionResult::Consumed(Some(update("wxyz", Some(style(Some(".a {}"), false))))),
        ),
        &def,
        false,
    );
    assert!(matches!(
        effects.as_slice(),
        [_, _, _, ModuleEffect::ApplyHeight(Some(100))]
    ));
}

#[test]
fn dropdown_plan_follows_the_rules() {
    let def = definition(ClickAction::NoAction);
    let empty = PluginDropdown {
        title: Some(String::from("  ")),
        title_xalign_bits: None,
        empty_label: Some(String::from(" ")),
        items: Vec::new(),
    };
    let plan = plan_dropdown(empty, &def);
    assert!(plan.title.is_none());
    assert!(matches!(plan.body, DropdownBody::Empty(t) if t == "No items"));

    let dropdown = PluginDropdown {
        title: Some(String::from("Updates")),
        title_xalign_bits: Some(0x3f80_0000),
        empty_label: None,
        items: vec![
            PluginDropdownItem { label: String::new(), description: None, action: Some(PluginRowAction::RefreshNow) },
            PluginDropdownItem { label: String::from("Section"), description: None, action: None },
            PluginDropdownItem {
                label: String::from("run"),
                description: Some(String::from("  ")),
                action: Some(PluginRowAction::RunCommand { command: String::from("echo 1") }),
            },
            PluginDropdownItem {
                label: String::from("custom"),
                description: Some(String::from("d")),
                action: Some(PluginRowAction::Custom { payload: String::from("p") }),
            },
            PluginDropdownItem {
                label: String::from("denied"),
                description: Some(String::from("d")),
                action: Some(PluginRowAction::RunCommand { command: String::from("rm x") }),
            },
        ],
    };
    let plan = plan_dropdown(dropdown, &def);
    assert_eq!(plan.title.as_deref(), Some("Updates"));
    assert_eq!(plan.title_xalign_bits, Some(0x3f80_0000));
    let DropdownBody::Rows(rows) = plan.body else { panic!("rows expected") };
    assert!(matches!(rows[0], RowPlan::Separator));
    assert!(matches!(&rows[1], RowPlan::Row { section: true, action: None, activatable: false, .. }));
    assert!(matches!(&rows[2], RowPlan::Row { description: None, section: false, action_allowed: true, activatable: true, custom: false, .. }));
    assert!(matches!(&rows[3], RowPlan::Row { action_allowed: true, activatable: false, custom: true, .. }));
    assert!(matches!(&rows[4], RowPlan::Row { action_allowed: false, activatable: false, .. }));
}

#[test]
fn first_plugins_notification_is_skipped() {
    let mut watch = PluginsWatch::new();
    assert!(!watch.on_change());
    assert!(watch.on_change());
    assert!(watch.on_change());
}

#[test]
fn normalized_css_classes_are_fixed_points() {
    for input in ["  a-b ", "x_y", "bad class", "", "\u{3000}ok\u{3000}"] {
        if let Some(once) = normalize_css_class(input) {
            assert_eq!(normalize_css_class(&once), Some(once.clone()));
        }
    }
    assert_eq!(normalize_css_class("\u{3000}ok\u{3000}"), Some(String::from("ok")));
}

#[test]
fn hide_if_empty_decides_visibility() {
    let mut hidden = update("x", None);
    hidden.visible = false;
    let mut def = definition(ClickAction::NoAction);
    let mut st = ModuleState::new();
    let effects = st.on_command(PluginCmd::Snapshot(hidden.clone()), &def, false);
    assert!(matches!(effects[2], ModuleEffect::SetVisible(true)));
    def.hide_if_empty = true;
    let effects = st.on_command(PluginCmd::Snapshot(hidden), &def, false);
    assert!(matches!(effects[2], ModuleEffect::SetVisible(false)));
    let effects = st.on_command(PluginCmd::Snapshot(update("x", None)), &def, false);
    assert!(matches!(effects[2], ModuleEffect::SetVisible(true)));
}

#[test]
fn new_modules_start_checking() {
    let mut def = definition(ClickAction::NoAction);
    let effects = initial_effects(&def);
    assert!(matches!(
        effects.as_slice(),
        [ModuleEffect::SetLabel(l), ModuleEffect::SetTooltip(Some(t))]
            if l == "..." && t == "Checking plugin state..."
    ));
    def.hide_if_empty = true;
    let effects = initial_effects(&def);
    assert_eq!(effects.len(), 3);
    assert!(matches!(effects[2], ModuleEffect::SetVisible(false)));
}
