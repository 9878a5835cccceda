use wayle_plugin::config::{ClickAction, ColorValue, CssToken, PluginDefinition, PluginKind};
use wayle_plugin::sdk::types as wire;
use wayle_plugin::shell::memory::{
    guest_log_range, guest_read_range, guest_reply_alloc_len, guest_reply_range, input_len,
    manifest_payload_range, payload_range, write_range,
};
use wayle_plugin::shell::paths::expand_path;
use wayle_plugin::shell::policy::{
    check_abi_version, command_decision, lazy_load_banner, CommandDecision, row_effect, shell_failure_message, shell_quote_single,
    validate_row_action, LazyInitLog, RowEffect,
};
use wayle_plugin::shell::registry::{
    action_for, css_class, decode_payload, encode_action, map_row_action, PluginAction,
    PluginRowAction,
};
use wayle_plugin::sdk::host::pack_payload;

fn definition(capabilities: &[&str], prefixes: &[&str]) -> PluginDefinition {
    PluginDefinition {
        id: String::from("demo"),
        kind: PluginKind::Wasm,
        enabled: true,
        interval_ms: 1_000,
        wasm_path: None,
        wasm_refresh_export: String::from("refresh"),
        wasm_timeout_ms: 2_000,
        capabilities: capabilities.iter().map(|s| s.to_string()).collect(),
        command_exec_allowed_prefixes: prefixes.iter().map(|s| s.to_string()).collect(),
        fs_read_allowed_paths: Vec::new(),
        plugin_config: serde_json::Value::Null,
        allow_shell_commands: false,
        icon_name: String::from("tb-bolt-symbolic"),
        border_show: false,
        border_color: ColorValue::Token(CssToken::BorderAccent),
        icon_show: true,
        icon_color: ColorValue::Auto,
        icon_bg_color: ColorValue::Token(CssToken::Accent),
        label_show: true,
        label_color: ColorValue::Token(CssToken::Accent),
        label_max_length: 0,
        button_bg_color: ColorValue::Token(CssToken::BgSurfaceElevated),
        left_click: ClickAction::Run(String::from("dropdown:plugin-demo")),
        right_click: ClickAction::NoAction,
        middle_click: ClickAction::NoAction,
        scroll_up: ClickAction::Run(String::from("volume up")),
        scroll_down: ClickAction::NoAction,
        hide_if_empty: false,
    }
}

#[test]
fn action_codes_match_the_sdk() {
    for action in [
        PluginAction::LeftClick,
        PluginAction::RightClick,
        PluginAction::MiddleClick,
        PluginAction::ScrollUp,
        PluginAction::ScrollDown,
    ] {
        let code = encode_action(action);
        let decoded = wire::PluginAction::from_code(code).expect("known code");
        assert_eq!(format!("{action:?}"), format!("{decoded:?}"));
    }
    assert_eq!(encode_action(PluginAction::ScrollDown), 5);
}

#[test]
fn configured_click_actions() {
    let d = definition(&[], &[]);
    assert_eq!(action_for(&d, PluginAction::LeftClick), ClickAction::Run(String::from("dropdown:plugin-demo")));
    assert_eq!(action_for(&d, PluginAction::ScrollUp), ClickAction::Run(String::from("volume up")));
    assert_eq!(action_for(&d, PluginAction::MiddleClick), ClickAction::NoAction);
    assert_eq!(css_class(), "plugin-wasm");
}

#[test]
fn row_actions_are_flattened() {
    assert!(matches!(
        map_row_action(wire::PluginRowAction::Legacy(String::from("echo"))),
        PluginRowAction::LegacyCommand(c) if c == "echo"
    ));
    assert!(matches!(
        map_row_action(wire::PluginRowAction::Typed(wire::PluginTypedRowAction::RefreshNow)),
        PluginRowAction::RefreshNow
    ));
}

#[test]
fn payload_without_json_becomes_a_trimmed_label() {
    let update = decode_payload("  42 updates \n", None);
    assert_eq!(update.label, "42 updates");
    assert!(update.visible);
    assert!(update.tooltip.is_none() && update.dropdown.is_none() && update.style.is_none());

    let parsed = wire::PluginUpdate {
        label: String::from("ok"),
        tooltip: Some(String::from("tip")),
        visible: false,
        dropdown: Some(wire::PluginDropdown {
            title: None,
            title_xalign_bits: None,
            empty_label: None,
            items: vec![wire::PluginDropdownItem {
                label: String::from("a"),
                description: None,
                action: Some(wire::PluginRowAction::Typed(wire::PluginTypedRowAction::Custom {
                    payload: String::from("p"),
                })),
            }],
        }),
        style: None,
    };
    let update = decode_payload("{...}", Some(parsed));
    assert_eq!(update.label, "ok");
    assert!(!update.visible);
    let items = update.dropdown.expect("dropdown").items;
    assert_eq!(items.len(), 1);
    assert!(matches!(&items[0].action, Some(PluginRowAction::Custom { payload }) if payload == "p"));
}

#[test]
fn row_actions_need_their_capabilities() {
    let none = definition(&[], &["echo"]);
    let all = definition(&["command.exec", "net.http.get", "clipboard.write"], &["echo"]);
    let url = PluginRowAction::OpenUrl { url: String::from("https://example.org") };
    let file = PluginRowAction::OpenUrl { url: String::from("file:///etc/passwd") };
    let copy = PluginRowAction::CopyText { text: String::from("x") };
    let run = PluginRowAction::RunCommand { command: String::from("echo hi") };
    let legacy = PluginRowAction::LegacyCommand(String::from("rm -rf /"));
    assert!(!validate_row_action(&url, &none));
    assert!(validate_row_action(&url, &all));
    assert!(!validate_row_action(&file, &all));
    assert!(!validate_row_action(&copy, &none));
    assert!(validate_row_action(&copy, &all));
    assert!(!validate_row_action(&run, &none));
    assert!(validate_row_action(&run, &all));
    assert!(!validate_row_action(&legacy, &all));
    assert!(validate_row_action(&PluginRowAction::RefreshNow, &none));
    assert!(validate_row_action(&PluginRowAction::Custom { payload: String::from("p") }, &none));
}

#[test]
fn row_effects_quote_urls_and_text() {
    assert_eq!(shell_quote_single("it's"), "it'\"'\"'s");
    assert_eq!(shell_quote_single("plain"), "plain");
    assert_eq!(shell_quote_single("''"), "'\"'\"''\"'\"'");
    match row_effect(PluginRowAction::OpenUrl { url: String::from("https://a/'b") }) {
        RowEffect::Shell(c) => assert_eq!(c, "xdg-open 'https://a/'\"'\"'b'"),
        other => panic!("unexpected {other:?}"),
    }
    match row_effect(PluginRowAction::CopyText { text: String::from("hi") }) {
        RowEffect::Shell(c) => assert_eq!(c, "printf %s 'hi' | wl-copy"),
        other => panic!("unexpected {other:?}"),
    }
    assert!(matches!(row_effect(PluginRowAction::RefreshNow), RowEffect::Refresh));
    assert!(matches!(
        row_effect(PluginRowAction::Custom { payload: String::from("x") }),
        RowEffect::Custom(p) if p == "x"
    ));
    assert!(matches!(
        row_effect(PluginRowAction::LegacyCommand(String::from("ls"))),
        RowEffect::Shell(c) if c == "ls"
    ));
}

#[test]
fn abi_versions_other_than_one_are_refused() {
    assert_eq!(check_abi_version(1), Ok(()));
    assert_eq!(
        check_abi_version(2),
        Err(String::from("unsupported plugin ABI version 2, expected 1"))
    );
    assert_eq!(
        check_abi_version(-17),
        Err(String::from("unsupported plugin ABI version -17, expected 1"))
    );
    assert_eq!(
        check_abi_version(i32::MIN),
        Err(format!("unsupported plugin ABI version {}, expected 1", i32::MIN))
    );
}

#[test]
fn shell_failures_are_described() {
    assert_eq!(shell_failure_message("  oops \n", Some(1)), "oops");
    assert_eq!(shell_failure_message(" ", Some(127)), "command exited with status Some(127)");
    assert_eq!(shell_failure_message("", None), "command exited with status None");
}

#[test]
fn lazy_load_is_announced_once_per_plugin() {
    let mut log = LazyInitLog::new();
    assert!(log.should_log("a"));
    assert!(!log.should_log("a"));
    assert!(log.should_log("b"));
    assert!(!log.should_log("a"));
    let (name, version, author) = lazy_load_banner("demo", None, Some(String::from("me")), None);
    assert_eq!((name.as_str(), version.as_str(), author.as_str()), ("demo", "unknown", "me"));
}

#[test]
fn memory_ranges_are_checked() {
    assert_eq!(payload_range(0, 100), Err(String::from("WASM payload missing")));
    assert_eq!(payload_range(pack_payload(8, 0), 100), Err(String::from("WASM payload length is zero")));
    assert_eq!(payload_range(pack_payload(8, 10), 100), Ok((8, 18)));
    assert_eq!(
        payload_range(pack_payload(95, 10), 100),
        Err(String::from("WASM payload range out of memory bounds"))
    );
    assert_eq!(
        manifest_payload_range(pack_payload(8, 0), 100),
        Err(String::from("WASM manifest payload length is zero"))
    );
    assert_eq!(manifest_payload_range(pack_payload(0, 4), 4), Ok((0, 4)));
    assert_eq!(manifest_payload_range(0, 4), Err(String::from("WASM plugin manifest payload missing")));
    assert_eq!(write_range(usize::MAX, 1, 10), Err(String::from("WASM write range overflow")));
    assert_eq!(write_range(5, 5, 10), Ok((5, 10)));
    assert_eq!(guest_read_range(-1, 1, 10), Err(String::from("negative pointer")));
    assert_eq!(guest_read_range(1, -1, 10), Err(String::from("negative length")));
    assert_eq!(guest_read_range(8, 4, 10), Err(String::from("range out of bounds")));
    assert_eq!(guest_log_range(-1, 1, 10), Err(String::from("negative log pointer")));
    assert_eq!(guest_log_range(2, 3, 10), Ok((2, 5)));
    assert_eq!(input_len(3), Ok(3));
    assert_eq!(guest_reply_alloc_len(0), Ok(1));
    assert_eq!(guest_reply_alloc_len(7), Ok(7));
    assert_eq!(guest_reply_range(4, 1, 4), Err(String::from("range out of bounds")));
    assert_eq!(guest_reply_range(3, 1, 4), Ok((3, 4)));
}

#[test]
fn paths_expand_home_and_variables() {
    let env = vec![
        (String::from("HOME"), String::from("/home/me")),
        (String::from("XDG_DATA"), String::from("/data")),
        (String::from("HOME"), String::from("/shadowed")),
    ];
    assert_eq!(expand_path("~/plugins/a.wasm", &env), "/home/me/plugins/a.wasm");
    assert_eq!(expand_path("~", &env), "/home/me");
    assert_eq!(expand_path("$XDG_DATA/p.wasm", &env), "/data/p.wasm");
    assert_eq!(expand_path("${XDG_DATA}x", &env), "/datax");
    assert_eq!(expand_path("$UNKNOWN/p", &env), "$UNKNOWN/p");
    assert_eq!(expand_path("${UNKNOWN}/p", &env), "${UNKNOWN}/p");
    assert_eq!(expand_path("/abs/path.wasm", &env), "/abs/path.wasm");
    assert_eq!(expand_path("~user/x", &env), "~user/x");
    assert_eq!(expand_path("~/x", &Vec::new()), "/x");
    assert_eq!(expand_path("~", &Vec::new()), "~");
    assert_eq!(expand_path("a$", &env), "a$");
    assert_eq!(expand_path("${HOME", &env), "/home/me");
}

#[test]
fn variable_names_follow_unicode_alphanumerics() {
    let env = vec![(String::from("ÄBC_1"), String::from("v"))];
    assert_eq!(expand_path("$ÄBC_1-x", &env), "v-x");
    assert_eq!(expand_path("$ÄBC_1x", &env), "$ÄBC_1x");
}

#[test]
fn host_runs_only_allowed_commands() {
    let allowed = definition(&["command.exec"], &["echo"]);
    assert_eq!(
        command_decision(&allowed, String::from("echo hi")),
        CommandDecision::Run(String::from("echo hi"))
    );
    assert_eq!(
        command_decision(&allowed, String::from("rm -rf ~")),
        CommandDecision::Reply(String::from(
            "__WAYLE_ERROR__:WAYLE_ERR_POLICY_VIOLATION:command not allowed by command-exec-allowed-prefixes"
        ))
    );
    let no_capability = definition(&[], &["echo"]);
    assert_eq!(
        command_decision(&no_capability, String::from("echo hi")),
        CommandDecision::Reply(String::from(
            "__WAYLE_ERROR__:WAYLE_ERR_PERMISSION_DENIED:missing capability command.exec"
        ))
    );
}
