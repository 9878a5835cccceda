use wayle_plugin::sdk::host::{parse_host_error, HostError};
use wayle_plugin::{
    validate_command, validate_copy_text, validate_custom_payload, validate_label,
    validate_typed_action, validate_url, ActionBuilder, PluginAction, PluginRowAction,
    PluginTypedRowAction, ValidationError,
};

#[test]
fn action_builder_rejects_empty_command() {
    let error = ActionBuilder::run_command("  ").expect_err("empty command should fail");
    assert_eq!(error, ValidationError::EmptyCommand);
}

#[test]
fn action_builder_open_url_and_copy_text() {
    let open_url = ActionBuilder::open_url("https://example.org").expect("valid url");
    assert!(matches!(
        open_url,
        PluginRowAction::Typed(PluginTypedRowAction::OpenUrl { .. })
    ));

    let copy = ActionBuilder::copy_text("hello").expect("non-empty text");
    assert!(matches!(
        copy,
        PluginRowAction::Typed(PluginTypedRowAction::CopyText { .. })
    ));

    let refresh = ActionBuilder::refresh_now();
    assert!(matches!(
        refresh,
        PluginRowAction::Typed(PluginTypedRowAction::RefreshNow)
    ));
}

#[test]
fn action_builder_rejects_invalid_url_and_empty_text() {
    let url_error =
        ActionBuilder::open_url("file:///tmp/a").expect_err("file scheme should be rejected");
    assert_eq!(url_error, ValidationError::InvalidUrlScheme);

    let text_error = ActionBuilder::copy_text("   ").expect_err("empty text should fail");
    assert_eq!(text_error, ValidationError::EmptyText);

    let payload_error = ActionBuilder::custom("   ").expect_err("empty payload should fail");
    assert_eq!(payload_error, ValidationError::EmptyPayload);
}

#[test]
fn action_builder_custom_payload() {
    let custom = ActionBuilder::custom("collapse:system").expect("valid custom payload");
    assert!(matches!(
        custom,
        PluginRowAction::Typed(PluginTypedRowAction::Custom { .. })
    ));
}

#[test]
fn parses_known_error_code() {
    let parsed = parse_host_error("WAYLE_ERR_PERMISSION_DENIED:missing capability");
    assert_eq!(
        parsed,
        HostError::PermissionDenied(String::from("missing capability"))
    );
}

#[test]
fn parses_unknown_wayle_code() {
    let parsed = parse_host_error("WAYLE_ERR_FUTURE:details");
    assert_eq!(
        parsed,
        HostError::UnknownCode {
            code: String::from("WAYLE_ERR_FUTURE"),
            message: String::from("details"),
        }
    );
}

#[test]
fn keeps_legacy_message() {
    let parsed = parse_host_error("plain host failure");
    assert_eq!(
        parsed,
        HostError::Legacy(String::from("plain host failure"))
    );
}

#[test]
fn plugin_action_from_code_maps_all_variants() {
    assert_eq!(PluginAction::from_code(1), Some(PluginAction::LeftClick));
    assert_eq!(PluginAction::from_code(2), Some(PluginAction::RightClick));
    assert_eq!(PluginAction::from_code(3), Some(PluginAction::MiddleClick));
    assert_eq!(PluginAction::from_code(4), Some(PluginAction::ScrollUp));
    assert_eq!(PluginAction::from_code(5), Some(PluginAction::ScrollDown));
    assert_eq!(PluginAction::from_code(99), None);
}

#[test]
fn rejects_empty_label() {
    let error = validate_label("   ").expect_err("empty label should fail");
    assert_eq!(error, ValidationError::EmptyLabel);
}

#[test]
fn rejects_empty_command() {
    let error = validate_command("   ").expect_err("empty command should fail");
    assert_eq!(error, ValidationError::EmptyCommand);
}

#[test]
fn rejects_empty_copy_text() {
    let error = validate_copy_text("   ").expect_err("empty text should fail");
    assert_eq!(error, ValidationError::EmptyText);
}

#[test]
fn rejects_empty_custom_payload() {
    let error = validate_custom_payload("   ").expect_err("empty payload should fail");
    assert_eq!(error, ValidationError::EmptyPayload);
}

#[test]
fn rejects_invalid_url_scheme() {
    let error = validate_url("file:///tmp/a").expect_err("should reject file scheme");
    assert_eq!(error, ValidationError::InvalidUrlScheme);
}

#[test]
fn accepts_valid_run_command_action() {
    let action = PluginTypedRowAction::RunCommand {
        command: String::from("echo ok"),
    };
    validate_typed_action(&action).expect("command action should be valid");
}

#[test]
fn accepts_other_typed_actions() {
    validate_typed_action(&PluginTypedRowAction::OpenUrl {
        url: String::from("https://example.org"),
    })
    .expect("https url should be valid");

    validate_typed_action(&PluginTypedRowAction::CopyText {
        text: String::from("hello"),
    })
    .expect("copy text should be valid");

    validate_typed_action(&PluginTypedRowAction::Custom {
        payload: String::from("collapse:system"),
    })
    .expect("custom payload should be valid");

    validate_typed_action(&PluginTypedRowAction::RefreshNow)
        .expect("refresh action should be valid");
}
