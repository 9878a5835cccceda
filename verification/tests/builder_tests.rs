use wayle_plugin::sdk::types::{default_visible, WaylePlugin};
use wayle_plugin::{
    validate_dropdown_item, ActionBuilder, DropdownBuilder, PluginAction, PluginDropdownItem,
    PluginManifest, PluginRowAction, PluginStyle, PluginTypedRowAction, PluginUpdate,
    PluginUpdateBuilder, ValidationError, PLUGIN_ABI_VERSION,
};

#[test]
fn dropdown_builder_creates_separator() {
    let dropdown = DropdownBuilder::new().separator().build();
    assert_eq!(dropdown.items.len(), 1);
    assert!(dropdown.items[0].label.is_empty());
}

#[test]
fn dropdown_builder_sets_title_and_empty_label() {
    let dropdown = DropdownBuilder::new()
        .title("My title")
        .empty_label("Nothing here")
        .build();
    assert_eq!(dropdown.title.as_deref(), Some("My title"));
    assert_eq!(dropdown.empty_label.as_deref(), Some("Nothing here"));
}

#[test]
fn update_builder_success_path() {
    let dropdown = DropdownBuilder::new()
        .item(PluginDropdownItem {
            label: String::from("Section"),
            description: None,
            action: None,
        })
        .build();

    let update = PluginUpdateBuilder::new("ok")
        .tooltip("tip")
        .visible(false)
        .dropdown(dropdown)
        .style(PluginStyle {
            button_class: Some(String::from("btn")),
            dropdown_class: Some(String::from("dd")),
            css: None,
            once: true,
            dropdown_height_percent: None,
        })
        .build()
        .expect("valid update should build");

    assert_eq!(update.label, "ok");
    assert_eq!(update.tooltip.as_deref(), Some("tip"));
    assert!(!update.visible);
    assert!(update.style.is_some());
}

#[test]
fn update_builder_validates_items() {
    let dropdown = DropdownBuilder::new()
        .item(PluginDropdownItem {
            label: String::new(),
            description: Some(String::from("not a separator")),
            action: Some(PluginRowAction::Legacy(String::from("echo hi"))),
        })
        .build();

    let error = PluginUpdateBuilder::new("ok")
        .dropdown(dropdown)
        .build()
        .expect_err("invalid row should fail");
    assert_eq!(error, ValidationError::EmptyLabel);
}

#[test]
fn update_builder_rejects_blank_label_and_accepts_separators() {
    let error = PluginUpdateBuilder::new(" \t ").build().expect_err("blank label");
    assert_eq!(error, ValidationError::EmptyLabel);

    let dropdown = DropdownBuilder::new().separator().title_xalign_bits(0x3f00_0000).build();
    assert_eq!(dropdown.title_xalign_bits, Some(0x3f00_0000));
    let update = PluginUpdateBuilder::new("ok").dropdown(dropdown).build().expect("separator row");
    assert!(update.visible);
    assert_eq!(update.dropdown.map(|d| d.items.len()), Some(1));
}

#[test]
fn accepts_separator_dropdown_item() {
    let item = PluginDropdownItem {
        label: String::new(),
        description: None,
        action: None,
    };
    validate_dropdown_item(&item).expect("separator row should be valid");
}

#[test]
fn rejects_non_separator_empty_label_row() {
    let item = PluginDropdownItem {
        label: String::new(),
        description: Some(String::from("desc")),
        action: None,
    };
    let error = validate_dropdown_item(&item).expect_err("invalid row should fail");
    assert_eq!(error, ValidationError::EmptyLabel);
}

#[test]
fn action_builder_keeps_the_text() {
    match ActionBuilder::run_command(" ls -la ").expect("command") {
        PluginRowAction::Typed(PluginTypedRowAction::RunCommand { command }) => {
            assert_eq!(command, " ls -la ")
        }
        other => panic!("unexpected {other:?}"),
    }
    match ActionBuilder::open_url("  http://a.b").expect("url after trimming") {
        PluginRowAction::Typed(PluginTypedRowAction::OpenUrl { url }) => assert_eq!(url, "  http://a.b"),
        other => panic!("unexpected {other:?}"),
    }
    assert_eq!(
        ActionBuilder::open_url("ftp://a.b").expect_err("ftp"),
        ValidationError::InvalidUrlScheme
    );
}

#[test]
fn unicode_whitespace_counts_as_blank() {
    assert_eq!(
        wayle_plugin::validate_label("\u{3000}\u{a0}\n").expect_err("ideographic space"),
        ValidationError::EmptyLabel
    );
    wayle_plugin::validate_label("\u{200b}").expect("zero-width space is not whitespace");
}

#[test]
fn dropdown_height_percent_is_clamped() {
    let style = PluginStyle {
        button_class: None,
        dropdown_class: None,
        css: Some(String::from(".x {}")),
        once: false,
        dropdown_height_percent: None,
    };
    assert_eq!(style.clone().with_dropdown_height_percent(0).dropdown_height_percent, Some(1));
    assert_eq!(style.clone().with_dropdown_height_percent(50).dropdown_height_percent, Some(50));
    let clamped = style.with_dropdown_height_percent(200);
    assert_eq!(clamped.dropdown_height_percent, Some(100));
    assert_eq!(clamped.css.as_deref(), Some(".x {}"));
}

#[test]
fn validation_messages() {
    assert_eq!(ValidationError::EmptyLabel.to_message(), "label must not be empty");
    assert_eq!(ValidationError::EmptyCommand.to_message(), "command must not be empty");
    assert_eq!(ValidationError::EmptyText.to_message(), "text must not be empty");
    assert_eq!(ValidationError::EmptyPayload.to_message(), "custom payload must not be empty");
    assert_eq!(
        ValidationError::InvalidUrlScheme.to_message(),
        "url must start with http:// or https://"
    );
}

#[derive(Default)]
struct DefaultOnly;

impl WaylePlugin for DefaultOnly {
    fn manifest(&self) -> PluginManifest {
        PluginManifest {
            id: String::from("default-only"),
            version: String::from("0.1.0"),
            abi: PLUGIN_ABI_VERSION,
            name: String::from("Default Only"),
            description: None,
            author: String::from("Wayle"),
            homepage: None,
            license: String::from("MIT"),
            capabilities: Vec::new(),
            command_exec_allowed_prefixes: Vec::new(),
            fs_read_allowed_paths: Vec::new(),
            features: Vec::new(),
        }
    }

    fn refresh(&mut self) -> Result<PluginUpdate, String> {
        Ok(PluginUpdate {
            label: String::from("r"),
            tooltip: None,
            visible: true,
            dropdown: None,
            style: None,
        })
    }
}

#[test]
fn wayle_plugin_defaults() {
    let mut plugin = DefaultOnly;
    assert!(
        plugin
            .init(serde_json::Value::Null)
            .expect("default init")
            .is_none()
    );
    assert_eq!(plugin.manifest().id, "default-only");
    assert!(
        plugin
            .on_action(PluginAction::LeftClick)
            .expect("default on_action")
            .is_none()
    );
    assert!(
        plugin
            .on_row_action(String::from("payload"))
            .expect("default on_row_action")
            .is_none()
    );
    assert!(default_visible());
}
