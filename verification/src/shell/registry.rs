//! The runtime's own view of plugin payloads, and the translation of what a
//! WASM plugin returns into it.

use vstd::prelude::*;

use crate::config::{ClickAction, PluginDefinition};
use crate::sdk::types as wire;
use crate::text::{owned, trim, trimmed};

verus! {

/// Bar interactions forwarded to a plugin.
#[derive(Debug, Clone, Copy, PartialEq, Eq, Structural)]
pub enum PluginAction {
    LeftClick,
    RightClick,
    MiddleClick,
    ScrollUp,
    ScrollDown,
}

/// A dropdown row action, with legacy command strings kept apart.
#[derive(Debug, Clone)]
pub enum PluginRowAction {
    OpenUrl { url: String },
    RunCommand { command: String },
    CopyText { text: String },
    Custom { payload: String },
    RefreshNow,
    LegacyCommand(String),
}

/// One dropdown row.
#[derive(Debug, Clone)]
pub struct PluginDropdownItem {
    pub label: String,
    pub description: Option<String>,
    pub action: Option<PluginRowAction>,
}

/// A dropdown; `title_xalign_bits` holds the bits of an `f32`.
#[derive(Debug, Clone)]
pub struct PluginDropdown {
    pub title: Option<String>,
    pub title_xalign_bits: Option<u32>,
    pub empty_label: Option<String>,
    pub items: Vec<PluginDropdownItem>,
}

/// Style hints for the module.
#[derive(Debug, Clone)]
pub struct PluginStyle {
    pub button_class: Option<String>,
    pub dropdown_class: Option<String>,
    pub css: Option<String>,
    pub once: bool,
    pub dropdown_height_percent: Option<u8>,
}

/// One snapshot of a plugin's state.
#[derive(Debug, Clone)]
pub struct PluginUpdate {
    pub label: String,
    pub tooltip: Option<String>,
    pub visible: bool,
    pub dropdown: Option<PluginDropdown>,
    pub style: Option<PluginStyle>,
}

/// What a plugin made of an interaction.
#[derive(Debug, Clone)]
pub enum PluginActionResult {
    Unhandled,
    Consumed(Option<PluginUpdate>),
}

/// The ABI code of each action.
pub open spec fn action_code(action: PluginAction) -> i32 {
    match action {
        PluginAction::LeftClick => 1,
        PluginAction::RightClick => 2,
        PluginAction::MiddleClick => 3,
        PluginAction::ScrollUp => 4,
        PluginAction::ScrollDown => 5,
    }
}

/// The code passed to `plugin_on_action`.
pub fn encode_action(action: PluginAction) -> (r: i32)
    ensures
        r == action_code(action),
{
    match action {
        PluginAction::LeftClick => 1,
        PluginAction::RightClick => 2,
        PluginAction::MiddleClick => 3,
        PluginAction::ScrollUp => 4,
        PluginAction::ScrollDown => 5,
    }
}

/// The runtime form of a wire row action: legacy strings become
/// `LegacyCommand`, typed actions keep their kind and text.
pub open spec fn runtime_action(action: wire::PluginRowAction) -> PluginRowAction {
    match action {
        wire::PluginRowAction::Legacy(command) => PluginRowAction::LegacyCommand(command),
        wire::PluginRowAction::Typed(wire::PluginTypedRowAction::OpenUrl { url }) => {
            PluginRowAction::OpenUrl { url }
        },
        wire::PluginRowAction::Typed(wire::PluginTypedRowAction::RunCommand { command }) => {
            PluginRowAction::RunCommand { command }
        },
        wire::PluginRowAction::Typed(wire::PluginTypedRowAction::CopyText { text }) => {
            PluginRowAction::CopyText { text }
        },
        wire::PluginRowAction::Typed(wire::PluginTypedRowAction::Custom { payload }) => {
            PluginRowAction::Custom { payload }
        },
        wire::PluginRowAction::Typed(wire::PluginTypedRowAction::RefreshNow) => {
            PluginRowAction::RefreshNow
        },
    }
}

/// Translates a row action from the wire form.
pub fn map_row_action(action: wire::PluginRowAction) -> (r: PluginRowAction)
    ensures
        r == runtime_action(action),
{
    match action {
        wire::PluginRowAction::Legacy(command) => PluginRowAction::LegacyCommand(command),
        wire::PluginRowAction::Typed(wire::PluginTypedRowAction::OpenUrl { url }) => {
            PluginRowAction::OpenUrl { url }
        },
        wire::PluginRowAction::Typed(wire::PluginTypedRowAction::RunCommand { command }) => {
            PluginRowAction::RunCommand { command }
        },
        wire::PluginRowAction::Typed(wire::PluginTypedRowAction::CopyText { text }) => {
            PluginRowAction::CopyText { text }
        },
        wire::PluginRowAction::Typed(wire::PluginTypedRowAction::Custom { payload }) => {
            PluginRowAction::Custom { payload }
        },
        wire::PluginRowAction::Typed(wire::PluginTypedRowAction::RefreshNow) => {
            PluginRowAction::RefreshNow
        },
    }
}

/// The runtime form of a wire row.
pub open spec fn runtime_item(item: wire::PluginDropdownItem) -> PluginDropdownItem {
    PluginDropdownItem {
        label: item.label,
        description: item.description,
        action: match item.action {
            Some(a) => Some(runtime_action(a)),
            None => None,
        },
    }
}

/// The runtime form of a wire style.
pub open spec fn runtime_style(style: wire::PluginStyle) -> PluginStyle {
    PluginStyle {
        button_class: style.button_class,
        dropdown_class: style.dropdown_class,
        css: style.css,
        once: style.once,
        dropdown_height_percent: style.dropdown_height_percent,
    }
}

fn map_items(items: Vec<wire::PluginDropdownItem>) -> (r: Vec<PluginDropdownItem>)
    ensures
        r@ == items@.map_values(|it: wire::PluginDropdownItem| runtime_item(it)),
{
    let mut rest = items;
    let mut out: Vec<PluginDropdownItem> = Vec::new();
    let ghost all = items@;
    while rest.len() > 0
        invariant
            all == items@,
            out@.len() + rest@.len() == all.len(),
            rest@ == all.subrange(out@.len() as int, all.len() as int),
            forall|k: int| 0 <= k < out@.len() ==> out@[k] == runtime_item(#[trigger] all[k]),
        decreases rest@.len(),
    {
        let item = rest.remove(0);
        let action = match item.action {
            Some(a) => Some(map_row_action(a)),
            None => None,
        };
        out.push(PluginDropdownItem { label: item.label, description: item.description, action });
    }
    assert(out@ =~= all.map_values(|it: wire::PluginDropdownItem| runtime_item(it)));
    out
}

/// `r` is `update` in the runtime form: the same texts and flags, each row
/// and style translated.
pub open spec fn translated(update: wire::PluginUpdate, r: PluginUpdate) -> bool {
    &&& r.label == update.label
    &&& r.tooltip == update.tooltip
    &&& r.visible == update.visible
    &&& r.style == match update.style {
        Some(s) => Some(runtime_style(s)),
        None => None,
    }
    &&& match (update.dropdown, r.dropdown) {
        (Some(d), Some(e)) => {
            &&& e.title == d.title
            &&& e.title_xalign_bits == d.title_xalign_bits
            &&& e.empty_label == d.empty_label
            &&& e.items@ == d.items@.map_values(|it: wire::PluginDropdownItem| runtime_item(it))
        },
        (None, None) => true,
        _ => false,
    }
}

/// Translates a decoded refresh payload into the runtime form.
pub fn decode_update(update: wire::PluginUpdate) -> (r: PluginUpdate)
    ensures
        translated(update, r),
{
    let dropdown = match update.dropdown {
        Some(d) => Some(
            PluginDropdown {
                title: d.title,
                title_xalign_bits: d.title_xalign_bits,
                empty_label: d.empty_label,
                items: map_items(d.items),
            },
        ),
        None => None,
    };
    let style = match update.style {
        Some(s) => Some(
            PluginStyle {
                button_class: s.button_class,
                dropdown_class: s.dropdown_class,
                css: s.css,
                once: s.once,
                dropdown_height_percent: s.dropdown_height_percent,
            },
        ),
        None => None,
    };
    PluginUpdate {
        label: update.label,
        tooltip: update.tooltip,
        visible: update.visible,
        dropdown,
        style,
    }
}

/// The update for a refresh payload: the decoded JSON when `parsed` holds
/// it, otherwise the whole payload, trimmed, as a plain label.
pub fn decode_payload(payload: &str, parsed: Option<wire::PluginUpdate>) -> (r: PluginUpdate)
    ensures
        match parsed {
            Some(u) => translated(u, r),
            None => r.label@ == trimmed(payload@) && r.tooltip is None && r.visible
                && r.dropdown is None && r.style is None,
        },
{
    match parsed {
        Some(u) => decode_update(u),
        None => PluginUpdate {
            label: owned(trim(payload)),
            tooltip: None,
            visible: true,
            dropdown: None,
            style: None,
        },
    }
}

/// The configured click action for an interaction.
pub open spec fn configured_action(definition: PluginDefinition, action: PluginAction) -> ClickAction {
    match action {
        PluginAction::LeftClick => definition.left_click,
        PluginAction::RightClick => definition.right_click,
        PluginAction::MiddleClick => definition.middle_click,
        PluginAction::ScrollUp => definition.scroll_up,
        PluginAction::ScrollDown => definition.scroll_down,
    }
}

/// The configured click action for an interaction (`action_for`).
pub fn action_for(definition: &PluginDefinition, action: PluginAction) -> (r: ClickAction)
    ensures
        r == configured_action(*definition, action),
{
    match action {
        PluginAction::LeftClick => definition.left_click.clone(),
        PluginAction::RightClick => definition.right_click.clone(),
        PluginAction::MiddleClick => definition.middle_click.clone(),
        PluginAction::ScrollUp => definition.scroll_up.clone(),
        PluginAction::ScrollDown => definition.scroll_down.clone(),
    }
}

/// The runtime's CSS class.
pub fn css_class() -> (r: &'static str)
    ensures
        r@ == "plugin-wasm"@,
{
    "plugin-wasm"
}

} // verus!
