//! Payload types that a plugin hands to the host, and the bar interactions
//! that the host hands to a plugin.

use vstd::prelude::*;

verus! {

/// The plugin ABI version that this SDK targets.
pub const PLUGIN_ABI_VERSION: i32 = 1;

/// Bar interactions, with the codes that cross the ABI.
#[derive(Debug, Clone, Copy, PartialEq, Eq, Structural)]
pub enum PluginAction {
    LeftClick,
    RightClick,
    MiddleClick,
    ScrollUp,
    ScrollDown,
}

/// The action that an ABI code names, if any: 1 to 5 in declaration order.
pub open spec fn action_of_code(code: i32) -> Option<PluginAction> {
    if code == 1 {
        Some(PluginAction::LeftClick)
    } else if code == 2 {
        Some(PluginAction::RightClick)
    } else if code == 3 {
        Some(PluginAction::MiddleClick)
    } else if code == 4 {
        Some(PluginAction::ScrollUp)
    } else if code == 5 {
        Some(PluginAction::ScrollDown)
    } else {
        None
    }
}

impl PluginAction {
    /// Decodes the action code passed to `plugin_on_action`.
    pub fn from_code(code: i32) -> (r: Option<Self>)
        ensures
            r == action_of_code(code),
    {
        match code {
            1 => Some(Self::LeftClick),
            2 => Some(Self::RightClick),
            3 => Some(Self::MiddleClick),
            4 => Some(Self::ScrollUp),
            5 => Some(Self::ScrollDown),
            _ => None,
        }
    }
}

/// A typed action attached to a dropdown row.
#[derive(Debug, Clone)]
pub enum PluginTypedRowAction {
    OpenUrl { url: String },
    RunCommand { command: String },
    CopyText { text: String },
    Custom { payload: String },
    RefreshNow,
}

/// A dropdown row action: a bare command string (older plugins) or a typed
/// action.
#[derive(Debug, Clone)]
pub enum PluginRowAction {
    Legacy(String),
    Typed(PluginTypedRowAction),
}

/// One dropdown row. An empty label with neither description nor action is
/// a separator.
#[derive(Debug, Clone)]
pub struct PluginDropdownItem {
    pub label: String,
    pub description: Option<String>,
    pub action: Option<PluginRowAction>,
}

/// The dropdown that a plugin attaches to its bar button.
/// `title_xalign_bits` holds the IEEE-754 bits (`f32::to_bits`) of the
/// title's horizontal alignment, `0.0` (left) to `1.0` (right).
#[derive(Debug, Clone)]
pub struct PluginDropdown {
    pub title: Option<String>,
    pub title_xalign_bits: Option<u32>,
    pub empty_label: Option<String>,
    pub items: Vec<PluginDropdownItem>,
}

/// Style hints for the bar button and its dropdown.
#[derive(Debug, Clone)]
pub struct PluginStyle {
    pub button_class: Option<String>,
    pub dropdown_class: Option<String>,
    pub css: Option<String>,
    pub once: bool,
    pub dropdown_height_percent: Option<u8>,
}

/// `percent` clamped to `1..=100`.
pub open spec fn clamp_percent(percent: u8) -> u8 {
    if percent < 1 {
        1
    } else if percent > 100 {
        100
    } else {
        percent
    }
}

impl PluginStyle {
    /// Sets the dropdown height, as a percentage of the screen height,
    /// clamped to `1..=100`.
    pub fn with_dropdown_height_percent(self, percent: u8) -> (r: Self)
        ensures
            r.dropdown_height_percent == Some(clamp_percent(percent)),
            r.button_class == self.button_class,
            r.dropdown_class == self.dropdown_class,
            r.css == self.css,
            r.once == self.once,
    {
        let clamped = if percent < 1 {
            1
        } else if percent > 100 {
            100
        } else {
            percent
        };
        PluginStyle { dropdown_height_percent: Some(clamped), ..self }
    }
}

/// What a plugin reports on each refresh.
#[derive(Debug, Clone)]
pub struct PluginUpdate {
    pub label: String,
    pub tooltip: Option<String>,
    pub visible: bool,
    pub dropdown: Option<PluginDropdown>,
    pub style: Option<PluginStyle>,
}

/// Plugin metadata, returned by `plugin_manifest`.
#[derive(Debug, Clone)]
pub struct PluginManifest {
    pub id: String,
    pub version: String,
    pub abi: i32,
    pub name: String,
    pub description: Option<String>,
    pub author: String,
    pub homepage: Option<String>,
    pub license: String,
    pub capabilities: Vec<String>,
    pub command_exec_allowed_prefixes: Vec<String>,
    pub fs_read_allowed_paths: Vec<String>,
    pub features: Vec<String>,
}

/// The value that a payload without a `visible` field takes.
pub fn default_visible() -> (r: bool)
    ensures
        r,
{
    true
}

/// The characters of an optional string.
pub open spec fn opt_view(o: Option<String>) -> Option<Seq<char>> {
    match o {
        Some(s) => Some(s@),
        None => None,
    }
}

} // verus!

verus! {

/// A Wayle bar plugin. `manifest` and `refresh` are required; the other
/// hooks default to "no update".
pub trait WaylePlugin: Default + Send {
    /// Receives the plugin-specific configuration once, at load.
    fn init(&mut self, _config: serde_json::Value) -> (r: Result<Option<PluginUpdate>, String>)
        default_ensures
            r == Ok::<Option<PluginUpdate>, String>(None),
    {
        Ok(None)
    }

    /// The plugin's metadata.
    fn manifest(&self) -> PluginManifest;

    /// The current state of the plugin.
    fn refresh(&mut self) -> Result<PluginUpdate, String>;

    /// Reacts to a click or scroll on the bar button.
    fn on_action(&mut self, _action: PluginAction) -> (r: Result<Option<PluginUpdate>, String>)
        default_ensures
            r == Ok::<Option<PluginUpdate>, String>(None),
    {
        Ok(None)
    }

    /// Reacts to a custom dropdown row action.
    fn on_row_action(&mut self, _payload: String) -> (r: Result<Option<PluginUpdate>, String>)
        default_ensures
            r == Ok::<Option<PluginUpdate>, String>(None),
    {
        Ok(None)
    }
}

} // verus!
