//! The `[[modules.plugins]]` configuration entry and its command policy.

use vstd::prelude::*;

use crate::text::{has_prefix, starts_with, str_eq, trim, trimmed};

verus! {

/// `serde_json::Value`, the plugin-specific configuration forwarded
/// verbatim to `plugin_init`.
#[verifier::external_type_specification]
#[verifier::external_body]
pub struct ExJsonValue(serde_json::Value);

/// Supported native plugin kinds.
#[derive(Debug, Clone, Copy, PartialEq, Eq, Structural)]
pub enum PluginKind {
    /// External WebAssembly plugin loaded at runtime.
    Wasm,
}

/// The theme tokens that plugin colors default to.
#[derive(Debug, Clone, Copy, PartialEq, Eq, Structural)]
pub enum CssToken {
    Accent,
    BorderAccent,
    BgSurfaceElevated,
}

/// A configured color: derived automatically or taken from a theme token.
#[derive(Debug, Clone, Copy, PartialEq, Eq, Structural)]
pub enum ColorValue {
    Auto,
    Token(CssToken),
}

/// What a click or scroll on the module does: nothing (`NoAction`), or the
/// configured action text (such as `dropdown:plugin-<id>` or a shell
/// command).
#[derive(Debug, PartialEq, Eq)]
pub enum ClickAction {
    NoAction,
    Run(String),
}

impl Clone for ClickAction {
    fn clone(&self) -> (r: Self)
        ensures
            r == *self,
    {
        match self {
            ClickAction::NoAction => ClickAction::NoAction,
            ClickAction::Run(s) => ClickAction::Run(s.clone()),
        }
    }
}

/// One configured plugin.
#[derive(Debug, PartialEq)]
pub struct PluginDefinition {
    /// Unique plugin identifier.
    pub id: String,
    /// Plugin implementation kind.
    pub kind: PluginKind,
    /// Whether this plugin is enabled.
    pub enabled: bool,
    /// Poll interval in milliseconds.
    pub interval_ms: u64,
    /// Path to a WebAssembly module for `kind = "wasm"`.
    pub wasm_path: Option<String>,
    /// Export name called for each refresh.
    pub wasm_refresh_export: String,
    /// Timeout in milliseconds for one WASM call.
    pub wasm_timeout_ms: u64,
    /// Declared plugin capabilities.
    pub capabilities: Vec<String>,
    /// Allowed command prefixes for the `command.exec` capability.
    pub command_exec_allowed_prefixes: Vec<String>,
    /// Allowed filesystem paths for the `fs.read.allowed_paths` capability.
    pub fs_read_allowed_paths: Vec<String>,
    /// Plugin-specific configuration passed to `plugin_init`.
    pub plugin_config: serde_json::Value,
    /// Deprecated; grants nothing on its own.
    pub allow_shell_commands: bool,
    /// Static symbolic icon name.
    pub icon_name: String,
    /// Display a border around the button.
    pub border_show: bool,
    /// Border color.
    pub border_color: ColorValue,
    /// Display the module icon.
    pub icon_show: bool,
    /// Icon foreground color.
    pub icon_color: ColorValue,
    /// Icon container background color.
    pub icon_bg_color: ColorValue,
    /// Display the text label.
    pub label_show: bool,
    /// Label text color.
    pub label_color: ColorValue,
    /// Max label characters before truncation with ellipsis.
    pub label_max_length: u32,
    /// Button background color.
    pub button_bg_color: ColorValue,
    /// Action on left click.
    pub left_click: ClickAction,
    /// Action on right click.
    pub right_click: ClickAction,
    /// Action on middle click.
    pub middle_click: ClickAction,
    /// Action on scroll up.
    pub scroll_up: ClickAction,
    /// Action on scroll down.
    pub scroll_down: ClickAction,
    /// Hide the module when the runtime reports it as not visible.
    pub hide_if_empty: bool,
}

/// Default of `enabled`.
pub fn default_enabled() -> (r: bool)
    ensures
        r,
{
    true
}

/// Default of `interval-ms`: fifteen minutes.
pub fn default_interval_ms() -> (r: u64)
    ensures
        r == 900_000,
{
    900_000
}

/// Default of `icon-name`.
pub fn default_icon_name() -> (r: String)
    ensures
        r@ == "tb-bolt-symbolic"@,
{
    String::from_str("tb-bolt-symbolic")
}

/// Default of `wasm-refresh-export`.
pub fn default_wasm_refresh_export() -> (r: String)
    ensures
        r@ == "refresh"@,
{
    String::from_str("refresh")
}

/// Default of `wasm-timeout-ms`: two seconds.
pub fn default_wasm_timeout_ms() -> (r: u64)
    ensures
        r == 2_000,
{
    2_000
}

/// Default of `allow-shell-commands`.
pub fn default_allow_shell_commands() -> (r: bool)
    ensures
        !r,
{
    false
}

/// Default of `capabilities`: none.
pub fn default_capabilities() -> (r: Vec<String>)
    ensures
        r@.len() == 0,
{
    Vec::new()
}

/// Default of `border-color`.
pub fn default_border_color() -> (r: ColorValue)
    ensures
        r == ColorValue::Token(CssToken::BorderAccent),
{
    ColorValue::Token(CssToken::BorderAccent)
}

/// Default of `icon-show`.
pub fn default_icon_show() -> (r: bool)
    ensures
        r,
{
    true
}

/// Default of `icon-color`.
pub fn default_icon_color() -> (r: ColorValue)
    ensures
        r == ColorValue::Auto,
{
    ColorValue::Auto
}

/// Default of `icon-bg-color`.
pub fn default_icon_bg_color() -> (r: ColorValue)
    ensures
        r == ColorValue::Token(CssToken::Accent),
{
    ColorValue::Token(CssToken::Accent)
}

/// Default of `label-show`.
pub fn default_label_show() -> (r: bool)
    ensures
        r,
{
    true
}

/// Default of `label-color`.
pub fn default_label_color() -> (r: ColorValue)
    ensures
        r == ColorValue::Token(CssToken::Accent),
{
    ColorValue::Token(CssToken::Accent)
}

/// Default of `button-bg-color`.
pub fn default_button_bg_color() -> (r: ColorValue)
    ensures
        r == ColorValue::Token(CssToken::BgSurfaceElevated),
{
    ColorValue::Token(CssToken::BgSurfaceElevated)
}

/// Default of `left-click`.
pub fn default_left_click() -> (r: ClickAction)
    ensures
        r == ClickAction::NoAction,
{
    ClickAction::NoAction
}

/// Some entry of `entries` is exactly `s`.
pub open spec fn contains_text(entries: Seq<String>, s: Seq<char>) -> bool {
    exists|i: int| 0 <= i < entries.len() && (#[trigger] entries[i])@ == s
}

/// Command execution is allowed when the capability list holds
/// `command.exec` and the trimmed command starts with some trimmed,
/// non-empty allowed prefix.
pub open spec fn command_allowed(
    capabilities: Seq<String>,
    prefixes: Seq<String>,
    command: Seq<char>,
) -> bool {
    &&& contains_text(capabilities, "command.exec"@)
    &&& exists|i: int|
        0 <= i < prefixes.len() && trimmed((#[trigger] prefixes[i])@).len() > 0 && has_prefix(
            trimmed(command),
            trimmed(prefixes[i]@),
        )
}

/// The command policy of a definition.
pub open spec fn definition_allows(definition: PluginDefinition, command: Seq<char>) -> bool {
    command_allowed(
        definition.capabilities@,
        definition.command_exec_allowed_prefixes@,
        command,
    )
}

/// Whether some entry of `entries` equals `s`.
pub fn vec_contains_text(entries: &Vec<String>, s: &str) -> (r: bool)
    ensures
        r == contains_text(entries@, s@),
{
    let n = entries.len();
    let mut i: usize = 0;
    while i < n
        invariant
            n == entries@.len(),
            i <= n,
            forall|k: int| 0 <= k < i ==> (#[trigger] entries@[k])@ != s@,
        decreases n - i,
    {
        if str_eq(entries[i].as_str(), s) {
            return true;
        }
        i = i + 1;
    }
    false
}

impl PluginDefinition {
    /// Returns true when the plugin declares the requested capability.
    pub fn has_capability(&self, capability: &str) -> (r: bool)
        ensures
            r == contains_text(self.capabilities@, capability@),
    {
        vec_contains_text(&self.capabilities, capability)
    }

    /// Returns true when command execution is allowed by capability and
    /// prefix policy.
    pub fn is_command_allowed(&self, command: &str) -> (r: bool)
        ensures
            r == definition_allows(*self, command@),
    {
        if !self.has_capability("command.exec") {
            return false;
        }
        if self.command_exec_allowed_prefixes.len() == 0 {
            return false;
        }
        let ghost original = command@;
        let trimmed_command = trim(command);
        let prefixes = &self.command_exec_allowed_prefixes;
        let n = prefixes.len();
        let mut i: usize = 0;
        while i < n
            invariant
                n == prefixes@.len(),
                i <= n,
                original == command@,
                trimmed_command@ == trimmed(original),
                prefixes@ == self.command_exec_allowed_prefixes@,
                contains_text(self.capabilities@, "command.exec"@),
                forall|k: int|
                    0 <= k < i ==> !(trimmed((#[trigger] prefixes@[k])@).len() > 0 && has_prefix(
                        trimmed_command@,
                        trimmed(prefixes@[k]@),
                    )),
            decreases n - i,
        {
            let prefix = trim(prefixes[i].as_str());
            if prefix.unicode_len() > 0 && starts_with(trimmed_command, prefix) {
                assert(trimmed((prefixes@[i as int])@).len() > 0 && has_prefix(
                    trimmed(original),
                    trimmed(prefixes@[i as int]@),
                ));
                return true;
            }
            i = i + 1;
        }
        false
    }
}

} // verus!
