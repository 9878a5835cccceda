//! Verified core of the Wayle WASM bar-plugin system: the plugin SDK's
//! payload types, validators, builders and host-reply decoding; the plugin
//! configuration policy; and the decisions that the shell's plugin runtime
//! and bar module take.

pub mod text;
pub mod config;
pub mod laws;
pub mod sdk;
pub mod shell;

pub use sdk::types::{
    PluginAction, PluginDropdown, PluginDropdownItem, PluginManifest, PluginRowAction,
    PluginStyle, PluginTypedRowAction, PluginUpdate, WaylePlugin, PLUGIN_ABI_VERSION,
};
pub use sdk::host::{HostError, HostResult};
pub use sdk::builders::{ActionBuilder, DropdownBuilder, PluginUpdateBuilder};
pub use sdk::validators::{
    validate_command, validate_copy_text, validate_custom_payload, validate_dropdown_item,
    validate_label, validate_typed_action, validate_url, ValidationError,
};
