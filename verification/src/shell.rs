//! The host side: the plugin runtime's decisions and the bar module's
//! state machine.

pub mod memory;
pub mod module;
pub mod paths;
pub mod policy;
pub mod registry;
