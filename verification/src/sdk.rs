//! The plugin SDK: payload types, validators, builders and the decoding of
//! what the host answers a plugin.

pub mod builders;
pub mod host;
pub mod types;
pub mod validators;
