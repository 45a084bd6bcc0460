//! Safety bridge between a native host plugin loader and plugin-side logic.
//!
//! The host calls into the plugin at fixed lifecycle points, handing over raw
//! tables and metadata. This crate owns the safe side of that boundary: it
//! keeps value copies of the host data, maintains the two process-wide
//! registries the host later consults (engine-load callbacks and
//! script-function descriptors), and tracks the one-shot logger installation.

pub mod context;
pub mod engine;
pub mod errors;
pub mod nslog;
pub mod plugin;
pub mod squirrel;

pub use context::ScriptVmType;
pub use plugin::PluginData;
