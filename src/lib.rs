//! Host-side contract for dynamically loaded search plugins: severity
//! filtering and structured log events, typed configuration stores, plain
//! data records exchanged with plugins, and the decisions of the plugin loader.

pub mod chars;
pub mod config;
pub mod loader;
pub mod logging;
pub mod records;

pub use chars::ColoredChar;
pub use config::{Config, EntryType, EntryView, EnumEntry};
pub use loader::{advance, plugin_id_for, Holdings, LoadError, LoadStage, Resource};
pub use logging::{
    import_event, log_event, LogLevel, LogLevelBitmask, LogLevelOrCustom, LogMessage, U128Wrapper,
};
pub use records::{PluginId, SearchResult};
