//! Application settings: configuration, preferences, tracing and command
//! line options.

pub mod command;
pub mod config;
pub mod load_status;
pub mod prefs;
pub mod process;
pub mod schema;
pub mod trace;
pub mod walk;

pub use config::Config;
pub use load_status::Format;
pub use load_status::LoadStatus;
pub use prefs::Prefs;
pub use trace::TraceConfig;
pub use command::CliOpts;
pub use command::ColorOption;
pub use command::ColorOptionParseError;
