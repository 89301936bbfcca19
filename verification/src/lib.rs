//! Lifecycle core for a single supervised worker process.
//!
//! The library models the state of a background worker supervisor — the
//! worker slot, the shortcut registration, the periodic timer — as plain
//! data with verified transition functions, together with the line-oriented
//! command encoding and the output-relay classification. An unverified
//! shell performs the actual process, window and timer I/O and drives
//! these transitions.

pub mod command;
pub mod config;
pub mod events;
pub mod hotkey;
pub mod interval;
pub mod numfmt;
pub mod paths;
pub mod relay;
pub mod supervisor;
pub mod tray;

pub use command::ActionCommand;
pub use events::LogEvent;
pub use events::LogLevel;
pub use hotkey::HotkeyManager;
pub use interval::IntervalManager;
pub use supervisor::Supervisor;
