//! A module-aware logging runtime.
//!
//! The library holds the state of a process-wide logger: a default severity,
//! per-module overrides resolved along the module hierarchy, the most verbose
//! severity in force, the output destination with its stream or memory
//! buffer, and the decoration flags. Every operation is specified over a
//! mathematical model of that state and verified against it.

pub mod config;
pub mod destination;
pub mod error;
pub mod level;
pub mod log_error;
pub mod mod_levels;
pub mod params;
pub mod record;
pub mod text;
pub mod timestamp;

pub use config::{LogConfig, LogConfigBuilder, LogConfigFile, DEFAULT_LOG_DEST, DEFAULT_LOG_LEVEL};
pub use destination::{ConsoleStream, LogDestination};
pub use error::{Error, ErrorKind};
pub use level::Level;
pub use log_error::{LogErrCtx, LogErrorKind};
pub use mod_levels::ModLevels;
pub use params::{Emitted, LogStream, LoggerParams};
