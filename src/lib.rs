//! Registered tempfiles that are removed upon typical termination signals.
//!
//! A [`Registry`] tracks every live tempfile under an identifier that is never
//! handed out twice. A [`Registration`] is the caller's claim on one such entry:
//! removing it deletes the file, taking it hands the file to the caller, and a
//! sweep ([`cleanup_tempfiles`]) deletes everything still tracked, as a
//! termination signal handler does.
//!
//! The process-wide registry and the signal handlers that sweep it live with the
//! program that installs them; this library holds the logic they run.

pub mod mode;
pub mod path_parts;
pub mod registry;

pub use mode::SignalHandlerMode;
pub use path_parts::{file_name_parts, path_name_parts};
pub use registry::{at_path, cleanup_tempfiles, new, try_at_path, Registration, Registry, TempFile};
