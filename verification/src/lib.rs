//! A terminal-multiplexer session launcher.
//!
//! Given a project directory, the library derives a session name and an
//! ordered list of window startup commands, then reconciles the multiplexer's
//! state with that plan: it creates the session if it is absent and attaches
//! or switches the calling client to it.  Naming and layout policy can be
//! overridden by a user-supplied configuration script; a deterministic
//! built-in fallback applies when the script leaves an entry point undefined.

pub mod config;
pub mod engine;
pub mod errors;
pub mod layout;
pub mod mux;
pub mod names;
pub mod reconcile;

pub use config::Config;
pub use config::ScriptSource;
pub use config::get_default_config;
pub use errors::EntryPoint;
pub use errors::Error;
pub use errors::MuxError;
pub use errors::Stage;
pub use names::fallback_session_name;
pub use reconcile::open;
