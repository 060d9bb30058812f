//! Decision logic for re-registering an application's global hotkeys from its
//! configuration: which shortcut slots to bind, in which order, how a failure
//! cuts the run short, and how the text-selection feature is enabled or shut
//! down. The machine here decides each step; an unverified driver performs the
//! OS-side effects and reports their outcomes back.

pub mod config;
pub mod laws;
pub mod registrar;

pub use config::ShortcutConfig;
pub use registrar::{Action, Event, Phase, Registrar, Slot};
