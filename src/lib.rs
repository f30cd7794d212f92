//! Decision logic of the ARISE desktop shell: what the main window, the
//! tray icon, its menu and the global shortcut do in answer to each event,
//! and in what order the application is set up. The host framework performs
//! the effects that these functions return.
use vstd::prelude::*;

pub mod effects;
pub mod handlers;
pub mod setup;
pub mod shortcut;
pub mod text;
pub mod tray;
pub mod window;

verus! {

} // verus!
