//! Decision logic of an Evolution extension module: the GType facts it reads,
//! the actions and UI definitions it installs, and the state machine that
//! merges and removes a shell view's UI whenever the view is toggled.
use vstd::prelude::*;

pub mod actions;
pub mod gtype;
pub mod msg_composer;
pub mod shell_view;
pub mod toggle_laws;

verus! {
}
