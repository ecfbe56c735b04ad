//! Hardlinks dotfiles from a home directory into a git-tracked directory and
//! keeps that repository committed and pushed.
//!
//! The library holds the logic: how a source path maps to its place under the
//! dotfile root, and the decisions of one invocation as a state machine that
//! asks its caller to run commands and reports back what came of them.

pub mod args;
pub mod path;
pub mod setup;
pub mod stamp;
pub mod sync;
pub mod text;

pub use args::Opt;
pub use path::get_dest;
pub use sync::{Action, Event, Session, Step};
