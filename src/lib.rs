//! Focus state, key dispatch and frame description for a two-pane terminal view.

pub mod focus;
pub mod input;
pub mod layout;
pub mod view;
