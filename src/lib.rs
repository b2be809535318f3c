//! Core of a tiling window manager: rectangles, the layout engine, the
//! window / workspace / display model, and the state machine that turns
//! window events and control commands into geometry actions.

pub mod protocol;
pub mod rect;
pub mod layout;
pub mod window;
pub mod windows_event;
pub mod workspace;
pub mod desktop;
pub mod machine;
pub mod commands;
pub mod laws;
