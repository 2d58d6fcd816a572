//! Terminal dashboard core for mounting remote storage drives: the drive
//! catalog parser, the cursor list, the mount set and the screen state machine.

pub mod app;
pub mod commands;
pub mod drive;
pub mod list;
pub mod mount;
pub mod text;
pub mod utils;
