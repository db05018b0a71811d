//! Decision logic of a tray-resident desktop shell.
//!
//! The shell owns a tray icon with a short menu and one popup window that
//! appears next to the icon. Everything here is a function from plain values
//! to plain values: where to put the popup, what a tray or menu event asks the
//! host to do, and how the query for the user's idle time proceeds. The host
//! program performs the window-system and operating-system calls.

pub mod idle;
pub mod placement;
pub mod platform;
pub mod shell;
