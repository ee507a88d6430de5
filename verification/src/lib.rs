//! Tray, menu and window-visibility coordination for a single-window desktop
//! shell: what each host event does to the main window and to the process.

pub mod event;
pub mod laws;
pub mod menu;
pub mod names;
pub mod response;
pub mod shell;
pub mod startup;
pub mod window;
