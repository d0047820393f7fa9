//! Tray/window lifecycle controller for a single-instance desktop shell.
//!
//! The library models and verifies the decision core of the shell: the
//! visibility lifecycle of the one main window (a close request hides the
//! window instead of destroying it), dispatch of tray-menu selections and
//! tray-icon clicks, the single-instance gate that keeps a second process
//! from building a second window, and the fixed capability registry checked
//! at startup. The platform event loop performs the effects these decisions
//! call for; every decision itself is a verified function here.

pub mod event;
pub mod guard;
pub mod lifecycle;
pub mod menu;
pub mod registry;
pub mod window;
