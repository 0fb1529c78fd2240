//! The rules behind a small desktop shell: the greeting it answers with, the
//! screenshot command it runs and how it reports the outcome, and the order in
//! which it hands over from the splash screen to the main window.
//!
//! Nothing here touches a process, a file or a window. A caller runs the
//! command, looks up the windows, and gives what happened to these functions.

pub mod capture;
pub mod greeting;
pub mod splashscreen;
