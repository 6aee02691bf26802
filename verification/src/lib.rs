//! Native backend of the Pucoti desktop timer.
//!
//! The backend has three responsibilities: ringing an audible bell (either a
//! user-supplied sound file or the clip embedded in the application),
//! mirroring the current timer state behind a reader/writer lock so a desktop
//! bus service can answer queries about it, and deciding what the command
//! line asks the application to do.  The decisions and the shared state live
//! here with their contracts; the application shell performs the actual
//! audio output, bus serving and argument collection around them.

pub mod bell;
pub mod cli;
pub mod dbus_service;
