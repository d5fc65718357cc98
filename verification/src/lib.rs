//! Terminate processes referenced by PID, by name, or by the network port
//! they hold, with one reported outcome per requested target.
//!
//! The crate is organised around three verified pieces: token
//! classification (`classify`), point-in-time socket/process lookups
//! (`directory`), and a resolver state machine (`resolver`) that a thin
//! driver steps through, performing the operating-system queries and kill
//! signals the machine asks for.

pub mod classify;
pub mod directory;
pub mod messages;
pub mod model;
pub mod numbers;
pub mod resolver;
