//! Decision logic of a command-line tool that reads and adjusts the master
//! volume of the default audio endpoints.
//!
//! The tool itself talks to the platform's audio session API; what it decides
//! on the way is collected here and verified: which command an argument vector
//! names, whether a requested volume scalar is admissible, and what the tool
//! prints.

pub mod command;
pub mod message;
pub mod scalar;
