//! Verified core of a small C/C++ project manager.
//!
//! The library holds everything the tool decides and computes: resolving the
//! requested language variant, rendering the generated files, laying out the
//! project's directories, composing the exact command lines handed to the
//! build tool, the version-control tool, the formatter and the built
//! executable, and the policy that sequences those steps. The thin binary
//! around it only performs the filesystem writes and spawns the processes;
//! every string it writes or runs is produced here, under a contract that
//! pins the result exactly.

pub mod command;
pub mod dispatch;
pub mod error;
pub mod layout;
pub mod message;
pub mod render;
pub mod variant;
