//! Verified core of an SSH SOCKS-proxy tunnel supervisor.
//!
//! The library holds the logic of the tool: deriving PID-file and log-file
//! paths from a listen address, parsing process listings into process IDs,
//! building the argument vectors for the SSH client and the probe command,
//! judging launch success from captured diagnostics, classifying probe
//! results, and the state machines of the lifecycle supervisor and of the
//! background probe loop.  All process spawning, forking and file I/O lives
//! outside the library and hands it plain values.

pub mod cfg;
pub mod display;
pub mod dynamic_proxy;
pub mod inspector;
pub mod launch;
pub mod multi_proxy;
pub mod num;
pub mod probe;
pub mod supervisor;
pub mod text;
