//! Startup supervisor for a desktop application's auxiliary backend services.
//!
//! The library holds the decision logic: resolving the base directory that
//! contains the service bundle from an ordered list of candidate probes,
//! planning which child processes to spawn and which diagnostic records to
//! emit, and the fixed stop/status responses.  Filesystem probing, process
//! spawning and log output are performed by the surrounding application,
//! which feeds plain values in and carries the planned actions out.

pub mod diag;
pub mod resolver;
pub mod supervisor;
pub mod text;
