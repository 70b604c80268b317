//! A sandboxed judge: plans the compilation of a submission, the resource limits, the
//! seccomp policy and the fork/watchdog protocol under which a compiled program runs.
pub mod compiler;
pub mod config;
pub mod container;
pub mod server;
