//! Runtime configuration for a memory-profiling agent.
//!
//! The process environment drives a fixed schema of tunables: each variable
//! is decoded into its destination type, with a silent fall back to a
//! compiled-in default whenever the variable is absent or malformed. The
//! embedder takes one snapshot of the environment, resolves the whole record
//! in a single pass, and from then on only reads it.

pub mod opts;
pub mod parse;
pub mod snapshot;

pub use opts::Opts;
pub use opts::crosscheck_unwind_results_with_libunwind;
pub use opts::emit_partial_backtraces;
pub use opts::initialize;
pub use snapshot::EnvSnapshot;
pub use snapshot::EnvValue;
pub use snapshot::EnvVar;
