//! Scoped execution-time instrumentation: a timer that records the time a
//! scope took into a labelled Prometheus histogram exactly once, and the
//! parsing of the arguments that attach such a timer to a function.

pub mod timer;
pub mod binding;
