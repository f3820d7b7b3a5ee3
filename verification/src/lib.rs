//! Batch queries against a loaded project: which crates own a file, and
//! structural views of a single source text.

pub mod error;
pub mod interrupt;
pub mod introspect;
pub mod metrics;
pub mod order;
pub mod paths;
pub mod render;
pub mod resolve;
pub mod verbosity;
pub mod vfs;

pub use crate::error::{BatchError, ErrorKind};
pub use crate::introspect::{highlight, parse, symbols};
pub use crate::resolve::crate_options;
pub use crate::verbosity::Verbosity;
