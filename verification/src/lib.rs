//! The computation bridge of a HEC-RAS desktop shell: where the analysis
//! backend lives, how each operation is turned into positional process
//! arguments, and how a finished process becomes a uniform result envelope.

pub mod command;
pub mod desktop;
pub mod diagnostics;
pub mod envelope;
pub mod export;
pub mod locator;
pub mod operations;
pub mod outcome;
pub mod paths;
pub mod session;
pub mod text;
pub mod transient;

pub use envelope::{create_error_result, FileInfo, PythonResult};
pub use operations::terrain_arg_or_null;
