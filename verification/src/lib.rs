//! A bridge between callers that submit source snippets and the external
//! `rust-analyzer` executable that inspects them.
//!
//! The bridge does no analysis of its own. It decides how the engine is
//! probed and run, names the temporary file that carries the code, reads the
//! engine's text output into diagnostics and suggestions, and keeps the
//! configuration. What touches the outside world (processes, files) is done
//! by the caller, step by step, as [`analysis::RequestState`] asks for it.

pub mod analysis;
pub mod config;
pub mod extract;
pub mod launcher;
pub mod model;
pub mod naming;
pub mod sample;
pub mod text;

pub use crate::config::RustAnalyzerConfig;
pub use crate::launcher::{initialize, RustAnalyzer};
pub use crate::model::{
    AnalysisResult, Diagnostic, DiagnosticSeverity, Position, Range, Suggestion,
};
