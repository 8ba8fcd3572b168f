//! Preflight validation of OpenGL driver capabilities.
//!
//! The library decides whether a freshly created rendering context satisfies
//! a declared capability requirement: a minimum version, a context profile,
//! a robustness policy and a list of required extension names.  All decision
//! logic is pure and verified; creating the context, querying it and printing
//! the diagnostics belong to the caller.

pub mod checker;
pub mod laws;
pub mod types;

pub use crate::types::CreationError;
pub use crate::types::Diagnostic;
pub use crate::types::GLChecker;
pub use crate::types::GlProfile;
pub use crate::types::LiveContextInfo;
pub use crate::types::Robustness;
