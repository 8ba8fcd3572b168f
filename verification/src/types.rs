//! Data model: the capability requirement, the snapshot read back from a live
//! context, the creation-failure taxonomy, and structured diagnostics.

use vstd::prelude::*;

verus! {

/// The context profile a capability requirement can ask for.  The two
/// profiles are mutually exclusive subsets of the rendering API.
#[derive(Clone, Copy, Debug, PartialEq, Eq, Structural)]
pub enum GlProfile {
    Core,
    Compatibility,
}

/// Robustness policy of a capability requirement.  The `Try*` variants are
/// best-effort requests and never fail validation; the others demand that the
/// live context is, or is not, robust.
#[derive(Clone, Copy, Debug, PartialEq, Eq, Structural)]
pub enum Robustness {
    NotRobust,
    NoError,
    RobustNoResetNotification,
    TryRobustNoResetNotification,
    RobustLoseContextOnReset,
    TryRobustLoseContextOnReset,
}

/// Why context creation failed, as reported by the windowing layer.
/// The caller translates the windowing library's error into this taxonomy
/// before handing it to the checker.
#[derive(Debug, PartialEq, Eq)]
pub enum CreationError {
    /// A generic operating-system level failure, with its message.
    OsError(String),
    /// The graphics API is not supported at all.
    NotSupported,
    /// No windowing backend is available.
    NoBackendAvailable,
    /// The requested robustness mode is not supported.
    RobustnessNotSupported,
    /// The requested version is not supported.
    VersionNotSupported,
    /// No compatible pixel format was found.
    NoAvailablePixelFormat,
}

/// Everything the checker reads from a successfully created context.
pub struct LiveContextInfo {
    pub actual_major: u8,
    pub actual_minor: u8,
    pub is_robust: bool,
    pub is_core: bool,
    pub is_compat: bool,
    pub available_extensions: Vec<String>,
}

/// Context flag bit meaning "the context is robust".
pub const CONTEXT_FLAG_ROBUST_ACCESS_BIT: u32 = 0x4;

/// Profile mask bit meaning "the context uses the core profile".
pub const CONTEXT_CORE_PROFILE_BIT: u32 = 0x1;

/// Profile mask bit meaning "the context uses the compatibility profile".
pub const CONTEXT_COMPATIBILITY_PROFILE_BIT: u32 = 0x2;

impl LiveContextInfo {
    /// Builds the snapshot from the raw integers a context reports: the two
    /// version numbers, the context flag word and the profile mask word,
    /// plus the extension names already decoded by the caller.
    pub fn from_raw(
        actual_major: u8,
        actual_minor: u8,
        ctx_flags: u32,
        profile_mask: u32,
        available_extensions: Vec<String>,
    ) -> (r: LiveContextInfo)
        ensures
            r.actual_major == actual_major,
            r.actual_minor == actual_minor,
            r.is_robust == (ctx_flags & CONTEXT_FLAG_ROBUST_ACCESS_BIT != 0),
            r.is_core == (profile_mask & CONTEXT_CORE_PROFILE_BIT != 0),
            r.is_compat == (profile_mask & CONTEXT_COMPATIBILITY_PROFILE_BIT != 0),
            r.available_extensions == available_extensions,
    {
        LiveContextInfo {
            actual_major,
            actual_minor,
            is_robust: ctx_flags & CONTEXT_FLAG_ROBUST_ACCESS_BIT != 0,
            is_core: profile_mask & CONTEXT_CORE_PROFILE_BIT != 0,
            is_compat: profile_mask & CONTEXT_COMPATIBILITY_PROFILE_BIT != 0,
            available_extensions,
        }
    }
}

/// One human-relevant finding of a check run.  The caller renders each
/// variant to its diagnostic text; the checker only decides which findings
/// occur and in what order.
#[derive(Debug, PartialEq, Eq)]
pub enum Diagnostic {
    /// Context creation failed with an OS-level message; the requested
    /// version is the most likely cause.
    OsError { message: String, major: u8, minor: u8 },
    /// The graphics API is not available at all.
    NotAvailable,
    /// The requested robustness mode is not available.
    RobustnessNotAvailable,
    /// The requested version cannot be provided by the driver.
    VersionNotAvailable { major: u8, minor: u8 },
    /// No compatible pixel format was found.
    NoPixelFormat,
    /// The requirement itself is contradictory: the core profile does not
    /// exist below version 3.0.
    CoreProfileBeforeVersion3,
    /// The live context's robustness does not match the policy.
    WrongRobustness,
    /// The live context does not report the requested profile.
    WrongProfile { wanted: GlProfile },
    /// The live context's version is below the requirement.
    VersionTooLow {
        actual_major: u8,
        actual_minor: u8,
        required_major: u8,
        required_minor: u8,
    },
    /// The driver returned a higher major version than requested; the check
    /// still passes.
    VersionWarning {
        requested_major: u8,
        requested_minor: u8,
        actual_major: u8,
        actual_minor: u8,
    },
    /// A required extension is not among the available ones.
    MissingExtension { name: String },
}

/// Mathematical shadow of `Diagnostic`: identical, except that strings are
/// character sequences.  Contracts speak of diagnostics through this type.
pub enum DiagnosticView {
    OsError { message: Seq<char>, major: u8, minor: u8 },
    NotAvailable,
    RobustnessNotAvailable,
    VersionNotAvailable { major: u8, minor: u8 },
    NoPixelFormat,
    CoreProfileBeforeVersion3,
    WrongRobustness,
    WrongProfile { wanted: GlProfile },
    VersionTooLow {
        actual_major: u8,
        actual_minor: u8,
        required_major: u8,
        required_minor: u8,
    },
    VersionWarning {
        requested_major: u8,
        requested_minor: u8,
        actual_major: u8,
        actual_minor: u8,
    },
    MissingExtension { name: Seq<char> },
}

impl View for Diagnostic {
    type V = DiagnosticView;

    open spec fn view(&self) -> DiagnosticView {
        match self {
            Diagnostic::OsError { message, major, minor } => DiagnosticView::OsError {
                message: message@,
                major: *major,
                minor: *minor,
            },
            Diagnostic::NotAvailable => DiagnosticView::NotAvailable,
            Diagnostic::RobustnessNotAvailable => DiagnosticView::RobustnessNotAvailable,
            Diagnostic::VersionNotAvailable { major, minor } => DiagnosticView::VersionNotAvailable {
                major: *major,
                minor: *minor,
            },
            Diagnostic::NoPixelFormat => DiagnosticView::NoPixelFormat,
            Diagnostic::CoreProfileBeforeVersion3 => DiagnosticView::CoreProfileBeforeVersion3,
            Diagnostic::WrongRobustness => DiagnosticView::WrongRobustness,
            Diagnostic::WrongProfile { wanted } => DiagnosticView::WrongProfile { wanted: *wanted },
            Diagnostic::VersionTooLow { actual_major, actual_minor, required_major, required_minor } => (
                DiagnosticView::VersionTooLow {
                    actual_major: *actual_major,
                    actual_minor: *actual_minor,
                    required_major: *required_major,
                    required_minor: *required_minor,
                }
            ),
            Diagnostic::VersionWarning { requested_major, requested_minor, actual_major, actual_minor } => (
                DiagnosticView::VersionWarning {
                    requested_major: *requested_major,
                    requested_minor: *requested_minor,
                    actual_major: *actual_major,
                    actual_minor: *actual_minor,
                }
            ),
            Diagnostic::MissingExtension { name } => DiagnosticView::MissingExtension { name: name@ },
        }
    }
}

/// The immutable capability requirement: minimum version, profile,
/// robustness policy and required extension names.
pub struct GLChecker {
    pub major_ver: u8,
    pub minor_ver: u8,
    pub profile: GlProfile,
    pub robustness: Robustness,
    pub extensions: Vec<String>,
}

} // verus!
