//! The capability-checking engine: the decision rules for version tolerance,
//! robustness compatibility, profile conflicts and extension membership, and
//! the orchestration that aggregates them into one verdict with diagnostics.

use vstd::prelude::*;

use crate::types::CreationError;
use crate::types::Diagnostic;
use crate::types::DiagnosticView;
use crate::types::GLChecker;
use crate::types::GlProfile;
use crate::types::LiveContextInfo;
use crate::types::Robustness;

verus! {

/// The version rule: the reported version satisfies the requirement when its
/// major version is strictly greater, or equal with a minor version at least
/// as large.
pub open spec fn version_ok(req_major: u8, req_minor: u8, act_major: u8, act_minor: u8) -> bool {
    act_major > req_major || (act_major == req_major && act_minor >= req_minor)
}

/// A higher major version than requested passes but deserves a warning.
pub open spec fn version_warns(req_major: u8, act_major: u8) -> bool {
    act_major > req_major
}

/// The robustness table: hard requirements for the plain variants, always
/// pass for the best-effort `Try*` variants.
pub open spec fn robustness_ok(policy: Robustness, is_robust: bool) -> bool {
    match policy {
        Robustness::NotRobust => !is_robust,
        Robustness::NoError => !is_robust,
        Robustness::RobustNoResetNotification => is_robust,
        Robustness::TryRobustNoResetNotification => true,
        Robustness::RobustLoseContextOnReset => is_robust,
        Robustness::TryRobustLoseContextOnReset => true,
    }
}

/// The profile rule: a context reporting both profiles at once is a
/// contradictory driver report and always fails; otherwise the indicator of
/// the requested profile must be set.
pub open spec fn profile_ok(requested: GlProfile, is_core: bool, is_compat: bool) -> bool {
    &&& !(is_core && is_compat)
    &&& match requested {
        GlProfile::Core => is_core,
        GlProfile::Compatibility => is_compat,
    }
}

/// The sanity rule: the core profile did not exist before version 3.0, so
/// requesting it with a lower major version is contradictory in itself.
pub open spec fn sanity_ok(requested: GlProfile, major_ver: u8) -> bool {
    major_ver >= 3 || requested is Compatibility
}

/// Membership of one extension name in the available set.
pub open spec fn extension_available(available: Seq<Seq<char>>, name: Seq<char>) -> bool {
    exists|i: int| 0 <= i < available.len() && available[i] == name
}

/// The extension rule: every required name must be available.
pub open spec fn extensions_ok(required: Seq<Seq<char>>, available: Seq<Seq<char>>) -> bool {
    forall|i: int| 0 <= i < required.len() ==> extension_available(available, required[i])
}

/// The diagnostics the extension rule emits: one `MissingExtension` per
/// required name that is not available, in requirement order, a duplicate
/// requirement producing a duplicate entry.
pub open spec fn missing_diag_views(required: Seq<Seq<char>>, available: Seq<Seq<char>>) -> Seq<
    DiagnosticView,
>
    decreases required.len(),
{
    if required.len() == 0 {
        Seq::empty()
    } else {
        missing_diag_views(required.drop_last(), available) + (
        if extension_available(available, required.last()) {
            Seq::empty()
        } else {
            seq![DiagnosticView::MissingExtension { name: required.last() }]
        })
    }
}

/// The views of a sequence of diagnostics, in order.
pub open spec fn diag_views(diags: Seq<Diagnostic>) -> Seq<DiagnosticView> {
    diags.map_values(|d: Diagnostic| d@)
}

/// The diagnostic a creation failure is classified into, given the requested
/// version numbers.
pub open spec fn creation_error_view(major: u8, minor: u8, err: CreationError) -> DiagnosticView {
    match err {
        CreationError::OsError(message) => DiagnosticView::OsError { message: message@, major, minor },
        CreationError::NotSupported => DiagnosticView::NotAvailable,
        CreationError::NoBackendAvailable => DiagnosticView::NotAvailable,
        CreationError::RobustnessNotSupported => DiagnosticView::RobustnessNotAvailable,
        CreationError::VersionNotSupported => DiagnosticView::VersionNotAvailable { major, minor },
        CreationError::NoAvailablePixelFormat => DiagnosticView::NoPixelFormat,
    }
}

/// Whether a live context satisfies the whole requirement: robustness,
/// profile, version and extensions all in order.
pub open spec fn live_ok(c: GLChecker, info: LiveContextInfo) -> bool {
    &&& robustness_ok(c.robustness, info.is_robust)
    &&& profile_ok(c.profile, info.is_core, info.is_compat)
    &&& version_ok(c.major_ver, c.minor_ver, info.actual_major, info.actual_minor)
    &&& extensions_ok(c.extensions.deep_view(), info.available_extensions.deep_view())
}

/// The diagnostics of a run against a live context.  The four rules are
/// tried in a fixed order — robustness, profile, version, extensions — and
/// only the first failing one reports, except that the extension rule
/// reports every missing name; a version warning precedes the extension
/// findings on the passing path.
pub open spec fn live_diag_views(c: GLChecker, info: LiveContextInfo) -> Seq<DiagnosticView> {
    if !robustness_ok(c.robustness, info.is_robust) {
        seq![DiagnosticView::WrongRobustness]
    } else if !profile_ok(c.profile, info.is_core, info.is_compat) {
        seq![DiagnosticView::WrongProfile { wanted: c.profile }]
    } else if !version_ok(c.major_ver, c.minor_ver, info.actual_major, info.actual_minor) {
        seq![
            DiagnosticView::VersionTooLow {
                actual_major: info.actual_major,
                actual_minor: info.actual_minor,
                required_major: c.major_ver,
                required_minor: c.minor_ver,
            },
        ]
    } else {
        (if version_warns(c.major_ver, info.actual_major) {
            seq![
                DiagnosticView::VersionWarning {
                    requested_major: c.major_ver,
                    requested_minor: c.minor_ver,
                    actual_major: info.actual_major,
                    actual_minor: info.actual_minor,
                },
            ]
        } else {
            Seq::empty()
        }) + missing_diag_views(c.extensions.deep_view(), info.available_extensions.deep_view())
    }
}

/// The whole verdict as a pure function of the requirement and the probe's
/// outcome: the requirement must be sane, the context must have been
/// created, and the live context must satisfy every rule.
pub open spec fn check_passes(c: GLChecker, outcome: Result<LiveContextInfo, CreationError>) -> bool {
    &&& sanity_ok(c.profile, c.major_ver)
    &&& match outcome {
        Ok(info) => live_ok(c, info),
        Err(_) => false,
    }
}

/// The diagnostics of a whole run: the sanity contradiction alone if the
/// requirement is insane (the outcome is never consulted then), otherwise
/// the classified creation failure, otherwise the live-context findings.
pub open spec fn check_diag_views(
    c: GLChecker,
    outcome: Result<LiveContextInfo, CreationError>,
) -> Seq<DiagnosticView> {
    if !sanity_ok(c.profile, c.major_ver) {
        seq![DiagnosticView::CoreProfileBeforeVersion3]
    } else {
        match outcome {
            Ok(info) => live_diag_views(c, info),
            Err(err) => seq![creation_error_view(c.major_ver, c.minor_ver, err)],
        }
    }
}

/// Linear membership test of one name among the available extension names.
fn contains_string(haystack: &Vec<String>, needle: &String) -> (r: bool)
    ensures
        r == extension_available(haystack.deep_view(), needle@),
{
    let mut j: usize = 0;
    while j < haystack.len()
        invariant
            0 <= j <= haystack.len(),
            forall|k: int| 0 <= k < j ==> haystack.deep_view()[k] != needle@,
        decreases haystack.len() - j,
    {
        if haystack[j] == *needle {
            assert(haystack.deep_view()[j as int] == needle@);
            return true;
        }
        j += 1;
    }
    false
}

impl GLChecker {
    /// Decides the version rule for the reported version numbers.
    pub fn check_version(&self, gl_major_ver: u8, gl_minor_ver: u8) -> (r: bool)
        ensures
            r == version_ok(self.major_ver, self.minor_ver, gl_major_ver, gl_minor_ver),
    {
        if gl_major_ver > self.major_ver {
            true
        } else if gl_major_ver == self.major_ver && gl_minor_ver >= self.minor_ver {
            true
        } else {
            false
        }
    }

    /// Decides the robustness rule for the live context's robustness flag.
    pub fn check_robustness(&self, is_robust: bool) -> (r: bool)
        ensures
            r == robustness_ok(self.robustness, is_robust),
    {
        match self.robustness {
            Robustness::NotRobust => !is_robust,
            Robustness::NoError => !is_robust,
            Robustness::RobustNoResetNotification => is_robust,
            Robustness::TryRobustNoResetNotification => true,
            Robustness::RobustLoseContextOnReset => is_robust,
            Robustness::TryRobustLoseContextOnReset => true,
        }
    }

    /// Decides the sanity rule for this requirement.  It runs before any
    /// context is created: a failure is a contradiction in the request, not
    /// a hardware limitation.
    pub fn check_sanity(&self) -> (r: bool)
        ensures
            r == sanity_ok(self.profile, self.major_ver),
    {
        if self.major_ver < 3 {
            match self.profile {
                GlProfile::Core => false,
                GlProfile::Compatibility => true,
            }
        } else {
            true
        }
    }

    /// Decides the profile rule for the live context's two profile
    /// indicator bits.
    pub fn check_profile(&self, is_core: bool, is_compat: bool) -> (r: bool)
        ensures
            r == profile_ok(self.profile, is_core, is_compat),
    {
        if is_core && is_compat {
            return false;
        }
        match self.profile {
            GlProfile::Core => is_core,
            GlProfile::Compatibility => is_compat,
        }
    }

    /// Decides the extension rule, exhaustively: every required name is
    /// visited, and every missing one yields its own diagnostic.
    pub fn check_extensions(&self, available: &Vec<String>) -> (r: (bool, Vec<Diagnostic>))
        ensures
            r.0 == extensions_ok(self.extensions.deep_view(), available.deep_view()),
            diag_views(r.1@) == missing_diag_views(
                self.extensions.deep_view(),
                available.deep_view(),
            ),
            r.0 <==> r.1@.len() == 0,
    {
        let ghost required = self.extensions.deep_view();
        let ghost avail = available.deep_view();
        let mut success = true;
        let mut diags: Vec<Diagnostic> = Vec::new();
        let mut i: usize = 0;
        while i < self.extensions.len()
            invariant
                0 <= i <= self.extensions.len(),
                required == self.extensions.deep_view(),
                avail == available.deep_view(),
                success == extensions_ok(required.take(i as int), avail),
                diag_views(diags@) == missing_diag_views(required.take(i as int), avail),
                success <==> diags@.len() == 0,
            decreases self.extensions.len() - i,
        {
            let ghost prefix = required.take(i as int);
            let ghost next_prefix = required.take(i as int + 1);
            proof {
                assert(next_prefix.drop_last() =~= prefix);
                assert(next_prefix.last() == required[i as int]);
            }
            let present = contains_string(available, &self.extensions[i]);
            proof {
                assert(required[i as int] == self.extensions@[i as int]@);
            }
            if !present {
                success = false;
                let name = self.extensions[i].clone();
                diags.push(Diagnostic::MissingExtension { name });
            }
            proof {
                assert(diag_views(diags@) =~= missing_diag_views(next_prefix, avail));
                if success {
                    assert forall|k: int|
                        0 <= k < next_prefix.len() implies extension_available(
                        avail,
                        next_prefix[k],
                    ) by {
                        if k < i as int {
                            assert(next_prefix[k] == prefix[k]);
                            assert(extension_available(avail, prefix[k]));
                        } else {
                            assert(next_prefix[k] == required[i as int]);
                        }
                    }
                } else if !present {
                    assert(next_prefix[i as int] == required[i as int]);
                    assert(!extension_available(avail, next_prefix[i as int]));
                    assert(!extensions_ok(next_prefix, avail));
                } else {
                    let k = choose|k: int|
                        0 <= k < prefix.len() && !extension_available(avail, prefix[k]);
                    assert(next_prefix[k] == prefix[k]);
                    assert(!extension_available(avail, next_prefix[k]));
                    assert(!extensions_ok(next_prefix, avail));
                }
            }
            i += 1;
        }
        proof {
            assert(required.take(i as int) =~= required);
        }
        (success, diags)
    }

    /// Classifies a creation failure into its diagnostic, carrying the
    /// requested version where the message mentions it.
    pub fn handle_creation_error(&self, err: &CreationError) -> (d: Diagnostic)
        ensures
            d@ == creation_error_view(self.major_ver, self.minor_ver, *err),
    {
        match err {
            CreationError::OsError(message) => Diagnostic::OsError {
                message: message.clone(),
                major: self.major_ver,
                minor: self.minor_ver,
            },
            CreationError::NotSupported => Diagnostic::NotAvailable,
            CreationError::NoBackendAvailable => Diagnostic::NotAvailable,
            CreationError::RobustnessNotSupported => Diagnostic::RobustnessNotAvailable,
            CreationError::VersionNotSupported => Diagnostic::VersionNotAvailable {
                major: self.major_ver,
                minor: self.minor_ver,
            },
            CreationError::NoAvailablePixelFormat => Diagnostic::NoPixelFormat,
        }
    }

    /// Runs the four rules against a live context in their fixed order —
    /// robustness, profile, version, extensions — short-circuiting on the
    /// first failure, so only the first-detected mismatch is reported;
    /// the extension rule alone reports exhaustively.
    pub fn check_context(&self, info: &LiveContextInfo) -> (r: (bool, Vec<Diagnostic>))
        ensures
            r.0 == live_ok(*self, *info),
            diag_views(r.1@) == live_diag_views(*self, *info),
    {
        if !self.check_robustness(info.is_robust) {
            let mut diags: Vec<Diagnostic> = Vec::new();
            diags.push(Diagnostic::WrongRobustness);
            proof {
                assert(diag_views(diags@) =~= live_diag_views(*self, *info));
            }
            return (false, diags);
        }
        if !self.check_profile(info.is_core, info.is_compat) {
            let mut diags: Vec<Diagnostic> = Vec::new();
            diags.push(Diagnostic::WrongProfile { wanted: self.profile });
            proof {
                assert(diag_views(diags@) =~= live_diag_views(*self, *info));
            }
            return (false, diags);
        }
        if !self.check_version(info.actual_major, info.actual_minor) {
            let mut diags: Vec<Diagnostic> = Vec::new();
            diags.push(Diagnostic::VersionTooLow {
                actual_major: info.actual_major,
                actual_minor: info.actual_minor,
                required_major: self.major_ver,
                required_minor: self.minor_ver,
            });
            proof {
                assert(diag_views(diags@) =~= live_diag_views(*self, *info));
            }
            return (false, diags);
        }
        let (ok, mut ext_diags) = self.check_extensions(&info.available_extensions);
        if info.actual_major > self.major_ver {
            let mut diags: Vec<Diagnostic> = Vec::new();
            diags.push(Diagnostic::VersionWarning {
                requested_major: self.major_ver,
                requested_minor: self.minor_ver,
                actual_major: info.actual_major,
                actual_minor: info.actual_minor,
            });
            diags.append(&mut ext_diags);
            proof {
                assert(diag_views(diags@) =~= live_diag_views(*self, *info));
            }
            (ok, diags)
        } else {
            proof {
                assert(diag_views(ext_diags@) =~= live_diag_views(*self, *info));
            }
            (ok, ext_diags)
        }
    }

    /// The whole check: the sanity rule first (a contradictory requirement
    /// fails on its own, whatever the outcome holds), then the creation
    /// outcome — a classified failure, or the live context put through the
    /// four rules.  Returns the verdict and the diagnostics, in order.
    pub fn check(&self, outcome: &Result<LiveContextInfo, CreationError>) -> (r: (
        bool,
        Vec<Diagnostic>,
    ))
        ensures
            r.0 == check_passes(*self, *outcome),
            diag_views(r.1@) == check_diag_views(*self, *outcome),
    {
        if !self.check_sanity() {
            let mut diags: Vec<Diagnostic> = Vec::new();
            diags.push(Diagnostic::CoreProfileBeforeVersion3);
            proof {
                assert(diag_views(diags@) =~= check_diag_views(*self, *outcome));
            }
            return (false, diags);
        }
        match outcome {
            Ok(info) => self.check_context(info),
            Err(err) => {
                let d = self.handle_creation_error(err);
                let mut diags: Vec<Diagnostic> = Vec::new();
                diags.push(d);
                proof {
                    assert(diag_views(diags@) =~= check_diag_views(*self, *outcome));
                }
                (false, diags)
            },
        }
    }
}

} // verus!
