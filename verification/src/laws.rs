//! The laws of the checking rules, stated and proved once for all inputs:
//! the version-tolerance policy, the full robustness table, the profile
//! rules, the sanity rule and its outcome-independence, and the emptiness
//! behaviour of the extension rule.

use vstd::prelude::*;

use crate::checker::check_diag_views;
use crate::checker::check_passes;
use crate::checker::extension_available;
use crate::checker::extensions_ok;
use crate::checker::missing_diag_views;
use crate::checker::profile_ok;
use crate::checker::robustness_ok;
use crate::checker::sanity_ok;
use crate::checker::version_ok;
use crate::checker::version_warns;
use crate::types::CreationError;
use crate::types::GLChecker;
use crate::types::GlProfile;
use crate::types::LiveContextInfo;
use crate::types::Robustness;

verus! {

/// An equal major version passes the version rule whenever the reported
/// minor version is at least the required one.
pub proof fn lemma_version_same_major_passes(req_major: u8, req_minor: u8, act_minor: u8)
    requires
        act_minor >= req_minor,
    ensures
        version_ok(req_major, req_minor, req_major, act_minor),
{
}

/// A strictly greater major version always passes the version rule, and
/// always carries the warning, whatever the minor versions are.
pub proof fn lemma_version_higher_major_passes_with_warning(
    req_major: u8,
    req_minor: u8,
    act_major: u8,
    act_minor: u8,
)
    requires
        act_major > req_major,
    ensures
        version_ok(req_major, req_minor, act_major, act_minor),
        version_warns(req_major, act_major),
{
}

/// A lower reported version — lower major, or equal major with lower
/// minor — always fails the version rule, and never warns.
pub proof fn lemma_version_lower_fails(req_major: u8, req_minor: u8, act_major: u8, act_minor: u8)
    requires
        act_major < req_major || (act_major == req_major && act_minor < req_minor),
    ensures
        !version_ok(req_major, req_minor, act_major, act_minor),
        !version_warns(req_major, act_major),
{
}

/// The whole robustness table, all six policies crossed with both live
/// states: the plain variants are hard requirements, the `Try*` variants
/// always pass.
pub proof fn lemma_robustness_table(policy: Robustness, is_robust: bool)
    ensures
        policy is NotRobust ==> robustness_ok(policy, is_robust) == !is_robust,
        policy is NoError ==> robustness_ok(policy, is_robust) == !is_robust,
        policy is RobustNoResetNotification ==> robustness_ok(policy, is_robust) == is_robust,
        policy is RobustLoseContextOnReset ==> robustness_ok(policy, is_robust) == is_robust,
        policy is TryRobustNoResetNotification ==> robustness_ok(policy, is_robust),
        policy is TryRobustLoseContextOnReset ==> robustness_ok(policy, is_robust),
{
}

/// The profile rules: a context reporting both profiles fails whatever was
/// requested; a context reporting exactly one profile passes exactly when
/// that profile was the requested one.
pub proof fn lemma_profile_rules(requested: GlProfile, is_core: bool, is_compat: bool)
    ensures
        is_core && is_compat ==> !profile_ok(requested, is_core, is_compat),
        profile_ok(requested, true, false) == (requested is Core),
        profile_ok(requested, false, true) == (requested is Compatibility),
        !is_core && !is_compat ==> !profile_ok(requested, is_core, is_compat),
{
}

/// An empty requirement always passes the extension rule, and reports
/// nothing.
pub proof fn lemma_no_required_extensions_pass(available: Seq<Seq<char>>)
    ensures
        extensions_ok(Seq::empty(), available),
        missing_diag_views(Seq::empty(), available) == Seq::<crate::types::DiagnosticView>::empty(),
{
}

/// The extension rule passes exactly when it reports nothing: the missing
/// list is empty if and only if every required name is available.
pub proof fn lemma_extensions_pass_iff_nothing_missing(
    required: Seq<Seq<char>>,
    available: Seq<Seq<char>>,
)
    ensures
        extensions_ok(required, available) <==> missing_diag_views(required, available).len() == 0,
    decreases required.len(),
{
    if required.len() == 0 {
    } else {
        lemma_extensions_pass_iff_nothing_missing(required.drop_last(), available);
        assert(required.drop_last().push(required.last()) =~= required);
        if extensions_ok(required, available) {
            assert forall|i: int|
                0 <= i < required.drop_last().len() implies extension_available(
                available,
                required.drop_last()[i],
            ) by {
                assert(required.drop_last()[i] == required[i]);
            }
            assert(extension_available(available, required.last()));
        } else {
            if extensions_ok(required.drop_last(), available) && extension_available(
                available,
                required.last(),
            ) {
                assert forall|i: int|
                    0 <= i < required.len() implies extension_available(available, required[i]) by {
                    if i < required.len() - 1 {
                        assert(required[i] == required.drop_last()[i]);
                    }
                }
            }
        }
    }
}

/// Availability of a name is pure set membership among the available names.
pub proof fn lemma_extension_availability_is_set_membership(
    available: Seq<Seq<char>>,
    name: Seq<char>,
)
    ensures
        extension_available(available, name) == available.to_set().contains(name),
{
    assert(extension_available(available, name) == available.contains(name));
}

/// The available extensions act as a set: two listings with the same names
/// — whatever their order, however often repeated — pass and fail the
/// extension rule on exactly the same requirements.
pub proof fn lemma_available_extensions_act_as_set(
    required: Seq<Seq<char>>,
    listing_a: Seq<Seq<char>>,
    listing_b: Seq<Seq<char>>,
)
    requires
        listing_a.to_set() == listing_b.to_set(),
    ensures
        extensions_ok(required, listing_a) == extensions_ok(required, listing_b),
{
    assert forall|i: int| 0 <= i < required.len() implies extension_available(
        listing_a,
        required[i],
    ) == extension_available(listing_b, required[i]) by {
        lemma_extension_availability_is_set_membership(listing_a, required[i]);
        lemma_extension_availability_is_set_membership(listing_b, required[i]);
    }
}

/// The sanity rule by cases: requesting the core profile below version 3
/// is contradictory; the compatibility profile is sane at every version;
/// from version 3 on every profile is sane.
pub proof fn lemma_sanity_rule(requested: GlProfile, major_ver: u8)
    ensures
        major_ver < 3 && requested is Core ==> !sanity_ok(requested, major_ver),
        requested is Compatibility ==> sanity_ok(requested, major_ver),
        major_ver >= 3 ==> sanity_ok(requested, major_ver),
{
}

/// A requirement that fails the sanity rule fails the whole check before
/// anything else is consulted: the verdict is negative and the diagnostics
/// are the same for every outcome, so no context need ever be created.
pub proof fn lemma_insane_requirement_ignores_outcome(
    c: GLChecker,
    outcome_a: Result<LiveContextInfo, CreationError>,
    outcome_b: Result<LiveContextInfo, CreationError>,
)
    requires
        !sanity_ok(c.profile, c.major_ver),
    ensures
        !check_passes(c, outcome_a),
        check_diag_views(c, outcome_a) == check_diag_views(c, outcome_b),
{
}

} // verus!
