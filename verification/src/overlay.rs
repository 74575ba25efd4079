//! The overlay-window provisioner's decision logic: idempotently ensure
//! that the secondary window with the fixed logical name "overlay" exists.
//!
//! The framework owns the window registry and the static per-window
//! configuration table; the logic here sees the registry as "does a window
//! with that name exist" and the table as the sequence of declared window
//! labels. It decides whether to do nothing, build the window from a given
//! configuration entry, or fail because no entry declares the name.

use vstd::prelude::*;
use vstd::string::StrSliceExecFns;
use crate::text::str_eq;

verus! {

/// The fixed logical name of the overlay window.
pub open spec fn overlay_label() -> Seq<char> {
    "overlay"@
}

/// Whether the configuration table declares a window with the given label.
pub open spec fn has_label(labels: Seq<Seq<char>>, target: Seq<char>) -> bool {
    exists|i: int| 0 <= i < labels.len() && labels[i] == target
}

/// A provisioning call builds only when the window is absent and declared.
pub open spec fn step_builds(window_exists: bool, config_present: bool) -> bool {
    !window_exists && config_present
}

/// A provisioning call errors exactly when the window is absent and no
/// configuration entry declares it: a packaging defect, not retried.
pub open spec fn step_errors(window_exists: bool, config_present: bool) -> bool {
    !window_exists && !config_present
}

/// A provisioning call succeeds when the window already exists, or when it
/// is declared and its construction succeeds.
pub open spec fn step_succeeds(window_exists: bool, config_present: bool, build_ok: bool) -> bool {
    window_exists || (config_present && build_ok)
}

/// Whether the window exists after one provisioning call: an existing
/// window stays, a successful build creates it, and nothing else does.
pub open spec fn exists_after_step(
    window_exists: bool,
    config_present: bool,
    build_ok: bool,
) -> bool {
    window_exists || (config_present && build_ok)
}

/// What one provisioning call decides to do.
#[derive(PartialEq, Eq, Structural, Clone, Copy, Debug)]
pub enum ProvisionDecision {
    /// The window already exists: succeed without touching anything.
    AlreadyExists,
    /// Build the window from the configuration entry at this index.
    Build { config_index: usize },
    /// No configuration entry declares the window: fail.
    MissingConfig,
}

/// The index of the first configuration entry whose label matches `target`,
/// or nothing when no entry does.
pub fn find_config_index(labels: &Vec<String>, target: &str) -> (r: Option<usize>)
    ensures
        r matches Some(i) ==> i < labels.len() && labels@[i as int]@ == target@ && forall|j: int|
            0 <= j < i ==> labels@[j]@ != target@,
        r is None ==> forall|j: int| 0 <= j < labels.len() ==> labels@[j]@ != target@,
{
    let mut i: usize = 0;
    while i < labels.len()
        invariant
            i <= labels.len(),
            forall|j: int| 0 <= j < i ==> labels@[j]@ != target@,
        decreases labels.len() - i,
    {
        if str_eq(labels[i].as_str(), target) {
            return Option::Some(i);
        }
        i = i + 1;
    }
    Option::None
}

/// Decide one provisioning call for the overlay window, from whether a
/// window with the overlay label already exists in the framework's registry
/// and from the declared window labels of the configuration table.
pub fn ensure_overlay_step(overlay_exists: bool, config_labels: &Vec<String>) -> (d:
    ProvisionDecision)
    ensures
        (d == ProvisionDecision::AlreadyExists) == overlay_exists,
        (d is Build) == step_builds(overlay_exists, has_label(config_labels.deep_view(), overlay_label())),
        (d == ProvisionDecision::MissingConfig) == step_errors(
            overlay_exists,
            has_label(config_labels.deep_view(), overlay_label()),
        ),
        d matches ProvisionDecision::Build { config_index } ==> config_index < config_labels.len()
            && config_labels@[config_index as int]@ == overlay_label() && forall|j: int|
            0 <= j < config_index ==> config_labels@[j]@ != overlay_label(),
{
    if overlay_exists {
        return ProvisionDecision::AlreadyExists;
    }
    let found = find_config_index(config_labels, "overlay");
    proof {
        let ghost deep = config_labels.deep_view();
        assert(forall|j: int|
            0 <= j < config_labels.len() ==> deep[j] == config_labels@[j]@);
    }
    match found {
        Option::Some(i) => {
            proof {
                assert(config_labels.deep_view()[i as int] == overlay_label());
            }
            ProvisionDecision::Build { config_index: i }
        },
        Option::None => {
            proof {
                assert(!has_label(config_labels.deep_view(), overlay_label())) by {
                    if has_label(config_labels.deep_view(), overlay_label()) {
                        let i = choose|i: int|
                            0 <= i < config_labels.deep_view().len()
                                && config_labels.deep_view()[i] == overlay_label();
                        assert(config_labels@[i]@ == overlay_label());
                    }
                }
            }
            ProvisionDecision::MissingConfig
        },
    }
}

/// Why a provisioning call failed. The unverified layer renders each
/// variant as the caller-facing message, attaching the platform's own text
/// to a construction failure.
#[derive(PartialEq, Eq, Structural, Clone, Copy, Debug)]
pub enum OverlayError {
    /// No configuration entry declares the overlay window.
    MissingConfig,
    /// The platform rejected the window's construction.
    Construction,
}

/// The caller-facing outcome of one provisioning call: the decision taken,
/// and — when it was a build — whether the framework realized the window.
pub fn provision_outcome(d: ProvisionDecision, build_ok: bool) -> (r: Result<(), OverlayError>)
    ensures
        r is Ok <==> (d == ProvisionDecision::AlreadyExists || (d is Build && build_ok)),
        (r == Result::<(), OverlayError>::Err(OverlayError::MissingConfig)) <==> d
            == ProvisionDecision::MissingConfig,
        (r == Result::<(), OverlayError>::Err(OverlayError::Construction)) <==> (d is Build
            && !build_ok),
{
    match d {
        ProvisionDecision::AlreadyExists => Result::Ok(()),
        ProvisionDecision::Build { .. } => if build_ok {
            Result::Ok(())
        } else {
            Result::Err(OverlayError::Construction)
        },
        ProvisionDecision::MissingConfig => Result::Err(OverlayError::MissingConfig),
    }
}

/// Once a provisioning call has succeeded, the next call finds the window
/// in the registry and is a no-op success: it builds nothing, errors never,
/// and succeeds whatever a build would have done.
pub proof fn lemma_ensure_overlay_idempotent(
    window_exists: bool,
    config_present: bool,
    build_ok: bool,
    later_build_ok: bool,
)
    ensures
        step_succeeds(window_exists, config_present, build_ok) ==> ({
            let exists_next = exists_after_step(window_exists, config_present, build_ok);
            exists_next && !step_builds(exists_next, config_present) && !step_errors(
                exists_next,
                config_present,
            ) && step_succeeds(exists_next, config_present, later_build_ok)
        }),
{
}

/// When no configuration entry declares the overlay window, the call errors
/// and no window comes into existence, whatever a build would have done.
pub proof fn lemma_missing_config_creates_nothing(build_ok: bool)
    ensures
        step_errors(false, false),
        !step_builds(false, false),
        !exists_after_step(false, false, build_ok),
{
}

} // verus!
