//! The two patch strategies used to drive a workload towards a desired
//! state, and the abstract model of what applying each does to a
//! workload's specification.
//!
//! Scalable kinds receive a merge patch against the scale subresource
//! setting `spec.replicas`; schedule-suspendable kinds receive a JSON
//! `replace` patch at the path `spec/suspend`.  Both builders are pure:
//! the patches are plain values that the unverified shell serializes and
//! sends.

use vstd::prelude::*;
use vstd::string::StringExecFns;

verus! {

/// The label filter of a listing request.
#[derive(Clone, Debug)]
pub struct ListFilter {
    pub label_selector: String,
}

/// A patch to apply to one workload, as plain data.
#[derive(Clone, Copy, Debug)]
pub enum PatchSpec {
    /// Merge patch against the scale subresource: `spec.replicas = replicas`.
    ScaleMerge { replicas: usize },
    /// JSON `replace` operation at the path given by [`suspend_field_path`],
    /// setting `spec.suspend` to `value`.
    SuspendReplace { value: bool },
}

/// Abstract model of the patched part of one workload's specification:
/// its desired replica count and its schedule-suspend flag.
pub struct WorkloadSpecModel {
    pub replicas: nat,
    pub suspend: bool,
}

/// What applying a patch does to a workload's specification: a scale
/// merge patch overwrites the replica count and a suspend replace patch
/// overwrites the suspend flag, each leaving the other field untouched.
pub open spec fn apply_patch(s: WorkloadSpecModel, p: PatchSpec) -> WorkloadSpecModel {
    match p {
        PatchSpec::ScaleMerge { replicas } => WorkloadSpecModel {
            replicas: replicas as nat,
            suspend: s.suspend,
        },
        PatchSpec::SuspendReplace { value } => WorkloadSpecModel {
            replicas: s.replicas,
            suspend: value,
        },
    }
}

/// Whether `path` is the field path targeted by the suspend patch.
pub open spec fn suspend_patch_path(path: Seq<String>) -> bool {
    &&& path.len() == 2
    &&& path[0]@ == "spec"@
    &&& path[1]@ == "suspend"@
}

/// The JSON-pointer segments a [`PatchSpec::SuspendReplace`] patch targets:
/// the `suspend` field under a resource's `spec`.
pub fn suspend_field_path() -> (path: Vec<String>)
    ensures
        suspend_patch_path(path@),
{
    let path = vec![String::from_str("spec"), String::from_str("suspend")];
    path
}

/// Builds the replica-count patch for scalable kinds: a label filter for
/// the listing, and a merge patch setting `spec.replicas` to the desired
/// size.
pub fn get_patch_merge(selector: &str, desired_size: usize) -> (r: (ListFilter, PatchSpec))
    ensures
        r.0.label_selector@ == selector@,
        r.1 == (PatchSpec::ScaleMerge { replicas: desired_size }),
        forall|s: WorkloadSpecModel| (#[trigger] apply_patch(s, r.1)).replicas == desired_size
            && apply_patch(s, r.1).suspend == s.suspend,
{
    let list_filter = ListFilter { label_selector: String::from_str(selector) };
    (list_filter, PatchSpec::ScaleMerge { replicas: desired_size })
}

/// Builds the suspend patch for schedule-suspendable kinds: a label
/// filter for the listing, and a JSON `replace` of `spec/suspend` with
/// the desired value.
pub fn get_patch_suspend(selector: &str, desired_suspend_value: bool) -> (r: (ListFilter, PatchSpec))
    ensures
        r.0.label_selector@ == selector@,
        r.1 == (PatchSpec::SuspendReplace { value: desired_suspend_value }),
        forall|s: WorkloadSpecModel| (#[trigger] apply_patch(s, r.1)).suspend == desired_suspend_value
            && apply_patch(s, r.1).replicas == s.replicas,
{
    let list_filter = ListFilter { label_selector: String::from_str(selector) };
    (list_filter, PatchSpec::SuspendReplace { value: desired_suspend_value })
}

/// Both patch strategies are idempotent: applying the same patch twice
/// leaves the workload exactly as applying it once does.  Re-invoking a
/// pause is therefore always safe; it is the recovery mechanism after a
/// timeout, in place of transactional rollback.
pub proof fn lemma_apply_patch_idempotent(s: WorkloadSpecModel, p: PatchSpec)
    ensures
        apply_patch(apply_patch(s, p), p) == apply_patch(s, p),
{
}

/// Round trip of the replica strategy: scaling to zero and then back to
/// a resume target leaves the workload at the resume target, whatever
/// count it had before, and never touches the suspend flag.
pub proof fn lemma_scale_round_trip(s: WorkloadSpecModel, resume_target: usize)
    ensures
        apply_patch(
            apply_patch(s, PatchSpec::ScaleMerge { replicas: 0 }),
            PatchSpec::ScaleMerge { replicas: resume_target },
        ) == (WorkloadSpecModel { replicas: resume_target as nat, suspend: s.suspend }),
        apply_patch(s, PatchSpec::ScaleMerge { replicas: 0 }).replicas == 0,
{
}

/// Round trip of the suspend strategy: after the pause patch the suspend
/// flag is true, after the resume patch it is false again, and the
/// replica count is never touched.
pub proof fn lemma_suspend_round_trip(s: WorkloadSpecModel)
    ensures
        apply_patch(s, PatchSpec::SuspendReplace { value: true }).suspend == true,
        apply_patch(
            apply_patch(s, PatchSpec::SuspendReplace { value: true }),
            PatchSpec::SuspendReplace { value: false },
        ) == (WorkloadSpecModel { replicas: s.replicas, suspend: false }),
{
}

} // verus!
