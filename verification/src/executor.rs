//! The selector-scoped executor.
//!
//! One [`ScaleExecution`] drives one pause or resume operation: it lists
//! every resource of one kind matching a label selector, applies the
//! configured patch to each listed resource that carries both a namespace
//! and a name, optionally awaits a per-resource convergence condition
//! (advisory only), and, when pausing a scalable kind, polls the pod
//! population until its size matches the desired total.
//!
//! The executor is a verified state machine over plain values.  It never
//! performs a platform call itself: each step returns an [`ExecAction`]
//! order, the unverified shell performs it and feeds the observed
//! [`ExecEvent`] back through [`ScaleExecution::on_event`].  The whole
//! exchange runs under the caller's single aggregate timeout; nothing is
//! rolled back when that timeout abandons the operation, because every
//! patch is idempotent and re-invocation is the recovery mechanism.

use vstd::prelude::*;
use vstd::pervasive::unreached;
use vstd::string::StringExecFns;

use crate::kinds::K8sResourceType;
use crate::kinds::is_noop_kind;
use crate::kinds::uses_replica_scaling;
use crate::kinds::uses_suspend_flag;
use crate::patch::ListFilter;
use crate::patch::PatchSpec;
use crate::patch::get_patch_merge;
use crate::patch::get_patch_suspend;

verus! {

/// Seconds slept between two polls of the pod population.
pub const POD_POLL_INTERVAL_SECS: u64 = 10;

/// A failure reported by the underlying platform API.
#[derive(Clone, Debug)]
pub struct ApiFailure {
    pub message: String,
}

/// One resource returned by a listing: its identifying metadata, and the
/// replica total its status reported, which the resume guard reads.
#[derive(Clone, Debug)]
pub struct ListedResource {
    pub namespace: Option<String>,
    pub name: Option<String>,
    /// `status.replicas` at listing time; `None` when no status was reported.
    pub status_replicas: Option<u32>,
}

/// The per-resource convergence condition awaited after a patch.
#[derive(Clone, Copy, Debug)]
pub enum ConvergeTarget {
    /// The resource's status reports exactly this many ready replicas.
    ReadyReplicas(usize),
    /// The resource's spec carries exactly this suspend flag.
    Suspended(bool),
}

/// An order from the executor to the unverified shell.
#[derive(Debug)]
pub enum ExecAction {
    /// List all resources of the configured kind matching the label
    /// selector, namespaced or cluster-wide per the configuration; answer
    /// with [`ExecEvent::Listed`].
    List,
    /// Apply `patch` to the named resource, through a handle scoped to the
    /// resource's own namespace; answer with [`ExecEvent::Patched`].
    ApplyPatch { namespace: String, name: String, patch: PatchSpec },
    /// Await `condition` on the named resource, bounded by the enclosing
    /// timeout; answer with [`ExecEvent::ConditionAwaited`].  The outcome
    /// is advisory: the executor proceeds either way.
    AwaitCondition { namespace: String, name: String, condition: ConvergeTarget },
    /// Count the pods matching the label selector, in the same scope as
    /// the listing; answer with [`ExecEvent::PodsCounted`].
    CountPods,
    /// Sleep for `seconds` before the next pod count; answer with
    /// [`ExecEvent::Slept`].
    Sleep { seconds: u64 },
    /// The operation is finished with this outcome; no event is expected.
    Finished { result: Result<(), ApiFailure> },
}

/// An observed result handed back by the shell.
#[derive(Debug)]
pub enum ExecEvent {
    Listed(Result<Vec<ListedResource>, ApiFailure>),
    Patched(Result<(), ApiFailure>),
    ConditionAwaited(Result<(), ApiFailure>),
    PodsCounted(Result<usize, ApiFailure>),
    Slept,
}

/// Whether the operation drives resources towards a pause target or
/// restores previously paused resources.
#[derive(Clone, Copy, Debug, PartialEq, Eq, Structural)]
pub enum ScaleMode {
    Pause,
    ResumeIfNeeded,
}

/// Where the executor stands between two orders.
#[derive(Clone, Copy, Debug)]
pub enum ExecPhase {
    /// The listing is outstanding.
    Listing,
    /// A patch of the resource at index `current` is outstanding.
    PatchWait { current: usize },
    /// The advisory convergence wait on the resource at `current` is outstanding.
    AwaitWait { current: usize },
    /// A pod count is outstanding.
    PodCountWait,
    /// The polling-interval sleep is outstanding.
    SleepWait,
    /// Terminal: the operation finished.
    Complete,
}

/// The replica total an optional status field stands for; absence counts
/// as zero.
pub open spec fn replicas_or_zero(r: Option<u32>) -> nat {
    match r {
        None => 0,
        Some(c) => c as nat,
    }
}

/// Whether the executor acts on one listed resource.  It must carry both
/// a namespace and a name (defensive: listings should always provide
/// them); and when resuming a scalable kind, it must have been observed
/// at zero replicas — resources already running are left untouched, so a
/// manually raised replica count is never clobbered.
pub open spec fn resource_actionable(kind: K8sResourceType, mode: ScaleMode, r: ListedResource) -> bool {
    &&& r.namespace is Some
    &&& r.name is Some
    &&& (mode == ScaleMode::Pause || uses_suspend_flag(kind) || replicas_or_zero(r.status_replicas) == 0)
}

/// Index of the first actionable resource at or after `from`, if any.
pub open spec fn first_actionable(
    kind: K8sResourceType,
    mode: ScaleMode,
    rs: Seq<ListedResource>,
    from: int,
) -> Option<int>
    decreases rs.len() - from when 0 <= from <= rs.len()
{
    if from >= rs.len() {
        None
    } else if resource_actionable(kind, mode, rs[from]) {
        Some(from)
    } else {
        first_actionable(kind, mode, rs, from + 1)
    }
}

/// What `first_actionable` returns: the first index whose resource is
/// actionable, every earlier one being not.
pub proof fn lemma_first_actionable(
    kind: K8sResourceType,
    mode: ScaleMode,
    rs: Seq<ListedResource>,
    from: int,
)
    requires
        0 <= from <= rs.len(),
    ensures
        match first_actionable(kind, mode, rs, from) {
            Some(i) => from <= i < rs.len() && resource_actionable(kind, mode, rs[i])
                && forall|j: int| from <= j < i ==> !resource_actionable(kind, mode, rs[j]),
            None => forall|j: int| from <= j < rs.len() ==> !resource_actionable(kind, mode, rs[j]),
        },
    decreases rs.len() - from,
{
    if from < rs.len() && !resource_actionable(kind, mode, rs[from]) {
        lemma_first_actionable(kind, mode, rs, from + 1);
    }
}

/// The selector-scoped executor for one pause or resume operation.
pub struct ScaleExecution {
    pub kind: K8sResourceType,
    pub mode: ScaleMode,
    /// Namespace the operation was invoked for; the listing ignores it
    /// when `cluster_wide` is set, but patches always use each listed
    /// resource's own namespace.
    pub namespace: String,
    pub list_filter: ListFilter,
    pub cluster_wide: bool,
    /// Replica target for scalable kinds (`0` pauses); for the suspend
    /// strategy, `0` means "suspend".
    pub desired_size: usize,
    /// The one patch this operation applies, fixed at construction.
    pub patch: PatchSpec,
    /// The listing result; empty until the `Listed` event arrives.
    pub resources: Vec<ListedResource>,
    /// First index of `resources` not yet considered for patching.
    pub next_index: usize,
    pub phase: ExecPhase,
}

/// The convergence condition awaited after patching one resource: the
/// desired state of the configured strategy.
pub open spec fn converge_condition(m: ScaleExecution) -> ConvergeTarget {
    if uses_suspend_flag(m.kind) {
        ConvergeTarget::Suspended(m.desired_size == 0)
    } else {
        ConvergeTarget::ReadyReplicas(m.desired_size)
    }
}

/// Well-formedness of an execution, established at construction and
/// preserved by every step.
pub open spec fn exec_wf(m: ScaleExecution) -> bool {
    &&& is_noop_kind(m.kind) ==> m.phase is Complete
    &&& m.next_index <= m.resources.len()
    &&& uses_replica_scaling(m.kind) ==> m.patch == (PatchSpec::ScaleMerge { replicas: m.desired_size })
    &&& uses_suspend_flag(m.kind) ==> m.patch == (PatchSpec::SuspendReplace { value: m.desired_size == 0 })
    &&& m.mode == ScaleMode::ResumeIfNeeded ==> m.desired_size == 1
    &&& match m.phase {
        ExecPhase::PatchWait { current } => current < m.resources.len()
            && m.next_index == current + 1
            && resource_actionable(m.kind, m.mode, m.resources[current as int]),
        ExecPhase::AwaitWait { current } => current < m.resources.len()
            && m.next_index == current + 1
            && resource_actionable(m.kind, m.mode, m.resources[current as int])
            && m.mode == ScaleMode::Pause,
        ExecPhase::PodCountWait => m.mode == ScaleMode::Pause && uses_replica_scaling(m.kind),
        ExecPhase::SleepWait => m.mode == ScaleMode::Pause && uses_replica_scaling(m.kind),
        _ => true,
    }
}

/// The event the executor expects in its current phase.
pub open spec fn expects(m: ScaleExecution, e: ExecEvent) -> bool {
    match m.phase {
        ExecPhase::Listing => e is Listed,
        ExecPhase::PatchWait { .. } => e is Patched,
        ExecPhase::AwaitWait { .. } => e is ConditionAwaited,
        ExecPhase::PodCountWait => e is PodsCounted,
        ExecPhase::SleepWait => e is Slept,
        ExecPhase::Complete => false,
    }
}

/// Terminal failure: the operation stops and reports the API error.
pub open spec fn spec_fail(m: ScaleExecution, f: ApiFailure) -> (ScaleExecution, ExecAction) {
    (
        ScaleExecution { phase: ExecPhase::Complete, ..m },
        ExecAction::Finished { result: Err(f) },
    )
}

/// Advance past the patch queue: patch the next actionable resource if
/// one is left; otherwise begin the pod-population poll (pause of a
/// scalable kind) or finish successfully.
pub open spec fn spec_dispatch(m: ScaleExecution) -> (ScaleExecution, ExecAction) {
    match first_actionable(m.kind, m.mode, m.resources@, m.next_index as int) {
        Some(i) => (
            ScaleExecution {
                next_index: (i + 1) as usize,
                phase: ExecPhase::PatchWait { current: i as usize },
                ..m
            },
            ExecAction::ApplyPatch {
                namespace: m.resources@[i].namespace.unwrap(),
                name: m.resources@[i].name.unwrap(),
                patch: m.patch,
            },
        ),
        None => if m.mode == ScaleMode::Pause && uses_replica_scaling(m.kind) {
            (ScaleExecution { phase: ExecPhase::PodCountWait, ..m }, ExecAction::CountPods)
        } else {
            (
                ScaleExecution { phase: ExecPhase::Complete, ..m },
                ExecAction::Finished { result: Ok(()) },
            )
        },
    }
}

/// The executor's transition relation: from a state and an observed
/// event to the successor state and the next order.
pub open spec fn spec_on_event(m: ScaleExecution, e: ExecEvent) -> (ScaleExecution, ExecAction) {
    match (m.phase, e) {
        (ExecPhase::Listing, ExecEvent::Listed(Ok(rs))) => spec_dispatch(
            ScaleExecution { resources: rs, next_index: 0, ..m },
        ),
        (ExecPhase::Listing, ExecEvent::Listed(Err(f))) => spec_fail(m, f),
        (ExecPhase::PatchWait { current }, ExecEvent::Patched(Ok(_))) => {
            if m.mode == ScaleMode::Pause {
                (
                    ScaleExecution { phase: ExecPhase::AwaitWait { current }, ..m },
                    ExecAction::AwaitCondition {
                        namespace: m.resources@[current as int].namespace.unwrap(),
                        name: m.resources@[current as int].name.unwrap(),
                        condition: converge_condition(m),
                    },
                )
            } else {
                spec_dispatch(m)
            }
        },
        (ExecPhase::PatchWait { .. }, ExecEvent::Patched(Err(f))) => spec_fail(m, f),
        // The per-resource wait is best-effort: its outcome, success or
        // failure, never changes what happens next.
        (ExecPhase::AwaitWait { .. }, ExecEvent::ConditionAwaited(_)) => spec_dispatch(m),
        (ExecPhase::PodCountWait, ExecEvent::PodsCounted(Ok(c))) => {
            if c == m.desired_size {
                (
                    ScaleExecution { phase: ExecPhase::Complete, ..m },
                    ExecAction::Finished { result: Ok(()) },
                )
            } else {
                (
                    ScaleExecution { phase: ExecPhase::SleepWait, ..m },
                    ExecAction::Sleep { seconds: POD_POLL_INTERVAL_SECS },
                )
            }
        },
        (ExecPhase::PodCountWait, ExecEvent::PodsCounted(Err(f))) => spec_fail(m, f),
        (ExecPhase::SleepWait, ExecEvent::Slept) => (
            ScaleExecution { phase: ExecPhase::PodCountWait, ..m },
            ExecAction::CountPods,
        ),
        _ => (m, ExecAction::Finished { result: Ok(()) }),
    }
}

/// Every step out of a well-formed state leaves a well-formed state.
pub proof fn lemma_step_preserves_wf(m: ScaleExecution, e: ExecEvent)
    requires
        exec_wf(m),
        expects(m, e),
    ensures
        exec_wf(spec_on_event(m, e).0),
{
    match (m.phase, e) {
        (ExecPhase::Listing, ExecEvent::Listed(Ok(rs))) => {
            let m1 = ScaleExecution { resources: rs, next_index: 0, ..m };
            lemma_first_actionable(m1.kind, m1.mode, m1.resources@, 0);
        },
        (ExecPhase::PatchWait { current }, ExecEvent::Patched(Ok(_))) => {
            if m.mode != ScaleMode::Pause {
                lemma_first_actionable(m.kind, m.mode, m.resources@, m.next_index as int);
            }
        },
        (ExecPhase::AwaitWait { .. }, ExecEvent::ConditionAwaited(_)) => {
            lemma_first_actionable(m.kind, m.mode, m.resources@, m.next_index as int);
        },
        _ => {},
    }
}

/// A selector matching zero resources is success, not an error: when the
/// listing comes back empty, no patch is ever directed, and the operation
/// finishes successfully — at once for the suspend strategy and for any
/// resume, and right after the first pod count reports the desired size
/// for the pause of a scalable kind.
pub proof fn lemma_empty_selection_succeeds(m: ScaleExecution, rs: Vec<ListedResource>)
    requires
        exec_wf(m),
        m.phase is Listing,
        rs@.len() == 0,
    ensures
        ({
            let (m1, a1) = spec_on_event(m, ExecEvent::Listed(Ok(rs)));
            if m.mode == ScaleMode::Pause && uses_replica_scaling(m.kind) {
                a1 == ExecAction::CountPods
                    && spec_on_event(m1, ExecEvent::PodsCounted(Ok(m.desired_size))).1
                        == (ExecAction::Finished { result: Ok::<(), ApiFailure>(()) })
            } else {
                a1 == (ExecAction::Finished { result: Ok::<(), ApiFailure>(()) })
            }
        }),
{
    lemma_step_preserves_wf(m, ExecEvent::Listed(Ok(rs)));
}

/// The resume guard: whenever a resume of a scalable kind directs a
/// patch, the targeted resource was observed at zero replicas.  A
/// resource observed at any other count — running, whatever its size —
/// is left untouched.
pub proof fn lemma_resume_guard(m: ScaleExecution, e: ExecEvent)
    requires
        exec_wf(m),
        expects(m, e),
        m.mode == ScaleMode::ResumeIfNeeded,
        uses_replica_scaling(m.kind),
    ensures
        ({
            let (m1, a1) = spec_on_event(m, e);
            &&& (a1 is ApplyPatch ==> (m1.phase matches ExecPhase::PatchWait { current }
                && replicas_or_zero(m1.resources@[current as int].status_replicas) == 0))
            &&& (a1 matches ExecAction::ApplyPatch { patch, .. }
                ==> patch == (PatchSpec::ScaleMerge { replicas: 1 }))
        }),
{
    lemma_step_preserves_wf(m, e);
    match (m.phase, e) {
        (ExecPhase::Listing, ExecEvent::Listed(Ok(rs))) => {
            let m1 = ScaleExecution { resources: rs, next_index: 0, ..m };
            lemma_first_actionable(m1.kind, m1.mode, m1.resources@, 0);
        },
        _ => {
            lemma_first_actionable(m.kind, m.mode, m.resources@, m.next_index as int);
        },
    }
}

/// Ordering within one resource: a convergence wait is only ever
/// directed right after that resource's own patch succeeded — the patch
/// always precedes its wait, and a failed patch never gets one.
pub proof fn lemma_patch_precedes_wait(m: ScaleExecution, e: ExecEvent)
    requires
        exec_wf(m),
        expects(m, e),
    ensures
        spec_on_event(m, e).1 is AwaitCondition ==> m.phase is PatchWait && (e matches
        ExecEvent::Patched(res) && res is Ok),
{
}

/// Physical convergence: the pause of a scalable kind completes only
/// when the observed pod population matches the desired size — ready
/// replicas alone are not trusted, because terminating pods are no
/// longer counted there yet still exist.  Any other count puts the
/// executor to sleep for another poll.
pub proof fn lemma_pause_completes_at_desired_pod_count(m: ScaleExecution, count: usize)
    requires
        exec_wf(m),
        m.phase is PodCountWait,
    ensures
        count == m.desired_size <==> spec_on_event(m, ExecEvent::PodsCounted(Ok(count))).1 == (
            ExecAction::Finished { result: Ok::<(), ApiFailure>(()) }
        ),
        count != m.desired_size ==> spec_on_event(m, ExecEvent::PodsCounted(Ok(count))).1 == (
            ExecAction::Sleep { seconds: POD_POLL_INTERVAL_SECS }
        ),
{
}

/// No rollback: every patch an execution ever directs is the one
/// configured at construction, towards the one desired state.  If the
/// enclosing timeout abandons the operation midway, the resources already
/// patched keep that state — recovery is re-invocation, which is safe
/// because the patch is idempotent.
pub proof fn lemma_only_configured_patch(m: ScaleExecution, e: ExecEvent)
    requires
        exec_wf(m),
        expects(m, e),
    ensures
        ({
            let a1 = spec_on_event(m, e).1;
            a1 matches ExecAction::ApplyPatch { patch, .. } ==> patch == m.patch
        }),
        spec_on_event(m, e).0.patch == m.patch,
        spec_on_event(m, e).0.desired_size == m.desired_size,
{
}

impl ScaleExecution {
    /// True exec counterpart of [`resource_actionable`].
    fn is_actionable(r: &ListedResource, kind: K8sResourceType, mode: ScaleMode) -> (b: bool)
        ensures
            b == resource_actionable(kind, mode, *r),
    {
        if r.namespace.is_none() || r.name.is_none() {
            return false;
        }
        if mode == ScaleMode::Pause {
            return true;
        }
        if kind.is_suspendable() {
            return true;
        }
        match r.status_replicas {
            None => true,
            Some(c) => c == 0,
        }
    }

    /// Scans the listing for the first actionable resource at or after
    /// `from`.
    fn scan(
        rs: &Vec<ListedResource>,
        kind: K8sResourceType,
        mode: ScaleMode,
        from: usize,
    ) -> (found: Option<usize>)
        requires
            from <= rs.len(),
        ensures
            match found {
                Some(i) => first_actionable(kind, mode, rs@, from as int) == Some(i as int),
                None => first_actionable(kind, mode, rs@, from as int) is None,
            },
    {
        let mut j: usize = from;
        while j < rs.len()
            invariant
                from <= j <= rs.len(),
                first_actionable(kind, mode, rs@, from as int)
                    == first_actionable(kind, mode, rs@, j as int),
            decreases rs.len() - j,
        {
            if Self::is_actionable(&rs[j], kind, mode) {
                return Some(j);
            }
            j = j + 1;
        }
        None
    }

    /// Advances past the patch queue, as [`spec_dispatch`] describes.
    fn dispatch(&mut self) -> (action: ExecAction)
        requires
            old(self).next_index <= old(self).resources.len(),
        ensures
            (*final(self), action) == spec_dispatch(*old(self)),
    {
        proof {
            lemma_first_actionable(
                self.kind,
                self.mode,
                self.resources@,
                self.next_index as int,
            );
        }
        let found = Self::scan(&self.resources, self.kind, self.mode, self.next_index);
        match found {
            Some(i) => {
                self.next_index = i + 1;
                self.phase = ExecPhase::PatchWait { current: i };
                let ns = match &self.resources[i].namespace {
                    Some(s) => s.clone(),
                    None => unreached(),
                };
                let nm = match &self.resources[i].name {
                    Some(s) => s.clone(),
                    None => unreached(),
                };
                ExecAction::ApplyPatch { namespace: ns, name: nm, patch: self.patch }
            },
            None => {
                if self.mode == ScaleMode::Pause && self.kind.is_replica_scaled() {
                    self.phase = ExecPhase::PodCountWait;
                    ExecAction::CountPods
                } else {
                    self.phase = ExecPhase::Complete;
                    ExecAction::Finished { result: Ok(()) }
                }
            },
        }
    }

    /// Feeds one observed result back and returns the next order.
    pub fn on_event(&mut self, event: ExecEvent) -> (action: ExecAction)
        requires
            exec_wf(*old(self)),
            expects(*old(self), event),
        ensures
            (*final(self), action) == spec_on_event(*old(self), event),
            exec_wf(*final(self)),
    {
        proof {
            lemma_step_preserves_wf(*self, event);
        }
        let ph = self.phase;
        match (ph, event) {
            (ExecPhase::Listing, ExecEvent::Listed(Ok(rs))) => {
                self.resources = rs;
                self.next_index = 0;
                self.dispatch()
            },
            (ExecPhase::Listing, ExecEvent::Listed(Err(f))) => {
                self.phase = ExecPhase::Complete;
                ExecAction::Finished { result: Err(f) }
            },
            (ExecPhase::PatchWait { current }, ExecEvent::Patched(Ok(_))) => {
                if self.mode == ScaleMode::Pause {
                    self.phase = ExecPhase::AwaitWait { current };
                    let ns = match &self.resources[current].namespace {
                        Some(s) => s.clone(),
                        None => unreached(),
                    };
                    let nm = match &self.resources[current].name {
                        Some(s) => s.clone(),
                        None => unreached(),
                    };
                    let condition = if self.kind.is_suspendable() {
                        ConvergeTarget::Suspended(self.desired_size == 0)
                    } else {
                        ConvergeTarget::ReadyReplicas(self.desired_size)
                    };
                    ExecAction::AwaitCondition { namespace: ns, name: nm, condition }
                } else {
                    self.dispatch()
                }
            },
            (ExecPhase::PatchWait { .. }, ExecEvent::Patched(Err(f))) => {
                self.phase = ExecPhase::Complete;
                ExecAction::Finished { result: Err(f) }
            },
            (ExecPhase::AwaitWait { .. }, ExecEvent::ConditionAwaited(_)) => self.dispatch(),
            (ExecPhase::PodCountWait, ExecEvent::PodsCounted(Ok(c))) => {
                if c == self.desired_size {
                    self.phase = ExecPhase::Complete;
                    ExecAction::Finished { result: Ok(()) }
                } else {
                    self.phase = ExecPhase::SleepWait;
                    ExecAction::Sleep { seconds: POD_POLL_INTERVAL_SECS }
                }
            },
            (ExecPhase::PodCountWait, ExecEvent::PodsCounted(Err(f))) => {
                self.phase = ExecPhase::Complete;
                ExecAction::Finished { result: Err(f) }
            },
            (ExecPhase::SleepWait, ExecEvent::Slept) => {
                self.phase = ExecPhase::PodCountWait;
                ExecAction::CountPods
            },
            _ => unreached(),
        }
    }
}

/// Begins a pause-style operation: drive every resource of
/// `k8s_resource_type` matching `selector` to `desired_size` replicas
/// (`0` pauses) or, for the suspend strategy, to the suspend flag
/// `desired_size == 0`.  Returns the executor and its first order.
///
/// For `DaemonSet` and `Job` the operation is a no-op: it finishes
/// successfully at once and directs no call at all.
pub fn pause_service(
    namespace: &str,
    selector: &str,
    desired_size: usize,
    k8s_resource_type: K8sResourceType,
    is_cluster_wide_resources_allowed: bool,
) -> (r: (ScaleExecution, ExecAction))
    ensures
        exec_wf(r.0),
        r.0.kind == k8s_resource_type,
        r.0.mode == ScaleMode::Pause,
        r.0.namespace@ == namespace@,
        r.0.list_filter.label_selector@ == selector@,
        r.0.desired_size == desired_size,
        r.0.cluster_wide == is_cluster_wide_resources_allowed,
        is_noop_kind(k8s_resource_type) ==> r.0.phase is Complete
            && r.1 == (ExecAction::Finished { result: Ok::<(), ApiFailure>(()) }),
        !is_noop_kind(k8s_resource_type) ==> r.0.phase is Listing && r.1 is List,
{
    start_execution(
        namespace,
        selector,
        desired_size,
        k8s_resource_type,
        ScaleMode::Pause,
        is_cluster_wide_resources_allowed,
    )
}

/// Begins a resume operation: re-scale to one replica every resource of
/// `k8s_resource_type` matching `selector` whose observed replica count
/// is zero (for scalable kinds), or unconditionally clear the suspend
/// flag (for the suspend strategy).  Resume always targets one replica,
/// not the pre-pause count: the engine does not track pre-pause counts.
///
/// For `DaemonSet` and `Job` the operation is a no-op, as for a pause.
pub fn unpause_service_if_needed(
    namespace: &str,
    selector: &str,
    k8s_resource_type: K8sResourceType,
    is_cluster_wide_resources_allowed: bool,
) -> (r: (ScaleExecution, ExecAction))
    ensures
        exec_wf(r.0),
        r.0.kind == k8s_resource_type,
        r.0.mode == ScaleMode::ResumeIfNeeded,
        r.0.namespace@ == namespace@,
        r.0.list_filter.label_selector@ == selector@,
        r.0.desired_size == 1,
        r.0.cluster_wide == is_cluster_wide_resources_allowed,
        is_noop_kind(k8s_resource_type) ==> r.0.phase is Complete
            && r.1 == (ExecAction::Finished { result: Ok::<(), ApiFailure>(()) }),
        !is_noop_kind(k8s_resource_type) ==> r.0.phase is Listing && r.1 is List,
{
    start_execution(
        namespace,
        selector,
        1,
        k8s_resource_type,
        ScaleMode::ResumeIfNeeded,
        is_cluster_wide_resources_allowed,
    )
}

/// Shared construction of both operations.
fn start_execution(
    namespace: &str,
    selector: &str,
    desired_size: usize,
    kind: K8sResourceType,
    mode: ScaleMode,
    cluster_wide: bool,
) -> (r: (ScaleExecution, ExecAction))
    requires
        mode == ScaleMode::ResumeIfNeeded ==> desired_size == 1,
    ensures
        exec_wf(r.0),
        r.0.kind == kind,
        r.0.mode == mode,
        r.0.namespace@ == namespace@,
        r.0.list_filter.label_selector@ == selector@,
        r.0.desired_size == desired_size,
        r.0.cluster_wide == cluster_wide,
        is_noop_kind(kind) ==> r.0.phase is Complete
            && r.1 == (ExecAction::Finished { result: Ok::<(), ApiFailure>(()) }),
        !is_noop_kind(kind) ==> r.0.phase is Listing && r.1 is List,
{
    let (list_filter, patch) = if kind.is_suspendable() {
        get_patch_suspend(selector, desired_size == 0)
    } else {
        get_patch_merge(selector, desired_size)
    };
    let noop = kind.is_pause_noop();
    let machine = ScaleExecution {
        kind,
        mode,
        namespace: String::from_str(namespace),
        list_filter,
        cluster_wide,
        desired_size,
        patch,
        resources: Vec::new(),
        next_index: 0,
        phase: if noop { ExecPhase::Complete } else { ExecPhase::Listing },
    };
    let action = if noop {
        ExecAction::Finished { result: Ok(()) }
    } else {
        ExecAction::List
    };
    (machine, action)
}

} // verus!
