//! Paired correctness attempts: the CUDA authority and the Ascend candidate.
use super::{AttemptError, AttemptErrorView, Publication, StoredAttempt, StoredAttemptView};
use crate::control::admission::{Delivery, DeliveryView};
use crate::control::{ServiceState, WorkerControlService};
use crate::digest;
use crate::digest::Sha256Digest;
use crate::repository::{ControlRepository, ControlState};
use crate::storage;
use crate::storage::{
    ArtifactDescriptor, ArtifactDescriptorView, ArtifactIdentity, AssignmentContract, AssignmentContractView,
    AssignmentRecord, AssignmentRecordView, AttemptOutcome, AttemptState, ExecutionContract,
    ExecutionContractView, ExecutionKind, FinishedObservation, FinishedObservationView,
    NetworkPolicy, ResourceContract,
};
use crate::text;
use vstd::prelude::*;
use vstd::string::*;

verus! {

pub const RUNNER_ARGV: &'static str = "reduction-correctness-v1";

pub const CUDA_REDUCTION_CORRECTNESS_FEATURE: &'static str = "cuda-reduction-correctness-v1";

pub const ASCEND_REDUCTION_CORRECTNESS_FEATURE: &'static str = "ascend-reduction-correctness-v1";

pub const REDUCTION_EXECUTION_BUNDLE_MEDIA_TYPE: &'static str = "application/vnd.alloyport.reduction-execution-bundle.v1+json";

pub const MAX_WORKER_RECEIPT_BYTES: u64 = 1048576;

pub const MAX_RUN_RECEIPT_BYTES: u64 = 8388608;

pub const MAX_EXECUTION_BUNDLE_BYTES: u64 = 33554432;

/// One explicitly selected worker and its immutable local-image assignment facts.
#[derive(Debug, PartialEq, Eq)]
pub struct CorrectnessWorkerTarget {
    worker_id: String,
    image: ArtifactDescriptor,
    limits: ResourceContract,
    timeout_ms: u64,
}

pub ghost struct TargetView {
    pub worker_id: Seq<char>,
    pub image: ArtifactDescriptorView,
    pub limits: ResourceContract,
    pub timeout_ms: u64,
}

impl View for CorrectnessWorkerTarget {
    type V = TargetView;

    closed spec fn view(&self) -> TargetView {
        TargetView {
            worker_id: self.worker_id@,
            image: self.image@,
            limits: self.limits,
            timeout_ms: self.timeout_ms,
        }
    }
}

/// A target names its worker and image, bounds every resource, opens exactly one device and no
/// network.
pub open spec fn safe(t: TargetView) -> bool {
    &&& !text::blank(t.worker_id)
    &&& t.image.size_bytes != 0
    &&& !text::blank(t.image.media_type)
    &&& t.timeout_ms != 0
    &&& t.limits.cpu_millis != 0
    &&& t.limits.memory_bytes != 0
    &&& t.limits.disk_bytes != 0
    &&& t.limits.process_count != 0
    &&& t.limits.output_bytes != 0
    &&& t.limits.device_count == 1
    &&& t.limits.network == NetworkPolicy::Disabled
}

impl CorrectnessWorkerTarget {
    #[verifier::type_invariant]
    spec fn is_safe(self) -> bool {
        safe(self@)
    }

    /// Creates a role-specific target without granting the server arbitrary execution controls.
    pub fn new(
        worker_id: &str,
        image: ArtifactDescriptor,
        limits: ResourceContract,
        timeout_ms: u64,
    ) -> (r: Result<Self, AttemptError>)
        ensures
            ({
                let t = TargetView { worker_id: worker_id@, image: image@, limits, timeout_ms };
                match r {
                    Ok(target) => safe(t) && target@ == t,
                    Err(e) => !safe(t) && e@ == AttemptErrorView::Rejected(
                        "correctness worker target is incomplete or unsafe"@,
                    ),
                }
            }),
    {
        if text::is_blank(worker_id) || image.size_bytes == 0 || text::is_blank(
            image.media_type.as_str(),
        ) || timeout_ms == 0 || limits.cpu_millis == 0 || limits.memory_bytes == 0
            || limits.disk_bytes == 0 || limits.process_count == 0 || limits.output_bytes == 0
            || limits.device_count != 1 || limits.network != NetworkPolicy::Disabled {
            return Err(
                AttemptError::Rejected(
                    "correctness worker target is incomplete or unsafe".to_owned(),
                ),
            );
        }
        Ok(CorrectnessWorkerTarget { worker_id: worker_id.to_owned(), image, limits, timeout_ms })
    }

    pub fn worker_id(&self) -> (r: &str)
        ensures
            r@ == self@.worker_id,
    {
        self.worker_id.as_str()
    }

    pub fn limits(&self) -> (r: ResourceContract)
        ensures
            r == self@.limits,
            safe(self@),
    {
        proof {
            use_type_invariant(self);
        }
        self.limits
    }
}

/// Which side of the comparison a run is.
#[derive(Clone, Copy, Debug, PartialEq, Eq, Structural)]
pub enum ReductionRunRole {
    CudaReference,
    AscendCandidate,
}

pub open spec fn role_name(role: ReductionRunRole) -> Seq<char> {
    match role {
        ReductionRunRole::CudaReference => "cuda-reference"@,
        ReductionRunRole::AscendCandidate => "ascend-candidate"@,
    }
}

pub open spec fn role_kind(role: ReductionRunRole) -> ExecutionKind {
    match role {
        ReductionRunRole::CudaReference => ExecutionKind::CudaCorrectness,
        ReductionRunRole::AscendCandidate => ExecutionKind::AscendCorrectness,
    }
}

pub open spec fn role_feature(role: ReductionRunRole) -> Seq<char> {
    match role {
        ReductionRunRole::CudaReference => CUDA_REDUCTION_CORRECTNESS_FEATURE@,
        ReductionRunRole::AscendCandidate => ASCEND_REDUCTION_CORRECTNESS_FEATURE@,
    }
}

/// What a correctness experiment is about, and its identity.
#[derive(Debug, PartialEq, Eq)]
pub struct ReductionCorrectnessExperiment {
    pub task_id: String,
    pub candidate_id: String,
    pub migration_spec_digest: Sha256Digest,
    pub manifest_digest: Sha256Digest,
    pub source_gate_receipt_digest: Sha256Digest,
    pub build_gate_receipt_digest: Sha256Digest,
    pub corpus_digest: Sha256Digest,
    pub policy_digest: Sha256Digest,
    pub experiment_digest: Sha256Digest,
}

pub ghost struct ExperimentView {
    pub task_id: Seq<char>,
    pub candidate_id: Seq<char>,
    pub migration_spec_digest: Seq<char>,
    pub manifest_digest: Seq<char>,
    pub source_gate_receipt_digest: Seq<char>,
    pub build_gate_receipt_digest: Seq<char>,
    pub corpus_digest: Seq<char>,
    pub policy_digest: Seq<char>,
    pub experiment_digest: Seq<char>,
}

impl View for ReductionCorrectnessExperiment {
    type V = ExperimentView;

    open spec fn view(&self) -> ExperimentView {
        ExperimentView {
            task_id: self.task_id@,
            candidate_id: self.candidate_id@,
            migration_spec_digest: self.migration_spec_digest@,
            manifest_digest: self.manifest_digest@,
            source_gate_receipt_digest: self.source_gate_receipt_digest@,
            build_gate_receipt_digest: self.build_gate_receipt_digest@,
            corpus_digest: self.corpus_digest@,
            policy_digest: self.policy_digest@,
            experiment_digest: self.experiment_digest@,
        }
    }
}

impl ReductionCorrectnessExperiment {
    /// Whether both are the same experiment.
    pub fn same(&self, other: &Self) -> (r: bool)
        ensures
            r == (self@ == other@),
    {
        text::same(self.task_id.as_str(), other.task_id.as_str()) && text::same(
            self.candidate_id.as_str(),
            other.candidate_id.as_str(),
        ) && self.migration_spec_digest.same(&other.migration_spec_digest)
            && self.manifest_digest.same(&other.manifest_digest)
            && self.source_gate_receipt_digest.same(&other.source_gate_receipt_digest)
            && self.build_gate_receipt_digest.same(&other.build_gate_receipt_digest)
            && self.corpus_digest.same(&other.corpus_digest) && self.policy_digest.same(
            &other.policy_digest,
        ) && self.experiment_digest.same(&other.experiment_digest)
    }
}

/// An experiment with the bundles of its two runs.
#[derive(Debug, PartialEq, Eq)]
pub struct ReductionCorrectnessAttemptSpec {
    pub experiment: ReductionCorrectnessExperiment,
    pub reference_bundle: ArtifactDescriptor,
    pub candidate_bundle: ArtifactDescriptor,
}

pub ghost struct AttemptSpecView {
    pub experiment: ExperimentView,
    pub reference_bundle: ArtifactDescriptorView,
    pub candidate_bundle: ArtifactDescriptorView,
}

impl View for ReductionCorrectnessAttemptSpec {
    type V = AttemptSpecView;

    open spec fn view(&self) -> AttemptSpecView {
        AttemptSpecView {
            experiment: self.experiment@,
            reference_bundle: self.reference_bundle@,
            candidate_bundle: self.candidate_bundle@,
        }
    }
}

/// The bytes that an assignment's identity stands for.
pub open spec fn identity_bytes(
    experiment: ExperimentView,
    role: ReductionRunRole,
    bundle: ArtifactDescriptorView,
    image: ArtifactDescriptorView,
) -> Seq<u8> {
    vstd::utf8::encode_utf8("alloyport-correctness-assignment-v1"@).push(0) + digest::raw(
        experiment.experiment_digest,
    ) + vstd::utf8::encode_utf8(role_name(role)) + digest::raw(bundle.digest) + digest::raw(
        image.digest,
    )
}

/// The 64 digits that tell one assignment of a role from another.
pub open spec fn identity_digits(
    experiment: ExperimentView,
    role: ReductionRunRole,
    bundle: ArtifactDescriptorView,
    image: ArtifactDescriptorView,
) -> Seq<char> {
    digest::digest_text(identity_bytes(experiment, role, bundle, image)).skip(7)
}

/// The assignment of one role.
pub open spec fn assigned(
    experiment: ExperimentView,
    role: ReductionRunRole,
    bundle: ArtifactDescriptorView,
    target: TargetView,
) -> AssignmentContractView {
    let digits = identity_digits(experiment, role, bundle, target.image);
    AssignmentContractView {
        assignment_id: "assignment-"@ + role_name(role) + "-"@ + digits,
        attempt_id: "attempt-"@ + role_name(role) + "-"@ + digits,
        attempt_number: 1,
        idempotency_key: "reduction-correctness:"@ + role_name(role) + ":"@
            + experiment.experiment_digest,
        task_id: experiment.task_id,
        candidate_id: experiment.candidate_id,
        execution: ExecutionContractView {
            executor_kind: role_kind(role),
            argv: seq![RUNNER_ARGV@],
            working_directory: "."@,
            environment: Seq::empty(),
            timeout_ms: target.timeout_ms,
            bundle,
            image: target.image,
            limits: Some(target.limits),
        },
        required_features: seq![role_feature(role)],
    }
}

/// A bundle that a correctness run can be given.
pub open spec fn bundle_usable(bundle: ArtifactDescriptorView) -> bool {
    &&& bundle.media_type == REDUCTION_EXECUTION_BUNDLE_MEDIA_TYPE@
    &&& 0 < bundle.size_bytes <= MAX_EXECUTION_BUNDLE_BYTES
}

pub open spec fn bundle_refused() -> AttemptErrorView {
    AttemptErrorView::Rejected("invalid correctness execution bundle descriptor"@)
}

fn identified(prefix: &str, name: &str, digits: &str) -> (r: String)
    ensures
        r@ == prefix@ + name@ + "-"@ + digits@,
{
    let mut out = text::enclosed(prefix, name, "-");
    out.append(digits);
    out
}

/// The assignment of one role, with a stable identity and no shell.
pub fn assignment(
    spec: &ReductionCorrectnessAttemptSpec,
    role: ReductionRunRole,
    bundle: &ArtifactDescriptor,
    target: &CorrectnessWorkerTarget,
) -> (r: Result<AssignmentContract, AttemptError>)
    ensures
        if bundle_usable(bundle@) {
            r matches Ok(contract) && contract@ == assigned(
                spec@.experiment,
                role,
                bundle@,
                target@,
            )
        } else {
            r matches Err(e) && e@ == bundle_refused()
        },
{
    if !text::same(bundle.media_type.as_str(), REDUCTION_EXECUTION_BUNDLE_MEDIA_TYPE)
        || bundle.size_bytes == 0 || bundle.size_bytes > MAX_EXECUTION_BUNDLE_BYTES {
        return Err(
            AttemptError::Rejected("invalid correctness execution bundle descriptor".to_owned()),
        );
    }
    let (name, executor_kind, feature) = match role {
        ReductionRunRole::CudaReference => (
            "cuda-reference",
            ExecutionKind::CudaCorrectness,
            CUDA_REDUCTION_CORRECTNESS_FEATURE,
        ),
        ReductionRunRole::AscendCandidate => (
            "ascend-candidate",
            ExecutionKind::AscendCorrectness,
            ASCEND_REDUCTION_CORRECTNESS_FEATURE,
        ),
    };
    let mut identity: Vec<u8> = Vec::new();
    text::push_bytes(&mut identity, "alloyport-correctness-assignment-v1".as_bytes());
    identity.push(0);
    text::push_bytes(&mut identity, spec.experiment.experiment_digest.bytes().as_slice());
    text::push_bytes(&mut identity, name.as_bytes());
    text::push_bytes(&mut identity, bundle.digest.bytes().as_slice());
    text::push_bytes(&mut identity, target.image.digest.bytes().as_slice());
    assert(identity@ =~= identity_bytes(spec@.experiment, role, bundle@, target@.image));
    let digest = Sha256Digest::digest_bytes(identity.as_slice());
    let digits = digest.hexadecimal();
    let mut idempotency_key = text::enclosed("reduction-correctness:", name, ":");
    idempotency_key.append(spec.experiment.experiment_digest.as_str());
    let mut argv: Vec<String> = Vec::new();
    argv.push(RUNNER_ARGV.to_owned());
    let mut required_features: Vec<String> = Vec::new();
    required_features.push(feature.to_owned());
    let environment: Vec<storage::EnvironmentEntry> = Vec::new();
    let contract = AssignmentContract {
        assignment_id: identified("assignment-", name, digits),
        attempt_id: identified("attempt-", name, digits),
        attempt_number: 1,
        idempotency_key,
        task_id: spec.experiment.task_id.clone(),
        candidate_id: spec.experiment.candidate_id.clone(),
        execution: ExecutionContract {
            executor_kind,
            argv,
            working_directory: ".".to_owned(),
            environment,
            timeout_ms: target.timeout_ms,
            bundle: bundle.clone(),
            image: target.image.clone(),
            limits: Some(target.limits),
        },
        required_features,
    };
    proof {
        let view = assigned(spec@.experiment, role, bundle@, target@);
        assert(contract@.execution.argv =~= view.execution.argv);
        assert(contract@.execution.environment =~= view.execution.environment);
        assert(contract@.required_features =~= view.required_features);
    }
    Ok(contract)
}

/// The two runs of a comparison never share an identity.
pub proof fn paired_assignments_are_distinct(
    experiment: ExperimentView,
    reference: ArtifactDescriptorView,
    candidate: ArtifactDescriptorView,
    cuda: TargetView,
    ascend: TargetView,
)
    ensures
        ({
            let a = assigned(experiment, ReductionRunRole::CudaReference, reference, cuda);
            let b = assigned(experiment, ReductionRunRole::AscendCandidate, candidate, ascend);
            &&& a.assignment_id != b.assignment_id
            &&& a.attempt_id != b.attempt_id
            &&& a.execution.executor_kind != b.execution.executor_kind
        }),
{
    reveal_strlit("assignment-");
    reveal_strlit("attempt-");
    reveal_strlit("cuda-reference");
    reveal_strlit("ascend-candidate");
    reveal_strlit("-");
    let a = assigned(experiment, ReductionRunRole::CudaReference, reference, cuda);
    let b = assigned(experiment, ReductionRunRole::AscendCandidate, candidate, ascend);
    assert(a.assignment_id[11] == 'c');
    assert(b.assignment_id[11] == 'a');
    assert(a.attempt_id[8] == 'c');
    assert(b.attempt_id[8] == 'a');
}

/// The CUDA authority and the Ascend candidate, each on its own worker.
#[derive(Debug, PartialEq, Eq)]
pub struct WorkerCorrectnessAttemptAdapter {
    cuda: CorrectnessWorkerTarget,
    ascend: CorrectnessWorkerTarget,
}

pub ghost struct PairView {
    pub cuda: TargetView,
    pub ascend: TargetView,
}

impl View for WorkerCorrectnessAttemptAdapter {
    type V = PairView;

    closed spec fn view(&self) -> PairView {
        PairView { cuda: self.cuda@, ascend: self.ascend@ }
    }
}

/// The assignments of both roles; a bundle that cannot be run refuses both.
pub open spec fn pair(p: PairView, spec: AttemptSpecView) -> Result<
    (AssignmentContractView, AssignmentContractView),
    AttemptErrorView,
> {
    if !bundle_usable(spec.reference_bundle) || !bundle_usable(spec.candidate_bundle) {
        Err(bundle_refused())
    } else {
        Ok(
            (
                assigned(
                    spec.experiment,
                    ReductionRunRole::CudaReference,
                    spec.reference_bundle,
                    p.cuda,
                ),
                assigned(
                    spec.experiment,
                    ReductionRunRole::AscendCandidate,
                    spec.candidate_bundle,
                    p.ascend,
                ),
            ),
        )
    }
}

pub open spec fn pair_view(r: Result<(AssignmentContract, AssignmentContract), AttemptError>) -> Result<
    (AssignmentContractView, AssignmentContractView),
    AttemptErrorView,
> {
    match r {
        Ok((a, b)) => Ok((a@, b@)),
        Err(e) => Err(e@),
    }
}

/// Queues the assignment of one role, whose bundle was published.
pub open spec fn dispatched(
    s: ServiceState,
    p: PairView,
    spec: AttemptSpecView,
    role: ReductionRunRole,
    publication: Publication,
    input: Option<Seq<char>>,
    now_ms: u64,
) -> (ServiceState, Result<DeliveryView, AttemptErrorView>) {
    match pair(p, spec) {
        Err(e) => (s, Err(e)),
        Ok((reference, candidate)) => {
            let (contract, worker_id) = match role {
                ReductionRunRole::CudaReference => (reference, p.cuda.worker_id),
                ReductionRunRole::AscendCandidate => (candidate, p.ascend.worker_id),
            };
            match super::publication_problem(
                publication,
                contract.execution.bundle.digest,
                "an "@,
                "execution bundle"@,
            ) {
                Some(e) => (s, Err(e)),
                None => super::queued(s, worker_id, contract, input, now_ms),
            }
        },
    }
}

/// Queues both assignments, the reference first. Where the reference is refused, nothing is done
/// for the candidate; where the candidate is, what was made for the reference stands.
pub open spec fn pair_dispatched(
    s: ServiceState,
    p: PairView,
    spec: AttemptSpecView,
    publications: (Publication, Publication),
    inputs: (Option<Seq<char>>, Option<Seq<char>>),
    now_ms: u64,
) -> (
    ServiceState,
    Result<(DeliveryView, Result<DeliveryView, AttemptErrorView>), AttemptErrorView>,
) {
    let (t, reference) = dispatched(
        s,
        p,
        spec,
        ReductionRunRole::CudaReference,
        publications.0,
        inputs.0,
        now_ms,
    );
    match reference {
        Err(e) => (t, Err(e)),
        Ok(first) => {
            let (u, candidate) = dispatched(
                t,
                p,
                spec,
                ReductionRunRole::AscendCandidate,
                publications.1,
                inputs.1,
                now_ms,
            );
            (u, Ok((first, candidate)))
        },
    }
}

/// What there is to send for a pair. The frame of the reference is sent even where the candidate was
/// refused.
#[derive(Debug, PartialEq, Eq)]
pub struct PairDispatch {
    pub reference: Delivery,
    pub candidate: Result<Delivery, AttemptError>,
}

pub open spec fn pair_delivered(r: Result<PairDispatch, AttemptError>) -> Result<
    (DeliveryView, Result<DeliveryView, AttemptErrorView>),
    AttemptErrorView,
> {
    match r {
        Ok(pair) => Ok((pair.reference@, super::delivered(pair.candidate))),
        Err(e) => Err(e@),
    }
}

/// What is stored of a dispatched run.
pub open spec fn located(
    s: ControlState,
    contract: AssignmentContractView,
    worker_id: Seq<char>,
) -> Result<Option<StoredAttemptView>, AttemptErrorView> {
    super::found(s, contract, worker_id, "correctness assignment identity changed after dispatch"@)
}

/// A run that ended without finishing says so.
pub open spec fn state_problem(state: AttemptState) -> Option<AttemptErrorView> {
    match state {
        AttemptState::Rejected | AttemptState::Cancelled => Some(
            AttemptErrorView::Rejected("correctness attempt became "@ + state.label()),
        ),
        AttemptState::LeaseExpired => Some(
            AttemptErrorView::Unavailable("correctness attempt lease expired"@),
        ),
        _ => None,
    }
}

fn reject_terminal_state(record: &AssignmentRecord) -> (r: Result<(), AttemptError>)
    ensures
        super::checked(r, state_problem(record@.state)),
{
    match record.state {
        AttemptState::Rejected | AttemptState::Cancelled => Err(
            AttemptError::Rejected(
                text::concat("correctness attempt became ", record.state.name()),
            ),
        ),
        AttemptState::LeaseExpired => Err(
            AttemptError::Unavailable("correctness attempt lease expired".to_owned()),
        ),
        _ => Ok(()),
    }
}

/// The identity of a pending pair's standing.
pub open spec fn pending_identity(
    reference: AssignmentRecordView,
    candidate: AssignmentRecordView,
) -> Seq<char> {
    digest::digest_text(
        vstd::utf8::encode_utf8("alloyport-correctness-pending-v1"@).push(0)
            + super::standing_bytes(reference) + super::standing_bytes(candidate),
    )
}

fn pending_digest(reference: &AssignmentRecord, candidate: &AssignmentRecord) -> (r: Sha256Digest)
    ensures
        r@ == pending_identity(reference@, candidate@),
{
    let mut bytes: Vec<u8> = Vec::new();
    text::push_bytes(&mut bytes, "alloyport-correctness-pending-v1".as_bytes());
    bytes.push(0);
    super::push_standing(&mut bytes, reference);
    super::push_standing(&mut bytes, candidate);
    assert(bytes@ =~= vstd::utf8::encode_utf8("alloyport-correctness-pending-v1"@).push(0)
        + super::standing_bytes(reference@) + super::standing_bytes(candidate@));
    Sha256Digest::digest_bytes(bytes.as_slice())
}

/// Where a pair stands.
#[derive(Debug, PartialEq, Eq)]
pub enum PairStanding {
    Pending { diagnostic_digest: Sha256Digest },
    /// Both workers ended their run; the receipts are still to be read.
    Ended { reference: FinishedObservation, candidate: FinishedObservation },
}

pub ghost enum PairStandingView {
    Pending { diagnostic_digest: Seq<char> },
    Ended { reference: FinishedObservationView, candidate: FinishedObservationView },
}

impl View for PairStanding {
    type V = PairStandingView;

    open spec fn view(&self) -> PairStandingView {
        match *self {
            PairStanding::Pending { diagnostic_digest } => PairStandingView::Pending {
                diagnostic_digest: diagnostic_digest@,
            },
            PairStanding::Ended { reference, candidate } => PairStandingView::Ended {
                reference: reference@,
                candidate: candidate@,
            },
        }
    }
}

/// Where two stored runs stand together.
pub open spec fn standing(reference: StoredAttemptView, candidate: StoredAttemptView) -> Result<
    PairStandingView,
    AttemptErrorView,
> {
    if state_problem(reference.record.state) is Some {
        Err(state_problem(reference.record.state)->0)
    } else if state_problem(candidate.record.state) is Some {
        Err(state_problem(candidate.record.state)->0)
    } else {
        let pending = PairStandingView::Pending {
            diagnostic_digest: pending_identity(reference.record, candidate.record),
        };
        match (reference.finished, candidate.finished) {
            (Some(a), Some(b)) => if reference.record.state == AttemptState::Finished
                && candidate.record.state == AttemptState::Finished {
                Ok(PairStandingView::Ended { reference: a, candidate: b })
            } else {
                Ok(pending)
            },
            _ => Ok(pending),
        }
    }
}

/// Where a dispatched pair stands; a run that is not stored is a contradiction.
pub open spec fn observed(s: ControlState, p: PairView, spec: AttemptSpecView) -> Result<
    PairStandingView,
    AttemptErrorView,
> {
    match pair(p, spec) {
        Err(e) => Err(e),
        Ok((a, b)) => match located(s, a, p.cuda.worker_id) {
            Err(e) => Err(e),
            Ok(reference) => match located(s, b, p.ascend.worker_id) {
                Err(e) => Err(e),
                Ok(candidate) => match (reference, candidate) {
                    (Some(x), Some(y)) => standing(x, y),
                    _ => Err(
                        AttemptErrorView::Integrity(
                            "dispatched correctness assignment is missing"@,
                        ),
                    ),
                },
            },
        },
    }
}

pub open spec fn standing_view(r: Result<PairStanding, AttemptError>) -> Result<
    PairStandingView,
    AttemptErrorView,
> {
    match r {
        Ok(standing) => Ok(standing@),
        Err(e) => Err(e@),
    }
}

/// Where two stored runs stand together.
pub fn observe_stored(reference: StoredAttempt, candidate: StoredAttempt) -> (r: Result<
    PairStanding,
    AttemptError,
>)
    ensures
        standing_view(r) == standing(reference@, candidate@),
{
    reject_terminal_state(&reference.record)?;
    reject_terminal_state(&candidate.record)?;
    let ended = reference.record.state == AttemptState::Finished && candidate.record.state
        == AttemptState::Finished;
    match (reference.finished, candidate.finished) {
        (Some(a), Some(b)) if ended => Ok(PairStanding::Ended { reference: a, candidate: b }),
        _ => Ok(
            PairStanding::Pending {
                diagnostic_digest: pending_digest(&reference.record, &candidate.record),
            },
        ),
    }
}

impl WorkerCorrectnessAttemptAdapter {
    #[verifier::type_invariant]
    spec fn workers_differ(self) -> bool {
        self.cuda@.worker_id != self.ascend@.worker_id
    }

    /// Binds the pair to distinct, explicitly configured backend workers.
    pub fn new(cuda: CorrectnessWorkerTarget, ascend: CorrectnessWorkerTarget) -> (r: Result<
        Self,
        AttemptError,
    >)
        ensures
            match r {
                Ok(adapter) => cuda@.worker_id != ascend@.worker_id && adapter@ == (PairView {
                    cuda: cuda@,
                    ascend: ascend@,
                }),
                Err(e) => cuda@.worker_id == ascend@.worker_id && e@ == AttemptErrorView::Rejected(
                    "CUDA authority and Ascend DUT require distinct workers"@,
                ),
            },
    {
        if text::same(cuda.worker_id.as_str(), ascend.worker_id.as_str()) {
            return Err(
                AttemptError::Rejected(
                    "CUDA authority and Ascend DUT require distinct workers".to_owned(),
                ),
            );
        }
        Ok(WorkerCorrectnessAttemptAdapter { cuda, ascend })
    }

    /// The assignments of both roles, which run on different workers.
    pub fn assignments(&self, spec: &ReductionCorrectnessAttemptSpec) -> (r: Result<
        (AssignmentContract, AssignmentContract),
        AttemptError,
    >)
        ensures
            pair_view(r) == pair(self@, spec@),
            self@.cuda.worker_id != self@.ascend.worker_id,
            safe(self@.cuda),
            safe(self@.ascend),
    {
        proof {
            use_type_invariant(self);
            use_type_invariant(&self.cuda);
            use_type_invariant(&self.ascend);
        }
        let reference = assignment(
            spec,
            ReductionRunRole::CudaReference,
            &spec.reference_bundle,
            &self.cuda,
        )?;
        let candidate = assignment(
            spec,
            ReductionRunRole::AscendCandidate,
            &spec.candidate_bundle,
            &self.ascend,
        )?;
        Ok((reference, candidate))
    }

    /// Queues the assignment of one role, whose bundle was published.
    pub fn dispatch(
        &self,
        service: &mut WorkerControlService,
        spec: &ReductionCorrectnessAttemptSpec,
        role: ReductionRunRole,
        publication: &Publication,
        input: Option<String>,
        now_ms: u64,
    ) -> (r: Result<Delivery, AttemptError>)
        ensures
            (final(service)@, super::delivered(r)) == dispatched(
                old(service)@,
                self@,
                spec@,
                role,
                *publication,
                text::optional(input),
                now_ms,
            ),
    {
        let (reference, candidate) = self.assignments(spec)?;
        let (contract, worker_id) = match role {
            ReductionRunRole::CudaReference => (&reference, self.cuda.worker_id.as_str()),
            ReductionRunRole::AscendCandidate => (&candidate, self.ascend.worker_id.as_str()),
        };
        super::check_publication(
            publication,
            &contract.execution.bundle.digest,
            "an ",
            "execution bundle",
        )?;
        super::queue(service, worker_id, contract, input, now_ms)
    }

    /// Queues the assignments of both roles, whose bundles were published: the reference, and
    /// behind it the candidate.
    pub fn dispatch_pair(
        &self,
        service: &mut WorkerControlService,
        spec: &ReductionCorrectnessAttemptSpec,
        reference: &Publication,
        candidate: &Publication,
        inputs: (Option<String>, Option<String>),
        now_ms: u64,
    ) -> (r: Result<PairDispatch, AttemptError>)
        ensures
            (final(service)@, pair_delivered(r)) == pair_dispatched(
                old(service)@,
                self@,
                spec@,
                (*reference, *candidate),
                (text::optional(inputs.0), text::optional(inputs.1)),
                now_ms,
            ),
    {
        let first = self.dispatch(
            service,
            spec,
            ReductionRunRole::CudaReference,
            reference,
            inputs.0,
            now_ms,
        )?;
        let second = self.dispatch(
            service,
            spec,
            ReductionRunRole::AscendCandidate,
            candidate,
            inputs.1,
            now_ms,
        );
        Ok(PairDispatch { reference: first, candidate: second })
    }

    /// Where a pair stands once it was dispatched; a refused candidate is the answer itself.
    pub fn observe_dispatched(
        &self,
        repository: &ControlRepository,
        spec: &ReductionCorrectnessAttemptSpec,
        candidate: Result<Delivery, AttemptError>,
    ) -> (r: Result<PairStanding, AttemptError>)
        ensures
            standing_view(r) == match super::delivered(candidate) {
                Err(e) => Err(e),
                Ok(_) => observed(repository@, self@, spec@),
            },
    {
        match candidate {
            Err(error) => Err(error),
            Ok(_) => self.observe_pair(repository, spec),
        }
    }

    /// Where a dispatched pair stands.
    pub fn observe_pair(
        &self,
        repository: &ControlRepository,
        spec: &ReductionCorrectnessAttemptSpec,
    ) -> (r: Result<PairStanding, AttemptError>)
        ensures
            standing_view(r) == observed(repository@, self@, spec@),
    {
        let (a, b) = self.assignments(spec)?;
        let changed = "correctness assignment identity changed after dispatch";
        let reference = super::lookup(repository, &a, self.cuda.worker_id.as_str(), changed)?;
        let candidate = super::lookup(repository, &b, self.ascend.worker_id.as_str(), changed)?;
        match (reference, candidate) {
            (Some(x), Some(y)) => observe_stored(x, y),
            _ => Err(
                AttemptError::Integrity("dispatched correctness assignment is missing".to_owned()),
            ),
        }
    }
}

/// What a worker's correctness receipt says.
#[derive(Debug, PartialEq, Eq)]
pub struct CorrectnessReceipt {
    pub schema_version: u16,
    pub assignment_id: String,
    pub attempt_id: String,
    pub task_id: String,
    pub candidate_id: String,
    pub bundle_digest: String,
    pub image_digest: String,
    pub outcome: String,
    pub exit_code: Option<i32>,
    pub elapsed_ms: u64,
    pub stdout_digest: Sha256Digest,
}

/// What an execution bundle says of itself.
#[derive(Debug, PartialEq, Eq)]
pub struct ReductionExecutionBundle {
    pub role: ReductionRunRole,
    pub experiment: ReductionCorrectnessExperiment,
    pub implementation_digest: Sha256Digest,
}

/// What a structured run receipt says of its run.
#[derive(Debug, PartialEq, Eq)]
pub struct ReductionRunReceipt {
    pub role: ReductionRunRole,
    pub experiment_digest: Sha256Digest,
    pub candidate_id: Option<String>,
    pub corpus_digest: Sha256Digest,
    pub implementation_digest: Sha256Digest,
}

/// The receipt schema that each kind of run writes.
pub open spec fn receipt_schema(kind: ExecutionKind) -> Option<u16> {
    match kind {
        ExecutionKind::CudaCorrectness => Some(3u16),
        ExecutionKind::AscendCorrectness => Some(2u16),
        _ => None,
    }
}

/// A receipt speaks of exactly this assignment, this end and this output.
pub open spec fn receipt_agrees(
    receipt: CorrectnessReceipt,
    contract: AssignmentContractView,
    finished: FinishedObservationView,
    stdout: ArtifactDescriptorView,
) -> bool {
    &&& Some(receipt.schema_version) == receipt_schema(contract.execution.executor_kind)
    &&& receipt.assignment_id@ == contract.assignment_id
    &&& receipt.attempt_id@ == contract.attempt_id
    &&& receipt.task_id@ == contract.task_id
    &&& receipt.candidate_id@ == contract.candidate_id
    &&& receipt.bundle_digest@ == contract.execution.bundle.digest
    &&& receipt.image_digest@ == contract.execution.image.digest
    &&& receipt.outcome@ == finished.outcome.label()
    &&& receipt.exit_code == finished.exit_code
    &&& receipt.elapsed_ms == finished.elapsed_ms
    &&& receipt.stdout_digest@ == stdout.digest
}

pub open spec fn agreement_problem(
    receipt: CorrectnessReceipt,
    contract: AssignmentContractView,
    finished: FinishedObservationView,
    stdout: ArtifactDescriptorView,
) -> Option<AttemptErrorView> {
    if receipt_schema(contract.execution.executor_kind) is None {
        Some(AttemptErrorView::Integrity("unexpected correctness executor kind"@))
    } else if super::digest_problem(receipt.bundle_digest@) is Some {
        super::digest_problem(receipt.bundle_digest@)
    } else if super::digest_problem(receipt.image_digest@) is Some {
        super::digest_problem(receipt.image_digest@)
    } else if receipt_agrees(receipt, contract, finished, stdout) {
        None
    } else {
        Some(
            AttemptErrorView::Integrity(
                "worker receipt does not match the terminal correctness observation"@,
            ),
        )
    }
}

pub fn validate_worker_receipt(
    receipt: &CorrectnessReceipt,
    contract: &AssignmentContract,
    finished: &FinishedObservation,
    stdout: &ArtifactIdentity,
) -> (r: Result<(), AttemptError>)
    ensures
        super::checked(r, agreement_problem(*receipt, contract@, finished@, stdout@)),
{
    let expected_schema: u16 = match contract.execution.executor_kind {
        ExecutionKind::CudaCorrectness => 3,
        ExecutionKind::AscendCorrectness => 2,
        _ => {
            return Err(AttemptError::Integrity("unexpected correctness executor kind".to_owned()));
        },
    };
    let bundle_digest = super::parse_digest(receipt.bundle_digest.as_str())?;
    let image_digest = super::parse_digest(receipt.image_digest.as_str())?;
    if receipt.schema_version != expected_schema || !text::same(
        receipt.assignment_id.as_str(),
        contract.assignment_id.as_str(),
    ) || !text::same(receipt.attempt_id.as_str(), contract.attempt_id.as_str()) || !text::same(
        receipt.task_id.as_str(),
        contract.task_id.as_str(),
    ) || !text::same(receipt.candidate_id.as_str(), contract.candidate_id.as_str())
        || !bundle_digest.same(&contract.execution.bundle.digest) || !image_digest.same(
        &contract.execution.image.digest,
    ) || !text::same(receipt.outcome.as_str(), finished.outcome.as_str_name())
        || !super::same_exit_code(receipt.exit_code, finished.exit_code) || receipt.elapsed_ms
        != finished.elapsed_ms || !text::same(
        receipt.stdout_digest.as_str(),
        stdout.digest.as_str(),
    ) {
        return Err(
            AttemptError::Integrity(
                "worker receipt does not match the terminal correctness observation".to_owned(),
            ),
        );
    }
    Ok(())
}

/// A run receipt and its bundle speak of this experiment, this role and one implementation.
pub open spec fn run_agrees(
    experiment: ExperimentView,
    role: ReductionRunRole,
    bundle: ReductionExecutionBundle,
    run: ReductionRunReceipt,
) -> bool {
    &&& bundle.role == role
    &&& bundle.experiment@ == experiment
    &&& run.role == role
    &&& run.experiment_digest@ == experiment.experiment_digest
    &&& text::optional(run.candidate_id) == match role {
        ReductionRunRole::CudaReference => None,
        ReductionRunRole::AscendCandidate => Some(experiment.candidate_id),
    }
    &&& run.corpus_digest@ == experiment.corpus_digest
    &&& run.implementation_digest@ == bundle.implementation_digest@
}

pub open spec fn run_problem(
    experiment: ExperimentView,
    role: ReductionRunRole,
    bundle: ReductionExecutionBundle,
    run: ReductionRunReceipt,
) -> Option<AttemptErrorView> {
    if run_agrees(experiment, role, bundle, run) {
        None
    } else {
        Some(
            AttemptErrorView::Integrity(
                "structured run receipt does not match its correctness assignment"@,
            ),
        )
    }
}

pub fn validate_structured_run(
    spec: &ReductionCorrectnessAttemptSpec,
    role: ReductionRunRole,
    bundle: &ReductionExecutionBundle,
    run: &ReductionRunReceipt,
) -> (r: Result<(), AttemptError>)
    ensures
        super::checked(r, run_problem(spec@.experiment, role, *bundle, *run)),
{
    let candidate_agrees = match (role, &run.candidate_id) {
        (ReductionRunRole::CudaReference, None) => true,
        (ReductionRunRole::AscendCandidate, Some(id)) => text::same(
            id.as_str(),
            spec.experiment.candidate_id.as_str(),
        ),
        _ => false,
    };
    if bundle.role != role || !bundle.experiment.same(&spec.experiment) || run.role != role
        || !run.experiment_digest.same(&spec.experiment.experiment_digest) || !candidate_agrees
        || !run.corpus_digest.same(&spec.experiment.corpus_digest)
        || !run.implementation_digest.same(&bundle.implementation_digest) {
        return Err(
            AttemptError::Integrity(
                "structured run receipt does not match its correctness assignment".to_owned(),
            ),
        );
    }
    Ok(())
}

/// What is wrong with a stored document: `opened` is the size of what the store opened, `read`
/// what was read of it.
pub open spec fn document_problem(
    descriptor: ArtifactDescriptorView,
    max_bytes: u64,
    opened: Result<u64, String>,
    read: Result<Vec<u8>, String>,
) -> Option<AttemptErrorView> {
    if descriptor.size_bytes == 0 || descriptor.size_bytes > max_bytes {
        Some(
            AttemptErrorView::Integrity("structured correctness Artifact descriptor is invalid"@),
        )
    } else {
        match opened {
            Err(e) => Some(AttemptErrorView::Unavailable(e@)),
            Ok(size) => if size != descriptor.size_bytes {
                Some(AttemptErrorView::Integrity("structured correctness Artifact size changed"@))
            } else {
                match read {
                    Err(e) => Some(AttemptErrorView::Unavailable(e@)),
                    Ok(bytes) => if super::is_content(descriptor, bytes@) {
                        None
                    } else {
                        Some(
                            AttemptErrorView::Integrity(
                                "structured correctness Artifact identity changed"@,
                            ),
                        )
                    },
                }
            },
        }
    }
}

/// The content of a stored document, checked against its descriptor.
pub fn document_bytes(
    descriptor: &ArtifactIdentity,
    max_bytes: u64,
    opened: Result<u64, String>,
    read: Result<Vec<u8>, String>,
) -> (r: Result<Vec<u8>, AttemptError>)
    ensures
        match document_problem(descriptor@, max_bytes, opened, read) {
            Some(e) => r matches Err(error) && error@ == e,
            None => r is Ok && read is Ok && r->Ok_0@ == read->Ok_0@,
        },
{
    if descriptor.size_bytes == 0 || descriptor.size_bytes > max_bytes {
        return Err(
            AttemptError::Integrity(
                "structured correctness Artifact descriptor is invalid".to_owned(),
            ),
        );
    }
    let size = match opened {
        Ok(size) => size,
        Err(error) => {
            return Err(AttemptError::Unavailable(error));
        },
    };
    if size != descriptor.size_bytes {
        return Err(
            AttemptError::Integrity("structured correctness Artifact size changed".to_owned()),
        );
    }
    match read {
        Err(error) => Err(AttemptError::Unavailable(error)),
        Ok(bytes) => {
            if !super::content_matches(descriptor, &bytes) {
                return Err(
                    AttemptError::Integrity(
                        "structured correctness Artifact identity changed".to_owned(),
                    ),
                );
            }
            Ok(bytes)
        },
    }
}

/// Why an ended run has no evidence to read.
pub open spec fn evidence(finished: FinishedObservationView) -> Result<
    (ArtifactDescriptorView, ArtifactDescriptorView),
    AttemptErrorView,
> {
    if finished.outcome != AttemptOutcome::Succeeded || finished.exit_code != Some(0i32) {
        if finished.outcome == AttemptOutcome::CandidateFailed {
            Err(AttemptErrorView::Rejected(finished.detail))
        } else {
            Err(AttemptErrorView::Unavailable(finished.detail))
        }
    } else {
        match finished.receipt {
            None => Err(AttemptErrorView::Integrity("correctness attempt lacks worker receipt"@)),
            Some(receipt) => match finished.stdout {
                None => Err(
                    AttemptErrorView::Integrity(
                        "correctness attempt lacks structured stdout receipt"@,
                    ),
                ),
                Some(stdout) => Ok((receipt, stdout)),
            },
        }
    }
}

/// The worker receipt and the structured run receipt that a successful run names.
pub fn run_evidence(finished: &FinishedObservation) -> (r: Result<
    (ArtifactIdentity, ArtifactIdentity),
    AttemptError,
>)
    ensures
        match evidence(finished@) {
            Ok((receipt, stdout)) => r matches Ok(found) && found.0@ == receipt && found.1@
                == stdout,
            Err(e) => r matches Err(error) && error@ == e,
        },
{
    let succeeded = match finished.outcome {
        AttemptOutcome::Succeeded => super::same_exit_code(finished.exit_code, Some(0)),
        _ => false,
    };
    if !succeeded {
        return match finished.outcome {
            AttemptOutcome::CandidateFailed => Err(AttemptError::Rejected(finished.detail.clone())),
            _ => Err(AttemptError::Unavailable(finished.detail.clone())),
        };
    }
    match &finished.receipt {
        None => Err(
            AttemptError::Integrity("correctness attempt lacks worker receipt".to_owned()),
        ),
        Some(receipt) => match &finished.stdout {
            None => Err(
                AttemptError::Integrity(
                    "correctness attempt lacks structured stdout receipt".to_owned(),
                ),
            ),
            Some(stdout) => Ok((receipt.clone(), stdout.clone())),
        },
    }
}

/// What the evidence of an ended run comes to, once its documents were read: the run receipt, if
/// every document agrees. The documents are looked at in this order.
pub open spec fn accepted(
    experiment: ExperimentView,
    role: ReductionRunRole,
    contract: AssignmentContractView,
    finished: FinishedObservationView,
    worker: Result<CorrectnessReceipt, AttemptError>,
    bundle: Result<ReductionExecutionBundle, AttemptError>,
    run: Result<ReductionRunReceipt, AttemptError>,
) -> Result<ArtifactDescriptorView, AttemptErrorView> {
    match evidence(finished) {
        Err(e) => Err(e),
        Ok((_, stdout)) => match worker {
            Err(e) => Err(e@),
            Ok(receipt) => match agreement_problem(receipt, contract, finished, stdout) {
                Some(e) => Err(e),
                None => match bundle {
                    Err(e) => Err(e@),
                    Ok(bundle) => match run {
                        Err(e) => Err(e@),
                        Ok(run) => match run_problem(experiment, role, bundle, run) {
                            Some(e) => Err(e),
                            None => Ok(stdout),
                        },
                    },
                },
            },
        },
    }
}

/// Accepts the evidence of an ended run.
pub fn terminal_run(
    spec: &ReductionCorrectnessAttemptSpec,
    role: ReductionRunRole,
    contract: &AssignmentContract,
    finished: &FinishedObservation,
    worker: Result<CorrectnessReceipt, AttemptError>,
    bundle: Result<ReductionExecutionBundle, AttemptError>,
    run: Result<ReductionRunReceipt, AttemptError>,
) -> (r: Result<ArtifactIdentity, AttemptError>)
    ensures
        match accepted(spec@.experiment, role, contract@, finished@, worker, bundle, run) {
            Ok(d) => r matches Ok(found) && found@ == d,
            Err(e) => r matches Err(error) && error@ == e,
        },
{
    let (_, stdout) = run_evidence(finished)?;
    let receipt = worker?;
    validate_worker_receipt(&receipt, contract, finished, &stdout)?;
    let bundle = bundle?;
    let run = run?;
    validate_structured_run(spec, role, &bundle, &run)?;
    Ok(stdout)
}

/// What a pair of ended runs comes to: both run receipts, or the first refusal, the reference
/// first.
pub open spec fn pair_accepted(
    reference: Result<ArtifactDescriptorView, AttemptErrorView>,
    candidate: Result<ArtifactDescriptorView, AttemptErrorView>,
) -> Result<(ArtifactDescriptorView, ArtifactDescriptorView), AttemptErrorView> {
    match reference {
        Err(e) => Err(e),
        Ok(reference_run) => match candidate {
            Err(e) => Err(e),
            Ok(candidate_run) => Ok((reference_run, candidate_run)),
        },
    }
}

pub open spec fn run_view(r: Result<ArtifactIdentity, AttemptError>) -> Result<
    ArtifactDescriptorView,
    AttemptErrorView,
> {
    match r {
        Ok(run) => Ok(run@),
        Err(e) => Err(e@),
    }
}

/// The run receipts of a finished pair.
#[derive(Debug, PartialEq, Eq)]
pub struct FinishedPair {
    pub reference_run: ArtifactIdentity,
    pub candidate_run: ArtifactIdentity,
}

/// Finishes a pair whose runs both ended: it is finished only where both were accepted.
pub fn finish_pair(
    reference: Result<ArtifactIdentity, AttemptError>,
    candidate: Result<ArtifactIdentity, AttemptError>,
) -> (r: Result<FinishedPair, AttemptError>)
    ensures
        match pair_accepted(run_view(reference), run_view(candidate)) {
            Ok((reference_run, candidate_run)) => r matches Ok(found) && found.reference_run@
                == reference_run && found.candidate_run@ == candidate_run,
            Err(e) => r matches Err(error) && error@ == e,
        },
{
    let reference_run = reference?;
    let candidate_run = candidate?;
    Ok(FinishedPair { reference_run, candidate_run })
}

/// A refused reference leaves the candidate alone, and the candidate is always queued behind the
/// reference.
pub proof fn references_are_dispatched_first(
    s: ServiceState,
    p: PairView,
    spec: AttemptSpecView,
    publications: (Publication, Publication),
    inputs: (Option<Seq<char>>, Option<Seq<char>>),
    now_ms: u64,
)
    ensures
        ({
            let (t, reference) = dispatched(
                s,
                p,
                spec,
                ReductionRunRole::CudaReference,
                publications.0,
                inputs.0,
                now_ms,
            );
            let (u, r) = pair_dispatched(s, p, spec, publications, inputs, now_ms);
            &&& reference is Err ==> u == t && r is Err
            &&& reference is Ok ==> u == dispatched(
                t,
                p,
                spec,
                ReductionRunRole::AscendCandidate,
                publications.1,
                inputs.1,
                now_ms,
            ).0 && r is Ok
        }),
{
}

/// A pair is finished exactly where both runs were accepted.
pub proof fn pairs_finish_together(
    reference: Result<ArtifactDescriptorView, AttemptErrorView>,
    candidate: Result<ArtifactDescriptorView, AttemptErrorView>,
)
    ensures
        pair_accepted(reference, candidate) is Ok <==> reference is Ok && candidate is Ok,
        reference matches Err(e) ==> pair_accepted(reference, candidate) == Err::<
            (ArtifactDescriptorView, ArtifactDescriptorView),
            AttemptErrorView,
        >(e),
{
}

/// A run is accepted only for the implementation that its bundle assigned.
pub proof fn accepted_runs_bind_their_implementation(
    experiment: ExperimentView,
    role: ReductionRunRole,
    contract: AssignmentContractView,
    finished: FinishedObservationView,
    worker: CorrectnessReceipt,
    bundle: ReductionExecutionBundle,
    run: ReductionRunReceipt,
)
    requires
        accepted(experiment, role, contract, finished, Ok(worker), Ok(bundle), Ok(run)) is Ok,
    ensures
        run.implementation_digest@ == bundle.implementation_digest@,
        run.experiment_digest@ == experiment.experiment_digest,
        worker.attempt_id@ == contract.attempt_id,
        worker.image_digest@ == contract.execution.image.digest,
        finished.outcome == AttemptOutcome::Succeeded,
{
}

} // verus!
