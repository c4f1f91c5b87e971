//! Admission, access grants, reassignment and cancellation.
use super::{delivery, projection};
use super::{ServiceState, WorkerControlService};
use crate::interaction;
use crate::interaction::{InteractionError, InteractionErrorView, InteractionRunAccessStore};
use crate::proto;
use crate::proto::v1;
use crate::proto::v1::{ServerToWorker, ServerToWorkerView};
use crate::proto::{Problem, ValidationError};
use crate::repository;
use crate::repository::{assignments, attempts};
use crate::storage::{
    AssignmentContract, AssignmentContractView, CancellationStoreOutcome, ExecutionKind,
    RepositoryError, RepositoryErrorView, StoreAssignmentOutcome,
};
use crate::text;
use crate::wire;
use vstd::prelude::*;
use vstd::string::*;

verus! {

/// Why an assignment is not queued.
#[derive(Debug)]
pub enum EnqueueError {
    Invalid(ValidationError),
    Repository(RepositoryError),
    Interaction(InteractionError),
    Artifact(String),
}

pub ghost enum EnqueueErrorView {
    Invalid(Problem),
    Repository(RepositoryErrorView),
    Interaction(InteractionErrorView),
    Artifact(Seq<char>),
}

impl View for EnqueueError {
    type V = EnqueueErrorView;

    open spec fn view(&self) -> EnqueueErrorView {
        match *self {
            EnqueueError::Invalid(e) => EnqueueErrorView::Invalid(e@),
            EnqueueError::Repository(e) => EnqueueErrorView::Repository(e@),
            EnqueueError::Interaction(e) => EnqueueErrorView::Interaction(e@),
            EnqueueError::Artifact(d) => EnqueueErrorView::Artifact(d@),
        }
    }
}

impl EnqueueErrorView {
    pub open spec fn text(self) -> Seq<char> {
        match self {
            EnqueueErrorView::Invalid(p) => proto::problem_text(p),
            EnqueueErrorView::Repository(e) => e.text(),
            EnqueueErrorView::Interaction(e) => e.text(),
            EnqueueErrorView::Artifact(d) => d,
        }
    }
}

impl EnqueueError {
    /// The text of a refusal.
    pub fn message(&self) -> (r: String)
        ensures
            r@ == self@.text(),
    {
        match self {
            EnqueueError::Invalid(e) => e.message(),
            EnqueueError::Repository(e) => e.message(),
            EnqueueError::Interaction(e) => e.message(),
            EnqueueError::Artifact(d) => d.clone(),
        }
    }
}

/// What became of a queued assignment.
#[derive(Clone, Copy, Debug, PartialEq, Eq, Structural)]
pub enum EnqueueOutcome {
    Sent,
    Pending,
    Duplicate,
}

/// What became of a cancellation.
#[derive(Clone, Copy, Debug, PartialEq, Eq, Structural)]
pub enum CancelOutcome {
    CancelledBeforeSend,
    AlreadyTerminal,
    Pending,
    Sent,
}

/// What is left to do for a queued assignment: nothing, or to send a committed frame.
#[derive(Debug, PartialEq, Eq)]
pub enum Delivery {
    Duplicate,
    Pending,
    Send(ServerToWorker),
}

pub ghost enum DeliveryView {
    Duplicate,
    Pending,
    Send(ServerToWorkerView),
}

impl View for Delivery {
    type V = DeliveryView;

    open spec fn view(&self) -> DeliveryView {
        match *self {
            Delivery::Duplicate => DeliveryView::Duplicate,
            Delivery::Pending => DeliveryView::Pending,
            Delivery::Send(frame) => DeliveryView::Send(frame@),
        }
    }
}

/// What is left to do for a cancellation: nothing, or to send a committed frame to a worker.
#[derive(Debug, PartialEq, Eq)]
pub enum CancelDelivery {
    Settled(CancelOutcome),
    Send { worker_id: String, frame: ServerToWorker },
}

pub ghost enum CancelDeliveryView {
    Settled(CancelOutcome),
    Send { worker_id: Seq<char>, frame: ServerToWorkerView },
}

impl View for CancelDelivery {
    type V = CancelDeliveryView;

    open spec fn view(&self) -> CancelDeliveryView {
        match *self {
            CancelDelivery::Settled(outcome) => CancelDeliveryView::Settled(outcome),
            CancelDelivery::Send { worker_id, frame } => CancelDeliveryView::Send {
                worker_id: worker_id@,
                frame: frame@,
            },
        }
    }
}

pub open spec fn seen<T: View>(r: Result<T, EnqueueError>) -> Result<T::V, EnqueueErrorView> {
    match r {
        Ok(value) => Ok(value@),
        Err(e) => Err(e@),
    }
}

pub open spec fn cancel_seen(r: Result<CancelDelivery, RepositoryError>) -> Result<
    CancelDeliveryView,
    RepositoryErrorView,
> {
    match r {
        Ok(value) => Ok(value@),
        Err(e) => Err(e@),
    }
}

/// Why a fixture assignment for CUDA gets no input bundle from a server without artifacts.
pub const NO_ARTIFACT_SERVICE: &'static str = "CUDA fixture assignments require the Artifact metadata service";

/// What the artifact service knows of an input bundle.
#[derive(Debug, PartialEq, Eq)]
pub enum BundleLookup {
    NoService,
    Failed(String),
    Missing,
    Published(u64),
}

/// What an artifact is kept for.
#[derive(Clone, Copy, Debug, PartialEq, Eq, Structural)]
pub enum ArtifactReferenceKind {
    AssignmentInput,
}

/// A reference that keeps an artifact for an owner.
#[derive(Debug, PartialEq, Eq)]
pub struct GrantArtifactReference {
    pub owner_id: String,
    pub reference_key: String,
    pub digest: String,
    pub kind: ArtifactReferenceKind,
    pub purpose: String,
    pub now_ms: u64,
    pub retained_until_ms: Option<u64>,
}

pub ghost struct GrantArtifactReferenceView {
    pub owner_id: Seq<char>,
    pub reference_key: Seq<char>,
    pub digest: Seq<char>,
    pub kind: ArtifactReferenceKind,
    pub purpose: Seq<char>,
    pub now_ms: u64,
    pub retained_until_ms: Option<u64>,
}

impl View for GrantArtifactReference {
    type V = GrantArtifactReferenceView;

    open spec fn view(&self) -> GrantArtifactReferenceView {
        GrantArtifactReferenceView {
            owner_id: self.owner_id@,
            reference_key: self.reference_key@,
            digest: self.digest@,
            kind: self.kind,
            purpose: self.purpose@,
            now_ms: self.now_ms,
            retained_until_ms: self.retained_until_ms,
        }
    }
}

/// The reference that a worker needs to read its input bundle, or why it gets none: only fixture
/// assignments for CUDA carry such a bundle, and it must be published with the declared size.
pub open spec fn input_reference(
    worker_id: Seq<char>,
    contract: AssignmentContractView,
    lookup: BundleLookup,
    now_ms: u64,
) -> Result<Option<GrantArtifactReferenceView>, EnqueueErrorView> {
    let digest = contract.execution.bundle.digest;
    if contract.execution.executor_kind != ExecutionKind::CudaFixture {
        Ok(None)
    } else {
        match lookup {
            BundleLookup::NoService => Err(
                EnqueueErrorView::Artifact(
                    NO_ARTIFACT_SERVICE@,
                ),
            ),
            BundleLookup::Failed(detail) => Err(EnqueueErrorView::Artifact(detail@)),
            BundleLookup::Missing => Err(
                EnqueueErrorView::Artifact("input bundle "@ + digest + " is not published"@),
            ),
            BundleLookup::Published(size) => if size != contract.execution.bundle.size_bytes {
                Err(
                    EnqueueErrorView::Artifact(
                        "input bundle "@ + digest + " has size "@ + text::decimal(size as nat)
                            + ", assignment declares "@ + text::decimal(
                            contract.execution.bundle.size_bytes as nat,
                        ),
                    ),
                )
            } else {
                Ok(
                    Some(
                        GrantArtifactReferenceView {
                            owner_id: worker_id,
                            reference_key: "input:"@ + contract.attempt_id + ":bundle"@,
                            digest,
                            kind: ArtifactReferenceKind::AssignmentInput,
                            purpose: "CUDA fixture input bundle"@,
                            now_ms,
                            retained_until_ms: None,
                        },
                    ),
                )
            },
        }
    }
}

/// The reference that a worker needs to read its input bundle.
pub fn grant_cuda_assignment_input(
    worker_id: &str,
    contract: &AssignmentContract,
    lookup: &BundleLookup,
    now_ms: u64,
) -> (r: Result<Option<GrantArtifactReference>, EnqueueError>)
    ensures
        match input_reference(worker_id@, contract@, *lookup, now_ms) {
            Ok(Some(grant)) => r matches Ok(Some(found)) && found@ == grant,
            Ok(None) => r matches Ok(None),
            Err(e) => r matches Err(error) && error@ == e,
        },
{
    if contract.execution.executor_kind != ExecutionKind::CudaFixture {
        return Ok(None);
    }
    let digest = contract.execution.bundle.digest.as_str();
    let size = match lookup {
        BundleLookup::NoService => {
            return Err(
                EnqueueError::Artifact(
                    NO_ARTIFACT_SERVICE.to_owned(),
                ),
            );
        },
        BundleLookup::Failed(detail) => {
            return Err(EnqueueError::Artifact(detail.clone()));
        },
        BundleLookup::Missing => {
            return Err(
                EnqueueError::Artifact(
                    text::enclosed("input bundle ", digest, " is not published"),
                ),
            );
        },
        BundleLookup::Published(size) => *size,
    };
    if size != contract.execution.bundle.size_bytes {
        let mut detail = text::enclosed("input bundle ", digest, " has size ");
        text::push_decimal(&mut detail, size);
        detail.append(", assignment declares ");
        text::push_decimal(&mut detail, contract.execution.bundle.size_bytes);
        return Err(EnqueueError::Artifact(detail));
    }
    Ok(
        Some(
            GrantArtifactReference {
                owner_id: worker_id.to_owned(),
                reference_key: text::enclosed("input:", contract.attempt_id.as_str(), ":bundle"),
                digest: digest.to_owned(),
                kind: ArtifactReferenceKind::AssignmentInput,
                purpose: "CUDA fixture input bundle".to_owned(),
                now_ms,
                retained_until_ms: None,
            },
        ),
    )
}

/// A valid assignment names a known network policy, where it has limits at all.
pub open spec fn bounded(assignment: v1::AssignmentView) -> bool {
    proto::assignment_problem(assignment) is None ==> (assignment.execution matches Some(
        execution,
    ) ==> wire::limits_known(execution.limits))
}

/// Keeps a valid assignment.
pub open spec fn admission(
    s: ServiceState,
    worker_id: Seq<char>,
    assignment: v1::AssignmentView,
    now_ms: u64,
) -> (ServiceState, Result<(AssignmentContractView, StoreAssignmentOutcome), EnqueueErrorView>) {
    match proto::assignment_problem(assignment) {
        Some(p) => (s, Err(EnqueueErrorView::Invalid(p))),
        None => {
            let contract = wire::contract_of(assignment);
            let (stored, r) = assignments::store(s.repository, worker_id, contract, now_ms);
            (
                ServiceState { repository: stored, ..s },
                match r {
                    Ok(outcome) => Ok((contract, outcome)),
                    Err(e) => Err(EnqueueErrorView::Repository(e)),
                },
            )
        },
    }
}

/// Starts the run of a kept assignment and makes it ready to be sent.
pub open spec fn make_ready(
    s: ServiceState,
    worker_id: Seq<char>,
    contract: AssignmentContractView,
    now_ms: u64,
) -> (ServiceState, Result<bool, EnqueueErrorView>) {
    let (started, r) = projection::run_started(s, contract, now_ms);
    match r {
        Err(e) => (started, Err(EnqueueErrorView::Interaction(e))),
        Ok(_) => {
            let (stored, ready) = assignments::release(
                started.repository,
                contract.attempt_id,
                worker_id,
                now_ms,
            );
            (
                ServiceState { repository: stored, ..started },
                match ready {
                    Ok(became) => Ok(became),
                    Err(e) => Err(EnqueueErrorView::Repository(e)),
                },
            )
        },
    }
}

/// Makes the frame of an assignment that is ready.
pub open spec fn dispatch(
    s: ServiceState,
    worker_id: Seq<char>,
    attempt_id: Seq<char>,
    now_ms: u64,
) -> (ServiceState, Result<DeliveryView, EnqueueErrorView>) {
    let (t, r) = delivery::assignment_frame(s, worker_id, attempt_id, now_ms);
    (
        t,
        match r {
            Ok(Some(frame)) => Ok(DeliveryView::Send(frame)),
            Ok(None) => Ok(DeliveryView::Pending),
            Err(e) => Err(EnqueueErrorView::Repository(e)),
        },
    )
}

/// Readies a kept assignment and makes its frame; one that was kept before and is past that point
/// is a repetition. `input` is why the worker cannot read its input bundle, where that is so.
pub open spec fn release(
    s: ServiceState,
    worker_id: Seq<char>,
    contract: AssignmentContractView,
    stored: StoreAssignmentOutcome,
    input: Option<Seq<char>>,
    now_ms: u64,
) -> (ServiceState, Result<DeliveryView, EnqueueErrorView>) {
    if contract.execution.executor_kind == ExecutionKind::CudaFixture && input is Some {
        (s, Err(EnqueueErrorView::Artifact(input->0)))
    } else {
        let (ready, r) = make_ready(s, worker_id, contract, now_ms);
        match r {
            Err(e) => (ready, Err(e)),
            Ok(became) => if stored == StoreAssignmentOutcome::Duplicate && !became {
                (ready, Ok(DeliveryView::Duplicate))
            } else {
                dispatch(ready, worker_id, contract.attempt_id, now_ms)
            },
        }
    }
}

/// Keeps an assignment, readies it and makes its frame.
pub open spec fn enqueue(
    s: ServiceState,
    worker_id: Seq<char>,
    assignment: v1::AssignmentView,
    input: Option<Seq<char>>,
    now_ms: u64,
) -> (ServiceState, Result<DeliveryView, EnqueueErrorView>) {
    let (kept, r) = admission(s, worker_id, assignment, now_ms);
    match r {
        Err(e) => (kept, Err(e)),
        Ok((contract, stored)) => release(kept, worker_id, contract, stored, input, now_ms),
    }
}

/// Grants an owner the run of a valid assignment, then queues it.
pub open spec fn enqueue_for_owner(
    s: ServiceState,
    owner_id: Seq<char>,
    worker_id: Seq<char>,
    assignment: v1::AssignmentView,
    input: Option<Seq<char>>,
    now_ms: u64,
) -> (ServiceState, Result<DeliveryView, EnqueueErrorView>) {
    match proto::assignment_problem(assignment) {
        Some(p) => (s, Err(EnqueueErrorView::Invalid(p))),
        None => {
            let (log, granted) = interaction::grant(
                s.interactions,
                assignment.task_id,
                owner_id,
                now_ms,
            );
            let t = ServiceState { interactions: log, ..s };
            match granted {
                Err(e) => (t, Err(EnqueueErrorView::Interaction(e))),
                Ok(_) => enqueue(t, worker_id, assignment, input, now_ms),
            }
        },
    }
}

/// Takes over an expired attempt and makes the frame of its successor.
pub open spec fn take_over(
    s: ServiceState,
    expired_id: Seq<char>,
    worker_id: Seq<char>,
    replacement_id: Seq<char>,
    input: Option<Seq<char>>,
    now_ms: u64,
) -> (ServiceState, Result<DeliveryView, EnqueueErrorView>) {
    let (stored, r) = assignments::reassign(
        s.repository,
        expired_id,
        worker_id,
        replacement_id,
        now_ms,
    );
    let t = ServiceState { repository: stored, ..s };
    match r {
        Err(e) => (t, Err(EnqueueErrorView::Repository(e))),
        Ok(record) => match proto::assignment_problem(
            wire::assignment_of(record.assignment.contract),
        ) {
            Some(p) => (t, Err(EnqueueErrorView::Invalid(p))),
            None => {
                let contract = record.assignment.contract;
                if contract.execution.executor_kind == ExecutionKind::CudaFixture && input is Some {
                    (t, Err(EnqueueErrorView::Artifact(input->0)))
                } else {
                    let (started, begun) = projection::run_started(t, contract, now_ms);
                    match begun {
                        Err(e) => (started, Err(EnqueueErrorView::Interaction(e))),
                        Ok(_) => {
                            let (released, ready) = assignments::release(
                                started.repository,
                                replacement_id,
                                worker_id,
                                now_ms,
                            );
                            let u = ServiceState { repository: released, ..started };
                            match ready {
                                Err(e) => (u, Err(EnqueueErrorView::Repository(e))),
                                Ok(became) => if record.outcome
                                    == StoreAssignmentOutcome::Duplicate && !became {
                                    (u, Ok(DeliveryView::Duplicate))
                                } else {
                                    dispatch(u, worker_id, replacement_id, now_ms)
                                },
                            }
                        },
                    }
                }
            },
        },
    }
}

/// Requests a cancellation and makes the frame that carries it to a worker that runs the attempt.
pub open spec fn cancel(
    s: ServiceState,
    attempt_id: Seq<char>,
    reason: Seq<char>,
    now_ms: u64,
) -> (ServiceState, Result<CancelDeliveryView, RepositoryErrorView>) {
    let (stored, r) = attempts::cancel(s.repository, attempt_id, reason, now_ms);
    let t = ServiceState { repository: stored, ..s };
    match r {
        Err(e) => (t, Err(e)),
        Ok(record) => match record.outcome {
            CancellationStoreOutcome::CancelledBeforeSend => (
                t,
                Ok(CancelDeliveryView::Settled(CancelOutcome::CancelledBeforeSend)),
            ),
            CancellationStoreOutcome::AlreadyTerminal => (
                t,
                Ok(CancelDeliveryView::Settled(CancelOutcome::AlreadyTerminal)),
            ),
            _ => {
                let (u, made) = delivery::cancel_frame(
                    t,
                    record.worker_id,
                    attempt_id,
                    reason,
                    now_ms,
                );
                (
                    u,
                    match made {
                        Err(e) => Err(e),
                        Ok(None) => Ok(CancelDeliveryView::Settled(CancelOutcome::Pending)),
                        Ok(Some(frame)) => Ok(
                            CancelDeliveryView::Send { worker_id: record.worker_id, frame },
                        ),
                    },
                )
            },
        },
    }
}

impl WorkerControlService {
    /// Validates and keeps an assignment for a named worker.
    pub fn admit_assignment(
        &mut self,
        worker_id: &str,
        assignment: &v1::Assignment,
        now_ms: u64,
    ) -> (r: Result<(AssignmentContract, StoreAssignmentOutcome), EnqueueError>)
        requires
            bounded(assignment@),
        ensures
            ({
                let (t, admitted) = admission(old(self)@, worker_id@, assignment@, now_ms);
                &&& final(self)@ == t
                &&& match admitted {
                    Ok((contract, outcome)) => r matches Ok(found) && found.0@ == contract
                        && found.1 == outcome,
                    Err(e) => r matches Err(error) && error@ == e,
                }
            }),
    {
        if let Err(error) = proto::validate_assignment(assignment) {
            return Err(EnqueueError::Invalid(error));
        }
        proof {
            wire::valid_assignments_are_convertible(assignment@);
        }
        let contract = wire::assignment_to_contract(assignment);
        match self.repository.store_assignment(worker_id, &contract, now_ms) {
            Ok(outcome) => Ok((contract, outcome)),
            Err(error) => Err(EnqueueError::Repository(error)),
        }
    }

    fn dispatch(&mut self, worker_id: &str, attempt_id: &str, now_ms: u64) -> (r: Result<
        Delivery,
        EnqueueError,
    >)
        ensures
            (final(self)@, seen(r)) == dispatch(old(self)@, worker_id@, attempt_id@, now_ms),
    {
        match self.prepare_assignment(worker_id, attempt_id, now_ms) {
            Ok(Some(frame)) => Ok(Delivery::Send(frame)),
            Ok(None) => Ok(Delivery::Pending),
            Err(error) => Err(EnqueueError::Repository(error)),
        }
    }

    /// Readies a kept assignment and makes its frame.
    pub fn release_assignment(
        &mut self,
        worker_id: &str,
        contract: &AssignmentContract,
        stored: StoreAssignmentOutcome,
        input: Option<String>,
        now_ms: u64,
    ) -> (r: Result<Delivery, EnqueueError>)
        ensures
            (final(self)@, seen(r)) == release(
                old(self)@,
                worker_id@,
                contract@,
                stored,
                text::optional(input),
                now_ms,
            ),
    {
        if contract.execution.executor_kind == ExecutionKind::CudaFixture {
            if let Some(detail) = input {
                return Err(EnqueueError::Artifact(detail));
            }
        }
        if let Err(error) = self.record_run_started(contract, now_ms) {
            return Err(EnqueueError::Interaction(error));
        }
        let became = match self.repository.mark_assignment_dispatchable(
            contract.attempt_id.as_str(),
            worker_id,
            now_ms,
        ) {
            Ok(became) => became,
            Err(error) => {
                return Err(EnqueueError::Repository(error));
            },
        };
        if stored == StoreAssignmentOutcome::Duplicate && !became {
            return Ok(Delivery::Duplicate);
        }
        self.dispatch(worker_id, contract.attempt_id.as_str(), now_ms)
    }

    /// Keeps an assignment for a named worker and, if it is connected, makes the frame to send.
    ///
    /// The immutable contract is committed before a frame is made. Making the frame commits its
    /// lease before the frame can be put on the network. `input` is why the worker cannot read its
    /// input bundle, where that is so.
    pub fn enqueue_assignment(
        &mut self,
        worker_id: &str,
        assignment: &v1::Assignment,
        input: Option<String>,
        now_ms: u64,
    ) -> (r: Result<Delivery, EnqueueError>)
        requires
            bounded(assignment@),
        ensures
            (final(self)@, seen(r)) == enqueue(
                old(self)@,
                worker_id@,
                assignment@,
                text::optional(input),
                now_ms,
            ),
    {
        let (contract, stored) = self.admit_assignment(worker_id, assignment, now_ms)?;
        self.release_assignment(worker_id, &contract, stored, input, now_ms)
    }

    /// Grants one owner access to the run, then queues its assignment.
    pub fn enqueue_assignment_for_owner(
        &mut self,
        owner_id: &str,
        worker_id: &str,
        assignment: &v1::Assignment,
        input: Option<String>,
        now_ms: u64,
    ) -> (r: Result<Delivery, EnqueueError>)
        requires
            bounded(assignment@),
        ensures
            (final(self)@, seen(r)) == enqueue_for_owner(
                old(self)@,
                owner_id@,
                worker_id@,
                assignment@,
                text::optional(input),
                now_ms,
            ),
    {
        if let Err(error) = proto::validate_assignment(assignment) {
            return Err(EnqueueError::Invalid(error));
        }
        if let Err(error) = self.interactions.grant_run_access(
            assignment.task_id.as_str(),
            owner_id,
            now_ms,
        ) {
            return Err(EnqueueError::Interaction(error));
        }
        self.enqueue_assignment(worker_id, assignment, input, now_ms)
    }

    /// Creates a new attempt for one that expired and makes its frame.
    ///
    /// The replacement copies the immutable contract and counts one attempt more. The expired
    /// record stays what late reports of the old worker are held against.
    pub fn reassign_expired_attempt(
        &mut self,
        expired_attempt_id: &str,
        replacement_worker_id: &str,
        replacement_attempt_id: &str,
        input: Option<String>,
        now_ms: u64,
    ) -> (r: Result<Delivery, EnqueueError>)
        ensures
            (final(self)@, seen(r)) == take_over(
                old(self)@,
                expired_attempt_id@,
                replacement_worker_id@,
                replacement_attempt_id@,
                text::optional(input),
                now_ms,
            ),
    {
        let record = match self.repository.reassign_expired(
            expired_attempt_id,
            replacement_worker_id,
            replacement_attempt_id,
            now_ms,
        ) {
            Ok(record) => record,
            Err(error) => {
                return Err(EnqueueError::Repository(error));
            },
        };
        let contract = &record.assignment.contract;
        let assignment = wire::contract_to_assignment(contract);
        if let Err(error) = proto::validate_assignment(&assignment) {
            return Err(EnqueueError::Invalid(error));
        }
        if contract.execution.executor_kind == ExecutionKind::CudaFixture {
            if let Some(detail) = input {
                return Err(EnqueueError::Artifact(detail));
            }
        }
        if let Err(error) = self.record_run_started(contract, now_ms) {
            return Err(EnqueueError::Interaction(error));
        }
        let became = match self.repository.mark_assignment_dispatchable(
            replacement_attempt_id,
            replacement_worker_id,
            now_ms,
        ) {
            Ok(became) => became,
            Err(error) => {
                return Err(EnqueueError::Repository(error));
            },
        };
        if record.outcome == StoreAssignmentOutcome::Duplicate && !became {
            return Ok(Delivery::Duplicate);
        }
        self.dispatch(replacement_worker_id, replacement_attempt_id, now_ms)
    }

    /// Durably requests cancellation and, if the owning worker is connected, makes the frame to
    /// send.
    pub fn cancel_attempt(&mut self, attempt_id: &str, reason: &str, now_ms: u64) -> (r: Result<
        CancelDelivery,
        RepositoryError,
    >)
        ensures
            (final(self)@, cancel_seen(r)) == cancel(old(self)@, attempt_id@, reason@, now_ms),
    {
        let record = match self.repository.request_cancellation(attempt_id, reason, now_ms) {
            Ok(record) => record,
            Err(error) => {
                return Err(error);
            },
        };
        match record.outcome {
            CancellationStoreOutcome::CancelledBeforeSend => {
                return Ok(CancelDelivery::Settled(CancelOutcome::CancelledBeforeSend));
            },
            CancellationStoreOutcome::AlreadyTerminal => {
                return Ok(CancelDelivery::Settled(CancelOutcome::AlreadyTerminal));
            },
            _ => {},
        }
        match self.prepare_cancel(record.worker_id.as_str(), attempt_id, reason, now_ms) {
            Err(error) => Err(error),
            Ok(None) => Ok(CancelDelivery::Settled(CancelOutcome::Pending)),
            Ok(Some(frame)) => Ok(CancelDelivery::Send { worker_id: record.worker_id, frame }),
        }
    }

    /// What became of a frame that was handed to the worker's connection.
    pub fn finish_send(&mut self, worker_id: &str, sent: bool) -> (r: EnqueueOutcome)
        ensures
            sent ==> final(self)@ == old(self)@ && r == EnqueueOutcome::Sent,
            !sent ==> final(self)@ == super::send_failed(old(self)@, worker_id@) && r
                == EnqueueOutcome::Pending,
    {
        if sent {
            EnqueueOutcome::Sent
        } else {
            self.mark_send_failed(worker_id);
            EnqueueOutcome::Pending
        }
    }
}

} // verus!
