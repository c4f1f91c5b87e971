//! Which runs and builds are taken as evidence, and what is asked of workers.
use super::builds;
use super::builds::{AscendBuildTerminal, BuildReceipt, BuildStandingView};
use super::correctness;
use super::correctness::{
    AttemptSpecView, CorrectnessReceipt, ExperimentView, PairStandingView, PairView,
    ReductionExecutionBundle, ReductionRunReceipt, ReductionRunRole, TargetView,
};
use super::{AttemptError, AttemptErrorView, Publication, StoredAttemptView};
use crate::control::ServiceState;
use crate::digest;
use crate::repository::ControlState;
use crate::storage::{
    ArtifactDescriptorView, AssignmentContractView, AttemptOutcome, AttemptState, ExecutionKind,
    FinishedObservationView, NetworkPolicy,
};
use crate::text;
use vstd::prelude::*;

verus! {

/// A run of the candidate is accepted exactly where it and its bundle are the candidate's, of the
/// assigned experiment and its corpus, name the experiment's candidate, and the run used the
/// bundle's implementation.
pub proof fn candidate_runs_are_accepted(
    experiment: ExperimentView,
    bundle: ReductionExecutionBundle,
    run: ReductionRunReceipt,
)
    ensures
        correctness::run_problem(experiment, ReductionRunRole::AscendCandidate, bundle, run) is None
            <==> {
            &&& bundle.role == ReductionRunRole::AscendCandidate
            &&& bundle.experiment@ == experiment
            &&& run.role == ReductionRunRole::AscendCandidate
            &&& run.experiment_digest@ == experiment.experiment_digest
            &&& run.candidate_id is Some
            &&& run.candidate_id->0@ == experiment.candidate_id
            &&& run.corpus_digest@ == experiment.corpus_digest
            &&& run.implementation_digest@ == bundle.implementation_digest@
        },
{
}

/// A run of the reference is accepted exactly where it and its bundle are the reference's, of the
/// assigned experiment and its corpus, name no candidate, and the run used the bundle's
/// implementation.
pub proof fn reference_runs_are_accepted(
    experiment: ExperimentView,
    bundle: ReductionExecutionBundle,
    run: ReductionRunReceipt,
)
    ensures
        correctness::run_problem(experiment, ReductionRunRole::CudaReference, bundle, run) is None
            <==> {
            &&& bundle.role == ReductionRunRole::CudaReference
            &&& bundle.experiment@ == experiment
            &&& run.role == ReductionRunRole::CudaReference
            &&& run.experiment_digest@ == experiment.experiment_digest
            &&& run.candidate_id is None
            &&& run.corpus_digest@ == experiment.corpus_digest
            &&& run.implementation_digest@ == bundle.implementation_digest@
        },
{
}

/// A run that its receipts disown is a breach of integrity, never a failure of the candidate.
pub proof fn disowned_runs_breach_integrity(
    experiment: ExperimentView,
    role: ReductionRunRole,
    bundle: ReductionExecutionBundle,
    run: ReductionRunReceipt,
)
    ensures
        correctness::run_problem(experiment, role, bundle, run) matches Some(e) ==> e is Integrity,
{
}

/// A worker's receipt names the work, the inputs and the outcome of the run that it is for.
pub open spec fn names_the_run(
    receipt: CorrectnessReceipt,
    contract: AssignmentContractView,
    finished: FinishedObservationView,
    stdout: ArtifactDescriptorView,
) -> bool {
    &&& receipt.assignment_id@ == contract.assignment_id
    &&& receipt.attempt_id@ == contract.attempt_id
    &&& receipt.task_id@ == contract.task_id
    &&& receipt.candidate_id@ == contract.candidate_id
    &&& receipt.bundle_digest@ == contract.execution.bundle.digest
    &&& receipt.image_digest@ == contract.execution.image.digest
    &&& receipt.exit_code == finished.exit_code
    &&& receipt.elapsed_ms == finished.elapsed_ms
    &&& receipt.stdout_digest@ == stdout.digest
}

/// The receipt of a run that succeeded is taken exactly where it has the schema of its executor,
/// names the run, and says that it succeeded.
pub proof fn receipts_of_successful_runs_are_taken(
    receipt: CorrectnessReceipt,
    contract: AssignmentContractView,
    finished: FinishedObservationView,
    stdout: ArtifactDescriptorView,
)
    requires
        digest::canonical(contract.execution.bundle.digest),
        digest::canonical(contract.execution.image.digest),
        finished.outcome == AttemptOutcome::Succeeded,
        contract.execution.executor_kind == ExecutionKind::CudaCorrectness
            || contract.execution.executor_kind == ExecutionKind::AscendCorrectness,
    ensures
        correctness::agreement_problem(receipt, contract, finished, stdout) is None
            <==> names_the_run(receipt, contract, finished, stdout) && receipt.outcome@
            == "ATTEMPT_OUTCOME_SUCCEEDED"@ && receipt.schema_version == (
        if contract.execution.executor_kind == ExecutionKind::CudaCorrectness {
            3u16
        } else {
            2u16
        }),
{
}

/// Whatever a correctness worker reports is bound to its own outcome, and no other executor's report
/// is taken.
pub proof fn receipts_tell_the_outcome(
    receipt: CorrectnessReceipt,
    contract: AssignmentContractView,
    finished: FinishedObservationView,
    stdout: ArtifactDescriptorView,
)
    requires
        correctness::agreement_problem(receipt, contract, finished, stdout) is None,
    ensures
        names_the_run(receipt, contract, finished, stdout),
        contract.execution.executor_kind == ExecutionKind::CudaCorrectness
            || contract.execution.executor_kind == ExecutionKind::AscendCorrectness,
        receipt.outcome@ == match finished.outcome {
            AttemptOutcome::Succeeded => "ATTEMPT_OUTCOME_SUCCEEDED"@,
            AttemptOutcome::CandidateFailed => "ATTEMPT_OUTCOME_CANDIDATE_FAILED"@,
            AttemptOutcome::TimedOut => "ATTEMPT_OUTCOME_TIMED_OUT"@,
            AttemptOutcome::Other(_) => "ATTEMPT_OUTCOME_UNSPECIFIED"@,
        },
{
}

/// A run gives evidence exactly where it succeeded with exit code zero and left both documents; a
/// candidate that failed is refused for it, and every other end leaves the question open.
pub proof fn only_clean_runs_give_evidence(finished: FinishedObservationView)
    ensures
        correctness::evidence(finished) is Ok <==> finished.outcome == AttemptOutcome::Succeeded
            && finished.exit_code == Some(0i32) && finished.receipt is Some && finished.stdout
            is Some,
        correctness::evidence(finished) is Ok ==> correctness::evidence(finished)->Ok_0 == (
            finished.receipt->0,
            finished.stdout->0,
        ),
        finished.outcome == AttemptOutcome::CandidateFailed ==> correctness::evidence(finished)
            == Err::<(ArtifactDescriptorView, ArtifactDescriptorView), AttemptErrorView>(
            AttemptErrorView::Rejected(finished.detail),
        ),
        finished.outcome == AttemptOutcome::TimedOut || finished.outcome is Other || (
        finished.outcome == AttemptOutcome::Succeeded && finished.exit_code != Some(0i32))
            ==> correctness::evidence(finished) == Err::<
            (ArtifactDescriptorView, ArtifactDescriptorView),
            AttemptErrorView,
        >(AttemptErrorView::Unavailable(finished.detail)),
        finished.outcome == AttemptOutcome::Succeeded && finished.exit_code == Some(0i32) && (
        finished.receipt is None || finished.stdout is None) ==> correctness::evidence(finished)
            is Err && correctness::evidence(finished)->Err_0 is Integrity,
{
}

/// A genuine run is accepted, and its structured output is what is handed on.
pub proof fn genuine_runs_are_accepted(
    experiment: ExperimentView,
    role: ReductionRunRole,
    contract: AssignmentContractView,
    finished: FinishedObservationView,
    worker: CorrectnessReceipt,
    bundle: ReductionExecutionBundle,
    run: ReductionRunReceipt,
)
    requires
        finished.outcome == AttemptOutcome::Succeeded,
        finished.exit_code == Some(0i32),
        finished.receipt is Some,
        finished.stdout is Some,
        correctness::agreement_problem(worker, contract, finished, finished.stdout->0) is None,
        correctness::run_problem(experiment, role, bundle, run) is None,
    ensures
        correctness::accepted(
            experiment,
            role,
            contract,
            finished,
            Ok::<CorrectnessReceipt, AttemptError>(worker),
            Ok::<ReductionExecutionBundle, AttemptError>(bundle),
            Ok::<ReductionRunReceipt, AttemptError>(run),
        ) == Ok::<ArtifactDescriptorView, AttemptErrorView>(finished.stdout->0),
{
}

/// A run is not accepted where one of its documents is missing or disagrees.
pub proof fn doubtful_runs_are_not_accepted(
    experiment: ExperimentView,
    role: ReductionRunRole,
    contract: AssignmentContractView,
    finished: FinishedObservationView,
    worker: Result<CorrectnessReceipt, AttemptError>,
    bundle: Result<ReductionExecutionBundle, AttemptError>,
    run: Result<ReductionRunReceipt, AttemptError>,
)
    requires
        correctness::accepted(experiment, role, contract, finished, worker, bundle, run) is Ok,
    ensures
        finished.outcome == AttemptOutcome::Succeeded,
        finished.exit_code == Some(0i32),
        finished.stdout is Some,
        worker is Ok,
        bundle is Ok,
        run is Ok,
        names_the_run(worker->Ok_0, contract, finished, finished.stdout->0),
        bundle->Ok_0.role == role,
        bundle->Ok_0.experiment@ == experiment,
        run->Ok_0.role == role,
        run->Ok_0.implementation_digest@ == bundle->Ok_0.implementation_digest@,
        run->Ok_0.corpus_digest@ == experiment.corpus_digest,
        role == ReductionRunRole::AscendCandidate ==> run->Ok_0.candidate_id is Some
            && run->Ok_0.candidate_id->0@ == experiment.candidate_id,
        role == ReductionRunRole::CudaReference ==> run->Ok_0.candidate_id is None,
{
}

/// Each run of a finished pair stands in its own place.
pub proof fn finished_pairs_keep_their_order(
    reference: ArtifactDescriptorView,
    candidate: ArtifactDescriptorView,
    e: AttemptErrorView,
)
    ensures
        correctness::pair_accepted(Ok(reference), Ok(candidate)) == Ok::<
            (ArtifactDescriptorView, ArtifactDescriptorView),
            AttemptErrorView,
        >((reference, candidate)),
        correctness::pair_accepted(Ok(reference), Err(e)) == Err::<
            (ArtifactDescriptorView, ArtifactDescriptorView),
            AttemptErrorView,
        >(e),
{
}

/// A structured document is read exactly where it is neither empty nor too large, has its size and
/// still is the content that its descriptor names.
pub proof fn documents_are_their_descriptors(
    descriptor: ArtifactDescriptorView,
    max_bytes: u64,
    opened: Result<u64, String>,
    read: Result<Vec<u8>, String>,
)
    ensures
        correctness::document_problem(descriptor, max_bytes, opened, read) is None <==> {
            &&& 0 < descriptor.size_bytes <= max_bytes
            &&& opened is Ok && opened->Ok_0 == descriptor.size_bytes
            &&& read is Ok
            &&& read->Ok_0@.len() == descriptor.size_bytes
            &&& digest::digest_text(read->Ok_0@) == descriptor.digest
        },
        builds::receipt_problem(descriptor, opened, read) is None <==> {
            &&& descriptor.size_bytes <= 1024 * 1024
            &&& opened is Ok && opened->Ok_0 == descriptor.size_bytes
            &&& read is Ok
            &&& read->Ok_0@.len() == descriptor.size_bytes
            &&& digest::digest_text(read->Ok_0@) == descriptor.digest
        },
{
}

/// The assignment of a role runs the correctness runner alone, in the role's image and bundle, with
/// the target's bounds, and asks for a worker that can.
pub proof fn roles_run_the_runner_alone(
    experiment: ExperimentView,
    role: ReductionRunRole,
    bundle: ArtifactDescriptorView,
    target: TargetView,
)
    ensures
        ({
            let a = correctness::assigned(experiment, role, bundle, target);
            let cuda = role == ReductionRunRole::CudaReference;
            &&& a.attempt_number == 1
            &&& a.task_id == experiment.task_id
            &&& a.candidate_id == experiment.candidate_id
            &&& a.execution.executor_kind == if cuda {
                ExecutionKind::CudaCorrectness
            } else {
                ExecutionKind::AscendCorrectness
            }
            &&& a.execution.argv == seq!["reduction-correctness-v1"@]
            &&& a.execution.working_directory == "."@
            &&& a.execution.environment.len() == 0
            &&& a.execution.timeout_ms == target.timeout_ms
            &&& a.execution.bundle == bundle
            &&& a.execution.image == target.image
            &&& a.execution.limits == Some(target.limits)
            &&& a.required_features == seq![
                if cuda {
                    "cuda-reduction-correctness-v1"@
                } else {
                    "ascend-reduction-correctness-v1"@
                },
            ]
            &&& a.idempotency_key == (if cuda {
                "reduction-correctness:cuda-reference:"@
            } else {
                "reduction-correctness:ascend-candidate:"@
            }) + experiment.experiment_digest
        }),
{
    reveal_strlit("reduction-correctness:");
    reveal_strlit("cuda-reference");
    reveal_strlit("ascend-candidate");
    reveal_strlit(":");
    reveal_strlit("reduction-correctness:cuda-reference:");
    reveal_strlit("reduction-correctness:ascend-candidate:");
    assert("reduction-correctness:"@ + "cuda-reference"@ + ":"@
        =~= "reduction-correctness:cuda-reference:"@);
    assert("reduction-correctness:"@ + "ascend-candidate"@ + ":"@
        =~= "reduction-correctness:ascend-candidate:"@);
}

/// The same experiment, role, bundle and image make the same assignment whatever the worker; the
/// two identities of it end alike.
pub proof fn assignments_are_stable(
    experiment: ExperimentView,
    role: ReductionRunRole,
    bundle: ArtifactDescriptorView,
    first: TargetView,
    second: TargetView,
)
    requires
        first.image == second.image,
    ensures
        correctness::assigned(experiment, role, bundle, first).attempt_id == correctness::assigned(
            experiment,
            role,
            bundle,
            second,
        ).attempt_id,
        correctness::assigned(experiment, role, bundle, first).assignment_id
            == correctness::assigned(experiment, role, bundle, second).assignment_id,
{
}

/// A pair is assigned exactly where both bundles are execution bundles, neither empty nor above 32
/// MiB; each role gets its own bundle and target.
pub proof fn pairs_take_usable_bundles(p: PairView, spec: AttemptSpecView)
    ensures
        ({
            let kind = "application/vnd.alloyport.reduction-execution-bundle.v1+json"@;
            let a = spec.reference_bundle;
            let b = spec.candidate_bundle;
            &&& correctness::pair(p, spec) is Ok <==> a.media_type == kind && b.media_type == kind
                && 0 < a.size_bytes <= 33554432 && 0 < b.size_bytes <= 33554432
            &&& correctness::pair(p, spec) is Err ==> correctness::pair(p, spec)->Err_0 is Rejected
            &&& correctness::pair(p, spec) matches Ok((reference, candidate)) ==> {
                &&& reference.execution.executor_kind == ExecutionKind::CudaCorrectness
                &&& reference.execution.bundle == spec.reference_bundle
                &&& reference.execution.image == p.cuda.image
                &&& reference.execution.limits == Some(p.cuda.limits)
                &&& candidate.execution.executor_kind == ExecutionKind::AscendCorrectness
                &&& candidate.execution.bundle == spec.candidate_bundle
                &&& candidate.execution.image == p.ascend.image
                &&& candidate.execution.limits == Some(p.ascend.limits)
            }
        }),
{
}

/// A worker is safe to run candidates on exactly where it is named, every bound is positive, it has
/// one device and no network.
pub proof fn safe_targets_are_bounded(t: TargetView)
    ensures
        correctness::safe(t) <==> {
            &&& !text::blank(t.worker_id)
            &&& t.image.size_bytes > 0
            &&& !text::blank(t.image.media_type)
            &&& t.timeout_ms > 0
            &&& t.limits.cpu_millis > 0
            &&& t.limits.memory_bytes > 0
            &&& t.limits.disk_bytes > 0
            &&& t.limits.process_count > 0
            &&& t.limits.output_bytes > 0
            &&& t.limits.device_count == 1
            &&& t.limits.network == NetworkPolicy::Disabled
        },
{
}

/// Only a bundle that was published is dispatched; else nothing is queued.
pub proof fn unpublished_bundles_are_not_dispatched(
    s: ServiceState,
    p: PairView,
    spec: AttemptSpecView,
    role: ReductionRunRole,
    worker_id: Seq<char>,
    contract: AssignmentContractView,
    publication: Publication,
    input: Option<Seq<char>>,
    now_ms: u64,
)
    requires
        !(publication is Published),
    ensures
        correctness::dispatched(s, p, spec, role, publication, input, now_ms).0 == s,
        correctness::dispatched(s, p, spec, role, publication, input, now_ms).1 is Err,
        correctness::dispatched(s, p, spec, role, publication, input, now_ms).1->Err_0 is Rejected,
        builds::dispatched(s, worker_id, contract, publication, input, now_ms).0 == s,
        builds::dispatched(s, worker_id, contract, publication, input, now_ms).1 is Err,
        builds::dispatched(s, worker_id, contract, publication, input, now_ms).1->Err_0 is Rejected,
{
}

/// A published bundle is queued for the worker of its role.
pub proof fn published_bundles_are_queued(
    s: ServiceState,
    p: PairView,
    spec: AttemptSpecView,
    worker_id: Seq<char>,
    contract: AssignmentContractView,
    input: Option<Seq<char>>,
    now_ms: u64,
)
    ensures
        correctness::pair(p, spec) matches Ok((reference, candidate)) ==> {
            &&& correctness::dispatched(
                s,
                p,
                spec,
                ReductionRunRole::CudaReference,
                Publication::Published,
                input,
                now_ms,
            ) == super::queued(s, p.cuda.worker_id, reference, input, now_ms)
            &&& correctness::dispatched(
                s,
                p,
                spec,
                ReductionRunRole::AscendCandidate,
                Publication::Published,
                input,
                now_ms,
            ) == super::queued(s, p.ascend.worker_id, candidate, input, now_ms)
        },
        builds::dispatched(s, worker_id, contract, Publication::Published, input, now_ms)
            == super::queued(s, worker_id, contract, input, now_ms),
{
}

/// A pair has ended exactly where both runs have finished and left their ends; it waits while one is
/// still open, and is lost where one was declined, cancelled or expired.
pub proof fn pairs_end_where_both_runs_have(reference: StoredAttemptView, candidate: StoredAttemptView)
    ensures
        ({
            let r = correctness::standing(reference, candidate);
            let a = reference.record.state;
            let b = candidate.record.state;
            let gone = |x: AttemptState|
                x == AttemptState::Rejected || x == AttemptState::Cancelled || x
                    == AttemptState::LeaseExpired;
            &&& r is Err <==> gone(a) || gone(b)
            &&& a == AttemptState::LeaseExpired ==> r->Err_0 is Unavailable
            &&& a == AttemptState::Rejected || a == AttemptState::Cancelled ==> r->Err_0 is Rejected
            &&& (r is Ok && r->Ok_0 is Ended) <==> a == AttemptState::Finished && b
                == AttemptState::Finished && reference.finished is Some && candidate.finished is Some
            &&& r is Ok && r->Ok_0 is Ended ==> r->Ok_0 == (PairStandingView::Ended {
                reference: reference.finished->0,
                candidate: candidate.finished->0,
            })
        }),
{
}

/// A build has ended exactly where its attempt has finished and left its end; it waits while the
/// attempt is open, and is lost where it was declined, cancelled or expired.
pub proof fn builds_end_with_their_attempts(stored: StoredAttemptView)
    ensures
        ({
            let r = builds::standing(stored);
            match stored.record.state {
                AttemptState::Finished => match stored.finished {
                    Some(finished) => r == Ok::<BuildStandingView, AttemptErrorView>(
                        BuildStandingView::Ended { finished },
                    ),
                    None => r is Err && r->Err_0 is Integrity,
                },
                AttemptState::Rejected => r is Err && r->Err_0 is Rejected,
                AttemptState::Cancelled => r is Err && r->Err_0 is Rejected,
                AttemptState::LeaseExpired => r is Err && r->Err_0 is Unavailable,
                AttemptState::Preparing => r is Ok && r->Ok_0 is Pending,
                AttemptState::Dispatchable => r is Ok && r->Ok_0 is Pending,
                AttemptState::Sent => r is Ok && r->Ok_0 is Pending,
                AttemptState::Accepted => r is Ok && r->Ok_0 is Pending,
                AttemptState::Running => r is Ok && r->Ok_0 is Pending,
                AttemptState::CancelRequested => r is Ok && r->Ok_0 is Pending,
            }
        }),
{
}

/// What was dispatched is found again as it was stored; another contract or worker under its identity
/// is a breach, and what was never dispatched is missing.
pub proof fn dispatched_work_is_found_again(
    s: ControlState,
    contract: AssignmentContractView,
    worker_id: Seq<char>,
    changed: Seq<char>,
)
    requires
        s.assignments.dom().contains(contract.attempt_id) ==> s.assignments[contract.attempt_id].state
            != AttemptState::Finished,
    ensures
        !s.assignments.dom().contains(contract.attempt_id) ==> super::found(
            s,
            contract,
            worker_id,
            changed,
        ) == Ok::<Option<StoredAttemptView>, AttemptErrorView>(None),
        s.assignments.dom().contains(contract.attempt_id)
            && s.assignments[contract.attempt_id].contract == contract
            && s.assignments[contract.attempt_id].worker_id == worker_id ==> super::found(
            s,
            contract,
            worker_id,
            changed,
        ) == Ok::<Option<StoredAttemptView>, AttemptErrorView>(
            Some(
                StoredAttemptView {
                    record: s.assignments[contract.attempt_id],
                    finished: None,
                },
            ),
        ),
        s.assignments.dom().contains(contract.attempt_id) && (
        s.assignments[contract.attempt_id].contract != contract
            || s.assignments[contract.attempt_id].worker_id != worker_id) ==> super::found(
            s,
            contract,
            worker_id,
            changed,
        ) == Err::<Option<StoredAttemptView>, AttemptErrorView>(
            AttemptErrorView::Integrity(changed),
        ),
        !s.assignments.dom().contains(contract.attempt_id) ==> builds::observed(
            s,
            contract,
            worker_id,
        ) is Err && builds::reconciled(s, contract, worker_id) == Ok::<
            Option<BuildStandingView>,
            AttemptErrorView,
        >(None),
{
}

/// The receipt of a build is taken exactly where it has the present schema, names the build, its
/// inputs and its outcome.
pub proof fn build_receipts_are_taken(
    receipt: BuildReceipt,
    contract: AssignmentContractView,
    finished: FinishedObservationView,
)
    requires
        digest::canonical(contract.execution.bundle.digest),
        digest::canonical(contract.execution.image.digest),
    ensures
        builds::agreement_problem(receipt, contract, finished) is None <==> {
            &&& receipt.schema_version == 2
            &&& receipt.assignment_id@ == contract.assignment_id
            &&& receipt.attempt_id@ == contract.attempt_id
            &&& receipt.task_id@ == contract.task_id
            &&& receipt.candidate_id@ == contract.candidate_id
            &&& receipt.bundle_digest@ == contract.execution.bundle.digest
            &&& receipt.image_digest@ == contract.execution.image.digest
            &&& receipt.exit_code == finished.exit_code
            &&& receipt.elapsed_ms == finished.elapsed_ms
            &&& receipt.outcome@ == match finished.outcome {
                AttemptOutcome::Succeeded => "ATTEMPT_OUTCOME_SUCCEEDED"@,
                AttemptOutcome::CandidateFailed => "ATTEMPT_OUTCOME_CANDIDATE_FAILED"@,
                AttemptOutcome::TimedOut => "ATTEMPT_OUTCOME_TIMED_OUT"@,
                AttemptOutcome::Other(_) => "ATTEMPT_OUTCOME_UNSPECIFIED"@,
            }
        },
        builds::agreement_problem(receipt, contract, finished) matches Some(e) ==> e is Integrity,
{
}

/// A build is complete exactly where its worker reports success with exit code zero, and what it
/// left is told as it was reported.
pub proof fn complete_builds_succeeded(
    t: AscendBuildTerminal,
    contract: AssignmentContractView,
    finished: FinishedObservationView,
    environment: builds::AscendBuildEnvironment,
)
    requires
        builds::is_terminal(t, contract, finished, environment),
    ensures
        t.build_completed <==> finished.outcome == AttemptOutcome::Succeeded && finished.exit_code
            == Some(0i32),
        t.outcome == finished.outcome,
        t.exit_code == finished.exit_code,
        t.detail@ == finished.detail,
        t.attempt_id@ == contract.attempt_id,
        t.assignment_id@ == contract.assignment_id,
        t.environment == environment,
        t.worker_receipt is Some <==> finished.receipt is Some,
        t.stdout is Some ==> t.stdout->0@ == finished.stdout->0,
        t.stderr is Some ==> t.stderr->0@ == finished.stderr->0,
{
}

/// A receipt that names no digest where one belongs is refused for that, whatever else it says.
pub proof fn malformed_receipts_are_refused(
    receipt: BuildReceipt,
    contract: AssignmentContractView,
    finished: FinishedObservationView,
)
    requires
        !digest::canonical(receipt.bundle_digest@) || !digest::canonical(receipt.image_digest@),
    ensures
        builds::agreement_problem(receipt, contract, finished) == Some(
            super::AttemptErrorView::Integrity(
                "digest must be sha256: and 64 lowercase hexadecimal digits"@,
            ),
        ),
{
}

/// Of a pair the reference is dispatched first, on its own bundle and input, and the candidate behind
/// it on its own; where the reference cannot be dispatched the candidate is not either.
pub proof fn references_go_first(
    s: ServiceState,
    p: PairView,
    spec: AttemptSpecView,
    publications: (Publication, Publication),
    inputs: (Option<Seq<char>>, Option<Seq<char>>),
    now_ms: u64,
)
    ensures
        ({
            let (t, first) = correctness::dispatched(
                s,
                p,
                spec,
                ReductionRunRole::CudaReference,
                publications.0,
                inputs.0,
                now_ms,
            );
            let (u, second) = correctness::dispatched(
                t,
                p,
                spec,
                ReductionRunRole::AscendCandidate,
                publications.1,
                inputs.1,
                now_ms,
            );
            let (v, r) = correctness::pair_dispatched(s, p, spec, publications, inputs, now_ms);
            &&& first is Err ==> v == t && r is Err && r->Err_0 == first->Err_0
            &&& first is Ok ==> v == u && r is Ok && r->Ok_0.0 == first->Ok_0 && r->Ok_0.1 == second
        }),
{
}

} // verus!
