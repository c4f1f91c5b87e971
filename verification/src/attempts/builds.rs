//! Build attempts on one selected Ascend worker.
use super::{
    AttemptError, AttemptErrorView, Publication, StoredAttempt, StoredAttemptView,
};
use crate::control::admission::{Delivery, DeliveryView};
use crate::control::{ServiceState, WorkerControlService};
use crate::digest;
use crate::digest::Sha256Digest;
use crate::repository::{ControlRepository, ControlState};
use crate::storage;
use crate::storage::{
    ArtifactIdentity, AssignmentContract, AssignmentContractView, AssignmentRecordView,
    AttemptOutcome, AttemptState, FinishedObservation, FinishedObservationView,
};
use crate::text;
use vstd::prelude::*;
use vstd::string::*;

verus! {

pub const MAX_WORKER_RECEIPT_BYTES: u64 = 1048576;

/// Dispatches and reconciles build assignments on one worker.
#[derive(Debug, PartialEq, Eq)]
pub struct WorkerBuildAttemptAdapter {
    worker_id: String,
}

/// What a worker's build receipt says of the machine.
#[derive(Debug, PartialEq, Eq)]
pub struct AscendBuildEnvironment {
    pub architecture: String,
    pub cann_version: String,
    pub driver_version: String,
    pub firmware_version: String,
}

/// What a worker's build receipt says.
#[derive(Debug, PartialEq, Eq)]
pub struct BuildReceipt {
    pub schema_version: u16,
    pub assignment_id: String,
    pub attempt_id: String,
    pub task_id: String,
    pub candidate_id: String,
    pub bundle_digest: String,
    pub image_digest: String,
    pub environment: AscendBuildEnvironment,
    pub outcome: String,
    pub exit_code: Option<i32>,
    pub elapsed_ms: u64,
}

/// A finished build with its checked evidence.
#[derive(Debug, PartialEq, Eq)]
pub struct AscendBuildTerminal {
    pub assignment_id: String,
    pub attempt_id: String,
    pub outcome: AttemptOutcome,
    pub exit_code: Option<i32>,
    pub elapsed_ms: u64,
    pub detail: String,
    pub build_completed: bool,
    pub environment: AscendBuildEnvironment,
    pub worker_receipt: Option<ArtifactIdentity>,
    pub stdout: Option<ArtifactIdentity>,
    pub stderr: Option<ArtifactIdentity>,
}

/// Where a build stands.
#[derive(Debug, PartialEq, Eq)]
pub enum BuildStanding {
    Pending { diagnostic_digest: Sha256Digest },
    /// The worker ended it; the receipt is still to be read.
    Ended { finished: FinishedObservation },
}

pub ghost enum BuildStandingView {
    Pending { diagnostic_digest: Seq<char> },
    Ended { finished: FinishedObservationView },
}

impl View for BuildStanding {
    type V = BuildStandingView;

    open spec fn view(&self) -> BuildStandingView {
        match *self {
            BuildStanding::Pending { diagnostic_digest } => BuildStandingView::Pending {
                diagnostic_digest: diagnostic_digest@,
            },
            BuildStanding::Ended { finished } => BuildStandingView::Ended { finished: finished@ },
        }
    }
}

/// The identity of a pending build's standing.
pub open spec fn pending_identity(record: AssignmentRecordView) -> Seq<char> {
    digest::digest_text(
        vstd::utf8::encode_utf8("alloyport-build-pending-v1"@).push(0) + super::standing_bytes(
            record,
        ),
    )
}

/// Where a stored build stands.
pub open spec fn standing(stored: StoredAttemptView) -> Result<BuildStandingView, AttemptErrorView> {
    match stored.record.state {
        AttemptState::Finished => match stored.finished {
            Some(finished) => Ok(BuildStandingView::Ended { finished }),
            None => Err(
                AttemptErrorView::Integrity(
                    "finished build attempt lacks terminal observation"@,
                ),
            ),
        },
        AttemptState::Rejected | AttemptState::Cancelled => Err(
            AttemptErrorView::Rejected("build attempt became "@ + stored.record.state.label()),
        ),
        AttemptState::LeaseExpired => Err(
            AttemptErrorView::Unavailable("build attempt lease expired"@),
        ),
        _ => Ok(
            BuildStandingView::Pending { diagnostic_digest: pending_identity(stored.record) },
        ),
    }
}

pub open spec fn standing_view(r: Result<BuildStanding, AttemptError>) -> Result<
    BuildStandingView,
    AttemptErrorView,
> {
    match r {
        Ok(standing) => Ok(standing@),
        Err(e) => Err(e@),
    }
}

fn pending_digest(record: &storage::AssignmentRecord) -> (r: Sha256Digest)
    ensures
        r@ == pending_identity(record@),
{
    let mut bytes: Vec<u8> = Vec::new();
    text::push_bytes(&mut bytes, "alloyport-build-pending-v1".as_bytes());
    bytes.push(0);
    super::push_standing(&mut bytes, record);
    assert(bytes@ =~= vstd::utf8::encode_utf8("alloyport-build-pending-v1"@).push(0)
        + super::standing_bytes(record@));
    Sha256Digest::digest_bytes(bytes.as_slice())
}

/// Where a stored build stands.
pub fn observe_stored(stored: StoredAttempt) -> (r: Result<BuildStanding, AttemptError>)
    ensures
        standing_view(r) == standing(stored@),
{
    match stored.record.state {
        AttemptState::Finished => match stored.finished {
            Some(finished) => Ok(BuildStanding::Ended { finished }),
            None => Err(
                AttemptError::Integrity(
                    "finished build attempt lacks terminal observation".to_owned(),
                ),
            ),
        },
        AttemptState::Rejected | AttemptState::Cancelled => Err(
            AttemptError::Rejected(text::concat("build attempt became ", stored.record.state.name())),
        ),
        AttemptState::LeaseExpired => Err(
            AttemptError::Unavailable("build attempt lease expired".to_owned()),
        ),
        _ => Ok(BuildStanding::Pending { diagnostic_digest: pending_digest(&stored.record) }),
    }
}

/// Publishes the bundle's refusal or queues the build.
pub open spec fn dispatched(
    s: ServiceState,
    worker_id: Seq<char>,
    contract: AssignmentContractView,
    publication: Publication,
    input: Option<Seq<char>>,
    now_ms: u64,
) -> (ServiceState, Result<DeliveryView, AttemptErrorView>) {
    match super::publication_problem(
        publication,
        contract.execution.bundle.digest,
        "a "@,
        "build bundle"@,
    ) {
        Some(e) => (s, Err(e)),
        None => super::queued(s, worker_id, contract, input, now_ms),
    }
}

/// What is stored of a dispatched build.
pub open spec fn located(
    s: ControlState,
    contract: AssignmentContractView,
    worker_id: Seq<char>,
) -> Result<Option<StoredAttemptView>, AttemptErrorView> {
    super::found(s, contract, worker_id, "build assignment identity changed after dispatch"@)
}

/// Where a dispatched build stands; one that is not stored is a contradiction.
pub open spec fn observed(
    s: ControlState,
    contract: AssignmentContractView,
    worker_id: Seq<char>,
) -> Result<BuildStandingView, AttemptErrorView> {
    match located(s, contract, worker_id) {
        Err(e) => Err(e),
        Ok(None) => Err(AttemptErrorView::Integrity("dispatched build assignment is missing"@)),
        Ok(Some(stored)) => standing(stored),
    }
}

/// Where a build stands that may never have been dispatched: `None` asks for a dispatch.
pub open spec fn reconciled(
    s: ControlState,
    contract: AssignmentContractView,
    worker_id: Seq<char>,
) -> Result<Option<BuildStandingView>, AttemptErrorView> {
    match located(s, contract, worker_id) {
        Err(e) => Err(e),
        Ok(None) => Ok(None),
        Ok(Some(stored)) => match standing(stored) {
            Ok(view) => Ok(Some(view)),
            Err(e) => Err(e),
        },
    }
}

pub open spec fn reconciled_view(r: Result<Option<BuildStanding>, AttemptError>) -> Result<
    Option<BuildStandingView>,
    AttemptErrorView,
> {
    match r {
        Ok(Some(standing)) => Ok(Some(standing@)),
        Ok(None) => Ok(None),
        Err(e) => Err(e@),
    }
}

impl View for WorkerBuildAttemptAdapter {
    type V = Seq<char>;

    closed spec fn view(&self) -> Seq<char> {
        self.worker_id@
    }
}

impl WorkerBuildAttemptAdapter {
    /// Binds build attempts to one explicitly selected worker.
    pub fn new(worker_id: &str) -> (r: Result<Self, AttemptError>)
        ensures
            match r {
                Ok(adapter) => !text::blank(worker_id@) && adapter@ == worker_id@,
                Err(e) => text::blank(worker_id@) && e@ == AttemptErrorView::Rejected(
                    "build worker identity is empty"@,
                ),
            },
    {
        if text::is_blank(worker_id) {
            return Err(AttemptError::Rejected("build worker identity is empty".to_owned()));
        }
        Ok(WorkerBuildAttemptAdapter { worker_id: worker_id.to_owned() })
    }

    /// Queues a build whose bundle was published.
    pub fn dispatch(
        &self,
        service: &mut WorkerControlService,
        contract: &AssignmentContract,
        publication: &Publication,
        input: Option<String>,
        now_ms: u64,
    ) -> (r: Result<Delivery, AttemptError>)
        ensures
            (final(service)@, super::delivered(r)) == dispatched(
                old(service)@,
                self@,
                contract@,
                *publication,
                text::optional(input),
                now_ms,
            ),
    {
        super::check_publication(
            publication,
            &contract.execution.bundle.digest,
            "a ",
            "build bundle",
        )?;
        super::queue(service, self.worker_id.as_str(), contract, input, now_ms)
    }

    fn lookup(&self, repository: &ControlRepository, contract: &AssignmentContract) -> (r: Result<
        Option<StoredAttempt>,
        AttemptError,
    >)
        ensures
            super::lookup_view(r) == located(repository@, contract@, self@),
    {
        super::lookup(
            repository,
            contract,
            self.worker_id.as_str(),
            "build assignment identity changed after dispatch",
        )
    }

    /// Where a dispatched build stands.
    pub fn observe(&self, repository: &ControlRepository, contract: &AssignmentContract) -> (r:
        Result<BuildStanding, AttemptError>)
        ensures
            standing_view(r) == observed(repository@, contract@, self@),
    {
        match self.lookup(repository, contract) {
            Err(error) => Err(error),
            Ok(None) => Err(
                AttemptError::Integrity("dispatched build assignment is missing".to_owned()),
            ),
            Ok(Some(stored)) => observe_stored(stored),
        }
    }

    /// Where a build stands; `None` asks for a dispatch.
    pub fn reconcile(&self, repository: &ControlRepository, contract: &AssignmentContract) -> (r:
        Result<Option<BuildStanding>, AttemptError>)
        ensures
            reconciled_view(r) == reconciled(repository@, contract@, self@),
    {
        match self.lookup(repository, contract) {
            Err(error) => Err(error),
            Ok(None) => Ok(None),
            Ok(Some(stored)) => match observe_stored(stored) {
                Ok(standing) => Ok(Some(standing)),
                Err(error) => Err(error),
            },
        }
    }
}

/// The receipt that a finished build names.
pub fn receipt_descriptor(finished: &FinishedObservation) -> (r: Result<
    ArtifactIdentity,
    AttemptError,
>)
    ensures
        match finished@.receipt {
            Some(d) => r matches Ok(found) && found@ == d,
            None => r matches Err(e) && e@ == AttemptErrorView::Integrity(
                "build attempt lacks worker receipt"@,
            ),
        },
{
    match &finished.receipt {
        Some(descriptor) => Ok(descriptor.clone()),
        None => Err(AttemptError::Integrity("build attempt lacks worker receipt".to_owned())),
    }
}

/// What is wrong with a receipt's stored content: `opened` is the size of what the store opened,
/// `read` what was read of it.
pub open spec fn receipt_problem(
    descriptor: storage::ArtifactDescriptorView,
    opened: Result<u64, String>,
    read: Result<Vec<u8>, String>,
) -> Option<AttemptErrorView> {
    match opened {
        Err(e) => Some(AttemptErrorView::Unavailable(e@)),
        Ok(size) => if size != descriptor.size_bytes || descriptor.size_bytes
            > MAX_WORKER_RECEIPT_BYTES {
            Some(AttemptErrorView::Integrity("worker receipt descriptor is invalid"@))
        } else {
            match read {
                Err(e) => Some(AttemptErrorView::Unavailable(e@)),
                Ok(bytes) => if super::is_content(descriptor, bytes@) {
                    None
                } else {
                    Some(AttemptErrorView::Integrity("worker receipt bytes changed"@))
                },
            }
        },
    }
}

/// The content of a worker receipt, checked against its descriptor.
pub fn receipt_bytes(
    descriptor: &ArtifactIdentity,
    opened: Result<u64, String>,
    read: Result<Vec<u8>, String>,
) -> (r: Result<Vec<u8>, AttemptError>)
    ensures
        match receipt_problem(descriptor@, opened, read) {
            Some(e) => r matches Err(error) && error@ == e,
            None => r is Ok && read is Ok && r->Ok_0@ == read->Ok_0@,
        },
{
    let size = match opened {
        Ok(size) => size,
        Err(error) => {
            return Err(AttemptError::Unavailable(error));
        },
    };
    if size != descriptor.size_bytes || descriptor.size_bytes > MAX_WORKER_RECEIPT_BYTES {
        return Err(AttemptError::Integrity("worker receipt descriptor is invalid".to_owned()));
    }
    match read {
        Err(error) => Err(AttemptError::Unavailable(error)),
        Ok(bytes) => {
            if !super::content_matches(descriptor, &bytes) {
                return Err(AttemptError::Integrity("worker receipt bytes changed".to_owned()));
            }
            Ok(bytes)
        },
    }
}

/// A receipt speaks of exactly this assignment and this end.
pub open spec fn receipt_agrees(
    receipt: BuildReceipt,
    contract: AssignmentContractView,
    finished: FinishedObservationView,
) -> bool {
    &&& receipt.schema_version == 2
    &&& receipt.assignment_id@ == contract.assignment_id
    &&& receipt.attempt_id@ == contract.attempt_id
    &&& receipt.task_id@ == contract.task_id
    &&& receipt.candidate_id@ == contract.candidate_id
    &&& receipt.bundle_digest@ == contract.execution.bundle.digest
    &&& receipt.image_digest@ == contract.execution.image.digest
    &&& receipt.outcome@ == finished.outcome.label()
    &&& receipt.exit_code == finished.exit_code
    &&& receipt.elapsed_ms == finished.elapsed_ms
}

pub open spec fn agreement_problem(
    receipt: BuildReceipt,
    contract: AssignmentContractView,
    finished: FinishedObservationView,
) -> Option<AttemptErrorView> {
    if super::digest_problem(receipt.bundle_digest@) is Some {
        super::digest_problem(receipt.bundle_digest@)
    } else if super::digest_problem(receipt.image_digest@) is Some {
        super::digest_problem(receipt.image_digest@)
    } else if receipt_agrees(receipt, contract, finished) {
        None
    } else {
        Some(
            AttemptErrorView::Integrity(
                "worker receipt does not match the terminal build observation"@,
            ),
        )
    }
}

pub fn validate_worker_receipt(
    receipt: &BuildReceipt,
    contract: &AssignmentContract,
    finished: &FinishedObservation,
) -> (r: Result<(), AttemptError>)
    ensures
        super::checked(r, agreement_problem(*receipt, contract@, finished@)),
{
    let bundle_digest = super::parse_digest(receipt.bundle_digest.as_str())?;
    let image_digest = super::parse_digest(receipt.image_digest.as_str())?;
    if receipt.schema_version != 2 || !text::same(
        receipt.assignment_id.as_str(),
        contract.assignment_id.as_str(),
    ) || !text::same(receipt.attempt_id.as_str(), contract.attempt_id.as_str()) || !text::same(
        receipt.task_id.as_str(),
        contract.task_id.as_str(),
    ) || !text::same(receipt.candidate_id.as_str(), contract.candidate_id.as_str())
        || !bundle_digest.same(&contract.execution.bundle.digest) || !image_digest.same(
        &contract.execution.image.digest,
    ) || !text::same(receipt.outcome.as_str(), finished.outcome.as_str_name()) || !super::same_exit_code(
        receipt.exit_code,
        finished.exit_code,
    ) || receipt.elapsed_ms != finished.elapsed_ms {
        return Err(
            AttemptError::Integrity(
                "worker receipt does not match the terminal build observation".to_owned(),
            ),
        );
    }
    Ok(())
}

/// What a finished build is reported as.
pub open spec fn is_terminal(
    t: AscendBuildTerminal,
    contract: AssignmentContractView,
    finished: FinishedObservationView,
    environment: AscendBuildEnvironment,
) -> bool {
    &&& t.assignment_id@ == contract.assignment_id
    &&& t.attempt_id@ == contract.attempt_id
    &&& t.outcome == finished.outcome
    &&& t.exit_code == finished.exit_code
    &&& t.elapsed_ms == finished.elapsed_ms
    &&& t.detail@ == finished.detail
    &&& t.build_completed == (finished.outcome == AttemptOutcome::Succeeded && finished.exit_code
        == Some(0i32))
    &&& t.environment == environment
    &&& storage::optional_artifact_identity(t.worker_receipt) == finished.receipt
    &&& storage::optional_artifact_identity(t.stdout) == finished.stdout
    &&& storage::optional_artifact_identity(t.stderr) == finished.stderr
}

/// The report of a finished build. `receipt` is what its checked receipt reads as.
pub fn terminal(
    contract: &AssignmentContract,
    finished: FinishedObservation,
    receipt: Result<BuildReceipt, String>,
) -> (r: Result<AscendBuildTerminal, AttemptError>)
    ensures
        match receipt {
            Err(e) => r matches Err(error) && error@ == AttemptErrorView::Integrity(e@),
            Ok(receipt) => match agreement_problem(receipt, contract@, finished@) {
                Some(e) => r matches Err(error) && error@ == e,
                None => r matches Ok(t) && is_terminal(
                    t,
                    contract@,
                    finished@,
                    receipt.environment,
                ),
            },
        },
{
    let receipt = match receipt {
        Ok(receipt) => receipt,
        Err(error) => {
            return Err(AttemptError::Integrity(error));
        },
    };
    validate_worker_receipt(&receipt, contract, &finished)?;
    let completed = match finished.outcome {
        AttemptOutcome::Succeeded => super::same_exit_code(finished.exit_code, Some(0)),
        _ => false,
    };
    Ok(
        AscendBuildTerminal {
            assignment_id: contract.assignment_id.clone(),
            attempt_id: contract.attempt_id.clone(),
            outcome: finished.outcome,
            exit_code: finished.exit_code,
            elapsed_ms: finished.elapsed_ms,
            detail: finished.detail,
            build_completed: completed,
            environment: receipt.environment,
            worker_receipt: finished.receipt,
            stdout: finished.stdout,
            stderr: finished.stderr,
        },
    )
}

/// A build is reported only on a receipt that names its bundle and its image.
pub proof fn reported_builds_bind_their_inputs(
    receipt: BuildReceipt,
    contract: AssignmentContractView,
    finished: FinishedObservationView,
)
    requires
        agreement_problem(receipt, contract, finished) is None,
    ensures
        receipt.bundle_digest@ == contract.execution.bundle.digest,
        receipt.image_digest@ == contract.execution.image.digest,
        receipt.attempt_id@ == contract.attempt_id,
{
}

} // verus!
