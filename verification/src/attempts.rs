//! Attempts that the gates run on workers: how they are dispatched, found again and read back.
pub mod builds;
pub mod conduct;
pub mod correctness;

use crate::control::admission;
use crate::control::admission::{Delivery, DeliveryView};
use crate::control::{ServiceState, WorkerControlService};
use crate::digest;
use crate::digest::Sha256Digest;
use crate::repository::attempts;
use crate::repository::{ControlRepository, ControlState};
use crate::storage::{
    ArtifactDescriptorView, ArtifactIdentity, AssignmentContract, AssignmentContractView,
    AssignmentRecord, AssignmentRecordView, FinishedObservation, FinishedObservationView,
};
use crate::text;
use crate::wire;
use vstd::prelude::*;
use vstd::string::*;

verus! {

/// Why an attempt gives no observation.
#[derive(Debug, PartialEq, Eq)]
pub enum AttemptError {
    /// The request itself is refused.
    Rejected(String),
    /// Nothing can be said now.
    Unavailable(String),
    /// What is stored contradicts what was asked for.
    Integrity(String),
}

pub ghost enum AttemptErrorView {
    Rejected(Seq<char>),
    Unavailable(Seq<char>),
    Integrity(Seq<char>),
}

impl View for AttemptError {
    type V = AttemptErrorView;

    open spec fn view(&self) -> AttemptErrorView {
        match *self {
            AttemptError::Rejected(s) => AttemptErrorView::Rejected(s@),
            AttemptError::Unavailable(s) => AttemptErrorView::Unavailable(s@),
            AttemptError::Integrity(s) => AttemptErrorView::Integrity(s@),
        }
    }
}

/// A check that found nothing or gave the error `e`.
pub open spec fn checked(r: Result<(), AttemptError>, problem: Option<AttemptErrorView>) -> bool {
    match problem {
        Some(e) => r matches Err(error) && error@ == e,
        None => r is Ok,
    }
}

/// What came of making a controller-authored bundle downloadable.
#[derive(Debug, PartialEq, Eq)]
pub enum Publication {
    /// The controller's own store does not give the bundle.
    Unreadable(String),
    /// There is no service to publish with.
    NoMetadata,
    Refused(String),
    Published,
}

/// Why an assignment cannot name its bundle. `noun` says what the bundle is for.
pub open spec fn publication_problem(
    publication: Publication,
    bundle: Seq<char>,
    article: Seq<char>,
    noun: Seq<char>,
) -> Option<AttemptErrorView> {
    match publication {
        Publication::Unreadable(error) => Some(
            AttemptErrorView::Rejected(
                noun + " "@ + bundle + " is not readable in the controller store: "@ + error@,
            ),
        ),
        Publication::NoMetadata => Some(
            AttemptErrorView::Rejected(
                "publishing "@ + article + noun + " requires the Artifact metadata service"@,
            ),
        ),
        Publication::Refused(error) => Some(
            AttemptErrorView::Rejected("cannot publish "@ + noun + ": "@ + error@),
        ),
        Publication::Published => None,
    }
}

pub(crate) fn check_publication(
    publication: &Publication,
    bundle: &Sha256Digest,
    article: &str,
    noun: &str,
) -> (r: Result<(), AttemptError>)
    ensures
        checked(r, publication_problem(*publication, bundle@, article@, noun@)),
{
    match publication {
        Publication::Unreadable(error) => {
            let mut out = text::enclosed(noun, " ", bundle.as_str());
            out.append(" is not readable in the controller store: ");
            out.append(error.as_str());
            Err(AttemptError::Rejected(out))
        },
        Publication::NoMetadata => {
            let mut out = text::enclosed("publishing ", article, noun);
            out.append(" requires the Artifact metadata service");
            Err(AttemptError::Rejected(out))
        },
        Publication::Refused(error) => {
            let mut out = text::enclosed("cannot publish ", noun, ": ");
            out.append(error.as_str());
            Err(AttemptError::Rejected(out))
        },
        Publication::Published => Ok(()),
    }
}

/// Queues a published assignment. `input` is why the worker cannot read its input, where that is
/// so.
pub open spec fn queued(
    s: ServiceState,
    worker_id: Seq<char>,
    contract: AssignmentContractView,
    input: Option<Seq<char>>,
    now_ms: u64,
) -> (ServiceState, Result<DeliveryView, AttemptErrorView>) {
    let (t, r) = admission::enqueue(s, worker_id, wire::assignment_of(contract), input, now_ms);
    (
        t,
        match r {
            Ok(delivery) => Ok(delivery),
            Err(e) => Err(AttemptErrorView::Unavailable(e.text())),
        },
    )
}

pub open spec fn delivered(r: Result<Delivery, AttemptError>) -> Result<
    DeliveryView,
    AttemptErrorView,
> {
    match r {
        Ok(delivery) => Ok(delivery@),
        Err(e) => Err(e@),
    }
}

pub(crate) fn queue(
    service: &mut WorkerControlService,
    worker_id: &str,
    contract: &AssignmentContract,
    input: Option<String>,
    now_ms: u64,
) -> (r: Result<Delivery, AttemptError>)
    ensures
        (final(service)@, delivered(r)) == queued(
            old(service)@,
            worker_id@,
            contract@,
            text::optional(input),
            now_ms,
        ),
{
    let assignment = wire::contract_to_assignment(contract);
    match service.enqueue_assignment(worker_id, &assignment, input, now_ms) {
        Ok(delivery) => Ok(delivery),
        Err(error) => Err(AttemptError::Unavailable(error.message())),
    }
}

/// What is stored of an attempt: its record, and what the worker reported of its end.
pub ghost struct StoredAttemptView {
    pub record: AssignmentRecordView,
    pub finished: Option<FinishedObservationView>,
}

#[derive(Debug, PartialEq, Eq)]
pub struct StoredAttempt {
    pub record: AssignmentRecord,
    pub finished: Option<FinishedObservation>,
}

impl View for StoredAttempt {
    type V = StoredAttemptView;

    open spec fn view(&self) -> StoredAttemptView {
        StoredAttemptView {
            record: self.record@,
            finished: match self.finished {
                Some(f) => Some(f@),
                None => None,
            },
        }
    }
}

/// What is stored of an assignment's attempt; `changed` is the complaint about another assignment
/// in its place.
pub open spec fn found(
    s: ControlState,
    contract: AssignmentContractView,
    worker_id: Seq<char>,
    changed: Seq<char>,
) -> Result<Option<StoredAttemptView>, AttemptErrorView> {
    match attempts::finished(s, contract.attempt_id) {
        Err(e) => Err(AttemptErrorView::Unavailable(e.text())),
        Ok(finished) => if !s.assignments.dom().contains(contract.attempt_id) {
            Ok(None)
        } else {
            let record = s.assignments[contract.attempt_id];
            if record.worker_id != worker_id || record.contract != contract {
                Err(AttemptErrorView::Integrity(changed))
            } else {
                Ok(Some(StoredAttemptView { record, finished }))
            }
        },
    }
}

pub open spec fn lookup_view(r: Result<Option<StoredAttempt>, AttemptError>) -> Result<
    Option<StoredAttemptView>,
    AttemptErrorView,
> {
    match r {
        Ok(Some(stored)) => Ok(Some(stored@)),
        Ok(None) => Ok(None),
        Err(e) => Err(e@),
    }
}

pub(crate) fn lookup(
    repository: &ControlRepository,
    contract: &AssignmentContract,
    worker_id: &str,
    changed: &str,
) -> (r: Result<Option<StoredAttempt>, AttemptError>)
    ensures
        lookup_view(r) == found(repository@, contract@, worker_id@, changed@),
{
    let finished = match repository.finished_observation(contract.attempt_id.as_str()) {
        Ok(finished) => finished,
        Err(error) => {
            return Err(AttemptError::Unavailable(error.message()));
        },
    };
    match repository.assignment(contract.attempt_id.as_str()) {
        None => Ok(None),
        Some(record) => {
            if !text::same(record.worker_id.as_str(), worker_id) || !record.contract.same(
                contract,
            ) {
                return Err(AttemptError::Integrity(changed.to_owned()));
            }
            Ok(Some(StoredAttempt { record: record.clone(), finished }))
        },
    }
}

/// The bytes that tell one standing of an attempt from another.
pub open spec fn standing_bytes(record: AssignmentRecordView) -> Seq<u8> {
    vstd::utf8::encode_utf8(record.contract.attempt_id) + text::big_endian(
        record.state.code() as u64,
    ) + text::big_endian(record.updated_at_ms)
}

pub(crate) fn push_standing(out: &mut Vec<u8>, record: &AssignmentRecord)
    ensures
        final(out)@ == old(out)@ + standing_bytes(record@),
{
    let ghost before = out@;
    text::push_bytes(out, record.contract.attempt_id.as_str().as_bytes());
    let state: i64 = record.state.number();
    text::push_big_endian(out, state as u64);
    text::push_big_endian(out, record.updated_at_ms);
    assert(out@ =~= before + standing_bytes(record@));
}

/// The text of a refused digest.
pub open spec fn digest_problem(s: Seq<char>) -> Option<AttemptErrorView> {
    if digest::canonical(s) {
        None
    } else {
        Some(
            AttemptErrorView::Integrity(
                "digest must be sha256: and 64 lowercase hexadecimal digits"@,
            ),
        )
    }
}

pub(crate) fn parse_digest(s: &str) -> (r: Result<Sha256Digest, AttemptError>)
    ensures
        match digest_problem(s@) {
            Some(e) => r matches Err(error) && error@ == e,
            None => r matches Ok(found) && found@ == s@,
        },
{
    match Sha256Digest::parse(s) {
        Some(found) => Ok(found),
        None => Err(
            AttemptError::Integrity(
                "digest must be sha256: and 64 lowercase hexadecimal digits".to_owned(),
            ),
        ),
    }
}

pub(crate) fn same_exit_code(a: Option<i32>, b: Option<i32>) -> (r: bool)
    ensures
        r == (a == b),
{
    match (a, b) {
        (Some(x), Some(y)) => x == y,
        (None, None) => true,
        _ => false,
    }
}

/// The content of a descriptor is what its digest and its size say.
pub open spec fn is_content(descriptor: ArtifactDescriptorView, bytes: Seq<u8>) -> bool {
    bytes.len() == descriptor.size_bytes && digest::digest_text(bytes) == descriptor.digest
}

pub(crate) fn content_matches(descriptor: &ArtifactIdentity, bytes: &Vec<u8>) -> (r: bool)
    ensures
        r == is_content(descriptor@, bytes@),
{
    let length: u64 = bytes.len() as u64;
    length == descriptor.size_bytes && text::same(
        Sha256Digest::digest_bytes(bytes.as_slice()).as_str(),
        descriptor.digest.as_str(),
    )
}

} // verus!
