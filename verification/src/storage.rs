//! Records of the control plane: contracts, attempts, leases, connections and frames.
use crate::digest::Sha256Digest;
use crate::text;
use vstd::prelude::*;
use vstd::string::*;

verus! {

/// Where an attempt stands.
#[derive(Clone, Copy, Debug, PartialEq, Eq, Structural)]
pub enum AttemptState {
    Dispatchable,
    Sent,
    Accepted,
    Running,
    Finished,
    Rejected,
    LeaseExpired,
    CancelRequested,
    Cancelled,
    Preparing,
}

impl AttemptState {
    /// The stored number of a state.
    pub open spec fn code(self) -> i64 {
        match self {
            AttemptState::Dispatchable => 1i64,
            AttemptState::Sent => 2i64,
            AttemptState::Accepted => 3i64,
            AttemptState::Running => 4i64,
            AttemptState::Finished => 5i64,
            AttemptState::Rejected => 6i64,
            AttemptState::LeaseExpired => 7i64,
            AttemptState::CancelRequested => 8i64,
            AttemptState::Cancelled => 9i64,
            AttemptState::Preparing => 10i64,
        }
    }

    /// The name of a state.
    pub open spec fn label(self) -> Seq<char> {
        match self {
            AttemptState::Dispatchable => "Dispatchable"@,
            AttemptState::Sent => "Sent"@,
            AttemptState::Accepted => "Accepted"@,
            AttemptState::Running => "Running"@,
            AttemptState::Finished => "Finished"@,
            AttemptState::Rejected => "Rejected"@,
            AttemptState::LeaseExpired => "LeaseExpired"@,
            AttemptState::CancelRequested => "CancelRequested"@,
            AttemptState::Cancelled => "Cancelled"@,
            AttemptState::Preparing => "Preparing"@,
        }
    }

    /// A worker that reconnects is sent the attempt again.
    pub open spec fn replayable(self) -> bool {
        ||| self == AttemptState::Dispatchable
        ||| self == AttemptState::Sent
        ||| self == AttemptState::Accepted
        ||| self == AttemptState::Running
        ||| self == AttemptState::CancelRequested
    }

    /// A worker holds the attempt under a lease that can run out.
    pub open spec fn held(self) -> bool {
        ||| self == AttemptState::Sent
        ||| self == AttemptState::Accepted
        ||| self == AttemptState::Running
        ||| self == AttemptState::CancelRequested
    }

    /// Nothing moves the attempt any more.
    pub open spec fn terminal(self) -> bool {
        ||| self == AttemptState::Finished
        ||| self == AttemptState::Rejected
        ||| self == AttemptState::LeaseExpired
        ||| self == AttemptState::Cancelled
    }

    pub fn number(self) -> (r: i64)
        ensures
            r == self.code(),
    {
        match self {
            AttemptState::Dispatchable => 1,
            AttemptState::Sent => 2,
            AttemptState::Accepted => 3,
            AttemptState::Running => 4,
            AttemptState::Finished => 5,
            AttemptState::Rejected => 6,
            AttemptState::LeaseExpired => 7,
            AttemptState::CancelRequested => 8,
            AttemptState::Cancelled => 9,
            AttemptState::Preparing => 10,
        }
    }

    /// The state with a stored number.
    pub fn from_i64(value: i64) -> (r: Result<AttemptState, RepositoryError>)
        ensures
            r matches Ok(state) ==> state.code() == value,
            r is Ok <==> 1 <= value <= 10,
            r matches Err(e) ==> e@ == RepositoryErrorView::Corrupt(
                "unknown attempt state "@ + text::signed_decimal(value as int),
            ),
    {
        match value {
            1 => Ok(AttemptState::Dispatchable),
            2 => Ok(AttemptState::Sent),
            3 => Ok(AttemptState::Accepted),
            4 => Ok(AttemptState::Running),
            5 => Ok(AttemptState::Finished),
            6 => Ok(AttemptState::Rejected),
            7 => Ok(AttemptState::LeaseExpired),
            8 => Ok(AttemptState::CancelRequested),
            9 => Ok(AttemptState::Cancelled),
            10 => Ok(AttemptState::Preparing),
            _ => {
                let mut out = "unknown attempt state ".to_owned();
                text::push_signed(&mut out, value);
                Err(RepositoryError::Corrupt(out))
            },
        }
    }

    pub fn is_replayable(self) -> (r: bool)
        ensures
            r == self.replayable(),
    {
        match self {
            AttemptState::Dispatchable | AttemptState::Sent | AttemptState::Accepted
            | AttemptState::Running | AttemptState::CancelRequested => true,
            _ => false,
        }
    }

    pub fn is_held(self) -> (r: bool)
        ensures
            r == self.held(),
    {
        match self {
            AttemptState::Sent | AttemptState::Accepted | AttemptState::Running
            | AttemptState::CancelRequested => true,
            _ => false,
        }
    }

    pub fn name(self) -> (r: &'static str)
        ensures
            r@ == self.label(),
    {
        match self {
            AttemptState::Dispatchable => "Dispatchable",
            AttemptState::Sent => "Sent",
            AttemptState::Accepted => "Accepted",
            AttemptState::Running => "Running",
            AttemptState::Finished => "Finished",
            AttemptState::Rejected => "Rejected",
            AttemptState::LeaseExpired => "LeaseExpired",
            AttemptState::CancelRequested => "CancelRequested",
            AttemptState::Cancelled => "Cancelled",
            AttemptState::Preparing => "Preparing",
        }
    }
}

/// Stored numbers name states one for one.
pub proof fn state_codes_are_distinct(a: AttemptState, b: AttemptState)
    requires
        a.code() == b.code(),
    ensures
        a == b,
{
}

/// How an assignment is executed.
#[derive(Clone, Copy, Debug, PartialEq, Eq, Structural)]
pub enum ExecutionKind {
    Container,
    CudaFixture,
    AscendFixture,
    AscendBuild,
    CudaCorrectness,
    AscendCorrectness,
}

/// What network an execution may reach.
#[derive(Clone, Copy, Debug, PartialEq, Eq, Structural)]
pub enum NetworkPolicy {
    Disabled,
    DependencyFetch,
}

/// How an attempt ended.
#[derive(Clone, Copy, Debug, PartialEq, Eq, Structural)]
pub enum AttemptOutcome {
    Succeeded,
    CandidateFailed,
    TimedOut,
    /// Any other number that a worker reports, as it came.
    Other(i32),
}

impl AttemptOutcome {
    /// The wire name of an outcome; a number without a name of its own is unspecified.
    pub open spec fn label(self) -> Seq<char> {
        match self {
            AttemptOutcome::Succeeded => "ATTEMPT_OUTCOME_SUCCEEDED"@,
            AttemptOutcome::CandidateFailed => "ATTEMPT_OUTCOME_CANDIDATE_FAILED"@,
            AttemptOutcome::TimedOut => "ATTEMPT_OUTCOME_TIMED_OUT"@,
            AttemptOutcome::Other(_) => "ATTEMPT_OUTCOME_UNSPECIFIED"@,
        }
    }

    pub fn as_str_name(self) -> (r: &'static str)
        ensures
            r@ == self.label(),
    {
        match self {
            AttemptOutcome::Succeeded => "ATTEMPT_OUTCOME_SUCCEEDED",
            AttemptOutcome::CandidateFailed => "ATTEMPT_OUTCOME_CANDIDATE_FAILED",
            AttemptOutcome::TimedOut => "ATTEMPT_OUTCOME_TIMED_OUT",
            AttemptOutcome::Other(_) => "ATTEMPT_OUTCOME_UNSPECIFIED",
        }
    }
}

/// What the repository did with an observation.
#[derive(Clone, Copy, Debug, PartialEq, Eq, Structural)]
pub enum ObservationDisposition {
    Applied,
    Duplicate,
    Stale,
}

#[derive(Clone, Copy, Debug, PartialEq, Eq, Structural)]
pub enum StoreAssignmentOutcome {
    Inserted,
    Duplicate,
}

#[derive(Clone, Copy, Debug, PartialEq, Eq, Structural)]
pub enum CancellationStoreOutcome {
    CancelledBeforeSend,
    Requested,
    Duplicate,
    AlreadyTerminal,
}

/// What a stored server frame carries.
#[derive(Clone, Copy, Debug, PartialEq, Eq, Structural)]
pub enum ServerFrameKind {
    Assignment,
    Cancel,
}

/// What an execution may use.
#[derive(Clone, Copy, Debug, PartialEq, Eq, Structural)]
pub struct ResourceContract {
    pub cpu_millis: u64,
    pub memory_bytes: u64,
    pub disk_bytes: u64,
    pub process_count: u32,
    pub output_bytes: u64,
    pub device_count: u32,
    pub network: NetworkPolicy,
}

/// Why the repository refuses a request.
#[derive(Debug, PartialEq, Eq)]
pub enum RepositoryError {
    Storage(String),
    Encoding(String),
    NotFound(String),
    IdentityMismatch(String),
    InvalidIdentity(String),
    ConflictingAttempt(String),
    InvalidTransition { from: AttemptState, to: AttemptState },
    Corrupt(String),
    LockPoisoned,
}

pub ghost enum RepositoryErrorView {
    Storage(Seq<char>),
    Encoding(Seq<char>),
    NotFound(Seq<char>),
    IdentityMismatch(Seq<char>),
    InvalidIdentity(Seq<char>),
    ConflictingAttempt(Seq<char>),
    InvalidTransition { from: AttemptState, to: AttemptState },
    Corrupt(Seq<char>),
    LockPoisoned,
}

impl View for RepositoryError {
    type V = RepositoryErrorView;

    open spec fn view(&self) -> RepositoryErrorView {
        match *self {
            RepositoryError::Storage(d) => RepositoryErrorView::Storage(d@),
            RepositoryError::Encoding(d) => RepositoryErrorView::Encoding(d@),
            RepositoryError::NotFound(d) => RepositoryErrorView::NotFound(d@),
            RepositoryError::IdentityMismatch(d) => RepositoryErrorView::IdentityMismatch(d@),
            RepositoryError::InvalidIdentity(d) => RepositoryErrorView::InvalidIdentity(d@),
            RepositoryError::ConflictingAttempt(d) => RepositoryErrorView::ConflictingAttempt(d@),
            RepositoryError::InvalidTransition { from, to } =>
                RepositoryErrorView::InvalidTransition { from, to },
            RepositoryError::Corrupt(d) => RepositoryErrorView::Corrupt(d@),
            RepositoryError::LockPoisoned => RepositoryErrorView::LockPoisoned,
        }
    }
}

impl RepositoryErrorView {
    /// The text of a refusal.
    pub open spec fn text(self) -> Seq<char> {
        match self {
            RepositoryErrorView::Storage(d) => "control storage error: "@ + d,
            RepositoryErrorView::Encoding(d) => "control encoding error: "@ + d,
            RepositoryErrorView::NotFound(d) => "attempt "@ + d + " was not found"@,
            RepositoryErrorView::IdentityMismatch(d) => "attempt "@ + d
                + " belongs to a different assignment or worker"@,
            RepositoryErrorView::InvalidIdentity(d) => "invalid identity: "@ + d,
            RepositoryErrorView::ConflictingAttempt(d) => "attempt "@ + d
                + " conflicts with stored content"@,
            RepositoryErrorView::InvalidTransition { from, to } => "invalid attempt transition from "@
                + from.label() + " to "@ + to.label(),
            RepositoryErrorView::Corrupt(d) => "corrupt control repository: "@ + d,
            RepositoryErrorView::LockPoisoned => "control repository lock poisoned"@,
        }
    }
}

impl RepositoryError {
    /// The text of a refusal.
    pub fn message(&self) -> (r: String)
        ensures
            r@ == self@.text(),
    {
        match self {
            RepositoryError::Storage(d) => text::concat("control storage error: ", d.as_str()),
            RepositoryError::Encoding(d) => text::concat("control encoding error: ", d.as_str()),
            RepositoryError::NotFound(d) => text::enclosed(
                "attempt ",
                d.as_str(),
                " was not found",
            ),
            RepositoryError::IdentityMismatch(d) => text::enclosed(
                "attempt ",
                d.as_str(),
                " belongs to a different assignment or worker",
            ),
            RepositoryError::InvalidIdentity(d) => text::concat("invalid identity: ", d.as_str()),
            RepositoryError::ConflictingAttempt(d) => text::enclosed(
                "attempt ",
                d.as_str(),
                " conflicts with stored content",
            ),
            RepositoryError::InvalidTransition { from, to } => {
                let mut out = text::enclosed(
                    "invalid attempt transition from ",
                    from.name(),
                    " to ",
                );
                out.append(to.name());
                out
            },
            RepositoryError::Corrupt(d) => text::concat("corrupt control repository: ", d.as_str()),
            RepositoryError::LockPoisoned => "control repository lock poisoned".to_owned(),
        }
    }
}

/// A number that the durable store can hold.
pub open spec fn storable(value: u64) -> bool {
    value <= i64::MAX
}

pub open spec fn out_of_range(value: u64) -> RepositoryErrorView {
    RepositoryErrorView::Corrupt(
        "timestamp "@ + text::decimal(value as nat) + " exceeds SQLite range"@,
    )
}

/// The stored form of a number.
pub fn to_i64(value: u64) -> (r: Result<i64, RepositoryError>)
    ensures
        r is Ok <==> storable(value),
        r matches Ok(stored) ==> stored == value,
        r matches Err(e) ==> e@ == out_of_range(value),
{
    if value <= 9223372036854775807 {
        Ok(value as i64)
    } else {
        let mut out = "timestamp ".to_owned();
        text::push_decimal(&mut out, value);
        out.append(" exceeds SQLite range");
        Err(RepositoryError::Corrupt(out))
    }
}

/// A number read back from its stored form.
pub fn from_i64(value: i64) -> (r: Result<u64, RepositoryError>)
    ensures
        r is Ok <==> value >= 0,
        r matches Ok(number) ==> number == value,
        r matches Err(e) ==> e@ == RepositoryErrorView::Corrupt(
            "negative stored timestamp "@ + text::signed_decimal(value as int),
        ),
{
    if value >= 0 {
        Ok(value as u64)
    } else {
        let mut out = "negative stored timestamp ".to_owned();
        text::push_signed(&mut out, value);
        Err(RepositoryError::Corrupt(out))
    }
}

/// A read gives back the number that was stored.
pub proof fn stored_numbers_read_back(value: u64)
    requires
        storable(value),
    ensures
        (value as i64) as u64 == value,
        (value as i64) >= 0,
{
    assert(value <= 0x7fff_ffff_ffff_ffff ==> (value as i64) as u64 == value && (value as i64) >= 0)
        by (bit_vector);
}

/// Immutable stored content.
#[derive(Debug, PartialEq, Eq)]
pub struct ArtifactDescriptor {
    pub digest: Sha256Digest,
    pub size_bytes: u64,
    pub media_type: String,
}

pub ghost struct ArtifactDescriptorView {
    pub digest: Seq<char>,
    pub size_bytes: u64,
    pub media_type: Seq<char>,
}

impl View for ArtifactDescriptor {
    type V = ArtifactDescriptorView;

    open spec fn view(&self) -> ArtifactDescriptorView {
        ArtifactDescriptorView {
            digest: self.digest@,
            size_bytes: self.size_bytes,
            media_type: self.media_type@,
        }
    }
}

impl Clone for ArtifactDescriptor {
    fn clone(&self) -> (r: Self)
        ensures
            r@ == self@,
    {
        ArtifactDescriptor {
            digest: self.digest.clone(),
            size_bytes: self.size_bytes,
            media_type: self.media_type.clone(),
        }
    }
}

impl ArtifactDescriptor {
    /// Whether both have the same content.
    pub fn same(&self, other: &Self) -> (r: bool)
        ensures
            r == (self@ == other@),
    {
        self.digest.same(&other.digest)
            && self.size_bytes == other.size_bytes
            && text::same(self.media_type.as_str(), other.media_type.as_str())
    }
}

/// Content as a worker names it. Its digest is kept as it came.
#[derive(Debug, PartialEq, Eq)]
pub struct ArtifactIdentity {
    pub digest: String,
    pub size_bytes: u64,
    pub media_type: String,
}

impl View for ArtifactIdentity {
    type V = ArtifactDescriptorView;

    open spec fn view(&self) -> ArtifactDescriptorView {
        ArtifactDescriptorView {
            digest: self.digest@,
            size_bytes: self.size_bytes,
            media_type: self.media_type@,
        }
    }
}

impl Clone for ArtifactIdentity {
    fn clone(&self) -> (r: Self)
        ensures
            r@ == self@,
    {
        ArtifactIdentity {
            digest: self.digest.clone(),
            size_bytes: self.size_bytes,
            media_type: self.media_type.clone(),
        }
    }
}

impl ArtifactDescriptor {
    /// The same content, as a worker names it.
    pub fn identity(&self) -> (r: ArtifactIdentity)
        ensures
            r@ == self@,
    {
        ArtifactIdentity {
            digest: self.digest.as_str().to_owned(),
            size_bytes: self.size_bytes,
            media_type: self.media_type.clone(),
        }
    }
}

pub open spec fn optional_artifact_identity(value: Option<ArtifactIdentity>) -> Option<
    ArtifactDescriptorView,
> {
    match value {
        Some(v) => Some(v@),
        None => None,
    }
}

pub(crate) fn copy_optional_artifact_identity(value: &Option<ArtifactIdentity>) -> (r: Option<
    ArtifactIdentity,
>)
    ensures
        optional_artifact_identity(r) == optional_artifact_identity(*value),
{
    match value {
        Some(v) => Some(v.clone()),
        None => None,
    }
}

/// One variable of an execution.
#[derive(Debug, PartialEq, Eq)]
pub struct EnvironmentEntry {
    pub name: String,
    pub value: String,
}

pub ghost struct EnvironmentEntryView {
    pub name: Seq<char>,
    pub value: Seq<char>,
}

impl View for EnvironmentEntry {
    type V = EnvironmentEntryView;

    open spec fn view(&self) -> EnvironmentEntryView {
        EnvironmentEntryView {
            name: self.name@,
            value: self.value@,
        }
    }
}

impl Clone for EnvironmentEntry {
    fn clone(&self) -> (r: Self)
        ensures
            r@ == self@,
    {
        EnvironmentEntry {
            name: self.name.clone(),
            value: self.value.clone(),
        }
    }
}

impl EnvironmentEntry {
    /// Whether both have the same content.
    pub fn same(&self, other: &Self) -> (r: bool)
        ensures
            r == (self@ == other@),
    {
        text::same(self.name.as_str(), other.name.as_str())
            && text::same(self.value.as_str(), other.value.as_str())
    }
}

pub open spec fn environment_entry_views(values: Seq<EnvironmentEntry>) -> Seq<EnvironmentEntryView> {
    Seq::new(values.len(), |i: int| values[i]@)
}

pub(crate) fn copy_environment_entrys(values: &Vec<EnvironmentEntry>) -> (r: Vec<EnvironmentEntry>)
    ensures
        environment_entry_views(r@) == environment_entry_views(values@),
{
    let mut out: Vec<EnvironmentEntry> = Vec::new();
    let mut i: usize = 0;
    while i < values.len()
        invariant
            i <= values@.len(),
            out@.len() == i,
            forall|k: int| 0 <= k < i ==> #[trigger] out@[k]@ == values@[k]@,
        decreases values@.len() - i,
    {
        out.push(values[i].clone());
        i += 1;
    }
    assert(environment_entry_views(out@) =~= environment_entry_views(values@));
    out
}

pub(crate) fn same_environment_entrys(a: &Vec<EnvironmentEntry>, b: &Vec<EnvironmentEntry>) -> (r: bool)
    ensures
        r == (environment_entry_views(a@) == environment_entry_views(b@)),
{
    if a.len() != b.len() {
        assert(environment_entry_views(a@).len() != environment_entry_views(b@).len());
        return false;
    }
    let mut i: usize = 0;
    while i < a.len()
        invariant
            i <= a@.len(),
            a@.len() == b@.len(),
            forall|k: int| 0 <= k < i ==> #[trigger] a@[k]@ == b@[k]@,
        decreases a@.len() - i,
    {
        if !a[i].same(&b[i]) {
            assert(environment_entry_views(a@)[i as int] != environment_entry_views(b@)[i as int]);
            return false;
        }
        i += 1;
    }
    assert(environment_entry_views(a@) =~= environment_entry_views(b@));
    true
}

pub(crate) fn same_optional_resource_contract(a: Option<ResourceContract>, b: Option<ResourceContract>) -> (r: bool)
    ensures
        r == (a == b),
{
    match (a, b) {
        (Some(x), Some(y)) => x == y,
        (None, None) => true,
        _ => false,
    }
}

/// What to execute and in what sandbox.
#[derive(Debug, PartialEq, Eq)]
pub struct ExecutionContract {
    pub executor_kind: ExecutionKind,
    pub argv: Vec<String>,
    pub working_directory: String,
    pub environment: Vec<EnvironmentEntry>,
    pub timeout_ms: u64,
    pub bundle: ArtifactDescriptor,
    pub image: ArtifactDescriptor,
    pub limits: Option<ResourceContract>,
}

pub ghost struct ExecutionContractView {
    pub executor_kind: ExecutionKind,
    pub argv: Seq<Seq<char>>,
    pub working_directory: Seq<char>,
    pub environment: Seq<EnvironmentEntryView>,
    pub timeout_ms: u64,
    pub bundle: ArtifactDescriptorView,
    pub image: ArtifactDescriptorView,
    pub limits: Option<ResourceContract>,
}

impl View for ExecutionContract {
    type V = ExecutionContractView;

    open spec fn view(&self) -> ExecutionContractView {
        ExecutionContractView {
            executor_kind: self.executor_kind,
            argv: text::views(self.argv@),
            working_directory: self.working_directory@,
            environment: environment_entry_views(self.environment@),
            timeout_ms: self.timeout_ms,
            bundle: self.bundle@,
            image: self.image@,
            limits: self.limits,
        }
    }
}

impl Clone for ExecutionContract {
    fn clone(&self) -> (r: Self)
        ensures
            r@ == self@,
    {
        ExecutionContract {
            executor_kind: self.executor_kind,
            argv: text::copy_all(&self.argv),
            working_directory: self.working_directory.clone(),
            environment: copy_environment_entrys(&self.environment),
            timeout_ms: self.timeout_ms,
            bundle: self.bundle.clone(),
            image: self.image.clone(),
            limits: self.limits,
        }
    }
}

impl ExecutionContract {
    /// Whether both have the same content.
    pub fn same(&self, other: &Self) -> (r: bool)
        ensures
            r == (self@ == other@),
    {
        self.executor_kind == other.executor_kind
            && text::same_all(&self.argv, &other.argv)
            && text::same(self.working_directory.as_str(), other.working_directory.as_str())
            && same_environment_entrys(&self.environment, &other.environment)
            && self.timeout_ms == other.timeout_ms
            && self.bundle.same(&other.bundle)
            && self.image.same(&other.image)
            && same_optional_resource_contract(self.limits, other.limits)
    }
}

/// The immutable contract of one attempt.
#[derive(Debug, PartialEq, Eq)]
pub struct AssignmentContract {
    pub assignment_id: String,
    pub attempt_id: String,
    pub attempt_number: u32,
    pub idempotency_key: String,
    pub task_id: String,
    pub candidate_id: String,
    pub execution: ExecutionContract,
    pub required_features: Vec<String>,
}

pub ghost struct AssignmentContractView {
    pub assignment_id: Seq<char>,
    pub attempt_id: Seq<char>,
    pub attempt_number: u32,
    pub idempotency_key: Seq<char>,
    pub task_id: Seq<char>,
    pub candidate_id: Seq<char>,
    pub execution: ExecutionContractView,
    pub required_features: Seq<Seq<char>>,
}

impl View for AssignmentContract {
    type V = AssignmentContractView;

    open spec fn view(&self) -> AssignmentContractView {
        AssignmentContractView {
            assignment_id: self.assignment_id@,
            attempt_id: self.attempt_id@,
            attempt_number: self.attempt_number,
            idempotency_key: self.idempotency_key@,
            task_id: self.task_id@,
            candidate_id: self.candidate_id@,
            execution: self.execution@,
            required_features: text::views(self.required_features@),
        }
    }
}

impl Clone for AssignmentContract {
    fn clone(&self) -> (r: Self)
        ensures
            r@ == self@,
    {
        AssignmentContract {
            assignment_id: self.assignment_id.clone(),
            attempt_id: self.attempt_id.clone(),
            attempt_number: self.attempt_number,
            idempotency_key: self.idempotency_key.clone(),
            task_id: self.task_id.clone(),
            candidate_id: self.candidate_id.clone(),
            execution: self.execution.clone(),
            required_features: text::copy_all(&self.required_features),
        }
    }
}

impl AssignmentContract {
    /// Whether both have the same content.
    pub fn same(&self, other: &Self) -> (r: bool)
        ensures
            r == (self@ == other@),
    {
        text::same(self.assignment_id.as_str(), other.assignment_id.as_str())
            && text::same(self.attempt_id.as_str(), other.attempt_id.as_str())
            && self.attempt_number == other.attempt_number
            && text::same(self.idempotency_key.as_str(), other.idempotency_key.as_str())
            && text::same(self.task_id.as_str(), other.task_id.as_str())
            && text::same(self.candidate_id.as_str(), other.candidate_id.as_str())
            && self.execution.same(&other.execution)
            && text::same_all(&self.required_features, &other.required_features)
    }
}

/// An attempt with its worker and its state.
#[derive(Debug, PartialEq, Eq)]
pub struct AssignmentRecord {
    pub worker_id: String,
    pub contract: AssignmentContract,
    pub state: AttemptState,
    pub created_at_ms: u64,
    pub updated_at_ms: u64,
    pub cancellation_reason: Option<String>,
}

pub ghost struct AssignmentRecordView {
    pub worker_id: Seq<char>,
    pub contract: AssignmentContractView,
    pub state: AttemptState,
    pub created_at_ms: u64,
    pub updated_at_ms: u64,
    pub cancellation_reason: Option<Seq<char>>,
}

impl View for AssignmentRecord {
    type V = AssignmentRecordView;

    open spec fn view(&self) -> AssignmentRecordView {
        AssignmentRecordView {
            worker_id: self.worker_id@,
            contract: self.contract@,
            state: self.state,
            created_at_ms: self.created_at_ms,
            updated_at_ms: self.updated_at_ms,
            cancellation_reason: text::optional(self.cancellation_reason),
        }
    }
}

impl Clone for AssignmentRecord {
    fn clone(&self) -> (r: Self)
        ensures
            r@ == self@,
    {
        AssignmentRecord {
            worker_id: self.worker_id.clone(),
            contract: self.contract.clone(),
            state: self.state,
            created_at_ms: self.created_at_ms,
            updated_at_ms: self.updated_at_ms,
            cancellation_reason: text::copy_optional(&self.cancellation_reason),
        }
    }
}

/// The time a worker may hold an attempt without being heard of.
#[derive(Debug, PartialEq, Eq)]
pub struct LeaseRecord {
    pub attempt_id: String,
    pub lease_id: String,
    pub worker_id: String,
    pub granted_at_ms: u64,
    pub renewed_at_ms: u64,
    pub expires_at_ms: u64,
    pub expired_at_ms: Option<u64>,
}

pub ghost struct LeaseRecordView {
    pub attempt_id: Seq<char>,
    pub lease_id: Seq<char>,
    pub worker_id: Seq<char>,
    pub granted_at_ms: u64,
    pub renewed_at_ms: u64,
    pub expires_at_ms: u64,
    pub expired_at_ms: Option<u64>,
}

impl View for LeaseRecord {
    type V = LeaseRecordView;

    open spec fn view(&self) -> LeaseRecordView {
        LeaseRecordView {
            attempt_id: self.attempt_id@,
            lease_id: self.lease_id@,
            worker_id: self.worker_id@,
            granted_at_ms: self.granted_at_ms,
            renewed_at_ms: self.renewed_at_ms,
            expires_at_ms: self.expires_at_ms,
            expired_at_ms: self.expired_at_ms,
        }
    }
}

impl Clone for LeaseRecord {
    fn clone(&self) -> (r: Self)
        ensures
            r@ == self@,
    {
        LeaseRecord {
            attempt_id: self.attempt_id.clone(),
            lease_id: self.lease_id.clone(),
            worker_id: self.worker_id.clone(),
            granted_at_ms: self.granted_at_ms,
            renewed_at_ms: self.renewed_at_ms,
            expires_at_ms: self.expires_at_ms,
            expired_at_ms: self.expired_at_ms,
        }
    }
}

/// What a worker reported of an ended attempt.
#[derive(Debug, PartialEq, Eq)]
pub struct FinishedObservation {
    pub outcome: AttemptOutcome,
    pub exit_code: Option<i32>,
    pub elapsed_ms: u64,
    pub receipt: Option<ArtifactIdentity>,
    pub stdout: Option<ArtifactIdentity>,
    pub stderr: Option<ArtifactIdentity>,
    pub detail: String,
}

pub ghost struct FinishedObservationView {
    pub outcome: AttemptOutcome,
    pub exit_code: Option<i32>,
    pub elapsed_ms: u64,
    pub receipt: Option<ArtifactDescriptorView>,
    pub stdout: Option<ArtifactDescriptorView>,
    pub stderr: Option<ArtifactDescriptorView>,
    pub detail: Seq<char>,
}

impl View for FinishedObservation {
    type V = FinishedObservationView;

    open spec fn view(&self) -> FinishedObservationView {
        FinishedObservationView {
            outcome: self.outcome,
            exit_code: self.exit_code,
            elapsed_ms: self.elapsed_ms,
            receipt: optional_artifact_identity(self.receipt),
            stdout: optional_artifact_identity(self.stdout),
            stderr: optional_artifact_identity(self.stderr),
            detail: self.detail@,
        }
    }
}

impl Clone for FinishedObservation {
    fn clone(&self) -> (r: Self)
        ensures
            r@ == self@,
    {
        FinishedObservation {
            outcome: self.outcome,
            exit_code: self.exit_code,
            elapsed_ms: self.elapsed_ms,
            receipt: copy_optional_artifact_identity(&self.receipt),
            stdout: copy_optional_artifact_identity(&self.stdout),
            stderr: copy_optional_artifact_identity(&self.stderr),
            detail: self.detail.clone(),
        }
    }
}

/// What a worker reported of an attempt.
#[derive(Debug, PartialEq, Eq)]
pub enum AttemptObservation {
    Accepted { already_known: bool },
    Rejected { reason: i32, detail: String },
    Started,
    Finished(FinishedObservation),
    CancellationAcknowledged { already_terminal: bool },
}

pub ghost enum AttemptObservationView {
    Accepted { already_known: bool },
    Rejected { reason: i32, detail: Seq<char> },
    Started,
    Finished(FinishedObservationView),
    CancellationAcknowledged { already_terminal: bool },
}

impl View for AttemptObservation {
    type V = AttemptObservationView;

    open spec fn view(&self) -> AttemptObservationView {
        match *self {
            AttemptObservation::Accepted { already_known } => AttemptObservationView::Accepted {
                already_known,
            },
            AttemptObservation::Rejected { reason, detail } => AttemptObservationView::Rejected {
                reason,
                detail: detail@,
            },
            AttemptObservation::Started => AttemptObservationView::Started,
            AttemptObservation::Finished(finished) => AttemptObservationView::Finished(finished@),
            AttemptObservation::CancellationAcknowledged { already_terminal } =>
                AttemptObservationView::CancellationAcknowledged { already_terminal },
        }
    }
}

impl Clone for AttemptObservation {
    fn clone(&self) -> (r: Self)
        ensures
            r@ == self@,
    {
        match self {
            AttemptObservation::Accepted { already_known } => AttemptObservation::Accepted {
                already_known: *already_known,
            },
            AttemptObservation::Rejected { reason, detail } => AttemptObservation::Rejected {
                reason: *reason,
                detail: detail.clone(),
            },
            AttemptObservation::Started => AttemptObservation::Started,
            AttemptObservation::Finished(finished) => AttemptObservation::Finished(
                finished.clone(),
            ),
            AttemptObservation::CancellationAcknowledged { already_terminal } =>
                AttemptObservation::CancellationAcknowledged { already_terminal: *already_terminal },
        }
    }
}

/// The state that an observation moves an attempt to; a cancellation acknowledgement moves none.
pub open spec fn target(observation: AttemptObservationView) -> Option<AttemptState> {
    match observation {
        AttemptObservationView::Accepted { .. } => Some(AttemptState::Accepted),
        AttemptObservationView::Rejected { .. } => Some(AttemptState::Rejected),
        AttemptObservationView::Started => Some(AttemptState::Running),
        AttemptObservationView::Finished(_) => Some(AttemptState::Finished),
        AttemptObservationView::CancellationAcknowledged { .. } => None,
    }
}

impl AttemptObservation {
    pub fn target_state(&self) -> (r: Option<AttemptState>)
        ensures
            r == target(self@),
    {
        match self {
            AttemptObservation::Accepted { .. } => Some(AttemptState::Accepted),
            AttemptObservation::Rejected { .. } => Some(AttemptState::Rejected),
            AttemptObservation::Started => Some(AttemptState::Running),
            AttemptObservation::Finished(_) => Some(AttemptState::Finished),
            AttemptObservation::CancellationAcknowledged { .. } => None,
        }
    }
}

/// An observation with the identity it claims.
#[derive(Debug, PartialEq, Eq)]
pub struct ObservedAttempt {
    pub assignment_id: String,
    pub attempt_id: String,
    pub worker_id: String,
    pub observed_at_ms: u64,
    pub observation: AttemptObservation,
}

pub ghost struct ObservedAttemptView {
    pub assignment_id: Seq<char>,
    pub attempt_id: Seq<char>,
    pub worker_id: Seq<char>,
    pub observed_at_ms: u64,
    pub observation: AttemptObservationView,
}

impl View for ObservedAttempt {
    type V = ObservedAttemptView;

    open spec fn view(&self) -> ObservedAttemptView {
        ObservedAttemptView {
            assignment_id: self.assignment_id@,
            attempt_id: self.attempt_id@,
            worker_id: self.worker_id@,
            observed_at_ms: self.observed_at_ms,
            observation: self.observation@,
        }
    }
}

/// An observation as the repository keeps it.
#[derive(Debug, PartialEq, Eq)]
pub struct StoredObservation {
    pub attempt_id: String,
    pub worker_id: String,
    pub observed_at_ms: u64,
    pub disposition: ObservationDisposition,
    pub observation: AttemptObservation,
}

pub ghost struct StoredObservationView {
    pub attempt_id: Seq<char>,
    pub worker_id: Seq<char>,
    pub observed_at_ms: u64,
    pub disposition: ObservationDisposition,
    pub observation: AttemptObservationView,
}

impl View for StoredObservation {
    type V = StoredObservationView;

    open spec fn view(&self) -> StoredObservationView {
        StoredObservationView {
            attempt_id: self.attempt_id@,
            worker_id: self.worker_id@,
            observed_at_ms: self.observed_at_ms,
            disposition: self.disposition,
            observation: self.observation@,
        }
    }
}

/// A durable frame on its way to a worker.
#[derive(Debug, PartialEq, Eq)]
pub struct ServerOutboxFrame {
    pub connection_id: String,
    pub sequence: u64,
    pub message_id: String,
    pub worker_id: String,
    pub kind: ServerFrameKind,
    pub attempt_id: Option<String>,
}

pub ghost struct ServerOutboxFrameView {
    pub connection_id: Seq<char>,
    pub sequence: u64,
    pub message_id: Seq<char>,
    pub worker_id: Seq<char>,
    pub kind: ServerFrameKind,
    pub attempt_id: Option<Seq<char>>,
}

impl View for ServerOutboxFrame {
    type V = ServerOutboxFrameView;

    open spec fn view(&self) -> ServerOutboxFrameView {
        ServerOutboxFrameView {
            connection_id: self.connection_id@,
            sequence: self.sequence,
            message_id: self.message_id@,
            worker_id: self.worker_id@,
            kind: self.kind,
            attempt_id: text::optional(self.attempt_id),
        }
    }
}

impl Clone for ServerOutboxFrame {
    fn clone(&self) -> (r: Self)
        ensures
            r@ == self@,
    {
        ServerOutboxFrame {
            connection_id: self.connection_id.clone(),
            sequence: self.sequence,
            message_id: self.message_id.clone(),
            worker_id: self.worker_id.clone(),
            kind: self.kind,
            attempt_id: text::copy_optional(&self.attempt_id),
        }
    }
}

/// A frame that waits for its acknowledgement.
#[derive(Debug, PartialEq, Eq)]
pub struct OutboxRow {
    pub frame: ServerOutboxFrame,
    pub created_at_ms: u64,
}

pub ghost struct OutboxRowView {
    pub frame: ServerOutboxFrameView,
    pub created_at_ms: u64,
}

impl View for OutboxRow {
    type V = OutboxRowView;

    open spec fn view(&self) -> OutboxRowView {
        OutboxRowView {
            frame: self.frame@,
            created_at_ms: self.created_at_ms,
        }
    }
}

/// Everything one delivery of an assignment commits.
#[derive(Debug, PartialEq, Eq)]
pub struct AssignmentDeliveryPreparation {
    pub frame: ServerOutboxFrame,
    pub lease_id: String,
    pub last_worker_sequence: u64,
    pub last_server_acknowledged_by_worker: u64,
    pub now_ms: u64,
    pub lease_duration_ms: u64,
}

pub ghost struct AssignmentDeliveryPreparationView {
    pub frame: ServerOutboxFrameView,
    pub lease_id: Seq<char>,
    pub last_worker_sequence: u64,
    pub last_server_acknowledged_by_worker: u64,
    pub now_ms: u64,
    pub lease_duration_ms: u64,
}

impl View for AssignmentDeliveryPreparation {
    type V = AssignmentDeliveryPreparationView;

    open spec fn view(&self) -> AssignmentDeliveryPreparationView {
        AssignmentDeliveryPreparationView {
            frame: self.frame@,
            lease_id: self.lease_id@,
            last_worker_sequence: self.last_worker_sequence,
            last_server_acknowledged_by_worker: self.last_server_acknowledged_by_worker,
            now_ms: self.now_ms,
            lease_duration_ms: self.lease_duration_ms,
        }
    }
}

/// The attempt that replaces an expired one.
#[derive(Debug, PartialEq, Eq)]
pub struct ReassignmentRecord {
    pub outcome: StoreAssignmentOutcome,
    pub assignment: AssignmentRecord,
}

pub ghost struct ReassignmentRecordView {
    pub outcome: StoreAssignmentOutcome,
    pub assignment: AssignmentRecordView,
}

impl View for ReassignmentRecord {
    type V = ReassignmentRecordView;

    open spec fn view(&self) -> ReassignmentRecordView {
        ReassignmentRecordView {
            outcome: self.outcome,
            assignment: self.assignment@,
        }
    }
}

/// What a cancellation request did.
#[derive(Debug, PartialEq, Eq)]
pub struct CancellationRecord {
    pub worker_id: String,
    pub outcome: CancellationStoreOutcome,
}

pub ghost struct CancellationRecordView {
    pub worker_id: Seq<char>,
    pub outcome: CancellationStoreOutcome,
}

impl View for CancellationRecord {
    type V = CancellationRecordView;

    open spec fn view(&self) -> CancellationRecordView {
        CancellationRecordView {
            worker_id: self.worker_id@,
            outcome: self.outcome,
        }
    }
}

/// What a registered worker can run.
#[derive(Debug, PartialEq, Eq)]
pub struct WorkerCapabilities {
    pub backend: i32,
    pub architecture: String,
    pub device_count: u32,
    pub max_concurrency: u32,
    pub driver_version: String,
    pub toolkit_version: String,
    pub container_runtime: String,
}

pub ghost struct WorkerCapabilitiesView {
    pub backend: i32,
    pub architecture: Seq<char>,
    pub device_count: u32,
    pub max_concurrency: u32,
    pub driver_version: Seq<char>,
    pub toolkit_version: Seq<char>,
    pub container_runtime: Seq<char>,
}

impl View for WorkerCapabilities {
    type V = WorkerCapabilitiesView;

    open spec fn view(&self) -> WorkerCapabilitiesView {
        WorkerCapabilitiesView {
            backend: self.backend,
            architecture: self.architecture@,
            device_count: self.device_count,
            max_concurrency: self.max_concurrency,
            driver_version: self.driver_version@,
            toolkit_version: self.toolkit_version@,
            container_runtime: self.container_runtime@,
        }
    }
}

impl Clone for WorkerCapabilities {
    fn clone(&self) -> (r: Self)
        ensures
            r@ == self@,
    {
        WorkerCapabilities {
            backend: self.backend,
            architecture: self.architecture.clone(),
            device_count: self.device_count,
            max_concurrency: self.max_concurrency,
            driver_version: self.driver_version.clone(),
            toolkit_version: self.toolkit_version.clone(),
            container_runtime: self.container_runtime.clone(),
        }
    }
}

/// What a worker said of itself.
#[derive(Debug, PartialEq, Eq)]
pub struct WorkerRegistration {
    pub protocol_major: u32,
    pub protocol_minor: u32,
    pub worker_id: String,
    pub instance_id: String,
    pub worker_version: String,
    pub features: Vec<String>,
    pub capabilities: WorkerCapabilities,
}

pub ghost struct WorkerRegistrationView {
    pub protocol_major: u32,
    pub protocol_minor: u32,
    pub worker_id: Seq<char>,
    pub instance_id: Seq<char>,
    pub worker_version: Seq<char>,
    pub features: Seq<Seq<char>>,
    pub capabilities: WorkerCapabilitiesView,
}

impl View for WorkerRegistration {
    type V = WorkerRegistrationView;

    open spec fn view(&self) -> WorkerRegistrationView {
        WorkerRegistrationView {
            protocol_major: self.protocol_major,
            protocol_minor: self.protocol_minor,
            worker_id: self.worker_id@,
            instance_id: self.instance_id@,
            worker_version: self.worker_version@,
            features: text::views(self.features@),
            capabilities: self.capabilities@,
        }
    }
}

impl Clone for WorkerRegistration {
    fn clone(&self) -> (r: Self)
        ensures
            r@ == self@,
    {
        WorkerRegistration {
            protocol_major: self.protocol_major,
            protocol_minor: self.protocol_minor,
            worker_id: self.worker_id.clone(),
            instance_id: self.instance_id.clone(),
            worker_version: self.worker_version.clone(),
            features: text::copy_all(&self.features),
            capabilities: self.capabilities.clone(),
        }
    }
}

/// A control connection that opens.
#[derive(Debug, PartialEq, Eq)]
pub struct ConnectionRegistration {
    pub connection_id: String,
    pub worker_id: String,
    pub instance_id: String,
    pub connected_at_ms: u64,
}

pub ghost struct ConnectionRegistrationView {
    pub connection_id: Seq<char>,
    pub worker_id: Seq<char>,
    pub instance_id: Seq<char>,
    pub connected_at_ms: u64,
}

impl View for ConnectionRegistration {
    type V = ConnectionRegistrationView;

    open spec fn view(&self) -> ConnectionRegistrationView {
        ConnectionRegistrationView {
            connection_id: self.connection_id@,
            worker_id: self.worker_id@,
            instance_id: self.instance_id@,
            connected_at_ms: self.connected_at_ms,
        }
    }
}

/// A known worker.
#[derive(Debug, PartialEq, Eq)]
pub struct WorkerRow {
    pub registration: WorkerRegistration,
    pub registered_at_ms: u64,
    pub last_seen_at_ms: u64,
}

pub ghost struct WorkerRowView {
    pub registration: WorkerRegistrationView,
    pub registered_at_ms: u64,
    pub last_seen_at_ms: u64,
}

impl View for WorkerRow {
    type V = WorkerRowView;

    open spec fn view(&self) -> WorkerRowView {
        WorkerRowView {
            registration: self.registration@,
            registered_at_ms: self.registered_at_ms,
            last_seen_at_ms: self.last_seen_at_ms,
        }
    }
}

/// A known control connection.
#[derive(Debug, PartialEq, Eq)]
pub struct ConnectionRow {
    pub worker_id: String,
    pub instance_id: String,
    pub connected_at_ms: u64,
    pub disconnected_at_ms: Option<u64>,
    pub last_worker_sequence: u64,
    pub last_server_sequence: u64,
    pub last_server_acknowledged_by_worker: u64,
}

pub ghost struct ConnectionRowView {
    pub worker_id: Seq<char>,
    pub instance_id: Seq<char>,
    pub connected_at_ms: u64,
    pub disconnected_at_ms: Option<u64>,
    pub last_worker_sequence: u64,
    pub last_server_sequence: u64,
    pub last_server_acknowledged_by_worker: u64,
}

impl View for ConnectionRow {
    type V = ConnectionRowView;

    open spec fn view(&self) -> ConnectionRowView {
        ConnectionRowView {
            worker_id: self.worker_id@,
            instance_id: self.instance_id@,
            connected_at_ms: self.connected_at_ms,
            disconnected_at_ms: self.disconnected_at_ms,
            last_worker_sequence: self.last_worker_sequence,
            last_server_sequence: self.last_server_sequence,
            last_server_acknowledged_by_worker: self.last_server_acknowledged_by_worker,
        }
    }
}

/// The attempt and worker that took over an expired attempt.
#[derive(Debug, PartialEq, Eq)]
pub struct Replacement {
    pub attempt_id: String,
    pub worker_id: String,
}

pub ghost struct ReplacementView {
    pub attempt_id: Seq<char>,
    pub worker_id: Seq<char>,
}

impl View for Replacement {
    type V = ReplacementView;

    open spec fn view(&self) -> ReplacementView {
        ReplacementView {
            attempt_id: self.attempt_id@,
            worker_id: self.worker_id@,
        }
    }
}

/// The numbers that states are stored under are fixed.
pub proof fn state_numbers_are_fixed()
    ensures
        AttemptState::Dispatchable.code() == 1,
        AttemptState::Sent.code() == 2,
        AttemptState::Accepted.code() == 3,
        AttemptState::Running.code() == 4,
        AttemptState::Finished.code() == 5,
        AttemptState::Rejected.code() == 6,
        AttemptState::LeaseExpired.code() == 7,
        AttemptState::CancelRequested.code() == 8,
        AttemptState::Cancelled.code() == 9,
        AttemptState::Preparing.code() == 10,
{
}

/// An attempt is held while a worker has it, it is over once nothing more can happen to it, and
/// what is neither is still to be sent or prepared.
pub proof fn states_are_of_one_sort(state: AttemptState)
    ensures
        state.held() <==> {
            ||| state == AttemptState::Sent
            ||| state == AttemptState::Accepted
            ||| state == AttemptState::Running
            ||| state == AttemptState::CancelRequested
        },
        state.terminal() <==> {
            ||| state == AttemptState::Finished
            ||| state == AttemptState::Rejected
            ||| state == AttemptState::LeaseExpired
            ||| state == AttemptState::Cancelled
        },
        !state.held() && !state.terminal() <==> state == AttemptState::Preparing || state
            == AttemptState::Dispatchable,
        state.replayable() <==> state.held() || state == AttemptState::Dispatchable,
        !(state.held() && state.terminal()),
{
}

/// A refused transition names both states, and other failures say what they are about.
pub proof fn repository_failures_are_told(
    detail: Seq<char>,
    from: AttemptState,
    to: AttemptState,
)
    ensures
        RepositoryErrorView::Storage(detail).text() == "control storage error: "@ + detail,
        RepositoryErrorView::Encoding(detail).text() == "control encoding error: "@ + detail,
        RepositoryErrorView::NotFound(detail).text() == "attempt "@ + detail + " was not found"@,
        RepositoryErrorView::IdentityMismatch(detail).text() == "attempt "@ + detail
            + " belongs to a different assignment or worker"@,
        RepositoryErrorView::InvalidIdentity(detail).text() == "invalid identity: "@ + detail,
        RepositoryErrorView::ConflictingAttempt(detail).text() == "attempt "@ + detail
            + " conflicts with stored content"@,
        RepositoryErrorView::Corrupt(detail).text() == "corrupt control repository: "@ + detail,
        RepositoryErrorView::LockPoisoned.text() == "control repository lock poisoned"@,
        (RepositoryErrorView::InvalidTransition { from, to }).text()
            == "invalid attempt transition from "@ + from.label() + " to "@ + to.label(),
{
}

/// States and outcomes are named as they are.
pub proof fn states_are_named(number: i32)
    ensures
        AttemptState::Dispatchable.label() == "Dispatchable"@,
        AttemptState::Sent.label() == "Sent"@,
        AttemptState::Accepted.label() == "Accepted"@,
        AttemptState::Running.label() == "Running"@,
        AttemptState::Finished.label() == "Finished"@,
        AttemptState::Rejected.label() == "Rejected"@,
        AttemptState::LeaseExpired.label() == "LeaseExpired"@,
        AttemptState::CancelRequested.label() == "CancelRequested"@,
        AttemptState::Cancelled.label() == "Cancelled"@,
        AttemptState::Preparing.label() == "Preparing"@,
        AttemptOutcome::Succeeded.label() == "ATTEMPT_OUTCOME_SUCCEEDED"@,
        AttemptOutcome::CandidateFailed.label() == "ATTEMPT_OUTCOME_CANDIDATE_FAILED"@,
        AttemptOutcome::TimedOut.label() == "ATTEMPT_OUTCOME_TIMED_OUT"@,
        AttemptOutcome::Other(number).label() == "ATTEMPT_OUTCOME_UNSPECIFIED"@,
{
}

/// What a worker reports moves an attempt to the state that the report speaks of; an
/// acknowledgement alone speaks of none.
pub proof fn reports_speak_of_a_state(
    already_known: bool,
    reason: i32,
    detail: Seq<char>,
    finished: FinishedObservationView,
)
    ensures
        target(AttemptObservationView::Accepted { already_known }) == Some(AttemptState::Accepted),
        target(AttemptObservationView::Rejected { reason, detail }) == Some(AttemptState::Rejected),
        target(AttemptObservationView::Started) == Some(AttemptState::Running),
        target(AttemptObservationView::Finished(finished)) == Some(AttemptState::Finished),
        target(
            AttemptObservationView::CancellationAcknowledged { already_terminal: already_known },
        ) is None,
{
}

/// A number can be stored exactly where it is below two to the sixty-third.
pub proof fn numbers_below_the_sign_are_stored(value: u64)
    ensures
        storable(value) <==> value < 9223372036854775808,
        out_of_range(value) == RepositoryErrorView::Corrupt(
            "timestamp "@ + text::decimal(value as nat) + " exceeds SQLite range"@,
        ),
{
}

} // verus!
