//! Worker-control wire messages, held as plain values.
use crate::text;
use vstd::prelude::*;
use vstd::string::*;

verus! {

/// The accelerator family of a worker.
#[derive(Clone, Copy, Debug, PartialEq, Eq, Structural)]
pub enum Backend {
    Unspecified,
    Cuda,
    Ascend,
}

impl Backend {
    /// The wire number.
    pub open spec fn code(self) -> i32 {
        match self {
            Backend::Unspecified => 0i32,
            Backend::Cuda => 1i32,
            Backend::Ascend => 2i32,
        }
    }

    /// What a wire number stands for; unknown numbers are unspecified.
    pub open spec fn decoded(number: i32) -> Backend {
        if number == 1 {
            Backend::Cuda
        } else if number == 2 {
            Backend::Ascend
        } else {
            Backend::Unspecified
        }
    }

    pub fn number(self) -> (r: i32)
        ensures
            r == self.code(),
            Backend::decoded(r) == self,
    {
        match self {
            Backend::Unspecified => 0,
            Backend::Cuda => 1,
            Backend::Ascend => 2,
        }
    }

    pub fn decode(number: i32) -> (r: Backend)
        ensures
            r == Backend::decoded(number),
    {
        match number {
            1 => Backend::Cuda,
            2 => Backend::Ascend,
            _ => Backend::Unspecified,
        }
    }
}

/// What a worker says of its own health.
#[derive(Clone, Copy, Debug, PartialEq, Eq, Structural)]
pub enum WorkerHealth {
    Unspecified,
    Ready,
    Degraded,
}

impl WorkerHealth {
    /// The wire number.
    pub open spec fn code(self) -> i32 {
        match self {
            WorkerHealth::Unspecified => 0i32,
            WorkerHealth::Ready => 1i32,
            WorkerHealth::Degraded => 2i32,
        }
    }

    /// What a wire number stands for; unknown numbers are unspecified.
    pub open spec fn decoded(number: i32) -> WorkerHealth {
        if number == 1 {
            WorkerHealth::Ready
        } else if number == 2 {
            WorkerHealth::Degraded
        } else {
            WorkerHealth::Unspecified
        }
    }

    pub fn number(self) -> (r: i32)
        ensures
            r == self.code(),
            WorkerHealth::decoded(r) == self,
    {
        match self {
            WorkerHealth::Unspecified => 0,
            WorkerHealth::Ready => 1,
            WorkerHealth::Degraded => 2,
        }
    }

    pub fn decode(number: i32) -> (r: WorkerHealth)
        ensures
            r == WorkerHealth::decoded(number),
    {
        match number {
            1 => WorkerHealth::Ready,
            2 => WorkerHealth::Degraded,
            _ => WorkerHealth::Unspecified,
        }
    }
}

/// What a worker says of one device.
#[derive(Clone, Copy, Debug, PartialEq, Eq, Structural)]
pub enum DeviceHealth {
    Unspecified,
    Ready,
    Unhealthy,
}

impl DeviceHealth {
    /// The wire number.
    pub open spec fn code(self) -> i32 {
        match self {
            DeviceHealth::Unspecified => 0i32,
            DeviceHealth::Ready => 1i32,
            DeviceHealth::Unhealthy => 2i32,
        }
    }

    /// What a wire number stands for; unknown numbers are unspecified.
    pub open spec fn decoded(number: i32) -> DeviceHealth {
        if number == 1 {
            DeviceHealth::Ready
        } else if number == 2 {
            DeviceHealth::Unhealthy
        } else {
            DeviceHealth::Unspecified
        }
    }

    pub fn number(self) -> (r: i32)
        ensures
            r == self.code(),
            DeviceHealth::decoded(r) == self,
    {
        match self {
            DeviceHealth::Unspecified => 0,
            DeviceHealth::Ready => 1,
            DeviceHealth::Unhealthy => 2,
        }
    }

    pub fn decode(number: i32) -> (r: DeviceHealth)
        ensures
            r == DeviceHealth::decoded(number),
    {
        match number {
            1 => DeviceHealth::Ready,
            2 => DeviceHealth::Unhealthy,
            _ => DeviceHealth::Unspecified,
        }
    }
}

/// How an assignment is executed.
#[derive(Clone, Copy, Debug, PartialEq, Eq, Structural)]
pub enum ExecutorKind {
    Unspecified,
    Container,
    CudaFixture,
    AscendFixture,
    AscendBuild,
    CudaCorrectness,
    AscendCorrectness,
}

impl ExecutorKind {
    /// The wire number.
    pub open spec fn code(self) -> i32 {
        match self {
            ExecutorKind::Unspecified => 0i32,
            ExecutorKind::Container => 1i32,
            ExecutorKind::CudaFixture => 2i32,
            ExecutorKind::AscendFixture => 3i32,
            ExecutorKind::AscendBuild => 4i32,
            ExecutorKind::CudaCorrectness => 5i32,
            ExecutorKind::AscendCorrectness => 6i32,
        }
    }

    /// What a wire number stands for; unknown numbers are unspecified.
    pub open spec fn decoded(number: i32) -> ExecutorKind {
        if number == 1 {
            ExecutorKind::Container
        } else if number == 2 {
            ExecutorKind::CudaFixture
        } else if number == 3 {
            ExecutorKind::AscendFixture
        } else if number == 4 {
            ExecutorKind::AscendBuild
        } else if number == 5 {
            ExecutorKind::CudaCorrectness
        } else if number == 6 {
            ExecutorKind::AscendCorrectness
        } else {
            ExecutorKind::Unspecified
        }
    }

    pub fn number(self) -> (r: i32)
        ensures
            r == self.code(),
            ExecutorKind::decoded(r) == self,
    {
        match self {
            ExecutorKind::Unspecified => 0,
            ExecutorKind::Container => 1,
            ExecutorKind::CudaFixture => 2,
            ExecutorKind::AscendFixture => 3,
            ExecutorKind::AscendBuild => 4,
            ExecutorKind::CudaCorrectness => 5,
            ExecutorKind::AscendCorrectness => 6,
        }
    }

    pub fn decode(number: i32) -> (r: ExecutorKind)
        ensures
            r == ExecutorKind::decoded(number),
    {
        match number {
            1 => ExecutorKind::Container,
            2 => ExecutorKind::CudaFixture,
            3 => ExecutorKind::AscendFixture,
            4 => ExecutorKind::AscendBuild,
            5 => ExecutorKind::CudaCorrectness,
            6 => ExecutorKind::AscendCorrectness,
            _ => ExecutorKind::Unspecified,
        }
    }
}

/// Which output of a command a preview carries.
#[derive(Clone, Copy, Debug, PartialEq, Eq, Structural)]
pub enum OutputStream {
    Unspecified,
    Stdout,
    Stderr,
}

impl OutputStream {
    /// The wire number.
    pub open spec fn code(self) -> i32 {
        match self {
            OutputStream::Unspecified => 0i32,
            OutputStream::Stdout => 1i32,
            OutputStream::Stderr => 2i32,
        }
    }

    /// What a wire number stands for; unknown numbers are unspecified.
    pub open spec fn decoded(number: i32) -> OutputStream {
        if number == 1 {
            OutputStream::Stdout
        } else if number == 2 {
            OutputStream::Stderr
        } else {
            OutputStream::Unspecified
        }
    }

    pub fn number(self) -> (r: i32)
        ensures
            r == self.code(),
            OutputStream::decoded(r) == self,
    {
        match self {
            OutputStream::Unspecified => 0,
            OutputStream::Stdout => 1,
            OutputStream::Stderr => 2,
        }
    }

    pub fn decode(number: i32) -> (r: OutputStream)
        ensures
            r == OutputStream::decoded(number),
    {
        match number {
            1 => OutputStream::Stdout,
            2 => OutputStream::Stderr,
            _ => OutputStream::Unspecified,
        }
    }
}

/// How an attempt ended.
#[derive(Clone, Copy, Debug, PartialEq, Eq, Structural)]
pub enum AttemptOutcome {
    Unspecified,
    Succeeded,
    CandidateFailed,
    TimedOut,
}

impl AttemptOutcome {
    /// The wire number.
    pub open spec fn code(self) -> i32 {
        match self {
            AttemptOutcome::Unspecified => 0i32,
            AttemptOutcome::Succeeded => 1i32,
            AttemptOutcome::CandidateFailed => 2i32,
            AttemptOutcome::TimedOut => 3i32,
        }
    }

    /// What a wire number stands for; unknown numbers are unspecified.
    pub open spec fn decoded(number: i32) -> AttemptOutcome {
        if number == 1 {
            AttemptOutcome::Succeeded
        } else if number == 2 {
            AttemptOutcome::CandidateFailed
        } else if number == 3 {
            AttemptOutcome::TimedOut
        } else {
            AttemptOutcome::Unspecified
        }
    }

    pub fn number(self) -> (r: i32)
        ensures
            r == self.code(),
            AttemptOutcome::decoded(r) == self,
    {
        match self {
            AttemptOutcome::Unspecified => 0,
            AttemptOutcome::Succeeded => 1,
            AttemptOutcome::CandidateFailed => 2,
            AttemptOutcome::TimedOut => 3,
        }
    }

    pub fn decode(number: i32) -> (r: AttemptOutcome)
        ensures
            r == AttemptOutcome::decoded(number),
    {
        match number {
            1 => AttemptOutcome::Succeeded,
            2 => AttemptOutcome::CandidateFailed,
            3 => AttemptOutcome::TimedOut,
            _ => AttemptOutcome::Unspecified,
        }
    }
}

/// What network an execution may reach.
#[derive(Clone, Copy, Debug, PartialEq, Eq, Structural)]
pub enum NetworkPolicy {
    Unspecified,
    Disabled,
    DependencyFetch,
}

impl NetworkPolicy {
    /// The wire number.
    pub open spec fn code(self) -> i32 {
        match self {
            NetworkPolicy::Unspecified => 0i32,
            NetworkPolicy::Disabled => 1i32,
            NetworkPolicy::DependencyFetch => 2i32,
        }
    }

    /// What a wire number stands for; unknown numbers are unspecified.
    pub open spec fn decoded(number: i32) -> NetworkPolicy {
        if number == 1 {
            NetworkPolicy::Disabled
        } else if number == 2 {
            NetworkPolicy::DependencyFetch
        } else {
            NetworkPolicy::Unspecified
        }
    }

    pub fn number(self) -> (r: i32)
        ensures
            r == self.code(),
            NetworkPolicy::decoded(r) == self,
    {
        match self {
            NetworkPolicy::Unspecified => 0,
            NetworkPolicy::Disabled => 1,
            NetworkPolicy::DependencyFetch => 2,
        }
    }

    pub fn decode(number: i32) -> (r: NetworkPolicy)
        ensures
            r == NetworkPolicy::decoded(number),
    {
        match number {
            1 => NetworkPolicy::Disabled,
            2 => NetworkPolicy::DependencyFetch,
            _ => NetworkPolicy::Unspecified,
        }
    }
}

/// One accelerator of a worker.
#[derive(Debug, PartialEq, Eq)]
pub struct AcceleratorDevice {
    pub device_id: String,
    pub product_name: String,
    pub serial_number: String,
    pub firmware_version: String,
}

/// What a worker can run.
#[derive(Debug, PartialEq, Eq)]
pub struct WorkerCapabilities {
    pub backend: i32,
    pub architecture: String,
    pub device_count: u32,
    pub max_concurrency: u32,
    pub driver_version: String,
    pub toolkit_version: String,
    pub container_runtime: String,
    pub devices: Vec<AcceleratorDevice>,
}

/// An attempt that a worker still runs.
#[derive(Debug, PartialEq, Eq)]
pub struct ActiveAttempt {
    pub attempt_id: String,
}

/// The first message of a worker.
#[derive(Debug, PartialEq, Eq)]
pub struct WorkerHello {
    pub protocol_major: u32,
    pub protocol_minor: u32,
    pub worker_id: String,
    pub instance_id: String,
    pub worker_version: String,
    pub features: Vec<String>,
    pub capabilities: Option<WorkerCapabilities>,
    pub active_attempts: Vec<ActiveAttempt>,
}

/// What a worker saw of one device.
#[derive(Debug, PartialEq, Eq)]
pub struct DeviceObservation {
    pub device_id: String,
    pub health: i32,
    pub process_count: u32,
    pub utilization_percent: u32,
    pub memory_used_bytes: u64,
    pub memory_total_bytes: u64,
    pub temperature_millicelsius: i64,
    pub power_milliwatts: u64,
    pub observed_at_ms: u64,
    pub detail: String,
}

/// A device that an attempt occupies.
#[derive(Debug, PartialEq, Eq)]
pub struct DeviceLease {
    pub attempt_id: String,
    pub device_id: String,
    pub acquired_at_ms: u64,
}

/// A scheduling snapshot of a worker.
#[derive(Debug, PartialEq, Eq)]
pub struct Heartbeat {
    pub active_attempts: Vec<ActiveAttempt>,
    pub available_slots: u32,
    pub health: i32,
    pub devices: Vec<DeviceObservation>,
    pub device_leases: Vec<DeviceLease>,
    pub device_free_slots: u32,
}

/// Stored content by digest.
#[derive(Debug, PartialEq, Eq)]
pub struct ArtifactRef {
    pub digest: String,
    pub size_bytes: u64,
    pub media_type: String,
}

pub ghost struct ArtifactRefView {
    pub digest: Seq<char>,
    pub size_bytes: u64,
    pub media_type: Seq<char>,
}

impl View for ArtifactRef {
    type V = ArtifactRefView;

    open spec fn view(&self) -> ArtifactRefView {
        ArtifactRefView {
            digest: self.digest@,
            size_bytes: self.size_bytes,
            media_type: self.media_type@,
        }
    }
}

impl Clone for ArtifactRef {
    fn clone(&self) -> (r: Self)
        ensures
            r@ == self@,
    {
        ArtifactRef {
            digest: self.digest.clone(),
            size_bytes: self.size_bytes,
            media_type: self.media_type.clone(),
        }
    }
}

/// One variable of an execution.
#[derive(Debug, PartialEq, Eq)]
pub struct EnvironmentVariable {
    pub name: String,
    pub value: String,
}

pub ghost struct EnvironmentVariableView {
    pub name: Seq<char>,
    pub value: Seq<char>,
}

impl View for EnvironmentVariable {
    type V = EnvironmentVariableView;

    open spec fn view(&self) -> EnvironmentVariableView {
        EnvironmentVariableView {
            name: self.name@,
            value: self.value@,
        }
    }
}

impl Clone for EnvironmentVariable {
    fn clone(&self) -> (r: Self)
        ensures
            r@ == self@,
    {
        EnvironmentVariable {
            name: self.name.clone(),
            value: self.value.clone(),
        }
    }
}

/// What an execution may use.
#[derive(Clone, Copy, Debug, PartialEq, Eq, Structural)]
pub struct ResourceLimits {
    pub cpu_millis: u64,
    pub memory_bytes: u64,
    pub disk_bytes: u64,
    pub process_count: u32,
    pub output_bytes: u64,
    pub device_count: u32,
    pub network: i32,
}

/// What to execute and in what sandbox.
#[derive(Debug, PartialEq, Eq)]
pub struct ExecutionSpec {
    pub executor_kind: i32,
    pub argv: Vec<String>,
    pub working_directory: String,
    pub environment: Vec<EnvironmentVariable>,
    pub timeout_ms: u64,
    pub bundle: Option<ArtifactRef>,
    pub image: Option<ArtifactRef>,
    pub limits: Option<ResourceLimits>,
}

pub ghost struct ExecutionSpecView {
    pub executor_kind: i32,
    pub argv: Seq<Seq<char>>,
    pub working_directory: Seq<char>,
    pub environment: Seq<EnvironmentVariableView>,
    pub timeout_ms: u64,
    pub bundle: Option<ArtifactRefView>,
    pub image: Option<ArtifactRefView>,
    pub limits: Option<ResourceLimits>,
}

impl View for ExecutionSpec {
    type V = ExecutionSpecView;

    open spec fn view(&self) -> ExecutionSpecView {
        ExecutionSpecView {
            executor_kind: self.executor_kind,
            argv: text::views(self.argv@),
            working_directory: self.working_directory@,
            environment: environment_variable_views(self.environment@),
            timeout_ms: self.timeout_ms,
            bundle: optional_artifact_ref(self.bundle),
            image: optional_artifact_ref(self.image),
            limits: self.limits,
        }
    }
}

impl Clone for ExecutionSpec {
    fn clone(&self) -> (r: Self)
        ensures
            r@ == self@,
    {
        ExecutionSpec {
            executor_kind: self.executor_kind,
            argv: text::copy_all(&self.argv),
            working_directory: self.working_directory.clone(),
            environment: copy_environment_variables(&self.environment),
            timeout_ms: self.timeout_ms,
            bundle: copy_optional_artifact_ref(&self.bundle),
            image: copy_optional_artifact_ref(&self.image),
            limits: self.limits,
        }
    }
}

/// One attempt of one assignment.
#[derive(Debug, PartialEq, Eq)]
pub struct Assignment {
    pub assignment_id: String,
    pub attempt_id: String,
    pub attempt_number: u32,
    pub idempotency_key: String,
    pub task_id: String,
    pub candidate_id: String,
    pub execution: Option<ExecutionSpec>,
    pub required_features: Vec<String>,
}

pub ghost struct AssignmentView {
    pub assignment_id: Seq<char>,
    pub attempt_id: Seq<char>,
    pub attempt_number: u32,
    pub idempotency_key: Seq<char>,
    pub task_id: Seq<char>,
    pub candidate_id: Seq<char>,
    pub execution: Option<ExecutionSpecView>,
    pub required_features: Seq<Seq<char>>,
}

impl View for Assignment {
    type V = AssignmentView;

    open spec fn view(&self) -> AssignmentView {
        AssignmentView {
            assignment_id: self.assignment_id@,
            attempt_id: self.attempt_id@,
            attempt_number: self.attempt_number,
            idempotency_key: self.idempotency_key@,
            task_id: self.task_id@,
            candidate_id: self.candidate_id@,
            execution: optional_execution_spec(self.execution),
            required_features: text::views(self.required_features@),
        }
    }
}

impl Clone for Assignment {
    fn clone(&self) -> (r: Self)
        ensures
            r@ == self@,
    {
        Assignment {
            assignment_id: self.assignment_id.clone(),
            attempt_id: self.attempt_id.clone(),
            attempt_number: self.attempt_number,
            idempotency_key: self.idempotency_key.clone(),
            task_id: self.task_id.clone(),
            candidate_id: self.candidate_id.clone(),
            execution: copy_optional_execution_spec(&self.execution),
            required_features: text::copy_all(&self.required_features),
        }
    }
}

/// A worker admits an attempt.
#[derive(Debug, PartialEq, Eq)]
pub struct AssignmentAccepted {
    pub assignment_id: String,
    pub attempt_id: String,
    pub already_known: bool,
}

/// A worker refuses an attempt.
#[derive(Debug, PartialEq, Eq)]
pub struct AssignmentRejected {
    pub assignment_id: String,
    pub attempt_id: String,
    pub reason: i32,
    pub detail: String,
}

/// A worker runs an attempt.
#[derive(Debug, PartialEq, Eq)]
pub struct ExecutionStarted {
    pub assignment_id: String,
    pub attempt_id: String,
}

/// An attempt ended on its worker.
#[derive(Debug, PartialEq, Eq)]
pub struct ExecutionFinished {
    pub assignment_id: String,
    pub attempt_id: String,
    pub outcome: i32,
    pub exit_code: Option<i32>,
    pub elapsed_ms: u64,
    pub receipt: Option<ArtifactRef>,
    pub stdout: Option<ArtifactRef>,
    pub stderr: Option<ArtifactRef>,
    pub detail: String,
}

/// A worker saw a cancellation.
#[derive(Debug, PartialEq, Eq)]
pub struct CancellationAcknowledged {
    pub assignment_id: String,
    pub attempt_id: String,
    pub already_terminal: bool,
}

/// A best-effort preview of command output.
#[derive(Debug, PartialEq, Eq)]
pub struct OutputChunk {
    pub attempt_id: String,
    pub stream: i32,
    pub byte_offset: u64,
    pub payload: Vec<u8>,
    pub display_sanitized: bool,
}

/// A free-form status line.
#[derive(Debug, PartialEq, Eq)]
pub struct WorkerStatus {
    pub detail: String,
}

/// The payload of a worker frame.
#[derive(Debug, PartialEq, Eq)]
pub enum WorkerMessage {
    Hello(WorkerHello),
    Heartbeat(Heartbeat),
    AssignmentAccepted(AssignmentAccepted),
    AssignmentRejected(AssignmentRejected),
    ExecutionStarted(ExecutionStarted),
    ExecutionFinished(ExecutionFinished),
    CancellationAcknowledged(CancellationAcknowledged),
    OutputChunk(OutputChunk),
    Status(WorkerStatus),
}

/// One frame from a worker.
#[derive(Debug, PartialEq, Eq)]
pub struct WorkerToServer {
    pub sequence: u64,
    pub acknowledges_server_through: u64,
    pub message_id: String,
    pub message: Option<WorkerMessage>,
}

/// Asks a worker to stop an attempt.
#[derive(Debug, PartialEq, Eq)]
pub struct CancelAttempt {
    pub attempt_id: String,
    pub reason: String,
}

pub ghost struct CancelAttemptView {
    pub attempt_id: Seq<char>,
    pub reason: Seq<char>,
}

impl View for CancelAttempt {
    type V = CancelAttemptView;

    open spec fn view(&self) -> CancelAttemptView {
        CancelAttemptView {
            attempt_id: self.attempt_id@,
            reason: self.reason@,
        }
    }
}

/// The payload of a server frame.
#[derive(Debug, PartialEq, Eq)]
pub enum ServerMessage {
    Assignment(Assignment),
    Cancel(CancelAttempt),
    Acknowledgement,
}

pub ghost enum ServerMessageView {
    Assignment(AssignmentView),
    Cancel(CancelAttemptView),
    Acknowledgement,
}

impl View for ServerMessage {
    type V = ServerMessageView;

    open spec fn view(&self) -> ServerMessageView {
        match *self {
            ServerMessage::Assignment(a) => ServerMessageView::Assignment(a@),
            ServerMessage::Cancel(c) => ServerMessageView::Cancel(c@),
            ServerMessage::Acknowledgement => ServerMessageView::Acknowledgement,
        }
    }
}

/// One frame to a worker.
#[derive(Debug, PartialEq, Eq)]
pub struct ServerToWorker {
    pub sequence: u64,
    pub acknowledges_worker_through: u64,
    pub message_id: String,
    pub message: Option<ServerMessage>,
}

pub ghost struct ServerToWorkerView {
    pub sequence: u64,
    pub acknowledges_worker_through: u64,
    pub message_id: Seq<char>,
    pub message: Option<ServerMessageView>,
}

impl View for ServerToWorker {
    type V = ServerToWorkerView;

    open spec fn view(&self) -> ServerToWorkerView {
        ServerToWorkerView {
            sequence: self.sequence,
            acknowledges_worker_through: self.acknowledges_worker_through,
            message_id: self.message_id@,
            message: match self.message {
                Some(m) => Some(m@),
                None => None,
            },
        }
    }
}

pub open spec fn optional_artifact_ref(value: Option<ArtifactRef>) -> Option<ArtifactRefView> {
    match value {
        Some(v) => Some(v@),
        None => None,
    }
}

pub(crate) fn copy_optional_artifact_ref(value: &Option<ArtifactRef>) -> (r: Option<ArtifactRef>)
    ensures
        optional_artifact_ref(r) == optional_artifact_ref(*value),
{
    match value {
        Some(v) => Some(v.clone()),
        None => None,
    }
}

pub open spec fn optional_execution_spec(value: Option<ExecutionSpec>) -> Option<ExecutionSpecView> {
    match value {
        Some(v) => Some(v@),
        None => None,
    }
}

pub(crate) fn copy_optional_execution_spec(value: &Option<ExecutionSpec>) -> (r: Option<ExecutionSpec>)
    ensures
        optional_execution_spec(r) == optional_execution_spec(*value),
{
    match value {
        Some(v) => Some(v.clone()),
        None => None,
    }
}

pub open spec fn environment_variable_views(values: Seq<EnvironmentVariable>) -> Seq<EnvironmentVariableView> {
    Seq::new(values.len(), |i: int| values[i]@)
}

pub(crate) fn copy_environment_variables(values: &Vec<EnvironmentVariable>) -> (r: Vec<EnvironmentVariable>)
    ensures
        environment_variable_views(r@) == environment_variable_views(values@),
{
    let mut out: Vec<EnvironmentVariable> = Vec::new();
    let mut i: usize = 0;
    while i < values.len()
        invariant
            i <= values@.len(),
            out@.len() == i,
            forall|k: int| 0 <= k < i ==> #[trigger] out@[k]@ == values@[k]@,
        decreases values@.len() - i,
    {
        out.push(values[i].clone());
        i += 1;
    }
    assert(environment_variable_views(out@) =~= environment_variable_views(values@));
    out
}

} // verus!
