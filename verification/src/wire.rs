//! Between wire messages and what the repository stores.
use crate::digest;
use crate::digest::Sha256Digest;
use crate::events;
use crate::events::{Event, EventView, Producer, ProducerEvent, ProducerEventView, ProducerView};
use crate::proto;
use crate::proto::v1;
use crate::proto::v1::{AssignmentView, ExecutionSpecView};
use crate::sanitizer;
use crate::storage;
use crate::storage::{
    ArtifactDescriptor, ArtifactDescriptorView, ArtifactIdentity, AssignmentContract, AssignmentContractView,
    AttemptOutcome, EnvironmentEntry, EnvironmentEntryView, ExecutionContract,
    ExecutionContractView, ExecutionKind, NetworkPolicy, ResourceContract, WorkerCapabilities,
    WorkerCapabilitiesView, WorkerRegistration, WorkerRegistrationView,
};
use crate::text;
use vstd::prelude::*;
use vstd::string::*;

verus! {

/// The stored kind of a wire executor; unspecified ones have none.
pub open spec fn execution_kind(kind: v1::ExecutorKind) -> Option<ExecutionKind> {
    match kind {
        v1::ExecutorKind::Unspecified => None,
        v1::ExecutorKind::Container => Some(ExecutionKind::Container),
        v1::ExecutorKind::CudaFixture => Some(ExecutionKind::CudaFixture),
        v1::ExecutorKind::AscendFixture => Some(ExecutionKind::AscendFixture),
        v1::ExecutorKind::AscendBuild => Some(ExecutionKind::AscendBuild),
        v1::ExecutorKind::CudaCorrectness => Some(ExecutionKind::CudaCorrectness),
        v1::ExecutorKind::AscendCorrectness => Some(ExecutionKind::AscendCorrectness),
    }
}

/// The wire executor of a stored kind.
pub open spec fn executor_kind(kind: ExecutionKind) -> v1::ExecutorKind {
    match kind {
        ExecutionKind::Container => v1::ExecutorKind::Container,
        ExecutionKind::CudaFixture => v1::ExecutorKind::CudaFixture,
        ExecutionKind::AscendFixture => v1::ExecutorKind::AscendFixture,
        ExecutionKind::AscendBuild => v1::ExecutorKind::AscendBuild,
        ExecutionKind::CudaCorrectness => v1::ExecutorKind::CudaCorrectness,
        ExecutionKind::AscendCorrectness => v1::ExecutorKind::AscendCorrectness,
    }
}

fn to_execution_kind(kind: v1::ExecutorKind) -> (r: Option<ExecutionKind>)
    ensures
        r == execution_kind(kind),
{
    match kind {
        v1::ExecutorKind::Unspecified => None,
        v1::ExecutorKind::Container => Some(ExecutionKind::Container),
        v1::ExecutorKind::CudaFixture => Some(ExecutionKind::CudaFixture),
        v1::ExecutorKind::AscendFixture => Some(ExecutionKind::AscendFixture),
        v1::ExecutorKind::AscendBuild => Some(ExecutionKind::AscendBuild),
        v1::ExecutorKind::CudaCorrectness => Some(ExecutionKind::CudaCorrectness),
        v1::ExecutorKind::AscendCorrectness => Some(ExecutionKind::AscendCorrectness),
    }
}

fn to_executor_kind(kind: ExecutionKind) -> (r: v1::ExecutorKind)
    ensures
        r == executor_kind(kind),
{
    match kind {
        ExecutionKind::Container => v1::ExecutorKind::Container,
        ExecutionKind::CudaFixture => v1::ExecutorKind::CudaFixture,
        ExecutionKind::AscendFixture => v1::ExecutorKind::AscendFixture,
        ExecutionKind::AscendBuild => v1::ExecutorKind::AscendBuild,
        ExecutionKind::CudaCorrectness => v1::ExecutorKind::CudaCorrectness,
        ExecutionKind::AscendCorrectness => v1::ExecutorKind::AscendCorrectness,
    }
}

/// The stored network policy of a wire number.
pub open spec fn network_policy(number: i32) -> Option<NetworkPolicy> {
    match v1::NetworkPolicy::decoded(number) {
        v1::NetworkPolicy::Unspecified => None,
        v1::NetworkPolicy::Disabled => Some(NetworkPolicy::Disabled),
        v1::NetworkPolicy::DependencyFetch => Some(NetworkPolicy::DependencyFetch),
    }
}

fn to_network_policy(number: i32) -> (r: Option<NetworkPolicy>)
    ensures
        r == network_policy(number),
{
    match v1::NetworkPolicy::decode(number) {
        v1::NetworkPolicy::Unspecified => None,
        v1::NetworkPolicy::Disabled => Some(NetworkPolicy::Disabled),
        v1::NetworkPolicy::DependencyFetch => Some(NetworkPolicy::DependencyFetch),
    }
}

/// The wire number of a stored network policy.
pub open spec fn network_number(policy: NetworkPolicy) -> i32 {
    match policy {
        NetworkPolicy::Disabled => v1::NetworkPolicy::Disabled.code(),
        NetworkPolicy::DependencyFetch => v1::NetworkPolicy::DependencyFetch.code(),
    }
}

fn to_network_number(policy: NetworkPolicy) -> (r: i32)
    ensures
        r == network_number(policy),
{
    match policy {
        NetworkPolicy::Disabled => v1::NetworkPolicy::Disabled.number(),
        NetworkPolicy::DependencyFetch => v1::NetworkPolicy::DependencyFetch.number(),
    }
}

/// The stored outcome of a wire number.
pub open spec fn attempt_outcome(number: i32) -> AttemptOutcome {
    match v1::AttemptOutcome::decoded(number) {
        v1::AttemptOutcome::Unspecified => AttemptOutcome::Other(number),
        v1::AttemptOutcome::Succeeded => AttemptOutcome::Succeeded,
        v1::AttemptOutcome::CandidateFailed => AttemptOutcome::CandidateFailed,
        v1::AttemptOutcome::TimedOut => AttemptOutcome::TimedOut,
    }
}

pub(crate) fn to_attempt_outcome(number: i32) -> (r: AttemptOutcome)
    ensures
        r == attempt_outcome(number),
{
    match v1::AttemptOutcome::decode(number) {
        v1::AttemptOutcome::Unspecified => AttemptOutcome::Other(number),
        v1::AttemptOutcome::Succeeded => AttemptOutcome::Succeeded,
        v1::AttemptOutcome::CandidateFailed => AttemptOutcome::CandidateFailed,
        v1::AttemptOutcome::TimedOut => AttemptOutcome::TimedOut,
    }
}

/// Reported outcomes are told apart by their numbers, known or not.
pub proof fn outcomes_keep_their_numbers(a: i32, b: i32)
    requires
        attempt_outcome(a) == attempt_outcome(b),
    ensures
        a == b,
{
}

/// Limits whose network policy is known, or none at all.
pub open spec fn limits_known(limits: Option<v1::ResourceLimits>) -> bool {
    limits matches Some(l) ==> network_policy(l.network) is Some
}

/// An assignment that has all that a contract holds.
pub open spec fn convertible(a: AssignmentView) -> bool {
    &&& !text::blank(a.attempt_id)
    &&& a.execution matches Some(execution)
    &&& execution_kind(v1::ExecutorKind::decoded(execution.executor_kind)) is Some
    &&& execution.bundle matches Some(bundle) && digest::canonical(bundle.digest)
    &&& execution.image matches Some(image) && digest::canonical(image.digest)
    &&& limits_known(execution.limits)
}

pub open spec fn descriptor_of(a: v1::ArtifactRefView) -> ArtifactDescriptorView {
    ArtifactDescriptorView {
        digest: a.digest,
        size_bytes: a.size_bytes,
        media_type: a.media_type,
    }
}

pub open spec fn artifact_of(d: ArtifactDescriptorView) -> v1::ArtifactRefView {
    v1::ArtifactRefView {
        digest: d.digest,
        size_bytes: d.size_bytes,
        media_type: d.media_type,
    }
}

pub open spec fn resources_of(limits: Option<v1::ResourceLimits>) -> Option<ResourceContract> {
    match limits {
        None => None,
        Some(l) => Some(
            ResourceContract {
                cpu_millis: l.cpu_millis,
                memory_bytes: l.memory_bytes,
                disk_bytes: l.disk_bytes,
                process_count: l.process_count,
                output_bytes: l.output_bytes,
                device_count: l.device_count,
                network: network_policy(l.network)->0,
            },
        ),
    }
}

pub open spec fn limits_of(resources: Option<ResourceContract>) -> Option<v1::ResourceLimits> {
    match resources {
        None => None,
        Some(l) => Some(
            v1::ResourceLimits {
                cpu_millis: l.cpu_millis,
                memory_bytes: l.memory_bytes,
                disk_bytes: l.disk_bytes,
                process_count: l.process_count,
                output_bytes: l.output_bytes,
                device_count: l.device_count,
                network: network_number(l.network),
            },
        ),
    }
}

pub open spec fn entries_of(environment: Seq<v1::EnvironmentVariableView>) -> Seq<
    EnvironmentEntryView,
> {
    Seq::new(
        environment.len(),
        |i: int| EnvironmentEntryView { name: environment[i].name, value: environment[i].value },
    )
}

pub open spec fn variables_of(entries: Seq<EnvironmentEntryView>) -> Seq<
    v1::EnvironmentVariableView,
> {
    Seq::new(
        entries.len(),
        |i: int| v1::EnvironmentVariableView { name: entries[i].name, value: entries[i].value },
    )
}

/// The stored contract of a convertible assignment.
pub open spec fn contract_of(a: AssignmentView) -> AssignmentContractView {
    let e = a.execution->0;
    AssignmentContractView {
        assignment_id: a.assignment_id,
        attempt_id: a.attempt_id,
        attempt_number: a.attempt_number,
        idempotency_key: a.idempotency_key,
        task_id: a.task_id,
        candidate_id: a.candidate_id,
        execution: ExecutionContractView {
            executor_kind: execution_kind(v1::ExecutorKind::decoded(e.executor_kind))->0,
            argv: e.argv,
            working_directory: e.working_directory,
            environment: entries_of(e.environment),
            timeout_ms: e.timeout_ms,
            bundle: descriptor_of(e.bundle->0),
            image: descriptor_of(e.image->0),
            limits: resources_of(e.limits),
        },
        required_features: a.required_features,
    }
}

/// The wire form of a stored contract.
pub open spec fn assignment_of(c: AssignmentContractView) -> AssignmentView {
    AssignmentView {
        assignment_id: c.assignment_id,
        attempt_id: c.attempt_id,
        attempt_number: c.attempt_number,
        idempotency_key: c.idempotency_key,
        task_id: c.task_id,
        candidate_id: c.candidate_id,
        execution: Some(
            ExecutionSpecView {
                executor_kind: executor_kind(c.execution.executor_kind).code(),
                argv: c.execution.argv,
                working_directory: c.execution.working_directory,
                environment: variables_of(c.execution.environment),
                timeout_ms: c.execution.timeout_ms,
                bundle: Some(artifact_of(c.execution.bundle)),
                image: Some(artifact_of(c.execution.image)),
                limits: limits_of(c.execution.limits),
            },
        ),
        required_features: c.required_features,
    }
}

/// A stored contract comes back from its wire form.
pub proof fn contracts_survive_the_wire(c: AssignmentContractView)
    ensures
        contract_of(assignment_of(c)) == c,
{
    assert(entries_of(variables_of(c.execution.environment)) =~= c.execution.environment);
}

/// A convertible assignment comes back from its stored contract.
pub proof fn assignments_survive_storage(a: AssignmentView)
    requires
        convertible(a),
    ensures
        assignment_of(contract_of(a)) == a,
{
    let e = a.execution->0;
    assert(variables_of(entries_of(e.environment)) =~= e.environment);
}

/// A valid assignment with known limits is convertible.
pub proof fn valid_assignments_are_convertible(a: AssignmentView)
    requires
        proto::assignment_problem(a) is None,
        a.execution matches Some(execution) ==> limits_known(execution.limits),
    ensures
        convertible(a),
{
}

/// An artifact reference as it came.
pub fn artifact_to_identity(artifact: &v1::ArtifactRef) -> (r: ArtifactIdentity)
    ensures
        r@ == descriptor_of(artifact@),
{
    ArtifactIdentity {
        digest: artifact.digest.clone(),
        size_bytes: artifact.size_bytes,
        media_type: artifact.media_type.clone(),
    }
}

/// The stored form of an artifact reference whose digest was checked.
fn to_descriptor(artifact: &v1::ArtifactRef) -> (r: ArtifactDescriptor)
    requires
        digest::canonical(artifact.digest@),
    ensures
        r@ == descriptor_of(artifact@),
{
    match Sha256Digest::parse(artifact.digest.as_str()) {
        Some(digest) => ArtifactDescriptor {
            digest,
            size_bytes: artifact.size_bytes,
            media_type: artifact.media_type.clone(),
        },
        None => {
            assert(false);
            vstd::pervasive::unreached()
        },
    }
}

pub fn identity_to_artifact(identity: &ArtifactDescriptor) -> (r: v1::ArtifactRef)
    ensures
        r@ == artifact_of(identity@),
{
    v1::ArtifactRef {
        digest: identity.digest.as_str().to_owned(),
        size_bytes: identity.size_bytes,
        media_type: identity.media_type.clone(),
    }
}

fn entries(environment: &Vec<v1::EnvironmentVariable>) -> (r: Vec<EnvironmentEntry>)
    ensures
        storage::environment_entry_views(r@) == entries_of(
            v1::environment_variable_views(environment@),
        ),
{
    let mut out: Vec<EnvironmentEntry> = Vec::new();
    let mut i: usize = 0;
    while i < environment.len()
        invariant
            i <= environment@.len(),
            out@.len() == i,
            forall|k: int|
                0 <= k < i ==> (#[trigger] out@[k]).name@ == environment@[k].name@
                    && out@[k].value@ == environment@[k].value@,
        decreases environment@.len() - i,
    {
        let entry = &environment[i];
        out.push(EnvironmentEntry { name: entry.name.clone(), value: entry.value.clone() });
        i += 1;
    }
    assert(storage::environment_entry_views(out@) =~= entries_of(
        v1::environment_variable_views(environment@),
    ));
    out
}

fn variables(environment: &Vec<EnvironmentEntry>) -> (r: Vec<v1::EnvironmentVariable>)
    ensures
        v1::environment_variable_views(r@) == variables_of(
            storage::environment_entry_views(environment@),
        ),
{
    let mut out: Vec<v1::EnvironmentVariable> = Vec::new();
    let mut i: usize = 0;
    while i < environment.len()
        invariant
            i <= environment@.len(),
            out@.len() == i,
            forall|k: int|
                0 <= k < i ==> (#[trigger] out@[k]).name@ == environment@[k].name@
                    && out@[k].value@ == environment@[k].value@,
        decreases environment@.len() - i,
    {
        let entry = &environment[i];
        out.push(v1::EnvironmentVariable { name: entry.name.clone(), value: entry.value.clone() });
        i += 1;
    }
    assert(v1::environment_variable_views(out@) =~= variables_of(
        storage::environment_entry_views(environment@),
    ));
    out
}

fn resources(limits: &Option<v1::ResourceLimits>) -> (r: Option<ResourceContract>)
    requires
        limits_known(*limits),
    ensures
        r == resources_of(*limits),
{
    match limits {
        None => None,
        Some(l) => match to_network_policy(l.network) {
            Some(network) => Some(
                ResourceContract {
                    cpu_millis: l.cpu_millis,
                    memory_bytes: l.memory_bytes,
                    disk_bytes: l.disk_bytes,
                    process_count: l.process_count,
                    output_bytes: l.output_bytes,
                    device_count: l.device_count,
                    network,
                },
            ),
            None => None,
        },
    }
}

fn limits(resources: &Option<ResourceContract>) -> (r: Option<v1::ResourceLimits>)
    ensures
        r == limits_of(*resources),
{
    match resources {
        None => None,
        Some(l) => Some(
            v1::ResourceLimits {
                cpu_millis: l.cpu_millis,
                memory_bytes: l.memory_bytes,
                disk_bytes: l.disk_bytes,
                process_count: l.process_count,
                output_bytes: l.output_bytes,
                device_count: l.device_count,
                network: to_network_number(l.network),
            },
        ),
    }
}

/// The stored contract of an assignment.
pub fn assignment_to_contract(assignment: &v1::Assignment) -> (r: AssignmentContract)
    requires
        convertible(assignment@),
    ensures
        r@ == contract_of(assignment@),
{
    match &assignment.execution {
        Some(execution) => match (
            to_execution_kind(v1::ExecutorKind::decode(execution.executor_kind)),
            &execution.bundle,
            &execution.image,
        ) {
            (Some(executor_kind), Some(bundle), Some(image)) => AssignmentContract {
                assignment_id: assignment.assignment_id.clone(),
                attempt_id: assignment.attempt_id.clone(),
                attempt_number: assignment.attempt_number,
                idempotency_key: assignment.idempotency_key.clone(),
                task_id: assignment.task_id.clone(),
                candidate_id: assignment.candidate_id.clone(),
                execution: ExecutionContract {
                    executor_kind,
                    argv: text::copy_all(&execution.argv),
                    working_directory: execution.working_directory.clone(),
                    environment: entries(&execution.environment),
                    timeout_ms: execution.timeout_ms,
                    bundle: to_descriptor(bundle),
                    image: to_descriptor(image),
                    limits: resources(&execution.limits),
                },
                required_features: text::copy_all(&assignment.required_features),
            },
            _ => {
                assert(false);
                vstd::pervasive::unreached()
            },
        },
        None => {
            assert(false);
            vstd::pervasive::unreached()
        },
    }
}

/// The wire form of a stored contract.
pub fn contract_to_assignment(contract: &AssignmentContract) -> (r: v1::Assignment)
    ensures
        r@ == assignment_of(contract@),
{
    v1::Assignment {
        assignment_id: contract.assignment_id.clone(),
        attempt_id: contract.attempt_id.clone(),
        attempt_number: contract.attempt_number,
        idempotency_key: contract.idempotency_key.clone(),
        task_id: contract.task_id.clone(),
        candidate_id: contract.candidate_id.clone(),
        execution: Some(
            v1::ExecutionSpec {
                executor_kind: to_executor_kind(contract.execution.executor_kind).number(),
                argv: text::copy_all(&contract.execution.argv),
                working_directory: contract.execution.working_directory.clone(),
                environment: variables(&contract.execution.environment),
                timeout_ms: contract.execution.timeout_ms,
                bundle: Some(identity_to_artifact(&contract.execution.bundle)),
                image: Some(identity_to_artifact(&contract.execution.image)),
                limits: limits(&contract.execution.limits),
            },
        ),
        required_features: text::copy_all(&contract.required_features),
    }
}

/// The stored registration of a worker that said hello with its capabilities.
pub open spec fn registration_of(hello: v1::WorkerHello) -> WorkerRegistrationView {
    let c = hello.capabilities->0;
    WorkerRegistrationView {
        protocol_major: hello.protocol_major,
        protocol_minor: hello.protocol_minor,
        worker_id: hello.worker_id@,
        instance_id: hello.instance_id@,
        worker_version: hello.worker_version@,
        features: text::views(hello.features@),
        capabilities: WorkerCapabilitiesView {
            backend: c.backend,
            architecture: c.architecture@,
            device_count: c.device_count,
            max_concurrency: c.max_concurrency,
            driver_version: c.driver_version@,
            toolkit_version: c.toolkit_version@,
            container_runtime: c.container_runtime@,
        },
    }
}

/// The stored registration of a worker whose hello was checked.
pub fn hello_to_registration(hello: &v1::WorkerHello) -> (r: WorkerRegistration)
    requires
        hello.capabilities is Some,
    ensures
        r@ == registration_of(*hello),
{
    match &hello.capabilities {
        Some(c) => WorkerRegistration {
            protocol_major: hello.protocol_major,
            protocol_minor: hello.protocol_minor,
            worker_id: hello.worker_id.clone(),
            instance_id: hello.instance_id.clone(),
            worker_version: hello.worker_version.clone(),
            features: text::copy_all(&hello.features),
            capabilities: WorkerCapabilities {
                backend: c.backend,
                architecture: c.architecture.clone(),
                device_count: c.device_count,
                max_concurrency: c.max_concurrency,
                driver_version: c.driver_version.clone(),
                toolkit_version: c.toolkit_version.clone(),
                container_runtime: c.container_runtime.clone(),
            },
        },
        None => {
            assert(false);
            vstd::pervasive::unreached()
        },
    }
}

/// The identity that a durable worker message must carry: its kind and its attempt.
pub open spec fn durable_message_id(message: Option<v1::WorkerMessage>) -> Option<Seq<char>> {
    match message {
        Some(v1::WorkerMessage::AssignmentAccepted(m)) => Some(
            "assignment-accepted:"@ + m.attempt_id@,
        ),
        Some(v1::WorkerMessage::AssignmentRejected(m)) => Some(
            "assignment-rejected:"@ + m.attempt_id@,
        ),
        Some(v1::WorkerMessage::ExecutionStarted(m)) => Some("execution-started:"@ + m.attempt_id@),
        Some(v1::WorkerMessage::ExecutionFinished(m)) => Some(
            "execution-finished:"@ + m.attempt_id@,
        ),
        Some(v1::WorkerMessage::CancellationAcknowledged(m)) => Some(
            "cancellation-acknowledged:"@ + m.attempt_id@,
        ),
        _ => None,
    }
}

/// The identity that a durable worker message must carry; passing messages have none.
pub fn expected_worker_message_id(message: &Option<v1::WorkerMessage>) -> (r: Option<String>)
    ensures
        text::optional(r) == durable_message_id(*message),
{
    match message {
        Some(v1::WorkerMessage::AssignmentAccepted(m)) => Some(
            text::concat("assignment-accepted:", m.attempt_id.as_str()),
        ),
        Some(v1::WorkerMessage::AssignmentRejected(m)) => Some(
            text::concat("assignment-rejected:", m.attempt_id.as_str()),
        ),
        Some(v1::WorkerMessage::ExecutionStarted(m)) => Some(
            text::concat("execution-started:", m.attempt_id.as_str()),
        ),
        Some(v1::WorkerMessage::ExecutionFinished(m)) => Some(
            text::concat("execution-finished:", m.attempt_id.as_str()),
        ),
        Some(v1::WorkerMessage::CancellationAcknowledged(m)) => Some(
            text::concat("cancellation-acknowledged:", m.attempt_id.as_str()),
        ),
        _ => None,
    }
}

/// The event form of an artifact reference.
pub open spec fn shown_artifact(
    artifact: v1::ArtifactRefView,
    reference: Seq<char>,
) -> events::ArtifactRefView {
    events::ArtifactRefView {
        digest: artifact.digest,
        media_type: artifact.media_type,
        size_bytes: artifact.size_bytes,
        reference,
    }
}

pub fn event_artifact(artifact: &v1::ArtifactRef, reference: &str) -> (r: events::ArtifactRef)
    ensures
        r@ == shown_artifact(artifact@, reference@),
{
    events::ArtifactRef {
        digest: artifact.digest.clone(),
        media_type: artifact.media_type.clone(),
        size_bytes: artifact.size_bytes,
        reference: reference.to_owned(),
    }
}

/// The frame in which the controller shows what a worker did for an attempt: the event with
/// credentials and terminal controls taken out, bound to the task and the attempt.
pub open spec fn worker_frame(
    contract: AssignmentContractView,
    worker_id: Seq<char>,
    at_ms: u64,
    event: EventView,
) -> ProducerEventView {
    ProducerEventView {
        task_id: Some(contract.task_id),
        operation_id: Some(contract.attempt_id),
        ..events::emitted(
            contract.task_id,
            ProducerView { component: "alloyport-worker"@, instance: worker_id },
            sanitizer::redacted(event),
            at_ms,
        )
    }
}

/// The frame in which the controller shows what a worker did for an attempt.
pub fn worker_event(
    contract: &AssignmentContract,
    worker_id: &str,
    emitted_at_unix_ms: u64,
    event: Event,
) -> (r: ProducerEvent)
    ensures
        r@ == worker_frame(contract@, worker_id@, emitted_at_unix_ms, event@),
{
    let event = sanitizer::redact_worker_event(event);
    let mut frame = ProducerEvent::emitted_at(
        contract.task_id.as_str(),
        Producer::new("alloyport-worker", worker_id),
        event,
        emitted_at_unix_ms,
    );
    frame.task_id = Some(contract.task_id.clone());
    frame.operation_id = Some(contract.attempt_id.clone());
    frame
}

/// Each kind of execution stands for itself on the wire, and only the unspecified one is refused.
pub proof fn kinds_stand_for_themselves(kind: v1::ExecutorKind)
    ensures
        execution_kind(kind) is None <==> kind == v1::ExecutorKind::Unspecified,
        execution_kind(v1::ExecutorKind::Container) == Some(ExecutionKind::Container),
        execution_kind(v1::ExecutorKind::CudaFixture) == Some(ExecutionKind::CudaFixture),
        execution_kind(v1::ExecutorKind::AscendFixture) == Some(ExecutionKind::AscendFixture),
        execution_kind(v1::ExecutorKind::AscendBuild) == Some(ExecutionKind::AscendBuild),
        execution_kind(v1::ExecutorKind::CudaCorrectness) == Some(ExecutionKind::CudaCorrectness),
        execution_kind(v1::ExecutorKind::AscendCorrectness) == Some(
            ExecutionKind::AscendCorrectness,
        ),
        execution_kind(kind) matches Some(stored) ==> executor_kind(stored) == kind,
{
}

/// Every report on an attempt has an identity made of its kind and its attempt; what is no such
/// report has none.
pub proof fn reports_are_identified(message: v1::WorkerMessage)
    ensures
        durable_message_id(None) is None,
        match message {
            v1::WorkerMessage::AssignmentAccepted(m) => durable_message_id(Some(message)) == Some(
                "assignment-accepted:"@ + m.attempt_id@,
            ),
            v1::WorkerMessage::AssignmentRejected(m) => durable_message_id(Some(message)) == Some(
                "assignment-rejected:"@ + m.attempt_id@,
            ),
            v1::WorkerMessage::ExecutionStarted(m) => durable_message_id(Some(message)) == Some(
                "execution-started:"@ + m.attempt_id@,
            ),
            v1::WorkerMessage::ExecutionFinished(m) => durable_message_id(Some(message)) == Some(
                "execution-finished:"@ + m.attempt_id@,
            ),
            v1::WorkerMessage::CancellationAcknowledged(m) => durable_message_id(Some(message))
                == Some("cancellation-acknowledged:"@ + m.attempt_id@),
            _ => durable_message_id(Some(message)) is None,
        },
{
}

/// An artifact is shown as it was reported, under the reference it was given.
pub proof fn artifacts_are_shown_as_reported(artifact: v1::ArtifactRefView, reference: Seq<char>)
    ensures
        ({
            let shown = shown_artifact(artifact, reference);
            &&& shown.digest == artifact.digest
            &&& shown.media_type == artifact.media_type
            &&& shown.size_bytes == artifact.size_bytes
            &&& shown.reference == reference
        }),
{
}

/// An assignment can be stored exactly when its attempt is named, its kind is known, both its
/// artifacts have a digest, and its limits name a network policy where there are any.
pub proof fn assignments_are_stored(a: AssignmentView)
    ensures
        convertible(a) <==> {
            &&& !text::blank(a.attempt_id)
            &&& a.execution is Some
            &&& v1::ExecutorKind::decoded(a.execution->0.executor_kind)
                != v1::ExecutorKind::Unspecified
            &&& a.execution->0.bundle matches Some(bundle) && digest::canonical(bundle.digest)
            &&& a.execution->0.image matches Some(image) && digest::canonical(image.digest)
            &&& a.execution->0.limits matches Some(l) ==> v1::NetworkPolicy::decoded(l.network)
                != v1::NetworkPolicy::Unspecified
        },
{
}

} // verus!
