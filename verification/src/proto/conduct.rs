//! Which messages are valid.
use super::v1;
use crate::digest;
use crate::storage::{AssignmentContractView, AttemptOutcome, ExecutionKind, NetworkPolicy};
use crate::text;
use crate::wire;
use vstd::prelude::*;

verus! {

/// A path stays inside the sandbox: relative, and without a segment that goes up.
pub open spec fn stays_inside(path: Seq<char>) -> bool {
    &&& path.len() > 0
    &&& path[0] != '/'
    &&& forall|i: int|
        0 <= i && i + 2 <= path.len() && #[trigger] path[i] == '.' && path[i + 1] == '.' ==> (i > 0
            && path[i - 1] != '/') || (i + 2 < path.len() && path[i + 2] != '/')
}

/// An assignment is valid exactly where everything in it is named, its executor is known, it runs
/// something, inside its sandbox, and its bundle and image are named by their digests.
pub proof fn complete_assignments_are_valid(a: v1::AssignmentView)
    ensures
        super::assignment_problem(a) is None <==> {
            &&& !text::blank(a.assignment_id)
            &&& !text::blank(a.attempt_id)
            &&& !text::blank(a.idempotency_key)
            &&& !text::blank(a.task_id)
            &&& !text::blank(a.candidate_id)
            &&& a.execution is Some
            &&& 1 <= a.execution->0.executor_kind <= 6
            &&& a.execution->0.argv.len() > 0
            &&& a.execution->0.argv[0].len() > 0
            &&& stays_inside(a.execution->0.working_directory)
            &&& a.execution->0.bundle is Some
            &&& digest::canonical(a.execution->0.bundle->0.digest)
            &&& a.execution->0.image is Some
            &&& digest::canonical(a.execution->0.image->0.digest)
        },
{
    if a.execution is Some {
        let path = a.execution->0.working_directory;
        if super::leaves_sandbox(path) && path.len() > 0 && path[0] != '/' {
            let i = choose|i: int| super::parent_segment(path, i);
            assert(path[i] == '.' && path[i + 1] == '.');
        }
        if !super::leaves_sandbox(path) {
            assert forall|i: int|
                0 <= i && i + 2 <= path.len() && #[trigger] path[i] == '.' && path[i + 1]
                    == '.' implies (i > 0 && path[i - 1] != '/') || (i + 2 < path.len() && path[i
                + 2] != '/') by {
                assert(!super::parent_segment(path, i));
            }
        }
    }
}

/// The first fault of an assignment is named by its field.
pub proof fn faults_are_named(a: v1::AssignmentView)
    ensures
        text::blank(a.assignment_id) ==> super::assignment_problem(a)->0.field
            == "assignment.assignment_id"@,
        !text::blank(a.assignment_id) && text::blank(a.attempt_id) ==> super::assignment_problem(
            a,
        )->0.field == "assignment.attempt_id"@,
        !text::blank(a.assignment_id) && !text::blank(a.attempt_id) && text::blank(
            a.idempotency_key,
        ) ==> super::assignment_problem(a)->0.field == "assignment.idempotency_key"@,
        !text::blank(a.assignment_id) && !text::blank(a.attempt_id) && !text::blank(
            a.idempotency_key,
        ) && text::blank(a.task_id) ==> super::assignment_problem(a)->0.field
            == "assignment.task_id"@,
        !text::blank(a.assignment_id) && !text::blank(a.attempt_id) && !text::blank(
            a.idempotency_key,
        ) && !text::blank(a.task_id) && text::blank(a.candidate_id) ==> super::assignment_problem(
            a,
        )->0.field == "assignment.candidate_id"@,
        !text::blank(a.assignment_id) && !text::blank(a.attempt_id) && !text::blank(
            a.idempotency_key,
        ) && !text::blank(a.task_id) && !text::blank(a.candidate_id) && a.execution is None
            ==> super::assignment_problem(a)->0.field == "assignment.execution"@,
{
}

/// The devices of a worker are named in full, and no two share an identity or a serial number.
pub open spec fn devices_are_told_apart(devices: Seq<v1::AcceleratorDevice>, n: int) -> bool {
    &&& forall|i: int|
        0 <= i < n ==> !text::blank((#[trigger] devices[i]).device_id@) && !text::blank(
            devices[i].product_name@,
        ) && !text::blank(devices[i].serial_number@) && !text::blank(devices[i].firmware_version@)
    &&& forall|i: int, j: int|
        0 <= j < i < n ==> (#[trigger] devices[i]).device_id@ != (#[trigger] devices[j]).device_id@
            && devices[i].serial_number@ != devices[j].serial_number@
}

proof fn faultless_devices(devices: Seq<v1::AcceleratorDevice>, n: nat)
    requires
        n <= devices.len(),
    ensures
        super::devices_problem(devices, n) is None <==> devices_are_told_apart(devices, n as int),
    decreases n,
{
    if n > 0 {
        faultless_devices(devices, (n - 1) as nat);
        let i = n - 1;
        if devices_are_told_apart(devices, n as int) {
            assert(devices_are_told_apart(devices, i as int));
            assert forall|j: int| 0 <= j < i implies #[trigger] devices[j].device_id@
                != devices[i as int].device_id@ && devices[j].serial_number@
                != devices[i as int].serial_number@ by {}
            assert(super::device_problem(devices, i as int) is None);
        }
        if super::devices_problem(devices, n) is None {
            assert(super::device_problem(devices, i as int) is None);
            assert forall|x: int, y: int| 0 <= y < x < n implies (#[trigger] devices[x]).device_id@
                != (#[trigger] devices[y]).device_id@ && devices[x].serial_number@
                != devices[y].serial_number@ by {
                if x == i {
                    assert(devices[y].device_id@ != devices[x].device_id@);
                }
            }
        }
    }
}

/// A worker offers work that is fixed to Ascend devices.
pub open spec fn offers_ascend(features: Seq<Seq<char>>) -> bool {
    features.contains("ascend-fixture-v1"@) || features.contains("ascend-build-v1"@)
        || features.contains("ascend-reduction-correctness-v1"@)
}

/// A hello is valid exactly where it speaks the present major version, names the worker, and its
/// capabilities are known, positive, told apart and fit for what it offers.
pub proof fn complete_hellos_are_valid(hello: v1::WorkerHello)
    ensures
        super::hello_problem(hello) is None <==> {
            let c = hello.capabilities->0;
            let features = text::views(hello.features@);
            &&& hello.protocol_major == 1
            &&& !text::blank(hello.worker_id@)
            &&& !text::blank(hello.instance_id@)
            &&& !text::blank(hello.worker_version@)
            &&& hello.capabilities is Some
            &&& c.backend == 1 || c.backend == 2
            &&& c.device_count > 0
            &&& c.max_concurrency > 0
            &&& c.devices@.len() == 0 || c.devices@.len() == c.device_count
            &&& devices_are_told_apart(c.devices@, c.devices@.len() as int)
            &&& offers_ascend(features) ==> c.backend == 2 && c.devices@.len() == c.device_count
            &&& features.contains("cuda-reduction-correctness-v1"@) ==> c.backend == 1
        },
{
    if hello.capabilities is Some {
        let c = hello.capabilities->0;
        let features = text::views(hello.features@);
        faultless_devices(c.devices@, c.devices@.len());
        if super::offers_fixed_ascend(features) {
            let i = choose|i: int|
                0 <= i < features.len() && super::fixed_ascend(#[trigger] features[i]);
            assert(features.contains(features[i]));
        }
        if offers_ascend(features) {
            let name = if features.contains("ascend-fixture-v1"@) {
                "ascend-fixture-v1"@
            } else if features.contains("ascend-build-v1"@) {
                "ascend-build-v1"@
            } else {
                "ascend-reduction-correctness-v1"@
            };
            let i = choose|i: int| 0 <= i < features.len() && features[i] == name;
            assert(super::fixed_ascend(features[i]));
        }
    }
}

/// What a heartbeat tells of devices: each once, with a known health and possible numbers.
pub open spec fn observations_are_possible(devices: Seq<v1::DeviceObservation>, n: int) -> bool {
    &&& forall|i: int|
        0 <= i < n ==> {
            &&& !text::blank((#[trigger] devices[i]).device_id@)
            &&& devices[i].health == 1 || devices[i].health == 2
            &&& devices[i].utilization_percent <= 100
            &&& devices[i].memory_used_bytes <= devices[i].memory_total_bytes
            &&& vstd::utf8::encode_utf8(devices[i].detail@).len() <= 1024
        }
    &&& forall|i: int, j: int|
        0 <= j < i < n ==> (#[trigger] devices[i]).device_id@ != (#[trigger] devices[j]).device_id@
}

/// What a heartbeat tells of held devices: each attempt holds one, and no device is held twice.
pub open spec fn leases_are_possible(leases: Seq<v1::DeviceLease>, n: int) -> bool {
    &&& forall|i: int|
        0 <= i < n ==> !text::blank((#[trigger] leases[i]).attempt_id@) && !text::blank(
            leases[i].device_id@,
        )
    &&& forall|i: int, j: int|
        0 <= j < i < n ==> (#[trigger] leases[i]).attempt_id@ != (#[trigger] leases[j]).attempt_id@
            && leases[i].device_id@ != leases[j].device_id@
}

proof fn faultless_observations(devices: Seq<v1::DeviceObservation>, n: nat)
    requires
        n <= devices.len(),
    ensures
        super::observations_problem(devices, n) is None <==> observations_are_possible(
            devices,
            n as int,
        ),
    decreases n,
{
    if n > 0 {
        faultless_observations(devices, (n - 1) as nat);
        let i = n - 1;
        if observations_are_possible(devices, n as int) {
            assert(observations_are_possible(devices, i as int));
            assert forall|j: int| 0 <= j < i implies #[trigger] devices[j].device_id@
                != devices[i as int].device_id@ by {}
            assert(super::observation_problem(devices, i as int) is None);
        }
        if super::observations_problem(devices, n) is None {
            assert(super::observation_problem(devices, i as int) is None);
            assert forall|x: int, y: int| 0 <= y < x < n implies (#[trigger] devices[x]).device_id@
                != (#[trigger] devices[y]).device_id@ by {
                if x == i {
                    assert(devices[y].device_id@ != devices[x].device_id@);
                }
            }
        }
    }
}

proof fn faultless_leases(leases: Seq<v1::DeviceLease>, n: nat)
    requires
        n <= leases.len(),
    ensures
        super::leases_problem(leases, n) is None <==> leases_are_possible(leases, n as int),
    decreases n,
{
    if n > 0 {
        faultless_leases(leases, (n - 1) as nat);
        let i = n - 1;
        if leases_are_possible(leases, n as int) {
            assert(leases_are_possible(leases, i as int));
            assert forall|j: int| 0 <= j < i implies #[trigger] leases[j].attempt_id@
                != leases[i as int].attempt_id@ && leases[j].device_id@
                != leases[i as int].device_id@ by {}
            assert(super::lease_problem(leases, i as int) is None);
        }
        if super::leases_problem(leases, n) is None {
            assert(super::lease_problem(leases, i as int) is None);
            assert forall|x: int, y: int| 0 <= y < x < n implies (#[trigger] leases[x]).attempt_id@
                != (#[trigger] leases[y]).attempt_id@ && leases[x].device_id@
                != leases[y].device_id@ by {
                if x == i {
                    assert(leases[y].attempt_id@ != leases[x].attempt_id@);
                    assert(leases[y].device_id@ != leases[x].device_id@);
                }
            }
        }
    }
}

/// A heartbeat is valid exactly where its health is known and what it tells is possible.
pub proof fn possible_heartbeats_are_valid(heartbeat: v1::Heartbeat)
    ensures
        super::heartbeat_problem(heartbeat) is None <==> (heartbeat.health == 1 || heartbeat.health
            == 2) && observations_are_possible(
            heartbeat.devices@,
            heartbeat.devices@.len() as int,
        ) && leases_are_possible(
            heartbeat.device_leases@,
            heartbeat.device_leases@.len() as int,
        ),
{
    faultless_observations(heartbeat.devices@, heartbeat.devices@.len());
    faultless_leases(heartbeat.device_leases@, heartbeat.device_leases@.len());
}

/// A frame is valid unless it holds more than 64 KiB of output.
pub proof fn frames_are_small(frame: v1::WorkerToServer)
    ensures
        super::frame_problem(frame) is Some <==> (frame.message is Some && frame.message->0
            is OutputChunk && frame.message->0->OutputChunk_0.payload@.len() > 65536),
{
}

/// The numbers on the wire stand for what they stand for, one to one; any other is unknown.
pub proof fn wire_numbers_are_fixed(n: i32)
    ensures
        v1::Backend::decoded(n) == (if n == 1 {
            v1::Backend::Cuda
        } else if n == 2 {
            v1::Backend::Ascend
        } else {
            v1::Backend::Unspecified
        }),
        v1::AttemptOutcome::Succeeded.code() == 1,
        v1::AttemptOutcome::CandidateFailed.code() == 2,
        v1::AttemptOutcome::TimedOut.code() == 3,
        v1::OutputStream::Stdout.code() == 1,
        v1::OutputStream::Stderr.code() == 2,
        v1::NetworkPolicy::Disabled.code() == 1,
        v1::NetworkPolicy::DependencyFetch.code() == 2,
        v1::ExecutorKind::Container.code() == 1,
        v1::ExecutorKind::CudaFixture.code() == 2,
        v1::ExecutorKind::AscendFixture.code() == 3,
        v1::ExecutorKind::AscendBuild.code() == 4,
        v1::ExecutorKind::CudaCorrectness.code() == 5,
        v1::ExecutorKind::AscendCorrectness.code() == 6,
        wire::attempt_outcome(n) == (if n == 1 {
            AttemptOutcome::Succeeded
        } else if n == 2 {
            AttemptOutcome::CandidateFailed
        } else if n == 3 {
            AttemptOutcome::TimedOut
        } else {
            AttemptOutcome::Other(n)
        }),
        wire::network_policy(n) == (if n == 1 {
            Some(NetworkPolicy::Disabled)
        } else if n == 2 {
            Some(NetworkPolicy::DependencyFetch)
        } else {
            None
        }),
{
}

/// What goes to a worker says what was stored, field by field.
pub proof fn contracts_are_sent_as_stored(c: AssignmentContractView)
    ensures
        ({
            let a = wire::assignment_of(c);
            let e = a.execution->0;
            &&& a.execution is Some
            &&& a.assignment_id == c.assignment_id
            &&& a.attempt_id == c.attempt_id
            &&& a.attempt_number == c.attempt_number
            &&& a.idempotency_key == c.idempotency_key
            &&& a.task_id == c.task_id
            &&& a.candidate_id == c.candidate_id
            &&& a.required_features == c.required_features
            &&& e.argv == c.execution.argv
            &&& e.working_directory == c.execution.working_directory
            &&& e.timeout_ms == c.execution.timeout_ms
            &&& e.environment.len() == c.execution.environment.len()
            &&& e.bundle is Some && e.bundle->0.digest == c.execution.bundle.digest
                && e.bundle->0.size_bytes == c.execution.bundle.size_bytes
            &&& e.image is Some && e.image->0.digest == c.execution.image.digest
            &&& e.executor_kind == match c.execution.executor_kind {
                ExecutionKind::Container => 1i32,
                ExecutionKind::CudaFixture => 2i32,
                ExecutionKind::AscendFixture => 3i32,
                ExecutionKind::AscendBuild => 4i32,
                ExecutionKind::CudaCorrectness => 5i32,
                ExecutionKind::AscendCorrectness => 6i32,
            }
            &&& e.limits is Some <==> c.execution.limits is Some
            &&& c.execution.limits is Some ==> {
                let l = e.limits->0;
                let k = c.execution.limits->0;
                &&& l.cpu_millis == k.cpu_millis
                &&& l.memory_bytes == k.memory_bytes
                &&& l.disk_bytes == k.disk_bytes
                &&& l.process_count == k.process_count
                &&& l.output_bytes == k.output_bytes
                &&& l.device_count == k.device_count
                &&& l.network == if k.network == NetworkPolicy::Disabled {
                    1i32
                } else {
                    2i32
                }
            }
        }),
{
}

/// A worker is registered as what it said.
pub proof fn hellos_are_registered_as_said(hello: v1::WorkerHello)
    requires
        hello.capabilities is Some,
    ensures
        ({
            let r = wire::registration_of(hello);
            let c = hello.capabilities->0;
            &&& r.worker_id == hello.worker_id@
            &&& r.instance_id == hello.instance_id@
            &&& r.worker_version == hello.worker_version@
            &&& r.protocol_major == hello.protocol_major
            &&& r.protocol_minor == hello.protocol_minor
            &&& r.features == text::views(hello.features@)
            &&& r.capabilities.backend == c.backend
            &&& r.capabilities.architecture == c.architecture@
            &&& r.capabilities.device_count == c.device_count
            &&& r.capabilities.max_concurrency == c.max_concurrency
            &&& r.capabilities.driver_version == c.driver_version@
            &&& r.capabilities.toolkit_version == c.toolkit_version@
            &&& r.capabilities.container_runtime == c.container_runtime@
        }),
{
}

/// Each number on the wire stands for one thing, and every other number for none.
pub proof fn wire_numbers_are_read(n: i32)
    ensures
        v1::WorkerHealth::decoded(n) == (if n == 1 {
            v1::WorkerHealth::Ready
        } else if n == 2 {
            v1::WorkerHealth::Degraded
        } else {
            v1::WorkerHealth::Unspecified
        }),
        v1::DeviceHealth::decoded(n) == (if n == 1 {
            v1::DeviceHealth::Ready
        } else if n == 2 {
            v1::DeviceHealth::Unhealthy
        } else {
            v1::DeviceHealth::Unspecified
        }),
        v1::OutputStream::decoded(n) == (if n == 1 {
            v1::OutputStream::Stdout
        } else if n == 2 {
            v1::OutputStream::Stderr
        } else {
            v1::OutputStream::Unspecified
        }),
        v1::ExecutorKind::decoded(n) == (if n == 1 {
            v1::ExecutorKind::Container
        } else if n == 2 {
            v1::ExecutorKind::CudaFixture
        } else if n == 3 {
            v1::ExecutorKind::AscendFixture
        } else if n == 4 {
            v1::ExecutorKind::AscendBuild
        } else if n == 5 {
            v1::ExecutorKind::CudaCorrectness
        } else if n == 6 {
            v1::ExecutorKind::AscendCorrectness
        } else {
            v1::ExecutorKind::Unspecified
        }),
        v1::Backend::Cuda.code() == 1,
        v1::Backend::Ascend.code() == 2,
        v1::WorkerHealth::Ready.code() == 1,
        v1::WorkerHealth::Degraded.code() == 2,
        v1::DeviceHealth::Ready.code() == 1,
        v1::DeviceHealth::Unhealthy.code() == 2,
{
}

} // verus!
