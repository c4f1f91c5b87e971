//! Worker-control protocol constants and validation of incoming messages.
pub mod conduct;
pub mod v1;

use crate::digest;
use crate::digest::Sha256Digest;
use crate::text;
use vstd::prelude::*;
use vstd::string::*;

verus! {

pub const PROTOCOL_MAJOR: u32 = 1;

pub const PROTOCOL_MINOR: u32 = 7;

/// Maximum encoded worker-to-server control frame accepted by the service.
pub const MAX_WORKER_TO_SERVER_MESSAGE_BYTES: usize = 131072;

/// Maximum encoded server-to-worker control frame accepted by the worker.
pub const MAX_SERVER_TO_WORKER_MESSAGE_BYTES: usize = 4194304;

/// Maximum raw best-effort output preview carried by one control frame.
pub const MAX_OUTPUT_PREVIEW_CHUNK_BYTES: usize = 65536;

/// Maximum encoded interaction request accepted by the service.
pub const MAX_INTERACTION_REQUEST_MESSAGE_BYTES: usize = 65536;

/// Maximum encoded canonical interaction event, worst-case JSON escaping counted in.
pub const MAX_INTERACTION_EVENT_MESSAGE_BYTES: usize = 524288;

/// Maximum encoded management request, one submitted project bundle counted in.
pub const MAX_MANAGEMENT_REQUEST_MESSAGE_BYTES: usize = 67108864;

/// Maximum encoded management response.
pub const MAX_MANAGEMENT_RESPONSE_MESSAGE_BYTES: usize = 4194304;

/// Byte count read into one artifact download response.
pub const ARTIFACT_DOWNLOAD_CHUNK_BYTES: usize = 65536;

/// Framing allowance added to bounded byte payloads.
pub const PROTOBUF_MESSAGE_OVERHEAD_BYTES: usize = 65536;

/// Maximum encoded artifact download response accepted by a worker.
pub const MAX_ARTIFACT_DOWNLOAD_MESSAGE_BYTES: usize = 131072;

/// Why an incoming wire message cannot enter the domain.
#[derive(Debug, PartialEq, Eq)]
pub struct ValidationError {
    field: &'static str,
    detail: &'static str,
}

/// The field that a message fails on, and how.
pub ghost struct Problem {
    pub field: Seq<char>,
    pub detail: Seq<char>,
}

pub open spec fn problem(field: Seq<char>, detail: Seq<char>) -> Option<Problem> {
    Some(Problem { field, detail })
}

impl View for ValidationError {
    type V = Problem;

    closed spec fn view(&self) -> Problem {
        Problem { field: self.field@, detail: self.detail@ }
    }
}

impl ValidationError {
    fn new(field: &'static str, detail: &'static str) -> (r: Self)
        ensures
            r@ == (Problem { field: field@, detail: detail@ }),
    {
        ValidationError { field, detail }
    }

    /// The field that failed.
    pub fn field(&self) -> (r: &'static str)
        ensures
            r@ == self@.field,
    {
        self.field
    }

    /// The text of the failure.
    pub fn message(&self) -> (r: String)
        ensures
            r@ == problem_text(self@),
    {
        let mut out = "invalid ".to_owned();
        out.append(self.field);
        out.append(": ");
        out.append(self.detail);
        out
    }
}

/// The text of a problem.
pub open spec fn problem_text(p: Problem) -> Seq<char> {
    "invalid "@ + p.field + ": "@ + p.detail
}

/// The result reports exactly `expected`.
pub open spec fn reports(r: Result<(), ValidationError>, expected: Option<Problem>) -> bool {
    match expected {
        None => r is Ok,
        Some(p) => r matches Err(e) && e@ == p,
    }
}

/// The first of two checks that fails.
pub open spec fn or_else(first: Option<Problem>, second: Option<Problem>) -> Option<Problem> {
    match first {
        Some(p) => Some(p),
        None => second,
    }
}

pub open spec fn text_problem(field: Seq<char>, value: Seq<char>) -> Option<Problem> {
    if text::blank(value) {
        problem(field, "missing"@)
    } else {
        None
    }
}

fn require_text(field: &'static str, value: &str) -> (r: Result<(), ValidationError>)
    ensures
        reports(r, text_problem(field@, value@)),
{
    if text::is_blank(value) {
        Err(ValidationError::new(field, "missing"))
    } else {
        Ok(())
    }
}

/// What is wrong with the payload bounds of a worker frame.
pub open spec fn frame_problem(frame: v1::WorkerToServer) -> Option<Problem> {
    match frame.message {
        Some(v1::WorkerMessage::OutputChunk(output)) => if output.payload@.len()
            > MAX_OUTPUT_PREVIEW_CHUNK_BYTES {
            problem("output_chunk.payload"@, "exceeds the per-frame preview limit"@)
        } else {
            None
        },
        _ => None,
    }
}

/// Validates the bounded payload of one worker frame.
pub fn validate_worker_frame(frame: &v1::WorkerToServer) -> (r: Result<(), ValidationError>)
    ensures
        reports(r, frame_problem(*frame)),
{
    match &frame.message {
        Some(v1::WorkerMessage::OutputChunk(output)) => {
            if output.payload.len() > MAX_OUTPUT_PREVIEW_CHUNK_BYTES {
                return Err(
                    ValidationError::new(
                        "output_chunk.payload",
                        "exceeds the per-frame preview limit",
                    ),
                );
            }
            Ok(())
        },
        _ => Ok(()),
    }
}

/// What is wrong with device `i` in view of the devices before it.
pub open spec fn device_problem(devices: Seq<v1::AcceleratorDevice>, i: int) -> Option<Problem> {
    let device = devices[i];
    or_else(
        text_problem("hello.capabilities.devices.device_id"@, device.device_id@),
        or_else(
            text_problem("hello.capabilities.devices.product_name"@, device.product_name@),
            or_else(
                text_problem("hello.capabilities.devices.serial_number"@, device.serial_number@),
                or_else(
                    text_problem(
                        "hello.capabilities.devices.firmware_version"@,
                        device.firmware_version@,
                    ),
                    if exists|j: int|
                        0 <= j < i && #[trigger] devices[j].device_id@ == device.device_id@ {
                        problem("hello.capabilities.devices.device_id"@, "duplicate"@)
                    } else if exists|j: int|
                        0 <= j < i && #[trigger] devices[j].serial_number@
                            == device.serial_number@ {
                        problem("hello.capabilities.devices.serial_number"@, "duplicate"@)
                    } else {
                        None
                    },
                ),
            ),
        ),
    )
}

/// The first problem among the first `n` devices.
pub open spec fn devices_problem(devices: Seq<v1::AcceleratorDevice>, n: nat) -> Option<Problem>
    decreases n,
{
    if n == 0 {
        None
    } else {
        or_else(
            devices_problem(devices, (n - 1) as nat),
            device_problem(devices, n - 1),
        )
    }
}

proof fn first_device_problem_stays(devices: Seq<v1::AcceleratorDevice>, n: nat, m: nat)
    requires
        n <= m,
        devices_problem(devices, n) is Some,
    ensures
        devices_problem(devices, m) == devices_problem(devices, n),
    decreases m,
{
    if n < m {
        first_device_problem_stays(devices, n, (m - 1) as nat);
    }
}

/// What is wrong with the devices of a worker.
pub open spec fn capabilities_problem(capabilities: v1::WorkerCapabilities) -> Option<Problem> {
    if capabilities.devices@.len() > 0 && capabilities.devices@.len() != capabilities.device_count {
        problem("hello.capabilities.devices"@, "must be empty or match device_count"@)
    } else {
        devices_problem(capabilities.devices@, capabilities.devices@.len())
    }
}

fn validate_device(devices: &Vec<v1::AcceleratorDevice>, i: usize) -> (r: Result<
    (),
    ValidationError,
>)
    requires
        i < devices@.len(),
    ensures
        reports(r, device_problem(devices@, i as int)),
{
    let device = &devices[i];
    require_text("hello.capabilities.devices.device_id", device.device_id.as_str())?;
    require_text("hello.capabilities.devices.product_name", device.product_name.as_str())?;
    require_text("hello.capabilities.devices.serial_number", device.serial_number.as_str())?;
    require_text("hello.capabilities.devices.firmware_version", device.firmware_version.as_str())?;
    let mut repeated_id = false;
    let mut repeated_serial = false;
    let mut j: usize = 0;
    while j < i
        invariant
            j <= i < devices@.len(),
            *device == devices@[i as int],
            repeated_id == exists|k: int|
                0 <= k < j && #[trigger] devices@[k].device_id@ == device.device_id@,
            repeated_serial == exists|k: int|
                0 <= k < j && #[trigger] devices@[k].serial_number@ == device.serial_number@,
        decreases i - j,
    {
        if text::same(devices[j].device_id.as_str(), device.device_id.as_str()) {
            assert(devices@[j as int].device_id@ == device.device_id@);
            repeated_id = true;
        }
        if text::same(devices[j].serial_number.as_str(), device.serial_number.as_str()) {
            assert(devices@[j as int].serial_number@ == device.serial_number@);
            repeated_serial = true;
        }
        j += 1;
    }
    if repeated_id {
        return Err(ValidationError::new("hello.capabilities.devices.device_id", "duplicate"));
    }
    if repeated_serial {
        return Err(ValidationError::new("hello.capabilities.devices.serial_number", "duplicate"));
    }
    Ok(())
}

fn validate_accelerator_devices(capabilities: &v1::WorkerCapabilities) -> (r: Result<
    (),
    ValidationError,
>)
    ensures
        reports(r, capabilities_problem(*capabilities)),
{
    let devices = &capabilities.devices;
    if devices.len() != 0 && devices.len() as u64 != capabilities.device_count as u64 {
        return Err(
            ValidationError::new(
                "hello.capabilities.devices",
                "must be empty or match device_count",
            ),
        );
    }
    let mut i: usize = 0;
    while i < devices.len()
        invariant
            i <= devices@.len(),
            *devices == capabilities.devices,
            devices@.len() == 0 || devices@.len() == capabilities.device_count,
            devices_problem(devices@, i as nat) is None,
        decreases devices@.len() - i,
    {
        let checked = validate_device(devices, i);
        if checked.is_err() {
            proof {
                first_device_problem_stays(devices@, (i + 1) as nat, devices@.len());
            }
            return checked;
        }
        i += 1;
    }
    Ok(())
}

/// The features that only a worker with fixed Ascend devices offers.
pub open spec fn fixed_ascend(feature: Seq<char>) -> bool {
    ||| feature == "ascend-fixture-v1"@
    ||| feature == "ascend-build-v1"@
    ||| feature == "ascend-reduction-correctness-v1"@
}

/// Some offered feature binds the worker to its Ascend devices.
pub open spec fn offers_fixed_ascend(features: Seq<Seq<char>>) -> bool {
    exists|i: int| 0 <= i < features.len() && fixed_ascend(#[trigger] features[i])
}

/// What is wrong with the features of a worker.
pub open spec fn features_problem(
    features: Seq<Seq<char>>,
    capabilities: v1::WorkerCapabilities,
) -> Option<Problem> {
    let backend = v1::Backend::decoded(capabilities.backend);
    if offers_fixed_ascend(features) && backend != v1::Backend::Ascend {
        problem("hello.features"@, "fixed Ascend features require the Ascend backend"@)
    } else if offers_fixed_ascend(features) && capabilities.devices@.len()
        != capabilities.device_count {
        problem(
            "hello.capabilities.devices"@,
            "fixed Ascend workers must identify every advertised device"@,
        )
    } else if features.contains("cuda-reduction-correctness-v1"@) && backend != v1::Backend::Cuda {
        problem("hello.features"@, "cuda-reduction-correctness-v1 requires the CUDA backend"@)
    } else {
        None
    }
}

/// What is wrong with the identity that a hello carries.
pub open spec fn hello_identity_problem(hello: v1::WorkerHello) -> Option<Problem> {
    if hello.protocol_major != PROTOCOL_MAJOR {
        problem("hello.protocol_major"@, "unsupported major version"@)
    } else {
        or_else(
            text_problem("hello.worker_id"@, hello.worker_id@),
            or_else(
                text_problem("hello.instance_id"@, hello.instance_id@),
                text_problem("hello.worker_version"@, hello.worker_version@),
            ),
        )
    }
}

/// The first problem of a hello.
pub open spec fn hello_problem(hello: v1::WorkerHello) -> Option<Problem> {
    or_else(
        hello_identity_problem(hello),
        match hello.capabilities {
            None => problem("hello.capabilities"@, "missing"@),
            Some(capabilities) => if v1::Backend::decoded(capabilities.backend)
                == v1::Backend::Unspecified {
                problem("hello.capabilities.backend"@, "unspecified or unknown"@)
            } else if capabilities.device_count == 0 {
                problem("hello.capabilities.device_count"@, "must be greater than zero"@)
            } else if capabilities.max_concurrency == 0 {
                problem("hello.capabilities.max_concurrency"@, "must be greater than zero"@)
            } else {
                or_else(
                    capabilities_problem(capabilities),
                    features_problem(text::views(hello.features@), capabilities),
                )
            },
        },
    )
}

fn offers_fixed_ascend_feature(features: &Vec<String>) -> (r: bool)
    ensures
        r == offers_fixed_ascend(text::views(features@)),
{
    let mut i: usize = 0;
    while i < features.len()
        invariant
            i <= features@.len(),
            forall|k: int| 0 <= k < i ==> !fixed_ascend(#[trigger] text::views(features@)[k]),
        decreases features@.len() - i,
    {
        let feature = features[i].as_str();
        if text::same(feature, "ascend-fixture-v1") || text::same(feature, "ascend-build-v1")
            || text::same(feature, "ascend-reduction-correctness-v1") {
            assert(fixed_ascend(text::views(features@)[i as int]));
            return true;
        }
        i += 1;
    }
    false
}

/// Validates identity, protocol and scheduling capability in the first worker message.
pub fn validate_worker_hello(hello: &v1::WorkerHello) -> (r: Result<(), ValidationError>)
    ensures
        reports(r, hello_problem(*hello)),
{
    if hello.protocol_major != PROTOCOL_MAJOR {
        return Err(ValidationError::new("hello.protocol_major", "unsupported major version"));
    }
    require_text("hello.worker_id", hello.worker_id.as_str())?;
    require_text("hello.instance_id", hello.instance_id.as_str())?;
    require_text("hello.worker_version", hello.worker_version.as_str())?;
    let capabilities = match &hello.capabilities {
        Some(capabilities) => capabilities,
        None => {
            return Err(ValidationError::new("hello.capabilities", "missing"));
        },
    };
    let backend = v1::Backend::decode(capabilities.backend);
    if backend == v1::Backend::Unspecified {
        return Err(ValidationError::new("hello.capabilities.backend", "unspecified or unknown"));
    }
    if capabilities.device_count == 0 {
        return Err(
            ValidationError::new("hello.capabilities.device_count", "must be greater than zero"),
        );
    }
    if capabilities.max_concurrency == 0 {
        return Err(
            ValidationError::new("hello.capabilities.max_concurrency", "must be greater than zero"),
        );
    }
    validate_accelerator_devices(capabilities)?;
    if offers_fixed_ascend_feature(&hello.features) {
        if backend != v1::Backend::Ascend {
            return Err(
                ValidationError::new(
                    "hello.features",
                    "fixed Ascend features require the Ascend backend",
                ),
            );
        }
        if capabilities.devices.len() as u64 != capabilities.device_count as u64 {
            return Err(
                ValidationError::new(
                    "hello.capabilities.devices",
                    "fixed Ascend workers must identify every advertised device",
                ),
            );
        }
    }
    if text::holds(&hello.features, "cuda-reduction-correctness-v1") && backend
        != v1::Backend::Cuda {
        return Err(
            ValidationError::new(
                "hello.features",
                "cuda-reduction-correctness-v1 requires the CUDA backend",
            ),
        );
    }
    Ok(())
}

/// What is wrong with device observation `i` in view of those before it.
pub open spec fn observation_problem(devices: Seq<v1::DeviceObservation>, i: int) -> Option<
    Problem,
> {
    let device = devices[i];
    or_else(
        text_problem("heartbeat.devices.device_id"@, device.device_id@),
        if exists|j: int| 0 <= j < i && #[trigger] devices[j].device_id@ == device.device_id@ {
            problem("heartbeat.devices.device_id"@, "duplicate"@)
        } else if v1::DeviceHealth::decoded(device.health) == v1::DeviceHealth::Unspecified {
            problem("heartbeat.devices.health"@, "unspecified or unknown"@)
        } else if device.utilization_percent > 100 {
            problem("heartbeat.devices.utilization_percent"@, "must not exceed 100"@)
        } else if device.memory_used_bytes > device.memory_total_bytes {
            problem("heartbeat.devices.memory_used_bytes"@, "must not exceed total memory"@)
        } else if vstd::utf8::encode_utf8(device.detail@).len() > 1024 {
            problem("heartbeat.devices.detail"@, "exceeds 1024 bytes"@)
        } else {
            None
        },
    )
}

/// The first problem among the first `n` device observations.
pub open spec fn observations_problem(devices: Seq<v1::DeviceObservation>, n: nat) -> Option<
    Problem,
>
    decreases n,
{
    if n == 0 {
        None
    } else {
        or_else(
            observations_problem(devices, (n - 1) as nat),
            observation_problem(devices, n - 1),
        )
    }
}

proof fn first_observation_problem_stays(devices: Seq<v1::DeviceObservation>, n: nat, m: nat)
    requires
        n <= m,
        observations_problem(devices, n) is Some,
    ensures
        observations_problem(devices, m) == observations_problem(devices, n),
    decreases m,
{
    if n < m {
        first_observation_problem_stays(devices, n, (m - 1) as nat);
    }
}

/// What is wrong with device lease `i` in view of those before it.
pub open spec fn lease_problem(leases: Seq<v1::DeviceLease>, i: int) -> Option<Problem> {
    let lease = leases[i];
    or_else(
        text_problem("heartbeat.device_leases.attempt_id"@, lease.attempt_id@),
        or_else(
            text_problem("heartbeat.device_leases.device_id"@, lease.device_id@),
            if exists|j: int| 0 <= j < i && #[trigger] leases[j].attempt_id@ == lease.attempt_id@ {
                problem("heartbeat.device_leases.attempt_id"@, "duplicate"@)
            } else if exists|j: int|
                0 <= j < i && #[trigger] leases[j].device_id@ == lease.device_id@ {
                problem("heartbeat.device_leases.device_id"@, "duplicate active device lease"@)
            } else {
                None
            },
        ),
    )
}

/// The first problem among the first `n` device leases.
pub open spec fn leases_problem(leases: Seq<v1::DeviceLease>, n: nat) -> Option<Problem>
    decreases n,
{
    if n == 0 {
        None
    } else {
        or_else(leases_problem(leases, (n - 1) as nat), lease_problem(leases, n - 1))
    }
}

proof fn first_lease_problem_stays(leases: Seq<v1::DeviceLease>, n: nat, m: nat)
    requires
        n <= m,
        leases_problem(leases, n) is Some,
    ensures
        leases_problem(leases, m) == leases_problem(leases, n),
    decreases m,
{
    if n < m {
        first_lease_problem_stays(leases, n, (m - 1) as nat);
    }
}

/// The first problem of a heartbeat.
pub open spec fn heartbeat_problem(heartbeat: v1::Heartbeat) -> Option<Problem> {
    if v1::WorkerHealth::decoded(heartbeat.health) == v1::WorkerHealth::Unspecified {
        problem("heartbeat.health"@, "unspecified or unknown"@)
    } else {
        or_else(
            observations_problem(heartbeat.devices@, heartbeat.devices@.len()),
            leases_problem(heartbeat.device_leases@, heartbeat.device_leases@.len()),
        )
    }
}

fn validate_observation(devices: &Vec<v1::DeviceObservation>, i: usize) -> (r: Result<
    (),
    ValidationError,
>)
    requires
        i < devices@.len(),
    ensures
        reports(r, observation_problem(devices@, i as int)),
{
    let device = &devices[i];
    require_text("heartbeat.devices.device_id", device.device_id.as_str())?;
    let mut repeated = false;
    let mut j: usize = 0;
    while j < i
        invariant
            j <= i < devices@.len(),
            *device == devices@[i as int],
            repeated == exists|k: int|
                0 <= k < j && #[trigger] devices@[k].device_id@ == device.device_id@,
        decreases i - j,
    {
        if text::same(devices[j].device_id.as_str(), device.device_id.as_str()) {
            assert(devices@[j as int].device_id@ == device.device_id@);
            repeated = true;
        }
        j += 1;
    }
    if repeated {
        return Err(ValidationError::new("heartbeat.devices.device_id", "duplicate"));
    }
    if v1::DeviceHealth::decode(device.health) == v1::DeviceHealth::Unspecified {
        return Err(ValidationError::new("heartbeat.devices.health", "unspecified or unknown"));
    }
    if device.utilization_percent > 100 {
        return Err(
            ValidationError::new("heartbeat.devices.utilization_percent", "must not exceed 100"),
        );
    }
    if device.memory_used_bytes > device.memory_total_bytes {
        return Err(
            ValidationError::new(
                "heartbeat.devices.memory_used_bytes",
                "must not exceed total memory",
            ),
        );
    }
    if device.detail.as_str().as_bytes().len() > 1024 {
        return Err(ValidationError::new("heartbeat.devices.detail", "exceeds 1024 bytes"));
    }
    Ok(())
}

fn validate_lease(leases: &Vec<v1::DeviceLease>, i: usize) -> (r: Result<(), ValidationError>)
    requires
        i < leases@.len(),
    ensures
        reports(r, lease_problem(leases@, i as int)),
{
    let lease = &leases[i];
    require_text("heartbeat.device_leases.attempt_id", lease.attempt_id.as_str())?;
    require_text("heartbeat.device_leases.device_id", lease.device_id.as_str())?;
    let mut repeated_attempt = false;
    let mut repeated_device = false;
    let mut j: usize = 0;
    while j < i
        invariant
            j <= i < leases@.len(),
            *lease == leases@[i as int],
            repeated_attempt == exists|k: int|
                0 <= k < j && #[trigger] leases@[k].attempt_id@ == lease.attempt_id@,
            repeated_device == exists|k: int|
                0 <= k < j && #[trigger] leases@[k].device_id@ == lease.device_id@,
        decreases i - j,
    {
        if text::same(leases[j].attempt_id.as_str(), lease.attempt_id.as_str()) {
            assert(leases@[j as int].attempt_id@ == lease.attempt_id@);
            repeated_attempt = true;
        }
        if text::same(leases[j].device_id.as_str(), lease.device_id.as_str()) {
            assert(leases@[j as int].device_id@ == lease.device_id@);
            repeated_device = true;
        }
        j += 1;
    }
    if repeated_attempt {
        return Err(ValidationError::new("heartbeat.device_leases.attempt_id", "duplicate"));
    }
    if repeated_device {
        return Err(
            ValidationError::new(
                "heartbeat.device_leases.device_id",
                "duplicate active device lease",
            ),
        );
    }
    Ok(())
}

/// Validates one scheduling snapshot before it enters the application.
pub fn validate_heartbeat(heartbeat: &v1::Heartbeat) -> (r: Result<(), ValidationError>)
    ensures
        reports(r, heartbeat_problem(*heartbeat)),
{
    if v1::WorkerHealth::decode(heartbeat.health) == v1::WorkerHealth::Unspecified {
        return Err(ValidationError::new("heartbeat.health", "unspecified or unknown"));
    }
    let mut i: usize = 0;
    while i < heartbeat.devices.len()
        invariant
            i <= heartbeat.devices@.len(),
            v1::WorkerHealth::decoded(heartbeat.health) != v1::WorkerHealth::Unspecified,
            observations_problem(heartbeat.devices@, i as nat) is None,
        decreases heartbeat.devices@.len() - i,
    {
        let checked = validate_observation(&heartbeat.devices, i);
        if checked.is_err() {
            proof {
                first_observation_problem_stays(
                    heartbeat.devices@,
                    (i + 1) as nat,
                    heartbeat.devices@.len(),
                );
            }
            return checked;
        }
        i += 1;
    }
    let mut k: usize = 0;
    while k < heartbeat.device_leases.len()
        invariant
            k <= heartbeat.device_leases@.len(),
            v1::WorkerHealth::decoded(heartbeat.health) != v1::WorkerHealth::Unspecified,
            observations_problem(heartbeat.devices@, heartbeat.devices@.len()) is None,
            leases_problem(heartbeat.device_leases@, k as nat) is None,
        decreases heartbeat.device_leases@.len() - k,
    {
        let checked = validate_lease(&heartbeat.device_leases, k);
        if checked.is_err() {
            proof {
                first_lease_problem_stays(
                    heartbeat.device_leases@,
                    (k + 1) as nat,
                    heartbeat.device_leases@.len(),
                );
            }
            return checked;
        }
        k += 1;
    }
    Ok(())
}

/// A `..` stands as a whole path segment at position `i`.
pub open spec fn parent_segment(path: Seq<char>, i: int) -> bool {
    &&& 0 <= i
    &&& i + 2 <= path.len()
    &&& path[i] == '.'
    &&& path[i + 1] == '.'
    &&& i == 0 || path[i - 1] == '/'
    &&& i + 2 == path.len() || path[i + 2] == '/'
}

/// A path that is absolute or climbs to a parent directory.
pub open spec fn leaves_sandbox(path: Seq<char>) -> bool {
    (path.len() > 0 && path[0] == '/') || exists|i: int| parent_segment(path, i)
}

pub open spec fn path_problem(path: Seq<char>) -> Option<Problem> {
    if path.len() == 0 {
        problem("assignment.execution.working_directory"@, "missing"@)
    } else if leaves_sandbox(path) {
        problem(
            "assignment.execution.working_directory"@,
            "must stay relative to the sandbox"@,
        )
    } else {
        None
    }
}

fn escapes_sandbox(path: &str) -> (r: bool)
    ensures
        r == leaves_sandbox(path@),
{
    let chars = text::chars_of(path);
    if chars.len() > 0 && chars[0] == '/' {
        return true;
    }
    let mut i: usize = 0;
    while i < chars.len()
        invariant
            i <= chars@.len(),
            chars@ == path@,
            forall|k: int| 0 <= k < i ==> !parent_segment(path@, k),
        decreases chars@.len() - i,
    {
        if chars.len() - i >= 2 && chars[i] == '.' && chars[i + 1] == '.' && (i == 0
            || chars[i - 1] == '/') && (chars.len() - i == 2 || chars[i + 2] == '/') {
            assert(parent_segment(path@, i as int));
            return true;
        }
        assert(!parent_segment(path@, i as int));
        i += 1;
    }
    assert forall|k: int| !parent_segment(path@, k) by {
        if k >= chars@.len() {
            assert(!parent_segment(path@, k));
        }
    }
    false
}

fn validate_sandbox_path(path: &str) -> (r: Result<(), ValidationError>)
    ensures
        reports(r, path_problem(path@)),
{
    if path.is_empty() {
        return Err(ValidationError::new("assignment.execution.working_directory", "missing"));
    }
    if escapes_sandbox(path) {
        return Err(
            ValidationError::new(
                "assignment.execution.working_directory",
                "must stay relative to the sandbox",
            ),
        );
    }
    Ok(())
}

pub open spec fn artifact_problem(field: Seq<char>, artifact: Option<v1::ArtifactRefView>) -> Option<
    Problem,
> {
    match artifact {
        None => problem(field, "missing"@),
        Some(a) => if digest::canonical(a.digest) {
            None
        } else {
            problem(field, "digest must be canonical SHA-256"@)
        },
    }
}

fn validate_artifact(field: &'static str, artifact: &Option<v1::ArtifactRef>) -> (r: Result<
    (),
    ValidationError,
>)
    ensures
        reports(r, artifact_problem(field@, v1::optional_artifact_ref(*artifact))),
{
    match artifact {
        None => Err(ValidationError::new(field, "missing")),
        Some(artifact) => match Sha256Digest::parse(artifact.digest.as_str()) {
            Some(_) => Ok(()),
            None => Err(ValidationError::new(field, "digest must be canonical SHA-256")),
        },
    }
}

/// What is wrong with the execution of an assignment.
pub open spec fn execution_problem(execution: v1::ExecutionSpecView) -> Option<Problem> {
    if v1::ExecutorKind::decoded(execution.executor_kind) == v1::ExecutorKind::Unspecified {
        problem("assignment.execution.executor_kind"@, "unspecified or unknown"@)
    } else if execution.argv.len() == 0 || execution.argv[0].len() == 0 {
        problem("assignment.execution.argv"@, "must contain a non-empty executable"@)
    } else {
        or_else(
            path_problem(execution.working_directory),
            or_else(
                artifact_problem("assignment.execution.bundle"@, execution.bundle),
                artifact_problem("assignment.execution.image"@, execution.image),
            ),
        )
    }
}

/// The first problem of an assignment.
pub open spec fn assignment_problem(assignment: v1::AssignmentView) -> Option<Problem> {
    or_else(
        text_problem("assignment.assignment_id"@, assignment.assignment_id),
        or_else(
            text_problem("assignment.attempt_id"@, assignment.attempt_id),
            or_else(
                text_problem("assignment.idempotency_key"@, assignment.idempotency_key),
                or_else(
                    text_problem("assignment.task_id"@, assignment.task_id),
                    or_else(
                        text_problem("assignment.candidate_id"@, assignment.candidate_id),
                        match assignment.execution {
                            None => problem("assignment.execution"@, "missing"@),
                            Some(execution) => execution_problem(execution),
                        },
                    ),
                ),
            ),
        ),
    )
}

/// Validates an assignment before the server queues it or a worker admits it.
pub fn validate_assignment(assignment: &v1::Assignment) -> (r: Result<(), ValidationError>)
    ensures
        reports(r, assignment_problem(assignment@)),
{
    require_text("assignment.assignment_id", assignment.assignment_id.as_str())?;
    require_text("assignment.attempt_id", assignment.attempt_id.as_str())?;
    require_text("assignment.idempotency_key", assignment.idempotency_key.as_str())?;
    require_text("assignment.task_id", assignment.task_id.as_str())?;
    require_text("assignment.candidate_id", assignment.candidate_id.as_str())?;
    let execution = match &assignment.execution {
        Some(execution) => execution,
        None => {
            return Err(ValidationError::new("assignment.execution", "missing"));
        },
    };
    if v1::ExecutorKind::decode(execution.executor_kind) == v1::ExecutorKind::Unspecified {
        return Err(
            ValidationError::new("assignment.execution.executor_kind", "unspecified or unknown"),
        );
    }
    if execution.argv.len() == 0 || execution.argv[0].as_str().is_empty() {
        return Err(
            ValidationError::new(
                "assignment.execution.argv",
                "must contain a non-empty executable",
            ),
        );
    }
    validate_sandbox_path(execution.working_directory.as_str())?;
    validate_artifact("assignment.execution.bundle", &execution.bundle)?;
    validate_artifact("assignment.execution.image", &execution.image)?;
    Ok(())
}

} // verus!
