use alloyport::proto::v1;
use alloyport::proto::{
    validate_assignment, validate_heartbeat, validate_worker_frame, validate_worker_hello,
    MAX_OUTPUT_PREVIEW_CHUNK_BYTES, PROTOCOL_MAJOR, PROTOCOL_MINOR,
};

fn device(device_id: &str, serial_number: &str) -> v1::AcceleratorDevice {
    v1::AcceleratorDevice {
        device_id: device_id.to_owned(),
        product_name: "Ascend950PR".to_owned(),
        serial_number: serial_number.to_owned(),
        firmware_version: "9.0.0.105.229".to_owned(),
    }
}

fn artifact(byte: char) -> v1::ArtifactRef {
    v1::ArtifactRef {
        digest: format!("sha256:{}", byte.to_string().repeat(64)),
        size_bytes: 1,
        media_type: "application/octet-stream".to_owned(),
    }
}

fn assignment() -> v1::Assignment {
    v1::Assignment {
        assignment_id: "assignment-1".to_owned(),
        attempt_id: "attempt-1".to_owned(),
        attempt_number: 1,
        idempotency_key: "candidate-1:build".to_owned(),
        task_id: "task-1".to_owned(),
        candidate_id: "candidate-1".to_owned(),
        execution: Some(v1::ExecutionSpec {
            executor_kind: v1::ExecutorKind::Container.number(),
            argv: vec!["cmake".to_owned(), "--build".to_owned(), "build".to_owned()],
            working_directory: "source".to_owned(),
            environment: Vec::new(),
            timeout_ms: 30_000,
            bundle: Some(artifact('a')),
            image: Some(artifact('b')),
            limits: None,
        }),
        required_features: Vec::new(),
    }
}

fn field(result: Result<(), alloyport::proto::ValidationError>) -> &'static str {
    result.expect_err("the message must be refused").field()
}

#[test]
fn accepts_typed_sandboxed_assignment() {
    assert_eq!(validate_assignment(&assignment()), Ok(()));
}

#[test]
fn rejects_assignment_without_candidate_identity() {
    let mut assignment = assignment();
    assignment.candidate_id = "  ".to_owned();

    let error = validate_assignment(&assignment).expect_err("candidate identity is required");
    assert_eq!(error.field(), "assignment.candidate_id");
    assert_eq!(error.message(), "invalid assignment.candidate_id: missing");
}

#[test]
fn rejects_host_path_escape() {
    let mut assignment = assignment();
    assignment
        .execution
        .as_mut()
        .expect("fixture has execution")
        .working_directory = "../host".to_owned();

    let error = validate_assignment(&assignment).expect_err("parent traversal must fail");
    assert_eq!(error.field(), "assignment.execution.working_directory");
}

#[test]
fn rejects_digest_with_non_hex_bytes() {
    let mut assignment = assignment();
    assignment
        .execution
        .as_mut()
        .expect("fixture has execution")
        .bundle
        .as_mut()
        .expect("fixture has bundle")
        .digest = format!("sha256:{}z", "a".repeat(63));

    let error = validate_assignment(&assignment).expect_err("invalid digest must fail");
    assert_eq!(error.field(), "assignment.execution.bundle");
}

#[test]
fn fixed_ascend_hello_requires_complete_unique_device_identity() {
    let mut hello = v1::WorkerHello {
        protocol_major: PROTOCOL_MAJOR,
        protocol_minor: PROTOCOL_MINOR,
        worker_id: "ascend-1".to_owned(),
        instance_id: "boot-1".to_owned(),
        worker_version: "0.1.0".to_owned(),
        features: vec!["ascend-fixture-v1".to_owned()],
        capabilities: Some(v1::WorkerCapabilities {
            backend: v1::Backend::Ascend.number(),
            architecture: "Ascend950PR".to_owned(),
            device_count: 2,
            max_concurrency: 2,
            driver_version: "25.7.rc1.6".to_owned(),
            toolkit_version: "9.1.0-beta.1".to_owned(),
            container_runtime: "docker".to_owned(),
            devices: vec![device("0", "serial-0"), device("1", "serial-1")],
        }),
        active_attempts: Vec::new(),
    };
    assert_eq!(validate_worker_hello(&hello), Ok(()));

    hello
        .capabilities
        .as_mut()
        .expect("fixture capabilities")
        .devices[1]
        .device_id = "0".to_owned();
    assert_eq!(
        validate_worker_hello(&hello)
            .expect_err("duplicate device identities must fail")
            .field(),
        "hello.capabilities.devices.device_id"
    );
}

#[test]
fn correctness_features_are_bound_to_their_accelerator_backend() {
    let mut hello = v1::WorkerHello {
        protocol_major: PROTOCOL_MAJOR,
        protocol_minor: PROTOCOL_MINOR,
        worker_id: "cuda-correctness-1".to_owned(),
        instance_id: "boot-1".to_owned(),
        worker_version: "0.1.0".to_owned(),
        features: vec!["cuda-reduction-correctness-v1".to_owned()],
        capabilities: Some(v1::WorkerCapabilities {
            backend: v1::Backend::Cuda.number(),
            architecture: "sm_90".to_owned(),
            device_count: 1,
            max_concurrency: 1,
            driver_version: "1".to_owned(),
            toolkit_version: "1".to_owned(),
            container_runtime: "docker".to_owned(),
            devices: Vec::new(),
        }),
        active_attempts: Vec::new(),
    };
    assert_eq!(validate_worker_hello(&hello), Ok(()));
    hello.capabilities.as_mut().expect("capabilities").backend = v1::Backend::Ascend.number();
    assert_eq!(
        validate_worker_hello(&hello)
            .expect_err("CUDA correctness cannot be advertised by Ascend")
            .field(),
        "hello.features"
    );
}

#[test]
fn heartbeat_keeps_health_occupancy_and_leases_distinct() {
    let heartbeat = v1::Heartbeat {
        active_attempts: Vec::new(),
        available_slots: 0,
        device_free_slots: 0,
        health: v1::WorkerHealth::Degraded.number(),
        devices: vec![v1::DeviceObservation {
            device_id: "0".to_owned(),
            health: v1::DeviceHealth::Unhealthy.number(),
            process_count: 0,
            utilization_percent: 0,
            memory_used_bytes: 5_249,
            memory_total_bytes: 131_072,
            temperature_millicelsius: 65_000,
            power_milliwatts: 207_600,
            observed_at_ms: 1_000,
            detail: "npu-smi reported Alarm".to_owned(),
        }],
        device_leases: vec![v1::DeviceLease {
            attempt_id: "attempt-1".to_owned(),
            device_id: "0".to_owned(),
            acquired_at_ms: 900,
        }],
    };
    assert_eq!(validate_heartbeat(&heartbeat), Ok(()));

    let mut impossible = heartbeat;
    impossible.devices[0].utilization_percent = 101;
    assert_eq!(
        validate_heartbeat(&impossible)
            .expect_err("impossible utilization must fail")
            .field(),
        "heartbeat.devices.utilization_percent"
    );
}

#[test]
fn worker_output_preview_has_a_protocol_level_chunk_limit() {
    let mut frame = v1::WorkerToServer {
        sequence: 2,
        acknowledges_server_through: 1,
        message_id: String::new(),
        message: Some(v1::WorkerMessage::OutputChunk(v1::OutputChunk {
            attempt_id: "attempt-1".to_owned(),
            stream: v1::OutputStream::Stdout.number(),
            byte_offset: 0,
            payload: vec![0; MAX_OUTPUT_PREVIEW_CHUNK_BYTES],
            display_sanitized: false,
        })),
    };
    assert_eq!(validate_worker_frame(&frame), Ok(()));

    let Some(v1::WorkerMessage::OutputChunk(output)) = frame.message.as_mut() else {
        panic!("fixture carries output");
    };
    output.payload.push(0);
    assert_eq!(
        validate_worker_frame(&frame)
            .expect_err("oversized preview must fail")
            .field(),
        "output_chunk.payload"
    );
}

#[test]
fn assignments_are_refused_for_each_missing_identity() {
    let mut one = assignment();
    one.assignment_id = String::new();
    assert_eq!(field(validate_assignment(&one)), "assignment.assignment_id");
    let mut two = assignment();
    two.task_id = "\t".to_owned();
    assert_eq!(field(validate_assignment(&two)), "assignment.task_id");
    let mut three = assignment();
    three.execution = None;
    assert_eq!(field(validate_assignment(&three)), "assignment.execution");
}

#[test]
fn absolute_and_dotted_working_directories() {
    for (directory, accepted) in [
        ("/etc", false),
        ("a/../b", false),
        (".", true),
        ("a/b", true),
    ] {
        let mut given = assignment();
        given
            .execution
            .as_mut()
            .expect("fixture has execution")
            .working_directory = directory.to_owned();
        assert_eq!(validate_assignment(&given).is_ok(), accepted, "{directory}");
    }
}
