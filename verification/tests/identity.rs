use alloyport::digest::Sha256Digest;
use alloyport::identity::{
    certificate_fingerprint_from_pem, peer_certificate_fingerprint, EnrollmentState, IdentityError,
    IdentityRegistry, MemoryIdentityRegistry,
};

fn rotated() -> MemoryIdentityRegistry {
    let old = Sha256Digest::digest_bytes(b"old");
    let new = Sha256Digest::digest_bytes(b"new");
    let mut registry = MemoryIdentityRegistry::new();
    assert_eq!(
        registry.enroll("worker-1", &old, 1).unwrap().state,
        EnrollmentState::Active
    );
    assert_eq!(registry.enroll("worker-1", &old, 2).unwrap().fingerprint, old);
    assert_eq!(
        registry.rotate("worker-1", &old, &new, 3).unwrap().fingerprint,
        new
    );
    assert_eq!(
        registry.rotate("worker-1", &old, &new, 4).unwrap().fingerprint,
        new
    );
    assert!(matches!(
        registry.resolve_fingerprint(&old),
        Err(IdentityError::Replaced(fingerprint)) if fingerprint == old
    ));
    registry
}

#[test]
fn rotation_is_atomic_idempotent_and_survives_restart() {
    let new = Sha256Digest::digest_bytes(b"new");
    rotated();
    let registry = rotated();
    assert_eq!(
        registry.resolve_fingerprint(&new),
        Ok("worker-1".to_owned())
    );
}

#[test]
fn conflict_and_revocation_never_reactivate_a_certificate() {
    let mut registry = MemoryIdentityRegistry::new();
    let first = Sha256Digest::digest_bytes(b"first");
    let second = Sha256Digest::digest_bytes(b"second");
    registry.enroll("worker-1", &first, 1).unwrap();
    assert!(matches!(
        registry.enroll("worker-2", &first, 2),
        Err(IdentityError::Conflict(_))
    ));
    assert!(matches!(
        registry.enroll("worker-1", &second, 2),
        Err(IdentityError::Conflict(_))
    ));
    assert_eq!(
        registry.revoke(&first, 3).unwrap().state,
        EnrollmentState::Revoked
    );
    assert_eq!(
        registry.revoke(&first, 4).unwrap().state,
        EnrollmentState::Revoked
    );
    assert!(matches!(
        registry.resolve_fingerprint(&first),
        Err(IdentityError::Revoked(fingerprint)) if fingerprint == first
    ));
    assert!(matches!(
        registry.enroll("worker-1", &first, 5),
        Err(IdentityError::Conflict(_))
    ));
}

#[test]
fn unknown_fingerprints_and_states_are_refused() {
    let mut registry = MemoryIdentityRegistry::new();
    let unknown = Sha256Digest::digest_bytes(b"unknown");
    assert_eq!(
        registry.resolve_fingerprint(&unknown),
        Err(IdentityError::NotEnrolled(unknown.clone()))
    );
    assert!(registry.revoke(&unknown, 1).is_err());
    assert!(registry.enroll("", &unknown, 1).is_err());
    assert!(matches!(
        registry.enroll("worker-1", &unknown, u64::MAX),
        Err(IdentityError::Invalid("timestamp exceeds storage integer range"))
    ));
    assert!(matches!(
        EnrollmentState::from_i64(9),
        Err(IdentityError::Corrupt(_))
    ));
    assert_eq!(
        EnrollmentState::from_i64(EnrollmentState::Revoked.as_i64()),
        Ok(EnrollmentState::Revoked)
    );
}

const PEM: &[u8] = b"-----BEGIN CERTIFICATE-----\naGVsbG8=\n-----END CERTIFICATE-----\n";

#[test]
fn a_fingerprint_is_the_hash_of_the_first_certificate() {
    let mut two = PEM.to_vec();
    two.extend_from_slice(b"-----BEGIN CERTIFICATE-----\nd29ybGQ=\n-----END CERTIFICATE-----\n");
    let hello = Sha256Digest::digest_bytes(b"hello");
    assert_eq!(
        hello.as_str(),
        "sha256:2cf24dba5fb0a30e26e83b2ac5b9e29e1b161e5c1fa7425e73043362938b9824"
    );
    assert_eq!(certificate_fingerprint_from_pem(PEM), Ok(hello.clone()));
    assert_eq!(certificate_fingerprint_from_pem(&two), Ok(hello.clone()));
    assert!(certificate_fingerprint_from_pem(b"no certificate here").is_err());
    assert!(certificate_fingerprint_from_pem(
        b"-----BEGIN CERTIFICATE-----\n%%%\n-----END CERTIFICATE-----\n"
    )
    .is_err());

    let chain = vec![b"hello".to_vec(), b"world".to_vec()];
    assert_eq!(peer_certificate_fingerprint(Some(Some(&chain))), Ok(hello));
    assert!(peer_certificate_fingerprint(Some(Some(&Vec::new()))).is_err());
    assert!(peer_certificate_fingerprint(Some(None)).is_err());
    assert!(peer_certificate_fingerprint(None).is_err());
}
