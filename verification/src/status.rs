//! The transport codes that domain failures map to.
use crate::digest::Sha256Digest;
use crate::identity;
use crate::identity::{IdentityError, IdentityErrorView, IdentityRegistry, IdentityState};
use crate::interaction::{InteractionError, InteractionErrorView};
use crate::storage::{RepositoryError, RepositoryErrorView};
use crate::text;
use vstd::prelude::*;
use vstd::string::*;

verus! {

/// The codes of a remote call that failed.
#[derive(Clone, Copy, Debug, PartialEq, Eq, Structural)]
pub enum Code {
    InvalidArgument,
    NotFound,
    PermissionDenied,
    ResourceExhausted,
    FailedPrecondition,
    Aborted,
    OutOfRange,
    Internal,
    Unavailable,
    DataLoss,
    Unauthenticated,
}

/// A failed call: its code and its text.
#[derive(Debug, PartialEq, Eq)]
pub struct Status {
    pub code: Code,
    pub message: String,
}

pub ghost struct StatusView {
    pub code: Code,
    pub message: Seq<char>,
}

impl View for Status {
    type V = StatusView;

    open spec fn view(&self) -> StatusView {
        StatusView { code: self.code, message: self.message@ }
    }
}

pub open spec fn status(code: Code, message: Seq<char>) -> StatusView {
    StatusView { code, message }
}

impl Status {
    pub fn new(code: Code, message: &str) -> (r: Self)
        ensures
            r@ == status(code, message@),
    {
        Status { code, message: message.to_owned() }
    }
}

/// A result with its error taken by view.
pub open spec fn seen<T>(r: Result<T, Status>) -> Result<T, StatusView> {
    match r {
        Ok(value) => Ok(value),
        Err(e) => Err(e@),
    }
}

/// The status of a repository failure.
pub open spec fn repository(error: RepositoryErrorView) -> StatusView {
    match error {
        RepositoryErrorView::NotFound(detail) => status(Code::NotFound, detail),
        RepositoryErrorView::IdentityMismatch(detail) => status(Code::PermissionDenied, detail),
        RepositoryErrorView::InvalidIdentity(detail) => status(Code::InvalidArgument, detail),
        RepositoryErrorView::InvalidTransition { .. } => status(
            Code::FailedPrecondition,
            error.text(),
        ),
        _ => status(Code::Internal, error.text()),
    }
}

pub fn repository_status(error: RepositoryError) -> (r: Status)
    ensures
        r@ == repository(error@),
{
    match error {
        RepositoryError::NotFound(detail) => Status { code: Code::NotFound, message: detail },
        RepositoryError::IdentityMismatch(detail) => Status {
            code: Code::PermissionDenied,
            message: detail,
        },
        RepositoryError::InvalidIdentity(detail) => Status {
            code: Code::InvalidArgument,
            message: detail,
        },
        RepositoryError::InvalidTransition { .. } => Status {
            code: Code::FailedPrecondition,
            message: error.message(),
        },
        _ => Status { code: Code::Internal, message: error.message() },
    }
}

/// The status of an interaction failure.
pub open spec fn interaction(error: InteractionErrorView) -> StatusView {
    match error {
        InteractionErrorView::Storage(_)
        | InteractionErrorView::Encoding(_)
        | InteractionErrorView::InvalidSubscriptionCapacity
        | InteractionErrorView::LockPoisoned => status(Code::Internal, error.text()),
        _ => status(Code::InvalidArgument, error.text()),
    }
}

pub fn interaction_status(error: &InteractionError) -> (r: Status)
    ensures
        r@ == interaction(error@),
{
    let message = error.message();
    let code = match error {
        InteractionError::InvalidFrame(_)
        | InteractionError::ConflictingDedupKey(_)
        | InteractionError::ConflictingOutput { .. }
        | InteractionError::InvalidCursor { .. }
        | InteractionError::RevokedRunGrant { .. }
        | InteractionError::MissingRunGrant { .. }
        | InteractionError::ValueOutOfRange(_) => Code::InvalidArgument,
        InteractionError::Storage(_)
        | InteractionError::Encoding(_)
        | InteractionError::InvalidSubscriptionCapacity
        | InteractionError::LockPoisoned => Code::Internal,
    };
    Status { code, message }
}

/// The status of an identity failure.
pub open spec fn identity_failure(error: IdentityErrorView) -> StatusView {
    match error {
        IdentityErrorView::NotEnrolled(_) | IdentityErrorView::Certificate(_) => status(
            Code::Unauthenticated,
            error.text(),
        ),
        IdentityErrorView::Storage(_) | IdentityErrorView::Corrupt(_) => status(
            Code::Internal,
            error.text(),
        ),
        _ => status(Code::PermissionDenied, error.text()),
    }
}

pub fn identity_status(error: &IdentityError) -> (r: Status)
    ensures
        r@ == identity_failure(error@),
{
    let message = error.message();
    let code = match error {
        IdentityError::NotEnrolled(_) | IdentityError::Certificate(_) => Code::Unauthenticated,
        IdentityError::Revoked(_)
        | IdentityError::Replaced(_)
        | IdentityError::Conflict(_)
        | IdentityError::Invalid(_) => Code::PermissionDenied,
        IdentityError::Storage(_) | IdentityError::Corrupt(_) => Code::Internal,
    };
    Status { code, message }
}

/// What kind of failure an artifact store reports.
#[derive(Clone, Copy, Debug, PartialEq, Eq, Structural)]
pub enum ArtifactStoreError {
    DigestMismatch,
    SizeMismatch,
    IntegrityViolation,
    SizeLimitExceeded,
    Io,
}

/// What kind of failure an upload reports.
#[derive(Clone, Copy, Debug, PartialEq, Eq, Structural)]
pub enum UploadError {
    NotFound,
    OwnerMismatch,
    OffsetConflict,
    ChunkTooLarge,
    SizeLimitExceeded,
    QuotaExceeded,
    InvalidRequest,
    ConflictingUploadKey,
    ConflictingReferenceKey,
    ReferenceRevoked,
    GarbageCollectionPending,
    Expired,
    Incomplete,
    InvalidState,
    Artifact(ArtifactStoreError),
    Storage,
    Io,
    Corrupt,
}

/// The code of an artifact store failure.
pub open spec fn artifact_code(error: ArtifactStoreError) -> Code {
    match error {
        ArtifactStoreError::DigestMismatch
        | ArtifactStoreError::SizeMismatch
        | ArtifactStoreError::IntegrityViolation => Code::DataLoss,
        ArtifactStoreError::SizeLimitExceeded => Code::ResourceExhausted,
        ArtifactStoreError::Io => Code::Internal,
    }
}

/// The code of an upload failure.
pub open spec fn upload_code(error: UploadError) -> Code {
    match error {
        UploadError::NotFound => Code::NotFound,
        UploadError::OwnerMismatch => Code::PermissionDenied,
        UploadError::OffsetConflict => Code::Aborted,
        UploadError::ChunkTooLarge
        | UploadError::SizeLimitExceeded
        | UploadError::QuotaExceeded => Code::ResourceExhausted,
        UploadError::InvalidRequest
        | UploadError::ConflictingUploadKey
        | UploadError::ConflictingReferenceKey => Code::InvalidArgument,
        UploadError::ReferenceRevoked
        | UploadError::GarbageCollectionPending
        | UploadError::Expired
        | UploadError::Incomplete
        | UploadError::InvalidState => Code::FailedPrecondition,
        UploadError::Artifact(error) => artifact_code(error),
        UploadError::Storage | UploadError::Io | UploadError::Corrupt => Code::Internal,
    }
}

/// The status of an artifact store failure with its text.
pub fn artifact_status(error: ArtifactStoreError, detail: &str) -> (r: Status)
    ensures
        r@ == status(artifact_code(error), detail@),
{
    let code = match error {
        ArtifactStoreError::DigestMismatch => Code::DataLoss,
        ArtifactStoreError::SizeMismatch => Code::DataLoss,
        ArtifactStoreError::IntegrityViolation => Code::DataLoss,
        ArtifactStoreError::SizeLimitExceeded => Code::ResourceExhausted,
        ArtifactStoreError::Io => Code::Internal,
    };
    Status::new(code, detail)
}

/// The status of an upload failure with its text.
pub fn upload_status(error: UploadError, detail: &str) -> (r: Status)
    ensures
        r@ == status(upload_code(error), detail@),
{
    let code = match error {
        UploadError::NotFound => Code::NotFound,
        UploadError::OwnerMismatch => Code::PermissionDenied,
        UploadError::OffsetConflict => Code::Aborted,
        UploadError::ChunkTooLarge => Code::ResourceExhausted,
        UploadError::SizeLimitExceeded => Code::ResourceExhausted,
        UploadError::QuotaExceeded => Code::ResourceExhausted,
        UploadError::InvalidRequest => Code::InvalidArgument,
        UploadError::ConflictingUploadKey => Code::InvalidArgument,
        UploadError::ConflictingReferenceKey => Code::InvalidArgument,
        UploadError::ReferenceRevoked => Code::FailedPrecondition,
        UploadError::GarbageCollectionPending => Code::FailedPrecondition,
        UploadError::Expired => Code::FailedPrecondition,
        UploadError::Incomplete => Code::FailedPrecondition,
        UploadError::InvalidState => Code::FailedPrecondition,
        UploadError::Artifact(error) => {
            return artifact_status(error, detail);
        },
        UploadError::Storage => Code::Internal,
        UploadError::Io => Code::Internal,
        UploadError::Corrupt => Code::Internal,
    };
    Status::new(code, detail)
}

/// An owner behind a verified connection.
#[derive(Debug, PartialEq, Eq)]
pub struct ResolvedConnectionIdentity {
    pub owner_id: String,
    pub fingerprint: Sha256Digest,
}

/// The owner behind a connection whose leaf was fingerprinted, or why there is none.
pub open spec fn resolved(
    s: IdentityState,
    fingerprint: Result<Seq<char>, IdentityErrorView>,
) -> Result<(Seq<char>, Seq<char>), StatusView> {
    match fingerprint {
        Err(e) => Err(identity_failure(e)),
        Ok(f) => match identity::resolve(s, f) {
            Err(e) => Err(identity_failure(e)),
            Ok(owner) => Ok((owner, f)),
        },
    }
}

/// Resolves the verified peer certificate of a connection.
pub fn resolve_identity<R: IdentityRegistry>(
    registry: &R,
    fingerprint: Result<Sha256Digest, IdentityError>,
) -> (r: Result<ResolvedConnectionIdentity, Status>)
    ensures
        match resolved(registry.enrollments(), identity::seen(fingerprint)) {
            Ok((owner, f)) => r matches Ok(identity) && identity.owner_id@ == owner
                && identity.fingerprint@ == f,
            Err(e) => r matches Err(failure) && failure@ == e,
        },
{
    let fingerprint = match fingerprint {
        Ok(fingerprint) => fingerprint,
        Err(error) => {
            return Err(identity_status(&error));
        },
    };
    match registry.resolve_fingerprint(&fingerprint) {
        Ok(owner_id) => Ok(ResolvedConnectionIdentity { owner_id, fingerprint }),
        Err(error) => Err(identity_status(&error)),
    }
}

/// Whether a credential that was resolved before is still good.
pub open spec fn still_valid(s: IdentityState, owner_id: Seq<char>, fingerprint: Seq<char>) -> Result<
    (),
    StatusView,
> {
    match identity::resolve(s, fingerprint) {
        Err(e) => Err(identity_failure(e)),
        Ok(owner) => if owner == owner_id {
            Ok(())
        } else {
            Err(
                status(
                    Code::PermissionDenied,
                    "certificate enrollment owner changed unexpectedly"@,
                ),
            )
        },
    }
}

/// Confirms that a resolved credential remains active for the same owner.
pub fn revalidate<R: IdentityRegistry>(
    registry: &R,
    identity: &ResolvedConnectionIdentity,
) -> (r: Result<(), Status>)
    ensures
        seen(r) == still_valid(
            registry.enrollments(),
            identity.owner_id@,
            identity.fingerprint@,
        ),
{
    match registry.resolve_fingerprint(&identity.fingerprint) {
        Err(error) => Err(identity_status(&error)),
        Ok(owner_id) => {
            if text::same(owner_id.as_str(), identity.owner_id.as_str()) {
                Ok(())
            } else {
                Err(
                    Status::new(
                        Code::PermissionDenied,
                        "certificate enrollment owner changed unexpectedly",
                    ),
                )
            }
        },
    }
}

/// A connection that was resolved once is refused as soon as its certificate is revoked.
pub proof fn revoked_connections_are_refused(
    s: IdentityState,
    owner_id: Seq<char>,
    fingerprint: Seq<char>,
    now_ms: u64,
)
    requires
        identity::revoke(s, fingerprint, now_ms).1 is Ok,
    ensures
        still_valid(identity::revoke(s, fingerprint, now_ms).0, owner_id, fingerprint) == Err::<
            (),
            StatusView,
        >(identity_failure(IdentityErrorView::Revoked(fingerprint))),
{
}

} // verus!
