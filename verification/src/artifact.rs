//! The artifact service: upload sessions, and downloads in bounded chunks.
pub mod conduct;

use crate::digest;
use crate::digest::Sha256Digest;
use crate::identity;
use crate::identity::{IdentityErrorView, IdentityRegistry, IdentityState};
use crate::status;
use crate::status::{Code, ResolvedConnectionIdentity, Status, StatusView, UploadError};
use crate::text;
use vstd::prelude::*;
use vstd::string::*;

verus! {

pub const MAX_UPLOAD_TTL_MS: u64 = 86400000;

pub const DOWNLOAD_CHUNK_BYTES: usize = 65536;

/// Where an upload stands.
#[derive(Clone, Copy, Debug, PartialEq, Eq, Structural)]
pub enum UploadState {
    Open,
    Finalizing,
    Completed,
    Failed,
}

/// A request for an upload session.
#[derive(Debug, PartialEq, Eq)]
pub struct BeginUploadRequest {
    pub upload_key: String,
    pub expected_digest: String,
    pub expected_size_bytes: u64,
    pub media_type: String,
    pub ttl_ms: u64,
}

pub ghost struct BeginUploadRequestView {
    pub upload_key: Seq<char>,
    pub expected_digest: Seq<char>,
    pub expected_size_bytes: u64,
    pub media_type: Seq<char>,
    pub ttl_ms: u64,
}

impl View for BeginUploadRequest {
    type V = BeginUploadRequestView;

    open spec fn view(&self) -> BeginUploadRequestView {
        BeginUploadRequestView {
            upload_key: self.upload_key@,
            expected_digest: self.expected_digest@,
            expected_size_bytes: self.expected_size_bytes,
            media_type: self.media_type@,
            ttl_ms: self.ttl_ms,
        }
    }
}

/// An upload session to be made.
#[derive(Debug, PartialEq, Eq)]
pub struct BeginUpload {
    pub owner_id: String,
    pub upload_key: String,
    pub expected_digest: Sha256Digest,
    pub expected_size_bytes: u64,
    pub media_type: String,
    pub now_ms: u64,
    pub expires_at_ms: u64,
}

pub ghost struct BeginUploadView {
    pub owner_id: Seq<char>,
    pub upload_key: Seq<char>,
    pub expected_digest: Seq<char>,
    pub expected_size_bytes: u64,
    pub media_type: Seq<char>,
    pub now_ms: u64,
    pub expires_at_ms: u64,
}

impl View for BeginUpload {
    type V = BeginUploadView;

    open spec fn view(&self) -> BeginUploadView {
        BeginUploadView {
            owner_id: self.owner_id@,
            upload_key: self.upload_key@,
            expected_digest: self.expected_digest@,
            expected_size_bytes: self.expected_size_bytes,
            media_type: self.media_type@,
            now_ms: self.now_ms,
            expires_at_ms: self.expires_at_ms,
        }
    }
}

/// Stored content by digest and size.
#[derive(Debug, PartialEq, Eq)]
pub struct ArtifactIdentity {
    pub digest: Sha256Digest,
    pub size_bytes: u64,
}

pub ghost struct ArtifactIdentityView {
    pub digest: Seq<char>,
    pub size_bytes: u64,
}

impl View for ArtifactIdentity {
    type V = ArtifactIdentityView;

    open spec fn view(&self) -> ArtifactIdentityView {
        ArtifactIdentityView {
            digest: self.digest@,
            size_bytes: self.size_bytes,
        }
    }
}

/// An artifact identity on the wire.
#[derive(Debug, PartialEq, Eq)]
pub struct ArtifactIdentityMessage {
    pub digest: String,
    pub size_bytes: u64,
}

pub ghost struct ArtifactIdentityMessageView {
    pub digest: Seq<char>,
    pub size_bytes: u64,
}

impl View for ArtifactIdentityMessage {
    type V = ArtifactIdentityMessageView;

    open spec fn view(&self) -> ArtifactIdentityMessageView {
        ArtifactIdentityMessageView {
            digest: self.digest@,
            size_bytes: self.size_bytes,
        }
    }
}

pub open spec fn optional_artifact_identity(value: Option<ArtifactIdentity>) -> Option<ArtifactIdentityView> {
    match value {
        Some(v) => Some(v@),
        None => None,
    }
}

pub open spec fn optional_artifact_identity_message(value: Option<ArtifactIdentityMessage>) -> Option<ArtifactIdentityMessageView> {
    match value {
        Some(v) => Some(v@),
        None => None,
    }
}

/// An upload session.
#[derive(Debug, PartialEq, Eq)]
pub struct UploadSession {
    pub upload_id: String,
    pub upload_key: String,
    pub expected_digest: Sha256Digest,
    pub expected_size_bytes: u64,
    pub media_type: String,
    pub committed_offset: u64,
    pub state: UploadState,
    pub expires_at_ms: u64,
    pub artifact: Option<ArtifactIdentity>,
}

pub ghost struct UploadSessionView {
    pub upload_id: Seq<char>,
    pub upload_key: Seq<char>,
    pub expected_digest: Seq<char>,
    pub expected_size_bytes: u64,
    pub media_type: Seq<char>,
    pub committed_offset: u64,
    pub state: UploadState,
    pub expires_at_ms: u64,
    pub artifact: Option<ArtifactIdentityView>,
}

impl View for UploadSession {
    type V = UploadSessionView;

    open spec fn view(&self) -> UploadSessionView {
        UploadSessionView {
            upload_id: self.upload_id@,
            upload_key: self.upload_key@,
            expected_digest: self.expected_digest@,
            expected_size_bytes: self.expected_size_bytes,
            media_type: self.media_type@,
            committed_offset: self.committed_offset,
            state: self.state,
            expires_at_ms: self.expires_at_ms,
            artifact: optional_artifact_identity(self.artifact),
        }
    }
}

/// An upload session on the wire.
#[derive(Debug, PartialEq, Eq)]
pub struct UploadSessionMessage {
    pub upload_id: String,
    pub upload_key: String,
    pub expected_digest: String,
    pub expected_size_bytes: u64,
    pub media_type: String,
    pub committed_offset: u64,
    pub state: i32,
    pub expires_at_ms: u64,
    pub artifact: Option<ArtifactIdentityMessage>,
}

pub ghost struct UploadSessionMessageView {
    pub upload_id: Seq<char>,
    pub upload_key: Seq<char>,
    pub expected_digest: Seq<char>,
    pub expected_size_bytes: u64,
    pub media_type: Seq<char>,
    pub committed_offset: u64,
    pub state: i32,
    pub expires_at_ms: u64,
    pub artifact: Option<ArtifactIdentityMessageView>,
}

impl View for UploadSessionMessage {
    type V = UploadSessionMessageView;

    open spec fn view(&self) -> UploadSessionMessageView {
        UploadSessionMessageView {
            upload_id: self.upload_id@,
            upload_key: self.upload_key@,
            expected_digest: self.expected_digest@,
            expected_size_bytes: self.expected_size_bytes,
            media_type: self.media_type@,
            committed_offset: self.committed_offset,
            state: self.state,
            expires_at_ms: self.expires_at_ms,
            artifact: optional_artifact_identity_message(self.artifact),
        }
    }
}

/// The refusal of a digest that is not canonical.
pub open spec fn digest_refused() -> StatusView {
    status::status(
        Code::InvalidArgument,
        "invalid artifact digest: digest must be sha256: and 64 lowercase hexadecimal digits"@,
    )
}

pub fn parse_digest(value: &str) -> (r: Result<Sha256Digest, Status>)
    ensures
        if digest::canonical(value@) {
            r matches Ok(found) && found@ == value@
        } else {
            r matches Err(e) && e@ == digest_refused()
        },
{
    match Sha256Digest::parse(value) {
        Some(found) => Ok(found),
        None => Err(
            Status::new(
                Code::InvalidArgument,
                "invalid artifact digest: digest must be sha256: and 64 lowercase hexadecimal digits",
            ),
        ),
    }
}

pub open spec fn saturated(a: u64, b: u64) -> u64 {
    if a + b > u64::MAX {
        u64::MAX
    } else {
        (a + b) as u64
    }
}

/// The session that a request asks for, or why there is none.
pub open spec fn begun(owner_id: Seq<char>, request: BeginUploadRequestView, now_ms: u64) -> Result<
    BeginUploadView,
    StatusView,
> {
    if request.ttl_ms == 0 || request.ttl_ms > MAX_UPLOAD_TTL_MS {
        Err(status::status(Code::InvalidArgument, "upload TTL is outside policy"@))
    } else if !digest::canonical(request.expected_digest) {
        Err(digest_refused())
    } else {
        Ok(
            BeginUploadView {
                owner_id,
                upload_key: request.upload_key,
                expected_digest: request.expected_digest,
                expected_size_bytes: request.expected_size_bytes,
                media_type: request.media_type,
                now_ms,
                expires_at_ms: saturated(now_ms, request.ttl_ms),
            },
        )
    }
}

/// Makes the session that a request asks for.
pub fn begin_upload(owner_id: &str, request: BeginUploadRequest, now_ms: u64) -> (r: Result<
    BeginUpload,
    Status,
>)
    ensures
        match begun(owner_id@, request@, now_ms) {
            Ok(begin) => r matches Ok(found) && found@ == begin,
            Err(e) => r matches Err(error) && error@ == e,
        },
{
    if request.ttl_ms == 0 || request.ttl_ms > MAX_UPLOAD_TTL_MS {
        return Err(Status::new(Code::InvalidArgument, "upload TTL is outside policy"));
    }
    let expected_digest = parse_digest(request.expected_digest.as_str())?;
    Ok(
        BeginUpload {
            owner_id: owner_id.to_owned(),
            upload_key: request.upload_key,
            expected_digest,
            expected_size_bytes: request.expected_size_bytes,
            media_type: request.media_type,
            now_ms,
            expires_at_ms: now_ms.saturating_add(request.ttl_ms),
        },
    )
}

/// Every session runs out, within a day of its start.
pub proof fn sessions_expire(owner_id: Seq<char>, request: BeginUploadRequestView, now_ms: u64)
    requires
        begun(owner_id, request, now_ms) is Ok,
    ensures
        ({
            let begin = begun(owner_id, request, now_ms)->Ok_0;
            &&& begin.expires_at_ms >= begin.now_ms
            &&& begin.expires_at_ms - begin.now_ms <= MAX_UPLOAD_TTL_MS
        }),
{
}

/// The owner behind a client certificate: none of the connection is trusted but its leaf.
pub open spec fn certificate_owner(chain: Option<Option<Seq<Seq<u8>>>>) -> Result<
    Seq<char>,
    StatusView,
> {
    match chain {
        None => Err(status::status(Code::Unauthenticated, "artifact RPC requires mutual TLS"@)),
        Some(None) => Err(
            status::status(Code::Unauthenticated, "artifact RPC requires a client certificate"@),
        ),
        Some(Some(certificates)) => if certificates.len() == 0 {
            Err(
                status::status(
                    Code::Unauthenticated,
                    "artifact RPC client certificate chain is empty"@,
                ),
            )
        } else {
            Ok("mtls:"@ + digest::digest_text(certificates[0]))
        },
    }
}

/// The owner behind a client certificate. `chain` is none without mutual TLS, and holds none
/// without a client certificate.
pub fn mtls_owner(chain: Option<Option<&Vec<Vec<u8>>>>) -> (r: Result<String, Status>)
    ensures
        match certificate_owner(identity::chain_view(chain)) {
            Ok(owner) => r matches Ok(found) && found@ == owner,
            Err(e) => r matches Err(error) && error@ == e,
        },
{
    match chain {
        None => Err(Status::new(Code::Unauthenticated, "artifact RPC requires mutual TLS")),
        Some(None) => Err(
            Status::new(Code::Unauthenticated, "artifact RPC requires a client certificate"),
        ),
        Some(Some(certificates)) => {
            if certificates.len() == 0 {
                return Err(
                    Status::new(
                        Code::Unauthenticated,
                        "artifact RPC client certificate chain is empty",
                    ),
                );
            }
            let leaf = Sha256Digest::digest_bytes(certificates[0].as_slice());
            Ok(text::concat("mtls:", leaf.as_str()))
        },
    }
}

/// Why an owner may not read an artifact, by what the upload store says of their references.
pub open spec fn read_problem(referenced: Result<bool, (UploadError, Seq<char>)>) -> Option<
    StatusView,
> {
    match referenced {
        Ok(true) => None,
        Ok(false) => Some(
            status::status(
                Code::PermissionDenied,
                "artifact is not referenced by this logical owner"@,
            ),
        ),
        Err((error, detail)) => Some(status::status(status::upload_code(error), detail)),
    }
}

pub open spec fn reference_view(referenced: Result<bool, (UploadError, String)>) -> Result<
    bool,
    (UploadError, Seq<char>),
> {
    match referenced {
        Ok(answer) => Ok(answer),
        Err((error, detail)) => Err((error, detail@)),
    }
}

/// Lets an owner read an artifact that one of their references names.
pub fn authorize_referenced_artifact(referenced: Result<bool, (UploadError, String)>) -> (r: Result<
    (),
    Status,
>)
    ensures
        match read_problem(reference_view(referenced)) {
            Some(e) => r matches Err(error) && error@ == e,
            None => r is Ok,
        },
{
    match referenced {
        Ok(true) => Ok(()),
        Ok(false) => Err(
            Status::new(
                Code::PermissionDenied,
                "artifact is not referenced by this logical owner",
            ),
        ),
        Err((error, detail)) => Err(status::upload_status(error, detail.as_str())),
    }
}

/// One stream of chunks, which belong to one session.
#[derive(Debug, PartialEq, Eq)]
pub struct UploadStream {
    upload_id: Option<String>,
}

impl View for UploadStream {
    type V = Option<Seq<char>>;

    closed spec fn view(&self) -> Option<Seq<char>> {
        text::optional(self.upload_id)
    }
}

/// Takes in the session of the next chunk.
pub open spec fn chunk_accepted(session: Option<Seq<char>>, upload_id: Seq<char>) -> Result<
    Option<Seq<char>>,
    StatusView,
> {
    if upload_id.len() == 0 {
        Err(status::status(Code::InvalidArgument, "upload ID is missing"@))
    } else if session is Some && session != Some(upload_id) {
        Err(status::status(Code::InvalidArgument, "one upload stream cannot mix session IDs"@))
    } else {
        Ok(Some(upload_id))
    }
}

/// Takes in the session of the next chunk, provided that the owner's credential is still good.
pub open spec fn chunk_authorized(
    session: Option<Seq<char>>,
    enrollments: IdentityState,
    owner_id: Seq<char>,
    fingerprint: Seq<char>,
    upload_id: Seq<char>,
) -> Result<Option<Seq<char>>, StatusView> {
    match status::still_valid(enrollments, owner_id, fingerprint) {
        Err(e) => Err(e),
        Ok(_) => chunk_accepted(session, upload_id),
    }
}

impl UploadStream {
    pub fn new() -> (r: Self)
        ensures
            r@ == None::<Seq<char>>,
    {
        UploadStream { upload_id: None }
    }

    /// Takes in the session of the next chunk.
    pub fn accept(&mut self, upload_id: &str) -> (r: Result<(), Status>)
        ensures
            match chunk_accepted(old(self)@, upload_id@) {
                Ok(session) => r is Ok && final(self)@ == session,
                Err(e) => r matches Err(error) && error@ == e && final(self)@ == old(self)@,
            },
    {
        if text::chars_of(upload_id).len() == 0 {
            return Err(Status::new(Code::InvalidArgument, "upload ID is missing"));
        }
        match &self.upload_id {
            Some(expected) => {
                if !text::same(expected.as_str(), upload_id) {
                    return Err(
                        Status::new(
                            Code::InvalidArgument,
                            "one upload stream cannot mix session IDs",
                        ),
                    );
                }
                Ok(())
            },
            None => {
                self.upload_id = Some(upload_id.to_owned());
                Ok(())
            },
        }
    }

    /// Takes in the session of the next chunk of an owner whose credential is still good. The
    /// chunk may be committed only behind this.
    pub fn accept_authorized<R: IdentityRegistry>(
        &mut self,
        registry: &R,
        identity: &ResolvedConnectionIdentity,
        upload_id: &str,
    ) -> (r: Result<(), Status>)
        ensures
            match chunk_authorized(
                old(self)@,
                registry.enrollments(),
                identity.owner_id@,
                identity.fingerprint@,
                upload_id@,
            ) {
                Ok(session) => r is Ok && final(self)@ == session,
                Err(e) => r matches Err(error) && error@ == e && final(self)@ == old(self)@,
            },
    {
        status::revalidate(registry, identity)?;
        self.accept(upload_id)
    }

    /// The session of the whole stream.
    pub fn finish(self) -> (r: Result<String, Status>)
        ensures
            match self@ {
                Some(session) => r matches Ok(found) && found@ == session,
                None => r matches Err(e) && e@ == status::status(
                    Code::InvalidArgument,
                    "upload stream is empty"@,
                ),
            },
    {
        match self.upload_id {
            Some(session) => Ok(session),
            None => Err(Status::new(Code::InvalidArgument, "upload stream is empty")),
        }
    }
}

/// A stream never moves from one session to another.
pub proof fn streams_keep_their_session(session: Seq<char>, upload_id: Seq<char>)
    ensures
        chunk_accepted(Some(session), upload_id) matches Ok(next) ==> next == Some(session),
{
}

/// Once a certificate is revoked, no further chunk of its uploads is taken in.
pub proof fn revoked_uploads_stop(
    session: Option<Seq<char>>,
    before: IdentityState,
    owner_id: Seq<char>,
    fingerprint: Seq<char>,
    upload_id: Seq<char>,
    now_ms: u64,
)
    requires
        identity::revoke(before, fingerprint, now_ms).1 is Ok,
    ensures
        chunk_authorized(
            session,
            identity::revoke(before, fingerprint, now_ms).0,
            owner_id,
            fingerprint,
            upload_id,
        ) == Err::<Option<Seq<char>>, StatusView>(
            status::identity_failure(IdentityErrorView::Revoked(fingerprint)),
        ),
{
    status::revoked_connections_are_refused(before, owner_id, fingerprint, now_ms);
}

/// Once a certificate is replaced, no further chunk of its uploads is taken in.
pub proof fn replaced_uploads_stop(
    session: Option<Seq<char>>,
    before: IdentityState,
    owner_id: Seq<char>,
    fingerprint: Seq<char>,
    replacement: Seq<char>,
    upload_id: Seq<char>,
    now_ms: u64,
)
    requires
        identity::rotate(before, owner_id, fingerprint, replacement, now_ms).1 is Ok,
    ensures
        chunk_authorized(
            session,
            identity::rotate(before, owner_id, fingerprint, replacement, now_ms).0,
            owner_id,
            fingerprint,
            upload_id,
        ) is Err,
{
}

/// How much of an artifact a download sends.
pub open spec fn remaining(size_bytes: u64, offset: u64, max_bytes: u64) -> u64 {
    let available = (size_bytes - offset) as u64;
    if max_bytes == 0 || available <= max_bytes {
        available
    } else {
        max_bytes
    }
}

/// Why a download cannot start, or how much it sends. `skipped` is what was read over to get to
/// the offset.
pub open spec fn download(
    size_bytes: u64,
    offset: u64,
    max_bytes: u64,
    skipped: Result<u64, Seq<char>>,
) -> Result<u64, StatusView> {
    if offset > size_bytes {
        Err(status::status(Code::OutOfRange, "download offset exceeds artifact size"@))
    } else {
        match skipped {
            Err(e) => Err(status::status(Code::Internal, "skip artifact prefix: "@ + e)),
            Ok(n) => if n != offset {
                Err(status::status(Code::DataLoss, "artifact ended before requested offset"@))
            } else {
                Ok(remaining(size_bytes, offset, max_bytes))
            },
        }
    }
}

pub open spec fn skipped_view(skipped: Result<u64, String>) -> Result<u64, Seq<char>> {
    match skipped {
        Ok(n) => Ok(n),
        Err(e) => Err(e@),
    }
}

/// A download past the end is refused before anything is read.
pub fn check_download_offset(size_bytes: u64, offset: u64) -> (r: Result<(), Status>)
    ensures
        r is Ok <==> offset <= size_bytes,
        r matches Err(e) ==> e@ == status::status(
            Code::OutOfRange,
            "download offset exceeds artifact size"@,
        ),
{
    if offset > size_bytes {
        return Err(Status::new(Code::OutOfRange, "download offset exceeds artifact size"));
    }
    Ok(())
}

/// How much a download sends.
pub fn start_download(
    size_bytes: u64,
    offset: u64,
    max_bytes: u64,
    skipped: Result<u64, String>,
) -> (r: Result<u64, Status>)
    ensures
        status::seen(r) == download(size_bytes, offset, max_bytes, skipped_view(skipped)),
{
    check_download_offset(size_bytes, offset)?;
    match skipped {
        Err(error) => {
            let detail = text::concat("skip artifact prefix: ", error.as_str());
            Err(Status::new(Code::Internal, detail.as_str()))
        },
        Ok(n) => {
            if n != offset {
                return Err(Status::new(Code::DataLoss, "artifact ended before requested offset"));
            }
            let available: u64 = size_bytes - offset;
            if max_bytes == 0 || available <= max_bytes {
                Ok(available)
            } else {
                Ok(max_bytes)
            }
        },
    }
}

/// A download never reaches past the end of the artifact, nor past what was asked for.
pub proof fn downloads_stay_in_range(
    size_bytes: u64,
    offset: u64,
    max_bytes: u64,
    skipped: Result<u64, Seq<char>>,
)
    requires
        download(size_bytes, offset, max_bytes, skipped) is Ok,
    ensures
        ({
            let n = download(size_bytes, offset, max_bytes, skipped)->Ok_0;
            &&& offset + n <= size_bytes
            &&& max_bytes != 0 ==> n <= max_bytes
            &&& max_bytes == 0 ==> offset + n == size_bytes
        }),
{
}

/// A piece of an artifact.
#[derive(Debug, PartialEq, Eq)]
pub struct DownloadChunk {
    pub offset: u64,
    pub data: Vec<u8>,
}

/// The place of a download: where the next chunk starts, and how much is left to send.
#[derive(Clone, Copy, Debug, PartialEq, Eq, Structural)]
pub struct DownloadCursor {
    pub offset: u64,
    pub left: u64,
}

impl DownloadCursor {
    /// How much to read next.
    pub fn wanted(&self) -> (r: usize)
        ensures
            r <= DOWNLOAD_CHUNK_BYTES,
            r <= self.left,
            r == DOWNLOAD_CHUNK_BYTES || r == self.left,
    {
        if self.left < DOWNLOAD_CHUNK_BYTES as u64 {
            self.left as usize
        } else {
            DOWNLOAD_CHUNK_BYTES
        }
    }

    /// The chunk of what was read; none where nothing was.
    pub fn advance(&mut self, data: Vec<u8>) -> (r: Option<DownloadChunk>)
        requires
            data@.len() <= old(self).left,
        ensures
            final(self).offset == saturated(old(self).offset, data@.len() as u64),
            final(self).left == old(self).left - data@.len(),
            if data@.len() == 0 {
                r is None
            } else {
                r matches Some(chunk) && chunk.offset == old(self).offset && chunk.data@ == data@
            },
    {
        let read: u64 = data.len() as u64;
        if read == 0 {
            return None;
        }
        let offset: u64 = self.offset;
        self.offset = self.offset.saturating_add(read);
        self.left = self.left - read;
        Some(DownloadChunk { offset, data })
    }
}

/// The wire number of an upload's state.
pub open spec fn state_code(state: UploadState) -> i32 {
    match state {
        UploadState::Open => 1i32,
        UploadState::Finalizing => 2i32,
        UploadState::Completed => 3i32,
        UploadState::Failed => 4i32,
    }
}

pub open spec fn identity_message(identity: ArtifactIdentityView) -> ArtifactIdentityMessageView {
    ArtifactIdentityMessageView { digest: identity.digest, size_bytes: identity.size_bytes }
}

pub open spec fn session_message(session: UploadSessionView) -> UploadSessionMessageView {
    UploadSessionMessageView {
        upload_id: session.upload_id,
        upload_key: session.upload_key,
        expected_digest: session.expected_digest,
        expected_size_bytes: session.expected_size_bytes,
        media_type: session.media_type,
        committed_offset: session.committed_offset,
        state: state_code(session.state),
        expires_at_ms: session.expires_at_ms,
        artifact: match session.artifact {
            Some(identity) => Some(identity_message(identity)),
            None => None,
        },
    }
}

pub fn identity_to_proto(identity: ArtifactIdentity) -> (r: ArtifactIdentityMessage)
    ensures
        r@ == identity_message(identity@),
{
    ArtifactIdentityMessage {
        digest: identity.digest.as_str().to_owned(),
        size_bytes: identity.size_bytes,
    }
}

pub fn session_to_proto(session: UploadSession) -> (r: UploadSessionMessage)
    ensures
        r@ == session_message(session@),
{
    let state: i32 = match session.state {
        UploadState::Open => 1,
        UploadState::Finalizing => 2,
        UploadState::Completed => 3,
        UploadState::Failed => 4,
    };
    UploadSessionMessage {
        upload_id: session.upload_id,
        upload_key: session.upload_key,
        expected_digest: session.expected_digest.as_str().to_owned(),
        expected_size_bytes: session.expected_size_bytes,
        media_type: session.media_type,
        committed_offset: session.committed_offset,
        state,
        expires_at_ms: session.expires_at_ms,
        artifact: match session.artifact {
            Some(identity) => Some(identity_to_proto(identity)),
            None => None,
        },
    }
}

} // verus!
