//! Which uploads and downloads are allowed, and how far they go.
use super::{
    BeginUploadRequestView, UploadSessionView, UploadState,
};
use crate::digest;
use crate::identity::{EnrollmentState, IdentityState};
use crate::status::{Code, StatusView, UploadError};
use vstd::prelude::*;

verus! {

/// An upload begins exactly where it lives for a while of at most a day and names its content by a
/// digest; it belongs to whoever began it, and ends when its time is up.
pub proof fn uploads_begin_within_policy(
    owner_id: Seq<char>,
    request: BeginUploadRequestView,
    now_ms: u64,
)
    ensures
        ({
            let r = super::begun(owner_id, request, now_ms);
            &&& r is Ok <==> 0 < request.ttl_ms <= 24 * 60 * 60 * 1000 && digest::canonical(
                request.expected_digest,
            )
            &&& r is Err ==> r->Err_0.code == Code::InvalidArgument
            &&& r is Ok ==> {
                let begin = r->Ok_0;
                &&& begin.owner_id == owner_id
                &&& begin.upload_key == request.upload_key
                &&& begin.expected_digest == request.expected_digest
                &&& begin.expected_size_bytes == request.expected_size_bytes
                &&& begin.media_type == request.media_type
                &&& begin.now_ms == now_ms
                &&& now_ms + request.ttl_ms <= u64::MAX ==> begin.expires_at_ms == now_ms
                    + request.ttl_ms
            }
        }),
{
}

/// A stream of chunks is of one session: the first chunk chooses it, each later one has to name it.
pub proof fn streams_are_of_one_session(session: Option<Seq<char>>, upload_id: Seq<char>)
    ensures
        ({
            let r = super::chunk_accepted(session, upload_id);
            &&& r is Ok <==> upload_id.len() > 0 && (session is None || session == Some(upload_id))
            &&& r is Ok ==> r->Ok_0 == Some(upload_id)
            &&& r is Err ==> r->Err_0.code == Code::InvalidArgument
        }),
{
}

/// A chunk is taken exactly where the certificate of the connection is still active for its owner
/// and the chunk belongs to the stream.
pub proof fn chunks_are_taken_from_active_owners(
    session: Option<Seq<char>>,
    enrollments: IdentityState,
    owner_id: Seq<char>,
    fingerprint: Seq<char>,
    upload_id: Seq<char>,
)
    ensures
        super::chunk_authorized(session, enrollments, owner_id, fingerprint, upload_id) is Ok <==> {
            &&& enrollments.dom().contains(fingerprint)
            &&& enrollments[fingerprint].enrollment.state == EnrollmentState::Active
            &&& enrollments[fingerprint].enrollment.owner_id == owner_id
            &&& upload_id.len() > 0
            &&& session is None || session == Some(upload_id)
        },
{
}

/// A content is read exactly by those who refer to it.
pub proof fn contents_are_read_by_their_referrers(
    referenced: Result<bool, (UploadError, Seq<char>)>,
)
    ensures
        super::read_problem(referenced) is None <==> referenced == Ok::<
            bool,
            (UploadError, Seq<char>),
        >(true),
        referenced == Ok::<bool, (UploadError, Seq<char>)>(false) ==> super::read_problem(
            referenced,
        )->0.code == Code::PermissionDenied,
{
}

/// A caller without a client certificate has no name here.
pub proof fn owners_are_named_by_their_certificate(chain: Option<Option<Seq<Seq<u8>>>>)
    ensures
        super::certificate_owner(chain) is Ok <==> chain is Some && chain->0 is Some
            && chain->0->0.len() > 0,
        super::certificate_owner(chain) is Ok ==> super::certificate_owner(chain)->Ok_0 == "mtls:"@
            + digest::digest_text(chain->0->0[0]),
        super::certificate_owner(chain) is Err ==> super::certificate_owner(chain)->Err_0.code
            == Code::Unauthenticated,
{
}

/// A download starts where it was asked to, inside the content, and goes as far as was asked for or
/// to the end; what is missing before it is data loss.
pub proof fn downloads_go_as_far_as_asked(
    size_bytes: u64,
    offset: u64,
    max_bytes: u64,
    skipped: Result<u64, Seq<char>>,
)
    ensures
        ({
            let r: Result<u64, StatusView> = super::download(size_bytes, offset, max_bytes, skipped);
            &&& r is Ok <==> offset <= size_bytes && skipped == Ok::<u64, Seq<char>>(offset)
            &&& r is Ok && max_bytes == 0 ==> r->Ok_0 == size_bytes - offset
            &&& r is Ok && max_bytes > 0 && size_bytes - offset <= max_bytes ==> r->Ok_0
                == size_bytes - offset
            &&& r is Ok && max_bytes > 0 && size_bytes - offset > max_bytes ==> r->Ok_0 == max_bytes
            &&& offset > size_bytes ==> r->Err_0.code == Code::OutOfRange
            &&& offset <= size_bytes && skipped is Err ==> r->Err_0.code == Code::Internal
            &&& offset <= size_bytes && skipped is Ok && skipped->Ok_0 != offset ==> r->Err_0.code
                == Code::DataLoss
        }),
{
}

/// A session is told as it stands.
pub proof fn sessions_are_told_as_they_stand(session: UploadSessionView)
    ensures
        ({
            let m = super::session_message(session);
            &&& m.upload_id == session.upload_id
            &&& m.upload_key == session.upload_key
            &&& m.expected_digest == session.expected_digest
            &&& m.expected_size_bytes == session.expected_size_bytes
            &&& m.media_type == session.media_type
            &&& m.committed_offset == session.committed_offset
            &&& m.expires_at_ms == session.expires_at_ms
            &&& m.state == match session.state {
                UploadState::Open => 1i32,
                UploadState::Finalizing => 2i32,
                UploadState::Completed => 3i32,
                UploadState::Failed => 4i32,
            }
            &&& m.artifact is Some <==> session.artifact is Some
            &&& session.artifact is Some ==> m.artifact->0.digest == session.artifact->0.digest
                && m.artifact->0.size_bytes == session.artifact->0.size_bytes
        }),
{
}

} // verus!
