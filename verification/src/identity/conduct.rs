//! Whom a certificate stands for, from its enrollment to its end.
use super::{
    EnrollmentState, EnrollmentView, IdentityErrorView, IdentityState,
};
use crate::digest;
use crate::identity_admin;
use crate::identity_admin::AdminRequest;
use crate::status;
use crate::status::{Code, StatusView};
use crate::text;
use vstd::prelude::*;

verus! {

/// No certificate of the owner is active.
pub open spec fn unenrolled(s: IdentityState, owner_id: Seq<char>) -> bool {
    forall|f: Seq<char>| #[trigger]
        s.dom().contains(f) ==> s[f].enrollment.owner_id != owner_id || s[f].enrollment.state
            != EnrollmentState::Active
}

/// A new certificate of an owner without one stands for that owner from its enrollment on.
pub proof fn enrolled_certificates_stand_for_their_owner(
    s: IdentityState,
    owner_id: Seq<char>,
    fingerprint: Seq<char>,
    now_ms: u64,
)
    requires
        !text::blank(owner_id),
        !s.dom().contains(fingerprint),
        unenrolled(s, owner_id),
        now_ms <= i64::MAX,
    ensures
        ({
            let (t, r) = super::enroll(s, owner_id, fingerprint, now_ms);
            &&& r is Ok
            &&& r->Ok_0 == t[fingerprint].enrollment
            &&& t.dom() == s.dom().insert(fingerprint)
            &&& t[fingerprint].enrollment.fingerprint == fingerprint
            &&& t[fingerprint].enrollment.owner_id == owner_id
            &&& t[fingerprint].enrollment.state == EnrollmentState::Active
            &&& t[fingerprint].enrollment.replacement_fingerprint is None
            &&& t[fingerprint].enrolled_at_ms == now_ms
            &&& super::resolve(t, fingerprint) == Ok::<Seq<char>, IdentityErrorView>(owner_id)
            &&& forall|f: Seq<char>| #[trigger] s.dom().contains(f) ==> t[f] == s[f]
        }),
{
    assert forall|f: Seq<char>| !super::active_for(s, f, owner_id) by {
        if s.dom().contains(f) {
        }
    }
}

/// An owner has one active certificate at a time, a certificate has one owner, and an owner has a
/// name.
pub proof fn owners_have_one_certificate(
    s: IdentityState,
    owner_id: Seq<char>,
    fingerprint: Seq<char>,
    other: Seq<char>,
    now_ms: u64,
)
    ensures
        text::blank(owner_id) ==> super::enroll(s, owner_id, fingerprint, now_ms).0 == s
            && super::enroll(s, owner_id, fingerprint, now_ms).1 is Err && super::enroll(
            s,
            owner_id,
            fingerprint,
            now_ms,
        ).1->Err_0 is Invalid,
        !text::blank(owner_id) && s.dom().contains(other) && s[other].enrollment.owner_id
            == owner_id && s[other].enrollment.state == EnrollmentState::Active
            && !s.dom().contains(fingerprint) ==> super::enroll(
            s,
            owner_id,
            fingerprint,
            now_ms,
        ).0 == s && super::enroll(s, owner_id, fingerprint, now_ms).1 is Err && super::enroll(
            s,
            owner_id,
            fingerprint,
            now_ms,
        ).1->Err_0 is Conflict,
        !text::blank(owner_id) && s.dom().contains(fingerprint) && (
        s[fingerprint].enrollment.owner_id != owner_id || s[fingerprint].enrollment.state
            != EnrollmentState::Active) ==> super::enroll(s, owner_id, fingerprint, now_ms).0 == s
            && super::enroll(s, owner_id, fingerprint, now_ms).1 is Err && super::enroll(
            s,
            owner_id,
            fingerprint,
            now_ms,
        ).1->Err_0 is Conflict,
        !text::blank(owner_id) && s.dom().contains(fingerprint)
            && s[fingerprint].enrollment.owner_id == owner_id && s[fingerprint].enrollment.state
            == EnrollmentState::Active ==> super::enroll(s, owner_id, fingerprint, now_ms) == (
            s,
            Ok::<EnrollmentView, IdentityErrorView>(s[fingerprint].enrollment),
        ),
{
    if s.dom().contains(other) && s[other].enrollment.owner_id == owner_id
        && s[other].enrollment.state == EnrollmentState::Active {
        assert(super::active_for(s, other, owner_id));
    }
}

/// Behind a rotation the new certificate stands for the owner and the old one for nobody.
pub proof fn rotation_moves_the_owner(
    s: IdentityState,
    owner_id: Seq<char>,
    old_fingerprint: Seq<char>,
    new_fingerprint: Seq<char>,
    now_ms: u64,
)
    requires
        !text::blank(owner_id),
        old_fingerprint != new_fingerprint,
        s.dom().contains(old_fingerprint),
        s[old_fingerprint].enrollment.owner_id == owner_id,
        s[old_fingerprint].enrollment.state == EnrollmentState::Active,
        !s.dom().contains(new_fingerprint),
        now_ms <= i64::MAX,
    ensures
        ({
            let (t, r) = super::rotate(s, owner_id, old_fingerprint, new_fingerprint, now_ms);
            &&& r is Ok
            &&& r->Ok_0 == t[new_fingerprint].enrollment
            &&& super::resolve(t, new_fingerprint) == Ok::<Seq<char>, IdentityErrorView>(owner_id)
            &&& super::resolve(t, old_fingerprint) == Err::<Seq<char>, IdentityErrorView>(
                IdentityErrorView::Replaced(old_fingerprint),
            )
            &&& t[old_fingerprint].enrollment.replacement_fingerprint == Some(new_fingerprint)
            &&& t[old_fingerprint].enrollment.owner_id == owner_id
            &&& t[old_fingerprint].enrolled_at_ms == s[old_fingerprint].enrolled_at_ms
            &&& t[old_fingerprint].updated_at_ms == now_ms
            &&& forall|f: Seq<char>|
                f != old_fingerprint && #[trigger] s.dom().contains(f) ==> t[f] == s[f]
        }),
{
}

/// Only an active certificate of that owner is rotated, and only to one that nobody has.
pub proof fn only_own_certificates_are_rotated(
    s: IdentityState,
    owner_id: Seq<char>,
    old_fingerprint: Seq<char>,
    new_fingerprint: Seq<char>,
    now_ms: u64,
)
    ensures
        ({
            let (t, r) = super::rotate(s, owner_id, old_fingerprint, new_fingerprint, now_ms);
            let known = s.dom().contains(old_fingerprint);
            let row = s[old_fingerprint].enrollment;
            let again = known && row.owner_id == owner_id && row.state == EnrollmentState::Replaced
                && row.replacement_fingerprint == Some(new_fingerprint);
            &&& r is Err ==> t == s
            &&& text::blank(owner_id) || old_fingerprint == new_fingerprint ==> r is Err
                && r->Err_0 is Invalid
            &&& !text::blank(owner_id) && old_fingerprint != new_fingerprint && !known ==> r
                == Err::<EnrollmentView, IdentityErrorView>(
                IdentityErrorView::NotEnrolled(old_fingerprint),
            )
            &&& !text::blank(owner_id) && old_fingerprint != new_fingerprint && known && !again && (
            row.owner_id != owner_id || row.state != EnrollmentState::Active) ==> r is Err
                && r->Err_0 is Conflict
            &&& !text::blank(owner_id) && old_fingerprint != new_fingerprint && known && !again
                && s.dom().contains(new_fingerprint) ==> r is Err && r->Err_0 is Conflict
        }),
{
}

/// A revoked certificate stands for nobody, whoever it stood for.
pub proof fn revoked_certificates_stand_for_nobody(
    s: IdentityState,
    fingerprint: Seq<char>,
    now_ms: u64,
)
    requires
        s.dom().contains(fingerprint),
        now_ms <= i64::MAX,
    ensures
        ({
            let (t, r) = super::revoke(s, fingerprint, now_ms);
            let before = s[fingerprint].enrollment;
            &&& before.state == EnrollmentState::Active ==> {
                &&& r is Ok
                &&& r->Ok_0.owner_id == before.owner_id
                &&& t[fingerprint].enrollment.state == EnrollmentState::Revoked
                &&& t[fingerprint].updated_at_ms == now_ms
                &&& super::resolve(t, fingerprint) == Err::<Seq<char>, IdentityErrorView>(
                    IdentityErrorView::Revoked(fingerprint),
                )
            }
            &&& before.state == EnrollmentState::Revoked ==> t == s && r == Ok::<
                EnrollmentView,
                IdentityErrorView,
            >(before)
            &&& before.state == EnrollmentState::Replaced ==> t == s && r is Err && r->Err_0
                is Conflict
            &&& forall|f: Seq<char>|
                f != fingerprint && #[trigger] s.dom().contains(f) ==> t[f] == s[f]
        }),
{
}

/// A certificate stands for its owner exactly while it is active.
pub proof fn active_certificates_resolve(s: IdentityState, fingerprint: Seq<char>)
    ensures
        super::resolve(s, fingerprint) is Ok <==> s.dom().contains(fingerprint)
            && s[fingerprint].enrollment.state == EnrollmentState::Active,
        super::resolve(s, fingerprint) is Ok ==> super::resolve(s, fingerprint)->Ok_0
            == s[fingerprint].enrollment.owner_id,
        !s.dom().contains(fingerprint) ==> super::resolve(s, fingerprint) == Err::<
            Seq<char>,
            IdentityErrorView,
        >(IdentityErrorView::NotEnrolled(fingerprint)),
        !s.dom().contains(fingerprint) ==> super::revoke(s, fingerprint, 0) == (
            s,
            Err::<EnrollmentView, IdentityErrorView>(IdentityErrorView::NotEnrolled(fingerprint)),
        ),
{
}

/// The identity of a caller is that of the first certificate of its chain.
pub proof fn callers_are_their_first_certificate(chain: Option<Option<Seq<Seq<u8>>>>)
    ensures
        super::leaf(chain) is Ok <==> chain is Some && chain->0 is Some && chain->0->0.len() > 0,
        super::leaf(chain) is Ok ==> super::leaf(chain)->Ok_0 == digest::digest_text(
            chain->0->0[0],
        ),
        super::leaf(chain) is Err ==> super::leaf(chain)->Err_0 is Certificate,
{
}

/// A PEM file stands for its first certificate, and for nothing without one.
pub proof fn files_are_their_first_certificate(parsed: Result<Option<Seq<u8>>, Seq<char>>)
    ensures
        super::fingerprint_of(parsed) is Ok <==> parsed is Ok && parsed->Ok_0 is Some,
        super::fingerprint_of(parsed) is Ok ==> super::fingerprint_of(parsed)->Ok_0
            == digest::digest_text(parsed->Ok_0->0),
        super::fingerprint_of(parsed) is Err ==> super::fingerprint_of(parsed)->Err_0
            is Certificate,
        parsed is Err ==> super::fingerprint_of(parsed) == Err::<Seq<char>, IdentityErrorView>(
            IdentityErrorView::Certificate(parsed->Err_0),
        ),
{
}

/// A caller is let in exactly where its certificate is active, as the owner of it; one that is
/// unknown is unauthenticated, one that has ended is denied.
pub proof fn callers_are_let_in_as_their_owner(s: IdentityState, fingerprint: Seq<char>)
    ensures
        ({
            let r = status::resolved(s, Ok::<Seq<char>, IdentityErrorView>(fingerprint));
            let known = s.dom().contains(fingerprint);
            let row = s[fingerprint].enrollment;
            &&& known && row.state == EnrollmentState::Active ==> r == Ok::<
                (Seq<char>, Seq<char>),
                StatusView,
            >((row.owner_id, fingerprint))
            &&& !known ==> r is Err && r->Err_0.code == Code::Unauthenticated
            &&& known && row.state != EnrollmentState::Active ==> r is Err && r->Err_0.code
                == Code::PermissionDenied
        }),
{
}

/// A connection goes on exactly while its certificate is active for the owner that it was let in as.
pub proof fn connections_last_while_their_owner_does(
    s: IdentityState,
    owner_id: Seq<char>,
    fingerprint: Seq<char>,
)
    ensures
        status::still_valid(s, owner_id, fingerprint) is Ok <==> s.dom().contains(fingerprint)
            && s[fingerprint].enrollment.state == EnrollmentState::Active
            && s[fingerprint].enrollment.owner_id == owner_id,
        s.dom().contains(fingerprint) && s[fingerprint].enrollment.state == EnrollmentState::Active
            && s[fingerprint].enrollment.owner_id != owner_id ==> status::still_valid(
            s,
            owner_id,
            fingerprint,
        )->Err_0.code == Code::PermissionDenied,
{
}

/// What is wrong with an identity is told by its code: unauthenticated where there is none, internal
/// where the registry fails, denied else.
pub proof fn identity_failures_have_their_codes(detail: Seq<char>)
    ensures
        status::identity_failure(IdentityErrorView::NotEnrolled(detail)).code
            == Code::Unauthenticated,
        status::identity_failure(IdentityErrorView::Certificate(detail)).code
            == Code::Unauthenticated,
        status::identity_failure(IdentityErrorView::Revoked(detail)).code
            == Code::PermissionDenied,
        status::identity_failure(IdentityErrorView::Replaced(detail)).code
            == Code::PermissionDenied,
        status::identity_failure(IdentityErrorView::Conflict(detail)).code
            == Code::PermissionDenied,
        status::identity_failure(IdentityErrorView::Invalid(detail)).code
            == Code::PermissionDenied,
        status::identity_failure(IdentityErrorView::Storage(detail)).code == Code::Internal,
        status::identity_failure(IdentityErrorView::Corrupt(detail)).code == Code::Internal,
{
}

/// The administrator's requests do to the registry what they say, on the fingerprints of the files;
/// a file without a certificate changes nothing.
pub proof fn administration_changes_the_registry(s: IdentityState, request: AdminRequest, now_ms: u64)
    ensures
        ({
            let (t, r) = identity_admin::administered(s, request, now_ms);
            let print = |pem: Seq<u8>| super::fingerprint_of(super::first_certificate(pem));
            match request {
                AdminRequest::Enroll { owner, certificate } => match print(certificate@) {
                    Ok(f) => t == super::enroll(s, owner@, f, now_ms).0 && (r is Ok
                        <==> super::enroll(s, owner@, f, now_ms).1 is Ok),
                    Err(e) => t == s && r == Err::<Seq<char>, IdentityErrorView>(e),
                },
                AdminRequest::Rotate { owner, old_certificate, new_certificate } => match (
                    print(old_certificate@),
                    print(new_certificate@),
                ) {
                    (Ok(from), Ok(to)) => t == super::rotate(s, owner@, from, to, now_ms).0 && (r
                        is Ok <==> super::rotate(s, owner@, from, to, now_ms).1 is Ok),
                    _ => t == s && r is Err,
                },
                AdminRequest::Revoke { certificate } => match print(certificate@) {
                    Ok(f) => t == super::revoke(s, f, now_ms).0 && (r is Ok <==> super::revoke(
                        s,
                        f,
                        now_ms,
                    ).1 is Ok),
                    Err(e) => t == s && r == Err::<Seq<char>, IdentityErrorView>(e),
                },
            }
        }),
{
}

/// The numbers under which the states of an enrollment are stored.
pub proof fn enrollment_numbers_are_fixed()
    ensures
        EnrollmentState::Active.code() == 1,
        EnrollmentState::Replaced.code() == 2,
        EnrollmentState::Revoked.code() == 3,
{
}

/// A rotation that was made is answered again with the certificate that took over, as long as that
/// one stands for the owner, and changes nothing.
pub proof fn rotations_can_be_repeated(
    s: IdentityState,
    owner_id: Seq<char>,
    old_fingerprint: Seq<char>,
    new_fingerprint: Seq<char>,
    now_ms: u64,
    later_ms: u64,
)
    requires
        super::rotate(s, owner_id, old_fingerprint, new_fingerprint, now_ms).1 is Ok,
    ensures
        ({
            let (t, r) = super::rotate(s, owner_id, old_fingerprint, new_fingerprint, now_ms);
            super::rotate(t, owner_id, old_fingerprint, new_fingerprint, later_ms) == (t, r)
        }),
{
}

/// A rotation to a certificate that is known, to the same one, for nobody, or at a time that cannot
/// be stored is refused where it was not made before.
pub proof fn bad_rotations_are_refused(
    s: IdentityState,
    owner_id: Seq<char>,
    old_fingerprint: Seq<char>,
    new_fingerprint: Seq<char>,
    now_ms: u64,
)
    requires
        s.dom().contains(old_fingerprint) ==> s[old_fingerprint].enrollment.state
            == EnrollmentState::Active,
        text::blank(owner_id) || old_fingerprint == new_fingerprint || s.dom().contains(
            new_fingerprint,
        ) || !s.dom().contains(old_fingerprint) || now_ms > i64::MAX,
    ensures
        super::rotate(s, owner_id, old_fingerprint, new_fingerprint, now_ms).0 == s,
        super::rotate(s, owner_id, old_fingerprint, new_fingerprint, now_ms).1 is Err,
{
}

} // verus!
