//! Offline administration of certificate enrollments.
use crate::identity;
use crate::identity::{IdentityErrorView, IdentityRegistry, IdentityState};
use crate::text;
use vstd::prelude::*;
use vstd::string::*;

verus! {

/// What an operator asks for, with the certificate files read.
#[derive(Debug, PartialEq, Eq)]
pub enum AdminRequest {
    Enroll { owner: String, certificate: Vec<u8> },
    Rotate { owner: String, old_certificate: Vec<u8>, new_certificate: Vec<u8> },
    Revoke { certificate: Vec<u8> },
}

pub open spec fn fingerprint(pem: Seq<u8>) -> Result<Seq<char>, IdentityErrorView> {
    identity::fingerprint_of(identity::first_certificate(pem))
}

/// Changes the registry as asked, and says so.
pub open spec fn administered(s: IdentityState, request: AdminRequest, now_ms: u64) -> (
    IdentityState,
    Result<Seq<char>, IdentityErrorView>,
) {
    match request {
        AdminRequest::Enroll { owner, certificate } => match fingerprint(certificate@) {
            Err(e) => (s, Err(e)),
            Ok(f) => {
                let (t, r) = identity::enroll(s, owner@, f, now_ms);
                (
                    t,
                    match r {
                        Ok(_) => Ok("enrolled "@ + f + " as "@ + owner@),
                        Err(e) => Err(e),
                    },
                )
            },
        },
        AdminRequest::Rotate { owner, old_certificate, new_certificate } => match fingerprint(
            old_certificate@,
        ) {
            Err(e) => (s, Err(e)),
            Ok(from) => match fingerprint(new_certificate@) {
                Err(e) => (s, Err(e)),
                Ok(to) => {
                    let (t, r) = identity::rotate(s, owner@, from, to, now_ms);
                    (
                        t,
                        match r {
                            Ok(_) => Ok("rotated "@ + owner@ + " from "@ + from + " to "@ + to),
                            Err(e) => Err(e),
                        },
                    )
                },
            },
        },
        AdminRequest::Revoke { certificate } => match fingerprint(certificate@) {
            Err(e) => (s, Err(e)),
            Ok(f) => {
                let (t, r) = identity::revoke(s, f, now_ms);
                (
                    t,
                    match r {
                        Ok(enrollment) => Ok("revoked "@ + f + " for "@ + enrollment.owner_id),
                        Err(e) => Err(e),
                    },
                )
            },
        },
    }
}

/// Changes a registry as an operator asks; gives the line that says so.
pub fn administer<R: IdentityRegistry>(registry: &mut R, request: AdminRequest, now_ms: u64) -> (r:
    Result<String, identity::IdentityError>)
    ensures
        ({
            let (t, answer) = administered(old(registry).enrollments(), request, now_ms);
            &&& final(registry).enrollments() == t
            &&& match answer {
                Ok(line) => r matches Ok(found) && found@ == line,
                Err(e) => r matches Err(error) && error@ == e,
            }
        }),
{
    match request {
        AdminRequest::Enroll { owner, certificate } => {
            let found = identity::certificate_fingerprint_from_pem(certificate.as_slice())?;
            let _ = registry.enroll(owner.as_str(), &found, now_ms)?;
            let mut line = text::enclosed("enrolled ", found.as_str(), " as ");
            line.append(owner.as_str());
            Ok(line)
        },
        AdminRequest::Rotate { owner, old_certificate, new_certificate } => {
            let from = identity::certificate_fingerprint_from_pem(old_certificate.as_slice())?;
            let to = identity::certificate_fingerprint_from_pem(new_certificate.as_slice())?;
            let _ = registry.rotate(owner.as_str(), &from, &to, now_ms)?;
            let mut line = text::enclosed("rotated ", owner.as_str(), " from ");
            line.append(from.as_str());
            line.append(" to ");
            line.append(to.as_str());
            Ok(line)
        },
        AdminRequest::Revoke { certificate } => {
            let found = identity::certificate_fingerprint_from_pem(certificate.as_slice())?;
            let enrollment = registry.revoke(&found, now_ms)?;
            let mut line = text::enclosed("revoked ", found.as_str(), " for ");
            line.append(enrollment.owner_id.as_str());
            Ok(line)
        },
    }
}

} // verus!
