//! Certificate enrollment: which certificate stands for which owner.
pub mod conduct;

use crate::digest;
use crate::digest::Sha256Digest;
use crate::ordered;
use crate::ordered::TextMap;
use crate::text;
use vstd::prelude::*;
use vstd::string::*;

verus! {

#[derive(Clone, Copy, Debug, PartialEq, Eq, Structural)]
pub enum EnrollmentState {
    Active,
    Replaced,
    Revoked,
}

impl EnrollmentState {
    /// The stored number.
    pub open spec fn code(self) -> i64 {
        match self {
            EnrollmentState::Active => 1i64,
            EnrollmentState::Replaced => 2i64,
            EnrollmentState::Revoked => 3i64,
        }
    }

    pub open spec fn label(self) -> Seq<char> {
        match self {
            EnrollmentState::Active => "Active"@,
            EnrollmentState::Replaced => "Replaced"@,
            EnrollmentState::Revoked => "Revoked"@,
        }
    }

    pub fn as_i64(self) -> (r: i64)
        ensures
            r == self.code(),
    {
        match self {
            EnrollmentState::Active => 1,
            EnrollmentState::Replaced => 2,
            EnrollmentState::Revoked => 3,
        }
    }

    /// The state behind a stored number.
    pub fn from_i64(value: i64) -> (r: Result<Self, IdentityError>)
        ensures
            r is Ok <==> 1 <= value <= 3,
            r matches Ok(state) ==> state.code() == value,
            r matches Err(e) ==> e@ == IdentityErrorView::Corrupt(
                "unknown certificate enrollment state "@ + text::signed_decimal(value as int),
            ),
    {
        match value {
            1 => Ok(EnrollmentState::Active),
            2 => Ok(EnrollmentState::Replaced),
            3 => Ok(EnrollmentState::Revoked),
            _ => {
                let mut detail = "unknown certificate enrollment state ".to_owned();
                text::push_signed(&mut detail, value);
                Err(IdentityError::Corrupt(detail))
            },
        }
    }

    pub fn name(self) -> (r: &'static str)
        ensures
            r@ == self.label(),
    {
        match self {
            EnrollmentState::Active => "Active",
            EnrollmentState::Replaced => "Replaced",
            EnrollmentState::Revoked => "Revoked",
        }
    }
}

/// What is known of one certificate.
#[derive(Debug, PartialEq, Eq)]
pub struct CertificateEnrollment {
    pub fingerprint: Sha256Digest,
    pub owner_id: String,
    pub state: EnrollmentState,
    pub replacement_fingerprint: Option<Sha256Digest>,
}

pub ghost struct EnrollmentView {
    pub fingerprint: Seq<char>,
    pub owner_id: Seq<char>,
    pub state: EnrollmentState,
    pub replacement_fingerprint: Option<Seq<char>>,
}

pub open spec fn optional_digest(value: Option<Sha256Digest>) -> Option<Seq<char>> {
    match value {
        Some(d) => Some(d@),
        None => None,
    }
}

impl View for CertificateEnrollment {
    type V = EnrollmentView;

    open spec fn view(&self) -> EnrollmentView {
        EnrollmentView {
            fingerprint: self.fingerprint@,
            owner_id: self.owner_id@,
            state: self.state,
            replacement_fingerprint: optional_digest(self.replacement_fingerprint),
        }
    }
}

impl Clone for CertificateEnrollment {
    fn clone(&self) -> (r: Self)
        ensures
            r@ == self@,
    {
        CertificateEnrollment {
            fingerprint: self.fingerprint.clone(),
            owner_id: self.owner_id.clone(),
            state: self.state,
            replacement_fingerprint: match &self.replacement_fingerprint {
                Some(d) => Some(d.clone()),
                None => None,
            },
        }
    }
}

/// Why the registry refuses a request.
#[derive(Debug, PartialEq, Eq)]
pub enum IdentityError {
    Storage(String),
    Certificate(String),
    Invalid(&'static str),
    NotEnrolled(Sha256Digest),
    Revoked(Sha256Digest),
    Replaced(Sha256Digest),
    Conflict(String),
    Corrupt(String),
}

pub ghost enum IdentityErrorView {
    Storage(Seq<char>),
    Certificate(Seq<char>),
    Invalid(Seq<char>),
    NotEnrolled(Seq<char>),
    Revoked(Seq<char>),
    Replaced(Seq<char>),
    Conflict(Seq<char>),
    Corrupt(Seq<char>),
}

impl View for IdentityError {
    type V = IdentityErrorView;

    open spec fn view(&self) -> IdentityErrorView {
        match *self {
            IdentityError::Storage(d) => IdentityErrorView::Storage(d@),
            IdentityError::Certificate(d) => IdentityErrorView::Certificate(d@),
            IdentityError::Invalid(d) => IdentityErrorView::Invalid(d@),
            IdentityError::NotEnrolled(f) => IdentityErrorView::NotEnrolled(f@),
            IdentityError::Revoked(f) => IdentityErrorView::Revoked(f@),
            IdentityError::Replaced(f) => IdentityErrorView::Replaced(f@),
            IdentityError::Conflict(d) => IdentityErrorView::Conflict(d@),
            IdentityError::Corrupt(d) => IdentityErrorView::Corrupt(d@),
        }
    }
}

impl IdentityErrorView {
    /// The text of a refusal.
    pub open spec fn text(self) -> Seq<char> {
        match self {
            IdentityErrorView::Storage(d) => d,
            IdentityErrorView::Certificate(d) => "invalid certificate PEM: "@ + d,
            IdentityErrorView::Invalid(d) => "invalid identity enrollment: "@ + d,
            IdentityErrorView::NotEnrolled(f) => "certificate "@ + f + " is not enrolled"@,
            IdentityErrorView::Revoked(f) => "certificate "@ + f + " is revoked"@,
            IdentityErrorView::Replaced(f) => "certificate "@ + f + " has been replaced"@,
            IdentityErrorView::Conflict(d) => "identity enrollment conflict: "@ + d,
            IdentityErrorView::Corrupt(d) => "corrupt identity registry: "@ + d,
        }
    }
}

impl IdentityError {
    /// The text of a refusal.
    pub fn message(&self) -> (r: String)
        ensures
            r@ == self@.text(),
    {
        match self {
            IdentityError::Storage(d) => d.clone(),
            IdentityError::Certificate(d) => text::concat("invalid certificate PEM: ", d.as_str()),
            IdentityError::Invalid(d) => text::concat("invalid identity enrollment: ", d),
            IdentityError::NotEnrolled(f) => text::enclosed(
                "certificate ",
                f.as_str(),
                " is not enrolled",
            ),
            IdentityError::Revoked(f) => text::enclosed("certificate ", f.as_str(), " is revoked"),
            IdentityError::Replaced(f) => text::enclosed(
                "certificate ",
                f.as_str(),
                " has been replaced",
            ),
            IdentityError::Conflict(d) => text::concat(
                "identity enrollment conflict: ",
                d.as_str(),
            ),
            IdentityError::Corrupt(d) => text::concat("corrupt identity registry: ", d.as_str()),
        }
    }
}

/// One enrollment with its times.
pub ghost struct EnrollmentRowView {
    pub enrollment: EnrollmentView,
    pub enrolled_at_ms: u64,
    pub updated_at_ms: u64,
}

/// Enrollments by fingerprint.
pub type IdentityState = Map<Seq<char>, EnrollmentRowView>;

/// The certificate is the owner's active one.
pub open spec fn active_for(s: IdentityState, fingerprint: Seq<char>, owner_id: Seq<char>) -> bool {
    &&& s.dom().contains(fingerprint)
    &&& s[fingerprint].enrollment.owner_id == owner_id
    &&& s[fingerprint].enrollment.state == EnrollmentState::Active
}

/// The active certificate of an owner.
pub open spec fn active_of(s: IdentityState, owner_id: Seq<char>) -> Option<Seq<char>> {
    if exists|f: Seq<char>| active_for(s, f, owner_id) {
        Some(choose|f: Seq<char>| active_for(s, f, owner_id))
    } else {
        None
    }
}

/// What holds of every registry: rows stand under their fingerprints, no owner has two active
/// certificates, and exactly the replaced ones name a successor.
pub open spec fn sound(s: IdentityState) -> bool {
    &&& forall|f: Seq<char>| #[trigger]
        s.dom().contains(f) ==> s[f].enrollment.fingerprint == f && (
        s[f].enrollment.replacement_fingerprint is Some <==> s[f].enrollment.state
            == EnrollmentState::Replaced)
    &&& forall|f: Seq<char>, g: Seq<char>, owner: Seq<char>|
        #![trigger active_for(s, f, owner), active_for(s, g, owner)]
        active_for(s, f, owner) && active_for(s, g, owner) ==> f == g
}

/// A fresh active enrollment.
pub open spec fn fresh(fingerprint: Seq<char>, owner_id: Seq<char>, now_ms: u64) -> EnrollmentRowView {
    EnrollmentRowView {
        enrollment: EnrollmentView {
            fingerprint,
            owner_id,
            state: EnrollmentState::Active,
            replacement_fingerprint: None,
        },
        enrolled_at_ms: now_ms,
        updated_at_ms: now_ms,
    }
}

pub open spec fn late() -> IdentityErrorView {
    IdentityErrorView::Invalid("timestamp exceeds storage integer range"@)
}

/// Enrolls a certificate for an owner.
pub open spec fn enroll(
    s: IdentityState,
    owner_id: Seq<char>,
    fingerprint: Seq<char>,
    now_ms: u64,
) -> (IdentityState, Result<EnrollmentView, IdentityErrorView>) {
    if text::blank(owner_id) {
        (s, Err(IdentityErrorView::Invalid("owner ID is missing"@)))
    } else if s.dom().contains(fingerprint) {
        let known = s[fingerprint].enrollment;
        if known.owner_id == owner_id && known.state == EnrollmentState::Active {
            (s, Ok(known))
        } else {
            (
                s,
                Err(
                    IdentityErrorView::Conflict(
                        "certificate "@ + fingerprint + " already belongs to "@ + known.owner_id
                            + " in "@ + known.state.label() + " state"@,
                    ),
                ),
            )
        }
    } else {
        match active_of(s, owner_id) {
            Some(active) => (
                s,
                Err(
                    IdentityErrorView::Conflict(
                        "owner "@ + owner_id + " already uses active certificate "@ + active,
                    ),
                ),
            ),
            None => if now_ms > i64::MAX {
                (s, Err(late()))
            } else {
                let row = fresh(fingerprint, owner_id, now_ms);
                (s.insert(fingerprint, row), Ok(row.enrollment))
            },
        }
    }
}

/// Replaces an owner's active certificate.
pub open spec fn rotate(
    s: IdentityState,
    owner_id: Seq<char>,
    old_fingerprint: Seq<char>,
    new_fingerprint: Seq<char>,
    now_ms: u64,
) -> (IdentityState, Result<EnrollmentView, IdentityErrorView>) {
    if text::blank(owner_id) {
        (s, Err(IdentityErrorView::Invalid("owner ID is missing"@)))
    } else if old_fingerprint == new_fingerprint {
        (s, Err(IdentityErrorView::Invalid("replacement certificate must be different"@)))
    } else if !s.dom().contains(old_fingerprint) {
        (s, Err(IdentityErrorView::NotEnrolled(old_fingerprint)))
    } else {
        let known = s[old_fingerprint].enrollment;
        if known.owner_id == owner_id && known.state == EnrollmentState::Replaced
            && known.replacement_fingerprint == Some(new_fingerprint) {
            if !s.dom().contains(new_fingerprint) {
                (s, Err(IdentityErrorView::Corrupt("replacement enrollment is missing"@)))
            } else if active_for(s, new_fingerprint, owner_id) {
                (s, Ok(s[new_fingerprint].enrollment))
            } else {
                (
                    s,
                    Err(
                        IdentityErrorView::Corrupt(
                            "replacement enrollment is not the active owner certificate"@,
                        ),
                    ),
                )
            }
        } else if known.owner_id != owner_id || known.state != EnrollmentState::Active {
            (
                s,
                Err(
                    IdentityErrorView::Conflict(
                        "certificate "@ + old_fingerprint + " is not active for owner "@ + owner_id,
                    ),
                ),
            )
        } else if s.dom().contains(new_fingerprint) {
            let other = s[new_fingerprint].enrollment;
            (
                s,
                Err(
                    IdentityErrorView::Conflict(
                        "replacement certificate "@ + new_fingerprint + " already belongs to "@
                            + other.owner_id + " in "@ + other.state.label() + " state"@,
                    ),
                ),
            )
        } else if now_ms > i64::MAX {
            (s, Err(late()))
        } else {
            let row = fresh(new_fingerprint, owner_id, now_ms);
            (
                s.insert(
                    old_fingerprint,
                    EnrollmentRowView {
                        enrollment: EnrollmentView {
                            state: EnrollmentState::Replaced,
                            replacement_fingerprint: Some(new_fingerprint),
                            ..known
                        },
                        updated_at_ms: now_ms,
                        ..s[old_fingerprint]
                    },
                ).insert(new_fingerprint, row),
                Ok(row.enrollment),
            )
        }
    }
}

/// Revokes a certificate for good.
pub open spec fn revoke(s: IdentityState, fingerprint: Seq<char>, now_ms: u64) -> (
    IdentityState,
    Result<EnrollmentView, IdentityErrorView>,
) {
    if !s.dom().contains(fingerprint) {
        (s, Err(IdentityErrorView::NotEnrolled(fingerprint)))
    } else {
        let known = s[fingerprint].enrollment;
        match known.state {
            EnrollmentState::Revoked => (s, Ok(known)),
            EnrollmentState::Replaced => (
                s,
                Err(
                    IdentityErrorView::Conflict(
                        "replaced certificate "@ + fingerprint + " is already inactive"@,
                    ),
                ),
            ),
            EnrollmentState::Active => if now_ms > i64::MAX {
                (s, Err(late()))
            } else {
                let revoked = EnrollmentView { state: EnrollmentState::Revoked, ..known };
                (
                    s.insert(
                        fingerprint,
                        EnrollmentRowView {
                            enrollment: revoked,
                            updated_at_ms: now_ms,
                            ..s[fingerprint]
                        },
                    ),
                    Ok(revoked),
                )
            },
        }
    }
}

/// The owner behind an active certificate.
pub open spec fn resolve(s: IdentityState, fingerprint: Seq<char>) -> Result<
    Seq<char>,
    IdentityErrorView,
> {
    if !s.dom().contains(fingerprint) {
        Err(IdentityErrorView::NotEnrolled(fingerprint))
    } else {
        match s[fingerprint].enrollment.state {
            EnrollmentState::Active => Ok(s[fingerprint].enrollment.owner_id),
            EnrollmentState::Replaced => Err(IdentityErrorView::Replaced(fingerprint)),
            EnrollmentState::Revoked => Err(IdentityErrorView::Revoked(fingerprint)),
        }
    }
}

/// A result with its value and its error taken by view.
pub open spec fn seen<T: View>(r: Result<T, IdentityError>) -> Result<T::V, IdentityErrorView> {
    match r {
        Ok(value) => Ok(value@),
        Err(e) => Err(e@),
    }
}

/// Certificate enrollment as the rest of the controller needs it.
pub trait IdentityRegistry {
    spec fn enrollments(&self) -> IdentityState;

    /// Enrolls an active certificate for an owner idempotently.
    fn enroll(&mut self, owner_id: &str, fingerprint: &Sha256Digest, now_ms: u64) -> (r: Result<
        CertificateEnrollment,
        IdentityError,
    >)
        ensures
            (final(self).enrollments(), seen(r)) == enroll(
                old(self).enrollments(),
                owner_id@,
                fingerprint@,
                now_ms,
            ),
    ;

    /// Atomically replaces an owner's active certificate.
    fn rotate(
        &mut self,
        owner_id: &str,
        old_fingerprint: &Sha256Digest,
        new_fingerprint: &Sha256Digest,
        now_ms: u64,
    ) -> (r: Result<CertificateEnrollment, IdentityError>)
        ensures
            (final(self).enrollments(), seen(r)) == rotate(
                old(self).enrollments(),
                owner_id@,
                old_fingerprint@,
                new_fingerprint@,
                now_ms,
            ),
    ;

    /// Revokes a certificate idempotently; it never becomes active again.
    fn revoke(&mut self, fingerprint: &Sha256Digest, now_ms: u64) -> (r: Result<
        CertificateEnrollment,
        IdentityError,
    >)
        ensures
            (final(self).enrollments(), seen(r)) == revoke(
                old(self).enrollments(),
                fingerprint@,
                now_ms,
            ),
    ;

    /// Resolves an active certificate to its stable owner.
    fn resolve_fingerprint(&self, fingerprint: &Sha256Digest) -> (r: Result<String, IdentityError>)
        ensures
            seen(r) == resolve(self.enrollments(), fingerprint@),
    ;
}

#[derive(Debug)]
struct EnrollmentRow {
    enrollment: CertificateEnrollment,
    enrolled_at_ms: u64,
    updated_at_ms: u64,
}

impl View for EnrollmentRow {
    type V = EnrollmentRowView;

    closed spec fn view(&self) -> EnrollmentRowView {
        EnrollmentRowView {
            enrollment: self.enrollment@,
            enrolled_at_ms: self.enrolled_at_ms,
            updated_at_ms: self.updated_at_ms,
        }
    }
}

/// A registry that is held in memory.
#[derive(Debug)]
pub struct MemoryIdentityRegistry {
    rows: TextMap<EnrollmentRow>,
}

impl View for MemoryIdentityRegistry {
    type V = IdentityState;

    closed spec fn view(&self) -> IdentityState {
        ordered::values(self.rows@)
    }
}

pub(crate) fn validate_owner(owner_id: &str) -> (r: Result<(), IdentityError>)
    ensures
        match r {
            Ok(_) => !text::blank(owner_id@),
            Err(e) => text::blank(owner_id@) && e@ == IdentityErrorView::Invalid(
                "owner ID is missing"@,
            ),
        },
{
    if text::is_blank(owner_id) {
        Err(IdentityError::Invalid("owner ID is missing"))
    } else {
        Ok(())
    }
}

fn belongs(before: &str, known: &CertificateEnrollment, fingerprint: &Sha256Digest) -> (r: String)
    ensures
        r@ == before@ + fingerprint@ + " already belongs to "@ + known@.owner_id + " in "@
            + known@.state.label() + " state"@,
{
    let mut detail = text::enclosed(before, fingerprint.as_str(), " already belongs to ");
    detail.append(known.owner_id.as_str());
    detail.append(" in ");
    detail.append(known.state.name());
    detail.append(" state");
    detail
}

fn fresh_row(fingerprint: &Sha256Digest, owner_id: &str, now_ms: u64) -> (r: EnrollmentRow)
    ensures
        r@ == fresh(fingerprint@, owner_id@, now_ms),
{
    EnrollmentRow {
        enrollment: CertificateEnrollment {
            fingerprint: fingerprint.clone(),
            owner_id: owner_id.to_owned(),
            state: EnrollmentState::Active,
            replacement_fingerprint: None,
        },
        enrolled_at_ms: now_ms,
        updated_at_ms: now_ms,
    }
}

impl MemoryIdentityRegistry {
    #[verifier::type_invariant]
    spec fn is_sound(self) -> bool {
        sound(ordered::values(self.rows@))
    }

    pub fn new() -> (r: Self)
        ensures
            r@ == Map::<Seq<char>, EnrollmentRowView>::empty(),
    {
        let rows: TextMap<EnrollmentRow> = TextMap::new();
        assert(ordered::values(rows@) =~= Map::<Seq<char>, EnrollmentRowView>::empty());
        MemoryIdentityRegistry { rows }
    }

    /// The active certificate of an owner.
    fn active(&self, owner_id: &str) -> (r: Option<&CertificateEnrollment>)
        ensures
            match r {
                Some(found) => active_of(self@, owner_id@) == Some(found@.fingerprint),
                None => active_of(self@, owner_id@) is None,
            },
    {
        proof {
            use_type_invariant(self);
        }
        let count = self.rows.len();
        let mut i: usize = 0;
        while i < count
            invariant
                i <= count == self.rows.keys().len(),
                ordered::lists(self.rows@, self.rows.keys()),
                sound(self@),
                forall|j: int|
                    0 <= j < i ==> !active_for(self@, #[trigger] self.rows.keys()[j], owner_id@),
            decreases count - i,
        {
            let row = self.rows.value_at(i);
            let ghost key = self.rows.keys()[i as int];
            assert(self.rows@.dom().contains(key) && self.rows@[key] == *row);
            assert(self@[key] == row@);
            if row.enrollment.state == EnrollmentState::Active && text::same(
                row.enrollment.owner_id.as_str(),
                owner_id,
            ) {
                assert(active_for(self@, key, owner_id@));
                return Some(&row.enrollment);
            }
            i += 1;
        }
        proof {
            assert forall|f: Seq<char>| !active_for(self@, f, owner_id@) by {
                if self@.dom().contains(f) {
                    assert(self.rows@.dom().contains(f));
                    assert(self.rows.keys().contains(f));
                }
            }
        }
        None
    }

    fn put(&mut self, fingerprint: &str, row: EnrollmentRow)
        requires
            sound(old(self)@.insert(fingerprint@, row@)),
        ensures
            final(self)@ == old(self)@.insert(fingerprint@, row@),
    {
        let mut rows: TextMap<EnrollmentRow> = TextMap::new();
        assert(ordered::values(rows@) =~= Map::<Seq<char>, EnrollmentRowView>::empty());
        std::mem::swap(&mut rows, &mut self.rows);
        let ghost before = rows@;
        let _ = rows.insert(fingerprint.to_owned(), row);
        proof {
            ordered::values_insert(before, fingerprint@, row);
        }
        self.rows = rows;
    }
}

impl IdentityRegistry for MemoryIdentityRegistry {
    open spec fn enrollments(&self) -> IdentityState {
        self@
    }

    fn enroll(&mut self, owner_id: &str, fingerprint: &Sha256Digest, now_ms: u64) -> (r: Result<
        CertificateEnrollment,
        IdentityError,
    >) {
        proof {
            use_type_invariant(&*self);
        }
        validate_owner(owner_id)?;
        if let Some(known) = self.rows.get(fingerprint.as_str()) {
            if text::same(known.enrollment.owner_id.as_str(), owner_id) && known.enrollment.state
                == EnrollmentState::Active {
                return Ok(known.enrollment.clone());
            }
            return Err(
                IdentityError::Conflict(belongs("certificate ", &known.enrollment, fingerprint)),
            );
        }
        if let Some(active) = self.active(owner_id) {
            let mut detail = text::enclosed("owner ", owner_id, " already uses active certificate ");
            detail.append(active.fingerprint.as_str());
            return Err(IdentityError::Conflict(detail));
        }
        if now_ms > 9223372036854775807 {
            return Err(IdentityError::Invalid("timestamp exceeds storage integer range"));
        }
        let row = fresh_row(fingerprint, owner_id, now_ms);
        let enrollment = row.enrollment.clone();
        proof {
            enrolling_is_sound(self@, owner_id@, fingerprint@, now_ms);
        }
        self.put(fingerprint.as_str(), row);
        Ok(enrollment)
    }

    fn rotate(
        &mut self,
        owner_id: &str,
        old_fingerprint: &Sha256Digest,
        new_fingerprint: &Sha256Digest,
        now_ms: u64,
    ) -> (r: Result<CertificateEnrollment, IdentityError>) {
        proof {
            use_type_invariant(&*self);
        }
        validate_owner(owner_id)?;
        if old_fingerprint.same(new_fingerprint) {
            return Err(IdentityError::Invalid("replacement certificate must be different"));
        }
        let known = match self.rows.get(old_fingerprint.as_str()) {
            Some(known) => known,
            None => {
                return Err(IdentityError::NotEnrolled(old_fingerprint.clone()));
            },
        };
        let successor = match &known.enrollment.replacement_fingerprint {
            Some(d) => d.same(new_fingerprint),
            None => false,
        };
        let owned = text::same(known.enrollment.owner_id.as_str(), owner_id);
        if owned && known.enrollment.state == EnrollmentState::Replaced && successor {
            return match self.rows.get(new_fingerprint.as_str()) {
                None => Err(IdentityError::Corrupt("replacement enrollment is missing".to_owned())),
                Some(replacement) => {
                    if text::same(replacement.enrollment.owner_id.as_str(), owner_id)
                        && replacement.enrollment.state == EnrollmentState::Active {
                        Ok(replacement.enrollment.clone())
                    } else {
                        Err(
                            IdentityError::Corrupt(
                                "replacement enrollment is not the active owner certificate".to_owned(),
                            ),
                        )
                    }
                },
            };
        }
        if !owned || known.enrollment.state != EnrollmentState::Active {
            let mut detail = text::enclosed(
                "certificate ",
                old_fingerprint.as_str(),
                " is not active for owner ",
            );
            detail.append(owner_id);
            return Err(IdentityError::Conflict(detail));
        }
        if let Some(other) = self.rows.get(new_fingerprint.as_str()) {
            return Err(
                IdentityError::Conflict(
                    belongs("replacement certificate ", &other.enrollment, new_fingerprint),
                ),
            );
        }
        if now_ms > 9223372036854775807 {
            return Err(IdentityError::Invalid("timestamp exceeds storage integer range"));
        }
        let replaced = EnrollmentRow {
            enrollment: CertificateEnrollment {
                fingerprint: known.enrollment.fingerprint.clone(),
                owner_id: known.enrollment.owner_id.clone(),
                state: EnrollmentState::Replaced,
                replacement_fingerprint: Some(new_fingerprint.clone()),
            },
            enrolled_at_ms: known.enrolled_at_ms,
            updated_at_ms: now_ms,
        };
        let row = fresh_row(new_fingerprint, owner_id, now_ms);
        let enrollment = row.enrollment.clone();
        proof {
            rotating_is_sound(self@, owner_id@, old_fingerprint@, new_fingerprint@, now_ms);
        }
        self.put(old_fingerprint.as_str(), replaced);
        self.put(new_fingerprint.as_str(), row);
        Ok(enrollment)
    }

    fn revoke(&mut self, fingerprint: &Sha256Digest, now_ms: u64) -> (r: Result<
        CertificateEnrollment,
        IdentityError,
    >) {
        proof {
            use_type_invariant(&*self);
        }
        let known = match self.rows.get(fingerprint.as_str()) {
            Some(known) => known,
            None => {
                return Err(IdentityError::NotEnrolled(fingerprint.clone()));
            },
        };
        match known.enrollment.state {
            EnrollmentState::Revoked => Ok(known.enrollment.clone()),
            EnrollmentState::Replaced => Err(
                IdentityError::Conflict(
                    text::enclosed(
                        "replaced certificate ",
                        fingerprint.as_str(),
                        " is already inactive",
                    ),
                ),
            ),
            EnrollmentState::Active => {
                if now_ms > 9223372036854775807 {
                    return Err(IdentityError::Invalid("timestamp exceeds storage integer range"));
                }
                let mut enrollment = known.enrollment.clone();
                enrollment.state = EnrollmentState::Revoked;
                let row = EnrollmentRow {
                    enrollment: enrollment.clone(),
                    enrolled_at_ms: known.enrolled_at_ms,
                    updated_at_ms: now_ms,
                };
                proof {
                    revoking_is_sound(self@, fingerprint@, now_ms);
                }
                self.put(fingerprint.as_str(), row);
                Ok(enrollment)
            },
        }
    }

    fn resolve_fingerprint(&self, fingerprint: &Sha256Digest) -> (r: Result<
        String,
        IdentityError,
    >) {
        match self.rows.get(fingerprint.as_str()) {
            None => Err(IdentityError::NotEnrolled(fingerprint.clone())),
            Some(known) => match known.enrollment.state {
                EnrollmentState::Active => Ok(known.enrollment.owner_id.clone()),
                EnrollmentState::Replaced => Err(IdentityError::Replaced(fingerprint.clone())),
                EnrollmentState::Revoked => Err(IdentityError::Revoked(fingerprint.clone())),
            },
        }
    }
}

/// Enrollment keeps the registry sound.
pub proof fn enrolling_is_sound(
    s: IdentityState,
    owner_id: Seq<char>,
    fingerprint: Seq<char>,
    now_ms: u64,
)
    requires
        sound(s),
    ensures
        sound(enroll(s, owner_id, fingerprint, now_ms).0),
{
    let t = enroll(s, owner_id, fingerprint, now_ms).0;
    if t != s {
        assert forall|f: Seq<char>, g: Seq<char>, owner: Seq<char>|
            #![trigger active_for(t, f, owner), active_for(t, g, owner)]
            active_for(t, f, owner) && active_for(t, g, owner) implies f == g by {
            assert(!active_for(s, f, owner_id) && !active_for(s, g, owner_id));
            assert(f != fingerprint ==> active_for(s, f, owner));
            assert(g != fingerprint ==> active_for(s, g, owner));
        }
    }
}

/// Rotation keeps the registry sound, between its two writes too.
pub proof fn rotating_is_sound(
    s: IdentityState,
    owner_id: Seq<char>,
    old_fingerprint: Seq<char>,
    new_fingerprint: Seq<char>,
    now_ms: u64,
)
    requires
        sound(s),
    ensures
        sound(rotate(s, owner_id, old_fingerprint, new_fingerprint, now_ms).0),
        rotate(s, owner_id, old_fingerprint, new_fingerprint, now_ms).0 != s ==> sound(
            s.insert(
                old_fingerprint,
                rotate(s, owner_id, old_fingerprint, new_fingerprint, now_ms).0[old_fingerprint],
            ),
        ),
{
    let t = rotate(s, owner_id, old_fingerprint, new_fingerprint, now_ms).0;
    if t != s {
        let half = s.insert(old_fingerprint, t[old_fingerprint]);
        assert(active_for(s, old_fingerprint, owner_id));
        assert forall|f: Seq<char>, g: Seq<char>, owner: Seq<char>|
            #![trigger active_for(half, f, owner), active_for(half, g, owner)]
            active_for(half, f, owner) && active_for(half, g, owner) implies f == g by {
            assert(active_for(s, f, owner) && active_for(s, g, owner));
        }
        assert forall|f: Seq<char>, g: Seq<char>, owner: Seq<char>|
            #![trigger active_for(t, f, owner), active_for(t, g, owner)]
            active_for(t, f, owner) && active_for(t, g, owner) implies f == g by {
            assert(f != new_fingerprint ==> active_for(s, f, owner));
            assert(g != new_fingerprint ==> active_for(s, g, owner));
        }
    }
}

/// Revocation keeps the registry sound.
pub proof fn revoking_is_sound(s: IdentityState, fingerprint: Seq<char>, now_ms: u64)
    requires
        sound(s),
    ensures
        sound(revoke(s, fingerprint, now_ms).0),
{
    let t = revoke(s, fingerprint, now_ms).0;
    if t != s {
        assert forall|f: Seq<char>, g: Seq<char>, owner: Seq<char>|
            #![trigger active_for(t, f, owner), active_for(t, g, owner)]
            active_for(t, f, owner) && active_for(t, g, owner) implies f == g by {
            assert(active_for(s, f, owner) && active_for(s, g, owner));
        }
    }
}

/// From `s` to `t` no certificate is lost, none changes its owner, and one that is replaced or
/// revoked stays so.
pub open spec fn keeps_certificates(s: IdentityState, t: IdentityState) -> bool {
    forall|f: Seq<char>| #[trigger]
        s.dom().contains(f) ==> {
            &&& t.dom().contains(f)
            &&& t[f].enrollment.owner_id == s[f].enrollment.owner_id
            &&& t[f].enrolled_at_ms == s[f].enrolled_at_ms
            &&& s[f].enrollment.state != EnrollmentState::Active ==> t[f] == s[f]
        }
}

/// No operation makes an inactive certificate active again, or gives it to another owner.
pub proof fn inactive_certificates_stay_inactive(
    s: IdentityState,
    owner_id: Seq<char>,
    first: Seq<char>,
    second: Seq<char>,
    now_ms: u64,
)
    ensures
        keeps_certificates(s, enroll(s, owner_id, first, now_ms).0),
        keeps_certificates(s, rotate(s, owner_id, first, second, now_ms).0),
        keeps_certificates(s, revoke(s, first, now_ms).0),
{
}

/// A rotation that is repeated gives the same certificate and changes nothing; the old one no
/// longer resolves and the new one resolves to the owner.
pub proof fn rotation_is_idempotent(
    s: IdentityState,
    owner_id: Seq<char>,
    old_fingerprint: Seq<char>,
    new_fingerprint: Seq<char>,
    first_ms: u64,
    again_ms: u64,
)
    requires
        rotate(s, owner_id, old_fingerprint, new_fingerprint, first_ms).1 is Ok,
    ensures
        ({
            let (t, r) = rotate(s, owner_id, old_fingerprint, new_fingerprint, first_ms);
            &&& rotate(t, owner_id, old_fingerprint, new_fingerprint, again_ms) == (t, r)
            &&& resolve(t, old_fingerprint) == Err::<Seq<char>, _>(
                IdentityErrorView::Replaced(old_fingerprint),
            )
            &&& resolve(t, new_fingerprint) == Ok::<Seq<char>, IdentityErrorView>(owner_id)
        }),
{
}

/// A revoked certificate never resolves, and can be revoked again but not enrolled.
pub proof fn revocation_is_terminal(
    s: IdentityState,
    fingerprint: Seq<char>,
    owner_id: Seq<char>,
    first_ms: u64,
    again_ms: u64,
)
    requires
        revoke(s, fingerprint, first_ms).1 is Ok,
    ensures
        ({
            let (t, r) = revoke(s, fingerprint, first_ms);
            &&& resolve(t, fingerprint) == Err::<Seq<char>, _>(
                IdentityErrorView::Revoked(fingerprint),
            )
            &&& revoke(t, fingerprint, again_ms) == (t, r)
            &&& enroll(t, owner_id, fingerprint, again_ms).0 == t
            &&& enroll(t, owner_id, fingerprint, again_ms).1 is Err
        }),
{
}

/// What a PEM file starts with: its first certificate in DER form, nothing, or why it cannot be
/// read.
pub uninterp spec fn first_certificate(pem: Seq<u8>) -> Result<Option<Seq<u8>>, Seq<char>>;

/// The first item of `rustls_pemfile::certs` over the bytes: the DER content of the first
/// certificate section, `None` where there is none, or the text of the error that came before
/// it. The reader is the byte slice itself, so the outcome depends on the bytes alone.
#[verifier::external_body]
fn first_certificate_of(pem: &[u8]) -> (r: Result<Option<Vec<u8>>, String>)
    ensures
        match r {
            Ok(Some(der)) => first_certificate(pem@) == Ok::<Option<Seq<u8>>, Seq<char>>(
                Some(der@),
            ),
            Ok(None) => first_certificate(pem@) == Ok::<Option<Seq<u8>>, Seq<char>>(None),
            Err(detail) => first_certificate(pem@) == Err::<Option<Seq<u8>>, Seq<char>>(detail@),
        },
{
    let mut reader = pem;
    let first = rustls_pemfile::certs(&mut reader).next();
    match first.transpose() {
        Ok(certificate) => Ok(certificate.map(|der| der.as_ref().to_vec())),
        Err(error) => Err(error.to_string()),
    }
}

/// The fingerprint behind a parsed PEM file.
pub open spec fn fingerprint_of(parsed: Result<Option<Seq<u8>>, Seq<char>>) -> Result<
    Seq<char>,
    IdentityErrorView,
> {
    match parsed {
        Err(detail) => Err(IdentityErrorView::Certificate(detail)),
        Ok(None) => Err(IdentityErrorView::Certificate("no certificate was found"@)),
        Ok(Some(der)) => Ok(digest::digest_text(der)),
    }
}

/// Hashes the certificate that a PEM file was found to start with.
pub fn certificate_fingerprint(parsed: Result<Option<Vec<u8>>, String>) -> (r: Result<
    Sha256Digest,
    IdentityError,
>)
    ensures
        seen(r) == fingerprint_of(
            match parsed {
                Ok(Some(der)) => Ok(Some(der@)),
                Ok(None) => Ok(None),
                Err(detail) => Err(detail@),
            },
        ),
{
    match parsed {
        Err(detail) => Err(IdentityError::Certificate(detail)),
        Ok(None) => Err(IdentityError::Certificate("no certificate was found".to_owned())),
        Ok(Some(der)) => Ok(Sha256Digest::digest_bytes(der.as_slice())),
    }
}

/// Hashes the first certificate in a PEM certificate chain.
pub fn certificate_fingerprint_from_pem(pem: &[u8]) -> (r: Result<Sha256Digest, IdentityError>)
    ensures
        seen(r) == fingerprint_of(first_certificate(pem@)),
{
    certificate_fingerprint(first_certificate_of(pem))
}

pub open spec fn chain_view(chain: Option<Option<&Vec<Vec<u8>>>>) -> Option<Option<Seq<Seq<u8>>>> {
    match chain {
        None => None,
        Some(None) => Some(None),
        Some(Some(certificates)) => Some(
            Some(Seq::new(certificates@.len(), |i: int| certificates@[i]@)),
        ),
    }
}

/// The fingerprint of the leaf that a transport verified.
pub open spec fn leaf(chain: Option<Option<Seq<Seq<u8>>>>) -> Result<Seq<char>, IdentityErrorView> {
    match chain {
        None => Err(IdentityErrorView::Certificate("mutual TLS connection is missing"@)),
        Some(None) => Err(IdentityErrorView::Certificate("client certificate is missing"@)),
        Some(Some(certificates)) => if certificates.len() == 0 {
            Err(IdentityErrorView::Certificate("client certificate chain is empty"@))
        } else {
            Ok(digest::digest_text(certificates[0]))
        },
    }
}

/// Hashes the leaf of the certificate chain that a transport verified. `None` stands for what the
/// transport does not carry: no mutual TLS at all, or no certificates.
pub fn peer_certificate_fingerprint(connection: Option<Option<&Vec<Vec<u8>>>>) -> (r: Result<
    Sha256Digest,
    IdentityError,
>)
    ensures
        seen(r) == leaf(chain_view(connection)),
{
    let chain = match connection {
        None => {
            return Err(IdentityError::Certificate("mutual TLS connection is missing".to_owned()));
        },
        Some(None) => {
            return Err(IdentityError::Certificate("client certificate is missing".to_owned()));
        },
        Some(Some(chain)) => chain,
    };
    if chain.len() == 0 {
        return Err(IdentityError::Certificate("client certificate chain is empty".to_owned()));
    }
    Ok(Sha256Digest::digest_bytes(chain[0].as_slice()))
}

} // verus!
