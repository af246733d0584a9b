//! Handler logic for the four request flows: unguarded and guarded reads and
//! writes over the record store.
//!
//! The unguarded pair runs key construction and the store operation with no
//! policy call — any caller may read or write any record. That insecurity is
//! the documented teaching point of the contrast; it is deliberate and must
//! stay. The guarded pair resolves an identity first and consults the policy;
//! a denial never touches the store.
//!
//! The transport layer around these functions parses requests into the plain
//! arguments taken here and maps each [`RequestOutcome`] to a status code.

use vstd::prelude::*;
use crate::identity::Identity;
use crate::key::ResourceKey;
use crate::policy::{evaluate, spec_evaluate, AuthVerdict, DenyReason, Operation};
use crate::store::RecordStore;

verus! {

/// The outcome of one handled request, for the transport layer to map to a
/// response.
#[derive(Clone, Debug, PartialEq, Eq)]
pub enum RequestOutcome {
    /// The operation ran; the value read, or the value just written, echoed
    /// back.
    Success(String),
    /// A read found no entry under the requested key. Writes never end here:
    /// a permitted write always succeeds by creating the entry.
    NotFound,
    /// The policy denied the request; the reason is kept for the caller.
    Forbidden(DenyReason),
    /// The resource key could not be built from the request's components;
    /// rejected before any policy or store access.
    BadRequest,
    /// No caller identity could be resolved; a guarded handler fails closed
    /// before consulting the policy or the store.
    AuthFailure,
}

/// A request's key components are acceptable: both non-empty.
pub open spec fn key_ok(student_id: Seq<char>, subject_id: Seq<char>) -> bool {
    student_id.len() > 0 && subject_id.len() > 0
}

/// Unguarded read: key construction, then the store lookup. No check of who
/// is asking — any caller can read any record.
pub fn get_grade(store: &RecordStore, student_id: String, subject_id: String) -> (r:
    RequestOutcome)
    ensures
        !key_ok(student_id@, subject_id@) ==> r == RequestOutcome::BadRequest,
        key_ok(student_id@, subject_id@) && store@.contains_key((student_id@, subject_id@)) ==> (r
            matches RequestOutcome::Success(g) && g@ == store@[(student_id@, subject_id@)]),
        key_ok(student_id@, subject_id@) && !store@.contains_key((student_id@, subject_id@)) ==> r
            == RequestOutcome::NotFound,
{
    match ResourceKey::new(student_id, subject_id) {
        Ok(key) => match store.get(&key) {
            Some(grade) => RequestOutcome::Success(grade),
            None => RequestOutcome::NotFound,
        },
        Err(_) => RequestOutcome::BadRequest,
    }
}

/// Unguarded write: key construction, then a blind overwrite of the entry.
/// No check that the caller is a teacher — anyone can update any grade.
pub fn update_grade(
    store: &mut RecordStore,
    student_id: String,
    subject_id: String,
    grade: String,
) -> (r: RequestOutcome)
    ensures
        !key_ok(student_id@, subject_id@) ==> r == RequestOutcome::BadRequest && final(store)@
            == old(store)@,
        key_ok(student_id@, subject_id@) ==> final(store)@ == old(store)@.insert(
            (student_id@, subject_id@),
            grade@,
        ) && (r matches RequestOutcome::Success(g) && g@ == grade@),
{
    match ResourceKey::new(student_id, subject_id) {
        Ok(key) => {
            let written = store.set(&key, grade);
            RequestOutcome::Success(written)
        },
        Err(_) => RequestOutcome::BadRequest,
    }
}

/// Guarded read: key construction, then the identity gate, then the policy,
/// and only on a permit the store lookup. Fails closed when no identity was
/// resolved, with an authentication error distinct from an authorization
/// denial.
pub fn secure_get_grade(
    store: &RecordStore,
    identity: Option<&Identity>,
    student_id: String,
    subject_id: String,
) -> (r: RequestOutcome)
    ensures
        !key_ok(student_id@, subject_id@) ==> r == RequestOutcome::BadRequest,
        key_ok(student_id@, subject_id@) && identity is None ==> r == RequestOutcome::AuthFailure,
        identity matches Some(caller) ==> (key_ok(student_id@, subject_id@) ==> match spec_evaluate(
            caller.role,
            caller.id@,
            Operation::Read,
            student_id@,
        ) {
            AuthVerdict::Permit => (store@.contains_key((student_id@, subject_id@)) ==> (r
                matches RequestOutcome::Success(g) && g@ == store@[(student_id@, subject_id@)]))
                && (!store@.contains_key((student_id@, subject_id@)) ==> r
                == RequestOutcome::NotFound),
            AuthVerdict::Deny(reason) => r == RequestOutcome::Forbidden(reason),
        }),
{
    let key = match ResourceKey::new(student_id, subject_id) {
        Ok(key) => key,
        Err(_) => {
            return RequestOutcome::BadRequest;
        },
    };
    let caller = match identity {
        Some(caller) => caller,
        None => {
            return RequestOutcome::AuthFailure;
        },
    };
    match evaluate(caller, Operation::Read, &key) {
        AuthVerdict::Permit => match store.get(&key) {
            Some(grade) => RequestOutcome::Success(grade),
            None => RequestOutcome::NotFound,
        },
        AuthVerdict::Deny(reason) => RequestOutcome::Forbidden(reason),
    }
}

/// Guarded write: key construction, then the identity gate, then the policy,
/// and only on a permit the store overwrite. A denial, an authentication
/// failure or a bad key leaves the store untouched — no partial application.
pub fn secure_update_grade(
    store: &mut RecordStore,
    identity: Option<&Identity>,
    student_id: String,
    subject_id: String,
    grade: String,
) -> (r: RequestOutcome)
    ensures
        !key_ok(student_id@, subject_id@) ==> r == RequestOutcome::BadRequest && final(store)@
            == old(store)@,
        key_ok(student_id@, subject_id@) && identity is None ==> r == RequestOutcome::AuthFailure
            && final(store)@ == old(store)@,
        identity matches Some(caller) ==> (key_ok(student_id@, subject_id@) ==> match spec_evaluate(
            caller.role,
            caller.id@,
            Operation::Write,
            student_id@,
        ) {
            AuthVerdict::Permit => final(store)@ == old(store)@.insert(
                (student_id@, subject_id@),
                grade@,
            ) && (r matches RequestOutcome::Success(g) && g@ == grade@),
            AuthVerdict::Deny(reason) => r == RequestOutcome::Forbidden(reason) && final(store)@
                == old(store)@,
        }),
{
    let key = match ResourceKey::new(student_id, subject_id) {
        Ok(key) => key,
        Err(_) => {
            return RequestOutcome::BadRequest;
        },
    };
    let caller = match identity {
        Some(caller) => caller,
        None => {
            return RequestOutcome::AuthFailure;
        },
    };
    match evaluate(caller, Operation::Write, &key) {
        AuthVerdict::Permit => {
            let written = store.set(&key, grade);
            RequestOutcome::Success(written)
        },
        AuthVerdict::Deny(reason) => RequestOutcome::Forbidden(reason),
    }
}

} // verus!
