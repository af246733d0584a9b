//! The authorization policy: a pure decision function from a caller identity,
//! a requested operation and a target key to a verdict.
//!
//! The policy is deliberately asymmetric: ownership grants a student read
//! access to their own record but never write access; writes are teacher-only
//! unconditionally.

use vstd::prelude::*;
use crate::identity::{Identity, Role};
use crate::key::ResourceKey;

verus! {

/// The operation a caller requests on a record.
#[derive(Clone, Copy, Debug, PartialEq, Eq, Structural)]
pub enum Operation {
    Read,
    Write,
}

/// Why a request was denied. The two reasons stay distinct so that audit
/// logging can tell an ownership failure from a role failure.
#[derive(Clone, Copy, Debug, PartialEq, Eq, Structural)]
pub enum DenyReason {
    /// A student asked to read a record that is not their own.
    NotOwner,
    /// A non-teacher asked to write.
    InsufficientRole,
}

/// The policy's verdict on one request.
#[derive(Clone, Copy, Debug, PartialEq, Eq, Structural)]
pub enum AuthVerdict {
    Permit,
    Deny(DenyReason),
}

/// The policy as a mathematical function of the caller's role and id, the
/// operation, and the student id of the target key.
///
/// Read: permitted to a teacher, and to a student reading their own record;
/// any other read is denied as `NotOwner`. Write: permitted to a teacher and
/// to nobody else; a student's write is denied as `InsufficientRole` even on
/// their own record.
pub open spec fn spec_evaluate(
    role: Role,
    id: Seq<char>,
    op: Operation,
    target_student: Seq<char>,
) -> AuthVerdict {
    match op {
        Operation::Read => if role == Role::Teacher || (role == Role::Student && id
            == target_student) {
            AuthVerdict::Permit
        } else {
            AuthVerdict::Deny(DenyReason::NotOwner)
        },
        Operation::Write => if role == Role::Teacher {
            AuthVerdict::Permit
        } else {
            AuthVerdict::Deny(DenyReason::InsufficientRole)
        },
    }
}

/// Evaluates the policy for one request. Pure and stateless: safe to run with
/// unlimited concurrency.
///
/// The last three clauses restate the decision table: a student may read
/// exactly their own record, a student may never write, a teacher may do
/// anything.
pub fn evaluate(identity: &Identity, op: Operation, target: &ResourceKey) -> (v: AuthVerdict)
    ensures
        v == spec_evaluate(identity.role, identity.id@, op, target@.0),
        identity.role == Role::Student && op == Operation::Read ==> v == (
        if identity.id@ == target@.0 {
            AuthVerdict::Permit
        } else {
            AuthVerdict::Deny(DenyReason::NotOwner)
        }),
        identity.role == Role::Student && op == Operation::Write ==> v == AuthVerdict::Deny(
            DenyReason::InsufficientRole,
        ),
        identity.role == Role::Teacher ==> v == AuthVerdict::Permit,
{
    match op {
        Operation::Read => {
            if identity.role == Role::Teacher {
                AuthVerdict::Permit
            } else if identity.id == *target.student_id() {
                AuthVerdict::Permit
            } else {
                AuthVerdict::Deny(DenyReason::NotOwner)
            }
        },
        Operation::Write => {
            if identity.role == Role::Teacher {
                AuthVerdict::Permit
            } else {
                AuthVerdict::Deny(DenyReason::InsufficientRole)
            }
        },
    }
}

} // verus!
