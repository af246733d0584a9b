//! Resolved caller identities.
//!
//! An identity is produced by an external identity-resolution collaborator
//! (token validation, session lookup) that is out of scope here; the core only
//! consumes a well-formed identity, or the absence of one when resolution
//! failed.

use vstd::prelude::*;

verus! {

/// The role a resolved caller acts under.
#[derive(Clone, Copy, Debug, PartialEq, Eq, Structural)]
pub enum Role {
    Student,
    Teacher,
}

/// A resolved caller: an id and a role. Immutable for the duration of a
/// request.
#[derive(Clone, Debug)]
pub struct Identity {
    pub id: String,
    pub role: Role,
}

/// The trivial fixed-identity resolver used for demonstration: every request
/// is attributed to one hardcoded student. A real deployment swaps this for a
/// resolver that validates the request's credentials.
pub fn get_current_user_from_request() -> (u: Identity)
    ensures
        u.id@ == "20223948"@,
        u.role == Role::Student,
{
    Identity { id: String::from_str("20223948"), role: Role::Student }
}

} // verus!
