//! Composite resource keys locating one grade record.
//!
//! A key is a structured pair of the student id and the subject id. Keeping
//! the two components separate (rather than concatenating them into one
//! string) rules out the collisions a delimiter-based token risks: two keys
//! are equal exactly when both components are equal.

use vstd::prelude::*;

verus! {

/// Error raised when a resource key cannot be built from its components.
#[derive(Clone, Copy, Debug, PartialEq, Eq, Structural)]
pub enum KeyError {
    /// A key component is malformed (empty).
    InvalidKey,
}

/// A composite identifier locating one grade record: the pair of a student id
/// and a subject id. Values are only built through [`ResourceKey::new`], which
/// rejects empty components, so every key is well formed.
#[derive(Clone, Debug, PartialEq, Eq)]
pub struct ResourceKey {
    student_id: String,
    subject_id: String,
}

impl View for ResourceKey {
    type V = (Seq<char>, Seq<char>);

    closed spec fn view(&self) -> (Seq<char>, Seq<char>) {
        (self.student_id@, self.subject_id@)
    }
}

impl ResourceKey {
    /// Both components of a well-formed key are non-empty.
    pub open spec fn wf(&self) -> bool {
        self@.0.len() > 0 && self@.1.len() > 0
    }

    /// Builds the key for the given student and subject. Construction is
    /// deterministic: it succeeds exactly when both components are non-empty,
    /// and the resulting key carries the two components unchanged.
    pub fn new(student_id: String, subject_id: String) -> (r: Result<ResourceKey, KeyError>)
        ensures
            student_id@.len() > 0 && subject_id@.len() > 0 ==> (r matches Ok(k) && k@ == (
                student_id@,
                subject_id@,
            ) && k.wf()),
            student_id@.len() == 0 || subject_id@.len() == 0 ==> r == Err::<
                ResourceKey,
                KeyError,
            >(KeyError::InvalidKey),
    {
        if student_id.as_str().unicode_len() == 0 || subject_id.as_str().unicode_len() == 0 {
            Err(KeyError::InvalidKey)
        } else {
            Ok(ResourceKey { student_id, subject_id })
        }
    }

    /// The student id component.
    pub fn student_id(&self) -> (r: &String)
        ensures
            r@ == self@.0,
    {
        &self.student_id
    }

    /// The subject id component.
    pub fn subject_id(&self) -> (r: &String)
        ensures
            r@ == self@.1,
    {
        &self.subject_id
    }
}

/// Law: key construction never conflates distinct inputs. Two successfully
/// built keys are equal exactly when both of their components are equal, so
/// pairs with distinct content always yield unequal keys.
pub proof fn lemma_key_injective(
    student_a: Seq<char>,
    subject_a: Seq<char>,
    student_b: Seq<char>,
    subject_b: Seq<char>,
    key_a: ResourceKey,
    key_b: ResourceKey,
)
    requires
        key_a@ == (student_a, subject_a),
        key_b@ == (student_b, subject_b),
    ensures
        key_a@ == key_b@ <==> (student_a == student_b && subject_a == subject_b),
{
}

} // verus!
