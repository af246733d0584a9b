//! A minimal grade-record service core: a composite resource key, a caller
//! identity with a role, a pure authorization policy, a thread-safe record
//! store, and the handler logic that composes them. The HTTP transport around
//! these pieces lives outside the library.

pub mod handlers;
pub mod identity;
pub mod key;
pub mod policy;
pub mod store;
