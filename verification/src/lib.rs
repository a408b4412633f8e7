//! Diagnostic guard for suspendable computations that must not be relocated
//! in memory once they have been resumed for the first time.
//!
//! A guard wraps one computation together with the storage address observed
//! at its first activation. Every later resume or finalize step is checked
//! against that address; a mismatch raises an [`AddressViolation`] instead of
//! letting the relocation corrupt state silently.

pub mod guard;
pub mod laws;
pub mod violation;

pub use guard::AssertUnmoved;
pub use guard::GuardState;
pub use violation::AddressViolation;
pub use violation::ViolationCause;
