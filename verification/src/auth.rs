//! The opaque write-authorization capability.

use vstd::prelude::*;

verus! {

/// Proof that a caller is authorized to acquire a write connection. The pool
/// performs no authorization logic of its own: it only requires that some
/// token be presented; issuing and validating tokens is the host's concern.
#[derive(Clone, Debug, PartialEq, Eq, Structural)]
pub enum WriteAuthorization {
    /// The request has passed cross-site request forgery checks.
    PassedCsrfChecks,
    /// A background job not tied to any request.
    IPromiseThisIsABackgroundJobNotTiedToARequest,
    /// A logging endpoint that is safe to write without protection.
    ThisIsALoggingEndpointAndSafeToWriteWithoutProtection,
}

} // verus!
