//! The authorization layer. It wraps a service and, as things stand, lets
//! every request through to it.

use vstd::prelude::*;

verus! {

/// Makes an [`Authorization`] around a service.
#[derive(Debug, Clone, Copy, Default)]
pub struct AuthorizationLayer {}

/// A service behind the authorization check.
#[derive(Debug, Clone)]
pub struct Authorization<S> {
    pub inner: S,
}

impl AuthorizationLayer {
    /// Wraps `inner`, which stays as it is.
    pub fn layer<S>(&self, inner: S) -> (r: Authorization<S>)
        ensures
            r.inner == inner,
    {
        Authorization { inner }
    }

    /// Whether a request may pass: every request may.
    pub fn permits(&self) -> (r: bool)
        ensures
            r,
    {
        true
    }
}

} // verus!
