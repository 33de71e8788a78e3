//! Wrapper type for values that carry secrets (passwords, keys, access
//! tokens or other credentials), which limits accidental exposure: the value
//! inside can only be read through the explicit `expose_secret` call.
//!
//! Other subsystems (for instance database connection configuration) depend
//! on this capability; the intake core itself never reads a secret.

use vstd::prelude::*;

verus! {

/// A secret value. Constructing it consumes the value; nothing but
/// `expose_secret` hands it back out.
pub struct Secret<S> {
    inner_secret: S,
}

impl<S> Secret<S> {
    /// The wrapped value, for contracts.
    pub closed spec fn spec_secret(&self) -> S {
        self.inner_secret
    }

    /// Wraps a secret value.
    pub fn new(inner_secret: S) -> (r: Secret<S>)
        ensures
            r.spec_secret() == inner_secret,
    {
        Secret { inner_secret }
    }

    /// The one deliberate way to read the wrapped value.
    pub fn expose_secret(&self) -> (r: &S)
        ensures
            *r == self.spec_secret(),
    {
        &self.inner_secret
    }
}

} // verus!
