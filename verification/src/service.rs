//! The HTTP client that sends the request is the caller's; these are the library's side of it.

use vstd::prelude::*;

verus! {

/// A client wrapped so as to be used as a service.
pub struct IntoService<S>(pub S);

impl<S> IntoService<S> {
    /// The wrapped client.
    pub fn into_inner(self) -> (r: S)
        ensures
            r == self.0,
    {
        self.0
    }

    /// A reference to the wrapped client.
    pub fn get_ref(&self) -> (r: &S)
        ensures
            *r == self.0,
    {
        &self.0
    }
}

/// A client that can be wrapped as a service for requests with bodies of type `B`.
pub trait Sealed<B> {
    /// Wraps the client.
    fn into_service(self) -> (r: IntoService<Self>)
        where
            Self: Sized,
        ensures
            r.0 == self,
    {
        IntoService(self)
    }
}

/// A wrapped client can be wrapped once more.
impl<S, B> Sealed<B> for IntoService<S> {

}

} // verus!
