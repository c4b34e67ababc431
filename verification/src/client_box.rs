//! A client agent whose error is converted into another error type.

use vstd::prelude::*;
use std::marker::PhantomData;

verus! {

/// Wraps a client agent and converts the errors of its calls into `E`.
pub struct AsyncClientAgentBox<A, E> {
    inner: A,
    _marker: PhantomData<E>,
}

impl<A, E> AsyncClientAgentBox<A, E> {
    /// The wrapped agent.
    pub closed spec fn spec_inner(&self) -> A {
        self.inner
    }

    /// Wraps `inner`.
    pub fn new(inner: A) -> (b: Self)
        ensures
            b.spec_inner() == inner,
    {
        AsyncClientAgentBox { inner, _marker: PhantomData }
    }

    /// The wrapped agent.
    pub fn inner(&self) -> (a: &A)
        ensures
            *a == self.spec_inner(),
    {
        &self.inner
    }

    /// The outcome of a call of the wrapped agent, its error converted into `E`.
    pub fn convert_outcome<T, F: Into<E>>(outcome: Result<T, F>) -> (converted: Result<T, E>)
        ensures
            outcome is Ok <==> converted is Ok,
            outcome matches Ok(v) ==> converted == Ok::<T, E>(v),
            outcome matches Err(f) ==> converted matches Err(e) && call_ensures(
                <F as Into<E>>::into,
                (f,),
                e,
            ),
    {
        match outcome {
            Ok(response) => Ok(response),
            Err(err) => Err(err.into()),
        }
    }
}

} // verus!
