//! Providers that adapt the context a transport hands them before serving.

use vstd::prelude::*;
use std::marker::PhantomData;

verus! {

/// Wraps a provider so that it is served with the context `mapper` makes
/// out of the transport's context.
#[verifier::reject_recursive_types(FromCtx)]
#[verifier::reject_recursive_types(IntoCtx)]
pub struct ContextMapper<P, Mapper: Fn(FromCtx) -> IntoCtx, FromCtx, IntoCtx>(
    P,
    Mapper,
    PhantomData<(FromCtx, IntoCtx)>,
);

impl<P, Mapper: Fn(FromCtx) -> IntoCtx, FromCtx, IntoCtx> ContextMapper<P, Mapper, FromCtx, IntoCtx> {
    /// The wrapped provider.
    pub closed spec fn spec_provider(&self) -> P {
        self.0
    }

    /// The context conversion.
    pub closed spec fn spec_mapper(&self) -> Mapper {
        self.1
    }

    /// Wraps `provider`, converting contexts with `mapper`.
    pub fn new(provider: P, mapper: Mapper) -> (m: Self)
        ensures
            m.spec_provider() == provider,
            m.spec_mapper() == mapper,
    {
        ContextMapper(provider, mapper, PhantomData)
    }

    /// The wrapped provider.
    pub fn provider(&self) -> (p: &P)
        ensures
            *p == self.spec_provider(),
    {
        &self.0
    }

    /// The context the wrapped provider is served with, made from `context`.
    pub fn map_context(&self, context: FromCtx) -> (mapped: IntoCtx)
        requires
            self.spec_mapper().requires((context,)),
        ensures
            self.spec_mapper().ensures((context,), mapped),
    {
        (self.1)(context)
    }
}

/// Wraps a provider so that it is served with the context that an
/// asynchronous `mapper` makes out of the transport's context.
pub struct ContextAsyncMapper<P, Mapper, FromCtx, IntoCtx>(
    P,
    Mapper,
    PhantomData<(FromCtx, IntoCtx)>,
);

impl<P, Mapper, FromCtx, IntoCtx> ContextAsyncMapper<P, Mapper, FromCtx, IntoCtx> {
    /// The wrapped provider.
    pub closed spec fn spec_provider(&self) -> P {
        self.0
    }

    /// The context conversion.
    pub closed spec fn spec_mapper(&self) -> Mapper {
        self.1
    }

    /// Wraps `provider`, converting contexts with `mapper`.
    pub fn new(provider: P, mapper: Mapper) -> (m: Self)
        ensures
            m.spec_provider() == provider,
            m.spec_mapper() == mapper,
    {
        ContextAsyncMapper(provider, mapper, PhantomData)
    }

    /// The wrapped provider.
    pub fn provider(&self) -> (p: &P)
        ensures
            *p == self.spec_provider(),
    {
        &self.0
    }

    /// The context conversion.
    pub fn mapper(&self) -> (m: &Mapper)
        ensures
            *m == self.spec_mapper(),
    {
        &self.1
    }
}

} // verus!
