//! Work given as a plain callable.

use crate::error::DriftError;
use std::future::Future;
use std::sync::Arc;
use vstd::prelude::*;

verus! {

/// A unit of work made from a callable that takes nothing and returns a
/// future of the work's result. The callable is shared, so that the unit can
/// be handed on at the price of a reference count.
#[verifier::reject_recursive_types(F)]
#[verifier::reject_recursive_types(Fut)]
pub struct FuncDrifter<F, Fut> where
    F: Fn() -> Fut + Send + Sync + 'static,
    Fut: Future<Output = Result<(), DriftError>> + Send + 'static,
{
    func: Arc<F>,
}

impl<F, Fut> FuncDrifter<F, Fut> where
    F: Fn() -> Fut + Send + Sync + 'static,
    Fut: Future<Output = Result<(), DriftError>> + Send + 'static,
{
    /// The callable that this unit runs.
    pub closed spec fn callable(&self) -> F {
        *self.func
    }

    /// The unit of work that runs `func`.
    pub fn new(func: F) -> (r: Self)
        ensures
            r.callable() == func,
    {
        Self { func: Arc::new(func) }
    }

    /// The callable, to be called for one run.
    pub fn func(&self) -> (r: &F)
        ensures
            *r == self.callable(),
    {
        &*self.func
    }
}

impl<F, Fut> Clone for FuncDrifter<F, Fut> where
    F: Fn() -> Fut + Send + Sync + 'static,
    Fut: Future<Output = Result<(), DriftError>> + Send + 'static,
{
    /// Another handle to the same callable.
    fn clone(&self) -> (r: Self)
        ensures
            r.callable() == self.callable(),
    {
        Self { func: self.func.clone() }
    }
}

} // verus!
