//! The core server: the authentication backend, the shared service context,
//! and the startup steps that build them.
use vstd::prelude::*;

use libreauth::pass::Error as HashError;
use libreauth::pass::Hasher;
use persist::error::ConnectionError;
use state::Context;
use std::sync::Arc;

/// Stored user records
pub mod models;
/// Persistence-facing logic
pub mod persist;
/// The shared service context
pub mod state;

verus! {

/// Declares libreauth's `pass::Error`, the report of a refused hasher
/// configuration; carried through opaquely.
#[verifier::external_type_specification]
#[verifier::external_body]
pub struct ExHashError(HashError);

/// Relies on libreauth's `HashBuilder::new().finalize()`: `new` selects no
/// storage standard, and with none selected `finalize` checks nothing and
/// returns `Ok`.
#[verifier::external_body]
fn finalize_default_hasher() -> (r: Result<Hasher, HashError>)
    ensures
        r is Ok,
{
    libreauth::pass::HashBuilder::new().finalize()
}

/// An error while creating the router
#[derive(Debug)]
pub enum CreateRouterError {
    /// db connection/setup error
    ConnectionError(ConnectionError),
    /// hasher setup error
    HashError(HashError),
}

/// Builds the service's password hasher with the default parameters.
pub fn default_hasher() -> (r: Result<Hasher, CreateRouterError>)
    ensures
        r is Ok,
{
    match finalize_default_hasher() {
        Ok(h) => Ok(h),
        Err(e) => Err(CreateRouterError::HashError(e)),
    }
}

/// The state of the router: the shared service context.
#[derive(Clone)]
pub struct Api<P> {
    ctx: Arc<Context<P>>,
}

impl<P> Api<P> {
    /// The context the router shares.
    pub closed spec fn context(&self) -> Context<P> {
        *self.ctx
    }

    /// Wraps the context for sharing across handlers.
    pub fn new(ctx: Context<P>) -> (r: Api<P>)
        ensures
            r.context() == ctx,
            r.context().wf(),
    {
        proof {
            use_type_invariant(&ctx);
        }
        Api { ctx: Arc::new(ctx) }
    }

    /// The shared context.
    pub fn ctx(&self) -> (r: &Context<P>)
        ensures
            *r == self.context(),
    {
        &*self.ctx
    }
}

} // verus!
