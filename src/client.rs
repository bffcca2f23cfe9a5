use vstd::prelude::*;

use crate::command::{Command, Error};

verus! {

/// The live dispatcher of a connected handle.
pub trait Router {
    /// Submits one command and returns the backend's answer to it.
    fn execute_unit(&self, command: Command) -> Result<(), Error>;
}

/// A handle to a client session: it holds a router once connected.
pub struct Surreal<R> {
    router: Option<R>,
}

/// `b` is a copy of the binding `a`: both are unbound, or both hold a router
/// and the second is a clone of the first.
pub open spec fn cloned_binding<R: Clone>(a: Option<R>, b: Option<R>) -> bool {
    match (a, b) {
        (None, None) => true,
        (Some(x), Some(y)) => cloned::<R>(x, y),
        _ => false,
    }
}

impl<R> Surreal<R> {
    /// The router bound to the handle, if any.
    pub closed spec fn bound(&self) -> Option<R> {
        self.router
    }

    /// A handle that is not connected yet.
    pub fn init() -> (r: Self)
        ensures
            r.bound() is None,
    {
        Surreal { router: None }
    }

    /// A handle connected through `router`.
    pub fn with_router(router: R) -> (r: Self)
        ensures
            r.bound() == Some(router),
    {
        Surreal { router: Some(router) }
    }

    /// Whether a router is bound.
    pub fn is_connected(&self) -> (r: bool)
        ensures
            r == self.bound() is Some,
    {
        self.router.is_some()
    }

    /// The bound router, or `NotConnected` when there is none.
    pub fn router(&self) -> (r: Result<&R, Error>)
        ensures
            match self.bound() {
                Some(rt) => r matches Ok(x) && *x == rt,
                None => r matches Err(e) && e == Error::NotConnected,
            },
    {
        match &self.router {
            Some(rt) => Ok(rt),
            None => Err(Error::NotConnected),
        }
    }
}

impl<R: Clone> Clone for Surreal<R> {
    /// Another handle on a clone of the same router.
    fn clone(&self) -> (r: Self)
        ensures
            cloned_binding(self.bound(), r.bound()),
    {
        match &self.router {
            Some(rt) => Surreal { router: Some(rt.clone()) },
            None => Surreal { router: None },
        }
    }
}

} // verus!
