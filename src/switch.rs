use vstd::prelude::*;

use crate::client::{cloned_binding, Router, Surreal};
use crate::command::{opt_view, Command, Context, Error, Setting};

verus! {

/// The connection handle a builder runs on: borrowed for the builder's
/// lifetime, or an owned copy.
pub enum Client<'r, R> {
    Borrowed(&'r Surreal<R>),
    Owned(Surreal<R>),
}

impl<'r, R> Client<'r, R> {
    /// The handle, whichever way it is held.
    pub open spec fn handle(&self) -> Surreal<R> {
        match self {
            Client::Borrowed(h) => **h,
            Client::Owned(h) => *h,
        }
    }

    /// A reference to the handle.
    pub fn get(&self) -> (r: &Surreal<R>)
        ensures
            *r == self.handle(),
    {
        match self {
            Client::Borrowed(h) => h,
            Client::Owned(h) => h,
        }
    }
}

/// Session info to set up: the builder of a context switch.
pub struct Use<'r, R> {
    client: Client<'r, R>,
    ns: Option<String>,
    db: Option<String>,
    session: Option<String>,
}

/// What dispatching a context switch does: with no router bound it fails with
/// `NotConnected` and submits nothing; otherwise it submits a command that
/// carries `ctx`.
pub open spec fn plan(connected: bool, ctx: Context) -> Result<Context, Error> {
    if connected {
        Ok(ctx)
    } else {
        Err(Error::NotConnected)
    }
}

/// A copy of an optional string.
fn copy_text(o: &Option<String>) -> (r: Option<String>)
    ensures
        r == *o,
{
    match o {
        Some(s) => Some(s.clone()),
        None => None,
    }
}

impl<'r, R> Use<'r, R> {
    /// How the builder holds its connection handle.
    pub closed spec fn client(&self) -> Client<'r, R> {
        self.client
    }

    /// The connection handle the builder runs on.
    pub open spec fn handle(&self) -> Surreal<R> {
        self.client().handle()
    }

    /// Whether the builder owns its copy of the handle.
    pub open spec fn is_owned(&self) -> bool {
        self.client() is Owned
    }

    /// The command that the builder submits when dispatched.
    pub closed spec fn command(&self) -> Command {
        Command::Use { namespace: self.ns, database: self.db, session_id: self.session }
    }

    /// The configured namespace, database and session.
    pub open spec fn context(&self) -> Context {
        self.command().context()
    }

    /// What dispatching the builder does.
    pub open spec fn outcome(&self) -> Result<Context, Error> {
        plan(self.handle().bound() is Some, self.context())
    }

    /// A builder on a borrowed handle, with every field unset.
    pub fn new(client: &'r Surreal<R>) -> (r: Self)
        ensures
            r.client() == Client::Borrowed(client),
            r.context() == Context::unset(),
    {
        Use { client: Client::Borrowed(client), ns: None, db: None, session: None }
    }

    /// Switch to a specific namespace
    pub fn use_ns(self, ns: &str) -> (r: Self)
        ensures
            r.client() == self.client(),
            r.context() == self.context().apply(Setting::Namespace(ns@)),
    {
        Use { ns: Some(ns.to_string()), ..self }
    }

    /// Switch to a specific database
    pub fn use_db(self, db: &str) -> (r: Self)
        ensures
            r.client() == self.client(),
            r.context() == self.context().apply(Setting::Database(db@)),
    {
        Use { db: Some(db.to_string()), ..self }
    }

    /// Switch to a specific session
    pub fn use_session(self, session: &str) -> (r: Self)
        ensures
            r.client() == self.client(),
            r.context() == self.context().apply(Setting::Session(session@)),
    {
        Use { session: Some(session.to_string()), ..self }
    }

    /// The command the builder would submit, built from its fields.
    pub fn to_command(&self) -> (r: Command)
        ensures
            r == self.command(),
    {
        Command::Use {
            namespace: copy_text(&self.ns),
            database: copy_text(&self.db),
            session_id: copy_text(&self.session),
        }
    }

    /// Turns the builder into a pending operation, which does nothing until
    /// it is run.
    pub fn into_future(self) -> (r: UseFuture<'r, R>)
        ensures
            r.builder() == self,
    {
        UseFuture { builder: self }
    }
}

impl<'r, R: Clone + 'static> Use<'r, R> {
    /// Converts to an owned type which can easily be moved to a different thread
    pub fn into_owned(self) -> (r: Use<'static, R>)
        ensures
            r.is_owned(),
            cloned_binding(self.handle().bound(), r.handle().bound()),
            r.command() == self.command(),
    {
        let client = match self.client {
            Client::Borrowed(h) => h.clone(),
            Client::Owned(h) => h,
        };
        Use { client: Client::Owned(client), ns: self.ns, db: self.db, session: self.session }
    }
}

impl<R: 'static> Use<'static, R> {
    /// A builder that owns its handle, with every field unset.
    pub fn new_owned(client: Surreal<R>) -> (r: Self)
        ensures
            r.client() == Client::<'static, R>::Owned(client),
            r.context() == Context::unset(),
    {
        Use { client: Client::Owned(client), ns: None, db: None, session: None }
    }
}

/// A context switch that is ready to run: nothing is resolved or submitted
/// before `run` is called.
pub struct UseFuture<'r, R> {
    builder: Use<'r, R>,
}

impl<'r, R> UseFuture<'r, R> {
    /// The builder the operation was made from.
    pub closed spec fn builder(&self) -> Use<'r, R> {
        self.builder
    }

    /// Resolves the handle's router and builds the command to submit, or
    /// fails with `NotConnected`, building no command.
    pub fn resolve(&self) -> (r: Result<(&R, Command), Error>)
        ensures
            match self.builder().handle().bound() {
                Some(rt) => r matches Ok((x, c)) && *x == rt && c == self.builder().command(),
                None => r matches Err(e) && e == Error::NotConnected,
            },
            match r {
                Ok((_, c)) => self.builder().outcome() == Ok::<Context, Error>(c.context()),
                Err(e) => self.builder().outcome() == Err::<Context, Error>(e),
            },
    {
        match self.builder.client.get().router() {
            Err(e) => Err(e),
            Ok(router) => Ok((router, self.builder.to_command())),
        }
    }
}

impl<'r, R: Router> UseFuture<'r, R> {
    /// Runs the operation: resolves the router, submits the command once and
    /// returns the router's answer unchanged. With no router bound it fails
    /// with `NotConnected` and submits nothing.
    pub fn run(self) -> (r: Result<(), Error>)
        ensures
            self.builder().handle().bound() is None ==> r == Err::<(), Error>(Error::NotConnected),
            self.builder().handle().bound() matches Some(rt) ==> call_ensures(
                R::execute_unit,
                (&rt, self.builder().command()),
                r,
            ),
    {
        match self.resolve() {
            Err(e) => Err(e),
            Ok((router, command)) => router.execute_unit(command),
        }
    }
}

} // verus!
