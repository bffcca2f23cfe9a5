use vstd::prelude::*;

verus! {

/// A request handed to a router.
#[derive(Debug, Clone, PartialEq, Eq)]
pub enum Command {
    /// Switch the session context: each field that is `None` leaves that
    /// dimension to the backend.
    Use { namespace: Option<String>, database: Option<String>, session_id: Option<String> },
}

/// Why a dispatch failed.
#[derive(Debug, Clone, PartialEq, Eq)]
pub enum Error {
    /// No router is bound to the connection handle.
    NotConnected,
    /// The router or the backend refused the command, with its own message.
    BackendRejected(String),
}

/// The session context that a builder or a command carries, as character
/// sequences.
pub struct Context {
    pub namespace: Option<Seq<char>>,
    pub database: Option<Seq<char>>,
    pub session: Option<Seq<char>>,
}

/// One configuration call on a builder.
pub enum Setting {
    Namespace(Seq<char>),
    Database(Seq<char>),
    Session(Seq<char>),
}

/// A field of a context.
pub enum Field {
    Namespace,
    Database,
    Session,
}

impl Setting {
    /// The field that the call sets.
    pub open spec fn field(self) -> Field {
        match self {
            Setting::Namespace(_) => Field::Namespace,
            Setting::Database(_) => Field::Database,
            Setting::Session(_) => Field::Session,
        }
    }

    /// The value that the call sets.
    pub open spec fn value(self) -> Seq<char> {
        match self {
            Setting::Namespace(v) => v,
            Setting::Database(v) => v,
            Setting::Session(v) => v,
        }
    }
}

pub open spec fn opt_view(o: Option<String>) -> Option<Seq<char>> {
    match o {
        Some(s) => Some(s@),
        None => None,
    }
}

impl Command {
    /// The context that the command asks the backend to switch to.
    pub open spec fn context(self) -> Context {
        match self {
            Command::Use { namespace, database, session_id } => Context {
                namespace: opt_view(namespace),
                database: opt_view(database),
                session: opt_view(session_id),
            },
        }
    }
}

impl Context {
    /// The context with every field unset.
    pub open spec fn unset() -> Context {
        Context { namespace: None, database: None, session: None }
    }

    /// The value of one field.
    pub open spec fn get(self, f: Field) -> Option<Seq<char>> {
        match f {
            Field::Namespace => self.namespace,
            Field::Database => self.database,
            Field::Session => self.session,
        }
    }

    /// The context after one configuration call: the field it names is
    /// replaced, the others are kept.
    pub open spec fn apply(self, s: Setting) -> Context {
        match s {
            Setting::Namespace(v) => Context { namespace: Some(v), ..self },
            Setting::Database(v) => Context { database: Some(v), ..self },
            Setting::Session(v) => Context { session: Some(v), ..self },
        }
    }

    /// The context after a sequence of configuration calls, made in order.
    pub open spec fn apply_all(self, calls: Seq<Setting>) -> Context
        decreases calls.len(),
    {
        if calls.len() == 0 {
            self
        } else {
            self.apply_all(calls.drop_last()).apply(calls.last())
        }
    }
}

} // verus!
