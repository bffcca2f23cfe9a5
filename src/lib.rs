//! A client-side command builder that switches the namespace, database and
//! session of a connection handle, and dispatches the resulting command to the
//! router bound to that handle.
mod client;
mod command;
mod laws;
mod switch;

pub use client::{cloned_binding, Router, Surreal};
pub use command::{opt_view, Command, Context, Error, Field, Setting};
pub use laws::{
    lemma_bound_submits_context, lemma_distinct_fields_commute, lemma_last_write_wins,
    lemma_owned_same_outcome, lemma_repeat_is_idempotent, lemma_unbound_fails,
};
pub use switch::{plan, Client, Use, UseFuture};
