use vstd::prelude::*;

use crate::client::cloned_binding;
use crate::command::{Context, Error, Field, Setting};
use crate::switch::{plan, Use};

verus! {

/// Last write wins: after a sequence of configuration calls, a field that no
/// call named keeps its earlier value, and a field that some call named holds
/// the value of the last call that named it. Starting from the unset context,
/// a field never set stays unset.
pub proof fn lemma_last_write_wins(c: Context, calls: Seq<Setting>, f: Field)
    ensures
        (forall|i: int| 0 <= i < calls.len() ==> #[trigger] calls[i].field() != f)
            ==> c.apply_all(calls).get(f) == c.get(f),
        forall|i: int|
            0 <= i < calls.len() && #[trigger] calls[i].field() == f && (forall|j: int|
                i < j < calls.len() ==> #[trigger] calls[j].field() != f)
                ==> c.apply_all(calls).get(f) == Some(calls[i].value()),
        Context::unset().get(f) is None,
    decreases calls.len(),
{
    if calls.len() > 0 {
        let init = calls.drop_last();
        let n = calls.len() - 1;
        lemma_last_write_wins(c, init, f);
        assert forall|i: int| 0 <= i < init.len() implies init[i] == calls[i] by {}
        if calls[n].field() != f {
            assert(c.apply_all(calls).get(f) == c.apply_all(init).get(f));
            assert forall|i: int|
                0 <= i < calls.len() && #[trigger] calls[i].field() == f && (forall|j: int|
                    i < j < calls.len() ==> #[trigger] calls[j].field() != f) implies c.apply_all(
                calls,
            ).get(f) == Some(calls[i].value()) by {
                assert(i < n);
                assert(init[i].field() == f);
                assert forall|j: int| i < j < init.len() implies #[trigger] init[j].field() != f by {
                    assert(calls[j].field() != f);
                }
            }
        } else {
            assert forall|i: int|
                0 <= i < calls.len() && #[trigger] calls[i].field() == f && (forall|j: int|
                    i < j < calls.len() ==> #[trigger] calls[j].field() != f) implies i == n by {
                if i < n {
                    assert(calls[n].field() != f);
                }
            }
        }
    }
}

/// Calls that set distinct fields can be made in either order.
pub proof fn lemma_distinct_fields_commute(c: Context, s: Setting, t: Setting)
    requires
        s.field() != t.field(),
    ensures
        c.apply(s).apply(t) == c.apply(t).apply(s),
{
}

/// Repeating a configuration call changes nothing.
pub proof fn lemma_repeat_is_idempotent(c: Context, s: Setting)
    ensures
        c.apply(s).apply(s) == c.apply(s),
{
}

/// Dispatching a builder whose handle has no router fails with
/// `NotConnected` and submits no command.
pub proof fn lemma_unbound_fails<'r, R>(u: Use<'r, R>)
    requires
        u.handle().bound() is None,
    ensures
        u.outcome() == Err::<Context, Error>(Error::NotConnected),
{
}

/// Dispatching a builder whose handle has a router submits a command that
/// carries exactly the builder's configured context.
pub proof fn lemma_bound_submits_context<'r, R>(u: Use<'r, R>)
    requires
        u.handle().bound() is Some,
    ensures
        u.outcome() == Ok::<Context, Error>(u.context()),
{
}

/// The owned form of a builder, on a clone of its handle, behaves as the
/// builder itself under any further configuration calls: both fail with
/// `NotConnected`, or both submit the same context.
pub proof fn lemma_owned_same_outcome<'r, R: Clone + 'static>(
    u: Use<'r, R>,
    o: Use<'static, R>,
    calls: Seq<Setting>,
)
    requires
        cloned_binding(u.handle().bound(), o.handle().bound()),
        o.command() == u.command(),
    ensures
        o.outcome() == u.outcome(),
        plan(o.handle().bound() is Some, o.context().apply_all(calls)) == plan(
            u.handle().bound() is Some,
            u.context().apply_all(calls),
        ),
{
}

} // verus!
