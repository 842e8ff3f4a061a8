//! The reactor's cross-function guarantees, written down and proved from the
//! contracts that the operations themselves carry.
//!
//! Each lemma takes the states around one or two reactor steps and requires
//! of them exactly what the stepping functions ensure; its conclusion is the
//! guarantee a user of the reactor may rely on.

use crate::reactor::{Core, ObjectId, Token};
use crate::slot::{lemma_occupied_count_zero, Slot};
use vstd::prelude::*;

verus! {

/// Adding an object and then removing it under the id that `add` assigned
/// hands the very value back — ownership makes the round trip — and leaves
/// every slot that existed before exactly as it was.
pub proof fn lemma_add_remove_round_trip<O>(
    pre: Core<O>,
    mid: Core<O>,
    post: Core<O>,
    o: O,
    id: ObjectId,
    taken: Option<O>,
)
    requires
        id@ == pre.next_id_spec(),
        id@ <= pre.objects_seq().len(),
        id@ < pre.objects_seq().len() ==> pre.objects_seq()[id@ as int] is Empty,
        mid.objects_seq() == if id@ < pre.objects_seq().len() {
            pre.objects_seq().update(id@ as int, Slot::Present(o))
        } else {
            pre.objects_seq().push(Slot::Present(o))
        },
        match taken {
            Some(v) => mid.object_present(id) && mid.object_value(id) == v,
            None => !mid.object_present(id),
        },
        mid.object_slot_occupied(id) ==> post.objects_seq() == mid.objects_seq().update(
            id@ as int,
            Slot::Empty,
        ),
    ensures
        taken == Some(o),
        !post.object_present(id),
        forall|j: int|
            0 <= j < pre.objects_seq().len() && j != id@ ==> post.objects_seq()[j]
                == pre.objects_seq()[j],
{
}

/// While an object is out for an in-flight dispatch its slot is marked
/// taken, so a nested lookup under its id finds it absent for the whole
/// callback.
pub proof fn lemma_taken_object_absent<O>(c: Core<O>, id: ObjectId)
    requires
        id@ < c.objects_seq().len(),
        c.objects_seq()[id@ as int] is Taken,
    ensures
        !c.object_present(id),
        c.object_slot_occupied(id),
{
}

/// A token without a live handler dispatches nothing: the dispatcher leaves
/// the whole reactor untouched, so the token stays dead and no later event
/// for it can reach a callback either.
pub proof fn lemma_dead_token_stays_dead<O>(pre: Core<O>, post: Core<O>, t: Token)
    requires
        !pre.handler_present(t),
        post == pre,
    ensures
        !post.handler_present(t),
{
}

/// An event for a handler whose object has gone drops the handler instead of
/// dispatching it: afterwards the token is dead and no object was touched.
pub proof fn lemma_orphan_event_drops_handler<O>(pre: Core<O>, post: Core<O>, t: Token)
    requires
        pre.handler_present(t),
        !pre.object_present(pre.handler_value(t).object_id),
        post.handlers_seq() == pre.handlers_seq().update(t@ as int, Slot::Empty),
        post.objects_seq() == pre.objects_seq(),
    ensures
        !post.handler_present(t),
        !post.object_present(pre.handler_value(t).object_id),
{
}

/// Once shutdown is requested the stop condition holds, and because every
/// reactor operation — and every callback that acts through them — keeps the
/// flag set, it still holds after a whole dispatch batch: the loop runs at
/// most the batch in flight before its next check stops it.
pub proof fn lemma_exit_stops_after_batch<O>(pre: Core<O>, post: Core<O>)
    requires
        pre.exit_requested(),
        pre.exit_requested() ==> post.exit_requested(),
    ensures
        post.stop_condition(),
{
}

/// With nothing to wait for — an empty handler table and no reaper pending —
/// the stop condition already holds, so the loop returns without dispatching
/// anything; indeed no token names a live handler that could be dispatched.
pub proof fn lemma_idle_reactor_stops<O>(c: Core<O>)
    requires
        c.handlers_empty(),
        c.reapers_seq().len() == 0,
    ensures
        c.stop_condition(),
        forall|t: Token| !c.handler_present(t),
{
    lemma_occupied_count_zero(c.handlers_seq());
}

/// An object stays exactly as it was under any reactor step that touches a
/// different slot, so a caller's id keeps returning its object until the
/// caller itself removes it.
pub proof fn lemma_unrelated_step_preserves_object<O>(
    pre: Core<O>,
    post: Core<O>,
    id: ObjectId,
    j: int,
    s: Slot<O>,
)
    requires
        pre.object_present(id),
        j != id@,
        (0 <= j < pre.objects_seq().len() && post.objects_seq() == pre.objects_seq().update(j, s))
            || post.objects_seq() == pre.objects_seq().push(s),
    ensures
        post.object_present(id),
        post.object_value(id) == pre.object_value(id),
{
}

} // verus!
