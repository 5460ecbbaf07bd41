//! The guarantees the core gives across whole message sequences, proved
//! once and for all over the models that the executable contracts speak of.

use vstd::prelude::*;
use crate::surface::{SurfaceId, SurfaceModel, default_model};
use crate::registry::spec_open;
use crate::message::{Message, msg_target, is_mutation, step};
use crate::manager::{ManagerModel, Action, SessionPhase, spec_dispatch};

verus! {

/// The registry model after a whole sequence of messages, applied in
/// order, each one fully before the next.
pub open spec fn apply_msgs(m: Map<SurfaceId, SurfaceModel>, msgs: Seq<Message>) -> Map<SurfaceId, SurfaceModel>
    decreases msgs.len(),
{
    if msgs.len() == 0 {
        m
    } else {
        apply_msgs(step(m, msgs[0]), msgs.drop_first())
    }
}

/// How many messages in the sequence are increment requests for `id`.
pub open spec fn num_increments(msgs: Seq<Message>, id: SurfaceId) -> nat
    decreases msgs.len(),
{
    if msgs.len() == 0 {
        0
    } else {
        (if msgs[0] == Message::IncrementRequested(id) { 1nat } else { 0nat })
            + num_increments(msgs.drop_first(), id)
    }
}

/// How many messages in the sequence are decrement requests for `id`.
pub open spec fn num_decrements(msgs: Seq<Message>, id: SurfaceId) -> nat
    decreases msgs.len(),
{
    if msgs.len() == 0 {
        0
    } else {
        (if msgs[0] == Message::DecrementRequested(id) { 1nat } else { 0nat })
            + num_decrements(msgs.drop_first(), id)
    }
}

/// Counter tally from an arbitrary starting record: a sequence made only
/// of increment and decrement requests for `id` moves the counter by
/// exactly (increments − decrements) and leaves the text alone, as long as
/// the tally cannot reach the saturation bounds of the `i64` counter.
pub proof fn lemma_counter_tally_from(m: Map<SurfaceId, SurfaceModel>, id: SurfaceId, msgs: Seq<Message>)
    requires
        m.contains_key(id),
        forall|i: int| 0 <= i < msgs.len() ==>
            (msgs[i] == Message::IncrementRequested(id) || msgs[i] == Message::DecrementRequested(id)),
        m[id].counter + num_increments(msgs, id) <= i64::MAX,
        m[id].counter - num_decrements(msgs, id) >= i64::MIN,
    ensures
        apply_msgs(m, msgs).contains_key(id),
        apply_msgs(m, msgs)[id].counter
            == m[id].counter + num_increments(msgs, id) - num_decrements(msgs, id),
        apply_msgs(m, msgs)[id].text == m[id].text,
    decreases msgs.len(),
{
    if msgs.len() > 0 {
        let rest = msgs.drop_first();
        assert(forall|i: int| 0 <= i < rest.len() ==>
            (rest[i] == Message::IncrementRequested(id) || rest[i] == Message::DecrementRequested(id)))
            by {
            assert(forall|i: int| 0 <= i < rest.len() ==> rest[i] == msgs[i + 1]);
        }
        let m2 = step(m, msgs[0]);
        assert(msgs[0] == Message::IncrementRequested(id) || msgs[0] == Message::DecrementRequested(id));
        assert(m2.contains_key(id));
        lemma_counter_tally_from(m2, id, rest);
    }
}

/// Counter tally for a freshly opened surface: `SurfaceOpened(id)` on an
/// id never seen, followed by any interleaving of k increment and d
/// decrement requests for `id`, leaves the counter at exactly k − d
/// (within the `i64` range; beyond it the counter saturates instead).
pub proof fn lemma_open_then_counter_tally(m: Map<SurfaceId, SurfaceModel>, id: SurfaceId, msgs: Seq<Message>)
    requires
        !m.contains_key(id),
        forall|i: int| 0 <= i < msgs.len() ==>
            (msgs[i] == Message::IncrementRequested(id) || msgs[i] == Message::DecrementRequested(id)),
        num_increments(msgs, id) <= i64::MAX,
        0 - num_decrements(msgs, id) >= i64::MIN,
    ensures
        apply_msgs(spec_open(m, id), msgs).contains_key(id),
        apply_msgs(spec_open(m, id), msgs)[id].counter
            == num_increments(msgs, id) - num_decrements(msgs, id),
        apply_msgs(spec_open(m, id), msgs)[id].text == Seq::<char>::empty(),
{
    let opened = spec_open(m, id);
    assert(opened[id] == default_model());
    lemma_counter_tally_from(opened, id, msgs);
}

/// One step never touches a surface it does not target: any record other
/// than the message's target keeps exactly its prior value and presence.
pub proof fn lemma_step_isolation(m: Map<SurfaceId, SurfaceModel>, msg: Message, b: SurfaceId)
    requires
        msg_target(msg) != Some(b),
    ensures
        step(m, msg).contains_key(b) == m.contains_key(b),
        m.contains_key(b) ==> step(m, msg)[b] == m[b],
{
}

/// Two distinct surfaces never observe each other's mutations: after a
/// whole sequence of messages none of which targets `b`, the record for
/// `b` (present or absent) is exactly what it was before.
pub proof fn lemma_isolation(m: Map<SurfaceId, SurfaceModel>, msgs: Seq<Message>, b: SurfaceId)
    requires
        forall|i: int| 0 <= i < msgs.len() ==> #[trigger] msg_target(msgs[i]) != Some(b),
    ensures
        apply_msgs(m, msgs).contains_key(b) == m.contains_key(b),
        m.contains_key(b) ==> apply_msgs(m, msgs)[b] == m[b],
    decreases msgs.len(),
{
    if msgs.len() > 0 {
        let rest = msgs.drop_first();
        assert(forall|i: int| 0 <= i < rest.len() ==> #[trigger] msg_target(rest[i]) != Some(b)) by {
            assert(forall|i: int| 0 <= i < rest.len() ==> rest[i] == msgs[i + 1]);
        }
        assert(msg_target(msgs[0]) != Some(b));
        lemma_step_isolation(m, msgs[0], b);
        lemma_isolation(step(m, msgs[0]), rest, b);
    }
}

/// Last write wins: immediately after `TextChanged(id, s)` the record for
/// `id` holds exactly the text `s`, whatever was there before, and the
/// counter is untouched (zero if the surface was never opened).
pub proof fn lemma_text_last_write(m: Map<SurfaceId, SurfaceModel>, id: SurfaceId, s: String)
    ensures
        step(m, Message::TextChanged(id, s)).contains_key(id),
        step(m, Message::TextChanged(id, s))[id].text == s@,
        m.contains_key(id) ==> step(m, Message::TextChanged(id, s))[id].counter == m[id].counter,
        !m.contains_key(id) ==> step(m, Message::TextChanged(id, s))[id].counter == 0,
{
}

/// Opening is idempotent: opening an id twice in a row, with no
/// intervening mutation, leaves the registry model exactly as opening it
/// once does.
pub proof fn lemma_open_idempotent(m: Map<SurfaceId, SurfaceModel>, id: SurfaceId)
    ensures
        spec_open(spec_open(m, id), id) == spec_open(m, id),
{
    assert(spec_open(m, id).contains_key(id));
}

/// The manager model after dispatching a whole sequence of messages.
pub open spec fn run_manager(m: ManagerModel, msgs: Seq<Message>) -> ManagerModel
    decreases msgs.len(),
{
    if msgs.len() == 0 {
        m
    } else {
        run_manager(spec_dispatch(m, msgs[0]).0, msgs.drop_first())
    }
}

/// A run of the manager moves the surfaces exactly as the registry model
/// does: the session phase decides only the unlock answer, never what a
/// message does to surface state.
pub proof fn lemma_run_surfaces(m: ManagerModel, msgs: Seq<Message>)
    ensures
        run_manager(m, msgs).surfaces == apply_msgs(m.surfaces, msgs),
    decreases msgs.len(),
{
    if msgs.len() > 0 {
        lemma_run_surfaces(spec_dispatch(m, msgs[0]).0, msgs.drop_first());
    }
}

/// How many dispatches in the run answer with `RequestUnlock`.
pub open spec fn num_unlock_actions(m: ManagerModel, msgs: Seq<Message>) -> nat
    decreases msgs.len(),
{
    if msgs.len() == 0 {
        0
    } else {
        (if spec_dispatch(m, msgs[0]).1 == Action::RequestUnlock { 1nat } else { 0nat })
            + num_unlock_actions(spec_dispatch(m, msgs[0]).0, msgs.drop_first())
    }
}

/// Whether the sequence carries an unlock request at all.
pub open spec fn contains_unlock(msgs: Seq<Message>) -> bool {
    exists|i: int| 0 <= i < msgs.len() && msgs[i] == Message::UnlockRequested
}

/// Once the core is unlocking, it stays unlocking and never asks the host
/// to unlock again, whatever messages keep arriving.
pub proof fn lemma_unlocking_absorbs(m: ManagerModel, msgs: Seq<Message>)
    requires
        m.phase == SessionPhase::Unlocking,
    ensures
        run_manager(m, msgs).phase == SessionPhase::Unlocking,
        num_unlock_actions(m, msgs) == 0,
    decreases msgs.len(),
{
    if msgs.len() > 0 {
        lemma_unlocking_absorbs(spec_dispatch(m, msgs[0]).0, msgs.drop_first());
    }
}

/// From the running phase, a whole run of messages produces exactly one
/// `RequestUnlock` action when the run carries an unlock request and none
/// otherwise — however many surfaces or prior messages there are.
pub proof fn lemma_exactly_one_unlock(m: ManagerModel, msgs: Seq<Message>)
    requires
        m.phase == SessionPhase::Running,
    ensures
        num_unlock_actions(m, msgs) == if contains_unlock(msgs) { 1nat } else { 0nat },
    decreases msgs.len(),
{
    if msgs.len() > 0 {
        let rest = msgs.drop_first();
        let m2 = spec_dispatch(m, msgs[0]).0;
        if msgs[0] == Message::UnlockRequested {
            assert(spec_dispatch(m, msgs[0]).1 == Action::RequestUnlock);
            assert(m2.phase == SessionPhase::Unlocking);
            lemma_unlocking_absorbs(m2, rest);
            assert(contains_unlock(msgs));
        } else {
            assert(spec_dispatch(m, msgs[0]).1 == Action::Continue);
            assert(m2.phase == SessionPhase::Running);
            lemma_exactly_one_unlock(m2, rest);
            assert(contains_unlock(msgs) == contains_unlock(rest)) by {
                if contains_unlock(rest) {
                    let i = choose|i: int| 0 <= i < rest.len() && rest[i] == Message::UnlockRequested;
                    assert(msgs[i + 1] == rest[i]);
                }
                if contains_unlock(msgs) {
                    let i = choose|i: int| 0 <= i < msgs.len() && msgs[i] == Message::UnlockRequested;
                    assert(i != 0);
                    assert(rest[i - 1] == msgs[i]);
                }
            }
        }
    }
}

/// The create-on-mutate policy, uniformly for every mutating message:
/// mutating an id that was never opened behaves exactly as if a default
/// record had been created first and the mutation then applied to it.
pub proof fn lemma_create_on_mutate(m: Map<SurfaceId, SurfaceModel>, msg: Message, id: SurfaceId)
    requires
        is_mutation(msg),
        msg_target(msg) == Some(id),
        !m.contains_key(id),
    ensures
        step(m, msg) == step(spec_open(m, id), msg),
{
    let opened = spec_open(m, id);
    assert(opened[id] == default_model());
    match msg {
        Message::IncrementRequested(_) => {
            assert(step(m, msg) =~= step(opened, msg));
        },
        Message::DecrementRequested(_) => {
            assert(step(m, msg) =~= step(opened, msg));
        },
        Message::TextChanged(_, _) => {
            assert(step(m, msg) =~= step(opened, msg));
        },
        _ => {},
    }
}

} // verus!
