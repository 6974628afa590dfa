//! From text to unit ticks in the queue.
//!
//! The Morse encoding itself is the work of the `small_morse` crate. Each of
//! its actions lasts a number of units; the queue takes one entry per unit,
//! so an action of duration `d` is stored as `d` equal entries.

use vstd::prelude::*;
use crate::queue::{SymbolQueue, QUEUE_CAPACITY, enqueued};
use crate::symbol::{Action, SymbolState};

verus! {

/// The actions that `small_morse::encode` yields for a text, in order.
pub uninterp spec fn morse_actions(text: Seq<char>) -> Seq<Action>;

/// `small_morse::encode`, collected: the actions for `text`, each with its
/// state (`On` as `Tone`, `Off` as `Silence`) and its duration in units.
#[verifier::external_body]
fn morse_encode(text: &str) -> (actions: Vec<Action>)
    ensures
        actions@ == morse_actions(text@),
{
    small_morse::encode(text).map(
        |step| Action {
            state: match step.state {
                small_morse::State::On => SymbolState::Tone,
                small_morse::State::Off => SymbolState::Silence,
            },
            duration: step.duration,
        },
    ).collect()
}

/// The ticks of one action: its state, once per unit of its duration.
pub open spec fn held(action: Action) -> Seq<SymbolState> {
    Seq::new(action.duration as nat, |i: int| action.state)
}

/// The ticks of a sequence of actions, in order.
pub open spec fn unit_ticks(actions: Seq<Action>) -> Seq<SymbolState>
    decreases actions.len(),
{
    if actions.len() == 0 {
        Seq::empty()
    } else {
        unit_ticks(actions.drop_last()) + held(actions.last())
    }
}

/// The sum of the durations of a sequence of actions.
pub open spec fn total_duration(actions: Seq<Action>) -> nat
    decreases actions.len(),
{
    if actions.len() == 0 {
        0
    } else {
        total_duration(actions.drop_last()) + actions.last().duration as nat
    }
}

/// The room left in a queue holding `entries`.
pub open spec fn free_slots(entries: Seq<SymbolState>) -> nat {
    if entries.len() <= QUEUE_CAPACITY {
        (QUEUE_CAPACITY - entries.len()) as nat
    } else {
        0
    }
}

/// How many of `count` offered ticks a queue holding `entries` accepts: all
/// of them, or as many as there is room for.
pub open spec fn accepted_count(entries: Seq<SymbolState>, count: nat) -> nat {
    if count <= free_slots(entries) {
        count
    } else {
        free_slots(entries)
    }
}

/// The entries after `ticks` were offered one by one to a queue holding
/// `entries`: the ticks follow in order as far as there is room, and the
/// rest is dropped.
pub open spec fn enqueued_all(entries: Seq<SymbolState>, ticks: Seq<SymbolState>) -> Seq<SymbolState> {
    entries + ticks.take(accepted_count(entries, ticks.len()) as int)
}

/// An action expands into as many ticks as its duration, so a sequence of
/// actions expands into as many ticks as the sum of the durations.
pub proof fn lemma_unit_ticks_len(actions: Seq<Action>)
    ensures
        unit_ticks(actions).len() == total_duration(actions),
    decreases actions.len(),
{
    if actions.len() > 0 {
        lemma_unit_ticks_len(actions.drop_last());
    }
}

/// Offering one more tick is one more `enqueue`.
proof fn lemma_enqueued_all_push(entries: Seq<SymbolState>, ticks: Seq<SymbolState>, state: SymbolState)
    ensures
        enqueued(enqueued_all(entries, ticks), state) == enqueued_all(entries, ticks.push(state)),
{
    let room = accepted_count(entries, ticks.len()) as int;
    let more = ticks.push(state);
    if entries.len() + ticks.len() < QUEUE_CAPACITY {
        assert(ticks.take(room) =~= ticks);
        assert(more.take(room + 1) =~= more);
        assert((entries + ticks).push(state) =~= entries + more);
    } else {
        assert(more.take(room) =~= ticks.take(room));
    }
}

/// Stores every action as unit ticks: for each action, `duration` calls of
/// `enqueue` with its state. Ticks that find the queue full are dropped.
/// Returns the number of ticks stored.
pub fn enqueue_actions(queue: &mut SymbolQueue, actions: &[Action]) -> (accepted: usize)
    ensures
        final(queue)@ == enqueued_all(old(queue)@, unit_ticks(actions@)),
        accepted == accepted_count(old(queue)@, total_duration(actions@)),
        total_duration(actions@) <= free_slots(old(queue)@) ==> accepted == total_duration(
            actions@,
        ),
        final(queue)@.len() == old(queue)@.len() + accepted,
{
    let ghost start = queue@;
    let mut accepted: usize = 0;
    let mut i: usize = 0;
    proof {
        assert(actions@.take(0) =~= Seq::<Action>::empty());
        assert(enqueued_all(start, unit_ticks(actions@.take(0))) =~= start);
    }
    while i < actions.len()
        invariant
            i <= actions.len(),
            queue@ == enqueued_all(start, unit_ticks(actions@.take(i as int))),
            accepted == accepted_count(start, unit_ticks(actions@.take(i as int)).len()),
        decreases actions.len() - i,
    {
        let action = actions[i];
        let ghost before = unit_ticks(actions@.take(i as int));
        let mut given: u8 = 0;
        proof {
            assert(before + Seq::new(0, |k: int| action.state) =~= before);
        }
        while given < action.duration
            invariant
                given <= action.duration,
                queue@ == enqueued_all(start, before + Seq::new(given as nat, |k: int| action.state)),
                accepted == accepted_count(start, before.len() + given as nat),
            decreases action.duration - given,
        {
            let ghost offered = before + Seq::new(given as nat, |k: int| action.state);
            proof {
                lemma_enqueued_all_push(start, offered, action.state);
                assert(offered.push(action.state) =~= before + Seq::new(
                    (given + 1) as nat,
                    |k: int| action.state,
                ));
            }
            if queue.enqueue(action.state).is_ok() {
                accepted = accepted + 1;
            }
            given = given + 1;
        }
        proof {
            let next = actions@.take(i + 1);
            assert(next.drop_last() =~= actions@.take(i as int));
            assert(next.last() == action);
            assert(unit_ticks(next) == before + held(action));
        }
        i = i + 1;
    }
    proof {
        assert(actions@.take(actions.len() as int) =~= actions@);
        lemma_unit_ticks_len(actions@);
    }
    accepted
}

/// Encodes `text` as Morse code and stores the result as unit ticks.
/// Returns the number of ticks stored.
pub fn enqueue_text(queue: &mut SymbolQueue, text: &str) -> (accepted: usize)
    ensures
        final(queue)@ == enqueued_all(old(queue)@, unit_ticks(morse_actions(text@))),
        accepted == accepted_count(old(queue)@, total_duration(morse_actions(text@))),
        total_duration(morse_actions(text@)) <= free_slots(old(queue)@) ==> accepted
            == total_duration(morse_actions(text@)),
        final(queue)@.len() == old(queue)@.len() + accepted,
{
    let actions = morse_encode(text);
    enqueue_actions(queue, actions.as_slice())
}

} // verus!
