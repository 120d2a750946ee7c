//! The two sources over any sequence of channel answers and restarts.

use crate::actor::generator::GeneratorState;
use crate::actor::heartbeat::HeartbeatState;
use crate::protocol::SendOutcome;
use vstd::prelude::*;

verus! {

/// One thing that happens to a source.
pub enum SourceEvent {
    /// The stage offers its current counter and the channel answers.
    Offer(SendOutcome<u64>),
    /// The stage stops in mid-round and its body is entered again with
    /// the state it had.
    Restart,
}

/// The generator's state after `event`.
pub open spec fn generator_after(state: GeneratorState, event: SourceEvent) -> GeneratorState {
    match event {
        SourceEvent::Offer(outcome) => state.after_outcome(outcome),
        SourceEvent::Restart => state,
    }
}

/// The generator's state after all of `events`, in order.
pub open spec fn generator_after_all(
    state: GeneratorState,
    events: Seq<SourceEvent>,
) -> GeneratorState
    decreases events.len(),
{
    if events.len() == 0 {
        state
    } else {
        generator_after(generator_after_all(state, events.drop_last()), events.last())
    }
}

/// The counters that the channel accepts from the generator in the
/// course of `events`, in order.
pub open spec fn generator_emitted(state: GeneratorState, events: Seq<SourceEvent>) -> Seq<u64>
    decreases events.len(),
{
    if events.len() == 0 {
        Seq::empty()
    } else {
        let earlier = generator_emitted(state, events.drop_last());
        match events.last() {
            SourceEvent::Offer(outcome) => if outcome.confirmed() {
                earlier.push(generator_after_all(state, events.drop_last()).value)
            } else {
                earlier
            },
            SourceEvent::Restart => earlier,
        }
    }
}

/// The heartbeat's state after `event`.
pub open spec fn heartbeat_after(state: HeartbeatState, event: SourceEvent) -> HeartbeatState {
    match event {
        SourceEvent::Offer(outcome) => state.after_outcome(outcome),
        SourceEvent::Restart => state.after_start(),
    }
}

/// The heartbeat's state after all of `events`, in order.
pub open spec fn heartbeat_after_all(
    state: HeartbeatState,
    events: Seq<SourceEvent>,
) -> HeartbeatState
    decreases events.len(),
{
    if events.len() == 0 {
        state
    } else {
        heartbeat_after(heartbeat_after_all(state, events.drop_last()), events.last())
    }
}

/// The beats that the channel accepts from the heartbeat in the course of
/// `events`, in order.
pub open spec fn heartbeat_emitted(state: HeartbeatState, events: Seq<SourceEvent>) -> Seq<u64>
    decreases events.len(),
{
    if events.len() == 0 {
        Seq::empty()
    } else {
        let earlier = heartbeat_emitted(state, events.drop_last());
        match events.last() {
            SourceEvent::Offer(outcome) => if outcome.confirmed() {
                earlier.push(heartbeat_after_all(state, events.drop_last()).count)
            } else {
                earlier
            },
            SourceEvent::Restart => earlier,
        }
    }
}

/// The numbers `first`, `first + 1`, ... , `count` of them.
pub open spec fn consecutive(first: u64, count: nat) -> Seq<u64> {
    Seq::new(count, |i: int| (first + i) as u64)
}

/// However refused offers and restarts interleave with confirmed ones,
/// the channel receives from the generator the counters from the state's
/// first one on, each once and in order, and the state ends just behind
/// the last counter accepted.
pub proof fn law_generator_emits_each_counter_once(state: GeneratorState, events: Seq<SourceEvent>)
    requires
        state.value + events.len() <= u64::MAX,
        state.messages_sent + events.len() <= u64::MAX,
    ensures
        generator_emitted(state, events).len() <= events.len(),
        generator_emitted(state, events) == consecutive(
            state.value,
            generator_emitted(state, events).len(),
        ),
        generator_after_all(state, events).value == state.value + generator_emitted(
            state,
            events,
        ).len(),
        generator_after_all(state, events).messages_sent == state.messages_sent
            + generator_emitted(state, events).len(),
        generator_after_all(state, events).panic_counter == state.panic_counter,
    decreases events.len(),
{
    let emitted = generator_emitted(state, events);
    if events.len() == 0 {
        assert(emitted =~= consecutive(state.value, 0));
    } else {
        law_generator_emits_each_counter_once(state, events.drop_last());
        assert(emitted =~= consecutive(state.value, emitted.len()));
    }
}

/// The same for the heartbeat, whose restarts are counted: the beats go
/// out numbered from the state's first one on, each once and in order,
/// and the restart counter grows by one per restart and by nothing else.
pub proof fn law_heartbeat_emits_each_beat_once(state: HeartbeatState, events: Seq<SourceEvent>)
    requires
        state.count + events.len() <= u64::MAX,
        state.beats_sent + events.len() <= u64::MAX,
        state.restart_count + events.len() <= u64::MAX,
    ensures
        heartbeat_emitted(state, events).len() <= events.len(),
        heartbeat_emitted(state, events) == consecutive(
            state.count,
            heartbeat_emitted(state, events).len(),
        ),
        heartbeat_after_all(state, events).count == state.count + heartbeat_emitted(
            state,
            events,
        ).len(),
        heartbeat_after_all(state, events).beats_sent == state.beats_sent + heartbeat_emitted(
            state,
            events,
        ).len(),
        state.restart_count <= heartbeat_after_all(state, events).restart_count
            <= state.restart_count + events.len(),
    decreases events.len(),
{
    let emitted = heartbeat_emitted(state, events);
    if events.len() == 0 {
        assert(emitted =~= consecutive(state.count, 0));
    } else {
        law_heartbeat_emits_each_beat_once(state, events.drop_last());
        assert(emitted =~= consecutive(state.count, emitted.len()));
    }
}

} // verus!
