//! The whole pipeline once shutdown has been requested: each stage is
//! asked in turn whether it agrees to stop, and runs another round if it
//! does not.

use crate::actor::worker::classify;
use crate::actor::worker::FizzBuzzMessage;
use crate::model::join;
use crate::model::join::JoinWorld;
use crate::model::lane::Lane;
use crate::model::sink;
use crate::model::sink::Handled;
use crate::model::sink::SinkWorld;
use crate::protocol::SendOutcome;
use vstd::prelude::*;

verus! {

/// The three channels of the pipeline, which stages have stopped, and
/// what the sink has handled.
pub struct Pipeline {
    pub ticks: Lane<u64>,
    pub values: Lane<u64>,
    pub messages: Lane<FizzBuzzMessage>,
    /// How many messages the channel to the sink holds at most.
    pub capacity: nat,
    pub handled: Seq<Handled>,
    pub generator_stopped: bool,
    pub heartbeat_stopped: bool,
    pub worker_stopped: bool,
    pub logger_stopped: bool,
}

/// A stage has closed its output exactly when it has stopped, and it
/// stops only with its inputs closed and empty.
pub open spec fn coherent(p: Pipeline) -> bool {
    &&& p.generator_stopped == p.values.closed
    &&& p.heartbeat_stopped == p.ticks.closed
    &&& p.worker_stopped == p.messages.closed
    &&& p.worker_stopped ==> p.ticks.drained() && p.values.drained()
    &&& p.logger_stopped ==> p.messages.drained()
}

/// Every stage has stopped and no channel holds a message: no producer is
/// left that could wait for room.
pub open spec fn quiescent(p: Pipeline) -> bool {
    &&& p.generator_stopped
    &&& p.heartbeat_stopped
    &&& p.worker_stopped
    &&& p.logger_stopped
    &&& p.ticks.drained()
    &&& p.values.drained()
    &&& p.messages.drained()
}

/// The counter source agrees at once and closes its output.
pub open spec fn generator_turn(p: Pipeline) -> Pipeline {
    Pipeline { values: Lane { closed: true, ..p.values }, generator_stopped: true, ..p }
}

/// The timer source agrees at once and closes its output.
pub open spec fn heartbeat_turn(p: Pipeline) -> Pipeline {
    Pipeline { ticks: Lane { closed: true, ..p.ticks }, heartbeat_stopped: true, ..p }
}

/// What the channel to the sink answers to an offer.
pub open spec fn answer(p: Pipeline) -> SendOutcome<FizzBuzzMessage> {
    if p.messages.unread.len() < p.capacity {
        SendOutcome::Success
    } else {
        SendOutcome::Blocked(classify(p.values.unread[0]))
    }
}

/// The join stage agrees once both inputs are closed and empty, closing
/// its output; until then it runs a round whose wait was cut short.
pub open spec fn worker_turn(p: Pipeline) -> Pipeline {
    if p.worker_stopped {
        p
    } else if p.ticks.drained() && p.values.drained() {
        Pipeline { messages: Lane { closed: true, ..p.messages }, worker_stopped: true, ..p }
    } else {
        let next = join::after_round(
            JoinWorld { ticks: p.ticks, values: p.values, sent: p.messages.unread },
            false,
            answer(p),
        );
        Pipeline {
            ticks: next.ticks,
            values: next.values,
            messages: Lane { unread: next.sent, ..p.messages },
            ..p
        }
    }
}

/// The sink agrees once its input is closed and empty; until then it
/// runs a round.
pub open spec fn logger_turn(p: Pipeline) -> Pipeline {
    if p.logger_stopped {
        p
    } else if p.messages.drained() {
        Pipeline { logger_stopped: true, ..p }
    } else {
        let next = sink::after_round(SinkWorld { inbox: p.messages, handled: p.handled });
        Pipeline { messages: next.inbox, handled: next.handled, ..p }
    }
}

/// One turn for each stage, sources first.
pub open spec fn sweep(p: Pipeline) -> Pipeline {
    logger_turn(worker_turn(heartbeat_turn(generator_turn(p))))
}

/// The pipeline after `n` sweeps.
pub open spec fn sweeps(p: Pipeline, n: nat) -> Pipeline
    decreases n,
{
    if n == 0 {
        p
    } else {
        sweeps(sweep(p), (n - 1) as nat)
    }
}

/// The work left: every message in flight, the inputs of the join stage
/// counted twice since each of them may yet become a message to the sink.
pub open spec fn backlog(p: Pipeline) -> nat {
    2 * p.ticks.unread.len() + 2 * p.values.unread.len() + p.messages.unread.len()
}

/// One sweep keeps the pipeline coherent, stops both sources, and either
/// shrinks the backlog or, where none is left, stops every stage.
pub proof fn law_sweep_makes_progress(p: Pipeline)
    requires
        coherent(p),
        p.capacity >= 1,
    ensures
        coherent(sweep(p)),
        sweep(p).capacity == p.capacity,
        backlog(p) > 0 ==> backlog(sweep(p)) < backlog(p),
        backlog(p) == 0 ==> quiescent(sweep(p)),
{
    let sourced = heartbeat_turn(generator_turn(p));
    let worked = worker_turn(sourced);
    assert(backlog(sourced) == backlog(p));
    if !sourced.worker_stopped && !(sourced.ticks.drained() && sourced.values.drained()) {
        let world = JoinWorld {
            ticks: sourced.ticks,
            values: sourced.values,
            sent: sourced.messages.unread,
        };
        assert(!join::quarantine_due(world, false));
    }
    assert(backlog(worked) <= backlog(p));
    assert(coherent(worked));
}

/// A pipeline at rest stays at rest.
pub proof fn law_quiescent_is_final(p: Pipeline, n: nat)
    requires
        quiescent(p),
    ensures
        sweeps(p, n) == p,
    decreases n,
{
    if n > 0 {
        assert(generator_turn(p) == p);
        assert(heartbeat_turn(p) == p);
        assert(sweep(p) == p);
        law_quiescent_is_final(p, (n - 1) as nat);
    }
}

/// Once shutdown is requested, every stage has stopped after a number of
/// sweeps bounded by the backlog: with `backlog + 1` sweeps or more all
/// four have agreed, every channel is closed and empty, and so no
/// producer is left waiting for room. The channel to the sink must hold
/// at least one message.
pub proof fn law_shutdown_propagates(p: Pipeline, n: nat)
    requires
        coherent(p),
        p.capacity >= 1,
        n >= backlog(p) + 1,
    ensures
        quiescent(sweeps(p, n)),
    decreases n,
{
    law_sweep_makes_progress(p);
    if backlog(p) == 0 {
        law_quiescent_is_final(sweep(p), (n - 1) as nat);
    } else {
        law_shutdown_propagates(sweep(p), (n - 1) as nat);
    }
}

} // verus!
