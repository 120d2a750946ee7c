use robust_pipeline::actor::generator::Emission;
use robust_pipeline::actor::generator::GeneratorState;
use robust_pipeline::actor::generator::FAULT_ATTEMPT;
use robust_pipeline::actor::heartbeat::Beat;
use robust_pipeline::actor::heartbeat::HeartbeatState;
use robust_pipeline::actor::logger::LoggerState;
use robust_pipeline::actor::worker::plan;
use robust_pipeline::actor::worker::FizzBuzzMessage;
use robust_pipeline::actor::worker::Plan;
use robust_pipeline::actor::worker::Round;
use robust_pipeline::actor::worker::WorkerState;
use robust_pipeline::protocol::SendOutcome;
use robust_pipeline::protocol::SHOWSTOPPER_THRESHOLD;

#[test]
fn classification_of_named_counters() {
    assert_eq!(FizzBuzzMessage::new(15), FizzBuzzMessage::FizzBuzz);
    assert_eq!(FizzBuzzMessage::new(3), FizzBuzzMessage::Fizz);
    assert_eq!(FizzBuzzMessage::new(5), FizzBuzzMessage::Buzz);
    assert_eq!(FizzBuzzMessage::new(4), FizzBuzzMessage::Value(4));
}

#[test]
fn classification_at_the_edges() {
    assert_eq!(FizzBuzzMessage::new(0), FizzBuzzMessage::FizzBuzz);
    assert_eq!(FizzBuzzMessage::new(1), FizzBuzzMessage::Value(1));
    assert_eq!(FizzBuzzMessage::new(30), FizzBuzzMessage::FizzBuzz);
    assert_eq!(FizzBuzzMessage::new(9), FizzBuzzMessage::Fizz);
    assert_eq!(FizzBuzzMessage::new(10), FizzBuzzMessage::Buzz);
    // 2^64 - 1 = 3 * 5 * 17 * 257 * 641 * 65537 * 6700417
    assert_eq!(FizzBuzzMessage::new(u64::MAX), FizzBuzzMessage::FizzBuzz);
    assert_eq!(FizzBuzzMessage::new(u64::MAX - 1), FizzBuzzMessage::Value(u64::MAX - 1));
    assert_eq!(FizzBuzzMessage::new(u64::MAX - 3), FizzBuzzMessage::Fizz);
    assert_eq!(FizzBuzzMessage::new(u64::MAX - 5), FizzBuzzMessage::Buzz);
}

#[test]
fn classification_gives_the_same_answer_every_time() {
    for n in 0..200u64 {
        let first = FizzBuzzMessage::new(n);
        assert_eq!(FizzBuzzMessage::new(n), first);
        let by_rule = if n % 15 == 0 {
            FizzBuzzMessage::FizzBuzz
        } else if n % 3 == 0 {
            FizzBuzzMessage::Fizz
        } else if n % 5 == 0 {
            FizzBuzzMessage::Buzz
        } else {
            FizzBuzzMessage::Value(n)
        };
        assert_eq!(first, by_rule);
    }
}

#[test]
fn threshold_is_seven() {
    assert_eq!(SHOWSTOPPER_THRESHOLD, 7);
}

#[test]
fn send_outcome_is_sent_only_on_success() {
    assert!(SendOutcome::<u64>::Success.is_sent());
    assert!(!SendOutcome::Blocked(1u64).is_sent());
    assert!(!SendOutcome::Timeout(1u64).is_sent());
    assert!(!SendOutcome::Closed(1u64).is_sent());
}

#[test]
fn generator_starts_at_zero() {
    assert_eq!(GeneratorState::new(), GeneratorState { value: 0, messages_sent: 0, panic_counter: 0 });
    assert!(GeneratorState::new().has_room_to_send());
    assert!(GeneratorState::new().has_room_to_attempt());
}

#[test]
fn generator_moves_on_only_after_confirmed_send() {
    let mut state = GeneratorState { value: 5, messages_sent: 2, panic_counter: 9 };
    assert_eq!(state.settle(SendOutcome::Blocked(5)), Emission::Refused(5));
    assert_eq!(state.settle(SendOutcome::Timeout(5)), Emission::Refused(5));
    assert_eq!(state.settle(SendOutcome::Closed(5)), Emission::Refused(5));
    assert_eq!(state, GeneratorState { value: 5, messages_sent: 2, panic_counter: 9 });
    assert_eq!(state.settle(SendOutcome::Success), Emission::Sent(5));
    assert_eq!(state, GeneratorState { value: 6, messages_sent: 3, panic_counter: 9 });
    assert_eq!(state.settle(SendOutcome::Success), Emission::Sent(6));
    assert_eq!(state, GeneratorState { value: 7, messages_sent: 4, panic_counter: 9 });
}

#[test]
fn generator_fault_strikes_at_one_attempt_only() {
    assert_eq!(FAULT_ATTEMPT, 13);
    let mut state = GeneratorState::new();
    let mut faults = Vec::new();
    for attempt in 1..=30u64 {
        if state.note_attempt() {
            faults.push(attempt);
        }
        assert_eq!(state.panic_counter, attempt);
    }
    assert_eq!(faults, vec![13]);
    assert_eq!(state.value, 0);
    assert_eq!(state.messages_sent, 0);
}

#[test]
fn generator_room_ends_at_the_largest_counter() {
    let state = GeneratorState { value: u64::MAX, messages_sent: 0, panic_counter: 0 };
    assert!(!state.has_room_to_send());
    let state = GeneratorState { value: 0, messages_sent: u64::MAX, panic_counter: 0 };
    assert!(!state.has_room_to_send());
    let state = GeneratorState { value: 0, messages_sent: 0, panic_counter: u64::MAX };
    assert!(state.has_room_to_send());
    assert!(!state.has_room_to_attempt());
    let mut state = GeneratorState { value: u64::MAX - 1, messages_sent: 0, panic_counter: 0 };
    assert_eq!(state.settle(SendOutcome::Success), Emission::Sent(u64::MAX - 1));
    assert_eq!(state.value, u64::MAX);
}

#[test]
fn heartbeat_counts_each_start() {
    let mut state = HeartbeatState::new();
    assert_eq!(state, HeartbeatState { count: 0, beats_sent: 0, restart_count: 0 });
    state.begin();
    assert_eq!(state.restart_count, 1);
    state.begin();
    assert_eq!(state, HeartbeatState { count: 0, beats_sent: 0, restart_count: 2 });
}

#[test]
fn heartbeat_marks_the_last_beat() {
    let mut state = HeartbeatState { count: 1, beats_sent: 1, restart_count: 1 };
    assert_eq!(state.settle(SendOutcome::Blocked(1), 2), Beat::Refused(1));
    assert_eq!(state, HeartbeatState { count: 1, beats_sent: 1, restart_count: 1 });
    assert_eq!(state.settle(SendOutcome::Success, 2), Beat::Sent { value: 1, last: true });
    assert_eq!(state, HeartbeatState { count: 2, beats_sent: 2, restart_count: 1 });
    assert_eq!(state.settle(SendOutcome::Success, 2), Beat::Sent { value: 2, last: false });
    assert_eq!(state.settle(SendOutcome::Timeout(3), 4), Beat::Refused(3));
    assert_eq!(state.settle(SendOutcome::Closed(3), 4), Beat::Refused(3));
    assert_eq!(state.count, 3);
}

#[test]
fn heartbeat_fault_strikes_on_first_run_only() {
    assert!(HeartbeatState { count: 7, beats_sent: 7, restart_count: 1 }.fault_due());
    assert!(!HeartbeatState { count: 7, beats_sent: 7, restart_count: 2 }.fault_due());
    assert!(!HeartbeatState { count: 6, beats_sent: 6, restart_count: 1 }.fault_due());
    assert!(!HeartbeatState { count: 8, beats_sent: 8, restart_count: 1 }.fault_due());
    assert!(!HeartbeatState { count: 7, beats_sent: 7, restart_count: 0 }.fault_due());
}

#[test]
fn worker_plans_from_what_the_inputs_show() {
    assert_eq!(plan(true, None, None), Plan::Wait);
    assert_eq!(plan(true, None, Some(3)), Plan::Wait);
    assert_eq!(plan(true, Some(0), None), Plan::Skip { tick: true });
    assert_eq!(plan(false, None, None), Plan::Skip { tick: false });
    assert_eq!(plan(false, Some(0), None), Plan::Skip { tick: true });
    assert_eq!(
        plan(true, Some(9), Some(15)),
        Plan::Forward { value: 15, message: FizzBuzzMessage::FizzBuzz, tick: true }
    );
    assert_eq!(
        plan(false, None, Some(7)),
        Plan::Forward { value: 7, message: FizzBuzzMessage::Value(7), tick: false }
    );
    assert_eq!(
        plan(false, Some(1), Some(10)),
        Plan::Forward { value: 10, message: FizzBuzzMessage::Buzz, tick: true }
    );
}

#[test]
fn worker_counts_by_how_the_round_ended() {
    let start = WorkerState { heartbeats_processed: 4, values_processed: 3, messages_sent: 2, restart_count: 1 };
    let forward = Plan::Forward { value: 6, message: FizzBuzzMessage::Fizz, tick: true };

    let mut state = start;
    assert_eq!(state.settle(Plan::Wait, SendOutcome::Success), Round::Waited);
    assert_eq!(state, start);

    assert_eq!(
        state.settle(forward, SendOutcome::Blocked(FizzBuzzMessage::Fizz)),
        Round::Blocked { value: 6, message: FizzBuzzMessage::Fizz }
    );
    assert_eq!(state, start);
    assert_eq!(
        state.settle(forward, SendOutcome::Closed(FizzBuzzMessage::Fizz)),
        Round::Blocked { value: 6, message: FizzBuzzMessage::Fizz }
    );
    assert_eq!(state, start);

    assert_eq!(
        state.settle(forward, SendOutcome::Success),
        Round::Forwarded { value: 6, message: FizzBuzzMessage::Fizz, tick: true }
    );
    assert_eq!(
        state,
        WorkerState { heartbeats_processed: 5, values_processed: 4, messages_sent: 3, restart_count: 1 }
    );

    assert_eq!(
        state.settle(Plan::Skip { tick: true }, SendOutcome::Timeout(FizzBuzzMessage::Buzz)),
        Round::Skipped { tick: true }
    );
    assert_eq!(
        state,
        WorkerState { heartbeats_processed: 6, values_processed: 4, messages_sent: 3, restart_count: 1 }
    );

    state.note_drop();
    assert_eq!(
        state,
        WorkerState { heartbeats_processed: 6, values_processed: 5, messages_sent: 3, restart_count: 1 }
    );
}

#[test]
fn worker_fault_strikes_on_first_run_only() {
    let mut state = WorkerState::new();
    assert_eq!(
        state,
        WorkerState { heartbeats_processed: 0, values_processed: 0, messages_sent: 0, restart_count: 0 }
    );
    state.begin();
    assert!(!state.fault_due());
    state.heartbeats_processed = 5;
    assert!(state.fault_due());
    state.begin();
    assert!(!state.fault_due());
    assert!(state.has_room_to_count());
    assert!(state.has_room_to_start());
    state.messages_sent = u64::MAX;
    assert!(!state.has_room_to_count());
    state.restart_count = u64::MAX;
    assert!(!state.has_room_to_start());
}

#[test]
fn logger_tallies_by_kind() {
    let mut state = LoggerState::new();
    assert_eq!(
        state,
        LoggerState {
            messages_logged: 0,
            fizz_count: 0,
            buzz_count: 0,
            fizzbuzz_count: 0,
            value_count: 0,
            restart_count: 0,
            messages_dropped: 0
        }
    );
    assert_eq!(state.record(FizzBuzzMessage::Fizz), 1);
    assert_eq!(state.record(FizzBuzzMessage::Fizz), 2);
    assert_eq!(state.record(FizzBuzzMessage::Buzz), 1);
    assert_eq!(state.record(FizzBuzzMessage::FizzBuzz), 1);
    assert_eq!(state.record(FizzBuzzMessage::Value(1)), 1);
    assert_eq!(state.record(FizzBuzzMessage::Value(2)), 2);
    assert_eq!(state.record(FizzBuzzMessage::Value(2)), 3);
    assert_eq!(
        state,
        LoggerState {
            messages_logged: 0,
            fizz_count: 2,
            buzz_count: 1,
            fizzbuzz_count: 1,
            value_count: 3,
            restart_count: 0,
            messages_dropped: 0
        }
    );
}

#[test]
fn logger_counts_a_message_once_released() {
    let mut state = LoggerState::new();
    assert!(!state.commit(0));
    assert_eq!(state.messages_logged, 0);
    assert!(state.commit(1));
    assert_eq!(state.messages_logged, 1);
    state.note_drop();
    assert_eq!(state.messages_dropped, 1);
    assert_eq!(state.messages_logged, 1);
}

#[test]
fn logger_fault_strikes_on_first_run_only() {
    let mut state = LoggerState::new();
    state.begin();
    assert!(!state.fault_due());
    state.messages_logged = 3;
    assert!(state.fault_due());
    state.begin();
    assert!(!state.fault_due());
    assert!(state.has_room_to_record());
    state.value_count = u64::MAX;
    assert!(!state.has_room_to_record());
    assert!(state.has_room_to_start());
}
