use astarte_client::publisher::{
    send_verdict, tick_deadline, PubAction, Publisher, SendVerdict,
};
use astarte_client::receiver::{receiver_step, EventPayload, RxStep};
use astarte_client::shutdown::{
    classify_join, Coordinator, JoinOutcome, JoinReaction, Phase, Trigger,
};
use astarte_client::text::{u64_to_dec, uptime_payload};

#[test]
fn publisher_with_limit_sends_exactly_limit() {
    let mut p = Publisher::new(Some(3), 1000);
    let mut sends: u64 = 0;
    loop {
        match p.next_action() {
            PubAction::SendNext { tick_index } => {
                assert_eq!(tick_index, sends);
                p.record_send();
                sends += 1;
                assert!(sends <= 3, "publisher overshot its limit");
            }
            PubAction::Finished => break,
        }
    }
    assert_eq!(sends, 3);
    // Zero sends after reaching the limit: the next action stays Finished.
    assert_eq!(p.next_action(), PubAction::Finished);
    assert_eq!(p.next_action(), PubAction::Finished);
}

#[test]
fn publisher_with_limit_one() {
    let mut p = Publisher::new(Some(1), 10);
    assert_eq!(p.next_action(), PubAction::SendNext { tick_index: 0 });
    p.record_send();
    assert_eq!(p.next_action(), PubAction::Finished);
}

#[test]
fn publisher_without_limit_keeps_sending() {
    let mut p = Publisher::new(None, 10);
    for i in 0..100u64 {
        assert_eq!(p.next_action(), PubAction::SendNext { tick_index: i });
        p.record_send();
    }
    assert!(matches!(p.next_action(), PubAction::SendNext { .. }));
}

#[test]
fn ticks_are_anchored_and_do_not_drift() {
    let start: u64 = 12345;
    let period: u64 = 3000;
    let mut prev = tick_deadline(start, 0, period).unwrap();
    assert_eq!(prev, start);
    for n in 1..=50u64 {
        let next = tick_deadline(start, n, period).unwrap();
        // Consecutive deadlines differ by exactly one period...
        assert_eq!(next - prev, period);
        // ...and the Nth deadline is anchored to the start, not to the
        // previous tick, so drift cannot compound.
        assert_eq!(next, start + n * period);
        prev = next;
    }
}

#[test]
fn tick_deadline_reports_clock_overflow() {
    assert_eq!(tick_deadline(u64::MAX, 1, 1), None);
    assert_eq!(tick_deadline(0, u64::MAX, 2), None);
    assert_eq!(tick_deadline(u64::MAX, 0, 5), Some(u64::MAX));
}

#[test]
fn send_failure_is_fatal_to_the_publisher() {
    let ok: Result<(), String> = Ok(());
    let err: Result<(), String> = Err("transport down".to_string());
    assert_eq!(send_verdict(&ok), SendVerdict::Proceed);
    assert_eq!(send_verdict(&err), SendVerdict::FatalFailure);
}

#[test]
fn uptime_payload_matches_format() {
    assert_eq!(
        uptime_payload("node-1", 0),
        "Uptime for node node-1: 0".to_string()
    );
    assert_eq!(
        uptime_payload("f2c5...", 3661),
        format!("Uptime for node {}: {}", "f2c5...", 3661u64)
    );
}

#[test]
fn decimal_rendering_is_exact() {
    assert_eq!(u64_to_dec(0), "0");
    assert_eq!(u64_to_dec(7), "7");
    assert_eq!(u64_to_dec(10), "10");
    assert_eq!(u64_to_dec(3000), "3000");
    assert_eq!(u64_to_dec(u64::MAX), "18446744073709551615");
}

#[test]
fn receiver_survives_errors_and_still_delivers() {
    // Three transport errors in a row, then one success: every error is
    // logged and passed over, the success is still delivered, and only
    // channel closure stops the receiver.
    let items: Vec<Option<Result<EventPayload, String>>> = vec![
        Some(Err("recv failed".to_string())),
        Some(Err("recv failed".to_string())),
        Some(Err("recv failed".to_string())),
        Some(Ok(EventPayload::IndividualBoolean(true))),
        None,
    ];
    let steps: Vec<RxStep> = items.iter().map(receiver_step).collect();
    assert_eq!(steps[0], RxStep::LogErrorAndContinue);
    assert_eq!(steps[1], RxStep::LogErrorAndContinue);
    assert_eq!(steps[2], RxStep::LogErrorAndContinue);
    assert_eq!(steps[3], RxStep::LogBoolean(true));
    assert_eq!(steps[4], RxStep::Stop);
}

#[test]
fn receiver_ignores_other_event_shapes() {
    let item: Option<Result<EventPayload, String>> = Some(Ok(EventPayload::Other));
    assert_eq!(receiver_step(&item), RxStep::IgnoreEvent);
    let item: Option<Result<EventPayload, String>> =
        Some(Ok(EventPayload::IndividualBoolean(false)));
    assert_eq!(receiver_step(&item), RxStep::LogBoolean(false));
}

#[test]
fn interrupt_cancels_both_tasks_and_disconnects_once() {
    let mut c: Coordinator<String> = Coordinator::new();
    assert_eq!(c.phase, Phase::Running);
    let plan = c.on_trigger(Trigger::Interrupt);
    assert!(plan.cancel_publisher);
    assert!(plan.cancel_receiver);
    assert!(plan.join_cancelled_tasks);
    assert_eq!(c.phase, Phase::ShuttingDownViaInterrupt);
    let issued = c.disconnect_step();
    assert!(issued);
    assert_eq!(c.disconnect_calls, 1);
    assert_eq!(c.phase, Phase::Disconnected);
    assert_eq!(c.outcome(), Ok(()));
}

#[test]
fn run_failure_becomes_the_process_outcome() {
    let mut c: Coordinator<String> = Coordinator::new();
    let plan = c.on_trigger(Trigger::RunEnded(Err("connection reset".to_string())));
    // The run-end path abandons the tasks; it never cancels them.
    assert!(!plan.cancel_publisher);
    assert!(!plan.cancel_receiver);
    assert!(!plan.join_cancelled_tasks);
    let issued = c.disconnect_step();
    assert!(issued);
    assert_eq!(c.disconnect_calls, 1);
    assert_eq!(c.outcome(), Err("connection reset".to_string()));
}

#[test]
fn run_clean_end_is_a_clean_outcome() {
    let mut c: Coordinator<String> = Coordinator::new();
    c.on_trigger(Trigger::RunEnded(Ok(())));
    c.disconnect_step();
    assert_eq!(c.outcome(), Ok(()));
}

#[test]
fn second_disconnect_is_a_no_op() {
    let mut c: Coordinator<String> = Coordinator::new();
    c.on_trigger(Trigger::Interrupt);
    let first = c.disconnect_step();
    let second = c.disconnect_step();
    assert!(first);
    assert!(!second);
    assert_eq!(c.disconnect_calls, 1);
    assert_eq!(c.phase, Phase::Disconnected);
}

#[test]
fn join_failures_never_escalate() {
    assert_eq!(classify_join(&JoinOutcome::Completed), JoinReaction::Quiet);
    assert_eq!(classify_join(&JoinOutcome::Cancelled), JoinReaction::Quiet);
    assert_eq!(classify_join(&JoinOutcome::Failed), JoinReaction::WarnNonFatal);
}
