use bad_usb::transfer::{outcome_continues, outcome_forwards, poll_continues, poll_ends_loop,
    run_transfer_script, CancelPoll, StopCause, StopPolicy, TransferOutcome};

#[test]
fn loop_continues_past_timeout_and_stops_on_no_device() {
    let outcomes = vec![TransferOutcome::Timeout, TransferOutcome::Success,
        TransferOutcome::NoDevice];
    let polls: Vec<CancelPoll> = Vec::new();
    let run = run_transfer_script(&outcomes, &polls);
    assert_eq!(run.forwarded, 1);
    assert_eq!(run.reads, 3);
    assert_eq!(run.cause, StopCause::DeviceGone);
}

#[test]
fn stop_signal_ends_loop_within_one_read() {
    let outcomes = vec![TransferOutcome::Success; 10];
    let polls = vec![CancelPoll::Empty, CancelPoll::Stop, CancelPoll::Empty];
    let run = run_transfer_script(&outcomes, &polls);
    assert_eq!(run.reads, 2);
    assert_eq!(run.forwarded, 2);
    assert_eq!(run.cause, StopCause::Cancelled);
}

#[test]
fn disconnected_channel_ends_loop() {
    let outcomes = vec![TransferOutcome::Timeout, TransferOutcome::Timeout];
    let polls = vec![CancelPoll::Disconnected];
    let run = run_transfer_script(&outcomes, &polls);
    assert_eq!(run.reads, 1);
    assert_eq!(run.forwarded, 0);
    assert_eq!(run.cause, StopCause::Cancelled);
}

#[test]
fn any_non_empty_signal_ends_loop() {
    let outcomes = vec![TransferOutcome::Success, TransferOutcome::Success];
    let polls = vec![CancelPoll::Signal];
    let run = run_transfer_script(&outcomes, &polls);
    assert_eq!(run.reads, 1);
    assert_eq!(run.cause, StopCause::Cancelled);
}

#[test]
fn other_errors_are_retried() {
    let outcomes = vec![TransferOutcome::Other, TransferOutcome::Other,
        TransferOutcome::Success, TransferOutcome::NoDevice];
    let polls: Vec<CancelPoll> = Vec::new();
    let run = run_transfer_script(&outcomes, &polls);
    assert_eq!(run.reads, 4);
    assert_eq!(run.forwarded, 1);
    assert_eq!(run.cause, StopCause::DeviceGone);
}

#[test]
fn exhausted_script_ends_loop() {
    let outcomes = vec![TransferOutcome::Timeout, TransferOutcome::Success];
    let polls: Vec<CancelPoll> = Vec::new();
    let run = run_transfer_script(&outcomes, &polls);
    assert_eq!(run.reads, 2);
    assert_eq!(run.forwarded, 1);
    assert_eq!(run.cause, StopCause::ScriptExhausted);
}

#[test]
fn step_rules_match_taxonomy() {
    assert!(outcome_continues(&TransferOutcome::Success));
    assert!(outcome_continues(&TransferOutcome::Timeout));
    assert!(outcome_continues(&TransferOutcome::Other));
    assert!(!outcome_continues(&TransferOutcome::NoDevice));

    assert!(outcome_forwards(&TransferOutcome::Success));
    assert!(!outcome_forwards(&TransferOutcome::Timeout));
    assert!(!outcome_forwards(&TransferOutcome::NoDevice));
    assert!(!outcome_forwards(&TransferOutcome::Other));

    assert!(poll_continues(&CancelPoll::Empty));
    assert!(!poll_continues(&CancelPoll::Stop));
    assert!(!poll_continues(&CancelPoll::Disconnected));
    assert!(!poll_continues(&CancelPoll::Signal));
}

#[test]
fn stop_policy_configures_cancellation() {
    assert!(poll_ends_loop(&StopPolicy::OnSignal, &CancelPoll::Stop));
    assert!(poll_ends_loop(&StopPolicy::OnSignal, &CancelPoll::Disconnected));
    assert!(!poll_ends_loop(&StopPolicy::OnSignal, &CancelPoll::Empty));
    assert!(!poll_ends_loop(&StopPolicy::OnDeviceGoneOnly, &CancelPoll::Stop));
    assert!(!poll_ends_loop(&StopPolicy::OnDeviceGoneOnly, &CancelPoll::Signal));
}
