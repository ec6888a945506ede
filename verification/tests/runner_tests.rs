use mesh_actor::runner::{Branches, RunnerAction, RunnerInput, RunnerPhase, RunnerState};

/// Counts what a run of the loop hands to the actor, as a test actor would
/// count its hooks.
#[derive(Debug, Default, PartialEq)]
struct Counts {
    pre: usize,
    event: usize,
    msg: usize,
    post: usize,
}

fn drive(inputs: &[RunnerInput]) -> (RunnerState, Counts, Vec<RunnerAction>) {
    let mut state = RunnerState::new();
    let mut counts = Counts { pre: 1, ..Counts::default() };
    let mut actions = Vec::new();
    for input in inputs {
        let action = state.step(*input);
        match action {
            RunnerAction::HandleMessage => counts.msg += 1,
            RunnerAction::HandleEvent => counts.event += 1,
            RunnerAction::RunPostStop => counts.post += 1,
            _ => {}
        }
        actions.push(action);
    }
    (state, counts, actions)
}

#[test]
fn runner_handles_messages_and_events_then_stops() {
    // two events and two messages
    let inputs = [
        RunnerInput::Started { ok: true },
        RunnerInput::SystemEvent { received: true },
        RunnerInput::MailboxMessage { received: true },
        RunnerInput::MailboxMessage { received: true },
        RunnerInput::Cancelled { pending_events: 1 },
        RunnerInput::SystemEvent { received: true },
        RunnerInput::MailboxMessage { received: false },
        RunnerInput::Drained,
        RunnerInput::PostStopDone,
    ];
    let (state, counts, actions) = drive(&inputs);
    assert_eq!(counts, Counts { pre: 1, event: 2, msg: 2, post: 1 });
    assert_eq!(state.phase(), RunnerPhase::Stopped);
    assert_eq!(*actions.last().unwrap(), RunnerAction::Finish);
    assert_eq!(actions[4], RunnerAction::CloseQueues);
}

#[test]
fn runner_failed_start_skips_post_stop() {
    let mut state = RunnerState::new();
    assert_eq!(state.phase(), RunnerPhase::Starting);
    assert_eq!(state.step(RunnerInput::Started { ok: false }), RunnerAction::Finish);
    assert_eq!(state.phase(), RunnerPhase::Stopped);
    // nothing happens afterwards
    assert_eq!(state.step(RunnerInput::MailboxMessage { received: true }), RunnerAction::Continue);
    assert_eq!(state.step(RunnerInput::PostStopDone), RunnerAction::Continue);
}

#[test]
fn runner_branches_follow_phase() {
    let mut state = RunnerState::new();
    assert_eq!(
        state.branches(),
        Branches { cancel: false, timer: false, events: false, mailbox: false, drained: false }
    );
    state.step(RunnerInput::Started { ok: true });
    assert_eq!(
        state.branches(),
        Branches { cancel: true, timer: true, events: true, mailbox: true, drained: false }
    );
    // the event bus closes
    assert_eq!(state.step(RunnerInput::SystemEvent { received: false }), RunnerAction::Continue);
    assert_eq!(
        state.branches(),
        Branches { cancel: true, timer: true, events: false, mailbox: true, drained: false }
    );
    // a closed subscription takes no backlog into the drain
    assert_eq!(state.step(RunnerInput::Cancelled { pending_events: 7 }), RunnerAction::CloseQueues);
    assert_eq!(
        state.branches(),
        Branches { cancel: false, timer: true, events: false, mailbox: true, drained: true }
    );
}

#[test]
fn runner_drain_takes_at_most_pending_events() {
    let inputs = [
        RunnerInput::Started { ok: true },
        RunnerInput::Cancelled { pending_events: 2 },
        RunnerInput::SystemEvent { received: true },
        RunnerInput::SystemEvent { received: true },
        RunnerInput::SystemEvent { received: true },
        RunnerInput::TimerMessage,
    ];
    let (state, counts, actions) = drive(&inputs);
    assert_eq!(counts.event, 2);
    assert_eq!(counts.msg, 1);
    assert_eq!(actions[4], RunnerAction::Continue);
    assert_eq!(state.phase(), RunnerPhase::Draining);
    assert!(!state.branches().events);
}

#[test]
fn runner_drain_waits_for_closed_mailbox() {
    let mut state = RunnerState::new();
    state.step(RunnerInput::Started { ok: true });
    state.step(RunnerInput::Cancelled { pending_events: 0 });
    // the mailbox has not reported closed yet: no post_stop
    assert_eq!(state.step(RunnerInput::Drained), RunnerAction::Continue);
    assert_eq!(state.step(RunnerInput::MailboxMessage { received: true }), RunnerAction::HandleMessage);
    assert_eq!(state.step(RunnerInput::MailboxMessage { received: false }), RunnerAction::Continue);
    assert_eq!(state.step(RunnerInput::Drained), RunnerAction::RunPostStop);
    assert_eq!(state.phase(), RunnerPhase::Stopping);
    // post_stop runs once
    assert_eq!(state.step(RunnerInput::Drained), RunnerAction::Continue);
    assert_eq!(state.step(RunnerInput::PostStopDone), RunnerAction::Finish);
    assert_eq!(state.step(RunnerInput::PostStopDone), RunnerAction::Continue);
}

#[test]
fn runner_ignores_closed_mailbox_while_running() {
    let mut state = RunnerState::new();
    state.step(RunnerInput::Started { ok: true });
    assert_eq!(state.step(RunnerInput::MailboxMessage { received: false }), RunnerAction::Continue);
    assert!(!state.branches().mailbox);
    // a closed mailbox is not waited on again
    assert_eq!(state.step(RunnerInput::MailboxMessage { received: true }), RunnerAction::Continue);
    assert_eq!(state.step(RunnerInput::TimerMessage), RunnerAction::HandleMessage);
    assert_eq!(state.phase(), RunnerPhase::Running);
}
