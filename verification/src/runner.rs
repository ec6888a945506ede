//! The decisions of an actor's run loop, as a state machine.
//!
//! An actor first runs its `pre_start` hook. If that fails, the actor is
//! returned at once. Otherwise it serves timer messages, system events and
//! mailbox messages until its group is cancelled; then it closes its queues,
//! drains what is still in them (and at most the system events that were
//! pending at cancellation), runs its `post_stop` hook and is returned.
//!
//! The driver waits on the branches that [`RunnerState::branches`] enables,
//! reports what happened as a [`RunnerInput`], and performs the
//! [`RunnerAction`] that [`RunnerState::step`] answers.
use vstd::prelude::*;

verus! {

/// Where an actor's run loop stands.
#[derive(Debug, Clone, Copy, PartialEq, Eq, Structural)]
pub enum RunnerPhase {
    /// `pre_start` is running.
    Starting,
    /// Serving messages and events until cancellation.
    Running,
    /// Cancelled: the queues are closed and what is left in them is handled.
    Draining,
    /// `post_stop` is running.
    Stopping,
    /// Done; the actor is handed back.
    Stopped,
}

/// What the driver observed.
#[derive(Debug, Clone, Copy, PartialEq, Eq, Structural)]
pub enum RunnerInput {
    /// `pre_start` returned, successfully or not.
    Started { ok: bool },
    /// The group was cancelled; `pending_events` is the number of system
    /// events still queued for this actor at that moment.
    Cancelled { pending_events: usize },
    /// A timer message arrived.
    TimerMessage,
    /// The event subscription answered: with an event, or with an error.
    SystemEvent { received: bool },
    /// The mailbox answered: with a message, or closed with none left.
    MailboxMessage { received: bool },
    /// While draining, no branch had anything left to give.
    Drained,
    /// `post_stop` returned.
    PostStopDone,
}

/// What the driver is to do next.
#[derive(Debug, Clone, Copy, PartialEq, Eq, Structural)]
pub enum RunnerAction {
    /// Nothing; wait on the enabled branches again.
    Continue,
    /// Give the message just received to the actor's handler.
    HandleMessage,
    /// Give the system event just received to the actor.
    HandleEvent,
    /// Close the timer queue and the mailbox, then drain them.
    CloseQueues,
    /// Run the actor's `post_stop` hook.
    RunPostStop,
    /// The run is over: hand the actor back.
    Finish,
}

/// Which branches the driver waits on.
#[derive(Debug, Clone, Copy, PartialEq, Eq, Structural)]
pub struct Branches {
    /// The group's cancellation.
    pub cancel: bool,
    /// The timer queue.
    pub timer: bool,
    /// The event subscription.
    pub events: bool,
    /// The mailbox.
    pub mailbox: bool,
    /// The fall-back taken when every other branch is disabled.
    pub drained: bool,
}

/// The run loop's state as the contracts see it.
pub struct RunnerModel {
    pub phase: RunnerPhase,
    /// The mailbox may still deliver.
    pub recv_active: bool,
    /// The event subscription may still deliver.
    pub event_recv_active: bool,
    /// While draining: how many more system events may be taken.
    pub num_events: nat,
}

/// The run loop's state.
pub struct RunnerState {
    phase: RunnerPhase,
    recv_active: bool,
    event_recv_active: bool,
    num_events: usize,
}

impl View for RunnerState {
    type V = RunnerModel;

    closed spec fn view(&self) -> RunnerModel {
        RunnerModel {
            phase: self.phase,
            recv_active: self.recv_active,
            event_recv_active: self.event_recv_active,
            num_events: self.num_events as nat,
        }
    }
}

/// The state a run loop starts in: `pre_start` running, both queues live.
pub open spec fn initial_model() -> RunnerModel {
    RunnerModel { phase: RunnerPhase::Starting, recv_active: true, event_recv_active: true, num_events: 0 }
}

/// The branches to wait on in state `s`.
pub open spec fn branches_of(s: RunnerModel) -> Branches {
    match s.phase {
        RunnerPhase::Running => Branches {
            cancel: true,
            timer: true,
            events: s.event_recv_active,
            mailbox: s.recv_active,
            drained: false,
        },
        RunnerPhase::Draining => Branches {
            cancel: false,
            timer: true,
            events: s.num_events > 0,
            mailbox: s.recv_active,
            drained: true,
        },
        _ => Branches { cancel: false, timer: false, events: false, mailbox: false, drained: false },
    }
}

/// One step of the run loop: the state after `input` in state `s`, and what
/// the driver is to do. An input that the state does not wait for changes
/// nothing.
pub open spec fn next(s: RunnerModel, input: RunnerInput) -> (RunnerModel, RunnerAction) {
    match (s.phase, input) {
        (RunnerPhase::Starting, RunnerInput::Started { ok }) =>
            if ok {
                (RunnerModel { phase: RunnerPhase::Running, ..s }, RunnerAction::Continue)
            } else {
                (RunnerModel { phase: RunnerPhase::Stopped, ..s }, RunnerAction::Finish)
            },
        (RunnerPhase::Running, RunnerInput::Cancelled { pending_events }) =>
            (RunnerModel {
                phase: RunnerPhase::Draining,
                num_events: if s.event_recv_active { pending_events as nat } else { 0 },
                ..s
            }, RunnerAction::CloseQueues),
        (RunnerPhase::Running, RunnerInput::TimerMessage) => (s, RunnerAction::HandleMessage),
        (RunnerPhase::Running, RunnerInput::SystemEvent { received }) =>
            if !s.event_recv_active {
                (s, RunnerAction::Continue)
            } else if received {
                (s, RunnerAction::HandleEvent)
            } else {
                (RunnerModel { event_recv_active: false, ..s }, RunnerAction::Continue)
            },
        (RunnerPhase::Running, RunnerInput::MailboxMessage { received }) =>
            if !s.recv_active {
                (s, RunnerAction::Continue)
            } else if received {
                (s, RunnerAction::HandleMessage)
            } else {
                (RunnerModel { recv_active: false, ..s }, RunnerAction::Continue)
            },
        (RunnerPhase::Draining, RunnerInput::SystemEvent { received }) =>
            if s.num_events > 0 && received {
                (RunnerModel { num_events: (s.num_events - 1) as nat, ..s }, RunnerAction::HandleEvent)
            } else {
                (s, RunnerAction::Continue)
            },
        (RunnerPhase::Draining, RunnerInput::TimerMessage) => (s, RunnerAction::HandleMessage),
        (RunnerPhase::Draining, RunnerInput::MailboxMessage { received }) =>
            if !s.recv_active {
                (s, RunnerAction::Continue)
            } else if received {
                (s, RunnerAction::HandleMessage)
            } else {
                (RunnerModel { recv_active: false, ..s }, RunnerAction::Continue)
            },
        (RunnerPhase::Draining, RunnerInput::Drained) =>
            if s.recv_active {
                (s, RunnerAction::Continue)
            } else {
                (RunnerModel { phase: RunnerPhase::Stopping, ..s }, RunnerAction::RunPostStop)
            },
        (RunnerPhase::Stopping, RunnerInput::PostStopDone) =>
            (RunnerModel { phase: RunnerPhase::Stopped, ..s }, RunnerAction::Finish),
        _ => (s, RunnerAction::Continue),
    }
}

impl RunnerState {
    /// A run loop about to run `pre_start`.
    pub fn new() -> (state: Self)
        ensures
            state@ == initial_model(),
    {
        RunnerState { phase: RunnerPhase::Starting, recv_active: true, event_recv_active: true, num_events: 0 }
    }

    pub fn phase(&self) -> (phase: RunnerPhase)
        ensures
            phase == self@.phase,
    {
        self.phase
    }

    /// The branches to wait on now.
    pub fn branches(&self) -> (b: Branches)
        ensures
            b == branches_of(self@),
    {
        match self.phase {
            RunnerPhase::Running => Branches {
                cancel: true,
                timer: true,
                events: self.event_recv_active,
                mailbox: self.recv_active,
                drained: false,
            },
            RunnerPhase::Draining => Branches {
                cancel: false,
                timer: true,
                events: self.num_events > 0,
                mailbox: self.recv_active,
                drained: true,
            },
            _ => Branches { cancel: false, timer: false, events: false, mailbox: false, drained: false },
        }
    }

    /// Takes in what the driver observed and answers what it is to do.
    pub fn step(&mut self, input: RunnerInput) -> (action: RunnerAction)
        ensures
            (final(self)@, action) == next(old(self)@, input),
    {
        match (self.phase, input) {
            (RunnerPhase::Starting, RunnerInput::Started { ok }) => {
                if ok {
                    self.phase = RunnerPhase::Running;
                    RunnerAction::Continue
                } else {
                    self.phase = RunnerPhase::Stopped;
                    RunnerAction::Finish
                }
            },
            (RunnerPhase::Running, RunnerInput::Cancelled { pending_events }) => {
                self.phase = RunnerPhase::Draining;
                self.num_events = if self.event_recv_active { pending_events } else { 0 };
                RunnerAction::CloseQueues
            },
            (RunnerPhase::Running, RunnerInput::TimerMessage) => RunnerAction::HandleMessage,
            (RunnerPhase::Running, RunnerInput::SystemEvent { received }) => {
                if !self.event_recv_active {
                    RunnerAction::Continue
                } else if received {
                    RunnerAction::HandleEvent
                } else {
                    self.event_recv_active = false;
                    RunnerAction::Continue
                }
            },
            (RunnerPhase::Running, RunnerInput::MailboxMessage { received })
            | (RunnerPhase::Draining, RunnerInput::MailboxMessage { received }) => {
                if !self.recv_active {
                    RunnerAction::Continue
                } else if received {
                    RunnerAction::HandleMessage
                } else {
                    self.recv_active = false;
                    RunnerAction::Continue
                }
            },
            (RunnerPhase::Draining, RunnerInput::SystemEvent { received }) => {
                if self.num_events > 0 && received {
                    self.num_events = self.num_events - 1;
                    RunnerAction::HandleEvent
                } else {
                    RunnerAction::Continue
                }
            },
            (RunnerPhase::Draining, RunnerInput::TimerMessage) => RunnerAction::HandleMessage,
            (RunnerPhase::Draining, RunnerInput::Drained) => {
                if self.recv_active {
                    RunnerAction::Continue
                } else {
                    self.phase = RunnerPhase::Stopping;
                    RunnerAction::RunPostStop
                }
            },
            (RunnerPhase::Stopping, RunnerInput::PostStopDone) => {
                self.phase = RunnerPhase::Stopped;
                RunnerAction::Finish
            },
            _ => RunnerAction::Continue,
        }
    }
}

/// The order of the phases: a run loop only moves forward through them.
pub open spec fn phase_rank(p: RunnerPhase) -> int {
    match p {
        RunnerPhase::Starting => 0,
        RunnerPhase::Running => 1,
        RunnerPhase::Draining => 2,
        RunnerPhase::Stopping => 3,
        RunnerPhase::Stopped => 4,
    }
}

/// The state reached from `s` after the first `k` of `inputs`.
pub open spec fn state_after(s: RunnerModel, inputs: Seq<RunnerInput>, k: nat) -> RunnerModel
    decreases k,
{
    if k == 0 {
        s
    } else {
        next(state_after(s, inputs, (k - 1) as nat), inputs[k - 1]).0
    }
}

/// The action answered to input number `k` of `inputs`, starting from `s`.
pub open spec fn action_at(s: RunnerModel, inputs: Seq<RunnerInput>, k: nat) -> RunnerAction {
    next(state_after(s, inputs, k), inputs[k as int]).1
}

/// How many of the first `k` answers, starting from `s`, hand a system event
/// to the actor.
pub open spec fn handled_events(s: RunnerModel, inputs: Seq<RunnerInput>, k: nat) -> nat
    decreases k,
{
    if k == 0 {
        0
    } else {
        handled_events(s, inputs, (k - 1) as nat)
            + if action_at(s, inputs, (k - 1) as nat) == RunnerAction::HandleEvent { 1nat } else { 0nat }
    }
}

/// A run loop never returns to an earlier phase.
pub proof fn law_phase_never_goes_back(s: RunnerModel, input: RunnerInput)
    ensures
        phase_rank(s.phase) <= phase_rank(next(s, input).0.phase),
{
}

/// Once the mailbox or the event subscription has been found closed, it is
/// never waited on again.
pub proof fn law_closed_queues_stay_closed(s: RunnerModel, input: RunnerInput)
    ensures
        next(s, input).0.recv_active ==> s.recv_active,
        next(s, input).0.event_recv_active ==> s.event_recv_active,
{
}

/// Messages and events are handed to the actor only while it serves or
/// drains, and handling one does not change the phase.
pub proof fn law_handling_only_while_serving(s: RunnerModel, input: RunnerInput)
    ensures
        next(s, input).1 == RunnerAction::HandleMessage || next(s, input).1 == RunnerAction::HandleEvent
            ==> (s.phase == RunnerPhase::Running || s.phase == RunnerPhase::Draining)
                && next(s, input).0.phase == s.phase,
{
}

/// `post_stop` is run exactly when the drain ends, and only once the
/// mailbox has been found closed.
pub proof fn law_post_stop_ends_the_drain(s: RunnerModel, input: RunnerInput)
    ensures
        (next(s, input).1 == RunnerAction::RunPostStop)
            <==> (s.phase == RunnerPhase::Draining && next(s, input).0.phase == RunnerPhase::Stopping),
        next(s, input).1 == RunnerAction::RunPostStop ==> !s.recv_active,
{
}

/// The actor is handed back exactly when the loop enters its last phase.
pub proof fn law_finish_enters_stopped(s: RunnerModel, input: RunnerInput)
    ensures
        (next(s, input).1 == RunnerAction::Finish)
            <==> (s.phase != RunnerPhase::Stopped && next(s, input).0.phase == RunnerPhase::Stopped),
{
}

/// Cancelling the group always ends the serving of a running actor: its
/// queues are closed and it drains, taking at most the system events that
/// were pending, and none when its subscription was already closed.
pub proof fn law_cancel_starts_drain(s: RunnerModel, pending_events: usize)
    requires
        s.phase == RunnerPhase::Running,
    ensures
        next(s, RunnerInput::Cancelled { pending_events }).1 == RunnerAction::CloseQueues,
        next(s, RunnerInput::Cancelled { pending_events }).0.phase == RunnerPhase::Draining,
        next(s, RunnerInput::Cancelled { pending_events }).0.num_events
            == if s.event_recv_active { pending_events as nat } else { 0 },
{
}

/// An actor whose `pre_start` fails is handed back at once, without
/// `post_stop`.
pub proof fn law_failed_start_returns_at_once(s: RunnerModel)
    requires
        s.phase == RunnerPhase::Starting,
    ensures
        next(s, RunnerInput::Started { ok: false }).1 == RunnerAction::Finish,
        next(s, RunnerInput::Started { ok: false }).0.phase == RunnerPhase::Stopped,
{
}

/// Input from a branch the state does not wait on changes nothing and asks
/// for nothing.
pub proof fn law_disabled_branches_change_nothing(s: RunnerModel, input: RunnerInput)
    requires
        match input {
            RunnerInput::Cancelled { .. } => !branches_of(s).cancel,
            RunnerInput::TimerMessage => !branches_of(s).timer,
            RunnerInput::SystemEvent { .. } => !branches_of(s).events,
            RunnerInput::MailboxMessage { .. } => !branches_of(s).mailbox,
            RunnerInput::Drained => !branches_of(s).drained,
            _ => false,
        },
    ensures
        next(s, input) == (s, RunnerAction::Continue),
{
}

/// Handing a message or an event to the actor decides nothing: whatever the
/// handler does or returns, the phase and both queue flags stay as they were,
/// and only the drain's event allowance goes down by the event taken.
pub proof fn law_handling_keeps_state(s: RunnerModel, input: RunnerInput)
    ensures
        next(s, input).1 == RunnerAction::HandleMessage ==> next(s, input).0 == s,
        next(s, input).1 == RunnerAction::HandleEvent ==> next(s, input).0 == (RunnerModel {
            num_events: next(s, input).0.num_events,
            ..s
        }),
        next(s, input).1 == RunnerAction::HandleEvent && s.phase == RunnerPhase::Draining
            ==> next(s, input).0.num_events + 1 == s.num_events,
{
}

/// A drain never holds the actor back once its queues are empty: when the
/// mailbox reports closed and nothing else is left, `post_stop` runs, and
/// when it returns the actor is handed back.
pub proof fn law_drain_completes(s: RunnerModel)
    requires
        s.phase == RunnerPhase::Draining,
    ensures
        ({
            let closed = next(s, RunnerInput::MailboxMessage { received: false }).0;
            let stopping = next(closed, RunnerInput::Drained);
            let stopped = next(stopping.0, RunnerInput::PostStopDone);
            &&& stopping.1 == RunnerAction::RunPostStop
            &&& stopped.1 == RunnerAction::Finish
            &&& stopped.0.phase == RunnerPhase::Stopped
        }),
{
}

/// What a running actor answers to each input, whatever else holds: a timer
/// message is handled; while the subscription is live a received event is
/// handled (whether or not the mailbox has closed) and an error closes it;
/// while the mailbox is live a message is handled (whether or not the
/// subscription has closed) and a close is recorded; cancellation starts the
/// drain.
pub proof fn law_running_answers(s: RunnerModel, pending_events: usize)
    requires
        s.phase == RunnerPhase::Running,
    ensures
        next(s, RunnerInput::TimerMessage) == (s, RunnerAction::HandleMessage),
        s.event_recv_active ==> next(s, RunnerInput::SystemEvent { received: true }) == (s, RunnerAction::HandleEvent),
        s.event_recv_active ==> next(s, RunnerInput::SystemEvent { received: false })
            == (RunnerModel { event_recv_active: false, ..s }, RunnerAction::Continue),
        s.recv_active ==> next(s, RunnerInput::MailboxMessage { received: true }) == (s, RunnerAction::HandleMessage),
        s.recv_active ==> next(s, RunnerInput::MailboxMessage { received: false })
            == (RunnerModel { recv_active: false, ..s }, RunnerAction::Continue),
        next(s, RunnerInput::Cancelled { pending_events }) == (RunnerModel {
            phase: RunnerPhase::Draining,
            num_events: if s.event_recv_active { pending_events as nat } else { 0 },
            ..s
        }, RunnerAction::CloseQueues),
        next(s, RunnerInput::Drained) == (s, RunnerAction::Continue),
{
}

/// What a draining actor answers to each input: timer messages and, while
/// the mailbox is live, mailbox messages are handled; an event is handled
/// while the allowance lasts, using one of it; a closed mailbox is recorded;
/// and once the mailbox is closed, the end of the drain runs `post_stop`.
pub proof fn law_draining_answers(s: RunnerModel)
    requires
        s.phase == RunnerPhase::Draining,
    ensures
        next(s, RunnerInput::TimerMessage) == (s, RunnerAction::HandleMessage),
        s.num_events > 0 ==> next(s, RunnerInput::SystemEvent { received: true })
            == (RunnerModel { num_events: (s.num_events - 1) as nat, ..s }, RunnerAction::HandleEvent),
        s.num_events == 0 ==> next(s, RunnerInput::SystemEvent { received: true }) == (s, RunnerAction::Continue),
        s.recv_active ==> next(s, RunnerInput::MailboxMessage { received: true }) == (s, RunnerAction::HandleMessage),
        s.recv_active ==> next(s, RunnerInput::MailboxMessage { received: false })
            == (RunnerModel { recv_active: false, ..s }, RunnerAction::Continue),
        !s.recv_active ==> next(s, RunnerInput::Drained)
            == (RunnerModel { phase: RunnerPhase::Stopping, ..s }, RunnerAction::RunPostStop),
        s.recv_active ==> next(s, RunnerInput::Drained) == (s, RunnerAction::Continue),
{
}

/// The branches waited on match the state: cancellation only while
/// running, the fall-back only while draining, the timer queue in both; the
/// mailbox exactly while it is live in those phases; the subscription while
/// running exactly while it is live, and while draining exactly while the
/// allowance lasts. A closed queue is never waited on.
pub proof fn law_branches_match_state(s: RunnerModel)
    ensures
        branches_of(s).cancel <==> s.phase == RunnerPhase::Running,
        branches_of(s).drained <==> s.phase == RunnerPhase::Draining,
        branches_of(s).timer <==> (s.phase == RunnerPhase::Running || s.phase == RunnerPhase::Draining),
        branches_of(s).mailbox <==> ((s.phase == RunnerPhase::Running || s.phase == RunnerPhase::Draining) && s.recv_active),
        s.phase == RunnerPhase::Running ==> (branches_of(s).events <==> s.event_recv_active),
        s.phase == RunnerPhase::Draining ==> (branches_of(s).events <==> s.num_events > 0),
        !(s.phase == RunnerPhase::Running || s.phase == RunnerPhase::Draining) ==> !branches_of(s).events,
{
}

/// Whatever an enabled branch delivers is acted on: a message or event is
/// handled, a close is recorded, cancellation closes the queues, and when
/// the drain's fall-back fires with the mailbox no longer waited on,
/// `post_stop` runs. So a drain whose queues are all exhausted ends.
pub proof fn law_enabled_branches_are_served(s: RunnerModel, pending_events: usize)
    ensures
        branches_of(s).timer ==> next(s, RunnerInput::TimerMessage).1 == RunnerAction::HandleMessage,
        branches_of(s).events ==> next(s, RunnerInput::SystemEvent { received: true }).1 == RunnerAction::HandleEvent,
        branches_of(s).mailbox ==> next(s, RunnerInput::MailboxMessage { received: true }).1 == RunnerAction::HandleMessage,
        branches_of(s).mailbox ==> !next(s, RunnerInput::MailboxMessage { received: false }).0.recv_active,
        branches_of(s).mailbox ==> !branches_of(next(s, RunnerInput::MailboxMessage { received: false }).0).mailbox,
        branches_of(s).cancel ==> next(s, RunnerInput::Cancelled { pending_events }).1 == RunnerAction::CloseQueues,
        branches_of(s).drained && !branches_of(s).mailbox ==> next(s, RunnerInput::Drained).1 == RunnerAction::RunPostStop,
{
}

proof fn lemma_rank_monotone(s: RunnerModel, inputs: Seq<RunnerInput>, k: nat, m: nat)
    requires
        k <= m,
    ensures
        phase_rank(state_after(s, inputs, k).phase) <= phase_rank(state_after(s, inputs, m).phase),
    decreases m - k,
{
    if k < m {
        lemma_rank_monotone(s, inputs, k, (m - 1) as nat);
        law_phase_never_goes_back(state_after(s, inputs, (m - 1) as nat), inputs[m - 1]);
    }
}

/// Over any run, `post_stop` is run at most once, and after it no message
/// or event is handed to the actor.
pub proof fn law_post_stop_is_last(s: RunnerModel, inputs: Seq<RunnerInput>, i: nat, j: nat)
    requires
        i < j,
        action_at(s, inputs, i) == RunnerAction::RunPostStop,
    ensures
        action_at(s, inputs, j) != RunnerAction::RunPostStop,
        action_at(s, inputs, j) != RunnerAction::HandleMessage,
        action_at(s, inputs, j) != RunnerAction::HandleEvent,
{
    law_post_stop_ends_the_drain(state_after(s, inputs, i), inputs[i as int]);
    assert(state_after(s, inputs, i + 1) == next(state_after(s, inputs, i), inputs[i as int]).0);
    lemma_rank_monotone(s, inputs, i + 1, j);
}

/// Over any run, once the actor has been handed back nothing more happens:
/// every later answer is `Continue`.
pub proof fn law_nothing_after_finish(s: RunnerModel, inputs: Seq<RunnerInput>, i: nat, j: nat)
    requires
        i < j,
        action_at(s, inputs, i) == RunnerAction::Finish,
    ensures
        action_at(s, inputs, j) == RunnerAction::Continue,
        state_after(s, inputs, j) == state_after(s, inputs, i + 1),
    decreases j - i,
{
    law_finish_enters_stopped(state_after(s, inputs, i), inputs[i as int]);
    assert(state_after(s, inputs, i + 1) == next(state_after(s, inputs, i), inputs[i as int]).0);
    if j > i + 1 {
        law_nothing_after_finish(s, inputs, i, (j - 1) as nat);
    }
}

proof fn lemma_without_successful_start(inputs: Seq<RunnerInput>, k: nat)
    requires
        forall|i: int| 0 <= i < k ==> inputs[i] != (RunnerInput::Started { ok: true }),
    ensures
        state_after(initial_model(), inputs, k).phase == RunnerPhase::Starting
            || state_after(initial_model(), inputs, k).phase == RunnerPhase::Stopped,
    decreases k,
{
    if k > 0 {
        lemma_without_successful_start(inputs, (k - 1) as nat);
    }
}

/// Over any run from the start, no message or event is handed to the actor
/// before its `pre_start` succeeded.
pub proof fn law_handling_needs_successful_start(inputs: Seq<RunnerInput>, j: nat)
    requires
        action_at(initial_model(), inputs, j) == RunnerAction::HandleMessage
            || action_at(initial_model(), inputs, j) == RunnerAction::HandleEvent,
    ensures
        exists|i: int| 0 <= i < j && inputs[i] == (RunnerInput::Started { ok: true }),
{
    if !(exists|i: int| 0 <= i < j && inputs[i] == (RunnerInput::Started { ok: true })) {
        lemma_without_successful_start(inputs, j);
        law_handling_only_while_serving(state_after(initial_model(), inputs, j), inputs[j as int]);
    }
}

/// Over any run from the start, `post_stop` is run only after `pre_start`
/// succeeded.
pub proof fn law_post_stop_needs_successful_start(inputs: Seq<RunnerInput>, j: nat)
    requires
        action_at(initial_model(), inputs, j) == RunnerAction::RunPostStop,
    ensures
        exists|i: int| 0 <= i < j && inputs[i] == (RunnerInput::Started { ok: true }),
{
    if !(exists|i: int| 0 <= i < j && inputs[i] == (RunnerInput::Started { ok: true })) {
        lemma_without_successful_start(inputs, j);
        law_post_stop_ends_the_drain(state_after(initial_model(), inputs, j), inputs[j as int]);
    }
}

/// Over any run that starts draining, the events handed to the actor and
/// those it may still take add up to the allowance it started with: it never
/// takes more system events than were pending at cancellation.
pub proof fn law_drain_takes_at_most_pending(s: RunnerModel, inputs: Seq<RunnerInput>, k: nat)
    requires
        s.phase == RunnerPhase::Draining,
    ensures
        handled_events(s, inputs, k) + state_after(s, inputs, k).num_events == s.num_events,
        handled_events(s, inputs, k) <= s.num_events,
    decreases k,
{
    if k > 0 {
        law_drain_takes_at_most_pending(s, inputs, (k - 1) as nat);
        lemma_rank_monotone(s, inputs, 0, (k - 1) as nat);
    }
}

} // verus!
