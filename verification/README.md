# mesh_actor

A message-oriented actor framework on tokio channels: actors receive typed
messages through gates, are organised in groups whose termination stops
them, listen to a system event bus, and run pre-start and post-stop hooks.

Layout:

- `src/` is the verified library (Verus).
  - `runner.rs`: the decisions of an actor's run loop as a state machine
    (`RunnerState::step`), with its laws: phases only move forward,
    `post_stop` runs at most once and only after a successful `pre_start`, nothing is
    handled after it, and a drain takes at most the system events that were
    pending at cancellation.
  - `gate.rs`: gates; a refused `tell` or `ask` hands the message back, the
    mailbox's answer is mapped exactly by `send_outcome`, and `channel`
    states that both of its ends share one tag and the capacity asked for.
  - `handler.rs`: the message envelope, `ask_envelope` (which ties an asked
    message to the receiver of its reply) and the at-most-once reply.
  - `bus.rs`, `system.rs`: the event bus and the actor system.
  - `channels.rs`: the tokio types used, and the trusted calls into tokio.
  - `error.rs`: the error types.
- `app/` is the asynchronous side: the `Actor` and `Handler` traits, the
  `tokio::select!` loop that drives the state machine, groups, timers and the
  awaiting `ask`.
- `tests/` runs the library on concrete values.
