use vstd::prelude::*;

verus! {

/// Declares `anyhow::Error`, which the runtime variant of [`ActorError`] carries.
#[verifier::external_type_specification]
#[verifier::external_body]
pub struct AnyhowError(anyhow::Error);

/// Why a message could not be handed to an actor.
#[derive(Debug, PartialEq, Eq)]
pub enum ActorTrySendError<T> {
    /// The data could not be sent on the channel because the channel is
    /// currently full and sending would require blocking.
    Full(T),
    /// The receive half of the channel was explicitly closed or has been
    /// dropped.
    Closed(T),
    /// No response
    Failed,
}

/// Errors an actor may report.
#[derive(Debug)]
pub enum ActorError {
    /// Actor queues congested
    Congestion,
    /// Actor creation failed
    CreateError,
    /// Sending message failed
    SendError,
    /// Actor runtime error
    RuntimeError(anyhow::Error),
}

/// Wraps any thread-safe error into an `anyhow::Error` by calling
/// `anyhow::Error::new`; nothing is claimed of the value it builds.
#[verifier::external_body]
fn wrap_error<E>(error: E) -> (wrapped: anyhow::Error)
    where E: std::error::Error + Send + Sync + 'static,
{
    anyhow::Error::new(error)
}

impl ActorError {
    /// An actor runtime error that carries `error`.
    pub fn new<E>(error: E) -> (res: Self)
        where E: std::error::Error + Send + Sync + 'static,
        ensures
            res is RuntimeError,
    {
        ActorError::RuntimeError(wrap_error(error))
    }
}

} // verus!
