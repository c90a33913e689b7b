//! The registry of the one active session.
//!
//! A [`Registry`] owns at most one session handle. Every call that changes
//! the slot takes the registry by `&mut`, so two such calls never overlap:
//! whoever shares a registry between threads wraps it in a lock, and the slot
//! is always either empty or one whole handle.

use crate::error::Error;
use vstd::prelude::*;

verus! {

/// The slot of the one active session. `H` is the handle of a running
/// engine instance; the registry never looks inside it.
pub struct Registry<H> {
    slot: Option<H>,
}

/// How an attempt to bring up a session ended, before the registry hears of
/// it.
pub enum StartAttempt<H> {
    /// No configuration text was supplied.
    NoConfig,
    /// The configuration loader refused the text; its message.
    ConfigRejected(String),
    /// The engine could not bind or initialise; its message.
    EngineFailed(String),
    /// The engine is running under this handle.
    Started(H),
}

/// What a start reports for `attempt`.
pub open spec fn start_result<H>(attempt: StartAttempt<H>) -> Result<(), Error> {
    match attempt {
        StartAttempt::NoConfig => Err(Error::NullConfig),
        StartAttempt::ConfigRejected(detail) => Err(Error::ConfigParse(detail)),
        StartAttempt::EngineFailed(detail) => Err(Error::EngineStart(detail)),
        StartAttempt::Started(_) => Ok(()),
    }
}

/// The slot after a start: the new handle if the engine came up, else what
/// was there before.
pub open spec fn slot_after_start<H>(before: Option<H>, attempt: StartAttempt<H>) -> Option<H> {
    match attempt {
        StartAttempt::Started(handle) => Some(handle),
        _ => before,
    }
}

/// The slot after a stop: empty, whatever it held.
pub open spec fn slot_after_stop<H>(before: Option<H>) -> Option<H> {
    None
}

impl<H> Registry<H> {
    /// The installed session, if there is one.
    pub closed spec fn session(&self) -> Option<H> {
        self.slot
    }

    /// A registry with no session.
    pub fn new() -> (registry: Self)
        ensures
            registry.session() is None,
    {
        Registry { slot: None }
    }

    /// True if a session is installed.
    pub fn is_running(&self) -> (running: bool)
        ensures
            running == self.session() is Some,
    {
        self.slot.is_some()
    }

    /// The installed session, or `NoInstance` if the slot is empty. Reading
    /// the latest error of the session, querying its running info and
    /// patching its configuration all start here.
    pub fn current(&self) -> (r: Result<&H, Error>)
        ensures
            match self.session() {
                Some(handle) => r == Ok::<&H, Error>(&handle),
                None => r == Err::<&H, Error>(Error::NoInstance),
            },
    {
        match &self.slot {
            Some(handle) => Ok(handle),
            None => Err(Error::NoInstance),
        }
    }
}

/// Concludes a start. A session that came up replaces whatever was
/// installed; the replaced handle is dropped here and tears itself down. A
/// failed attempt reports its error and leaves the slot as it was.
pub fn run_network_instance<H>(registry: &mut Registry<H>, attempt: StartAttempt<H>) -> (r: Result<
    (),
    Error,
>)
    ensures
        r == start_result(attempt),
        final(registry).session() == slot_after_start(old(registry).session(), attempt),
{
    match attempt {
        StartAttempt::NoConfig => Err(Error::NullConfig),
        StartAttempt::ConfigRejected(detail) => Err(Error::ConfigParse(detail)),
        StartAttempt::EngineFailed(detail) => Err(Error::EngineStart(detail)),
        StartAttempt::Started(handle) => {
            registry.slot = Some(handle);
            Ok(())
        },
    }
}

/// Empties the slot and hands out the session that was installed, so that
/// its stop signal can be fired before it is dropped. With no session this
/// does nothing; it cannot fail.
pub fn stop_network_instance<H>(registry: &mut Registry<H>) -> (released: Option<H>)
    ensures
        released == old(registry).session(),
        final(registry).session() == slot_after_stop(old(registry).session()),
{
    registry.slot.take()
}

/// A start that fails changes nothing: the slot holds what it held before,
/// whether that was a session or none.
pub proof fn lemma_failed_start_keeps_session<H>(before: Option<H>, attempt: StartAttempt<H>)
    requires
        !(attempt is Started),
    ensures
        start_result(attempt) is Err,
        slot_after_start(before, attempt) == before,
{
}

/// Stopping with no session leaves no session, and a second stop changes
/// nothing that the first has left.
pub proof fn lemma_stop_is_idempotent<H>(before: Option<H>)
    ensures
        slot_after_stop(None::<H>) == None::<H>,
        slot_after_stop(slot_after_stop(before)) == slot_after_stop(before),
{
}

/// Of two starts that both bring up a session, exactly the later one is
/// installed afterwards, whole, in either order and whatever was installed
/// before.
pub proof fn lemma_last_start_wins<H>(before: Option<H>, first: H, second: H)
    ensures
        slot_after_start(
            slot_after_start(before, StartAttempt::Started(first)),
            StartAttempt::Started(second),
        ) == Some(second),
        slot_after_start(
            slot_after_start(before, StartAttempt::Started(second)),
            StartAttempt::Started(first),
        ) == Some(first),
{
}

} // verus!
