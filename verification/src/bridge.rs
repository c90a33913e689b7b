//! The callback bridge: what a registration needs before its worker is
//! spawned, and what the worker of a running-info registration does with
//! each thing it receives.
//!
//! A worker is bound to the signal or stream that it was handed when the
//! registration succeeded, not to whichever session the registry holds
//! later: the functions here hand that object out by value and never look
//! at the registry again.

use crate::error::Error;
use crate::registry::Registry;
use vstd::prelude::*;

verus! {

/// A status event of the session, as far as the bridge tells events apart.
#[derive(Debug, Clone, Copy, PartialEq, Eq, Structural)]
pub enum StatusEvent {
    /// The session's address changed.
    AddressChanged,
    /// The proxied routes were updated.
    ProxyRoutesUpdated,
    /// The configuration was patched.
    ConfigPatched,
    /// Any other event.
    Other,
}

/// What one receive on the event stream gave.
#[derive(Debug, Clone, Copy, PartialEq, Eq, Structural)]
pub enum Received {
    /// The next event, in publication order.
    Event(StatusEvent),
    /// This subscriber fell behind and that many of its oldest unread
    /// events were dropped.
    Lagged(u64),
    /// The stream is closed.
    Closed,
}

/// What the worker does next.
#[derive(Debug, Clone, Copy, PartialEq, Eq, Structural)]
pub enum WorkerStep {
    /// Invoke the callback, with no payload, then receive again.
    Invoke,
    /// Receive again.
    Skip,
    /// Leave the loop for good.
    Exit,
}

/// True for the events that a running-info callback is told of.
pub open spec fn is_observable(event: StatusEvent) -> bool {
    event is AddressChanged || event is ProxyRoutesUpdated || event is ConfigPatched
}

/// The step of a running-info worker on `received`.
pub open spec fn worker_step_spec(received: Received) -> WorkerStep {
    match received {
        Received::Event(event) => if is_observable(event) {
            WorkerStep::Invoke
        } else {
            WorkerStep::Skip
        },
        Received::Lagged(_) => WorkerStep::Skip,
        Received::Closed => WorkerStep::Exit,
    }
}

/// A worker that has consumed some of its stream.
pub struct WorkerRun {
    /// Number of times the callback was invoked.
    pub invoked: nat,
    /// True once the worker has left its loop.
    pub exited: bool,
}

/// The run of a running-info worker over `trace`, the things it receives in
/// order. Once it has exited it takes no notice of what follows.
pub open spec fn run_worker(trace: Seq<Received>) -> WorkerRun
    decreases trace.len(),
{
    if trace.len() == 0 {
        WorkerRun { invoked: 0, exited: false }
    } else {
        let before = run_worker(trace.drop_last());
        if before.exited {
            before
        } else {
            match worker_step_spec(trace.last()) {
                WorkerStep::Invoke => WorkerRun { invoked: before.invoked + 1, exited: false },
                WorkerStep::Skip => before,
                WorkerStep::Exit => WorkerRun { invoked: before.invoked, exited: true },
            }
        }
    }
}

/// What the two registrations check before the engine is touched: a
/// callback must be there, then a session.
pub open spec fn registration_spec<H, C>(session: Option<H>, callback: Option<C>) -> Result<
    (C, H),
    Error,
> {
    match callback {
        None => Err(Error::NoCallback),
        Some(callback) => match session {
            None => Err(Error::NoInstance),
            Some(handle) => Ok((callback, handle)),
        },
    }
}

/// Admits a stop registration: hands back the callback together with the
/// installed session, whose stop signal the worker is to be bound to.
/// Fails with `NoCallback` if the callback is absent, else with
/// `NoInstance` if no session is installed.
pub fn register_stop_callback<'a, H, C>(registry: &'a Registry<H>, callback: Option<C>) -> (r:
    Result<(C, &'a H), Error>)
    ensures
        match registration_spec(registry.session(), callback) {
            Ok((callback, handle)) => r == Ok::<(C, &H), Error>((callback, &handle)),
            Err(e) => r == Err::<(C, &H), Error>(e),
        },
{
    match callback {
        None => Err(Error::NoCallback),
        Some(callback) => match registry.current() {
            Err(e) => Err(e),
            Ok(handle) => Ok((callback, handle)),
        },
    }
}

/// The stop signal that a session exposed, or `NoSignal` if it exposed
/// none.
pub fn require_stop_signal<S>(signal: Option<S>) -> (r: Result<S, Error>)
    ensures
        r == match signal {
            Some(signal) => Ok::<S, Error>(signal),
            None => Err::<S, Error>(Error::NoSignal),
        },
{
    match signal {
        Some(signal) => Ok(signal),
        None => Err(Error::NoSignal),
    }
}

/// Admits a running-info registration: hands back the callback together
/// with the installed session, whose event stream the worker is to
/// subscribe to. Fails with `NoCallback` if the callback is absent, else
/// with `NoInstance` if no session is installed.
pub fn register_running_info_callback<'a, H, C>(
    registry: &'a Registry<H>,
    callback: Option<C>,
) -> (r: Result<(C, &'a H), Error>)
    ensures
        match registration_spec(registry.session(), callback) {
            Ok((callback, handle)) => r == Ok::<(C, &H), Error>((callback, &handle)),
            Err(e) => r == Err::<(C, &H), Error>(e),
        },
{
    match callback {
        None => Err(Error::NoCallback),
        Some(callback) => match registry.current() {
            Err(e) => Err(e),
            Ok(handle) => Ok((callback, handle)),
        },
    }
}

/// The subscription that a session gave, or `NoStream` if subscribing
/// failed.
pub fn require_event_stream<S>(stream: Option<S>) -> (r: Result<S, Error>)
    ensures
        r == match stream {
            Some(stream) => Ok::<S, Error>(stream),
            None => Err::<S, Error>(Error::NoStream),
        },
{
    match stream {
        Some(stream) => Ok(stream),
        None => Err(Error::NoStream),
    }
}

/// Decides what a running-info worker does with what it received: the
/// callback is invoked for an address change, a proxy-route update or a
/// configuration patch; other events and a gap in the stream are passed
/// over; only a closed stream ends the worker.
pub fn running_info_worker_step(received: Received) -> (step: WorkerStep)
    ensures
        step == worker_step_spec(received),
{
    match received {
        Received::Event(StatusEvent::AddressChanged) => WorkerStep::Invoke,
        Received::Event(StatusEvent::ProxyRoutesUpdated) => WorkerStep::Invoke,
        Received::Event(StatusEvent::ConfigPatched) => WorkerStep::Invoke,
        Received::Event(StatusEvent::Other) => WorkerStep::Skip,
        Received::Lagged(_) => WorkerStep::Skip,
        Received::Closed => WorkerStep::Exit,
    }
}

/// Registrations made while a session is installed are admitted, whatever
/// their callbacks, and all of them are bound to that one session: the
/// session that the next stop hands out.
pub proof fn lemma_registrations_share_the_session<H, C>(session: H, first: C, second: C)
    ensures
        registration_spec(Some(session), Some(first)) == Ok::<(C, H), Error>((first, session)),
        registration_spec(Some(session), Some(second)) == Ok::<(C, H), Error>((second, session)),
{
}

/// Receiving one more thing after `trace`.
proof fn lemma_run_push(trace: Seq<Received>, next: Received)
    ensures
        run_worker(trace.push(next)) == if run_worker(trace).exited {
            run_worker(trace)
        } else {
            match worker_step_spec(next) {
                WorkerStep::Invoke => WorkerRun {
                    invoked: run_worker(trace).invoked + 1,
                    exited: false,
                },
                WorkerStep::Skip => run_worker(trace),
                WorkerStep::Exit => WorkerRun { invoked: run_worker(trace).invoked, exited: true },
            }
        },
{
    assert(trace.push(next).drop_last() =~= trace);
}

/// Two traces after which the worker stands alike are continued alike.
proof fn lemma_run_continues(left: Seq<Received>, right: Seq<Received>, after: Seq<Received>)
    requires
        run_worker(left) == run_worker(right),
    ensures
        run_worker(left + after) == run_worker(right + after),
    decreases after.len(),
{
    if after.len() == 0 {
        assert(left + after =~= left);
        assert(right + after =~= right);
    } else {
        lemma_run_continues(left, right, after.drop_last());
        assert(left + after =~= (left + after.drop_last()).push(after.last()));
        assert(right + after =~= (right + after.drop_last()).push(after.last()));
        lemma_run_push(left + after.drop_last(), after.last());
        lemma_run_push(right + after.drop_last(), after.last());
    }
}

/// A subscriber that falls behind only misses events: a gap in the stream
/// neither ends the worker nor invokes the callback, and everything
/// received after the gap is handled as if the gap had not been there.
pub proof fn lemma_lag_only_skips(before: Seq<Received>, missed: u64, after: Seq<Received>)
    ensures
        run_worker(before.push(Received::Lagged(missed))) == run_worker(before),
        run_worker(before.push(Received::Lagged(missed)) + after) == run_worker(before + after),
{
    lemma_run_push(before, Received::Lagged(missed));
    lemma_run_continues(before.push(Received::Lagged(missed)), before, after);
}

/// The number of observable events in `trace`.
pub open spec fn observable_events(trace: Seq<Received>) -> nat
    decreases trace.len(),
{
    if trace.len() == 0 {
        0
    } else if trace.last() matches Received::Event(event) && is_observable(event) {
        observable_events(trace.drop_last()) + 1
    } else {
        observable_events(trace.drop_last())
    }
}

/// As long as the stream is not closed the worker stays in its loop, and it
/// has invoked the callback once for every observable event that it
/// received, gaps or not.
pub proof fn lemma_worker_runs_until_closed(trace: Seq<Received>)
    requires
        forall|i: int| 0 <= i < trace.len() ==> !(trace[i] is Closed),
    ensures
        !run_worker(trace).exited,
        run_worker(trace).invoked == observable_events(trace),
    decreases trace.len(),
{
    if trace.len() > 0 {
        lemma_worker_runs_until_closed(trace.drop_last());
    }
}

} // verus!
