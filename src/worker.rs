use vstd::prelude::*;

use crate::translator::TranslatorError;

verus! {

/// Where a worker loop stands.
#[derive(Debug, Clone, Copy, PartialEq, Eq)]
pub enum WorkerState {
    /// Constructing its model.
    Loading,
    /// Between requests: about to look at the stop signal.
    Ready,
    /// The stop signal was clear: about to try to dequeue.
    Polling,
    /// Serving one dequeued request: translating it and writing its reply.
    Busy,
    /// Finished; its thread returns the outcome of the last action.
    Stopped,
}

/// What a non-blocking dequeue found.
#[derive(Debug, Clone, Copy, PartialEq, Eq)]
pub enum Dequeued {
    /// A request, now held by the worker.
    Message,
    /// No request, but the handle still exists.
    Empty,
    /// No request, and every write endpoint is gone.
    Disconnected,
}

/// What the thread running the loop reports after carrying out an action.
#[derive(Debug, PartialEq, Eq)]
pub enum WorkerEvent {
    /// The model was constructed.
    LoadSucceeded,
    /// The model could not be constructed.
    LoadFailed(TranslatorError),
    /// The stop signal was read; `true` when it is set.
    StopChecked(bool),
    /// A dequeue was attempted.
    Dequeued(Dequeued),
    /// The reply of the request in hand was written; `false` when its caller
    /// had already abandoned the reply slot.
    ReplyWritten(bool),
}

/// What the thread running the loop must do next.
#[derive(Debug, PartialEq, Eq)]
pub enum WorkerAction {
    /// Construct the model for the actor's direction.
    LoadModel,
    /// Read the stop signal.
    CheckStop,
    /// Try to dequeue one request without blocking.
    Dequeue,
    /// Translate the request in hand and write the result into its reply slot.
    TranslateAndReply,
    /// Leave the loop; the thread returns this outcome.
    Exit(Result<(), TranslatorError>),
}

/// An event is one the worker waits for in its current state.
pub open spec fn fits(s: WorkerState, e: WorkerEvent) -> bool {
    match s {
        WorkerState::Loading => e is LoadSucceeded || e is LoadFailed,
        WorkerState::Ready => e is StopChecked,
        WorkerState::Polling => e is Dequeued,
        WorkerState::Busy => e is ReplyWritten,
        WorkerState::Stopped => false,
    }
}

/// The worker loop: the state it moves to on a fitting event, and its next
/// action. A stop request is honoured between requests, never during one; a
/// disconnected queue ends the loop as a stop does; a reply that cannot be
/// delivered is dropped and the loop goes on; only a failed load ends it with
/// an error.
pub open spec fn next(s: WorkerState, e: WorkerEvent) -> (WorkerState, WorkerAction) {
    match (s, e) {
        (WorkerState::Loading, WorkerEvent::LoadSucceeded) => (
            WorkerState::Ready,
            WorkerAction::CheckStop,
        ),
        (WorkerState::Loading, WorkerEvent::LoadFailed(err)) => (
            WorkerState::Stopped,
            WorkerAction::Exit(Err(err)),
        ),
        (WorkerState::Ready, WorkerEvent::StopChecked(true)) => (
            WorkerState::Stopped,
            WorkerAction::Exit(Ok(())),
        ),
        (WorkerState::Ready, WorkerEvent::StopChecked(false)) => (
            WorkerState::Polling,
            WorkerAction::Dequeue,
        ),
        (WorkerState::Polling, WorkerEvent::Dequeued(Dequeued::Message)) => (
            WorkerState::Busy,
            WorkerAction::TranslateAndReply,
        ),
        (WorkerState::Polling, WorkerEvent::Dequeued(Dequeued::Empty)) => (
            WorkerState::Ready,
            WorkerAction::CheckStop,
        ),
        (WorkerState::Polling, WorkerEvent::Dequeued(Dequeued::Disconnected)) => (
            WorkerState::Stopped,
            WorkerAction::Exit(Ok(())),
        ),
        (WorkerState::Busy, WorkerEvent::ReplyWritten(_)) => (
            WorkerState::Ready,
            WorkerAction::CheckStop,
        ),
        _ => (s, WorkerAction::CheckStop),
    }
}

/// At most how many more events a worker whose stop signal is set sees
/// before it stops.
pub open spec fn stop_distance(s: WorkerState) -> nat {
    match s {
        WorkerState::Stopped => 0,
        WorkerState::Ready => 1,
        WorkerState::Loading => 2,
        WorkerState::Busy => 2,
        WorkerState::Polling => 3,
    }
}

/// `es` is a run of the worker from `s`, each event fitting where it comes,
/// in which every read of the stop signal finds it set.
pub open spec fn stopping_run(s: WorkerState, es: Seq<WorkerEvent>) -> bool
    decreases es.len(),
{
    es.len() == 0 || {
        &&& fits(s, es[0])
        &&& (es[0] is StopChecked ==> es[0] == WorkerEvent::StopChecked(true))
        &&& stopping_run(next(s, es[0]).0, es.drop_first())
    }
}

/// How many requests a run of events from `s` sets out to translate.
pub open spec fn translations(s: WorkerState, es: Seq<WorkerEvent>) -> nat
    decreases es.len(),
{
    if es.len() == 0 {
        0
    } else {
        (if next(s, es[0]).1 is TranslateAndReply {
            1nat
        } else {
            0nat
        }) + translations(next(s, es[0]).0, es.drop_first())
    }
}

/// One step with the stop signal set brings the worker closer to stopping;
/// it stops exactly when told to exit, and it exits with success unless its
/// model failed to load, in which case it exits with that failure.
pub proof fn stop_step_law(s: WorkerState, e: WorkerEvent)
    requires
        fits(s, e),
        e is StopChecked ==> e == WorkerEvent::StopChecked(true),
    ensures
        stop_distance(next(s, e).0) < stop_distance(s),
        next(s, e).0 is Stopped <==> next(s, e).1 is Exit,
        next(s, e).0 is Stopped && !(e is LoadFailed) ==> next(s, e).1 == WorkerAction::Exit(
            Ok(()),
        ),
        e is LoadFailed ==> next(s, e).1 == WorkerAction::Exit(Err(e->LoadFailed_0)),
        next(s, e).1 is TranslateAndReply ==> s is Polling,
{
}

/// Graceful stop: once the stop signal is set, a worker sees at most three
/// more events before it stops, whatever it finds in its queue, and starts
/// at most one more translation (none unless it was about to dequeue). A
/// request in hand is answered first: while busy the only event that fits is
/// the written reply.
pub proof fn graceful_stop_law(s: WorkerState, es: Seq<WorkerEvent>)
    requires
        stopping_run(s, es),
    ensures
        es.len() <= stop_distance(s) <= 3,
        translations(s, es) <= (if s is Polling {
            1nat
        } else {
            0nat
        }),
    decreases es.len(),
{
    if es.len() > 0 {
        stop_step_law(s, es[0]);
        graceful_stop_law(next(s, es[0]).0, es.drop_first());
    }
}

/// Abandonment does not hurt the loop: whether or not the caller still held
/// its reply slot, a busy worker goes back to checking for a stop, and with
/// no stop requested it dequeues and serves the next request.
pub proof fn abandonment_law(delivered: bool)
    ensures
        next(WorkerState::Busy, WorkerEvent::ReplyWritten(delivered)) == (
            WorkerState::Ready,
            WorkerAction::CheckStop,
        ),
        next(WorkerState::Ready, WorkerEvent::StopChecked(false)) == (
            WorkerState::Polling,
            WorkerAction::Dequeue,
        ),
        next(WorkerState::Polling, WorkerEvent::Dequeued(Dequeued::Message)) == (
            WorkerState::Busy,
            WorkerAction::TranslateAndReply,
        ),
{
}

impl WorkerState {
    /// A freshly started worker: loading, and told to construct its model.
    pub fn start() -> (r: (WorkerState, WorkerAction))
        ensures
            r == (WorkerState::Loading, WorkerAction::LoadModel),
    {
        (WorkerState::Loading, WorkerAction::LoadModel)
    }

    /// Whether the worker waits for `event` in this state.
    pub fn expects(&self, event: &WorkerEvent) -> (r: bool)
        ensures
            r == fits(*self, *event),
    {
        match self {
            WorkerState::Loading => match event {
                WorkerEvent::LoadSucceeded => true,
                WorkerEvent::LoadFailed(_) => true,
                _ => false,
            },
            WorkerState::Ready => match event {
                WorkerEvent::StopChecked(_) => true,
                _ => false,
            },
            WorkerState::Polling => match event {
                WorkerEvent::Dequeued(_) => true,
                _ => false,
            },
            WorkerState::Busy => match event {
                WorkerEvent::ReplyWritten(_) => true,
                _ => false,
            },
            WorkerState::Stopped => false,
        }
    }

    /// Whether the loop has ended.
    pub fn is_stopped(&self) -> (r: bool)
        ensures
            r == (*self is Stopped),
    {
        match self {
            WorkerState::Stopped => true,
            _ => false,
        }
    }

    /// One step of the worker loop: the state after `event` and the action
    /// that follows.
    pub fn step(self, event: WorkerEvent) -> (r: (WorkerState, WorkerAction))
        requires
            fits(self, event),
        ensures
            r == next(self, event),
    {
        match (self, event) {
            (WorkerState::Loading, WorkerEvent::LoadFailed(err)) => (
                WorkerState::Stopped,
                WorkerAction::Exit(Err(err)),
            ),
            (WorkerState::Loading, _) => (WorkerState::Ready, WorkerAction::CheckStop),
            (WorkerState::Ready, WorkerEvent::StopChecked(stop)) => {
                if stop {
                    (WorkerState::Stopped, WorkerAction::Exit(Ok(())))
                } else {
                    (WorkerState::Polling, WorkerAction::Dequeue)
                }
            },
            (WorkerState::Polling, WorkerEvent::Dequeued(found)) => match found {
                Dequeued::Message => (WorkerState::Busy, WorkerAction::TranslateAndReply),
                Dequeued::Empty => (WorkerState::Ready, WorkerAction::CheckStop),
                Dequeued::Disconnected => (WorkerState::Stopped, WorkerAction::Exit(Ok(()))),
            },
            (_, _) => (WorkerState::Ready, WorkerAction::CheckStop),
        }
    }
}

} // verus!
