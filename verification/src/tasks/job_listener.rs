//! What the job listener does next. It listens on
//! [`JOBS_CHANNEL`](crate::services::jobs::JOBS_CHANNEL) and wakes the workers at each
//! notification. The workers' polling stays as a safety net for the notifications that
//! it misses.

use vstd::prelude::*;

verus! {

/// How long the listener waits after a connection that could not be made, in seconds.
pub const RECONNECT_BACKOFF_SECS: u64 = 5;

/// What happened to the listener.
#[derive(Clone, Copy, Debug, PartialEq, Eq, Structural)]
pub enum ListenerEvent {
    /// The loop starts over: whether shutdown was asked for.
    LoopStarts { shutdown: bool },
    /// The connection is made and listens.
    Subscribed,
    /// The connection could not be made, or does not listen.
    SubscribeFailed,
    /// The wait is over: whether shutdown ended it.
    Waited { shutdown: bool },
    /// A notification came.
    Notified,
    /// The workers are awake.
    Woken,
    /// The connection broke.
    Lost,
    /// Shutdown was asked for while the listener waited for a notification.
    ShutDown,
}

/// What the listener does next.
#[derive(Clone, Copy, Debug, PartialEq, Eq, Structural)]
pub enum ListenerAsk {
    /// Start the loop over.
    StartLoop,
    /// Make a connection and listen.
    Subscribe,
    /// Wait for a notification or for shutdown.
    Receive,
    /// Wake the workers.
    Wake,
    /// Wait for the time or for shutdown.
    Wait { secs: u64 },
    Stop,
}

/// True for an event that tells of the shutdown.
pub open spec fn ends_listening(event: ListenerEvent) -> bool {
    match event {
        ListenerEvent::LoopStarts { shutdown } => shutdown,
        ListenerEvent::Waited { shutdown } => shutdown,
        ListenerEvent::ShutDown => true,
        _ => false,
    }
}

/// What the listener should do after an event.
pub open spec fn listener_answer(event: ListenerEvent) -> ListenerAsk {
    if ends_listening(event) {
        ListenerAsk::Stop
    } else {
        match event {
            ListenerEvent::LoopStarts { .. } => ListenerAsk::Subscribe,
            ListenerEvent::SubscribeFailed => ListenerAsk::Wait { secs: RECONNECT_BACKOFF_SECS },
            ListenerEvent::Notified => ListenerAsk::Wake,
            ListenerEvent::Subscribed | ListenerEvent::Woken => ListenerAsk::Receive,
            _ => ListenerAsk::StartLoop,
        }
    }
}

/// What the listener does after an event. It waits before it tries a connection again
/// that could not be made; a connection that broke it renews at once.
pub fn listener_step(event: ListenerEvent) -> (r: ListenerAsk)
    ensures
        r == listener_answer(event),
{
    match event {
        ListenerEvent::LoopStarts { shutdown } => if shutdown {
            ListenerAsk::Stop
        } else {
            ListenerAsk::Subscribe
        },
        ListenerEvent::Subscribed => ListenerAsk::Receive,
        ListenerEvent::SubscribeFailed => ListenerAsk::Wait { secs: RECONNECT_BACKOFF_SECS },
        ListenerEvent::Waited { shutdown } => if shutdown {
            ListenerAsk::Stop
        } else {
            ListenerAsk::StartLoop
        },
        ListenerEvent::Notified => ListenerAsk::Wake,
        ListenerEvent::Woken => ListenerAsk::Receive,
        ListenerEvent::Lost => ListenerAsk::StartLoop,
        ListenerEvent::ShutDown => ListenerAsk::Stop,
    }
}

/// The listener stops exactly when it is told of the shutdown, waits exactly when a
/// connection could not be made, and wakes the workers exactly when a notification
/// came.
pub proof fn law_listener_waits_only_after_a_failed_connection(event: ListenerEvent)
    ensures
        listener_answer(event) is Stop <==> ends_listening(event),
        listener_answer(event) is Wait <==> event is SubscribeFailed,
        listener_answer(event) is Wake <==> event is Notified,
{
}

} // verus!
