//! The decisions of the two MQTT loops: the subscriber that receives sensor
//! readings, and the publisher that sends alerts. Each loop waits for the
//! next event, hands it to a step function here, and performs the action
//! that comes back.

use vstd::prelude::*;

verus! {

/// Seconds a loop waits after a connection error before it polls again.
pub const RETRY_DELAY_SECS: u64 = 1;

/// Seconds between keep-alive pings of the subscriber's connection.
pub const KEEP_ALIVE_SECS: u64 = 5;

/// Capacity of the request queue of each MQTT client.
pub const CLIENT_QUEUE_CAPACITY: usize = 10;

/// What one poll of the subscriber's connection brought.
pub enum SubscriberEvent<D> {
    /// A published message whose payload is a reading.
    Reading(D),
    /// A published message whose payload is not a reading.
    UnreadablePublish,
    /// Any other packet or event of the connection.
    OtherEvent,
    /// The connection failed.
    ConnectionError,
}

/// What the subscriber does next.
pub enum SubscriberAction<D> {
    /// Hand the reading to the message handler.
    Deliver(D),
    /// Poll again at once.
    Continue,
    /// Wait this many seconds, then poll again.
    Wait(u64),
}

/// What the subscriber does after an event: a reading goes to the handler,
/// a message that is not a reading and any other event are passed over, and
/// a connection error makes it wait `RETRY_DELAY_SECS` before polling again.
/// The loop never ends of itself.
pub fn subscriber_step<D>(event: SubscriberEvent<D>) -> (action: SubscriberAction<D>)
    ensures
        event matches SubscriberEvent::Reading(d) ==> action == SubscriberAction::Deliver(d),
        event is UnreadablePublish ==> action is Continue,
        event is OtherEvent ==> action is Continue,
        event is ConnectionError ==> action == SubscriberAction::<D>::Wait(RETRY_DELAY_SECS),
{
    match event {
        SubscriberEvent::Reading(d) => SubscriberAction::Deliver(d),
        SubscriberEvent::UnreadablePublish => SubscriberAction::Continue,
        SubscriberEvent::OtherEvent => SubscriberAction::Continue,
        SubscriberEvent::ConnectionError => SubscriberAction::Wait(RETRY_DELAY_SECS),
    }
}

/// What the publisher's loop got: whichever came first of an alert to send
/// and the outcome of a poll of its connection.
pub enum PublisherEvent<A> {
    /// An alert to publish.
    Alert(A),
    /// The connection made progress.
    ConnectionOk,
    /// The connection failed.
    ConnectionError,
}

/// What the publisher does next.
pub enum PublisherAction<A> {
    /// Publish the alert on the alert topic.
    Publish(A),
    /// Wait for the next event at once.
    Continue,
    /// Wait this many seconds, then wait for the next event.
    Wait(u64),
}

/// What the publisher does after an event: an alert is published, progress
/// of the connection needs nothing, and a connection error makes it wait
/// `RETRY_DELAY_SECS`.
pub fn publisher_step<A>(event: PublisherEvent<A>) -> (action: PublisherAction<A>)
    ensures
        event matches PublisherEvent::Alert(a) ==> action == PublisherAction::Publish(a),
        event is ConnectionOk ==> action is Continue,
        event is ConnectionError ==> action == PublisherAction::<A>::Wait(RETRY_DELAY_SECS),
{
    match event {
        PublisherEvent::Alert(a) => PublisherAction::Publish(a),
        PublisherEvent::ConnectionOk => PublisherAction::Continue,
        PublisherEvent::ConnectionError => PublisherAction::Wait(RETRY_DELAY_SECS),
    }
}

} // verus!
