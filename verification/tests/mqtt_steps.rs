use spindle_backend::mqtt::{
    publisher_step, subscriber_step, PublisherAction, PublisherEvent, SubscriberAction,
    SubscriberEvent, RETRY_DELAY_SECS,
};

#[test]
fn subscriber_delivers_readings() {
    match subscriber_step(SubscriberEvent::Reading(42u32)) {
        SubscriberAction::Deliver(d) => assert_eq!(d, 42),
        _ => panic!("a reading must be delivered"),
    }
}

#[test]
fn subscriber_passes_over_other_events() {
    assert!(matches!(
        subscriber_step::<u32>(SubscriberEvent::UnreadablePublish),
        SubscriberAction::Continue
    ));
    assert!(matches!(
        subscriber_step::<u32>(SubscriberEvent::OtherEvent),
        SubscriberAction::Continue
    ));
}

#[test]
fn subscriber_waits_one_second_after_an_error() {
    assert!(matches!(
        subscriber_step::<u32>(SubscriberEvent::ConnectionError),
        SubscriberAction::Wait(1)
    ));
    assert_eq!(RETRY_DELAY_SECS, 1);
}

#[test]
fn publisher_steps() {
    match publisher_step(PublisherEvent::Alert("a")) {
        PublisherAction::Publish(a) => assert_eq!(a, "a"),
        _ => panic!("an alert must be published"),
    }
    assert!(matches!(publisher_step::<&str>(PublisherEvent::ConnectionOk), PublisherAction::Continue));
    assert!(matches!(
        publisher_step::<&str>(PublisherEvent::ConnectionError),
        PublisherAction::Wait(1)
    ));
}
