use indoor_sensors::channel::AggregationChannel;
use indoor_sensors::publisher::{dispatch, Delivery, Dispatch, Publisher, PublisherStep, RetryPolicy};
use indoor_sensors::Payload;

fn message(n: u32) -> Payload {
    Payload::new(String::from("/ws/2/grp/generic"), format!("{{\"id\":{}}}", n))
}

#[test]
fn payload_keeps_destination_and_body() {
    let p = Payload::new(String::from("/ws/2/grp/generic"), String::from("{}"));
    assert_eq!(p.queue(), "/ws/2/grp/generic");
    assert_eq!(p.bytes(), "{}");
    assert!(!p.is_poison());
    assert_eq!(p.duplicate(), p);
}

#[test]
fn sentinel_is_poison_in_both_parts() {
    let p = Payload::poison();
    assert_eq!(p.queue(), "poison");
    assert_eq!(p.bytes(), "poison");
    assert!(p.is_poison());
    assert!(Payload::new(String::from("poison"), String::from("poison")).is_poison());
}

#[test]
fn half_a_sentinel_is_a_message() {
    assert!(!Payload::new(String::from("poison"), String::from("{}")).is_poison());
    assert!(!Payload::new(String::from("/ws/2/grp/generic"), String::from("poison")).is_poison());
    assert!(!Payload::new(String::from("Poison"), String::from("poison")).is_poison());
    assert!(!Payload::new(String::from("poison "), String::from("poison")).is_poison());
    assert!(!Payload::new(String::new(), String::new()).is_poison());
}

#[test]
fn channel_is_first_in_first_out() {
    let mut c = AggregationChannel::new();
    assert!(c.is_empty());
    assert_eq!(c.receive(), None);
    let mut n: u32 = 0;
    while n < 100 {
        c.send(message(n));
        n += 1;
    }
    assert_eq!(c.len(), 100);
    let mut n: u32 = 0;
    while n < 100 {
        assert_eq!(c.receive(), Some(message(n)));
        n += 1;
    }
    assert_eq!(c.receive(), None);
    assert!(c.is_empty());
}

#[test]
fn sending_never_waits_for_the_consumer() {
    let mut c = AggregationChannel::new();
    let mut n: u32 = 0;
    while n < 10_000 {
        c.send(message(n));
        n += 1;
    }
    assert_eq!(c.len(), 10_000);
    assert_eq!(c.receive(), Some(message(0)));
    c.send(message(10_000));
    assert_eq!(c.receive(), Some(message(1)));
}

#[test]
fn standard_policy_is_five_attempts_of_a_second() {
    let p = RetryPolicy::standard();
    assert_eq!(p.max_attempts, 5);
    assert_eq!(p.timeout_ms, 1000);
    assert_eq!(p.start(), Delivery::Attempt(1));
}

#[test]
fn fifth_attempt_delivers_after_four_failures() {
    let p = RetryPolicy::standard();
    let mut state = p.start();
    let mut attempts: u32 = 0;
    for acknowledged in [false, false, false, false, true].iter() {
        assert_eq!(state, Delivery::Attempt(attempts + 1));
        state = p.on_result(state, *acknowledged);
        attempts += 1;
    }
    assert_eq!(state, Delivery::Delivered(5));
    assert_eq!(p.on_result(state, false), Delivery::Delivered(5));
    assert_eq!(p.on_result(state, true), Delivery::Delivered(5));
    assert_eq!(p.replay(&vec![false, false, false, false, true]), Delivery::Delivered(5));
    assert_eq!(p.replay(&vec![false, false, false, false, true, false, true]), Delivery::Delivered(5));
}

#[test]
fn five_failures_drop_the_message_and_the_publisher_goes_on() {
    let p = RetryPolicy::standard();
    assert_eq!(p.replay(&vec![false, false, false, false]), Delivery::Attempt(5));
    assert_eq!(p.replay(&vec![false, false, false, false, false]), Delivery::Dropped(5));
    assert_eq!(p.replay(&vec![false, false, false, false, false, true]), Delivery::Dropped(5));

    let mut publisher = Publisher::new(p);
    let mut channel = AggregationChannel::new();
    channel.send(message(1));
    channel.send(message(2));
    assert!(matches!(publisher.next(&mut channel), PublisherStep::Deliver(m) if m == message(1)));
    assert_eq!(p.replay(&vec![false; 5]), Delivery::Dropped(5));
    assert!(!publisher.is_terminated());
    assert!(matches!(publisher.next(&mut channel), PublisherStep::Deliver(m) if m == message(2)));
}

#[test]
fn first_acknowledgement_ends_the_delivery() {
    let p = RetryPolicy::standard();
    assert_eq!(p.replay(&vec![true]), Delivery::Delivered(1));
    assert_eq!(p.replay(&vec![false, true]), Delivery::Delivered(2));
    assert_eq!(p.replay(&vec![false, true, true]), Delivery::Delivered(2));
    assert_eq!(p.replay(&vec![]), Delivery::Attempt(1));
}

#[test]
fn policy_without_attempts_drops_at_once() {
    let p = RetryPolicy { max_attempts: 0, timeout_ms: 1000 };
    assert_eq!(p.start(), Delivery::Dropped(0));
    assert_eq!(p.replay(&vec![true]), Delivery::Dropped(0));
}

#[test]
fn policy_of_one_attempt_does_not_retry() {
    let p = RetryPolicy { max_attempts: 1, timeout_ms: 50 };
    assert_eq!(p.replay(&vec![false]), Delivery::Dropped(1));
    assert_eq!(p.replay(&vec![true]), Delivery::Delivered(1));
}

#[test]
fn sentinel_is_dispatched_to_termination() {
    assert_eq!(dispatch(&Payload::poison()), Dispatch::Terminate);
    assert_eq!(dispatch(&message(1)), Dispatch::Deliver);
}

#[test]
fn sentinel_ends_the_process_where_it_is_dequeued() {
    let mut before: usize = 0;
    while before <= 6 {
        let mut behind: usize = 0;
        while behind <= 3 {
            let mut channel = AggregationChannel::new();
            let mut n: usize = 0;
            while n < before {
                channel.send(message(n as u32));
                n += 1;
            }
            channel.send(Payload::poison());
            n = 0;
            while n < behind {
                channel.send(message(100 + n as u32));
                n += 1;
            }
            let mut publisher = Publisher::new(RetryPolicy::standard());
            n = 0;
            while n < before {
                let step = publisher.next(&mut channel);
                assert!(matches!(step, PublisherStep::Deliver(m) if m == message(n as u32)));
                assert!(!publisher.is_terminated());
                n += 1;
            }
            assert!(matches!(publisher.next(&mut channel), PublisherStep::Terminate));
            assert!(publisher.is_terminated());
            assert_eq!(channel.len(), behind);
            assert!(matches!(publisher.next(&mut channel), PublisherStep::Terminate));
            assert_eq!(channel.len(), behind);
            behind += 1;
        }
        before += 1;
    }
}

#[test]
fn draining_delivers_what_was_queued_before_the_sentinel() {
    let mut channel = AggregationChannel::new();
    channel.send(message(1));
    channel.send(message(2));
    channel.send(message(3));
    channel.send(Payload::poison());
    channel.send(message(4));
    channel.send(Payload::poison());
    let mut publisher = Publisher::new(RetryPolicy::standard());
    let delivered = publisher.drain(&mut channel);
    assert_eq!(delivered, vec![message(1), message(2), message(3)]);
    assert!(publisher.is_terminated());
    assert_eq!(channel.len(), 2);
    assert_eq!(channel.receive(), Some(message(4)));
}

#[test]
fn draining_without_a_sentinel_delivers_everything() {
    let mut channel = AggregationChannel::new();
    channel.send(message(1));
    channel.send(message(2));
    let mut publisher = Publisher::new(RetryPolicy::standard());
    assert_eq!(publisher.drain(&mut channel), vec![message(1), message(2)]);
    assert!(!publisher.is_terminated());
    assert!(channel.is_empty());
    assert!(matches!(publisher.next(&mut channel), PublisherStep::Idle));
    assert_eq!(publisher.policy(), RetryPolicy::standard());
}

#[test]
fn a_terminated_publisher_takes_nothing() {
    let mut channel = AggregationChannel::new();
    channel.send(Payload::poison());
    channel.send(message(1));
    let mut publisher = Publisher::new(RetryPolicy::standard());
    assert!(publisher.drain(&mut channel).is_empty());
    assert!(publisher.is_terminated());
    assert!(publisher.drain(&mut channel).is_empty());
    assert_eq!(channel.len(), 1);
}
