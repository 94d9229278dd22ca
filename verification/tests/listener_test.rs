use mini_tiktok_auth::combined_incoming::{
    first_poll_step, second_poll_step, FirstPollStep, MergePoll, SecondPollStep,
};

#[test]
fn concurrent_arrivals_both_delivered() {
    // Both listeners have a connection waiting. The cycle's first step
    // yields the first listener's connection and never asks for the
    // second listener's answer, so that arrival is left unaccepted and
    // intact.
    let first_cycle = first_poll_step(MergePoll::Ready(Some("ipv4-conn")));
    assert_eq!(first_cycle, FirstPollStep::Yield(Some("ipv4-conn")));

    // Next cycle: the first arrival is consumed, so the first listener
    // is pending; the step goes on to the second listener, whose
    // connection is still there and is yielded in turn — neither
    // starves the other.
    let second_cycle = first_poll_step(MergePoll::<&str>::Pending);
    assert_eq!(second_cycle, FirstPollStep::PollSecond);
    let delivered = second_poll_step(MergePoll::Ready(Some("ipv6-conn")));
    assert_eq!(delivered, SecondPollStep::Yield(Some("ipv6-conn")));
}

#[test]
fn ready_first_listener_short_circuits() {
    // A ready first listener decides the cycle by itself: the decision
    // is a yield, never a request to poll the second listener.
    let step = first_poll_step(MergePoll::Ready(Some(7)));
    assert_eq!(step, FirstPollStep::Yield(Some(7)));
    assert_ne!(step, FirstPollStep::PollSecond);
}

#[test]
fn terminal_event_propagates() {
    let first_ended = first_poll_step(MergePoll::Ready(None::<u8>));
    assert_eq!(first_ended, FirstPollStep::Yield(None));

    let second_ended = second_poll_step(MergePoll::Ready(None::<u8>));
    assert_eq!(second_ended, SecondPollStep::Yield(None));
}

#[test]
fn neither_ready_suspends() {
    assert_eq!(first_poll_step(MergePoll::<u8>::Pending), FirstPollStep::PollSecond);
    assert_eq!(second_poll_step(MergePoll::<u8>::Pending), SecondPollStep::Suspend);
}
