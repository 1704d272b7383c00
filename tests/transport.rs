use defmtusb::transport::{packet_lengths, Action, ConnectionState, Event, Link};
use defmtusb::Fault;

#[test]
fn run_of_two_full_packets_ends_with_empty_packet() {
    assert_eq!(packet_lengths(128, 64), vec![64, 64, 0]);
}

#[test]
fn short_remainder_needs_no_empty_packet() {
    assert_eq!(packet_lengths(130, 64), vec![64, 64, 2]);
    assert_eq!(packet_lengths(10, 64), vec![10]);
}

#[test]
fn empty_run_sends_nothing() {
    assert_eq!(packet_lengths(0, 64), Vec::<usize>::new());
}

#[test]
fn packet_count_is_ceiling_plus_terminator() {
    for size in 1..20usize {
        for len in 0..100usize {
            let plan = packet_lengths(len, size);
            let data = plan.iter().filter(|&&p| p > 0).count();
            assert_eq!(data, (len + size - 1) / size);
            let terminator = len > 0 && len % size == 0;
            assert_eq!(plan.len(), data + usize::from(terminator));
            assert_eq!(plan.iter().sum::<usize>(), len);
            assert!(plan.iter().all(|&p| p <= size));
        }
    }
}

#[test]
fn nothing_is_sent_before_both_control_lines_assert() {
    let mut link = Link::new(64);
    assert_eq!(link.state(), ConnectionState::Disconnected);
    assert_eq!(link.step(Event::Readable(10)), Action::AwaitConnection);
    assert_eq!(link.step(Event::Connected), Action::ReadControlLines);
    assert_eq!(
        link.step(Event::ControlLines { dtr: false, rts: false }),
        Action::AwaitControlChange
    );
    assert_eq!(link.step(Event::Readable(10)), Action::ReadControlLines);
    assert_eq!(
        link.step(Event::ControlLines { dtr: true, rts: false }),
        Action::AwaitControlChange
    );
    assert_eq!(
        link.step(Event::ControlLines { dtr: false, rts: true }),
        Action::AwaitControlChange
    );
    assert_eq!(link.state(), ConnectionState::ConnectedAwaitingFlowControl);
    assert_eq!(
        link.step(Event::ControlLines { dtr: true, rts: true }),
        Action::AwaitReadable
    );
    assert_eq!(link.step(Event::Readable(10)), Action::Send(vec![10]));
    assert_eq!(link.step(Event::Sent), Action::Commit(10));
    assert_eq!(link.state(), ConnectionState::Streaming);
}

#[test]
fn disabled_endpoint_discards_view_and_waits_for_connection() {
    let mut link = Link::new(64);
    link.step(Event::Connected);
    link.step(Event::ControlLines { dtr: true, rts: true });
    assert_eq!(link.step(Event::Readable(128)), Action::Send(vec![64, 64, 0]));
    assert_eq!(link.state(), ConnectionState::Sending(128));
    assert_eq!(link.step(Event::EndpointDisabled), Action::Discard(128));
    assert_eq!(link.state(), ConnectionState::Disconnected);
    assert_eq!(link.step(Event::Readable(5)), Action::AwaitConnection);
    assert_eq!(link.step(Event::Connected), Action::ReadControlLines);
    assert_eq!(
        link.step(Event::ControlLines { dtr: true, rts: true }),
        Action::AwaitReadable
    );
    assert_eq!(link.step(Event::Readable(5)), Action::Send(vec![5]));
}

#[test]
fn disabled_while_idle_only_waits_for_connection() {
    let mut link = Link::new(64);
    link.step(Event::Connected);
    assert_eq!(link.step(Event::EndpointDisabled), Action::AwaitConnection);
    assert_eq!(link.state(), ConnectionState::Disconnected);
}

#[test]
fn unexpected_event_repeats_pending_send() {
    let mut link = Link::new(8);
    link.step(Event::Connected);
    link.step(Event::ControlLines { dtr: true, rts: true });
    assert_eq!(link.step(Event::Readable(0)), Action::AwaitReadable);
    assert_eq!(link.step(Event::Readable(20)), Action::Send(vec![8, 8, 4]));
    assert_eq!(link.step(Event::Connected), Action::Send(vec![8, 8, 4]));
    assert_eq!(link.packet_size(), 8);
}

#[test]
fn fault_messages_name_the_broken_invariant() {
    assert_eq!(defmtusb::panic(Fault::ReentrantAcquire), "defmt logger taken reentrantly");
    assert_eq!(defmtusb::panic(Fault::ReleaseWhileIdle), "defmt release outside of critical section.");
    assert_eq!(
        defmtusb::panic(Fault::PacketTooLarge),
        "Sent chunks are limited to Sender max packet size."
    );
}
