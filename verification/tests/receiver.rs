use std::time::{Duration, Instant};

use xbox360bb::{
    decode_state, ControllerEvent, ControllerId, ControllerSlot, ControllerState, Error,
    EventKind, Receiver, Step, TransferReply, TransferRequest, PACKET_LEN,
};

const LIBUSB_ERROR_TIMEOUT: i32 = -7;

fn receiver_with_release_timeout(release_timeout: Duration) -> Receiver {
    Receiver {
        interface_number: 0,
        endpoint_address: 0x81,
        read_timeout: Duration::from_millis(50),
        release_timeout,
        slots: [ControllerSlot::default(); 4],
    }
}

fn patient_receiver() -> Receiver {
    receiver_with_release_timeout(Duration::from_secs(3600))
}

fn packet(controller: u8, b3: u8, b4: u8) -> TransferReply {
    let mut packet = [0u8; PACKET_LEN];
    packet[2] = controller;
    packet[3] = b3;
    packet[4] = b4;
    TransferReply {
        code: 0,
        transferred: 5,
        packet,
    }
}

fn failure(code: i32) -> TransferReply {
    TransferReply {
        code,
        transferred: 0,
        packet: [0; PACKET_LEN],
    }
}

fn poll(receiver: &mut Receiver, reply: TransferReply) -> Option<ControllerEvent> {
    match receiver.poll_event(Duration::from_millis(10), Some(reply)) {
        Step::Done(Ok(event)) => event,
        other => panic!("unexpected step {:?}", other),
    }
}

#[test]
fn release_timeout_emits_idle_state() {
    let mut receiver = Receiver {
        interface_number: 0,
        endpoint_address: 0,
        read_timeout: Duration::from_millis(50),
        release_timeout: Duration::from_millis(10),
        slots: [ControllerSlot::default(); 4],
    };

    receiver.slots[0].state = decode_state(0x10, 0x10);
    receiver.slots[0].raw_b3 = 0x10;
    receiver.slots[0].raw_b4 = 0x10;
    receiver.slots[0].last_seen = Some(Instant::now() - Duration::from_millis(20));

    let event = receiver
        .check_release_timeouts()
        .expect("expected release event");
    assert_eq!(event.controller, ControllerId::Green);
    assert_eq!(event.kind, EventKind::Released);
    assert!(event.state.is_idle());
    assert!(receiver.slots[0].state.is_idle());
}

#[test]
fn no_release_before_the_timeout() {
    let mut receiver = patient_receiver();
    assert!(receiver.decode_packet(&[0, 0, 0, 0x10, 0]).is_some());
    assert_eq!(receiver.check_release_timeouts(), None);
    assert!(receiver.state(ControllerId::Green).start);
}

#[test]
fn release_needs_the_whole_timeout() {
    let mut receiver = receiver_with_release_timeout(Duration::from_millis(250));
    receiver.decode_packet(&[0, 0, 2, 0, 0x10]);
    let short = Duration::from_millis(250) - Duration::from_nanos(1);
    assert_eq!(receiver.release_silent(&[None, None, Some(short), None]), None);
    let event = receiver
        .release_silent(&[None, None, Some(Duration::from_millis(250)), None])
        .expect("release is due");
    assert_eq!(event.controller, ControllerId::Blue);
    assert_eq!(event.kind, EventKind::Released);
}

#[test]
fn idle_and_unseen_controllers_are_not_released() {
    let mut receiver = receiver_with_release_timeout(Duration::ZERO);
    let long = Some(Duration::from_secs(10));
    assert_eq!(receiver.release_silent(&[long, long, long, long]), None);
    receiver.decode_packet(&[0, 0, 0, 0x10, 0]);
    assert_eq!(receiver.release_silent(&[None, long, long, long]), None);
}

#[test]
fn silences_follow_the_clock() {
    let mut receiver = patient_receiver();
    let now = Instant::now();
    receiver.decode_packet_at(&[0, 0, 1, 0x10, 0], now);
    let silences = receiver.silences_at(now + Duration::from_millis(7));
    assert_eq!(
        silences,
        [None, Some(Duration::from_millis(7)), None, None]
    );
}

#[test]
fn packets_are_seen_at_the_time_of_decoding() {
    let mut receiver = patient_receiver();
    let before = Instant::now();
    receiver.decode_packet(&[0, 0, 3, 0, 0]);
    let after = Instant::now();
    let seen = receiver.slots[3].last_seen.expect("controller was seen");
    assert!(before <= seen && seen <= after);
}

#[test]
fn packets_become_events() {
    let mut receiver = patient_receiver();
    let event = receiver.decode_packet(&[0, 0, 1, 0x08, 0x20]);
    let state = ControllerState {
        dpad_x: 1,
        b: true,
        ..ControllerState::default()
    };
    assert_eq!(
        event,
        Some(ControllerEvent {
            controller: ControllerId::Red,
            state,
            kind: EventKind::StateChanged,
        })
    );
    assert_eq!(receiver.state(ControllerId::Red), state);
    assert!(receiver.state(ControllerId::Green).is_idle());
    assert!(receiver.state(ControllerId::Blue).is_idle());
    assert!(receiver.state(ControllerId::Yellow).is_idle());
}

#[test]
fn repeated_packets_are_suppressed() {
    let mut receiver = patient_receiver();
    let first = Instant::now();
    let second = first + Duration::from_millis(5);
    let bytes = [0, 0, 0, 0x10, 0x04];
    assert!(receiver.decode_packet_at(&bytes, first).is_some());
    assert_eq!(receiver.decode_packet_at(&bytes, second), None);
    assert_eq!(receiver.slots[0].last_seen, Some(second));
    assert_eq!(receiver.slots[0].state, decode_state(0x10, 0x04));
}

#[test]
fn explicit_release_packet_is_a_state_change() {
    let mut receiver = patient_receiver();
    receiver.decode_packet(&[0, 0, 0, 0x10, 0]);
    let event = receiver
        .decode_packet(&[0, 0, 0, 0, 0])
        .expect("state changed");
    assert_eq!(event.kind, EventKind::StateChanged);
    assert!(event.state.is_idle());
}

#[test]
fn first_idle_packet_is_no_event() {
    let mut receiver = patient_receiver();
    assert_eq!(receiver.decode_packet(&[0, 0, 0, 0, 0]), None);
    assert!(receiver.slots[0].last_seen.is_some());
}

#[test]
fn foreign_packets_have_no_effect() {
    let mut receiver = patient_receiver();
    assert_eq!(receiver.decode_packet(&[0, 0, 4]), None);
    assert_eq!(receiver.decode_packet(&[0, 0, 255, 0x10, 0x10]), None);
    for slot in receiver.slots {
        assert!(slot.last_seen.is_none());
        assert!(slot.state.is_idle());
    }
}

#[test]
fn released_controller_starts_over() {
    let mut receiver = receiver_with_release_timeout(Duration::from_millis(10));
    let bytes = [0, 0, 0, 0x10, 0];
    receiver.decode_packet(&bytes);
    let long = Some(Duration::from_millis(10));
    assert!(receiver.release_silent(&[long, None, None, None]).is_some());
    assert!(receiver.slots[0].last_seen.is_none());
    assert_eq!(receiver.slots[0].raw_b3, 0);
    assert_eq!(receiver.check_release_timeouts(), None);
    let event = receiver.decode_packet(&bytes).expect("pressed again");
    assert_eq!(event.kind, EventKind::StateChanged);
    assert!(event.state.start);
}

#[test]
fn due_controllers_are_released_in_slot_order() {
    let mut receiver = receiver_with_release_timeout(Duration::ZERO);
    for controller in [3, 1, 0, 2] {
        receiver.decode_packet(&[0, 0, controller, 0x20, 0]);
    }
    for controller in ControllerId::ALL {
        let event = receiver.check_release_timeouts().expect("still due");
        assert_eq!(event.controller, controller);
        assert!(receiver.state(controller).is_idle());
    }
    assert_eq!(receiver.check_release_timeouts(), None);
}

#[test]
fn poll_asks_for_a_transfer() {
    let mut receiver = patient_receiver();
    match receiver.poll_event(Duration::from_millis(10), None) {
        Step::Call(request) => assert_eq!(
            request,
            TransferRequest {
                endpoint_address: 0x81,
                length: 32,
                timeout_ms: 10,
            }
        ),
        other => panic!("unexpected step {:?}", other),
    }
}

#[test]
fn poll_never_waits_without_limit() {
    let mut receiver = patient_receiver();
    for (timeout, timeout_ms) in [
        (Duration::ZERO, 1),
        (Duration::from_nanos(1), 1),
        (Duration::from_micros(999), 1),
        (Duration::from_millis(1), 1),
        (Duration::from_micros(2_500), 2),
        (Duration::from_millis(u32::MAX as u64), u32::MAX),
    ] {
        receiver.read_timeout = timeout;
        match receiver.poll_event(timeout, None) {
            Step::Call(request) => assert_eq!(request.timeout_ms, timeout_ms),
            other => panic!("unexpected step {:?}", other),
        }
        match receiver.next_event(Some(failure(LIBUSB_ERROR_TIMEOUT))) {
            Step::Call(request) => assert_eq!(request.timeout_ms, timeout_ms),
            other => panic!("unexpected step {:?}", other),
        }
    }
    match receiver.poll_event(Duration::ZERO, Some(failure(LIBUSB_ERROR_TIMEOUT))) {
        Step::Done(Ok(event)) => assert_eq!(event, None),
        other => panic!("unexpected step {:?}", other),
    }
}

#[test]
fn poll_refuses_long_timeouts() {
    let mut receiver = patient_receiver();
    let long = Duration::from_secs(5_000_000);
    assert!(matches!(
        receiver.poll_event(long, None),
        Step::Done(Err(Error::TimeoutTooLarge(timeout))) if timeout == long
    ));
    receiver.read_timeout = long;
    assert!(matches!(
        receiver.next_event(None),
        Step::Done(Err(Error::TimeoutTooLarge(_)))
    ));
}

#[test]
fn poll_on_silence_is_empty() {
    let mut receiver = patient_receiver();
    assert_eq!(poll(&mut receiver, failure(LIBUSB_ERROR_TIMEOUT)), None);
}

#[test]
fn poll_on_silence_releases() {
    let mut receiver = receiver_with_release_timeout(Duration::ZERO);
    receiver.decode_packet(&[0, 0, 2, 0x20, 0]);
    let event = poll(&mut receiver, failure(LIBUSB_ERROR_TIMEOUT)).expect("release is due");
    assert_eq!(event.controller, ControllerId::Blue);
    assert_eq!(event.kind, EventKind::Released);
}

#[test]
fn poll_reports_failed_transfers() {
    let mut receiver = receiver_with_release_timeout(Duration::ZERO);
    receiver.decode_packet(&[0, 0, 2, 0x20, 0]);
    assert!(matches!(
        receiver.poll_event(Duration::ZERO, Some(failure(-4))),
        Step::Done(Err(Error::Usb(-4)))
    ));
    assert!(receiver.state(ControllerId::Blue).back);
}

#[test]
fn poll_ignores_short_packets() {
    let mut receiver = patient_receiver();
    let mut reply = packet(0, 0x10, 0);
    reply.transferred = 4;
    assert_eq!(poll(&mut receiver, reply), None);
    assert!(receiver.state(ControllerId::Green).is_idle());
    reply.transferred = -1;
    assert_eq!(poll(&mut receiver, reply), None);
    reply.transferred = 32;
    assert!(poll(&mut receiver, reply).is_some());
}

#[test]
fn poll_takes_packets() {
    let mut receiver = patient_receiver();
    let event = poll(&mut receiver, packet(3, 0, 0x80)).expect("new packet");
    assert_eq!(event.controller, ControllerId::Yellow);
    assert!(event.state.y);
    assert_eq!(poll(&mut receiver, packet(3, 0, 0x80)), None);
}

#[test]
fn repeat_of_one_controller_lets_another_be_released() {
    let mut receiver = receiver_with_release_timeout(Duration::from_secs(60));
    let now = Instant::now();
    receiver.decode_packet_at(&[0, 0, 0, 0x10, 0], now);
    receiver.decode_packet_at(&[0, 0, 1, 0x10, 0], now - Duration::from_secs(61));
    let event = poll(&mut receiver, packet(0, 0x10, 0)).expect("red is due");
    assert_eq!(event.controller, ControllerId::Red);
    assert_eq!(event.kind, EventKind::Released);
    assert!(receiver.state(ControllerId::Green).start);
}

#[test]
fn next_event_waits_until_there_is_one() {
    let mut receiver = patient_receiver();
    let request = TransferRequest {
        endpoint_address: 0x81,
        length: 32,
        timeout_ms: 50,
    };
    for reply in [
        None,
        Some(failure(LIBUSB_ERROR_TIMEOUT)),
        Some(packet(7, 0x10, 0)),
        Some(packet(0, 0, 0)),
    ] {
        match receiver.next_event(reply) {
            Step::Call(asked) => assert_eq!(asked, request),
            other => panic!("unexpected step {:?}", other),
        }
    }
    match receiver.next_event(Some(packet(0, 0x01, 0))) {
        Step::Done(Ok(event)) => assert_eq!(event.state.dpad_y, -1),
        other => panic!("unexpected step {:?}", other),
    }
    assert!(matches!(
        receiver.next_event(Some(failure(-1))),
        Step::Done(Err(Error::Usb(-1)))
    ));
}

#[test]
fn events_go_on_after_events_and_errors() {
    let mut receiver = patient_receiver();
    let mut events = receiver.events();
    assert!(matches!(events.next(None), Step::Call(_)));
    assert!(matches!(
        events.next(Some(packet(1, 0x10, 0))),
        Step::Done(Some(Ok(_)))
    ));
    assert!(matches!(
        events.next(Some(failure(-9))),
        Step::Done(Some(Err(Error::Usb(-9))))
    ));
    assert!(matches!(
        events.next(Some(packet(1, 0x20, 0))),
        Step::Done(Some(Ok(_)))
    ));
    assert!(receiver.state(ControllerId::Red).back);
}

#[test]
fn state_is_that_of_the_latest_event() {
    let mut receiver = receiver_with_release_timeout(Duration::ZERO);
    let mut latest = [ControllerState::default(); 4];
    let replies = [
        packet(0, 0x10, 0),
        packet(1, 0x20, 0),
        packet(0, 0x10, 0),
        failure(-1),
        failure(LIBUSB_ERROR_TIMEOUT),
        packet(2, 0, 0x40),
        failure(LIBUSB_ERROR_TIMEOUT),
        packet(9, 1, 1),
    ];
    for reply in replies {
        if let Step::Done(Ok(Some(event))) = receiver.poll_event(Duration::ZERO, Some(reply)) {
            latest[event.controller.index()] = event.state;
        }
        for controller in ControllerId::ALL {
            assert_eq!(receiver.state(controller), latest[controller.index()]);
        }
    }
}
